//! The player's state: the library of tracks, the selection, what is playing,
//! the visualizer's mode and bars, and the decisions taken on keys and ticks.
use vstd::prelude::*;
use crate::track::{Track, WalkEntry, FileInfo, audio_entries, audio_file_indices, copy_probe, track_from};
use crate::ring::lemma_mod_step;
use vstd::arithmetic::div_mod::{lemma_small_mod, lemma_mod_add_multiples_vanish};

verus! {

/// Name shown while nothing has been played yet.
pub const NO_TRACK_LOADED: &'static str = "Ninguna pista cargada";

/// Slots of the ring that the decoder writes samples into.
pub const SAMPLE_RING_SIZE: usize = 4096;

/// Samples analysed per visualizer frame.
pub const VIS_WINDOW: usize = 2048;

/// Bars of the spectrum.
pub const SPECTRUM_BARS: usize = 24;

/// Highest bar of the spectrum.
pub const MAX_BAR_HEIGHT: u64 = 100;

/// Points drawn by the oscilloscope.
pub const SCOPE_POINTS: usize = 1024;

/// Samples of the analysed window that each spectrum bar averages.
pub open spec fn bin_size() -> nat {
    ((VIS_WINDOW / 2) / SPECTRUM_BARS) as nat
}

/// The range of frequency bins, `start..end`, that spectrum bar `i` averages:
/// the bars split the lower half of the window's bins into equal runs, one
/// after the other.
pub fn spectrum_bin(i: usize) -> (r: (usize, usize))
    requires
        i < SPECTRUM_BARS,
    ensures
        r.0 == i * bin_size(),
        r.1 == r.0 + bin_size(),
        r.1 <= VIS_WINDOW / 2,
{
    let usable = VIS_WINDOW / 2;
    let size = usable / SPECTRUM_BARS;
    assert(size == 42);
    let start = i * size;
    (start, start + size)
}

/// Each of the 24 bars averages its own run of 42 frequency bins: the runs
/// follow one another without gap or overlap and stay within the lower half of
/// the 2048-sample window.
pub proof fn law_spectrum_bins(i: nat)
    requires
        i < 24,
    ensures
        bin_size() == 42,
        i * bin_size() + bin_size() == (i + 1) * bin_size(),
        (i + 1) * bin_size() <= 1024,
{
    assert(bin_size() == 42);
    assert((i + 1) * 42 <= 24 * 42) by (nonlinear_arith)
        requires
            i < 24,
    ;
}

/// What the visualizer shows.
#[derive(PartialEq, Eq, Structural, Clone, Copy, Debug)]
pub enum VisMode {
    Spectrum,
    Oscilloscope,
}

/// The player's state, apart from the audio output and the terminal.
pub struct App {
    pub quit: bool,
    pub items: Vec<Track>,
    pub selected: Option<usize>,
    pub current_track_name: String,
    pub loop_track: bool,
    pub fft_bars: Vec<u64>,
    pub vis_mode: VisMode,
}

/// A track to start: the file to open and the name to show once it plays.
pub struct PlayRequest {
    pub path: String,
    pub display_name: String,
}

/// What the caller has to do with the audio output after a key or a tick.
pub enum Action {
    Nothing,
    TogglePlayback,
    Play(PlayRequest),
}

/// A key press, as far as the player tells keys apart.
#[derive(PartialEq, Eq, Structural, Clone, Copy, Debug)]
pub enum Key {
    Char(char),
    Up,
    Down,
    Left,
    Right,
    Enter,
    Other,
}

/// The commands of the player.
#[derive(PartialEq, Eq, Structural, Clone, Copy, Debug)]
pub enum Command {
    Quit,
    TogglePlayback,
    Previous,
    Next,
    PlaySelected,
    PlayNext,
    PlayPrevious,
    ToggleLoop,
    ToggleVisualizer,
}

/// Which command a key press gives.
pub open spec fn spec_command_for_key(key: Key) -> Option<Command> {
    match key {
        Key::Char(c) => if c == 'q' {
            Some(Command::Quit)
        } else if c == ' ' {
            Some(Command::TogglePlayback)
        } else if c == 'n' {
            Some(Command::PlayNext)
        } else if c == 'p' {
            Some(Command::PlayPrevious)
        } else if c == 'l' {
            Some(Command::ToggleLoop)
        } else if c == 'v' {
            Some(Command::ToggleVisualizer)
        } else {
            None
        },
        Key::Up => Some(Command::Previous),
        Key::Down => Some(Command::Next),
        Key::Enter => Some(Command::PlaySelected),
        Key::Right => Some(Command::PlayNext),
        Key::Left => Some(Command::PlayPrevious),
        Key::Other => None,
    }
}

/// The command of a key press, if it has one.
pub fn command_for_key(key: Key) -> (c: Option<Command>)
    ensures
        c == spec_command_for_key(key),
        c == Some(Command::Quit) <==> key == Key::Char('q'),
{
    match key {
        Key::Char(c) => if c == 'q' {
            Some(Command::Quit)
        } else if c == ' ' {
            Some(Command::TogglePlayback)
        } else if c == 'n' {
            Some(Command::PlayNext)
        } else if c == 'p' {
            Some(Command::PlayPrevious)
        } else if c == 'l' {
            Some(Command::ToggleLoop)
        } else if c == 'v' {
            Some(Command::ToggleVisualizer)
        } else {
            None
        },
        Key::Up => Some(Command::Previous),
        Key::Down => Some(Command::Next),
        Key::Enter => Some(Command::PlaySelected),
        Key::Right => Some(Command::PlayNext),
        Key::Left => Some(Command::PlayPrevious),
        Key::Other => None,
    }
}

/// Index of the last entry of a list of `n`, 0 for an empty list.
pub open spec fn last_index(n: nat) -> nat {
    if n == 0 { 0 } else { (n - 1) as nat }
}

/// The entry selected after moving down in a list of `n`: one further, or
/// back to the first one from the last entry (or beyond it), or the first one
/// when nothing was selected.
pub open spec fn next_selection(sel: Option<usize>, n: nat) -> nat {
    match sel {
        Some(i) => if i >= last_index(n) { 0 } else { (i + 1) as nat },
        None => 0,
    }
}

/// The entry selected after moving up in a list of `n`: one back, or on to
/// the last entry from the first one, or the first one when nothing was selected.
pub open spec fn previous_selection(sel: Option<usize>, n: nat) -> nat {
    match sel {
        Some(i) => if i == 0 { last_index(n) } else { (i - 1) as nat },
        None => 0,
    }
}

/// The track that playing the selection starts, if the selection names one.
pub open spec fn selected_track(items: Seq<Track>, sel: Option<usize>) -> Option<Track> {
    match sel {
        Some(i) => if i < items.len() { Some(items[i as int]) } else { None },
        None => None,
    }
}

/// Whether a play request is the one for a track.
pub open spec fn requests(req: PlayRequest, t: Track) -> bool {
    req.path@ == t.path@ && req.display_name@ == t.display_name@
}

/// Whether an optional play request matches an optional track.
pub open spec fn requests_opt(req: Option<PlayRequest>, t: Option<Track>) -> bool {
    match (req, t) {
        (Some(r), Some(t)) => requests(r, t),
        (None, None) => true,
        _ => false,
    }
}

/// Whether an action starts exactly the given track, or does nothing when there is none.
pub open spec fn action_plays(a: Action, t: Option<Track>) -> bool {
    match t {
        Some(t) => a matches Action::Play(r) && requests(r, t),
        None => a is Nothing,
    }
}

/// Heights of the spectrum bars: each raw height, capped at the highest bar.
pub open spec fn capped_heights(raw: Seq<u64>) -> Seq<u64> {
    Seq::new(raw.len(), |i: int| if raw[i] > MAX_BAR_HEIGHT { MAX_BAR_HEIGHT } else { raw[i] })
}

/// Whether `new` differs from `old` only in the selection.
pub open spec fn same_but_selection(new: App, old: App) -> bool {
    &&& new.quit == old.quit
    &&& new.items@ == old.items@
    &&& new.current_track_name@ == old.current_track_name@
    &&& new.loop_track == old.loop_track
    &&& new.fft_bars@ == old.fft_bars@
    &&& new.vis_mode == old.vis_mode
}

impl App {
    /// The state at start: no tracks, the first entry selected, nothing played,
    /// no loop, a flat spectrum of 24 bars.
    pub fn new() -> (app: App)
        ensures
            !app.quit,
            app.items@.len() == 0,
            app.selected == Some(0usize),
            app.current_track_name@ == NO_TRACK_LOADED@,
            !app.loop_track,
            app.fft_bars@ == Seq::new(SPECTRUM_BARS as nat, |i: int| 0u64),
            app.vis_mode == VisMode::Spectrum,
    {
        let mut fft_bars: Vec<u64> = Vec::new();
        while fft_bars.len() < SPECTRUM_BARS
            invariant
                fft_bars@.len() <= SPECTRUM_BARS,
                forall|i: int| 0 <= i < fft_bars@.len() ==> fft_bars@[i] == 0u64,
            decreases SPECTRUM_BARS - fft_bars@.len(),
        {
            fft_bars.push(0);
        }
        assert(fft_bars@ =~= Seq::new(SPECTRUM_BARS as nat, |i: int| 0u64));
        App {
            quit: false,
            items: Vec::new(),
            selected: Some(0),
            current_track_name: String::from_str(NO_TRACK_LOADED),
            loop_track: false,
            fft_bars,
            vis_mode: VisMode::Spectrum,
        }
    }

    /// Switches between spectrum and oscilloscope.
    pub fn toggle_visualizer(&mut self)
        ensures
            final(self).vis_mode == toggled_mode(old(self).vis_mode),
            final(self).quit == old(self).quit,
            final(self).items@ == old(self).items@,
            final(self).selected == old(self).selected,
            final(self).current_track_name@ == old(self).current_track_name@,
            final(self).loop_track == old(self).loop_track,
            final(self).fft_bars@ == old(self).fft_bars@,
    {
        self.vis_mode = match self.vis_mode {
            VisMode::Spectrum => VisMode::Oscilloscope,
            VisMode::Oscilloscope => VisMode::Spectrum,
        };
    }

    /// Switches repeating the current track on or off.
    pub fn toggle_loop(&mut self)
        ensures
            final(self).loop_track == !old(self).loop_track,
            final(self).quit == old(self).quit,
            final(self).items@ == old(self).items@,
            final(self).selected == old(self).selected,
            final(self).current_track_name@ == old(self).current_track_name@,
            final(self).fft_bars@ == old(self).fft_bars@,
            final(self).vis_mode == old(self).vis_mode,
    {
        self.loop_track = !self.loop_track;
    }

    /// Replaces the library by the audio files of a directory walk: for each
    /// entry with extension "mp3" or "flac", in walk order, the track built from
    /// what was read of that file (`probes[k]` for the `k`-th such entry). The
    /// selection stays as it was.
    pub fn scan_directory(&mut self, entries: &Vec<WalkEntry>, probes: &Vec<Option<FileInfo>>)
        requires
            probes@.len() == audio_entries(entries@).len(),
        ensures
            final(self).items@.len() == audio_entries(entries@).len(),
            forall|k: int|
                0 <= k < final(self).items@.len() ==> track_from(
                    #[trigger] final(self).items@[k],
                    audio_entries(entries@)[k].path@,
                    audio_entries(entries@)[k].file_name@,
                    probes@[k],
                ),
            final(self).selected == old(self).selected,
            final(self).quit == old(self).quit,
            final(self).current_track_name@ == old(self).current_track_name@,
            final(self).loop_track == old(self).loop_track,
            final(self).fft_bars@ == old(self).fft_bars@,
            final(self).vis_mode == old(self).vis_mode,
    {
        let idx = audio_file_indices(entries);
        let ghost audio = audio_entries(entries@);
        let mut items: Vec<Track> = Vec::new();
        let mut k: usize = 0;
        while k < idx.len()
            invariant
                k <= idx@.len(),
                idx@.len() == audio.len(),
                probes@.len() == audio.len(),
                audio == audio_entries(entries@),
                forall|j: int| 0 <= j < idx@.len() ==> #[trigger] idx@[j] < entries@.len() && entries@[idx@[j] as int]
                    == audio[j],
                items@.len() == k,
                forall|j: int|
                    0 <= j < k ==> track_from(#[trigger] items@[j], audio[j].path@, audio[j].file_name@, probes@[j]),
            decreases idx@.len() - k,
        {
            let e = &entries[idx[k]];
            assert(*e == audio[k as int]);
            let t = Track::from_path(e.path.clone(), e.file_name.clone(), copy_probe(&probes[k]));
            items.push(t);
            k = k + 1;
        }
        self.items = items;
    }

    /// Moves the selection down, wrapping from the last entry to the first.
    pub fn next(&mut self)
        ensures
            final(self).selected == Some(next_selection(old(self).selected, old(self).items@.len()) as usize),
            same_but_selection(*final(self), *old(self)),
    {
        let n = self.items.len();
        let i: usize = match self.selected {
            Some(i) => if i >= n.saturating_sub(1) { 0 } else { i + 1 },
            None => 0,
        };
        self.selected = Some(i);
    }

    /// Moves the selection up, wrapping from the first entry to the last.
    pub fn previous(&mut self)
        ensures
            final(self).selected == Some(previous_selection(old(self).selected, old(self).items@.len()) as usize),
            same_but_selection(*final(self), *old(self)),
    {
        let n = self.items.len();
        let i: usize = match self.selected {
            Some(i) => if i == 0 { n.saturating_sub(1) } else { i - 1 },
            None => 0,
        };
        self.selected = Some(i);
    }

    /// The file and name of the selected track, or `None` when the selection
    /// names no track.
    pub fn play_selected(&self) -> (req: Option<PlayRequest>)
        ensures
            requests_opt(req, selected_track(self.items@, self.selected)),
    {
        match self.selected {
            Some(i) => if i < self.items.len() {
                let t = &self.items[i];
                Some(PlayRequest { path: t.path.clone(), display_name: t.display_name.clone() })
            } else {
                None
            },
            None => None,
        }
    }

    /// Moves the selection down and asks for the track now selected.
    pub fn play_next(&mut self) -> (req: Option<PlayRequest>)
        ensures
            final(self).selected == Some(next_selection(old(self).selected, old(self).items@.len()) as usize),
            same_but_selection(*final(self), *old(self)),
            requests_opt(req, selected_track(final(self).items@, final(self).selected)),
    {
        self.next();
        self.play_selected()
    }

    /// Moves the selection up and asks for the track now selected.
    pub fn play_previous(&mut self) -> (req: Option<PlayRequest>)
        ensures
            final(self).selected == Some(previous_selection(old(self).selected, old(self).items@.len()) as usize),
            same_but_selection(*final(self), *old(self)),
            requests_opt(req, selected_track(final(self).items@, final(self).selected)),
    {
        self.previous();
        self.play_selected()
    }

    /// Records that the track named `name` has started.
    pub fn set_now_playing(&mut self, name: String)
        ensures
            final(self).current_track_name@ == name@,
            final(self).quit == old(self).quit,
            final(self).items@ == old(self).items@,
            final(self).selected == old(self).selected,
            final(self).loop_track == old(self).loop_track,
            final(self).fft_bars@ == old(self).fft_bars@,
            final(self).vis_mode == old(self).vis_mode,
    {
        self.current_track_name = name;
    }

    /// Takes in a frame's raw spectrum heights, one per bar: in spectrum mode
    /// the bars become those heights capped at 100; in oscilloscope mode
    /// nothing changes.
    pub fn update_visualizer(&mut self, raw_heights: &Vec<u64>)
        requires
            old(self).vis_mode == VisMode::Spectrum ==> raw_heights@.len() == SPECTRUM_BARS,
        ensures
            old(self).vis_mode == VisMode::Spectrum ==> final(self).fft_bars@ == capped_heights(raw_heights@),
            old(self).vis_mode == VisMode::Spectrum ==> final(self).fft_bars@.len() == raw_heights@.len()
                && forall|i: int| 0 <= i < raw_heights@.len() ==> #[trigger] final(self).fft_bars@[i] == (if raw_heights@[i] <= 100 {
                    raw_heights@[i]
                } else {
                    100
                }),
            old(self).vis_mode == VisMode::Oscilloscope ==> final(self).fft_bars@ == old(self).fft_bars@,
            final(self).quit == old(self).quit,
            final(self).items@ == old(self).items@,
            final(self).selected == old(self).selected,
            final(self).current_track_name@ == old(self).current_track_name@,
            final(self).loop_track == old(self).loop_track,
            final(self).vis_mode == old(self).vis_mode,
    {
        if self.vis_mode == VisMode::Spectrum {
            let mut bars: Vec<u64> = Vec::new();
            let mut i: usize = 0;
            while i < raw_heights.len()
                invariant
                    i <= raw_heights@.len(),
                    bars@ == capped_heights(raw_heights@.take(i as int)),
                decreases raw_heights@.len() - i,
            {
                let h = raw_heights[i];
                let capped = if h > MAX_BAR_HEIGHT { MAX_BAR_HEIGHT } else { h };
                bars.push(capped);
                i = i + 1;
                assert(bars@ =~= capped_heights(raw_heights@.take(i as int)));
            }
            assert(raw_heights@.take(i as int) =~= raw_heights@);
            self.fft_bars = bars;
        }
    }

    /// What happens when a key is pressed: the state changes that the command
    /// makes, and the action on the audio output that it asks for.
    pub fn handle_key(&mut self, key: Key) -> (a: Action)
        ensures
            spec_command_for_key(key) == Some(Command::Quit) ==> final(self).quit && same_but_quit(*final(self), *old(self)) && a is Nothing,
            spec_command_for_key(key) == Some(Command::TogglePlayback) ==> unchanged(*final(self), *old(self)) && a is TogglePlayback,
            spec_command_for_key(key) == Some(Command::Previous) ==> final(self).selected == Some(previous_selection(old(self).selected, old(self).items@.len()) as usize)
                && same_but_selection(*final(self), *old(self)) && a is Nothing,
            spec_command_for_key(key) == Some(Command::Next) ==> final(self).selected == Some(next_selection(old(self).selected, old(self).items@.len()) as usize)
                && same_but_selection(*final(self), *old(self)) && a is Nothing,
            spec_command_for_key(key) == Some(Command::PlaySelected) ==> unchanged(*final(self), *old(self))
                && action_plays(a, selected_track(old(self).items@, old(self).selected)),
            spec_command_for_key(key) == Some(Command::PlayNext) ==> final(self).selected == Some(next_selection(old(self).selected, old(self).items@.len()) as usize)
                && same_but_selection(*final(self), *old(self))
                && action_plays(a, selected_track(final(self).items@, final(self).selected)),
            spec_command_for_key(key) == Some(Command::PlayPrevious) ==> final(self).selected == Some(previous_selection(old(self).selected, old(self).items@.len()) as usize)
                && same_but_selection(*final(self), *old(self))
                && action_plays(a, selected_track(final(self).items@, final(self).selected)),
            spec_command_for_key(key) == Some(Command::ToggleLoop) ==> final(self).loop_track == !old(self).loop_track
                && final(self).selected == old(self).selected && final(self).vis_mode == old(self).vis_mode
                && final(self).quit == old(self).quit && final(self).items@ == old(self).items@
                && final(self).current_track_name@ == old(self).current_track_name@ && final(self).fft_bars@ == old(self).fft_bars@
                && a is Nothing,
            spec_command_for_key(key) == Some(Command::ToggleVisualizer) ==> final(self).vis_mode != old(self).vis_mode
                && final(self).selected == old(self).selected && final(self).loop_track == old(self).loop_track
                && final(self).quit == old(self).quit && final(self).items@ == old(self).items@
                && final(self).current_track_name@ == old(self).current_track_name@ && final(self).fft_bars@ == old(self).fft_bars@
                && a is Nothing,
            spec_command_for_key(key) is None ==> unchanged(*final(self), *old(self)) && a is Nothing,
    {
        match command_for_key(key) {
            Some(Command::Quit) => {
                self.quit = true;
                Action::Nothing
            },
            Some(Command::TogglePlayback) => Action::TogglePlayback,
            Some(Command::Previous) => {
                self.previous();
                Action::Nothing
            },
            Some(Command::Next) => {
                self.next();
                Action::Nothing
            },
            Some(Command::PlaySelected) => play_action(self.play_selected()),
            Some(Command::PlayNext) => play_action(self.play_next()),
            Some(Command::PlayPrevious) => play_action(self.play_previous()),
            Some(Command::ToggleLoop) => {
                self.toggle_loop();
                Action::Nothing
            },
            Some(Command::ToggleVisualizer) => {
                self.toggle_visualizer();
                Action::Nothing
            },
            None => Action::Nothing,
        }
    }

    /// What happens on each tick of the main loop: when the output has run dry
    /// and a track has been played, the selected track starts again (loop on)
    /// or the selection moves down and the track there starts (loop off).
    pub fn on_tick(&mut self, queue_empty: bool) -> (a: Action)
        ensures
            !(queue_empty && old(self).current_track_name@ != NO_TRACK_LOADED@) ==>
                unchanged(*final(self), *old(self)) && a is Nothing,
            queue_empty && old(self).current_track_name@ != NO_TRACK_LOADED@ && old(self).loop_track ==>
                unchanged(*final(self), *old(self))
                && action_plays(a, selected_track(old(self).items@, old(self).selected)),
            queue_empty && old(self).current_track_name@ != NO_TRACK_LOADED@ && !old(self).loop_track ==>
                final(self).selected == Some(next_selection(old(self).selected, old(self).items@.len()) as usize)
                && same_but_selection(*final(self), *old(self))
                && action_plays(a, selected_track(final(self).items@, final(self).selected)),
    {
        let placeholder = String::from_str(NO_TRACK_LOADED);
        if queue_empty && !(self.current_track_name == placeholder) {
            if self.loop_track {
                play_action(self.play_selected())
            } else {
                play_action(self.play_next())
            }
        } else {
            Action::Nothing
        }
    }
}

/// The keys that are bound, and what each does: only 'q' quits, ' ' pauses or
/// resumes, Up and Down move, Enter plays the selection, 'n' or Right plays the
/// next track, 'p' or Left the previous one, 'l' toggles the loop and 'v' the
/// visualizer; every other key gives no command.
pub proof fn law_key_bindings(key: Key)
    ensures
        (spec_command_for_key(key) == Some(Command::Quit)) <==> key == Key::Char('q'),
        (spec_command_for_key(key) == Some(Command::TogglePlayback)) <==> key == Key::Char(' '),
        (spec_command_for_key(key) == Some(Command::Previous)) <==> key == Key::Up,
        (spec_command_for_key(key) == Some(Command::Next)) <==> key == Key::Down,
        (spec_command_for_key(key) == Some(Command::PlaySelected)) <==> key == Key::Enter,
        (spec_command_for_key(key) == Some(Command::PlayNext)) <==> (key == Key::Char('n') || key == Key::Right),
        (spec_command_for_key(key) == Some(Command::PlayPrevious)) <==> (key == Key::Char('p') || key == Key::Left),
        (spec_command_for_key(key) == Some(Command::ToggleLoop)) <==> key == Key::Char('l'),
        (spec_command_for_key(key) == Some(Command::ToggleVisualizer)) <==> key == Key::Char('v'),
        spec_command_for_key(key) is None <==> !(key == Key::Char('q') || key == Key::Char(' ') || key == Key::Up
            || key == Key::Down || key == Key::Enter || key == Key::Char('n') || key == Key::Right
            || key == Key::Char('p') || key == Key::Left || key == Key::Char('l') || key == Key::Char('v')),
{
}

/// A spectrum bar is its raw height when that is at most 100, and 100 above:
/// it never exceeds 100 nor its raw height, and there is one bar per height.
pub proof fn law_bars_capped(raw: Seq<u64>)
    ensures
        capped_heights(raw).len() == raw.len(),
        forall|i: int| 0 <= i < raw.len() ==> #[trigger] capped_heights(raw)[i] == (if raw[i] <= 100 { raw[i] } else { 100 }),
        forall|i: int| 0 <= i < raw.len() ==> #[trigger] capped_heights(raw)[i] <= 100 && capped_heights(raw)[i] <= raw[i],
{
}

/// The track played for a selection is the entry at the selected position,
/// when there is one there, and none otherwise.
pub proof fn law_selected_track(items: Seq<Track>, sel: Option<usize>)
    ensures
        sel matches Some(i) && i < items.len() ==> selected_track(items, sel) == Some(items[sel->0 as int]),
        (sel is None || sel->0 >= items.len()) ==> selected_track(items, sel) is None,
{
}

/// Whether `new` differs from `old` only in the quit flag.
pub open spec fn same_but_quit(new: App, old: App) -> bool {
    &&& new.selected == old.selected
    &&& new.items@ == old.items@
    &&& new.current_track_name@ == old.current_track_name@
    &&& new.loop_track == old.loop_track
    &&& new.fft_bars@ == old.fft_bars@
    &&& new.vis_mode == old.vis_mode
}

/// Whether the state is the same, field by field.
pub open spec fn unchanged(new: App, old: App) -> bool {
    new.quit == old.quit && new.selected == old.selected && same_but_selection(new, old)
}

/// The selection after moving down `k` times from entry `sel` of a list of `n`.
pub open spec fn next_times(sel: nat, n: nat, k: nat) -> nat
    decreases k,
{
    if k == 0 {
        sel
    } else {
        next_selection(Some(next_times(sel, n, (k - 1) as nat) as usize), n)
    }
}

/// Moving down and then up, or up and then down, comes back to the entry one
/// started from, in a list of any length.
pub proof fn law_next_previous_inverse(sel: usize, n: nat)
    requires
        sel < n,
        n <= usize::MAX,
    ensures
        previous_selection(Some(next_selection(Some(sel), n) as usize), n) == sel,
        next_selection(Some(previous_selection(Some(sel), n) as usize), n) == sel,
{
}

/// Moving down always lands on an entry of a non-empty list; moving up does too,
/// from an entry of the list or from no selection.
pub proof fn law_selection_stays_in_list(sel: Option<usize>, n: nat)
    requires
        n > 0,
    ensures
        next_selection(sel, n) < n,
        (sel matches Some(i) ==> i < n) ==> previous_selection(sel, n) < n,
{
}

/// After `k` moves down from an entry, the selection is `k` entries further,
/// wrapping around; so moving down as many times as the list has entries comes
/// back to the start.
pub proof fn law_next_cycles(sel: nat, n: nat, k: nat)
    requires
        sel < n,
        n <= usize::MAX,
    ensures
        next_times(sel, n, k) == ((sel + k) as int) % (n as int),
        next_times(sel, n, n) == sel,
{
    lemma_next_times(sel, n, k);
    lemma_next_times(sel, n, n);
    lemma_mod_self(sel, n);
}

proof fn lemma_next_times(sel: nat, n: nat, k: nat)
    requires
        sel < n,
        n <= usize::MAX,
    ensures
        next_times(sel, n, k) == ((sel + k) as int) % (n as int),
    decreases k,
{
    if k > 0 {
        lemma_next_times(sel, n, (k - 1) as nat);
        lemma_mod_step(sel + k - 1, n as int);
    } else {
        lemma_small_mod(sel, n);
    }
}

proof fn lemma_mod_self(sel: nat, n: nat)
    requires
        sel < n,
    ensures
        ((sel + n) as int) % (n as int) == sel,
{
    lemma_mod_add_multiples_vanish(sel as int, n as int);
    lemma_small_mod(sel, n);
}

/// The mode that toggling the visualizer switches to.
pub open spec fn toggled_mode(m: VisMode) -> VisMode {
    if m == VisMode::Spectrum { VisMode::Oscilloscope } else { VisMode::Spectrum }
}

/// Toggling the visualizer twice gives back the mode one started with.
pub proof fn law_toggle_visualizer_twice(m: VisMode)
    ensures
        toggled_mode(toggled_mode(m)) == m,
{
}

fn play_action(req: Option<PlayRequest>) -> (a: Action)
    ensures
        forall|t: Option<Track>| requests_opt(req, t) ==> action_plays(a, t),
{
    match req {
        Some(r) => Action::Play(r),
        None => Action::Nothing,
    }
}

} // verus!
