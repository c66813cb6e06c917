//! What the screen shows, computed from the player's state: the header, the
//! entries of the track list, the footer, and how the spectrum bars are laid out.
use vstd::prelude::*;
use crate::app::{App, selected_track};
use crate::text::{decimal, two_digits, uppercase, decimal_string, two_digit_string, to_upper};
use crate::track::Track;
use vstd::arithmetic::div_mod::lemma_fundamental_div_mod;

verus! {

/// Colours the screen uses.
#[derive(PartialEq, Eq, Structural, Clone, Copy, Debug)]
pub enum Tint {
    Red,
    LightRed,
    Gray,
    DarkGray,
    Black,
}

/// A duration in seconds written as minutes and seconds, each padded to two digits.
pub open spec fn spec_clock(secs: nat) -> Seq<char> {
    two_digits(secs / 60) + ":"@ + two_digits(secs % 60)
}

/// The header: the selected track's name, album, length and bit rate, or,
/// when the selection names no track, the name of what was last played.
pub open spec fn spec_header_text(items: Seq<Track>, sel: Option<usize>, current: Seq<char>) -> Seq<char> {
    match selected_track(items, sel) {
        Some(t) => "\n ◤ TRACK: "@ + uppercase(t.display_name@) + " ◢\n    ALBUM: "@ + uppercase(t.album@)
            + "\n    TIME: "@ + spec_clock(t.duration_secs as nat) + "  //  BR: "@ + decimal(t.bitrate as nat)
            + " kbps"@,
        None => "\n ◤ SYSTEM: "@ + uppercase(current) + " ◢"@,
    }
}

/// The line of a track in the list; the selected one is marked and upper-cased.
pub open spec fn spec_track_label(t: Track, is_selected: bool) -> Seq<char> {
    if is_selected {
        " ► "@ + uppercase(t.display_name@) + " ["@ + spec_clock(t.duration_secs as nat) + "] ◄ "@
    } else {
        "   ○ "@ + t.display_name@ + " ["@ + spec_clock(t.duration_secs as nat) + "]"@
    }
}

/// The loop indicator of the footer.
pub open spec fn spec_loop_status(loop_track: bool) -> Seq<char> {
    if loop_track { "LOOP: ON "@ } else { "LOOP: OFF"@ }
}

/// The footer: the key help with the loop indicator.
pub open spec fn spec_footer_text(loop_track: bool) -> Seq<char> {
    " [SPACE] PAUSE // [P] PREV // [N] NEXT // [L] "@ + spec_loop_status(loop_track)
        + " // [V] VISUAL // [Q] ABORT "@
}

/// With an entry of the list selected, the header shows that entry: its name
/// and album upper-cased, its length as minutes and seconds padded to two
/// digits, and its bit rate.
pub proof fn law_header_shows_selected(items: Seq<Track>, i: usize, current: Seq<char>)
    requires
        i < items.len(),
    ensures
        spec_header_text(items, Some(i), current) == "\n ◤ TRACK: "@ + uppercase(items[i as int].display_name@)
            + " ◢\n    ALBUM: "@ + uppercase(items[i as int].album@) + "\n    TIME: "@ + two_digits(
            (items[i as int].duration_secs / 60) as nat,
        ) + ":"@ + two_digits((items[i as int].duration_secs % 60) as nat) + "  //  BR: "@ + decimal(
            items[i as int].bitrate as nat,
        ) + " kbps"@,
{
}

/// With no entry selected, the header shows the name of what was played last,
/// upper-cased.
pub proof fn law_header_without_selection(items: Seq<Track>, sel: Option<usize>, current: Seq<char>)
    requires
        sel is None || sel->0 >= items.len(),
    ensures
        spec_header_text(items, sel, current) == "\n ◤ SYSTEM: "@ + uppercase(current) + " ◢"@,
{
}

/// The line of a track: the selected one is marked and upper-cased, the others
/// are shown as they are; both end with the length as minutes and seconds.
pub proof fn law_track_label(t: Track)
    ensures
        spec_track_label(t, true) == " ► "@ + uppercase(t.display_name@) + " ["@ + two_digits(
            (t.duration_secs / 60) as nat,
        ) + ":"@ + two_digits((t.duration_secs % 60) as nat) + "] ◄ "@,
        spec_track_label(t, false) == "   ○ "@ + t.display_name@ + " ["@ + two_digits(
            (t.duration_secs / 60) as nat,
        ) + ":"@ + two_digits((t.duration_secs % 60) as nat) + "]"@,
{
}

/// The footer names the keys and says whether the loop is on.
pub proof fn law_footer_text()
    ensures
        spec_footer_text(true) == " [SPACE] PAUSE // [P] PREV // [N] NEXT // [L] LOOP: ON  // [V] VISUAL // [Q] ABORT "@,
        spec_footer_text(false) == " [SPACE] PAUSE // [P] PREV // [N] NEXT // [L] LOOP: OFF // [V] VISUAL // [Q] ABORT "@,
{
    reveal_strlit(" [SPACE] PAUSE // [P] PREV // [N] NEXT // [L] ");
    reveal_strlit("LOOP: ON ");
    reveal_strlit("LOOP: OFF");
    reveal_strlit(" // [V] VISUAL // [Q] ABORT ");
    reveal_strlit(" [SPACE] PAUSE // [P] PREV // [N] NEXT // [L] LOOP: ON  // [V] VISUAL // [Q] ABORT ");
    reveal_strlit(" [SPACE] PAUSE // [P] PREV // [N] NEXT // [L] LOOP: OFF // [V] VISUAL // [Q] ABORT ");
    assert(spec_footer_text(true) =~= " [SPACE] PAUSE // [P] PREV // [N] NEXT // [L] LOOP: ON  // [V] VISUAL // [Q] ABORT "@);
    assert(spec_footer_text(false) =~= " [SPACE] PAUSE // [P] PREV // [N] NEXT // [L] LOOP: OFF // [V] VISUAL // [Q] ABORT "@);
}

/// Minutes and seconds of a duration.
pub fn clock_parts(secs: u64) -> (r: (u64, u64))
    ensures
        r.0 == secs / 60,
        r.1 == secs % 60,
        r.1 < 60,
        r.0 * 60 + r.1 == secs,
{
    (secs / 60, secs % 60)
}

/// A duration written as `MM:SS`.
pub fn clock_text(secs: u64) -> (s: String)
    ensures
        s@ == spec_clock(secs as nat),
{
    let (m, sec) = clock_parts(secs);
    let mut s = two_digit_string(m);
    s.append(":");
    let tail = two_digit_string(sec);
    s.append(tail.as_str());
    s
}

/// The header text for the current state.
pub fn header_text(app: &App) -> (s: String)
    ensures
        s@ == spec_header_text(app.items@, app.selected, app.current_track_name@),
        app.selected matches Some(i) && i < app.items@.len() ==> s@ == "\n ◤ TRACK: "@ + uppercase(
            app.items@[app.selected->0 as int].display_name@,
        ) + " ◢\n    ALBUM: "@ + uppercase(app.items@[app.selected->0 as int].album@) + "\n    TIME: "@
            + spec_clock(app.items@[app.selected->0 as int].duration_secs as nat) + "  //  BR: "@ + decimal(
            app.items@[app.selected->0 as int].bitrate as nat,
        ) + " kbps"@,
{
    let track: Option<&Track> = match app.selected {
        Some(i) => if i < app.items.len() { Some(&app.items[i]) } else { None },
        None => None,
    };
    match track {
        Some(t) => {
            let mut s = String::from_str("\n ◤ TRACK: ");
            let name = to_upper(t.display_name.as_str());
            s.append(name.as_str());
            s.append(" ◢\n    ALBUM: ");
            let album = to_upper(t.album.as_str());
            s.append(album.as_str());
            s.append("\n    TIME: ");
            let clock = clock_text(t.duration_secs);
            s.append(clock.as_str());
            s.append("  //  BR: ");
            let rate = decimal_string(t.bitrate as u64);
            s.append(rate.as_str());
            s.append(" kbps");
            s
        },
        None => {
            let mut s = String::from_str("\n ◤ SYSTEM: ");
            let name = to_upper(app.current_track_name.as_str());
            s.append(name.as_str());
            s.append(" ◢");
            s
        },
    }
}

/// The line of one track in the list.
pub fn track_label(t: &Track, is_selected: bool) -> (s: String)
    ensures
        s@ == spec_track_label(*t, is_selected),
{
    let clock = clock_text(t.duration_secs);
    if is_selected {
        let mut s = String::from_str(" ► ");
        let name = to_upper(t.display_name.as_str());
        s.append(name.as_str());
        s.append(" [");
        s.append(clock.as_str());
        s.append("] ◄ ");
        s
    } else {
        let mut s = String::from_str("   ○ ");
        s.append(t.display_name.as_str());
        s.append(" [");
        s.append(clock.as_str());
        s.append("]");
        s
    }
}

/// Every entry of the track list, in order: its line and whether it is the selected one.
pub fn track_list(app: &App) -> (r: Vec<(String, bool)>)
    ensures
        r@.len() == app.items@.len(),
        forall|i: int|
            0 <= i < r@.len() ==> (#[trigger] r@[i]).1 == (app.selected == Some(i as usize))
                && r@[i].0@ == spec_track_label(app.items@[i], app.selected == Some(i as usize)),
{
    let mut r: Vec<(String, bool)> = Vec::new();
    let mut i: usize = 0;
    while i < app.items.len()
        invariant
            i <= app.items@.len(),
            r@.len() == i,
            forall|k: int|
                0 <= k < i ==> (#[trigger] r@[k]).1 == (app.selected == Some(k as usize))
                    && r@[k].0@ == spec_track_label(app.items@[k], app.selected == Some(k as usize)),
        decreases app.items@.len() - i,
    {
        let is_selected = match app.selected {
            Some(s) => s == i,
            None => false,
        };
        let label = track_label(&app.items[i], is_selected);
        r.push((label, is_selected));
        i = i + 1;
    }
    r
}

/// The footer text.
pub fn footer_text(loop_track: bool) -> (s: String)
    ensures
        s@ == spec_footer_text(loop_track),
{
    let mut s = String::from_str(" [SPACE] PAUSE // [P] PREV // [N] NEXT // [L] ");
    if loop_track {
        s.append("LOOP: ON ");
    } else {
        s.append("LOOP: OFF");
    }
    s.append(" // [V] VISUAL // [Q] ABORT ");
    s
}

/// Background and foreground of the footer: grey on while looping, red otherwise,
/// with black text.
pub fn footer_colors(loop_track: bool) -> (c: (Tint, Tint))
    ensures
        c == (if loop_track { (Tint::Gray, Tint::Black) } else { (Tint::Red, Tint::Black) }),
{
    if loop_track { (Tint::Gray, Tint::Black) } else { (Tint::Red, Tint::Black) }
}

/// Colour of a spectrum bar: light red above 80, red otherwise.
pub fn bar_tint(height: u64) -> (t: Tint)
    ensures
        t == (if height > 80 { Tint::LightRed } else { Tint::Red }),
{
    if height > 80 { Tint::LightRed } else { Tint::Red }
}

/// How the spectrum bars are drawn in the space available.
pub struct BarLayout {
    pub bar_width: u16,
    pub bar_gap: u16,
    pub pad_left: u16,
}

/// Width each bar gets, gap included: the space shared out evenly (1 when there are no bars).
pub open spec fn unit_width(available: nat, bars: nat) -> nat {
    if bars > 0 { available / bars } else { 1 }
}

/// Gap between bars: one column when each bar gets more than two.
pub open spec fn spec_bar_gap(available: nat, bars: nat) -> nat {
    if unit_width(available, bars) > 2 { 1 } else { 0 }
}

/// Width of a bar: what its share leaves after the gap, at least one column.
pub open spec fn spec_bar_width(available: nat, bars: nat) -> nat {
    let u = unit_width(available, bars);
    let g = spec_bar_gap(available, bars);
    if u > g && u - g >= 1 { (u - g) as nat } else { 1 }
}

/// Width of all the bars with their gaps.
pub open spec fn chart_width(available: nat, bars: nat) -> nat {
    bars * (spec_bar_width(available, bars) + spec_bar_gap(available, bars))
}

/// Columns left blank before the bars, so that they stand in the middle.
pub open spec fn spec_pad_left(available: nat, bars: nat) -> nat {
    if available > chart_width(available, bars) {
        ((available - chart_width(available, bars)) / 2) as nat
    } else {
        0
    }
}

/// Lays out `num_bars` bars in `available_width` columns. When every bar gets
/// at least one column, the bars and their gaps fit and are centred: the space
/// left on the right is that on the left, or one column more.
pub fn bar_layout(available_width: u16, num_bars: u16) -> (l: BarLayout)
    ensures
        l.bar_width == spec_bar_width(available_width as nat, num_bars as nat),
        l.bar_gap == spec_bar_gap(available_width as nat, num_bars as nat),
        l.pad_left == spec_pad_left(available_width as nat, num_bars as nat),
        l.bar_width >= 1,
        0 < num_bars <= available_width ==> {
            let total = chart_width(available_width as nat, num_bars as nat);
            &&& total <= available_width
            &&& 2 * l.pad_left + total <= available_width
            &&& available_width <= 2 * l.pad_left + total + 1
        },
{
    let unit: u16 = if num_bars > 0 { available_width / num_bars } else { 1 };
    let gap: u16 = if unit > 2 { 1 } else { 0 };
    let width: u16 = {
        let w = unit.saturating_sub(gap);
        if w > 1 { w } else { 1 }
    };
    proof {
        if num_bars > 0 {
            lemma_fundamental_div_mod(available_width as int, num_bars as int);
            assert(num_bars * (available_width / num_bars) <= available_width) by (nonlinear_arith)
                requires
                    available_width == num_bars * (available_width / num_bars) + available_width % num_bars,
                    available_width % num_bars >= 0,
            ;
            if unit == 0 {
                assert(width + gap == 1);
            } else {
                assert(width + gap == unit);
            }
            assert(num_bars * (width + gap) <= u16::MAX) by (nonlinear_arith)
                requires
                    num_bars * unit <= available_width,
                    available_width <= u16::MAX,
                    num_bars <= u16::MAX,
                    unit == 0 ==> width + gap == 1,
                    unit != 0 ==> width + gap == unit,
            ;
        }
    }
    let total: u16 = num_bars * (width + gap);
    let pad_left: u16 = available_width.saturating_sub(total) / 2;
    proof {
        if 0 < num_bars <= available_width {
            assert(unit >= 1) by (nonlinear_arith)
                requires
                    available_width == num_bars * (available_width / num_bars) + available_width % num_bars,
                    0 <= available_width % num_bars < num_bars,
                    0 < num_bars <= available_width,
                    unit == available_width / num_bars,
            ;
        }
    }
    BarLayout { bar_width: width, bar_gap: gap, pad_left }
}

} // verus!
