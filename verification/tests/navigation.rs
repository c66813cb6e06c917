use kta::app::{Action, App, Command, Key, command_for_key, spectrum_bin, VisMode, NO_TRACK_LOADED};
use kta::track::{FileInfo, TagInfo, WalkEntry};

fn entry(name: &str, ext: &str) -> WalkEntry {
    WalkEntry { path: format!("/music/{}.{}", name, ext), file_name: format!("{}.{}", name, ext), ext: ext.to_string() }
}

fn probe(title: &str) -> Option<FileInfo> {
    Some(FileInfo {
        duration_secs: 61,
        bitrate: Some(320),
        primary_tag: Some(TagInfo { title: Some(title.to_string()), artist: None, album: Some("Album".to_string()) }),
        first_tag: None,
    })
}

fn app_with(n: usize) -> App {
    let mut app = App::new();
    let entries: Vec<WalkEntry> = (0..n).map(|i| entry(&format!("t{}", i), "mp3")).collect();
    let probes: Vec<Option<FileInfo>> = (0..n).map(|i| probe(&format!("t{}", i))).collect();
    app.scan_directory(&entries, &probes);
    app
}

#[test]
fn new_app_starts_at_first_entry() {
    let app = App::new();
    assert!(!app.quit);
    assert!(app.items.is_empty());
    assert_eq!(app.selected, Some(0));
    assert_eq!(app.current_track_name, NO_TRACK_LOADED);
    assert_eq!(app.current_track_name, "Ninguna pista cargada");
    assert!(!app.loop_track);
    assert_eq!(app.fft_bars, vec![0u64; 24]);
    assert_eq!(app.vis_mode, VisMode::Spectrum);
}

#[test]
fn next_wraps_from_last_to_first() {
    let mut app = app_with(3);
    app.next();
    assert_eq!(app.selected, Some(1));
    app.next();
    assert_eq!(app.selected, Some(2));
    app.next();
    assert_eq!(app.selected, Some(0));
}

#[test]
fn previous_wraps_from_first_to_last() {
    let mut app = app_with(3);
    app.previous();
    assert_eq!(app.selected, Some(2));
    app.previous();
    assert_eq!(app.selected, Some(1));
}

#[test]
fn next_and_previous_undo_each_other() {
    for start in 0..4usize {
        let mut app = app_with(4);
        app.selected = Some(start);
        app.next();
        app.previous();
        assert_eq!(app.selected, Some(start));
        app.previous();
        app.next();
        assert_eq!(app.selected, Some(start));
    }
}

#[test]
fn next_cycles_through_the_whole_list() {
    let mut app = app_with(5);
    app.selected = Some(3);
    for _ in 0..5 {
        app.next();
    }
    assert_eq!(app.selected, Some(3));
}

#[test]
fn navigation_on_an_empty_list_stays_at_zero() {
    let mut app = App::new();
    app.next();
    assert_eq!(app.selected, Some(0));
    app.previous();
    assert_eq!(app.selected, Some(0));
}

#[test]
fn navigation_without_selection_goes_to_first() {
    let mut app = app_with(3);
    app.selected = None;
    app.next();
    assert_eq!(app.selected, Some(0));
    app.selected = None;
    app.previous();
    assert_eq!(app.selected, Some(0));
}

#[test]
fn selection_beyond_the_list() {
    let mut app = app_with(3);
    app.selected = Some(7);
    app.next();
    assert_eq!(app.selected, Some(0));
    app.selected = Some(7);
    app.previous();
    assert_eq!(app.selected, Some(6));
}

#[test]
fn scan_keeps_selection() {
    let mut app = app_with(3);
    app.selected = Some(2);
    app.scan_directory(&vec![entry("only", "flac")], &vec![probe("only")]);
    assert_eq!(app.items.len(), 1);
    assert_eq!(app.items[0].display_name, "only");
    assert_eq!(app.selected, Some(2));
}

#[test]
fn scan_keeps_audio_files_in_walk_order() {
    let mut app = App::new();
    let entries = vec![
        WalkEntry { path: "/m".to_string(), file_name: "m".to_string(), ext: "".to_string() },
        entry("b", "mp3"),
        entry("notes", "txt"),
        entry("loud", "MP3"),
        entry("a", "flac"),
        entry("dir", "mp3"),
    ];
    let probes = vec![probe("B"), None, probe("")];
    app.scan_directory(&entries, &probes);
    assert_eq!(app.items.len(), 3);
    assert_eq!(app.items[0].path, "/music/b.mp3");
    assert_eq!(app.items[0].display_name, "B");
    assert_eq!(app.items[0].duration_secs, 61);
    assert_eq!(app.items[1].path, "/music/a.flac");
    assert_eq!(app.items[1].display_name, "a.flac");
    assert_eq!(app.items[1].album, "Desconocido");
    assert_eq!(app.items[1].bitrate, 0);
    assert_eq!(app.items[2].path, "/music/dir.mp3");
    assert_eq!(app.items[2].display_name, "dir.mp3");
    assert_eq!(app.items[2].album, "Album");
}

#[test]
fn play_selected_names_the_selected_track() {
    let mut app = app_with(3);
    app.selected = Some(1);
    let req = app.play_selected().expect("a track is selected");
    assert_eq!(req.path, "/music/t1.mp3");
    assert_eq!(req.display_name, "t1");
    app.selected = Some(3);
    assert!(app.play_selected().is_none());
    app.selected = None;
    assert!(app.play_selected().is_none());
    assert!(App::new().play_selected().is_none());
}

#[test]
fn play_next_and_previous_move_then_play() {
    let mut app = app_with(3);
    let req = app.play_next().unwrap();
    assert_eq!(app.selected, Some(1));
    assert_eq!(req.display_name, "t1");
    let req = app.play_previous().unwrap();
    assert_eq!(app.selected, Some(0));
    assert_eq!(req.display_name, "t0");
    let req = app.play_previous().unwrap();
    assert_eq!(app.selected, Some(2));
    assert_eq!(req.display_name, "t2");
}

#[test]
fn toggles_flip_and_flip_back() {
    let mut app = App::new();
    app.toggle_loop();
    assert!(app.loop_track);
    app.toggle_loop();
    assert!(!app.loop_track);
    app.toggle_visualizer();
    assert_eq!(app.vis_mode, VisMode::Oscilloscope);
    app.toggle_visualizer();
    assert_eq!(app.vis_mode, VisMode::Spectrum);
}

#[test]
fn set_now_playing_records_the_name() {
    let mut app = App::new();
    app.set_now_playing("Artist - Song".to_string());
    assert_eq!(app.current_track_name, "Artist - Song");
}

#[test]
fn keys_map_to_commands() {
    assert_eq!(command_for_key(Key::Char('q')), Some(Command::Quit));
    assert_eq!(command_for_key(Key::Char(' ')), Some(Command::TogglePlayback));
    assert_eq!(command_for_key(Key::Up), Some(Command::Previous));
    assert_eq!(command_for_key(Key::Down), Some(Command::Next));
    assert_eq!(command_for_key(Key::Enter), Some(Command::PlaySelected));
    assert_eq!(command_for_key(Key::Char('n')), Some(Command::PlayNext));
    assert_eq!(command_for_key(Key::Right), Some(Command::PlayNext));
    assert_eq!(command_for_key(Key::Char('p')), Some(Command::PlayPrevious));
    assert_eq!(command_for_key(Key::Left), Some(Command::PlayPrevious));
    assert_eq!(command_for_key(Key::Char('l')), Some(Command::ToggleLoop));
    assert_eq!(command_for_key(Key::Char('v')), Some(Command::ToggleVisualizer));
    assert_eq!(command_for_key(Key::Char('x')), None);
    assert_eq!(command_for_key(Key::Char('Q')), None);
    assert_eq!(command_for_key(Key::Other), None);
}

#[test]
fn handle_key_changes_state_and_asks_for_actions() {
    let mut app = app_with(3);
    assert!(matches!(app.handle_key(Key::Down), Action::Nothing));
    assert_eq!(app.selected, Some(1));
    assert!(matches!(app.handle_key(Key::Up), Action::Nothing));
    assert_eq!(app.selected, Some(0));
    assert!(matches!(app.handle_key(Key::Char(' ')), Action::TogglePlayback));
    match app.handle_key(Key::Enter) {
        Action::Play(r) => assert_eq!(r.display_name, "t0"),
        _ => panic!("expected a track to play"),
    }
    match app.handle_key(Key::Char('n')) {
        Action::Play(r) => assert_eq!(r.path, "/music/t1.mp3"),
        _ => panic!("expected a track to play"),
    }
    match app.handle_key(Key::Left) {
        Action::Play(r) => assert_eq!(r.display_name, "t0"),
        _ => panic!("expected a track to play"),
    }
    assert!(matches!(app.handle_key(Key::Char('l')), Action::Nothing));
    assert!(app.loop_track);
    assert!(matches!(app.handle_key(Key::Char('v')), Action::Nothing));
    assert_eq!(app.vis_mode, VisMode::Oscilloscope);
    assert!(matches!(app.handle_key(Key::Char('z')), Action::Nothing));
    assert!(!app.quit);
    assert!(matches!(app.handle_key(Key::Char('q')), Action::Nothing));
    assert!(app.quit);
}

#[test]
fn enter_on_empty_library_plays_nothing() {
    let mut app = App::new();
    assert!(matches!(app.handle_key(Key::Enter), Action::Nothing));
    assert!(matches!(app.handle_key(Key::Right), Action::Nothing));
    assert_eq!(app.selected, Some(0));
}

#[test]
fn tick_does_nothing_before_anything_played() {
    let mut app = app_with(3);
    assert!(matches!(app.on_tick(true), Action::Nothing));
    assert_eq!(app.selected, Some(0));
}

#[test]
fn tick_does_nothing_while_output_plays() {
    let mut app = app_with(3);
    app.set_now_playing("t0".to_string());
    assert!(matches!(app.on_tick(false), Action::Nothing));
    assert_eq!(app.selected, Some(0));
}

#[test]
fn tick_advances_when_output_runs_dry() {
    let mut app = app_with(3);
    app.set_now_playing("t0".to_string());
    match app.on_tick(true) {
        Action::Play(r) => assert_eq!(r.display_name, "t1"),
        _ => panic!("expected the next track"),
    }
    assert_eq!(app.selected, Some(1));
}

#[test]
fn tick_repeats_when_looping() {
    let mut app = app_with(3);
    app.set_now_playing("t0".to_string());
    app.toggle_loop();
    match app.on_tick(true) {
        Action::Play(r) => assert_eq!(r.display_name, "t0"),
        _ => panic!("expected the same track"),
    }
    assert_eq!(app.selected, Some(0));
}

#[test]
fn spectrum_bins_are_consecutive_runs() {
    assert_eq!(spectrum_bin(0), (0, 42));
    assert_eq!(spectrum_bin(1), (42, 84));
    assert_eq!(spectrum_bin(23), (966, 1008));
}

#[test]
fn spectrum_bars_are_capped() {
    let mut app = App::new();
    let mut raw = vec![7u64; 24];
    raw[0] = 0;
    raw[1] = 50;
    raw[2] = 100;
    raw[3] = 101;
    raw[4] = 5000;
    app.update_visualizer(&raw);
    let mut expected = vec![7u64; 24];
    expected[1] = 50;
    expected[2] = 100;
    expected[3] = 100;
    expected[4] = 100;
    expected[0] = 0;
    assert_eq!(app.fft_bars, expected);
}

#[test]
fn oscilloscope_mode_keeps_bars() {
    let mut app = App::new();
    app.update_visualizer(&vec![7; 24]);
    app.toggle_visualizer();
    app.update_visualizer(&vec![200; 24]);
    assert_eq!(app.fft_bars, vec![7; 24]);
}
