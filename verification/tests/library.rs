use kta::track::{Track, TagInfo, FileInfo, WalkEntry, is_audio_file, audio_file_indices, UNKNOWN_ALBUM};
use kta::ring::SampleRing;
use kta::player::{toggle_transport, Transport};
use kta::text::{decimal_string, two_digit_string};

fn tag(title: Option<&str>, artist: Option<&str>, album: Option<&str>) -> TagInfo {
    TagInfo {
        title: title.map(|s| s.to_string()),
        artist: artist.map(|s| s.to_string()),
        album: album.map(|s| s.to_string()),
    }
}

fn info(primary: Option<TagInfo>, first: Option<TagInfo>) -> FileInfo {
    FileInfo { duration_secs: 245, bitrate: Some(192), primary_tag: primary, first_tag: first }
}

#[test]
fn unreadable_file_shows_its_name() {
    let t = Track::from_path("/m/a.mp3".to_string(), "a.mp3".to_string(), None);
    assert_eq!(t.path, "/m/a.mp3");
    assert_eq!(t.display_name, "a.mp3");
    assert_eq!(t.album, "Desconocido");
    assert_eq!(UNKNOWN_ALBUM, "Desconocido");
    assert_eq!(t.duration_secs, 0);
    assert_eq!(t.bitrate, 0);
}

#[test]
fn artist_and_title_are_joined() {
    let t = Track::from_path("p".to_string(), "f.flac".to_string(),
        Some(info(Some(tag(Some("Song"), Some("Band"), Some("Record"))), None)));
    assert_eq!(t.display_name, "Band - Song");
    assert_eq!(t.album, "Record");
    assert_eq!(t.duration_secs, 245);
    assert_eq!(t.bitrate, 192);
}

#[test]
fn title_alone_without_artist() {
    let t = Track::from_path("p".to_string(), "f.mp3".to_string(),
        Some(info(Some(tag(Some("Song"), None, None)), None)));
    assert_eq!(t.display_name, "Song");
    assert_eq!(t.album, "Desconocido");
    let t = Track::from_path("p".to_string(), "f.mp3".to_string(),
        Some(info(Some(tag(Some("Song"), Some(""), Some(""))), None)));
    assert_eq!(t.display_name, "Song");
    assert_eq!(t.album, "");
}

#[test]
fn no_title_falls_back_to_file_name() {
    let t = Track::from_path("p".to_string(), "f.mp3".to_string(),
        Some(info(Some(tag(None, Some("Band"), None)), None)));
    assert_eq!(t.display_name, "f.mp3");
}

#[test]
fn first_tag_used_without_primary() {
    let t = Track::from_path("p".to_string(), "f.mp3".to_string(),
        Some(info(None, Some(tag(Some("Other"), None, Some("Alb"))))));
    assert_eq!(t.display_name, "Other");
    assert_eq!(t.album, "Alb");
    let t = Track::from_path("p".to_string(), "f.mp3".to_string(),
        Some(info(Some(tag(Some("Main"), None, None)), Some(tag(Some("Other"), None, None)))));
    assert_eq!(t.display_name, "Main");
}

#[test]
fn file_without_tags_keeps_properties() {
    let mut i = info(None, None);
    i.bitrate = None;
    let t = Track::from_path("p".to_string(), "f.mp3".to_string(), Some(i));
    assert_eq!(t.display_name, "f.mp3");
    assert_eq!(t.album, "Desconocido");
    assert_eq!(t.duration_secs, 245);
    assert_eq!(t.bitrate, 0);
}

#[test]
fn audio_extensions() {
    assert!(is_audio_file("mp3"));
    assert!(is_audio_file("flac"));
    assert!(!is_audio_file("MP3"));
    assert!(!is_audio_file("wav"));
    assert!(!is_audio_file(""));
    let exts: Vec<WalkEntry> = ["mp3", "txt", "flac", "", "mp3"]
        .iter()
        .map(|s| WalkEntry { path: format!("x.{}", s), file_name: format!("x.{}", s), ext: s.to_string() })
        .collect();
    assert_eq!(audio_file_indices(&exts), vec![0, 2, 4]);
    assert_eq!(audio_file_indices(&Vec::new()), Vec::<usize>::new());
}

#[test]
fn ring_push_writes_at_cursor_and_wraps() {
    let mut r = SampleRing::new(3, 0i32);
    assert_eq!(r.len(), 3);
    assert_eq!(r.cursor(), 0);
    r.push(1);
    r.push(2);
    assert_eq!(r.cursor(), 2);
    r.push(3);
    assert_eq!(r.cursor(), 0);
    assert_eq!(r.window(3), vec![1, 2, 3]);
    r.push(4);
    assert_eq!(r.cursor(), 1);
    assert_eq!(r.window(3), vec![2, 3, 4]);
}

#[test]
fn ring_gives_back_a_full_round_of_samples() {
    let mut r = SampleRing::new(5, 0u8);
    r.push(9);
    r.push(9);
    for x in [10u8, 11, 12, 13, 14] {
        r.push(x);
    }
    assert_eq!(r.window(5), vec![10, 11, 12, 13, 14]);
}

#[test]
fn ring_partial_round_keeps_unwritten_slots() {
    let mut r = SampleRing::new(5, 7u8);
    r.push(1);
    r.push(2);
    assert_eq!(r.cursor(), 2);
    assert_eq!(r.window(5), vec![7, 7, 7, 1, 2]);
}

#[test]
fn ring_window_smaller_than_ring() {
    let mut r = SampleRing::new(4, 0u32);
    for x in 1..=3u32 {
        r.push(x);
    }
    assert_eq!(r.cursor(), 3);
    assert_eq!(r.window(2), vec![2, 1]);
}

#[test]
fn transport_toggle() {
    assert_eq!(toggle_transport(true), Transport::Play);
    assert_eq!(toggle_transport(false), Transport::Pause);
}

#[test]
fn decimal_and_padding() {
    assert_eq!(decimal_string(0), "0");
    assert_eq!(decimal_string(7), "7");
    assert_eq!(decimal_string(320), "320");
    assert_eq!(decimal_string(u64::MAX), u64::MAX.to_string());
    assert_eq!(two_digit_string(0), "00");
    assert_eq!(two_digit_string(5), "05");
    assert_eq!(two_digit_string(42), "42");
    assert_eq!(two_digit_string(123), "123");
}
