use kta::app::App;
use kta::track::Track;
use kta::view::{bar_layout, bar_tint, clock_parts, clock_text, footer_colors, footer_text, header_text, track_label, track_list, Tint};
use kta::cover::{first_cover, first_pictures, decode_until_decoded};

fn track(name: &str, album: &str, secs: u64, rate: u32) -> Track {
    Track { path: "x".to_string(), display_name: name.to_string(), album: album.to_string(), duration_secs: secs, bitrate: rate }
}

#[test]
fn clock_splits_minutes_and_seconds() {
    assert_eq!(clock_parts(245), (4, 5));
    assert_eq!(clock_text(245), "04:05");
    assert_eq!(clock_text(0), "00:00");
    assert_eq!(clock_text(6000), "100:00");
    assert_eq!(clock_text(3599), "59:59");
}

#[test]
fn header_shows_selected_track() {
    let mut app = App::new();
    app.items = vec![track("Band - Song", "récord", 245, 320)];
    assert_eq!(header_text(&app), "\n ◤ TRACK: BAND - SONG ◢\n    ALBUM: RÉCORD\n    TIME: 04:05  //  BR: 320 kbps");
}

#[test]
fn header_without_selected_track() {
    let app = App::new();
    assert_eq!(header_text(&app), "\n ◤ SYSTEM: NINGUNA PISTA CARGADA ◢");
    let mut app = App::new();
    app.items = vec![track("a", "b", 1, 1)];
    app.selected = Some(5);
    app.set_now_playing("última".to_string());
    assert_eq!(header_text(&app), "\n ◤ SYSTEM: ÚLTIMA ◢");
}

#[test]
fn list_lines() {
    let t = track("Band - Song", "A", 61, 1);
    assert_eq!(track_label(&t, true), " ► BAND - SONG [01:01] ◄ ");
    assert_eq!(track_label(&t, false), "   ○ Band - Song [01:01]");
    let mut app = App::new();
    app.items = vec![track("one", "A", 5, 1), track("two", "A", 600, 1)];
    app.next();
    let lines = track_list(&app);
    assert_eq!(lines.len(), 2);
    assert_eq!(lines[0], ("   ○ one [00:05]".to_string(), false));
    assert_eq!(lines[1], (" ► TWO [10:00] ◄ ".to_string(), true));
}

#[test]
fn footer_follows_loop_state() {
    assert_eq!(footer_text(true), " [SPACE] PAUSE // [P] PREV // [N] NEXT // [L] LOOP: ON  // [V] VISUAL // [Q] ABORT ");
    assert_eq!(footer_text(false), " [SPACE] PAUSE // [P] PREV // [N] NEXT // [L] LOOP: OFF // [V] VISUAL // [Q] ABORT ");
    assert_eq!(footer_colors(true), (Tint::Gray, Tint::Black));
    assert_eq!(footer_colors(false), (Tint::Red, Tint::Black));
}

#[test]
fn bar_colours() {
    assert_eq!(bar_tint(80), Tint::Red);
    assert_eq!(bar_tint(81), Tint::LightRed);
    assert_eq!(bar_tint(0), Tint::Red);
}

#[test]
fn bars_are_centred() {
    let l = bar_layout(100, 24);
    assert_eq!((l.bar_width, l.bar_gap, l.pad_left), (3, 1, 2));
    let l = bar_layout(48, 24);
    assert_eq!((l.bar_width, l.bar_gap, l.pad_left), (2, 0, 0));
    let l = bar_layout(60, 24);
    assert_eq!((l.bar_width, l.bar_gap, l.pad_left), (2, 0, 6));
    let l = bar_layout(10, 24);
    assert_eq!((l.bar_width, l.bar_gap, l.pad_left), (1, 0, 0));
    let l = bar_layout(50, 0);
    assert_eq!((l.bar_width, l.bar_gap, l.pad_left), (1, 0, 25));
    let l = bar_layout(u16::MAX, 1);
    assert_eq!((l.bar_width, l.bar_gap, l.pad_left), (u16::MAX - 1, 1, 0));
}

fn png_bytes() -> Vec<u8> {
    let img = image::DynamicImage::new_luma8(2, 2);
    let mut out = std::io::Cursor::new(Vec::new());
    img.write_to(&mut out, image::ImageFormat::Png).unwrap();
    out.into_inner()
}

#[test]
fn first_cover_picks_first_decoded_outcome() {
    let ok = || image::load_from_memory(&png_bytes());
    let bad = || image::load_from_memory(b"not an image");
    assert!(ok().is_ok());
    assert!(bad().is_err());
    assert!(first_cover(vec![]).is_none());
    assert!(first_cover(vec![None, Some(bad()), None]).is_none());
    let (k, img) = first_cover(vec![None, Some(bad()), Some(ok()), Some(ok())]).expect("one decoded");
    assert_eq!(k, 2);
    assert_eq!((img.width(), img.height()), (2, 2));
    let (k, _) = first_cover(vec![Some(ok()), Some(ok())]).unwrap();
    assert_eq!(k, 0);
}

#[test]
fn cover_art_takes_first_decodable_picture() {
    let good = png_bytes();
    let junk = b"junk".to_vec();
    assert!(App::load_cover_art(&None, &vec![]).is_none());
    assert!(App::load_cover_art(&Some(vec![junk.clone()]), &vec![vec![], vec![junk.clone(), good.clone()]]).is_none());
    let (k, c) = App::load_cover_art(&Some(vec![junk.clone()]), &vec![vec![], vec![good.clone()]]).expect("third tag decodes");
    assert_eq!(k, 2);
    assert!(matches!(c, image::DynamicImage::ImageRgb8(_)));
    let (k, c) = App::load_cover_art(&Some(vec![good.clone()]), &vec![vec![good.clone()]]).expect("primary decodes");
    assert_eq!(k, 0);
    assert!(matches!(c, image::DynamicImage::ImageRgb8(_)));
    let (k, _) = App::load_cover_art(&None, &vec![vec![junk.clone()], vec![good.clone()], vec![good.clone()]]).unwrap();
    assert_eq!(k, 1);
}

#[test]
fn first_pictures_in_search_order() {
    let primary = Some(vec![vec![1u8, 2], vec![3]]);
    let tags = vec![vec![], vec![vec![4u8], vec![5]]];
    let r = first_pictures(&primary, &tags);
    assert_eq!(r, vec![Some(&[1u8, 2][..]), None, Some(&[4u8][..])]);
    assert_eq!(first_pictures(&None, &tags), vec![None, Some(&[4u8][..])]);
}

#[test]
fn decoding_stops_at_first_success() {
    let good = png_bytes();
    let junk = b"junk".to_vec();
    let cands: Vec<Option<&[u8]>> = vec![None, Some(&junk), Some(&good), Some(&good)];
    let outs = decode_until_decoded(&cands).0;
    assert_eq!(outs.len(), 3);
    assert!(outs[0].is_none());
    assert!(matches!(outs[1], Some(Err(_))));
    assert!(matches!(outs[2], Some(Ok(_))));
    let outs = decode_until_decoded(&vec![Some(&junk[..]), None]).0;
    assert_eq!(outs.len(), 2);
    assert!(matches!(outs[0], Some(Err(_))));
    assert!(outs[1].is_none());
}
