use roon_tui::actions::Effect;
use roon_tui::app::{App, View};
use roon_tui::event_loop::{
    album_art_loaded, album_art_message, begin_art_fetch, decode_album_art, key_event, poll_due,
    AlbumArtMsg, KEY_POLL_MS, POLL_INTERVAL_MS, TICK_MS,
};
use roon_tui::input::{KeyCode, KeyEvent, KeyEventKind};
use roon_tui::roon::models::{NowPlaying, Zone, ZoneSettings};

fn zone_playing(url: Option<&str>) -> Zone {
    Zone {
        zone_id: "z".to_string(),
        display_name: "Kitchen".to_string(),
        state: "playing".to_string(),
        outputs: vec![],
        now_playing: Some(NowPlaying {
            artist: "a".to_string(),
            track: "t".to_string(),
            album: "b".to_string(),
            image_key: "k".to_string(),
            seek_position_ms: 0,
            length_ms: 1000,
            album_art_url: url.map(|u| u.to_string()),
        }),
        queue_items_remaining: 0,
        queue_time_remaining: 0,
        settings: ZoneSettings {
            loop_mode: "disabled".to_string(),
            shuffle: false,
            auto_radio: false,
        },
    }
}

fn png_bytes(width: u32, height: u32) -> Vec<u8> {
    let image = image::DynamicImage::new_rgb8(width, height);
    let mut bytes: Vec<u8> = Vec::new();
    image
        .write_to(&mut std::io::Cursor::new(&mut bytes), image::ImageFormat::Png)
        .expect("encoding a png");
    bytes
}

#[test]
fn design_constants() {
    assert_eq!(POLL_INTERVAL_MS, 1000);
    assert_eq!(KEY_POLL_MS, 100);
    assert_eq!(TICK_MS, 50);
}

#[test]
fn poll_is_due_after_one_second() {
    assert!(!poll_due(5_000, 5_000));
    assert!(!poll_due(5_000, 5_999));
    assert!(poll_due(5_000, 6_000));
    assert!(poll_due(5_000, 60_000));
    assert!(!poll_due(5_000, 4_000));
    assert!(poll_due(0, u64::MAX));
}

#[test]
fn only_key_presses_are_processed() {
    let mut app = App::new(None, 0);
    let release = KeyEvent { code: KeyCode::Char('q'), control: false, kind: KeyEventKind::Release };
    assert_eq!(key_event(release, &mut app), Effect::Done);
    assert!(!app.should_quit);
    let repeat = KeyEvent { code: KeyCode::Char('2'), control: false, kind: KeyEventKind::Repeat };
    assert_eq!(key_event(repeat, &mut app), Effect::Done);
    assert_eq!(app.view, View::NowPlaying);
    let press = KeyEvent { code: KeyCode::Char('q'), control: false, kind: KeyEventKind::Press };
    assert_eq!(key_event(press, &mut app), Effect::Done);
    assert!(app.should_quit);
}

#[test]
fn art_fetch_begins_once_per_address() {
    let mut app = App::new(None, 0);
    app.zones = vec![zone_playing(Some("http://host/a.png"))];
    assert_eq!(begin_art_fetch(&mut app), Some("http://host/a.png".to_string()));
    assert_eq!(app.album_art_url, Some("http://host/a.png".to_string()));
    assert!(app.album_art.is_none());
    assert_eq!(begin_art_fetch(&mut app), None);

    app.zones = vec![zone_playing(Some("http://host/b.png"))];
    assert_eq!(begin_art_fetch(&mut app), Some("http://host/b.png".to_string()));
    assert_eq!(app.album_art_url, Some("http://host/b.png".to_string()));
}

#[test]
fn art_fetch_does_not_begin_without_an_address() {
    let mut app = App::new(None, 0);
    assert_eq!(begin_art_fetch(&mut app), None);
    app.zones = vec![zone_playing(None)];
    app.album_art_url = Some("http://host/old.png".to_string());
    assert_eq!(begin_art_fetch(&mut app), None);
    assert_eq!(app.album_art_url, Some("http://host/old.png".to_string()));
}

#[test]
fn decoding_an_image_yields_a_message_with_its_address() {
    let msg = decode_album_art(&png_bytes(3, 2), "http://host/a.png".to_string());
    match msg {
        Some(AlbumArtMsg::Loaded(image, url)) => {
            assert_eq!((image.width(), image.height()), (3, 2));
            assert_eq!(url, "http://host/a.png");
        }
        None => panic!("a png must decode"),
    }
}

#[test]
fn decoding_anything_else_yields_nothing() {
    assert!(decode_album_art(b"certainly not an image", "u".to_string()).is_none());
    assert!(decode_album_art(&[], "u".to_string()).is_none());
    let mut truncated = png_bytes(3, 2);
    truncated.truncate(20);
    assert!(decode_album_art(&truncated, "u".to_string()).is_none());
}

#[test]
fn album_art_message_keeps_image_and_address() {
    let decoded = image::load_from_memory(&png_bytes(1, 4));
    match album_art_message(decoded, "addr".to_string()) {
        Some(AlbumArtMsg::Loaded(image, url)) => {
            assert_eq!((image.width(), image.height()), (1, 4));
            assert_eq!(url, "addr");
        }
        None => panic!("the image was decoded"),
    }
    let failed = image::load_from_memory(b"nothing");
    assert!(album_art_message(failed, "addr".to_string()).is_none());
}

#[test]
fn loaded_album_art_is_stored_even_for_a_stale_address() {
    let mut app = App::new(None, 0);
    app.zones = vec![zone_playing(Some("http://host/new.png"))];
    app.album_art_url = Some("http://host/new.png".to_string());
    let image = image::DynamicImage::new_rgb8(5, 5);
    album_art_loaded(&mut app, AlbumArtMsg::Loaded(image, "http://host/old.png".to_string()));
    assert_eq!(app.album_art.as_ref().map(|i| i.width()), Some(5));
    assert_eq!(app.album_art_url, Some("http://host/old.png".to_string()));
    assert_eq!(begin_art_fetch(&mut app), Some("http://host/new.png".to_string()));
}
