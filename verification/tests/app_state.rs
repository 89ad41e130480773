use roon_tui::app::{format_duration, interpolate, App, BrowseState, Popup, Ratio, SearchState, View};
use roon_tui::roon::models::{BrowseItem, NowPlaying, Output, PlaybackState, Volume, Zone, ZoneSettings};

fn settings(loop_mode: &str, shuffle: bool, auto_radio: bool) -> ZoneSettings {
    ZoneSettings { loop_mode: loop_mode.to_string(), shuffle, auto_radio }
}

fn zone(name: &str, state: &str) -> Zone {
    Zone {
        zone_id: format!("id-{}", name),
        display_name: name.to_string(),
        state: state.to_string(),
        outputs: vec![],
        now_playing: None,
        queue_items_remaining: 0,
        queue_time_remaining: 0,
        settings: settings("disabled", false, false),
    }
}

fn output(name: &str, volume: Option<Volume>) -> Output {
    Output { output_id: format!("out-{}", name), display_name: name.to_string(), volume }
}

fn track(seek_ms: u64, length_ms: u64, url: Option<&str>) -> NowPlaying {
    NowPlaying {
        artist: "Adele".to_string(),
        track: "Hello".to_string(),
        album: "25".to_string(),
        image_key: "k".to_string(),
        seek_position_ms: seek_ms,
        length_ms,
        album_art_url: url.map(|u| u.to_string()),
    }
}

fn item(title: &str) -> BrowseItem {
    BrowseItem {
        item_key: None,
        title: title.to_string(),
        subtitle: None,
        image_key: None,
        hint: None,
    }
}

fn app_with(zones: Vec<Zone>) -> App {
    let mut app = App::new(None, 0);
    app.zones = zones;
    app
}

fn playing_app(seek_ms: u64, length_ms: u64, state: &str, refreshed_at: u64) -> App {
    let mut z = zone("Kitchen", state);
    z.now_playing = Some(track(seek_ms, length_ms, None));
    let mut app = app_with(vec![z]);
    app.mark_refreshed(refreshed_at);
    app
}

#[test]
fn new_app_starts_in_now_playing_with_nothing_loaded() {
    let app = App::new(None, 1234);
    assert!(!app.should_quit);
    assert_eq!(app.view, View::NowPlaying);
    assert_eq!(app.popup, None);
    assert!(!app.connected);
    assert_eq!(app.error, None);
    assert!(app.zones.is_empty());
    assert_eq!(app.selected_zone_index, 0);
    assert_eq!(app.zone_selector_index, 0);
    assert!(app.album_art.is_none());
    assert_eq!(app.album_art_url, None);
    assert!(app.image_picker.is_none());
    assert_eq!(app.last_refresh_ms, 1234);
    assert!(app.browse.items.is_empty());
    assert_eq!(app.browse.breadcrumbs, vec!["Library".to_string()]);
    assert_eq!(app.search.query, "");
    assert!(app.search.input_active);
    assert_eq!(app.search.results.breadcrumbs, vec!["Search".to_string()]);
}

#[test]
fn default_view_is_now_playing() {
    assert_eq!(View::default(), View::NowPlaying);
}

#[test]
fn browse_state_default_is_the_library_root() {
    let s = BrowseState::default();
    assert!(s.items.is_empty());
    assert_eq!(s.selected_index, 0);
    assert_eq!(s.breadcrumbs, vec!["Library".to_string()]);
    assert!(!s.loading);
    assert_eq!(s.error, None);
}

#[test]
fn browse_state_reset_returns_to_the_library_root() {
    let mut s = BrowseState {
        items: vec![item("a"), item("b")],
        selected_index: 1,
        breadcrumbs: vec!["Library".to_string(), "Artists".to_string()],
        loading: true,
        error: Some("boom".to_string()),
    };
    s.reset();
    assert!(s.items.is_empty());
    assert_eq!(s.selected_index, 0);
    assert_eq!(s.breadcrumbs, vec!["Library".to_string()]);
    assert!(!s.loading);
    assert_eq!(s.error, None);
}

#[test]
fn search_state_default_is_typing_an_empty_query() {
    let s = SearchState::default();
    assert_eq!(s.query, "");
    assert!(s.input_active);
    assert!(s.results.items.is_empty());
    assert_eq!(s.results.breadcrumbs, vec!["Search".to_string()]);
}

#[test]
fn search_state_reset_clears_query_and_results() {
    let mut s = SearchState::default();
    s.query = "abba".to_string();
    s.input_active = false;
    s.results.items = vec![item("x")];
    s.results.breadcrumbs = vec!["Search".to_string(), "Albums".to_string()];
    s.results.error = Some("e".to_string());
    s.reset();
    assert_eq!(s.query, "");
    assert!(s.input_active);
    assert!(s.results.items.is_empty());
    assert_eq!(s.results.selected_index, 0);
    assert_eq!(s.results.breadcrumbs, vec!["Search".to_string()]);
    assert_eq!(s.results.error, None);
}

#[test]
fn with_root_uses_the_given_label() {
    let s = BrowseState::with_root("Anything");
    assert_eq!(s.breadcrumbs, vec!["Anything".to_string()]);
    assert!(s.items.is_empty());
}

#[test]
fn current_zone_follows_the_selected_index() {
    let mut app = app_with(vec![zone("Kitchen", "playing"), zone("Office", "paused")]);
    assert_eq!(app.current_zone().map(|z| z.display_name.as_str()), Some("Kitchen"));
    assert_eq!(app.current_zone_name(), "Kitchen");
    app.selected_zone_index = 1;
    assert_eq!(app.current_zone_name(), "Office");
    app.selected_zone_index = 2;
    assert!(app.current_zone().is_none());
    assert_eq!(app.current_zone_name(), "No Zone");
}

#[test]
fn without_zones_there_is_no_zone() {
    let app = App::new(None, 0);
    assert!(app.current_zone().is_none());
    assert_eq!(app.current_zone_name(), "No Zone");
    assert_eq!(app.first_output_name(), None);
    assert_eq!(app.playback_state(), PlaybackState::Stopped);
    assert_eq!(app.playback_icon(), "⏹");
    assert_eq!(app.shuffle_icon(), "  ");
    assert_eq!(app.loop_icon(), "  ");
    assert_eq!(app.radio_icon(), "  ");
    assert_eq!(app.volume_display(), "🔊 --");
    assert_eq!(app.progress_display(5000), "00:00 / 00:00");
    assert_eq!(app.progress_ratio(5000), Ratio { numerator: 0, denominator: 1 });
    assert_eq!(app.track_info(), ("No track playing", "", ""));
    assert_eq!(app.album_art_url_if_changed(), None);
    assert_eq!(app.interpolated_seek(5000), 0);
    assert_eq!(app.get_selected_zone_name(), None);
}

#[test]
fn first_output_name_is_that_of_the_first_output() {
    let mut z = zone("Kitchen", "playing");
    z.outputs = vec![output("Speakers", None), output("Headphones", None)];
    let app = app_with(vec![z]);
    assert_eq!(app.first_output_name(), Some("Speakers".to_string()));
}

#[test]
fn playback_icon_for_each_state() {
    assert_eq!(app_with(vec![zone("z", "playing")]).playback_icon(), "▶");
    assert_eq!(app_with(vec![zone("z", "paused")]).playback_icon(), "⏸");
    assert_eq!(app_with(vec![zone("z", "stopped")]).playback_icon(), "⏹");
    assert_eq!(app_with(vec![zone("z", "loading")]).playback_icon(), "⏳");
    assert_eq!(app_with(vec![zone("z", "weird")]).playback_icon(), "⏹");
    assert_eq!(app_with(vec![zone("z", "loading")]).playback_state(), PlaybackState::Loading);
}

#[test]
fn setting_icons_follow_the_zone_settings() {
    let mut z = zone("z", "playing");
    z.settings = settings("loop", true, true);
    let app = app_with(vec![z]);
    assert_eq!(app.shuffle_icon(), "🔀");
    assert_eq!(app.loop_icon(), "🔁");
    assert_eq!(app.radio_icon(), "📻");

    let mut z = zone("z", "playing");
    z.settings = settings("loop_one", false, false);
    let app = app_with(vec![z]);
    assert_eq!(app.shuffle_icon(), "  ");
    assert_eq!(app.loop_icon(), "🔂");
    assert_eq!(app.radio_icon(), "  ");

    let mut z = zone("z", "playing");
    z.settings = settings("something", false, false);
    assert_eq!(app_with(vec![z]).loop_icon(), "  ");
}

#[test]
fn volume_display_shows_level_mute_or_dashes() {
    let mut z = zone("z", "playing");
    z.outputs = vec![output("a", Some(Volume { value: 42, min: 0, max: 100, is_muted: false }))];
    assert_eq!(app_with(vec![z]).volume_display(), "🔊 42%");

    let mut z = zone("z", "playing");
    z.outputs = vec![output("a", Some(Volume { value: 42, min: 0, max: 100, is_muted: true }))];
    assert_eq!(app_with(vec![z]).volume_display(), "🔇 Muted");

    let mut z = zone("z", "playing");
    z.outputs = vec![output("a", None)];
    assert_eq!(app_with(vec![z]).volume_display(), "🔊 --");

    let mut z = zone("z", "playing");
    z.outputs = vec![output("a", Some(Volume { value: -30, min: -80, max: 0, is_muted: false }))];
    assert_eq!(app_with(vec![z]).volume_display(), "🔊 -30%");

    let mut z = zone("z", "playing");
    z.outputs = vec![
        output("first", Some(Volume { value: 0, min: 0, max: 100, is_muted: false })),
        output("second", Some(Volume { value: 77, min: 0, max: 100, is_muted: true })),
    ];
    assert_eq!(app_with(vec![z]).volume_display(), "🔊 0%");
}

#[test]
fn format_duration_is_minutes_and_seconds() {
    assert_eq!(format_duration(0), "00:00");
    assert_eq!(format_duration(999), "00:00");
    assert_eq!(format_duration(1000), "00:01");
    assert_eq!(format_duration(59_999), "00:59");
    assert_eq!(format_duration(60_000), "01:00");
    assert_eq!(format_duration(185_400), "03:05");
    assert_eq!(format_duration(3_600_000), "60:00");
    assert_eq!(format_duration(6_000_000), "100:00");
}

#[test]
fn interpolate_runs_on_while_playing_and_stops_at_the_end() {
    assert_eq!(interpolate(10_000, 200_000, true, 0), 10_000);
    assert_eq!(interpolate(10_000, 200_000, true, 500), 10_500);
    assert_eq!(interpolate(10_000, 200_000, true, 190_000), 200_000);
    assert_eq!(interpolate(10_000, 200_000, true, 190_001), 200_000);
    assert_eq!(interpolate(10_000, 200_000, true, u64::MAX), 200_000);
    assert_eq!(interpolate(10_000, 200_000, false, 500), 10_000);
    assert_eq!(interpolate(10_000, 0, true, 500), 0);
    assert_eq!(interpolate(300_000, 200_000, true, 0), 200_000);
    assert_eq!(interpolate(300_000, 200_000, false, 0), 300_000);
}

#[test]
fn interpolated_seek_uses_the_time_since_the_last_refresh() {
    let app = playing_app(10_000, 200_000, "playing", 5_000);
    assert_eq!(app.interpolated_seek(5_000), 10_000);
    assert_eq!(app.interpolated_seek(5_750), 10_750);
    assert_eq!(app.interpolated_seek(1_000_000), 200_000);
    assert_eq!(app.interpolated_seek(4_000), 10_000);

    let paused = playing_app(10_000, 200_000, "paused", 5_000);
    assert_eq!(paused.interpolated_seek(9_000), 10_000);
}

#[test]
fn progress_display_shows_position_and_length() {
    let app = playing_app(65_000, 185_000, "playing", 0);
    assert_eq!(app.progress_display(0), "01:05 / 03:05");
    assert_eq!(app.progress_display(2_500), "01:07 / 03:05");
    assert_eq!(app.progress_display(10_000_000), "03:05 / 03:05");
    let paused = playing_app(65_000, 185_000, "paused", 0);
    assert_eq!(paused.progress_display(2_500), "01:05 / 03:05");
}

#[test]
fn progress_ratio_is_position_over_length() {
    let app = playing_app(50_000, 200_000, "playing", 0);
    assert_eq!(app.progress_ratio(0), Ratio { numerator: 50_000, denominator: 200_000 });
    assert_eq!(app.progress_ratio(1_000), Ratio { numerator: 51_000, denominator: 200_000 });
    assert_eq!(app.progress_ratio(999_000), Ratio { numerator: 200_000, denominator: 200_000 });
}

#[test]
fn progress_ratio_is_zero_when_length_is_unknown() {
    let app = playing_app(50_000, 0, "playing", 0);
    assert_eq!(app.progress_ratio(3_000), Ratio { numerator: 0, denominator: 1 });
    let paused = playing_app(50_000, 0, "paused", 0);
    assert_eq!(paused.progress_ratio(3_000), Ratio { numerator: 0, denominator: 1 });
}

#[test]
fn progress_ratio_is_capped_at_one() {
    let paused = playing_app(300_000, 200_000, "paused", 0);
    assert_eq!(paused.progress_ratio(0), Ratio { numerator: 200_000, denominator: 200_000 });
}

#[test]
fn track_info_is_title_artist_album() {
    let app = playing_app(0, 1, "playing", 0);
    assert_eq!(app.track_info(), ("Hello", "Adele", "25"));
}

#[test]
fn album_art_url_is_reported_only_when_it_differs() {
    let mut z = zone("Kitchen", "playing");
    z.now_playing = Some(track(0, 1, Some("http://host/a.png")));
    let mut app = app_with(vec![z]);
    assert_eq!(app.album_art_url_if_changed(), Some("http://host/a.png"));
    app.album_art_url = Some("http://host/other.png".to_string());
    assert_eq!(app.album_art_url_if_changed(), Some("http://host/a.png"));
    app.album_art_url = Some("http://host/a.png".to_string());
    assert_eq!(app.album_art_url_if_changed(), None);

    let mut z = zone("Kitchen", "playing");
    z.now_playing = Some(track(0, 1, None));
    let mut app = app_with(vec![z]);
    assert_eq!(app.album_art_url_if_changed(), None);
    app.album_art_url = Some("http://host/a.png".to_string());
    assert_eq!(app.album_art_url_if_changed(), None);
}

#[test]
fn set_and_clear_album_art() {
    let mut app = App::new(None, 0);
    app.set_album_art(image::DynamicImage::new_rgb8(2, 3), "http://host/a.png".to_string());
    assert_eq!(app.album_art.as_ref().map(|i| (i.width(), i.height())), Some((2, 3)));
    assert_eq!(app.album_art_url, Some("http://host/a.png".to_string()));
    app.clear_album_art();
    assert!(app.album_art.is_none());
    assert_eq!(app.album_art_url, None);
}

#[test]
fn show_popup_copies_the_active_zone_into_the_selector() {
    let mut app = app_with(vec![zone("a", "x"), zone("b", "x"), zone("c", "x")]);
    app.selected_zone_index = 2;
    app.zone_selector_index = 0;
    app.show_popup(Popup::Help);
    assert_eq!(app.popup, Some(Popup::Help));
    assert_eq!(app.zone_selector_index, 0);
    app.show_popup(Popup::ZoneSelector);
    assert_eq!(app.popup, Some(Popup::ZoneSelector));
    assert_eq!(app.zone_selector_index, 2);
    app.close_popup();
    assert_eq!(app.popup, None);
    app.close_popup();
    assert_eq!(app.popup, None);
}

#[test]
fn selection_in_the_zone_selector_saturates() {
    let mut app = app_with(vec![zone("a", "x"), zone("b", "x"), zone("c", "x")]);
    app.show_popup(Popup::ZoneSelector);
    app.select_up();
    assert_eq!(app.zone_selector_index, 0);
    app.select_down();
    assert_eq!(app.zone_selector_index, 1);
    app.select_down();
    assert_eq!(app.zone_selector_index, 2);
    app.select_down();
    assert_eq!(app.zone_selector_index, 2);
    app.select_up();
    assert_eq!(app.zone_selector_index, 1);
    assert_eq!(app.selected_zone_index, 0);
}

#[test]
fn selection_in_the_zone_selector_without_zones_stays_at_zero() {
    let mut app = App::new(None, 0);
    app.show_popup(Popup::ZoneSelector);
    app.select_down();
    assert_eq!(app.zone_selector_index, 0);
    app.select_up();
    assert_eq!(app.zone_selector_index, 0);
}

#[test]
fn selection_in_browse_saturates() {
    let mut app = App::new(None, 0);
    app.view = View::Browse;
    app.browse.items = vec![item("a"), item("b")];
    app.select_up();
    assert_eq!(app.browse.selected_index, 0);
    app.select_down();
    assert_eq!(app.browse.selected_index, 1);
    app.select_down();
    assert_eq!(app.browse.selected_index, 1);
    app.select_up();
    assert_eq!(app.browse.selected_index, 0);
    assert_eq!(app.search.results.selected_index, 0);
}

#[test]
fn selection_in_search_moves_the_results() {
    let mut app = App::new(None, 0);
    app.view = View::Search;
    app.search.input_active = false;
    app.search.results.items = vec![item("a"), item("b"), item("c")];
    app.browse.items = vec![item("x"), item("y")];
    app.select_down();
    app.select_down();
    app.select_down();
    assert_eq!(app.search.results.selected_index, 2);
    assert_eq!(app.browse.selected_index, 0);
    app.select_up();
    assert_eq!(app.search.results.selected_index, 1);
}

#[test]
fn selection_is_ignored_in_now_playing() {
    let mut app = App::new(None, 0);
    app.browse.items = vec![item("a"), item("b")];
    app.search.results.items = vec![item("a"), item("b")];
    app.select_down();
    assert_eq!(app.browse.selected_index, 0);
    assert_eq!(app.search.results.selected_index, 0);
    assert_eq!(app.zone_selector_index, 0);
}

#[test]
fn selection_in_an_empty_list_stays_at_zero() {
    let mut app = App::new(None, 0);
    app.view = View::Browse;
    app.select_down();
    assert_eq!(app.browse.selected_index, 0);
    app.select_up();
    assert_eq!(app.browse.selected_index, 0);
}

#[test]
fn browse_state_moves_its_own_selection() {
    let mut s = BrowseState::with_root("Library");
    s.items = vec![item("a"), item("b"), item("c")];
    s.select_down();
    s.select_down();
    assert_eq!(s.selected_index, 2);
    s.select_down();
    assert_eq!(s.selected_index, 2);
    s.select_up();
    assert_eq!(s.selected_index, 1);
}

#[test]
fn select_zone_commits_the_highlighted_zone() {
    let mut app = app_with(vec![zone("a", "x"), zone("b", "x")]);
    app.set_album_art(image::DynamicImage::new_rgb8(1, 1), "u".to_string());
    app.show_popup(Popup::ZoneSelector);
    app.select_down();
    assert_eq!(app.get_selected_zone_name(), Some("b".to_string()));
    app.select_zone();
    assert_eq!(app.selected_zone_index, 1);
    assert!(app.album_art.is_none());
    assert_eq!(app.album_art_url, None);
    assert_eq!(app.popup, None);
}

#[test]
fn select_zone_outside_the_list_changes_nothing() {
    let mut app = app_with(vec![zone("a", "x")]);
    app.set_album_art(image::DynamicImage::new_rgb8(1, 1), "u".to_string());
    app.popup = Some(Popup::ZoneSelector);
    app.zone_selector_index = 5;
    assert_eq!(app.get_selected_zone_name(), None);
    app.select_zone();
    assert_eq!(app.selected_zone_index, 0);
    assert!(app.album_art.is_some());
    assert_eq!(app.popup, Some(Popup::ZoneSelector));
}

#[test]
fn mark_refreshed_notes_the_time() {
    let mut app = App::new(None, 10);
    app.mark_refreshed(99);
    assert_eq!(app.last_refresh_ms, 99);
}

#[test]
fn nothing_moves_behind_the_help_popup() {
    let mut app = app_with(vec![zone("a", "x"), zone("b", "x")]);
    app.view = View::Browse;
    app.browse.items = vec![item("a"), item("b"), item("c")];
    app.popup = Some(Popup::Help);
    app.select_down();
    assert_eq!(app.browse.selected_index, 0);
    assert_eq!(app.zone_selector_index, 0);
    assert_eq!(app.search.results.selected_index, 0);

    app.browse.selected_index = 2;
    app.zone_selector_index = 1;
    app.select_up();
    assert_eq!(app.browse.selected_index, 2);
    assert_eq!(app.zone_selector_index, 1);

    app.view = View::Search;
    app.search.input_active = false;
    app.search.results.items = vec![item("a"), item("b")];
    app.select_down();
    assert_eq!(app.search.results.selected_index, 0);
    assert_eq!(app.browse.selected_index, 2);
    assert_eq!(app.popup, Some(Popup::Help));

    app.close_popup();
    app.select_down();
    assert_eq!(app.search.results.selected_index, 1);
}

#[test]
fn the_zone_selector_keeps_the_lists_behind_it_still() {
    let mut app = app_with(vec![zone("a", "x"), zone("b", "x")]);
    app.view = View::Browse;
    app.browse.items = vec![item("a"), item("b"), item("c")];
    app.show_popup(Popup::ZoneSelector);
    app.select_down();
    assert_eq!(app.zone_selector_index, 1);
    assert_eq!(app.browse.selected_index, 0);
}
