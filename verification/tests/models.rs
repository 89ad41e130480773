use roon_tui::roon::models::{
    BrowseResult, NowPlaying, Output, PlaybackState, Volume, Zone, ZoneSettings,
};

fn zone_in_state(state: &str) -> Zone {
    Zone {
        zone_id: "z1".to_string(),
        display_name: "Kitchen".to_string(),
        state: state.to_string(),
        outputs: Vec::<Output>::new(),
        now_playing: None::<NowPlaying>,
        queue_items_remaining: 0,
        queue_time_remaining: 0,
        settings: ZoneSettings {
            loop_mode: "disabled".to_string(),
            shuffle: false,
            auto_radio: false,
        },
    }
}

fn result_with_action(action: Option<&str>) -> BrowseResult {
    BrowseResult {
        action: action.map(|a| a.to_string()),
        items: vec![],
        title: None,
        level: None,
        count: None,
        message: None,
    }
}

#[test]
fn playback_state_from_known_names() {
    assert_eq!(PlaybackState::from("playing"), PlaybackState::Playing);
    assert_eq!(PlaybackState::from("paused"), PlaybackState::Paused);
    assert_eq!(PlaybackState::from("loading"), PlaybackState::Loading);
    assert_eq!(PlaybackState::from("stopped"), PlaybackState::Stopped);
}

#[test]
fn playback_state_from_unknown_name_is_stopped() {
    assert_eq!(PlaybackState::from(""), PlaybackState::Stopped);
    assert_eq!(PlaybackState::from("Playing"), PlaybackState::Stopped);
    assert_eq!(PlaybackState::from("buffering"), PlaybackState::Stopped);
}

#[test]
fn playback_state_defaults_to_stopped() {
    assert_eq!(PlaybackState::default(), PlaybackState::Stopped);
}

#[test]
fn zone_tells_playing_from_paused() {
    assert!(zone_in_state("playing").is_playing());
    assert!(!zone_in_state("playing").is_paused());
    assert!(zone_in_state("paused").is_paused());
    assert!(!zone_in_state("paused").is_playing());
    assert!(!zone_in_state("stopped").is_playing());
    assert!(!zone_in_state("stopped").is_paused());
}

#[test]
fn only_the_message_action_marks_an_executed_action() {
    assert!(result_with_action(Some("message")).is_message());
    assert!(!result_with_action(Some("list")).is_message());
    assert!(!result_with_action(Some("")).is_message());
    assert!(!result_with_action(None).is_message());
}

#[test]
fn volume_is_a_plain_value() {
    let v = Volume { value: 40, min: 0, max: 100, is_muted: false };
    let w = v;
    assert_eq!(v, w);
}
