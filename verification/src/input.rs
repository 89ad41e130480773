//! From a key to the action it stands for.
//!
//! A popup gets every key while it is open. Without a popup, Ctrl-C quits,
//! and every other key means what the active view says it means. The search
//! view has two modes: while the query is typed every printable key is text.

use crate::app::{App, AppModel, Popup, View};
use vstd::prelude::*;
use vstd::view::View as _;

verus! {

/// Which key was struck, as far as the interface tells keys apart.
#[derive(Debug, Clone, Copy, PartialEq, Eq, Structural)]
pub enum KeyCode {
    Char(char),
    Enter,
    Esc,
    Backspace,
    Up,
    Down,
    /// Any key that has no meaning here.
    Other,
}

/// Whether a key went down, is held, or came up.
#[derive(Debug, Clone, Copy, PartialEq, Eq, Structural)]
pub enum KeyEventKind {
    Press,
    Repeat,
    Release,
}

/// One keyboard event.
#[derive(Debug, Clone, Copy, PartialEq, Eq, Structural)]
pub struct KeyEvent {
    pub code: KeyCode,
    /// Whether Ctrl was held.
    pub control: bool,
    pub kind: KeyEventKind,
}

/// What the interface is asked to do.
#[derive(Debug, Clone, Copy, PartialEq, Eq, Structural)]
pub enum Action {
    Quit,
    PlayPause,
    ShowHelp,
    ShowZoneSelector,
    ClosePopup,
    SelectUp,
    SelectDown,
    SelectZone,
    NextTrack,
    PrevTrack,
    ToggleShuffle,
    CycleLoop,
    ToggleRadio,
    VolumeUp,
    VolumeDown,
    ToggleMute,
    SwitchToNowPlaying,
    SwitchToBrowse,
    SwitchToSearch,
    BrowseSelect,
    BrowseBack,
    SearchChar(char),
    SearchBackspace,
    SearchSubmit,
    SearchActivate,
    /// Nothing to do.
    NoOp,
}

/// What a key means in every view: quitting, the popups, playback, volume
/// and the keys that switch the view. `NoOp` for a key that is not one of
/// these.
pub open spec fn common_action(code: KeyCode) -> Action {
    match code {
        KeyCode::Char(c) => if c == 'q' {
            Action::Quit
        } else if c == '?' {
            Action::ShowHelp
        } else if c == 'z' {
            Action::ShowZoneSelector
        } else if c == ' ' {
            Action::PlayPause
        } else if c == 'n' {
            Action::NextTrack
        } else if c == 'p' {
            Action::PrevTrack
        } else if c == '+' || c == '=' {
            Action::VolumeUp
        } else if c == '-' {
            Action::VolumeDown
        } else if c == 'm' {
            Action::ToggleMute
        } else if c == '1' {
            Action::SwitchToNowPlaying
        } else if c == '2' {
            Action::SwitchToBrowse
        } else if c == '3' {
            Action::SwitchToSearch
        } else {
            Action::NoOp
        },
        _ => Action::NoOp,
    }
}

/// What a key means while a list is walked: moving the selection, entering
/// an entry, going back. `NoOp` for a key that is not one of these.
pub open spec fn list_action(code: KeyCode) -> Action {
    match code {
        KeyCode::Char(c) => if c == 'j' {
            Action::SelectDown
        } else if c == 'k' {
            Action::SelectUp
        } else if c == 'h' {
            Action::BrowseBack
        } else {
            Action::NoOp
        },
        KeyCode::Down => Action::SelectDown,
        KeyCode::Up => Action::SelectUp,
        KeyCode::Enter => Action::BrowseSelect,
        KeyCode::Esc => Action::BrowseBack,
        KeyCode::Backspace => Action::BrowseBack,
        KeyCode::Other => Action::NoOp,
    }
}

/// What a key means in the Now Playing view.
pub open spec fn now_playing_action(code: KeyCode) -> Action {
    match code {
        KeyCode::Char(c) => if c == 's' {
            Action::ToggleShuffle
        } else if c == 'l' {
            Action::CycleLoop
        } else if c == 'r' {
            Action::ToggleRadio
        } else if c == '/' {
            Action::SwitchToSearch
        } else {
            common_action(code)
        },
        _ => Action::NoOp,
    }
}

/// What a key means in the Browse view.
pub open spec fn browse_action(code: KeyCode) -> Action {
    if list_action(code) != Action::NoOp {
        list_action(code)
    } else if code == KeyCode::Char('/') {
        Action::SwitchToSearch
    } else {
        common_action(code)
    }
}

/// What a key means in the Search view: text while the query is typed,
/// and otherwise what it means in a list, with `/` to type again.
pub open spec fn search_action(code: KeyCode, input_active: bool) -> Action {
    if input_active {
        match code {
            KeyCode::Esc => Action::BrowseBack,
            KeyCode::Enter => Action::SearchSubmit,
            KeyCode::Backspace => Action::SearchBackspace,
            KeyCode::Char(c) => Action::SearchChar(c),
            _ => Action::NoOp,
        }
    } else if list_action(code) != Action::NoOp {
        list_action(code)
    } else if code == KeyCode::Char('/') {
        Action::SearchActivate
    } else {
        common_action(code)
    }
}

/// What a key means while a popup is open.
pub open spec fn popup_action(code: KeyCode, popup: Popup) -> Action {
    match popup {
        Popup::Help => if code == KeyCode::Esc || code == KeyCode::Char('q') || code
            == KeyCode::Char('?') {
            Action::ClosePopup
        } else {
            Action::NoOp
        },
        Popup::ZoneSelector => match code {
            KeyCode::Esc => Action::ClosePopup,
            KeyCode::Char(c) => if c == 'j' {
                Action::SelectDown
            } else if c == 'k' {
                Action::SelectUp
            } else {
                Action::NoOp
            },
            KeyCode::Down => Action::SelectDown,
            KeyCode::Up => Action::SelectUp,
            KeyCode::Enter => Action::SelectZone,
            _ => Action::NoOp,
        },
    }
}

/// What a key means in the given state: a popup comes first, then Ctrl-C,
/// then the active view.
pub open spec fn action_for(key: KeyEvent, app: AppModel) -> Action {
    match app.popup {
        Some(popup) => popup_action(key.code, popup),
        None => if key.control && key.code == KeyCode::Char('c') {
            Action::Quit
        } else {
            match app.view {
                View::NowPlaying => now_playing_action(key.code),
                View::Browse => browse_action(key.code),
                View::Search => search_action(key.code, app.search.input_active),
            }
        },
    }
}

/// The action that the key stands for in the given state.
pub fn handle_key(key: KeyEvent, app: &App) -> (action: Action)
    ensures
        action == action_for(key, app@),
{
    if let Some(popup) = &app.popup {
        return handle_popup_key(key, popup);
    }
    if key.control {
        if let KeyCode::Char('c') = key.code {
            return Action::Quit;
        }
    }
    match app.view {
        View::NowPlaying => handle_now_playing_key(key),
        View::Browse => handle_browse_key(key),
        View::Search => handle_search_key(key, app),
    }
}

fn handle_now_playing_key(key: KeyEvent) -> (action: Action)
    ensures
        action == now_playing_action(key.code),
{
    match key.code {
        KeyCode::Char('q') => Action::Quit,
        KeyCode::Char('?') => Action::ShowHelp,
        KeyCode::Char('z') => Action::ShowZoneSelector,
        KeyCode::Char(' ') => Action::PlayPause,
        KeyCode::Char('n') => Action::NextTrack,
        KeyCode::Char('p') => Action::PrevTrack,
        KeyCode::Char('s') => Action::ToggleShuffle,
        KeyCode::Char('l') => Action::CycleLoop,
        KeyCode::Char('r') => Action::ToggleRadio,
        KeyCode::Char('+') | KeyCode::Char('=') => Action::VolumeUp,
        KeyCode::Char('-') => Action::VolumeDown,
        KeyCode::Char('m') => Action::ToggleMute,
        KeyCode::Char('1') => Action::SwitchToNowPlaying,
        KeyCode::Char('2') => Action::SwitchToBrowse,
        KeyCode::Char('3') | KeyCode::Char('/') => Action::SwitchToSearch,
        _ => Action::NoOp,
    }
}

fn handle_browse_key(key: KeyEvent) -> (action: Action)
    ensures
        action == browse_action(key.code),
{
    match key.code {
        KeyCode::Char('q') => Action::Quit,
        KeyCode::Char('?') => Action::ShowHelp,
        KeyCode::Char('z') => Action::ShowZoneSelector,
        KeyCode::Char('j') | KeyCode::Down => Action::SelectDown,
        KeyCode::Char('k') | KeyCode::Up => Action::SelectUp,
        KeyCode::Enter => Action::BrowseSelect,
        KeyCode::Esc | KeyCode::Backspace | KeyCode::Char('h') => Action::BrowseBack,
        KeyCode::Char(' ') => Action::PlayPause,
        KeyCode::Char('n') => Action::NextTrack,
        KeyCode::Char('p') => Action::PrevTrack,
        KeyCode::Char('+') | KeyCode::Char('=') => Action::VolumeUp,
        KeyCode::Char('-') => Action::VolumeDown,
        KeyCode::Char('m') => Action::ToggleMute,
        KeyCode::Char('1') => Action::SwitchToNowPlaying,
        KeyCode::Char('2') => Action::SwitchToBrowse,
        KeyCode::Char('3') | KeyCode::Char('/') => Action::SwitchToSearch,
        _ => Action::NoOp,
    }
}

fn handle_search_key(key: KeyEvent, app: &App) -> (action: Action)
    ensures
        action == search_action(key.code, app@.search.input_active),
{
    if app.search.input_active {
        match key.code {
            KeyCode::Esc => Action::BrowseBack,
            KeyCode::Enter => Action::SearchSubmit,
            KeyCode::Backspace => Action::SearchBackspace,
            KeyCode::Char(c) => Action::SearchChar(c),
            _ => Action::NoOp,
        }
    } else {
        match key.code {
            KeyCode::Char('q') => Action::Quit,
            KeyCode::Char('?') => Action::ShowHelp,
            KeyCode::Char('z') => Action::ShowZoneSelector,
            KeyCode::Char('j') | KeyCode::Down => Action::SelectDown,
            KeyCode::Char('k') | KeyCode::Up => Action::SelectUp,
            KeyCode::Enter => Action::BrowseSelect,
            KeyCode::Esc | KeyCode::Backspace | KeyCode::Char('h') => Action::BrowseBack,
            KeyCode::Char('/') => Action::SearchActivate,
            KeyCode::Char(' ') => Action::PlayPause,
            KeyCode::Char('n') => Action::NextTrack,
            KeyCode::Char('p') => Action::PrevTrack,
            KeyCode::Char('+') | KeyCode::Char('=') => Action::VolumeUp,
            KeyCode::Char('-') => Action::VolumeDown,
            KeyCode::Char('m') => Action::ToggleMute,
            KeyCode::Char('1') => Action::SwitchToNowPlaying,
            KeyCode::Char('2') => Action::SwitchToBrowse,
            KeyCode::Char('3') => Action::SwitchToSearch,
            _ => Action::NoOp,
        }
    }
}

fn handle_popup_key(key: KeyEvent, popup: &Popup) -> (action: Action)
    ensures
        action == popup_action(key.code, *popup),
{
    match popup {
        Popup::Help => match key.code {
            KeyCode::Esc | KeyCode::Char('q') | KeyCode::Char('?') => Action::ClosePopup,
            _ => Action::NoOp,
        },
        Popup::ZoneSelector => match key.code {
            KeyCode::Esc => Action::ClosePopup,
            KeyCode::Char('j') | KeyCode::Down => Action::SelectDown,
            KeyCode::Char('k') | KeyCode::Up => Action::SelectUp,
            KeyCode::Enter => Action::SelectZone,
            _ => Action::NoOp,
        },
    }
}

/// The table of key bindings that the help popup shows: a key and what it
/// does. A row without a description is a section heading, and an empty row
/// parts two sections.
pub open spec fn help_table() -> Seq<(Seq<char>, Seq<char>)> {
    seq![
        ("Navigation"@, ""@),
        ("1"@, "Now Playing view"@),
        ("2"@, "Browse library"@),
        ("3 / /"@, "Search library"@),
        ("z"@, "Select zone"@),
        ("?"@, "Show / hide help"@),
        ("q"@, "Quit"@),
        (""@, ""@),
        ("Playback"@, ""@),
        ("Space"@, "Play / Pause"@),
        ("n"@, "Next track"@),
        ("p"@, "Previous track"@),
        ("s"@, "Toggle shuffle"@),
        ("l"@, "Cycle loop mode"@),
        ("r"@, "Toggle radio"@),
        (""@, ""@),
        ("Volume"@, ""@),
        ("+ / ="@, "Volume up"@),
        ("-"@, "Volume down"@),
        ("m"@, "Toggle mute"@),
        (""@, ""@),
        ("Browse / Search"@, ""@),
        ("j/k"@, "Navigate up / down"@),
        ("Enter"@, "Select / drill in"@),
        ("Esc/Bksp"@, "Go back"@),
    ]
}

/// The key bindings, as the help popup lists them.
pub fn help_text() -> (rows: Vec<(&'static str, &'static str)>)
    ensures
        rows.deep_view() == help_table(),
{
    let rows = vec![
        ("Navigation", ""),
        ("1", "Now Playing view"),
        ("2", "Browse library"),
        ("3 / /", "Search library"),
        ("z", "Select zone"),
        ("?", "Show / hide help"),
        ("q", "Quit"),
        ("", ""),
        ("Playback", ""),
        ("Space", "Play / Pause"),
        ("n", "Next track"),
        ("p", "Previous track"),
        ("s", "Toggle shuffle"),
        ("l", "Cycle loop mode"),
        ("r", "Toggle radio"),
        ("", ""),
        ("Volume", ""),
        ("+ / =", "Volume up"),
        ("-", "Volume down"),
        ("m", "Toggle mute"),
        ("", ""),
        ("Browse / Search", ""),
        ("j/k", "Navigate up / down"),
        ("Enter", "Select / drill in"),
        ("Esc/Bksp", "Go back"),
    ];
    rows
}

} // verus!
