//! What each part of the screen shows, as plain values for a renderer.
//!
//! The functions here decide what is shown: which texts, which rows, which
//! of them stands out. How it is put on the terminal, with which colours and
//! widgets, is the renderer's part.

pub mod browse;
pub mod help;
pub mod now_playing;
pub mod search;
pub mod zones;

use crate::app::{App, AppModel, Popup, View};
use vstd::prelude::*;
use vstd::string::*;
use vstd::view::View as _;

verus! {

/// A rectangle of terminal cells.
#[derive(Debug, Clone, Copy, PartialEq, Eq, Structural)]
pub struct Rect {
    pub x: u16,
    pub y: u16,
    pub width: u16,
    pub height: u16,
}

/// How much room one part of a row or column of parts takes.
#[derive(Debug, Clone, Copy, PartialEq, Eq, Structural)]
pub enum Constraint {
    /// That many cells.
    Length(u16),
    /// At least that many cells, and all that the other parts leave.
    Min(u16),
    /// That many percent of the whole.
    Percentage(u16),
}

/// One part of a row or column of parts: what stands in it, and how much
/// room it takes.
#[derive(Debug, Clone, Copy, PartialEq, Eq)]
pub struct Part<K> {
    pub kind: K,
    pub size: Constraint,
}

/// The parts of the screen.
#[derive(Debug, Clone, Copy, PartialEq, Eq, Structural)]
pub enum ScreenPart {
    TabBar,
    Content,
    StatusBar,
}

/// The parts of the status bar.
#[derive(Debug, Clone, Copy, PartialEq, Eq, Structural)]
pub enum StatusPart {
    Left,
    Right,
}

/// The parts of a length of which the middle one is centred.
#[derive(Debug, Clone, Copy, PartialEq, Eq, Structural)]
pub enum CenteredPart {
    Margin,
    Middle,
}

/// The share of the screen, in percent of its width and of its height, that
/// a popup covers.
pub const POPUP_PERCENT: u16 = 60;

/// The share of the status bar, in percent of its width, that the
/// connection and the zone take on the left; the help hint has the rest.
pub const STATUS_LEFT_PERCENT: u16 = 70;

/// The rows of the screen, from the top: the tab bar on one line, the
/// content in all the room between, the status bar on one line.
pub open spec fn screen_rows_of() -> Seq<Part<ScreenPart>> {
    seq![
        Part { kind: ScreenPart::TabBar, size: Constraint::Length(1) },
        Part { kind: ScreenPart::Content, size: Constraint::Min(0) },
        Part { kind: ScreenPart::StatusBar, size: Constraint::Length(1) },
    ]
}

/// The columns of the status bar, from the left: the left part and the
/// right part.
pub open spec fn status_columns_of() -> Seq<Part<StatusPart>> {
    seq![
        Part { kind: StatusPart::Left, size: Constraint::Percentage(STATUS_LEFT_PERCENT) },
        Part {
            kind: StatusPart::Right,
            size: Constraint::Percentage((100 - STATUS_LEFT_PERCENT) as u16),
        },
    ]
}

/// The parts that a length is cut into so that the middle part, of the
/// given percentage, is centred: equal margins on either side of it.
pub open spec fn centered_parts_of(percent: u16) -> Seq<Part<CenteredPart>> {
    seq![
        Part {
            kind: CenteredPart::Margin,
            size: Constraint::Percentage(((100 - percent) / 2) as u16),
        },
        Part { kind: CenteredPart::Middle, size: Constraint::Percentage(percent) },
        Part {
            kind: CenteredPart::Margin,
            size: Constraint::Percentage(((100 - percent) / 2) as u16),
        },
    ]
}

/// One tab of the tab bar.
#[derive(Debug, Clone, Copy, PartialEq, Eq)]
pub struct Tab {
    /// The key that switches to the tab's view, in brackets.
    pub key: &'static str,
    pub label: &'static str,
    /// Whether the tab's view is the active one.
    pub active: bool,
}

/// A [`Tab`] as mathematical values.
pub struct TabModel {
    pub key: Seq<char>,
    pub label: Seq<char>,
    pub active: bool,
}

impl vstd::view::View for Tab {
    type V = TabModel;

    open spec fn view(&self) -> TabModel {
        TabModel { key: self.key@, label: self.label@, active: self.active }
    }
}

/// The tabs as mathematical values.
pub open spec fn tabs_view(tabs: Seq<Tab>) -> Seq<TabModel> {
    Seq::new(tabs.len(), |i: int| tabs[i]@)
}

/// The tab bar while the given view is active: one tab for each view, in
/// the order of their keys.
pub open spec fn tab_bar_of(view: View) -> Seq<TabModel> {
    seq![
        TabModel { key: "[1] "@, label: "Now Playing  "@, active: view == View::NowPlaying },
        TabModel { key: "[2] "@, label: "Browse  "@, active: view == View::Browse },
        TabModel { key: "[3] "@, label: "Search  "@, active: view == View::Search },
    ]
}

/// What stands in the left part of the status bar.
#[derive(Debug, Clone, PartialEq, Eq)]
pub struct StatusLeft {
    pub connection: &'static str,
    pub zone: String,
}

/// The status bar.
#[derive(Debug, Clone, PartialEq, Eq)]
pub struct StatusBar {
    /// Whether the last refresh of the zones succeeded, which the connection
    /// text shows by its colour.
    pub connected: bool,
    /// What stands in the left part: the connection and the active zone.
    pub left: StatusLeft,
    /// What stands in the right part: the hint at the help popup.
    pub right: &'static str,
}

/// A [`StatusBar`] as mathematical values.
#[verifier::ext_equal]
pub struct StatusBarModel {
    pub connected: bool,
    pub left: (Seq<char>, Seq<char>),
    pub right: Seq<char>,
}

impl vstd::view::View for StatusBar {
    type V = StatusBarModel;

    open spec fn view(&self) -> StatusBarModel {
        StatusBarModel {
            connected: self.connected,
            left: (self.left.connection@, self.left.zone@),
            right: self.right@,
        }
    }
}

/// The status bar of a state: on the left a dot with the connection and the
/// name of the active zone, on the right the hint at the help popup.
pub open spec fn status_bar_of(app: AppModel) -> StatusBarModel {
    StatusBarModel {
        connected: app.connected,
        left: (
            if app.connected {
                "● Connected"@
            } else {
                "○ Disconnected"@
            },
            " │ Zone: "@ + app.current_zone_name(),
        ),
        right: " │ Press ? for help"@,
    }
}

/// What fills the content area.
#[derive(Debug, Clone, PartialEq, Eq)]
pub enum Content {
    NowPlaying(now_playing::NowPlayingScreen),
    Browse(browse::BrowseScreen),
    Search(search::SearchScreen),
}

/// A [`Content`] as mathematical values.
#[verifier::ext_equal]
pub enum ContentModel {
    NowPlaying(now_playing::NowPlayingModel),
    Browse(browse::BrowseScreenModel),
    Search(search::SearchScreenModel),
}

impl vstd::view::View for Content {
    type V = ContentModel;

    open spec fn view(&self) -> ContentModel {
        match self {
            Content::NowPlaying(s) => ContentModel::NowPlaying(s@),
            Content::Browse(s) => ContentModel::Browse(s@),
            Content::Search(s) => ContentModel::Search(s@),
        }
    }
}

/// What a popup shows.
#[derive(Debug, Clone, PartialEq, Eq)]
pub enum PopupScreen {
    Help(Vec<help::HelpLine>),
    ZoneSelector(zones::ZoneList),
}

/// A [`PopupScreen`] as mathematical values.
#[verifier::ext_equal]
pub enum PopupModel {
    Help(Seq<help::HelpLineModel>),
    ZoneSelector(zones::ZoneListModel),
}

impl vstd::view::View for PopupScreen {
    type V = PopupModel;

    open spec fn view(&self) -> PopupModel {
        match self {
            PopupScreen::Help(lines) => PopupModel::Help(help::lines_view(lines@)),
            PopupScreen::ZoneSelector(list) => PopupModel::ZoneSelector(list@),
        }
    }
}

/// The whole screen: the tab bar on top, the content of the active view,
/// the status bar at the bottom, and the popup over it all, if one is open.
#[derive(Debug, Clone, PartialEq, Eq)]
pub struct Screen {
    pub tabs: Vec<Tab>,
    pub content: Content,
    pub status: StatusBar,
    pub popup: Option<PopupScreen>,
}

/// A [`Screen`] as mathematical values.
#[verifier::ext_equal]
pub struct ScreenModel {
    pub tabs: Seq<TabModel>,
    pub content: ContentModel,
    pub status: StatusBarModel,
    pub popup: Option<PopupModel>,
}

impl vstd::view::View for Screen {
    type V = ScreenModel;

    open spec fn view(&self) -> ScreenModel {
        ScreenModel {
            tabs: tabs_view(self.tabs@),
            content: self.content@,
            status: self.status@,
            popup: match self.popup {
                Some(p) => Some(p@),
                None => None,
            },
        }
    }
}

/// What fills the content area in a state at the time `now_ms`: the screen
/// of the active view.
pub open spec fn content_of(app: AppModel, now_ms: nat) -> ContentModel {
    match app.view {
        View::NowPlaying => ContentModel::NowPlaying(now_playing::screen_of(app, now_ms)),
        View::Browse => ContentModel::Browse(browse::screen_of(app.browse)),
        View::Search => ContentModel::Search(search::screen_of(app.search)),
    }
}

/// What the popup shows in a state, if one is open.
pub open spec fn popup_of(app: AppModel) -> Option<PopupModel> {
    match app.popup {
        Some(Popup::Help) => Some(PopupModel::Help(help::help_lines())),
        Some(Popup::ZoneSelector) => Some(PopupModel::ZoneSelector(zones::list_of(app))),
        None => None,
    }
}

/// What the screen shows of a state at the time `now_ms`.
pub open spec fn screen_of(app: AppModel, now_ms: nat) -> ScreenModel {
    ScreenModel {
        tabs: tab_bar_of(app.view),
        content: content_of(app, now_ms),
        status: status_bar_of(app),
        popup: popup_of(app),
    }
}

/// The rows of the screen, from the top.
pub fn screen_rows() -> (rows: Vec<Part<ScreenPart>>)
    ensures
        rows@ == screen_rows_of(),
{
    vec![
        Part { kind: ScreenPart::TabBar, size: Constraint::Length(1) },
        Part { kind: ScreenPart::Content, size: Constraint::Min(0) },
        Part { kind: ScreenPart::StatusBar, size: Constraint::Length(1) },
    ]
}

/// The columns of the status bar, from the left.
pub fn status_columns() -> (columns: Vec<Part<StatusPart>>)
    ensures
        columns@ == status_columns_of(),
{
    let right: u16 = 100 - STATUS_LEFT_PERCENT;
    vec![
        Part { kind: StatusPart::Left, size: Constraint::Percentage(STATUS_LEFT_PERCENT) },
        Part { kind: StatusPart::Right, size: Constraint::Percentage(right) },
    ]
}

/// The three parts that centre a part of the given percentage. A popup is
/// placed in the middle part of the rows of the screen, and in the middle
/// part of the columns of that.
pub fn centered_parts(percent: u16) -> (parts: Vec<Part<CenteredPart>>)
    requires
        percent <= 100,
    ensures
        parts@ == centered_parts_of(percent),
{
    let margin: u16 = (100 - percent) / 2;
    vec![
        Part { kind: CenteredPart::Margin, size: Constraint::Percentage(margin) },
        Part { kind: CenteredPart::Middle, size: Constraint::Percentage(percent) },
        Part { kind: CenteredPart::Margin, size: Constraint::Percentage(margin) },
    ]
}

/// The tab bar: one tab for each view, the active one marked.
pub fn draw_tab_bar(app: &App) -> (tabs: Vec<Tab>)
    ensures
        tabs_view(tabs@) == tab_bar_of(app@.view),
{
    let tabs: Vec<Tab> = vec![
        Tab { key: "[1] ", label: "Now Playing  ", active: app.view == View::NowPlaying },
        Tab { key: "[2] ", label: "Browse  ", active: app.view == View::Browse },
        Tab { key: "[3] ", label: "Search  ", active: app.view == View::Search },
    ];
    tabs
}

/// The status bar: the connection, the active zone, and the hint at the
/// help popup.
pub fn draw_status_bar(app: &App) -> (bar: StatusBar)
    ensures
        bar@ == status_bar_of(app@),
{
    let mut zone = " │ Zone: ".to_string();
    zone.append(app.current_zone_name());
    StatusBar {
        connected: app.connected,
        left: StatusLeft {
            connection: if app.connected {
                "● Connected"
            } else {
                "○ Disconnected"
            },
            zone,
        },
        right: " │ Press ? for help",
    }
}

/// What the popup shows, if one is open.
pub fn draw_popup(app: &App) -> (popup: Option<PopupScreen>)
    ensures
        match popup {
            Some(p) => popup_of(app@) == Some(p@),
            None => popup_of(app@).is_none(),
        },
{
    match app.popup {
        Some(Popup::Help) => Some(PopupScreen::Help(help::draw())),
        Some(Popup::ZoneSelector) => Some(PopupScreen::ZoneSelector(zones::draw_selector(app))),
        None => None,
    }
}

/// What the screen shows at the time `now_ms`.
pub fn draw(app: &App, now_ms: u64) -> (screen: Screen)
    ensures
        screen@ == screen_of(app@, now_ms as nat),
{
    let content = match app.view {
        View::NowPlaying => Content::NowPlaying(now_playing::draw(app, now_ms)),
        View::Browse => Content::Browse(browse::draw(&app.browse)),
        View::Search => Content::Search(search::draw(&app.search)),
    };
    let screen = Screen {
        tabs: draw_tab_bar(app),
        content,
        status: draw_status_bar(app),
        popup: draw_popup(app),
    };
    screen
}

} // verus!
