//! The state of the interface: the active view, the popup, the zones, the
//! album art, and the browse and search lists.

use crate::roon::models::{BrowseItem, BrowseResult, NowPlaying, Output, PlaybackState, Volume, Zone};
use crate::roon::models::playback_state_of;
use crate::text::{signed_decimal, signed_decimal_string, text_eq, two_digit_string, two_digits};
use image::DynamicImage;
use ratatui_image::picker::Picker;
use vstd::prelude::*;
use vstd::string::*;
use vstd::view::View as _;

verus! {

/// A decoded image, as the `image` crate holds it. The library stores and
/// hands on such a value and never looks inside it.
#[verifier::external_type_specification]
#[verifier::external_body]
pub struct ExDynamicImage(image::DynamicImage);

/// The image protocol of the terminal, as `ratatui_image` found it. The
/// library stores and hands on such a value and never looks inside it.
#[verifier::external_type_specification]
#[verifier::external_body]
pub struct ExPicker(ratatui_image::picker::Picker);

/// The view that fills the content area.
#[derive(Debug, Clone, Copy, PartialEq, Eq, Structural)]
pub enum View {
    NowPlaying,
    Browse,
    Search,
}

impl Default for View {
    fn default() -> (v: View)
        ensures
            v == View::NowPlaying,
    {
        View::NowPlaying
    }
}

/// A modal overlay; while one is open it gets every key.
#[derive(Debug, Clone, Copy, PartialEq, Eq, Structural)]
pub enum Popup {
    Help,
    ZoneSelector,
}

/// The label of the root of the library.
pub open spec fn library_label() -> Seq<char> {
    "Library"@
}

/// The label of the root of a search.
pub open spec fn search_label() -> Seq<char> {
    "Search"@
}

/// A listing of the library with a selection, and the path that led to it.
pub struct BrowseState {
    pub items: Vec<BrowseItem>,
    pub selected_index: usize,
    pub breadcrumbs: Vec<String>,
    pub loading: bool,
    pub error: Option<String>,
}

/// What a [`BrowseState`] holds, as mathematical values.
#[verifier::ext_equal]
pub struct BrowseModel {
    pub items: Seq<BrowseItem>,
    pub selected_index: nat,
    pub breadcrumbs: Seq<Seq<char>>,
    pub loading: bool,
    pub error: Option<Seq<char>>,
}

impl vstd::view::View for BrowseState {
    type V = BrowseModel;

    open spec fn view(&self) -> BrowseModel {
        BrowseModel {
            items: self.items@,
            selected_index: self.selected_index as nat,
            breadcrumbs: self.breadcrumbs.deep_view(),
            loading: self.loading,
            error: self.error.deep_view(),
        }
    }
}

impl BrowseModel {
    /// The selection points into the list, or is 0 where the list is empty,
    /// and the path has at least its root.
    pub open spec fn wf(self) -> bool {
        &&& self.breadcrumbs.len() >= 1
        &&& self.items.len() == 0 ==> self.selected_index == 0
        &&& self.items.len() > 0 ==> self.selected_index < self.items.len()
    }

    /// The empty listing under a root of that label.
    pub open spec fn root(label: Seq<char>) -> BrowseModel {
        BrowseModel {
            items: Seq::empty(),
            selected_index: 0,
            breadcrumbs: seq![label],
            loading: false,
            error: None,
        }
    }

    /// The selection one row up; it stays on the first row.
    pub open spec fn up(self) -> BrowseModel {
        BrowseModel {
            selected_index: if self.selected_index > 0 {
                (self.selected_index - 1) as nat
            } else {
                self.selected_index
            },
            ..self
        }
    }

    /// The selection one row down; it stays on the last row.
    pub open spec fn down(self) -> BrowseModel {
        BrowseModel {
            selected_index: if self.selected_index + 1 < self.items.len() {
                self.selected_index + 1
            } else {
                self.selected_index
            },
            ..self
        }
    }

    /// The state once the controller has answered with the root listing: the
    /// path is the answer's title, or the given label where it has none.
    pub open spec fn opened(self, result: BrowseResult, label: Seq<char>) -> BrowseModel {
        BrowseModel {
            items: result.items@,
            selected_index: 0,
            breadcrumbs: seq![
                match result.title {
                    Some(t) => t@,
                    None => label,
                },
            ],
            error: None,
            ..self
        }
    }

    /// The path once the selected entry has been entered: one longer by the
    /// entry's title, where there is such an entry, and then ending in the
    /// answer's title, where it has one.
    pub open spec fn entered_path(self, result: BrowseResult) -> Seq<Seq<char>> {
        let pushed = if self.selected_index < self.items.len() {
            self.breadcrumbs.push(self.items[self.selected_index as int].title@)
        } else {
            self.breadcrumbs
        };
        match result.title {
            Some(t) => if pushed.len() > 0 {
                pushed.update(pushed.len() - 1, t@)
            } else {
                pushed
            },
            None => pushed,
        }
    }

    /// The state once the controller has answered a selection with a new
    /// listing.
    pub open spec fn entered(self, result: BrowseResult) -> BrowseModel {
        BrowseModel {
            items: result.items@,
            selected_index: 0,
            breadcrumbs: self.entered_path(result),
            error: None,
            ..self
        }
    }

    /// The state once the controller has gone back one level: the path
    /// loses its last entry, but never its root.
    pub open spec fn left(self, result: BrowseResult) -> BrowseModel {
        BrowseModel {
            items: result.items@,
            selected_index: 0,
            breadcrumbs: if self.breadcrumbs.len() > 1 {
                self.breadcrumbs.drop_last()
            } else {
                self.breadcrumbs
            },
            error: None,
            ..self
        }
    }

    /// The state with the message of a failed command.
    pub open spec fn failed(self, message: Seq<char>) -> BrowseModel {
        BrowseModel { error: Some(message), ..self }
    }
}

impl BrowseState {
    /// The empty listing under a root of that label.
    pub fn with_root(label: &str) -> (s: BrowseState)
        ensures
            s@ == BrowseModel::root(label@),
            s@.wf(),
    {
        let mut breadcrumbs: Vec<String> = Vec::new();
        breadcrumbs.push(label.to_string());
        let s = BrowseState {
            items: Vec::new(),
            selected_index: 0,
            breadcrumbs,
            loading: false,
            error: None,
        };
        s
    }

    /// Back to the empty listing under the library's root.
    pub fn reset(&mut self)
        ensures
            final(self)@ == BrowseModel::root(library_label()),
            final(self)@.wf(),
    {
        *self = BrowseState::with_root("Library");
    }

    /// Moves the selection one row up.
    pub fn select_up(&mut self)
        ensures
            final(self)@ == old(self)@.up(),
            old(self)@.wf() ==> final(self)@.wf(),
    {
        if self.selected_index > 0 {
            self.selected_index -= 1;
        }
    }

    /// Moves the selection one row down.
    pub fn select_down(&mut self)
        ensures
            final(self)@ == old(self)@.down(),
            old(self)@.wf() ==> final(self)@.wf(),
    {
        let len: usize = self.items.len();
        if len > 0 && self.selected_index < len - 1 {
            self.selected_index += 1;
        }
    }

    /// Takes the root listing that the controller has sent.
    pub fn open(&mut self, result: BrowseResult, label: &str)
        ensures
            final(self)@ == old(self)@.opened(result, label@),
            final(self)@.wf(),
    {
        let BrowseResult { items, title, .. } = result;
        let crumb = match title {
            Some(t) => t,
            None => label.to_string(),
        };
        let mut breadcrumbs: Vec<String> = Vec::new();
        breadcrumbs.push(crumb);
        self.items = items;
        self.selected_index = 0;
        self.breadcrumbs = breadcrumbs;
        self.error = None;
    }

    /// Goes down into the listing that the controller has sent for the
    /// selected entry.
    pub fn enter(&mut self, result: BrowseResult)
        ensures
            final(self)@ == old(self)@.entered(result),
            old(self)@.wf() ==> final(self)@.wf(),
    {
        let BrowseResult { items, title, .. } = result;
        if self.selected_index < self.items.len() {
            let crumb = self.items[self.selected_index].title.clone();
            self.breadcrumbs.push(crumb);
        }
        match title {
            Some(t) => {
                let len: usize = self.breadcrumbs.len();
                if len > 0 {
                    self.breadcrumbs.set(len - 1, t);
                }
            },
            None => {},
        }
        self.items = items;
        self.selected_index = 0;
        self.error = None;
    }

    /// Goes up into the listing that the controller has sent for the level
    /// above. The root stays in the path.
    pub fn leave(&mut self, result: BrowseResult)
        ensures
            final(self)@ == old(self)@.left(result),
            old(self)@.wf() ==> final(self)@.wf(),
    {
        let BrowseResult { items, .. } = result;
        if self.breadcrumbs.len() > 1 {
            self.breadcrumbs.pop();
        }
        self.items = items;
        self.selected_index = 0;
        self.error = None;
    }

    /// Notes the message of a failed command.
    pub fn fail(&mut self, message: String)
        ensures
            final(self)@ == old(self)@.failed(message@),
            old(self)@.wf() ==> final(self)@.wf(),
    {
        self.error = Some(message);
    }
}

impl Default for BrowseState {
    fn default() -> (s: BrowseState)
        ensures
            s@ == BrowseModel::root(library_label()),
    {
        BrowseState::with_root("Library")
    }
}

/// The search view: the query, whether it is being typed, and the results.
pub struct SearchState {
    pub query: String,
    /// `true` while the query is typed, `false` while the results are walked.
    pub input_active: bool,
    pub results: BrowseState,
}

/// What a [`SearchState`] holds, as mathematical values.
#[verifier::ext_equal]
pub struct SearchModel {
    pub query: Seq<char>,
    pub input_active: bool,
    pub results: BrowseModel,
}

impl vstd::view::View for SearchState {
    type V = SearchModel;

    open spec fn view(&self) -> SearchModel {
        SearchModel { query: self.query@, input_active: self.input_active, results: self.results@ }
    }
}

impl SearchModel {
    /// An empty query that is being typed, over an empty result list.
    pub open spec fn initial() -> SearchModel {
        SearchModel {
            query: Seq::empty(),
            input_active: true,
            results: BrowseModel::root(search_label()),
        }
    }
}

impl SearchState {
    /// Back to an empty query that is being typed.
    pub fn reset(&mut self)
        ensures
            final(self)@ == SearchModel::initial(),
            final(self)@.results.wf(),
    {
        self.query = String::new();
        self.input_active = true;
        self.results = BrowseState::with_root("Search");
    }
}

impl Default for SearchState {
    fn default() -> (s: SearchState)
        ensures
            s@ == SearchModel::initial(),
    {
        let s = SearchState {
            query: String::new(),
            input_active: true,
            results: BrowseState::with_root("Search"),
        };
        s
    }
}

/// A fraction between 0 and 1.
#[derive(Debug, Clone, Copy, PartialEq, Eq, Structural)]
pub struct Ratio {
    pub numerator: u64,
    pub denominator: u64,
}

impl Ratio {
    /// The fraction is defined and at most 1.
    pub open spec fn wf(self) -> bool {
        self.denominator > 0 && self.numerator <= self.denominator
    }
}

/// The time that has passed between two readings of the clock; none where
/// the clock seems to have gone back.
pub open spec fn elapsed_since(last: nat, now: nat) -> nat {
    if now >= last {
        (now - last) as nat
    } else {
        0
    }
}

/// The position to show for a track whose position was `seek` when the zones
/// were last refreshed, `elapsed` ago: while the zone plays, the position
/// runs on with the clock up to the track's length.
pub open spec fn interpolated(seek: nat, length: nat, playing: bool, elapsed: nat) -> nat {
    if playing {
        if seek + elapsed <= length {
            seek + elapsed
        } else {
            length
        }
    } else {
        seek
    }
}

/// The part of the track that lies before the position, as numerator and
/// denominator; 0 where the track's length is not known.
pub open spec fn progress(position: nat, length: nat) -> (nat, nat) {
    if length > 0 {
        (
            if position <= length {
                position
            } else {
                length
            },
            length,
        )
    } else {
        (0, 1)
    }
}

/// A duration in milliseconds as minutes and seconds, `mm:ss`.
pub open spec fn duration_text(ms: nat) -> Seq<char> {
    two_digits((ms / 1000) / 60) + seq![':'] + two_digits((ms / 1000) % 60)
}

/// The icon of a playback state.
pub open spec fn playback_icon_of(state: PlaybackState) -> Seq<char> {
    match state {
        PlaybackState::Playing => "▶"@,
        PlaybackState::Paused => "⏸"@,
        PlaybackState::Stopped => "⏹"@,
        PlaybackState::Loading => "⏳"@,
    }
}

/// The icon that shows whether shuffle is on; two spaces keep the place
/// where it is off.
pub open spec fn shuffle_icon_of(on: bool) -> Seq<char> {
    if on {
        "🔀"@
    } else {
        "  "@
    }
}

/// The icon of a loop mode; two spaces keep the place where nothing loops.
pub open spec fn loop_icon_of(mode: Seq<char>) -> Seq<char> {
    if mode == "loop"@ {
        "🔁"@
    } else if mode == "loop_one"@ {
        "🔂"@
    } else {
        "  "@
    }
}

/// The icon that shows whether auto-radio is on; two spaces keep the place
/// where it is off.
pub open spec fn radio_icon_of(on: bool) -> Seq<char> {
    if on {
        "📻"@
    } else {
        "  "@
    }
}

/// The volume line for the volume of the first output, if there is one.
pub open spec fn volume_text(volume: Option<Volume>) -> Seq<char> {
    match volume {
        Some(v) => if v.is_muted {
            "🔇 Muted"@
        } else {
            "🔊 "@ + signed_decimal(v.value as int) + "%"@
        },
        None => "🔊 --"@,
    }
}

/// The whole state of the interface.
pub struct App {
    /// Whether the event loop should end.
    pub should_quit: bool,
    /// The active view.
    pub view: View,
    /// The open popup, if any.
    pub popup: Option<Popup>,
    /// Whether the last refresh of the zones succeeded.
    pub connected: bool,
    /// The message of the last failed refresh, if the last one failed.
    pub error: Option<String>,
    /// All zones, as of the last successful refresh.
    pub zones: Vec<Zone>,
    /// The index of the active zone.
    pub selected_zone_index: usize,
    /// The index of the highlighted row of the zone selector.
    pub zone_selector_index: usize,
    /// The decoded album art.
    pub album_art: Option<DynamicImage>,
    /// The address that the album art was, or is being, fetched from.
    pub album_art_url: Option<String>,
    /// The image protocol of the terminal; absent where it supports none.
    pub image_picker: Option<Picker>,
    /// The reading of the clock, in milliseconds, at the last successful
    /// refresh of the zones.
    pub last_refresh_ms: u64,
    pub browse: BrowseState,
    pub search: SearchState,
}

/// What an [`App`] holds, as mathematical values.
#[verifier::ext_equal]
pub struct AppModel {
    pub should_quit: bool,
    pub view: View,
    pub popup: Option<Popup>,
    pub connected: bool,
    pub error: Option<Seq<char>>,
    pub zones: Seq<Zone>,
    pub selected_zone_index: nat,
    pub zone_selector_index: nat,
    pub album_art: Option<DynamicImage>,
    pub album_art_url: Option<Seq<char>>,
    pub image_picker: Option<Picker>,
    pub last_refresh_ms: nat,
    pub browse: BrowseModel,
    pub search: SearchModel,
}

impl vstd::view::View for App {
    type V = AppModel;

    open spec fn view(&self) -> AppModel {
        AppModel {
            should_quit: self.should_quit,
            view: self.view,
            popup: self.popup,
            connected: self.connected,
            error: self.error.deep_view(),
            zones: self.zones@,
            selected_zone_index: self.selected_zone_index as nat,
            zone_selector_index: self.zone_selector_index as nat,
            album_art: self.album_art,
            album_art_url: self.album_art_url.deep_view(),
            image_picker: self.image_picker,
            last_refresh_ms: self.last_refresh_ms as nat,
            browse: self.browse@,
            search: self.search@,
        }
    }
}

impl AppModel {
    /// Both lists are well-formed, and there is an active zone exactly when
    /// there is a zone.
    pub open spec fn wf(self) -> bool {
        &&& self.browse.wf()
        &&& self.search.results.wf()
        &&& self.zones.len() == 0 ==> self.selected_zone_index == 0
        &&& self.zones.len() > 0 ==> self.selected_zone_index < self.zones.len()
    }

    /// The state at startup.
    pub open spec fn initial(image_picker: Option<Picker>, now_ms: nat) -> AppModel {
        AppModel {
            should_quit: false,
            view: View::NowPlaying,
            popup: None,
            connected: false,
            error: None,
            zones: Seq::empty(),
            selected_zone_index: 0,
            zone_selector_index: 0,
            album_art: None,
            album_art_url: None,
            image_picker,
            last_refresh_ms: now_ms,
            browse: BrowseModel::root(library_label()),
            search: SearchModel::initial(),
        }
    }

    /// The active zone.
    pub open spec fn current_zone(self) -> Option<Zone> {
        if self.selected_zone_index < self.zones.len() {
            Some(self.zones[self.selected_zone_index as int])
        } else {
            None
        }
    }

    /// The name to show for the active zone.
    pub open spec fn current_zone_name(self) -> Seq<char> {
        match self.current_zone() {
            Some(z) => z.display_name@,
            None => "No Zone"@,
        }
    }

    /// The first output of the active zone.
    pub open spec fn first_output(self) -> Option<Output> {
        match self.current_zone() {
            Some(z) => if z.outputs@.len() > 0 {
                Some(z.outputs@[0])
            } else {
                None
            },
            None => None,
        }
    }

    /// The display name of the first output of the active zone.
    pub open spec fn first_output_name(self) -> Option<Seq<char>> {
        match self.first_output() {
            Some(o) => Some(o.display_name@),
            None => None,
        }
    }

    /// The volume of the first output of the active zone.
    pub open spec fn first_volume(self) -> Option<Volume> {
        match self.first_output() {
            Some(o) => o.volume,
            None => None,
        }
    }

    /// Whether the first output of the active zone is muted.
    pub open spec fn muted(self) -> bool {
        match self.first_volume() {
            Some(v) => v.is_muted,
            None => false,
        }
    }

    /// What the active zone is doing; `Stopped` where there is none.
    pub open spec fn playback_state(self) -> PlaybackState {
        match self.current_zone() {
            Some(z) => playback_state_of(z.state@),
            None => PlaybackState::Stopped,
        }
    }

    /// Whether the active zone shuffles; `false` where there is none.
    pub open spec fn shuffle(self) -> bool {
        match self.current_zone() {
            Some(z) => z.settings.shuffle,
            None => false,
        }
    }

    /// Whether the active zone has auto-radio on; `false` where there is none.
    pub open spec fn auto_radio(self) -> bool {
        match self.current_zone() {
            Some(z) => z.settings.auto_radio,
            None => false,
        }
    }

    /// The loop mode of the active zone; `disabled` where there is none.
    pub open spec fn loop_mode(self) -> Seq<char> {
        match self.current_zone() {
            Some(z) => z.settings.loop_mode@,
            None => "disabled"@,
        }
    }

    /// The track that the active zone plays.
    pub open spec fn now_playing(self) -> Option<NowPlaying> {
        match self.current_zone() {
            Some(z) => z.now_playing,
            None => None,
        }
    }

    /// Whether the active zone reports the state `playing`.
    pub open spec fn playing(self) -> bool {
        match self.current_zone() {
            Some(z) => z.state@ == "playing"@,
            None => false,
        }
    }

    /// The position to show at the time `now_ms`, in milliseconds; 0 where
    /// nothing plays.
    pub open spec fn interpolated_seek(self, now_ms: nat) -> nat {
        match self.now_playing() {
            Some(np) => interpolated(
                np.seek_position_ms as nat,
                np.length_ms as nat,
                self.playing(),
                elapsed_since(self.last_refresh_ms, now_ms),
            ),
            None => 0,
        }
    }

    /// The progress to show at the time `now_ms`, as numerator and
    /// denominator.
    pub open spec fn progress_ratio(self, now_ms: nat) -> (nat, nat) {
        match self.now_playing() {
            Some(np) => progress(self.interpolated_seek(now_ms), np.length_ms as nat),
            None => (0, 1),
        }
    }

    /// The time line to show at the time `now_ms`: position and length.
    pub open spec fn progress_display(self, now_ms: nat) -> Seq<char> {
        match self.now_playing() {
            Some(np) => duration_text(self.interpolated_seek(now_ms)) + " / "@ + duration_text(
                np.length_ms as nat,
            ),
            None => "00:00 / 00:00"@,
        }
    }

    /// Title, artist and album of the playing track.
    pub open spec fn track_info(self) -> (Seq<char>, Seq<char>, Seq<char>) {
        match self.now_playing() {
            Some(np) => (np.track@, np.artist@, np.album@),
            None => ("No track playing"@, ""@, ""@),
        }
    }

    /// The address of the playing track's album art, where it has one that
    /// differs from the one that was fetched last.
    pub open spec fn album_art_url_if_changed(self) -> Option<Seq<char>> {
        match self.now_playing() {
            Some(np) => match np.album_art_url {
                Some(url) => if self.album_art_url == Some(url@) {
                    None
                } else {
                    Some(url@)
                },
                None => None,
            },
            None => None,
        }
    }

    /// The display name of the zone that the selector highlights.
    pub open spec fn selected_zone_name(self) -> Option<Seq<char>> {
        if self.zone_selector_index < self.zones.len() {
            Some(self.zones[self.zone_selector_index as int].display_name@)
        } else {
            None
        }
    }

    /// The state once the zones were refreshed at the time `now_ms`.
    pub open spec fn mark_refreshed(self, now_ms: nat) -> AppModel {
        AppModel { last_refresh_ms: now_ms, ..self }
    }

    /// The state with the decoded album art of that address.
    pub open spec fn set_album_art(self, image: DynamicImage, url: Seq<char>) -> AppModel {
        AppModel { album_art: Some(image), album_art_url: Some(url), ..self }
    }

    /// The state without album art.
    pub open spec fn clear_album_art(self) -> AppModel {
        AppModel { album_art: None, album_art_url: None, ..self }
    }

    /// The state with the popup open; the zone selector opens on the active
    /// zone.
    pub open spec fn show_popup(self, popup: Popup) -> AppModel {
        AppModel {
            popup: Some(popup),
            zone_selector_index: if popup == Popup::ZoneSelector {
                self.selected_zone_index
            } else {
                self.zone_selector_index
            },
            ..self
        }
    }

    /// The state without a popup.
    pub open spec fn close_popup(self) -> AppModel {
        AppModel { popup: None, ..self }
    }

    /// The state with the selection of the list in focus one row up. An open
    /// popup holds the focus: the zone selector has a list, the help popup
    /// has none, so that nothing moves while it is open. Without a popup the
    /// list of the active view is in focus, and the Now Playing view has
    /// none.
    pub open spec fn select_up(self) -> AppModel {
        match self.popup {
            Some(Popup::ZoneSelector) => AppModel {
                zone_selector_index: if self.zone_selector_index > 0 {
                    (self.zone_selector_index - 1) as nat
                } else {
                    self.zone_selector_index
                },
                ..self
            },
            Some(Popup::Help) => self,
            None => match self.view {
                View::Browse => AppModel { browse: self.browse.up(), ..self },
                View::Search => AppModel {
                    search: SearchModel { results: self.search.results.up(), ..self.search },
                    ..self
                },
                View::NowPlaying => self,
            },
        }
    }

    /// The state with the selection of the list in focus one row down; the
    /// focus is where [`AppModel::select_up`] says.
    pub open spec fn select_down(self) -> AppModel {
        match self.popup {
            Some(Popup::ZoneSelector) => AppModel {
                zone_selector_index: if self.zone_selector_index + 1 < self.zones.len() {
                    self.zone_selector_index + 1
                } else {
                    self.zone_selector_index
                },
                ..self
            },
            Some(Popup::Help) => self,
            None => match self.view {
                View::Browse => AppModel { browse: self.browse.down(), ..self },
                View::Search => AppModel {
                    search: SearchModel { results: self.search.results.down(), ..self.search },
                    ..self
                },
                View::NowPlaying => self,
            },
        }
    }

    /// The state once the highlighted zone has become the active one: the
    /// album art is dropped and the popup closed. Nothing changes where the
    /// selector highlights no zone.
    pub open spec fn select_zone(self) -> AppModel {
        if self.zone_selector_index < self.zones.len() {
            AppModel {
                selected_zone_index: self.zone_selector_index,
                album_art: None,
                album_art_url: None,
                popup: None,
                ..self
            }
        } else {
            self
        }
    }
}

/// A duration in milliseconds as minutes and seconds, `mm:ss`.
pub fn format_duration(ms: u64) -> (s: String)
    ensures
        s@ == duration_text(ms as nat),
{
    let total_secs: u64 = ms / 1000;
    let mut s = two_digit_string(total_secs / 60);
    s.push(':');
    let secs = two_digit_string(total_secs % 60);
    s.append(secs.as_str());
    s
}

/// The position to show for a track, `elapsed_ms` after the last refresh.
pub fn interpolate(seek_ms: u64, length_ms: u64, playing: bool, elapsed_ms: u64) -> (p: u64)
    ensures
        p == interpolated(seek_ms as nat, length_ms as nat, playing, elapsed_ms as nat),
{
    if playing {
        if seek_ms >= length_ms {
            length_ms
        } else if elapsed_ms >= length_ms - seek_ms {
            length_ms
        } else {
            seek_ms + elapsed_ms
        }
    } else {
        seek_ms
    }
}

impl App {
    /// The state at startup, with the image protocol that the terminal was
    /// found to support and the reading of the clock in milliseconds.
    pub fn new(image_picker: Option<Picker>, now_ms: u64) -> (app: App)
        ensures
            app@ == AppModel::initial(image_picker, now_ms as nat),
            app@.wf(),
    {
        let app = App {
            should_quit: false,
            view: View::NowPlaying,
            popup: None,
            connected: false,
            error: None,
            zones: Vec::new(),
            selected_zone_index: 0,
            zone_selector_index: 0,
            album_art: None,
            album_art_url: None,
            image_picker,
            last_refresh_ms: now_ms,
            browse: BrowseState::with_root("Library"),
            search: SearchState::default(),
        };
        app
    }

    /// Notes that the zones were refreshed at the time `now_ms`.
    pub fn mark_refreshed(&mut self, now_ms: u64)
        ensures
            final(self)@ == old(self)@.mark_refreshed(now_ms as nat),
            old(self)@.wf() ==> final(self)@.wf(),
    {
        self.last_refresh_ms = now_ms;
    }

    /// The position to show at the time `now_ms`, in milliseconds.
    pub fn interpolated_seek(&self, now_ms: u64) -> (p: u64)
        ensures
            p == self@.interpolated_seek(now_ms as nat),
    {
        match self.current_zone() {
            Some(zone) => match &zone.now_playing {
                Some(np) => {
                    let elapsed: u64 = now_ms.saturating_sub(self.last_refresh_ms);
                    interpolate(np.seek_position_ms, np.length_ms, zone.is_playing(), elapsed)
                },
                None => 0,
            },
            None => 0,
        }
    }

    /// The active zone.
    pub fn current_zone(&self) -> (z: Option<&Zone>)
        ensures
            match z {
                Some(zone) => self@.current_zone() == Some(*zone),
                None => self@.current_zone().is_none(),
            },
    {
        if self.selected_zone_index < self.zones.len() {
            Some(&self.zones[self.selected_zone_index])
        } else {
            None
        }
    }

    /// The name to show for the active zone.
    pub fn current_zone_name(&self) -> (name: &str)
        ensures
            name@ == self@.current_zone_name(),
    {
        match self.current_zone() {
            Some(z) => z.display_name.as_str(),
            None => "No Zone",
        }
    }

    fn first_output(&self) -> (o: Option<&Output>)
        ensures
            match o {
                Some(output) => self@.first_output() == Some(*output),
                None => self@.first_output().is_none(),
            },
    {
        match self.current_zone() {
            Some(z) => if z.outputs.len() > 0 {
                Some(&z.outputs[0])
            } else {
                None
            },
            None => None,
        }
    }

    /// The display name of the first output of the active zone.
    pub fn first_output_name(&self) -> (name: Option<String>)
        ensures
            name.deep_view() == self@.first_output_name(),
    {
        match self.first_output() {
            Some(o) => Some(o.display_name.clone()),
            None => None,
        }
    }

    /// What the active zone is doing.
    pub fn playback_state(&self) -> (s: PlaybackState)
        ensures
            s == self@.playback_state(),
    {
        match self.current_zone() {
            Some(z) => PlaybackState::from(z.state.as_str()),
            None => PlaybackState::Stopped,
        }
    }

    /// The icon of what the active zone is doing.
    pub fn playback_icon(&self) -> (icon: &'static str)
        ensures
            icon@ == playback_icon_of(self@.playback_state()),
    {
        match self.playback_state() {
            PlaybackState::Playing => "▶",
            PlaybackState::Paused => "⏸",
            PlaybackState::Stopped => "⏹",
            PlaybackState::Loading => "⏳",
        }
    }

    /// The icon that shows whether the active zone shuffles.
    pub fn shuffle_icon(&self) -> (icon: &'static str)
        ensures
            icon@ == shuffle_icon_of(self@.shuffle()),
    {
        let shuffle = match self.current_zone() {
            Some(z) => z.settings.shuffle,
            None => false,
        };
        if shuffle {
            "🔀"
        } else {
            "  "
        }
    }

    /// The icon of the loop mode of the active zone.
    pub fn loop_icon(&self) -> (icon: &'static str)
        ensures
            icon@ == loop_icon_of(self@.loop_mode()),
    {
        let mode = match self.current_zone() {
            Some(z) => z.settings.loop_mode.as_str(),
            None => "disabled",
        };
        if text_eq(mode, "loop") {
            "🔁"
        } else if text_eq(mode, "loop_one") {
            "🔂"
        } else {
            "  "
        }
    }

    /// The icon that shows whether the active zone has auto-radio on.
    pub fn radio_icon(&self) -> (icon: &'static str)
        ensures
            icon@ == radio_icon_of(self@.auto_radio()),
    {
        let radio = match self.current_zone() {
            Some(z) => z.settings.auto_radio,
            None => false,
        };
        if radio {
            "📻"
        } else {
            "  "
        }
    }

    /// The volume line: the level of the first output of the active zone.
    pub fn volume_display(&self) -> (line: String)
        ensures
            line@ == volume_text(self@.first_volume()),
    {
        match self.first_output() {
            Some(output) => match &output.volume {
                Some(vol) => if vol.is_muted {
                    "🔇 Muted".to_string()
                } else {
                    let mut line = "🔊 ".to_string();
                    let level = signed_decimal_string(vol.value);
                    line.append(level.as_str());
                    line.append("%");
                    line
                },
                None => "🔊 --".to_string(),
            },
            None => "🔊 --".to_string(),
        }
    }

    /// The time line at the time `now_ms`: position and length as `mm:ss`.
    pub fn progress_display(&self, now_ms: u64) -> (line: String)
        ensures
            line@ == self@.progress_display(now_ms as nat),
    {
        match self.current_zone() {
            Some(zone) => match &zone.now_playing {
                Some(np) => {
                    let mut line = format_duration(self.interpolated_seek(now_ms));
                    line.append(" / ");
                    let length = format_duration(np.length_ms);
                    line.append(length.as_str());
                    line
                },
                None => "00:00 / 00:00".to_string(),
            },
            None => "00:00 / 00:00".to_string(),
        }
    }

    /// The progress at the time `now_ms`: the part of the track that lies
    /// before the position, 0 where the track's length is not known.
    pub fn progress_ratio(&self, now_ms: u64) -> (r: Ratio)
        ensures
            (r.numerator as nat, r.denominator as nat) == self@.progress_ratio(now_ms as nat),
            r.wf(),
            self@.now_playing() matches Some(np) && np.length_ms == 0 ==> r.numerator == 0,
    {
        match self.current_zone() {
            Some(zone) => match &zone.now_playing {
                Some(np) => if np.length_ms > 0 {
                    let current: u64 = self.interpolated_seek(now_ms);
                    Ratio {
                        numerator: if current <= np.length_ms {
                            current
                        } else {
                            np.length_ms
                        },
                        denominator: np.length_ms,
                    }
                } else {
                    Ratio { numerator: 0, denominator: 1 }
                },
                None => Ratio { numerator: 0, denominator: 1 },
            },
            None => Ratio { numerator: 0, denominator: 1 },
        }
    }

    /// Title, artist and album of the playing track.
    pub fn track_info(&self) -> (info: (&str, &str, &str))
        ensures
            (info.0@, info.1@, info.2@) == self@.track_info(),
    {
        match self.current_zone() {
            Some(zone) => match &zone.now_playing {
                Some(np) => (np.track.as_str(), np.artist.as_str(), np.album.as_str()),
                None => ("No track playing", "", ""),
            },
            None => ("No track playing", "", ""),
        }
    }

    /// The address of the playing track's album art, where it has one that
    /// differs from the one that was fetched last.
    pub fn album_art_url_if_changed(&self) -> (url: Option<&str>)
        ensures
            match url {
                Some(u) => self@.album_art_url_if_changed() == Some(u@),
                None => self@.album_art_url_if_changed().is_none(),
            },
    {
        match self.current_zone() {
            Some(zone) => match &zone.now_playing {
                Some(np) => match &np.album_art_url {
                    Some(url) => {
                        let same = match &self.album_art_url {
                            Some(known) => text_eq(known.as_str(), url.as_str()),
                            None => false,
                        };
                        if same {
                            None
                        } else {
                            Some(url.as_str())
                        }
                    },
                    None => None,
                },
                None => None,
            },
            None => None,
        }
    }

    /// Stores the decoded album art of that address.
    pub fn set_album_art(&mut self, image: DynamicImage, url: String)
        ensures
            final(self)@ == old(self)@.set_album_art(image, url@),
            old(self)@.wf() ==> final(self)@.wf(),
    {
        self.album_art = Some(image);
        self.album_art_url = Some(url);
    }

    /// Drops the album art, so that it is fetched again.
    pub fn clear_album_art(&mut self)
        ensures
            final(self)@ == old(self)@.clear_album_art(),
            old(self)@.wf() ==> final(self)@.wf(),
    {
        self.album_art = None;
        self.album_art_url = None;
    }

    /// Opens a popup; the zone selector opens on the active zone.
    pub fn show_popup(&mut self, popup: Popup)
        ensures
            final(self)@ == old(self)@.show_popup(popup),
            old(self)@.wf() ==> final(self)@.wf(),
    {
        if popup == Popup::ZoneSelector {
            self.zone_selector_index = self.selected_zone_index;
        }
        self.popup = Some(popup);
    }

    /// Closes the popup, if one is open.
    pub fn close_popup(&mut self)
        ensures
            final(self)@ == old(self)@.close_popup(),
            old(self)@.wf() ==> final(self)@.wf(),
    {
        self.popup = None;
    }

    /// Moves the selection of the list in focus one row up. Nothing moves
    /// behind the help popup.
    pub fn select_up(&mut self)
        ensures
            final(self)@ == old(self)@.select_up(),
            old(self)@.wf() ==> final(self)@.wf(),
    {
        match self.popup {
            Some(Popup::ZoneSelector) => {
                if self.zone_selector_index > 0 {
                    self.zone_selector_index -= 1;
                }
            },
            Some(Popup::Help) => {},
            None => match self.view {
                View::Browse => self.browse.select_up(),
                View::Search => self.search.results.select_up(),
                View::NowPlaying => {},
            },
        }
    }

    /// Moves the selection of the list in focus one row down. Nothing moves
    /// behind the help popup.
    pub fn select_down(&mut self)
        ensures
            final(self)@ == old(self)@.select_down(),
            old(self)@.wf() ==> final(self)@.wf(),
    {
        match self.popup {
            Some(Popup::ZoneSelector) => {
                let len: usize = self.zones.len();
                if len > 0 && self.zone_selector_index < len - 1 {
                    self.zone_selector_index += 1;
                }
            },
            Some(Popup::Help) => {},
            None => match self.view {
                View::Browse => self.browse.select_down(),
                View::Search => self.search.results.select_down(),
                View::NowPlaying => {},
            },
        }
    }

    /// Makes the highlighted zone the active one.
    pub fn select_zone(&mut self)
        ensures
            final(self)@ == old(self)@.select_zone(),
            old(self)@.wf() ==> final(self)@.wf(),
    {
        if self.zone_selector_index < self.zones.len() {
            self.selected_zone_index = self.zone_selector_index;
            self.clear_album_art();
            self.close_popup();
        }
    }

    /// The display name of the zone that the selector highlights.
    pub fn get_selected_zone_name(&self) -> (name: Option<String>)
        ensures
            name.deep_view() == self@.selected_zone_name(),
    {
        if self.zone_selector_index < self.zones.len() {
            Some(self.zones[self.zone_selector_index].display_name.clone())
        } else {
            None
        }
    }
}

} // verus!
