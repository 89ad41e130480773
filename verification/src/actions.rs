//! What an action does to the state, and what it asks of the controller.
//!
//! The controller is a program that is run once per command. This module
//! decides and never runs anything: [`handle_action`] changes the state and
//! returns the [`Effect`] that the event loop has to carry out, and the
//! functions that take a reply change the state once the controller has
//! answered.

use crate::app::{library_label, search_label, App, AppModel, BrowseModel, Popup, SearchModel, View};
use crate::input::Action;
use crate::roon;
use crate::roon::models::{BrowseResult, Zone};
use crate::roon::Command;
use crate::text::text_eq;
use vstd::prelude::*;
use vstd::view::View as _;

verus! {

/// What the event loop has to do for the controller after an action.
#[derive(Debug, Clone, PartialEq, Eq)]
pub enum Effect {
    /// Nothing.
    Done,
    /// Refresh the zones: run [`roon::get_zones`] and hand the outcome to
    /// [`refresh_zones`].
    Refresh,
    /// Run the command and hand the outcome to [`control_done`].
    Control(Command),
    /// Run the command and hand the listing to [`browse_loaded`].
    Browse(Command),
    /// Run the command and hand the listing to [`select_done`].
    Select(Command),
    /// Run the command and hand the listing to [`back_done`].
    Back(Command),
    /// Run the command and hand the listing to [`search_done`].
    Search(Command),
}

/// An [`Effect`] with its command as mathematical values.
pub enum EffectModel {
    Done,
    Refresh,
    Control(Seq<Seq<char>>),
    Browse(Seq<Seq<char>>),
    Select(Seq<Seq<char>>),
    Back(Seq<Seq<char>>),
    Search(Seq<Seq<char>>),
}

impl vstd::view::View for Effect {
    type V = EffectModel;

    open spec fn view(&self) -> EffectModel {
        match self {
            Effect::Done => EffectModel::Done,
            Effect::Refresh => EffectModel::Refresh,
            Effect::Control(c) => EffectModel::Control(c@),
            Effect::Browse(c) => EffectModel::Browse(c@),
            Effect::Select(c) => EffectModel::Select(c@),
            Effect::Back(c) => EffectModel::Back(c@),
            Effect::Search(c) => EffectModel::Search(c@),
        }
    }
}

/// The loop mode that follows the given one: `disabled`, `loop`, `loop_one`
/// and round again. A mode that is none of these is followed by `disabled`.
pub open spec fn next_loop_mode_of(mode: Seq<char>) -> Seq<char> {
    if mode == "disabled"@ {
        "loop"@
    } else if mode == "loop"@ {
        "loop_one"@
    } else {
        "disabled"@
    }
}

/// The value that a toggle asks the controller to set.
pub open spec fn toggled(on: bool) -> bool {
    !on
}

/// The index of the active zone after a refresh: where it was, or the last
/// zone where the list has become shorter than that, or 0 where it is empty.
pub open spec fn clamped_index(index: nat, len: nat) -> nat {
    if len == 0 {
        0
    } else if index < len {
        index
    } else {
        (len - 1) as nat
    }
}

impl AppModel {
    /// The list that browse actions work on: that of the active view.
    pub open spec fn active_list(self) -> Option<BrowseModel> {
        match self.view {
            View::Browse => Some(self.browse),
            View::Search => Some(self.search.results),
            View::NowPlaying => None,
        }
    }

    /// The state with the list of the active view replaced.
    pub open spec fn with_active_list(self, list: BrowseModel) -> AppModel {
        match self.view {
            View::Browse => AppModel { browse: list, ..self },
            View::Search => AppModel {
                search: SearchModel { results: list, ..self.search },
                ..self
            },
            View::NowPlaying => self,
        }
    }

    /// What going back does without asking the controller: it leaves for the
    /// Now Playing view from a search that is being typed and from the root
    /// of a list. `None` where the controller has to go back a level first.
    pub open spec fn back_without_controller(self) -> Option<AppModel> {
        match self.view {
            View::NowPlaying => Some(self),
            View::Browse => if self.browse.breadcrumbs.len() <= 1 {
                Some(AppModel { view: View::NowPlaying, ..self })
            } else {
                None
            },
            View::Search => if self.search.input_active || self.search.results.breadcrumbs.len()
                <= 1 {
                Some(AppModel { view: View::NowPlaying, ..self })
            } else {
                None
            },
        }
    }

    /// The state right after the action, before the controller has been
    /// asked anything.
    pub open spec fn after_action(self, action: Action) -> AppModel {
        match action {
            Action::Quit => AppModel { should_quit: true, ..self },
            Action::ShowHelp => self.show_popup(Popup::Help),
            Action::ShowZoneSelector => self.show_popup(Popup::ZoneSelector),
            Action::ClosePopup => self.close_popup(),
            Action::SelectUp => self.select_up(),
            Action::SelectDown => self.select_down(),
            Action::SelectZone => self.select_zone(),
            Action::SwitchToNowPlaying => AppModel { view: View::NowPlaying, ..self },
            Action::SwitchToBrowse => AppModel {
                view: View::Browse,
                browse: BrowseModel { loading: true, ..BrowseModel::root(library_label()) },
                ..self
            },
            Action::SwitchToSearch => AppModel {
                view: View::Search,
                search: SearchModel::initial(),
                ..self
            },
            Action::BrowseBack => match self.back_without_controller() {
                Some(next) => next,
                None => self,
            },
            Action::SearchChar(c) => AppModel {
                search: SearchModel { query: self.search.query.push(c), ..self.search },
                ..self
            },
            Action::SearchBackspace => AppModel {
                search: SearchModel {
                    query: if self.search.query.len() > 0 {
                        self.search.query.drop_last()
                    } else {
                        self.search.query
                    },
                    ..self.search
                },
                ..self
            },
            Action::SearchActivate => AppModel {
                search: SearchModel { input_active: true, ..self.search },
                ..self
            },
            _ => self,
        }
    }

    /// What the action asks of the controller, in the state before it.
    pub open spec fn effect_of(self, action: Action) -> EffectModel {
        match action {
            Action::PlayPause => EffectModel::Control(roon::playpause_args()),
            Action::NextTrack => EffectModel::Control(roon::next_args()),
            Action::PrevTrack => EffectModel::Control(roon::prev_args()),
            Action::ToggleShuffle => EffectModel::Control(roon::shuffle_args(toggled(self.shuffle()))),
            Action::ToggleRadio => EffectModel::Control(roon::radio_args(toggled(self.auto_radio()))),
            Action::CycleLoop => EffectModel::Control(
                roon::set_loop_args(next_loop_mode_of(self.loop_mode())),
            ),
            Action::VolumeUp => match self.first_output_name() {
                Some(name) => EffectModel::Control(roon::volume_args(name, "+5"@)),
                None => EffectModel::Done,
            },
            Action::VolumeDown => match self.first_output_name() {
                Some(name) => EffectModel::Control(roon::volume_args(name, "-5"@)),
                None => EffectModel::Done,
            },
            Action::ToggleMute => match self.first_output_name() {
                Some(name) => if self.muted() {
                    EffectModel::Control(roon::unmute_args(name))
                } else {
                    EffectModel::Control(roon::mute_args(name))
                },
                None => EffectModel::Done,
            },
            Action::SelectZone => match self.selected_zone_name() {
                Some(name) => EffectModel::Control(roon::set_zone_args(name)),
                None => EffectModel::Refresh,
            },
            Action::SwitchToBrowse => EffectModel::Browse(roon::browse_args()),
            Action::BrowseSelect => match self.active_list() {
                Some(list) => EffectModel::Select(roon::select_args(list.selected_index)),
                None => EffectModel::Done,
            },
            Action::BrowseBack => match self.back_without_controller() {
                Some(_) => EffectModel::Done,
                None => EffectModel::Back(roon::back_args()),
            },
            Action::SearchSubmit => if self.search.query.len() > 0 {
                EffectModel::Search(roon::search_args(self.search.query))
            } else {
                EffectModel::Done
            },
            _ => EffectModel::Done,
        }
    }

    /// The state once the controller has answered a refresh of the zones at
    /// the time `now_ms`. A list of zones replaces the old one, and the
    /// active zone stays within it; a failure leaves the zones as they were.
    pub open spec fn refreshed(self, reply: Result<Vec<Zone>, String>, now_ms: nat) -> AppModel {
        match reply {
            Ok(zones) => AppModel {
                zones: zones@,
                selected_zone_index: clamped_index(self.selected_zone_index, zones@.len()),
                connected: true,
                error: None,
                last_refresh_ms: now_ms,
                ..self
            },
            Err(message) => AppModel { connected: false, error: Some(message@), ..self },
        }
    }

    /// The state once the controller has answered the opening of the
    /// library.
    pub open spec fn browse_loaded(self, reply: Result<BrowseResult, String>) -> AppModel {
        match reply {
            Ok(result) => AppModel {
                browse: BrowseModel {
                    loading: false,
                    ..self.browse.opened(result, library_label())
                },
                ..self
            },
            Err(message) => AppModel {
                browse: BrowseModel { loading: false, error: Some(message@), ..self.browse },
                ..self
            },
        }
    }

    /// The state once the controller has answered a selection. Where it has
    /// executed an action, the Now Playing view comes up and the list stays
    /// as it was; where it has sent a listing, the list of the active view
    /// goes down into it; a failure is noted on that list.
    pub open spec fn select_done(self, reply: Result<BrowseResult, String>) -> AppModel {
        match self.active_list() {
            Some(list) => match reply {
                Ok(result) => if result.spec_is_message() {
                    AppModel { view: View::NowPlaying, ..self }
                } else {
                    self.with_active_list(list.entered(result))
                },
                Err(message) => self.with_active_list(list.failed(message@)),
            },
            None => self,
        }
    }

    /// Whether the zones are to be refreshed after the answer to a selection:
    /// they are where the controller has executed an action.
    pub open spec fn select_refreshes(self, reply: Result<BrowseResult, String>) -> bool {
        self.active_list().is_some() && match reply {
            Ok(result) => result.spec_is_message(),
            Err(_) => false,
        }
    }

    /// The state once the controller has answered a step back: the list of
    /// the active view goes up one level; on a failure the Now Playing view
    /// comes up.
    pub open spec fn back_done(self, reply: Result<BrowseResult, String>) -> AppModel {
        match self.active_list() {
            Some(list) => match reply {
                Ok(result) => self.with_active_list(list.left(result)),
                Err(_) => AppModel { view: View::NowPlaying, ..self },
            },
            None => self,
        }
    }

    /// The state once the controller has answered a search: the results are
    /// walked from now on, also where the search has failed.
    pub open spec fn search_done(self, reply: Result<BrowseResult, String>) -> AppModel {
        AppModel {
            search: SearchModel {
                input_active: false,
                results: match reply {
                    Ok(result) => self.search.results.opened(result, search_label()),
                    Err(message) => self.search.results.failed(message@),
                },
                ..self.search
            },
            ..self
        }
    }
}

/// The loop mode that follows the given one.
pub fn next_loop_mode(mode: &str) -> (next: &'static str)
    ensures
        next@ == next_loop_mode_of(mode@),
{
    if text_eq(mode, "disabled") {
        "loop"
    } else if text_eq(mode, "loop") {
        "loop_one"
    } else {
        "disabled"
    }
}

fn toggle_mute(app: &App) -> (effect: Effect)
    ensures
        effect@ == app@.effect_of(Action::ToggleMute),
{
    match app.current_zone() {
        Some(zone) => if zone.outputs.len() > 0 {
            let output = &zone.outputs[0];
            let is_muted = match &output.volume {
                Some(v) => v.is_muted,
                None => false,
            };
            if is_muted {
                Effect::Control(roon::unmute(output.display_name.as_str()))
            } else {
                Effect::Control(roon::mute(output.display_name.as_str()))
            }
        } else {
            Effect::Done
        },
        None => Effect::Done,
    }
}

fn change_volume(app: &App, up: bool) -> (effect: Effect)
    ensures
        up ==> effect@ == app@.effect_of(Action::VolumeUp),
        !up ==> effect@ == app@.effect_of(Action::VolumeDown),
{
    match app.first_output_name() {
        Some(output) => Effect::Control(
            roon::volume(
                output.as_str(),
                if up {
                    "+5"
                } else {
                    "-5"
                },
            ),
        ),
        None => Effect::Done,
    }
}

fn toggle_shuffle(app: &App) -> (effect: Effect)
    ensures
        effect@ == app@.effect_of(Action::ToggleShuffle),
{
    let current = match app.current_zone() {
        Some(z) => z.settings.shuffle,
        None => false,
    };
    Effect::Control(roon::shuffle(!current))
}

fn toggle_radio(app: &App) -> (effect: Effect)
    ensures
        effect@ == app@.effect_of(Action::ToggleRadio),
{
    let current = match app.current_zone() {
        Some(z) => z.settings.auto_radio,
        None => false,
    };
    Effect::Control(roon::radio(!current))
}

fn cycle_loop(app: &App) -> (effect: Effect)
    ensures
        effect@ == app@.effect_of(Action::CycleLoop),
{
    let current = match app.current_zone() {
        Some(z) => z.settings.loop_mode.as_str(),
        None => "disabled",
    };
    Effect::Control(roon::set_loop(next_loop_mode(current)))
}

fn select_zone(app: &mut App) -> (effect: Effect)
    ensures
        final(app)@ == old(app)@.after_action(Action::SelectZone),
        old(app)@.wf() ==> final(app)@.wf(),
        effect@ == old(app)@.effect_of(Action::SelectZone),
{
    let effect = match app.get_selected_zone_name() {
        Some(name) => Effect::Control(roon::set_zone(name.as_str())),
        None => Effect::Refresh,
    };
    app.select_zone();
    effect
}

fn switch_to_browse(app: &mut App) -> (effect: Effect)
    ensures
        final(app)@ == old(app)@.after_action(Action::SwitchToBrowse),
        old(app)@.wf() ==> final(app)@.wf(),
        effect@ == old(app)@.effect_of(Action::SwitchToBrowse),
{
    app.view = View::Browse;
    app.browse.reset();
    app.browse.loading = true;
    Effect::Browse(roon::browse())
}

fn browse_select(app: &App) -> (effect: Effect)
    ensures
        effect@ == app@.effect_of(Action::BrowseSelect),
{
    match app.view {
        View::Browse => Effect::Select(roon::select(app.browse.selected_index)),
        View::Search => Effect::Select(roon::select(app.search.results.selected_index)),
        View::NowPlaying => Effect::Done,
    }
}

fn browse_back(app: &mut App) -> (effect: Effect)
    ensures
        final(app)@ == old(app)@.after_action(Action::BrowseBack),
        old(app)@.wf() ==> final(app)@.wf(),
        effect@ == old(app)@.effect_of(Action::BrowseBack),
{
    let at_root = match app.view {
        View::Browse => app.browse.breadcrumbs.len() <= 1,
        View::Search => app.search.input_active || app.search.results.breadcrumbs.len() <= 1,
        View::NowPlaying => {
            return Effect::Done;
        },
    };
    if at_root {
        app.view = View::NowPlaying;
        Effect::Done
    } else {
        Effect::Back(roon::back())
    }
}

fn search_submit(app: &App) -> (effect: Effect)
    ensures
        effect@ == app@.effect_of(Action::SearchSubmit),
{
    if !app.search.query.as_str().is_empty() {
        Effect::Search(roon::search(app.search.query.as_str()))
    } else {
        Effect::Done
    }
}

/// Applies the action to the state and returns what it asks of the
/// controller. The state changes that wait for the controller's answer are
/// made by the function that the effect names.
pub fn handle_action(action: Action, app: &mut App) -> (effect: Effect)
    ensures
        final(app)@ == old(app)@.after_action(action),
        old(app)@.wf() ==> final(app)@.wf(),
        effect@ == old(app)@.effect_of(action),
{
    match action {
        Action::Quit => {
            app.should_quit = true;
            Effect::Done
        },
        Action::ShowHelp => {
            app.show_popup(Popup::Help);
            Effect::Done
        },
        Action::ClosePopup => {
            app.close_popup();
            Effect::Done
        },
        Action::PlayPause => Effect::Control(roon::playpause()),
        Action::ShowZoneSelector => {
            app.show_popup(Popup::ZoneSelector);
            Effect::Done
        },
        Action::SelectUp => {
            app.select_up();
            Effect::Done
        },
        Action::SelectDown => {
            app.select_down();
            Effect::Done
        },
        Action::SelectZone => select_zone(app),
        Action::NextTrack => Effect::Control(roon::next()),
        Action::PrevTrack => Effect::Control(roon::prev()),
        Action::ToggleShuffle => toggle_shuffle(app),
        Action::CycleLoop => cycle_loop(app),
        Action::ToggleRadio => toggle_radio(app),
        Action::VolumeUp => change_volume(app, true),
        Action::VolumeDown => change_volume(app, false),
        Action::ToggleMute => toggle_mute(app),
        Action::SwitchToNowPlaying => {
            app.view = View::NowPlaying;
            Effect::Done
        },
        Action::SwitchToBrowse => switch_to_browse(app),
        Action::SwitchToSearch => {
            app.view = View::Search;
            app.search.reset();
            Effect::Done
        },
        Action::BrowseSelect => browse_select(app),
        Action::BrowseBack => browse_back(app),
        Action::SearchChar(c) => {
            app.search.query.push(c);
            Effect::Done
        },
        Action::SearchBackspace => {
            app.search.query.pop();
            Effect::Done
        },
        Action::SearchSubmit => search_submit(app),
        Action::SearchActivate => {
            app.search.input_active = true;
            Effect::Done
        },
        Action::NoOp => Effect::Done,
    }
}

/// Takes the outcome of a control command. What the command prints is
/// dropped, and the zones are refreshed whether it succeeded or failed, so
/// that the screen shows what the controller did.
pub fn control_done(outcome: Result<String, String>) -> (effect: Effect)
    ensures
        effect@ == EffectModel::Refresh,
{
    Effect::Refresh
}

/// Takes the controller's answer to a refresh of the zones, at the time
/// `now_ms` in milliseconds.
pub fn refresh_zones(app: &mut App, reply: Result<Vec<Zone>, String>, now_ms: u64)
    ensures
        final(app)@ == old(app)@.refreshed(reply, now_ms as nat),
        old(app)@.wf() ==> final(app)@.wf(),
{
    match reply {
        Ok(zones) => {
            let len: usize = zones.len();
            if len == 0 {
                app.selected_zone_index = 0;
            } else if app.selected_zone_index >= len {
                app.selected_zone_index = len - 1;
            }
            app.zones = zones;
            app.connected = true;
            app.error = None;
            app.mark_refreshed(now_ms);
        },
        Err(message) => {
            app.connected = false;
            app.error = Some(message);
        },
    }
}

/// Takes the controller's answer to the opening of the library.
pub fn browse_loaded(app: &mut App, reply: Result<BrowseResult, String>)
    ensures
        final(app)@ == old(app)@.browse_loaded(reply),
        old(app)@.wf() ==> final(app)@.wf(),
{
    match reply {
        Ok(result) => {
            app.browse.open(result, "Library");
            app.browse.loading = false;
        },
        Err(message) => {
            app.browse.loading = false;
            app.browse.error = Some(message);
        },
    }
}

/// Takes the controller's answer to a selection. Returns
/// [`Effect::Refresh`] where the controller has executed an action, and
/// [`Effect::Done`] otherwise.
pub fn select_done(app: &mut App, reply: Result<BrowseResult, String>) -> (effect: Effect)
    ensures
        final(app)@ == old(app)@.select_done(reply),
        old(app)@.wf() ==> final(app)@.wf(),
        effect@ == if old(app)@.select_refreshes(reply) {
            EffectModel::Refresh
        } else {
            EffectModel::Done
        },
{
    match app.view {
        View::NowPlaying => Effect::Done,
        View::Browse => match reply {
            Ok(result) => if result.is_message() {
                app.view = View::NowPlaying;
                Effect::Refresh
            } else {
                app.browse.enter(result);
                Effect::Done
            },
            Err(message) => {
                app.browse.fail(message);
                Effect::Done
            },
        },
        View::Search => match reply {
            Ok(result) => if result.is_message() {
                app.view = View::NowPlaying;
                Effect::Refresh
            } else {
                app.search.results.enter(result);
                Effect::Done
            },
            Err(message) => {
                app.search.results.fail(message);
                Effect::Done
            },
        },
    }
}

/// Takes the controller's answer to a step back.
pub fn back_done(app: &mut App, reply: Result<BrowseResult, String>)
    ensures
        final(app)@ == old(app)@.back_done(reply),
        old(app)@.wf() ==> final(app)@.wf(),
{
    match app.view {
        View::NowPlaying => {},
        View::Browse => match reply {
            Ok(result) => {
                app.browse.leave(result);
            },
            Err(_) => {
                app.view = View::NowPlaying;
            },
        },
        View::Search => match reply {
            Ok(result) => {
                app.search.results.leave(result);
            },
            Err(_) => {
                app.view = View::NowPlaying;
            },
        },
    }
}

/// Takes the controller's answer to a search.
pub fn search_done(app: &mut App, reply: Result<BrowseResult, String>)
    ensures
        final(app)@ == old(app)@.search_done(reply),
        old(app)@.wf() ==> final(app)@.wf(),
{
    match reply {
        Ok(result) => {
            app.search.results.open(result, "Search");
        },
        Err(message) => {
            app.search.results.fail(message);
        },
    }
    app.search.input_active = false;
}

} // verus!
