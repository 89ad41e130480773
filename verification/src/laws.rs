//! What holds of the state whatever happens to it.
//!
//! The functions that change the state say in their contracts which model
//! function they compute. The laws below are stated over those model
//! functions, so they hold of every run of the executable code.

use crate::actions::{next_loop_mode_of, toggled, EffectModel};
use crate::app::{interpolated, progress, AppModel, BrowseModel, Popup};
use crate::input::Action;
use crate::roon::models::{BrowseResult, Zone};
use crate::roon::{on_off, radio_args, select_args, set_loop_args, shuffle_args};
use crate::text::{decimal, lemma_decimal_writes, numeral_value};
use image::DynamicImage;
use vstd::prelude::*;

verus! {

/// One thing that happens to the state: an action of the user, an answer of
/// the controller, or album art that has arrived.
pub enum Event {
    Action(Action),
    /// The answer to a refresh of the zones, with the time it came at.
    Zones(Result<Vec<Zone>, String>, nat),
    /// The answer to the opening of the library.
    BrowseLoaded(Result<BrowseResult, String>),
    /// The answer to a selection.
    SelectDone(Result<BrowseResult, String>),
    /// The answer to a step back.
    BackDone(Result<BrowseResult, String>),
    /// The answer to a search.
    SearchDone(Result<BrowseResult, String>),
    /// Decoded album art and the address it came from.
    AlbumArt(DynamicImage, Seq<char>),
    /// The time of a successful refresh is noted.
    Refreshed(nat),
    /// The fetch of new album art has begun.
    ArtFetchBegun,
    /// The album art is dropped.
    ArtCleared,
}

impl AppModel {
    /// The state after one event.
    pub open spec fn step(self, event: Event) -> AppModel {
        match event {
            Event::Action(action) => self.after_action(action),
            Event::Zones(reply, now_ms) => self.refreshed(reply, now_ms),
            Event::BrowseLoaded(reply) => self.browse_loaded(reply),
            Event::SelectDone(reply) => self.select_done(reply),
            Event::BackDone(reply) => self.back_done(reply),
            Event::SearchDone(reply) => self.search_done(reply),
            Event::AlbumArt(image, url) => self.set_album_art(image, url),
            Event::Refreshed(now_ms) => self.mark_refreshed(now_ms),
            Event::ArtFetchBegun => self.art_fetch_begun(),
            Event::ArtCleared => self.clear_album_art(),
        }
    }

    /// The state after the events, in their order.
    pub open spec fn run(self, events: Seq<Event>) -> AppModel
        decreases events.len(),
    {
        if events.len() == 0 {
            self
        } else {
            self.run(events.drop_last()).step(events.last())
        }
    }
}

/// Whether the action only moves a selection.
pub open spec fn is_move(action: Action) -> bool {
    action == Action::SelectUp || action == Action::SelectDown
}

/// One event leaves a well-formed state well-formed: both selections stay
/// within their lists, both paths keep their root, and the active zone stays
/// within the zones.
pub proof fn lemma_step_keeps_wf(state: AppModel, event: Event)
    requires
        state.wf(),
    ensures
        state.step(event).wf(),
{
}

/// Whatever the user does and whatever the controller answers, in any order
/// and any number of times, the state stays well-formed: the selected index
/// of each list is less than the list's length, or 0 where the list is empty,
/// the path of each list has at least one entry, and the active zone is one
/// of the zones.
pub proof fn lemma_run_keeps_wf(state: AppModel, events: Seq<Event>)
    requires
        state.wf(),
    ensures
        state.run(events).wf(),
        state.run(events).browse.breadcrumbs.len() >= 1,
        state.run(events).search.results.breadcrumbs.len() >= 1,
    decreases events.len(),
{
    if events.len() > 0 {
        lemma_run_keeps_wf(state, events.drop_last());
        lemma_step_keeps_wf(state.run(events.drop_last()), events.last());
    }
}

/// The greatest index that a selection in a list of that length can have.
pub open spec fn last_index(len: nat) -> nat {
    if len == 0 {
        0
    } else {
        (len - 1) as nat
    }
}

/// After any sequence of moves up and down, the selection of each list lies
/// between 0 and the last index of the list, and the lists themselves are
/// what they were.
pub proof fn lemma_moves_stay_in_range(state: AppModel, events: Seq<Event>)
    requires
        state.wf(),
        forall|i: int|
            0 <= i < events.len() ==> (#[trigger] events[i] matches Event::Action(a) && is_move(a)),
    ensures
        state.run(events).browse.items == state.browse.items,
        state.run(events).search.results.items == state.search.results.items,
        state.run(events).browse.selected_index <= last_index(state.browse.items.len()),
        state.run(events).search.results.selected_index <= last_index(
            state.search.results.items.len(),
        ),
    decreases events.len(),
{
    if events.len() > 0 {
        let before = events.drop_last();
        assert forall|i: int| 0 <= i < before.len() implies (#[trigger] before[i] matches Event::Action(
            a,
        ) && is_move(a)) by {
            assert(before[i] == events[i]);
        }
        lemma_moves_stay_in_range(state, before);
        lemma_run_keeps_wf(state, before);
    }
}

/// While the help popup is open no selection moves: not that of the list
/// behind it, and not that of the zone selector.
pub proof fn lemma_help_holds_focus(state: AppModel)
    requires
        state.popup == Some(Popup::Help),
    ensures
        state.after_action(Action::SelectUp) == state,
        state.after_action(Action::SelectDown) == state,
{
}

/// While the zone selector is open only its own selection moves.
pub proof fn lemma_zone_selector_holds_focus(state: AppModel)
    requires
        state.popup == Some(Popup::ZoneSelector),
    ensures
        state.after_action(Action::SelectUp).browse == state.browse,
        state.after_action(Action::SelectUp).search == state.search,
        state.after_action(Action::SelectDown).browse == state.browse,
        state.after_action(Action::SelectDown).search == state.search,
        state.after_action(Action::SelectDown).zone_selector_index <= last_index(
            state.zones.len(),
        ) || state.after_action(Action::SelectDown).zone_selector_index
            == state.zone_selector_index,
{
}

/// A move down from the last row and a move up from the first row change
/// nothing.
pub proof fn lemma_moves_saturate(list: BrowseModel)
    requires
        list.wf(),
    ensures
        list.selected_index == last_index(list.items.len()) ==> list.down() == list,
        list.selected_index == 0 ==> list.up() == list,
        list.up().wf(),
        list.down().wf(),
{
}

/// The progress is a fraction between 0 and 1, and it is 0 where the length
/// of the track is not known.
pub proof fn lemma_progress_in_unit_range(position: nat, length: nat)
    ensures
        progress(position, length).1 > 0,
        progress(position, length).0 <= progress(position, length).1,
        length == 0 ==> progress(position, length).0 == 0,
{
}

/// While a zone plays, the position that is shown never goes back as time
/// passes between two refreshes, and it never passes the end of the track.
pub proof fn lemma_interpolation_monotonic(seek: nat, length: nat, earlier: nat, later: nat)
    requires
        earlier <= later,
    ensures
        interpolated(seek, length, true, earlier) <= interpolated(seek, length, true, later),
        interpolated(seek, length, true, later) <= length,
{
}

/// The same, of the state: between two refreshes the position shown for a
/// playing zone does not go back as the clock goes on, and stays within the
/// track.
pub proof fn lemma_seek_monotonic(state: AppModel, earlier_ms: nat, later_ms: nat)
    requires
        state.playing(),
        earlier_ms <= later_ms,
    ensures
        state.interpolated_seek(earlier_ms) <= state.interpolated_seek(later_ms),
        state.now_playing() matches Some(np) ==> state.interpolated_seek(later_ms) <= np.length_ms,
{
}

/// At every moment of a run the state is well-formed, not only at its end.
pub proof fn lemma_wf_at_all_times(state: AppModel, events: Seq<Event>, moment: int)
    requires
        state.wf(),
        0 <= moment <= events.len(),
    ensures
        state.run(events.take(moment)).wf(),
        state.run(events.take(moment)).browse.breadcrumbs.len() >= 1,
        state.run(events.take(moment)).search.results.breadcrumbs.len() >= 1,
{
    lemma_run_keeps_wf(state, events.take(moment));
}

/// Whether the text names one of the three loop modes.
pub open spec fn is_loop_mode(mode: Seq<char>) -> bool {
    mode == "disabled"@ || mode == "loop"@ || mode == "loop_one"@
}

/// Cycling the loop mode asks the controller for the mode that follows the
/// one of the active zone.
pub proof fn lemma_cycle_loop_asks_for_next(state: AppModel)
    ensures
        state.effect_of(Action::CycleLoop) == EffectModel::Control(
            set_loop_args(next_loop_mode_of(state.loop_mode())),
        ),
        state.after_action(Action::CycleLoop) == state,
{
}

/// Cycling the loop mode three times from any of the three modes leads back
/// to the mode it started from, by way of the two other modes.
pub proof fn lemma_cycle_loop_thrice(mode: Seq<char>)
    requires
        is_loop_mode(mode),
    ensures
        next_loop_mode_of(next_loop_mode_of(next_loop_mode_of(mode))) == mode,
        is_loop_mode(next_loop_mode_of(mode)),
        next_loop_mode_of(mode) != mode,
        next_loop_mode_of(next_loop_mode_of(mode)) != mode,
{
    reveal_strlit("disabled");
    reveal_strlit("loop");
    reveal_strlit("loop_one");
    assert("loop"@.len() == 4);
    assert("disabled"@[0] == 'd');
    assert("loop_one"@[0] == 'l');
}

/// Toggling a switch twice asks for the value that it had at first, whatever
/// that was; and the two words that a switch is written with differ, so that
/// the controller can tell what is asked of it.
pub proof fn lemma_toggle_twice(on: bool)
    ensures
        toggled(toggled(on)) == on,
        on_off(toggled(on)) != on_off(on),
{
    reveal_strlit("on");
    reveal_strlit("off");
    assert("on"@.len() == 2);
    assert("off"@.len() == 3);
}

/// The same, of two states: where the second toggle finds the switch as the
/// first toggle asked for it, it asks for the value that the first toggle
/// found. This holds of shuffle and of auto-radio, and no toggle changes the
/// state before the controller has answered.
pub proof fn lemma_second_toggle_restores(first: AppModel, second: AppModel)
    ensures
        second.shuffle() == toggled(first.shuffle()) ==> second.effect_of(Action::ToggleShuffle)
            == EffectModel::Control(shuffle_args(first.shuffle())),
        second.auto_radio() == toggled(first.auto_radio()) ==> second.effect_of(
            Action::ToggleRadio,
        ) == EffectModel::Control(radio_args(first.auto_radio())),
        first.after_action(Action::ToggleShuffle) == first,
        first.after_action(Action::ToggleRadio) == first,
{
}

/// The position that a selection sends to the controller is the numeral
/// that writes the index plus one, and a selection in a list sends the
/// position of the selected row.
pub proof fn lemma_select_is_one_based(state: AppModel, index: nat)
    ensures
        select_args(index).len() == 3,
        select_args(index)[1] == decimal(index + 1),
        numeral_value(select_args(index)[1]) == index + 1,
        state.active_list() matches Some(list) ==> state.effect_of(Action::BrowseSelect)
            == EffectModel::Select(select_args(list.selected_index)),
{
    lemma_decimal_writes(index + 1);
}

} // verus!
