//! What the search view shows.

use crate::app::{SearchModel, SearchState};
use crate::ui::browse;
use crate::ui::browse::{BrowseScreen, BrowseScreenModel};
use crate::ui::{Constraint, Part};
use vstd::prelude::*;
use vstd::string::*;

verus! {

/// What stands under the input line.
#[derive(Debug, Clone, PartialEq, Eq)]
pub enum SearchBody {
    /// The results, shown as the browse view shows a list.
    Results(BrowseScreen),
    /// A notice in place of the results.
    Notice(&'static str),
}

/// A [`SearchBody`] as mathematical values.
#[verifier::ext_equal]
pub enum SearchBodyModel {
    Results(BrowseScreenModel),
    Notice(Seq<char>),
}

impl View for SearchBody {
    type V = SearchBodyModel;

    open spec fn view(&self) -> SearchBodyModel {
        match self {
            SearchBody::Results(screen) => SearchBodyModel::Results(screen@),
            SearchBody::Notice(text) => SearchBodyModel::Notice(text@),
        }
    }
}

/// The search view: the input line and what stands under it.
#[derive(Debug, Clone, PartialEq, Eq)]
pub struct SearchScreen {
    pub input: String,
    /// Whether the query is being typed, which the input line shows by its
    /// colour.
    pub input_active: bool,
    pub body: SearchBody,
}

/// A [`SearchScreen`] as mathematical values.
#[verifier::ext_equal]
pub struct SearchScreenModel {
    pub input: Seq<char>,
    pub input_active: bool,
    pub body: SearchBodyModel,
}

impl View for SearchScreen {
    type V = SearchScreenModel;

    open spec fn view(&self) -> SearchScreenModel {
        SearchScreenModel { input: self.input@, input_active: self.input_active, body: self.body@ }
    }
}

/// The parts of the search view.
#[derive(Debug, Clone, Copy, PartialEq, Eq, Structural)]
pub enum SearchPart {
    Input,
    Gap,
    Body,
}

/// The rows of the view, from the top: the input line, an empty line, and
/// the results or what stands in their place in all the room below.
pub open spec fn rows_of() -> Seq<Part<SearchPart>> {
    seq![
        Part { kind: SearchPart::Input, size: Constraint::Length(1) },
        Part { kind: SearchPart::Gap, size: Constraint::Length(1) },
        Part { kind: SearchPart::Body, size: Constraint::Min(0) },
    ]
}

/// The input line: the query, with a cursor behind it while it is typed.
pub open spec fn input_line(query: Seq<char>, input_active: bool) -> Seq<char> {
    "Search: "@ + query + if input_active {
        "█"@
    } else {
        ""@
    }
}

/// What stands under the input line: the results once there are any, or
/// once the list has been entered; else a notice, which says that nothing
/// was found once a query has been submitted.
pub open spec fn body_of(state: SearchModel) -> SearchBodyModel {
    if state.results.items.len() > 0 || state.results.breadcrumbs.len() > 1 {
        SearchBodyModel::Results(browse::screen_of(state.results))
    } else if state.query.len() > 0 && !state.input_active {
        SearchBodyModel::Notice("No results found"@)
    } else {
        SearchBodyModel::Notice("Type a search query and press Enter"@)
    }
}

/// What the search view shows of a state.
pub open spec fn screen_of(state: SearchModel) -> SearchScreenModel {
    SearchScreenModel {
        input: input_line(state.query, state.input_active),
        input_active: state.input_active,
        body: body_of(state),
    }
}

/// The rows of the view, from the top.
pub fn layout() -> (rows: Vec<Part<SearchPart>>)
    ensures
        rows@ == rows_of(),
{
    vec![
        Part { kind: SearchPart::Input, size: Constraint::Length(1) },
        Part { kind: SearchPart::Gap, size: Constraint::Length(1) },
        Part { kind: SearchPart::Body, size: Constraint::Min(0) },
    ]
}

/// What the search view shows.
pub fn draw(state: &SearchState) -> (screen: SearchScreen)
    ensures
        screen@ == screen_of(state@),
{
    let mut input = "Search: ".to_string();
    input.append(state.query.as_str());
    input.append(
        if state.input_active {
            "█"
        } else {
            ""
        },
    );
    let body = if state.results.items.len() > 0 || state.results.breadcrumbs.len() > 1 {
        SearchBody::Results(browse::draw(&state.results))
    } else if !state.query.as_str().is_empty() && !state.input_active {
        SearchBody::Notice("No results found")
    } else {
        SearchBody::Notice("Type a search query and press Enter")
    };
    let screen = SearchScreen { input, input_active: state.input_active, body };
    screen
}

} // verus!
