//! What the browse view shows.

use crate::app::{BrowseModel, BrowseState};
use crate::roon::models::BrowseItem;
use crate::text::{join, joined, text_eq};
use crate::ui::{Constraint, Part};
use vstd::prelude::*;

verus! {

/// One row of the list.
#[derive(Debug, Clone, PartialEq, Eq)]
pub struct BrowseRow {
    /// The mark in front of the title that tells folders from leaves.
    pub indicator: &'static str,
    pub title: String,
    pub subtitle: Option<String>,
}

/// A [`BrowseRow`] as mathematical values.
pub struct BrowseRowModel {
    pub indicator: Seq<char>,
    pub title: Seq<char>,
    pub subtitle: Option<Seq<char>>,
}

impl View for BrowseRow {
    type V = BrowseRowModel;

    open spec fn view(&self) -> BrowseRowModel {
        BrowseRowModel {
            indicator: self.indicator@,
            title: self.title@,
            subtitle: self.subtitle.deep_view(),
        }
    }
}

/// What fills the place of the list.
#[derive(Debug, Clone, PartialEq, Eq)]
pub enum BrowseBody {
    /// The message of a failed command.
    Error(String),
    /// A notice in place of the rows.
    Notice(&'static str),
    /// The rows, and which of them is selected.
    List { rows: Vec<BrowseRow>, selected: usize },
}

/// A [`BrowseBody`] as mathematical values.
#[verifier::ext_equal]
pub enum BrowseBodyModel {
    Error(Seq<char>),
    Notice(Seq<char>),
    List { rows: Seq<BrowseRowModel>, selected: nat },
}

/// The rows as mathematical values.
pub open spec fn rows_view(rows: Seq<BrowseRow>) -> Seq<BrowseRowModel> {
    Seq::new(rows.len(), |i: int| rows[i]@)
}

impl View for BrowseBody {
    type V = BrowseBodyModel;

    open spec fn view(&self) -> BrowseBodyModel {
        match self {
            BrowseBody::Error(message) => BrowseBodyModel::Error(message@),
            BrowseBody::Notice(text) => BrowseBodyModel::Notice(text@),
            BrowseBody::List { rows, selected } => BrowseBodyModel::List {
                rows: rows_view(rows@),
                selected: *selected as nat,
            },
        }
    }
}

/// The browse view: the path, the list or what stands in its place, and
/// the line of key hints.
#[derive(Debug, Clone, PartialEq, Eq)]
pub struct BrowseScreen {
    pub breadcrumbs: String,
    pub body: BrowseBody,
    /// The key hints; absent while an error or the loading notice is shown.
    pub hints: Option<&'static str>,
}

/// A [`BrowseScreen`] as mathematical values.
#[verifier::ext_equal]
pub struct BrowseScreenModel {
    pub breadcrumbs: Seq<char>,
    pub body: BrowseBodyModel,
    pub hints: Option<Seq<char>>,
}

impl View for BrowseScreen {
    type V = BrowseScreenModel;

    open spec fn view(&self) -> BrowseScreenModel {
        BrowseScreenModel {
            breadcrumbs: self.breadcrumbs@,
            body: self.body@,
            hints: match self.hints {
                Some(h) => Some(h@),
                None => None,
            },
        }
    }
}

/// The parts of the browse view.
#[derive(Debug, Clone, Copy, PartialEq, Eq, Structural)]
pub enum BrowsePart {
    Breadcrumbs,
    Body,
    Hints,
}

/// The rows of the view, from the top: the path on one line, the list or
/// what stands in its place in all the room between, the key hints on one
/// line.
pub open spec fn rows_of() -> Seq<Part<BrowsePart>> {
    seq![
        Part { kind: BrowsePart::Breadcrumbs, size: Constraint::Length(1) },
        Part { kind: BrowsePart::Body, size: Constraint::Min(0) },
        Part { kind: BrowsePart::Hints, size: Constraint::Length(1) },
    ]
}

/// The mark of an entry: `> ` for a folder, `▶ ` for a leaf that can be
/// executed, two spaces for any other.
pub open spec fn indicator_of(hint: Option<String>) -> Seq<char> {
    match hint {
        Some(h) => if h@ == "list"@ {
            "> "@
        } else if h@ == "action_list"@ {
            "▶ "@
        } else {
            "  "@
        },
        None => "  "@,
    }
}

/// The row that shows an entry.
pub open spec fn row_of(item: BrowseItem) -> BrowseRowModel {
    BrowseRowModel {
        indicator: indicator_of(item.hint),
        title: item.title@,
        subtitle: item.subtitle.deep_view(),
    }
}

/// What fills the place of the list: an error comes before the loading
/// notice, and that before the list.
pub open spec fn body_of(state: BrowseModel) -> BrowseBodyModel {
    match state.error {
        Some(message) => BrowseBodyModel::Error(message),
        None => if state.loading {
            BrowseBodyModel::Notice("Loading..."@)
        } else if state.items.len() == 0 {
            BrowseBodyModel::Notice("No items"@)
        } else {
            BrowseBodyModel::List {
                rows: Seq::new(state.items.len(), |i: int| row_of(state.items[i])),
                selected: state.selected_index,
            }
        },
    }
}

/// What the browse view shows of a state.
pub open spec fn screen_of(state: BrowseModel) -> BrowseScreenModel {
    BrowseScreenModel {
        breadcrumbs: joined(state.breadcrumbs, " > "@),
        body: body_of(state),
        hints: if state.error.is_some() || state.loading {
            None
        } else {
            Some("j/k navigate  Enter select  Esc back"@)
        },
    }
}

/// The rows of the view, from the top.
pub fn layout() -> (rows: Vec<Part<BrowsePart>>)
    ensures
        rows@ == rows_of(),
{
    vec![
        Part { kind: BrowsePart::Breadcrumbs, size: Constraint::Length(1) },
        Part { kind: BrowsePart::Body, size: Constraint::Min(0) },
        Part { kind: BrowsePart::Hints, size: Constraint::Length(1) },
    ]
}

/// In a well-formed state the row that is marked as selected is one of the
/// rows that are shown, and every entry has its row, in the order of the
/// entries.
pub proof fn lemma_selected_row_is_shown(state: BrowseModel)
    requires
        state.wf(),
    ensures
        body_of(state) matches BrowseBodyModel::List { rows, selected } ==> selected < rows.len()
            && rows.len() == state.items.len() && forall|i: int|
            0 <= i < rows.len() ==> (#[trigger] rows[i]).title == state.items[i].title@,
{
}

fn indicator(hint: &Option<String>) -> (mark: &'static str)
    ensures
        mark@ == indicator_of(*hint),
{
    match hint {
        Some(h) => if text_eq(h.as_str(), "list") {
            "> "
        } else if text_eq(h.as_str(), "action_list") {
            "▶ "
        } else {
            "  "
        },
        None => "  ",
    }
}

fn row(item: &BrowseItem) -> (r: BrowseRow)
    ensures
        r@ == row_of(*item),
{
    BrowseRow {
        indicator: indicator(&item.hint),
        title: item.title.clone(),
        subtitle: match &item.subtitle {
            Some(s) => Some(s.clone()),
            None => None,
        },
    }
}

fn rows(items: &Vec<BrowseItem>) -> (out: Vec<BrowseRow>)
    ensures
        rows_view(out@) == Seq::new(items@.len(), |i: int| row_of(items@[i])),
{
    let mut out: Vec<BrowseRow> = Vec::new();
    let mut i: usize = 0;
    while i < items.len()
        invariant
            i <= items.len(),
            out@.len() == i,
            forall|j: int| 0 <= j < i ==> (#[trigger] out@[j])@ == row_of(items@[j]),
        decreases items.len() - i,
    {
        out.push(row(&items[i]));
        i = i + 1;
    }
    out
}

/// What the browse view shows.
pub fn draw(state: &BrowseState) -> (screen: BrowseScreen)
    ensures
        screen@ == screen_of(state@),
{
    let breadcrumbs = join(&state.breadcrumbs, " > ");
    let screen = match &state.error {
        Some(message) => BrowseScreen {
            breadcrumbs,
            body: BrowseBody::Error(message.clone()),
            hints: None,
        },
        None => if state.loading {
            BrowseScreen { breadcrumbs, body: BrowseBody::Notice("Loading..."), hints: None }
        } else if state.items.len() == 0 {
            BrowseScreen {
                breadcrumbs,
                body: BrowseBody::Notice("No items"),
                hints: Some("j/k navigate  Enter select  Esc back"),
            }
        } else {
            BrowseScreen {
                breadcrumbs,
                body: BrowseBody::List { rows: rows(&state.items), selected: state.selected_index },
                hints: Some("j/k navigate  Enter select  Esc back"),
            }
        },
    };
    screen
}

} // verus!
