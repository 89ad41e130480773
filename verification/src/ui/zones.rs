//! What the zone selector shows.

use crate::app::{App, AppModel};
use crate::roon::models::Zone;
use vstd::prelude::*;
use vstd::view::View as _;

verus! {

/// One row of the zone selector.
#[derive(Debug, Clone, PartialEq, Eq)]
pub struct ZoneRow {
    /// The mark of the active zone.
    pub prefix: &'static str,
    /// The mark of a zone that plays.
    pub status: &'static str,
    pub name: String,
    /// Whether the row is the one that the selector highlights.
    pub highlighted: bool,
}

/// A [`ZoneRow`] as mathematical values.
pub struct ZoneRowModel {
    pub prefix: Seq<char>,
    pub status: Seq<char>,
    pub name: Seq<char>,
    pub highlighted: bool,
}

impl vstd::view::View for ZoneRow {
    type V = ZoneRowModel;

    open spec fn view(&self) -> ZoneRowModel {
        ZoneRowModel {
            prefix: self.prefix@,
            status: self.status@,
            name: self.name@,
            highlighted: self.highlighted,
        }
    }
}

/// What the zone selector lists.
#[derive(Debug, Clone, PartialEq, Eq)]
pub enum ZoneList {
    /// The lines that say that there is no zone.
    Unavailable(Vec<&'static str>),
    /// One row for each zone, and the row that is highlighted.
    Rows { rows: Vec<ZoneRow>, selected: usize },
}

/// A [`ZoneList`] as mathematical values.
#[verifier::ext_equal]
pub enum ZoneListModel {
    Unavailable(Seq<Seq<char>>),
    Rows { rows: Seq<ZoneRowModel>, selected: nat },
}

/// The rows as mathematical values.
pub open spec fn rows_view(rows: Seq<ZoneRow>) -> Seq<ZoneRowModel> {
    Seq::new(rows.len(), |i: int| rows[i]@)
}

impl vstd::view::View for ZoneList {
    type V = ZoneListModel;

    open spec fn view(&self) -> ZoneListModel {
        match self {
            ZoneList::Unavailable(lines) => ZoneListModel::Unavailable(lines.deep_view()),
            ZoneList::Rows { rows, selected } => ZoneListModel::Rows {
                rows: rows_view(rows@),
                selected: *selected as nat,
            },
        }
    }
}

/// The title of the zone selector.
pub open spec fn title_text() -> Seq<char> {
    " Select Zone "@
}

/// The row of the zone at the index: a filled dot marks the active zone, a
/// triangle a zone that plays.
pub open spec fn row_of(app: AppModel, index: int) -> ZoneRowModel {
    let zone = app.zones[index];
    ZoneRowModel {
        prefix: if index == app.selected_zone_index {
            "● "@
        } else {
            "○ "@
        },
        status: if zone.state@ == "playing"@ {
            "▶ "@
        } else {
            "  "@
        },
        name: zone.display_name@,
        highlighted: index == app.zone_selector_index,
    }
}

/// What the zone selector lists in a state.
pub open spec fn list_of(app: AppModel) -> ZoneListModel {
    if app.zones.len() == 0 {
        ZoneListModel::Unavailable(
            seq![""@, "No zones available"@, ""@, "Check Roon Core connection"@],
        )
    } else {
        ZoneListModel::Rows {
            rows: Seq::new(app.zones.len(), |i: int| row_of(app, i)),
            selected: app.zone_selector_index,
        }
    }
}

/// In a well-formed state with zones, exactly one row carries the mark of
/// the active zone: the row of the active zone.
pub proof fn lemma_one_row_is_active(app: AppModel)
    requires
        app.wf(),
        app.zones.len() > 0,
    ensures
        list_of(app) matches ZoneListModel::Rows { rows, .. } && rows.len() == app.zones.len()
            && forall|i: int|
            0 <= i < rows.len() ==> ((#[trigger] rows[i]).prefix == "● "@ <==> i
                == app.selected_zone_index),
{
    reveal_strlit("● ");
    reveal_strlit("○ ");
    assert("● "@[0] != "○ "@[0]);
}

/// The title of the zone selector.
pub fn title() -> (t: &'static str)
    ensures
        t@ == title_text(),
{
    " Select Zone "
}

fn row(app: &App, index: usize) -> (r: ZoneRow)
    requires
        index < app.zones@.len(),
    ensures
        r@ == row_of(app@, index as int),
{
    let zone: &Zone = &app.zones[index];
    ZoneRow {
        prefix: if index == app.selected_zone_index {
            "● "
        } else {
            "○ "
        },
        status: if zone.is_playing() {
            "▶ "
        } else {
            "  "
        },
        name: zone.display_name.clone(),
        highlighted: index == app.zone_selector_index,
    }
}

/// What the zone selector lists.
pub fn draw_selector(app: &App) -> (list: ZoneList)
    ensures
        list@ == list_of(app@),
{
    if app.zones.len() == 0 {
        let lines: Vec<&'static str> = vec![
            "",
            "No zones available",
            "",
            "Check Roon Core connection",
        ];
        let list = ZoneList::Unavailable(lines);
        list
    } else {
        let mut rows: Vec<ZoneRow> = Vec::new();
        let mut i: usize = 0;
        while i < app.zones.len()
            invariant
                i <= app.zones@.len(),
                rows@.len() == i,
                forall|j: int| 0 <= j < i ==> (#[trigger] rows@[j])@ == row_of(app@, j),
            decreases app.zones@.len() - i,
        {
            rows.push(row(app, i));
            i = i + 1;
        }
        let list = ZoneList::Rows { rows, selected: app.zone_selector_index };
        list
    }
}

} // verus!
