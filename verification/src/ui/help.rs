//! What the help popup shows.

use crate::input::{help_table, help_text};
use crate::text::{pad_right, padded};
use crate::ui::Rect;
use vstd::prelude::*;

verus! {

/// The width that the keys are padded to, so that the descriptions stand in
/// one column.
pub const KEY_WIDTH: usize = 12;

/// One line of the help popup.
#[derive(Debug, Clone, PartialEq, Eq)]
pub enum HelpLine {
    /// The heading of a section; an empty one parts two sections.
    Heading(&'static str),
    /// A key, padded to the column's width, and what it does.
    Binding { key: String, description: &'static str },
}

/// A [`HelpLine`] as mathematical values.
pub enum HelpLineModel {
    Heading(Seq<char>),
    Binding { key: Seq<char>, description: Seq<char> },
}

impl View for HelpLine {
    type V = HelpLineModel;

    open spec fn view(&self) -> HelpLineModel {
        match self {
            HelpLine::Heading(text) => HelpLineModel::Heading(text@),
            HelpLine::Binding { key, description } => HelpLineModel::Binding {
                key: key@,
                description: description@,
            },
        }
    }
}

/// The lines as mathematical values.
pub open spec fn lines_view(lines: Seq<HelpLine>) -> Seq<HelpLineModel> {
    Seq::new(lines.len(), |i: int| lines[i]@)
}

/// The line that shows a row of the table of key bindings: a row without a
/// description is a heading.
pub open spec fn line_of(row: (Seq<char>, Seq<char>)) -> HelpLineModel {
    if row.1.len() == 0 {
        HelpLineModel::Heading(row.0)
    } else {
        HelpLineModel::Binding { key: padded(row.0, KEY_WIDTH as nat), description: row.1 }
    }
}

/// The lines of the help popup.
pub open spec fn help_lines() -> Seq<HelpLineModel> {
    Seq::new(help_table().len(), |i: int| line_of(help_table()[i]))
}

/// The title of the help popup.
pub open spec fn title_text() -> Seq<char> {
    " Help - Keybindings "@
}

/// The line at the bottom that says how to close the popup.
pub open spec fn close_hint_text() -> Seq<char> {
    "Press Esc or ? to close"@
}

/// Every key that has a description fits the column, so that all keys are
/// shown at the same width and the descriptions stand in one column.
pub proof fn lemma_keys_align()
    ensures
        help_lines().len() == help_table().len(),
        forall|i: int|
            0 <= i < help_lines().len() ==> ((#[trigger] help_lines()[i]) matches HelpLineModel::Binding {
                key,
                ..
            } ==> key.len() == KEY_WIDTH),
{
    reveal_strlit("1");
    reveal_strlit("2");
    reveal_strlit("3 / /");
    reveal_strlit("z");
    reveal_strlit("?");
    reveal_strlit("q");
    reveal_strlit("Space");
    reveal_strlit("n");
    reveal_strlit("p");
    reveal_strlit("s");
    reveal_strlit("l");
    reveal_strlit("r");
    reveal_strlit("+ / =");
    reveal_strlit("-");
    reveal_strlit("m");
    reveal_strlit("j/k");
    reveal_strlit("Enter");
    reveal_strlit("Esc/Bksp");
    reveal_strlit("Navigation");
    reveal_strlit("Playback");
    reveal_strlit("Volume");
    reveal_strlit("Browse / Search");
    reveal_strlit("");
    let table = help_table();
    assert(table.len() == 25);
    assert(table[0].1.len() == 0 || table[0].0.len() <= KEY_WIDTH);
    assert(table[1].1.len() == 0 || table[1].0.len() <= KEY_WIDTH);
    assert(table[2].1.len() == 0 || table[2].0.len() <= KEY_WIDTH);
    assert(table[3].1.len() == 0 || table[3].0.len() <= KEY_WIDTH);
    assert(table[4].1.len() == 0 || table[4].0.len() <= KEY_WIDTH);
    assert(table[5].1.len() == 0 || table[5].0.len() <= KEY_WIDTH);
    assert(table[6].1.len() == 0 || table[6].0.len() <= KEY_WIDTH);
    assert(table[7].1.len() == 0 || table[7].0.len() <= KEY_WIDTH);
    assert(table[8].1.len() == 0 || table[8].0.len() <= KEY_WIDTH);
    assert(table[9].1.len() == 0 || table[9].0.len() <= KEY_WIDTH);
    assert(table[10].1.len() == 0 || table[10].0.len() <= KEY_WIDTH);
    assert(table[11].1.len() == 0 || table[11].0.len() <= KEY_WIDTH);
    assert(table[12].1.len() == 0 || table[12].0.len() <= KEY_WIDTH);
    assert(table[13].1.len() == 0 || table[13].0.len() <= KEY_WIDTH);
    assert(table[14].1.len() == 0 || table[14].0.len() <= KEY_WIDTH);
    assert(table[15].1.len() == 0 || table[15].0.len() <= KEY_WIDTH);
    assert(table[16].1.len() == 0 || table[16].0.len() <= KEY_WIDTH);
    assert(table[17].1.len() == 0 || table[17].0.len() <= KEY_WIDTH);
    assert(table[18].1.len() == 0 || table[18].0.len() <= KEY_WIDTH);
    assert(table[19].1.len() == 0 || table[19].0.len() <= KEY_WIDTH);
    assert(table[20].1.len() == 0 || table[20].0.len() <= KEY_WIDTH);
    assert(table[21].1.len() == 0 || table[21].0.len() <= KEY_WIDTH);
    assert(table[22].1.len() == 0 || table[22].0.len() <= KEY_WIDTH);
    assert(table[23].1.len() == 0 || table[23].0.len() <= KEY_WIDTH);
    assert(table[24].1.len() == 0 || table[24].0.len() <= KEY_WIDTH);
    assert forall|i: int| 0 <= i < help_lines().len() implies ((#[trigger] help_lines()[i]) matches HelpLineModel::Binding {
        key,
        ..
    } ==> key.len() == KEY_WIDTH) by {
        let row = table[i];
        assert(help_lines()[i] == line_of(row));
        assert(row.1.len() == 0 || row.0.len() <= KEY_WIDTH);
    }
}

/// The title of the help popup.
pub fn title() -> (t: &'static str)
    ensures
        t@ == title_text(),
{
    " Help - Keybindings "
}

/// The line at the bottom that says how to close the popup.
pub fn close_hint() -> (t: &'static str)
    ensures
        t@ == close_hint_text(),
{
    "Press Esc or ? to close"
}

/// The lines of the help popup.
pub fn draw() -> (lines: Vec<HelpLine>)
    ensures
        lines_view(lines@) == help_lines(),
{
    let bindings = help_text();
    let mut lines: Vec<HelpLine> = Vec::new();
    let mut i: usize = 0;
    while i < bindings.len()
        invariant
            i <= bindings.len(),
            bindings.deep_view() == help_table(),
            lines@.len() == i,
            forall|j: int| 0 <= j < i ==> (#[trigger] lines@[j])@ == line_of(help_table()[j]),
        decreases bindings.len() - i,
    {
        let (key, description) = bindings[i];
        let line = if description.is_empty() {
            HelpLine::Heading(key)
        } else {
            HelpLine::Binding { key: pad_right(key, KEY_WIDTH), description }
        };
        lines.push(line);
        i = i + 1;
    }
    lines
}

/// Where the closing hint stands in a popup of that area: on the last line
/// but one, two cells in from either side.
pub fn hint_area(area: Rect) -> (r: Rect)
    requires
        area.height >= 2,
        area.width >= 4,
        area.x + 2 <= u16::MAX,
        area.y + area.height - 2 <= u16::MAX,
    ensures
        r.x == area.x + 2,
        r.y == area.y + area.height - 2,
        r.width == area.width - 4,
        r.height == 1,
{
    Rect { x: area.x + 2, y: area.y + (area.height - 2), width: area.width - 4, height: 1 }
}

} // verus!
