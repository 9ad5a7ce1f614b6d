//! What the browser hands to whoever draws it.

use crate::entry::{row_shows, TableRow};
use crate::navigation::BrowserModel;
use crate::path::path_text;
use vstd::prelude::*;

verus! {

/// A rectangle of terminal cells.
#[derive(Clone, Copy, Debug, PartialEq, Eq, Structural)]
pub struct Area {
    pub x: u16,
    pub y: u16,
    pub width: u16,
    pub height: u16,
}

impl Area {
    /// The part of this rectangle that the browser is drawn in: its full
    /// height, from its left edge over a third of its width.
    pub fn left_third(self) -> (part: Area)
        ensures
            part == (Area { width: self.width / 3, ..self }),
    {
        Area { x: self.x, y: self.y, width: self.width / 3, height: self.height }
    }
}

/// A table ready to be drawn: the directory as its title, one row for each
/// entry, and the row to highlight.
#[derive(Debug, PartialEq, Eq)]
pub struct Screen {
    pub title: String,
    pub rows: Vec<TableRow>,
    pub selected: Option<usize>,
}

/// The row that the cursor is on, as contracts count rows.
pub open spec fn cursor(selected: Option<usize>) -> Option<nat> {
    match selected {
        Some(row) => Some(row as nat),
        None => None,
    }
}

/// Whether `rows` are the rows of the listing shown in `state`, one for
/// each entry and in the same order.
pub open spec fn rows_show(rows: Seq<TableRow>, state: BrowserModel) -> bool {
    &&& rows.len() == state.listing.entries.len()
    &&& forall|i: int| 0 <= i < rows.len() ==> row_shows(#[trigger] rows[i], state.listing.entries[i])
}

/// Whether `screen` is what `state` looks like.
pub open spec fn shows(screen: Screen, state: BrowserModel) -> bool {
    &&& screen.title@ == path_text(state.path)
    &&& rows_show(screen.rows@, state)
    &&& cursor(screen.selected) == state.selection
}

} // verus!
