//! Terminal operations, as values that the caller carries out in order.

use vstd::prelude::*;

verus! {

/// One terminal operation. Rows and columns count from 0 at the top left.
#[derive(Clone, Debug, PartialEq, Eq)]
pub enum Draw {
    /// Put the write position at (column, row).
    MoveTo(u16, u16),
    /// Blank the row under the write position.
    ClearLine,
    /// Blank the whole screen.
    ClearAll,
    /// Write the text at the write position.
    Print(String),
}

/// What a [`Draw`] means, with its text as characters.
pub enum DrawView {
    MoveTo(u16, u16),
    ClearLine,
    ClearAll,
    Print(Seq<char>),
}

impl View for Draw {
    type V = DrawView;

    open spec fn view(&self) -> DrawView {
        match self {
            Draw::MoveTo(c, r) => DrawView::MoveTo(*c, *r),
            Draw::ClearLine => DrawView::ClearLine,
            Draw::ClearAll => DrawView::ClearAll,
            Draw::Print(s) => DrawView::Print(s@),
        }
    }
}

/// The meaning of a list of operations.
pub open spec fn draws_view(v: Seq<Draw>) -> Seq<DrawView> {
    v.map_values(|d: Draw| d@)
}

/// The rows on which a list of operations prints `text`.
pub open spec fn prints_of(v: Seq<DrawView>, text: Seq<char>) -> Set<int> {
    Set::new(|i: int| 0 <= i < v.len() && v[i] == DrawView::Print(text))
}

} // verus!
