//! The background of each row, in the order in which rows are painted.
use vstd::prelude::*;

use iced_core::Background;

verus! {

/// The fills that rows are painted with.
#[derive(Debug, Clone, Copy)]
pub struct Backgrounds {
    /// The fill of an ordinary content row.
    pub normal: Background,
    /// The fill of the header row.
    pub header: Background,
    /// The fill of every second content row of a striped table.
    pub striped: Background,
    /// The fill of a selected content row.
    pub selected: Background,
}

/// The kind of a row, and for a striped table whether it is the striped one
/// of its pair (`None` where the table is not striped).
#[derive(Debug, Clone, Copy, PartialEq, Eq, Structural)]
pub enum RowType {
    Header(Option<bool>),
    Content(Option<bool>),
}

/// The stripe mark of the content row at `content_index`.
pub open spec fn stripe(is_striped: bool, content_index: int) -> Option<bool> {
    if is_striped {
        Some(content_index % 2 == 1)
    } else {
        None
    }
}

/// The place among the content rows of the row at `index`, counting the
/// header as row 0 where there is one.
pub open spec fn content_index(has_header: bool, index: int) -> int {
    if has_header {
        index - 1
    } else {
        index
    }
}

impl RowType {
    /// The kind of the row at `index`, in painting order.
    pub open spec fn at(has_header: bool, is_striped: bool, index: int) -> RowType {
        if has_header && index == 0 {
            RowType::Header(stripe(is_striped, 0))
        } else {
            RowType::Content(stripe(is_striped, content_index(has_header, index)))
        }
    }

    /// The kind of the row after one of this kind.
    pub open spec fn successor(self) -> RowType {
        match self {
            RowType::Header(striped) => RowType::Content(striped),
            RowType::Content(striped) => RowType::Content(
                match striped {
                    Some(s) => Some(!s),
                    None => None,
                },
            ),
        }
    }

    /// The kind of the first row of a table.
    pub fn new(has_header: bool, is_striped: bool) -> (r: Self)
        ensures
            r == RowType::at(has_header, is_striped, 0),
    {
        let striped = if is_striped {
            Some(false)
        } else {
            None
        };
        if has_header {
            RowType::Header(striped)
        } else {
            RowType::Content(striped)
        }
    }

    /// Steps to the kind of the next row and returns the kind of this one.
    pub fn next(&mut self) -> (r: Self)
        ensures
            r == *old(self),
            *final(self) == old(self).successor(),
    {
        let current = *self;
        match current {
            RowType::Header(striped) => {
                *self = RowType::Content(striped);
            },
            RowType::Content(striped) => {
                let flipped = match striped {
                    Some(s) => Some(!s),
                    None => None,
                };
                *self = RowType::Content(flipped);
            },
        }
        current
    }
}

/// Stepping from the kind of one row gives the kind of the next.
pub proof fn lemma_row_type_successor(has_header: bool, is_striped: bool, index: int)
    requires
        0 <= index,
    ensures
        RowType::at(has_header, is_striped, index).successor() == RowType::at(
            has_header,
            is_striped,
            index + 1,
        ),
{
    let c = content_index(has_header, index + 1);
    assert((c - 1) % 2 == 1 <==> !(c % 2 == 1));
}

/// A cursor over the rows of one paint pass, handing out each row's
/// background in turn.
pub(crate) struct RowBackground<'a> {
    pub(crate) backgrounds: Backgrounds,
    pub(crate) selected_rows: Option<&'a [bool]>,
    pub(crate) position: usize,
    pub(crate) current_type: RowType,
}

impl<'a> RowBackground<'a> {
    /// The background of the row that the cursor stands at.
    pub(crate) open spec fn current(self) -> Background {
        match self.current_type {
            RowType::Header(_) => self.backgrounds.header,
            RowType::Content(striped) => {
                if self.selected_rows matches Some(s) && s@[self.position as int] {
                    self.backgrounds.selected
                } else if striped == Some(true) {
                    self.backgrounds.striped
                } else {
                    self.backgrounds.normal
                }
            },
        }
    }

    /// Whether the cursor reads a selection bit for the row it stands at.
    pub(crate) open spec fn reads_selection(self) -> bool {
        self.current_type is Content && self.selected_rows is Some
    }

    /// Starts a paint pass at the first row.
    pub(crate) fn new(
        has_header: bool,
        is_striped: bool,
        selected_rows: Option<&'a [bool]>,
        backgrounds: Backgrounds,
    ) -> (r: Self)
        ensures
            r.backgrounds == backgrounds,
            r.selected_rows == selected_rows,
            r.position == 0,
            r.current_type == RowType::at(has_header, is_striped, 0),
    {
        RowBackground {
            backgrounds,
            selected_rows,
            position: 0,
            current_type: RowType::new(has_header, is_striped),
        }
    }

    /// Returns the background of the current row and moves to the next one.
    pub(crate) fn next(&mut self) -> (r: Background)
        requires
            old(self).reads_selection() ==> old(self).position < old(self).selected_rows->0@.len(),
        ensures
            r == old(self).current(),
            final(self).backgrounds == old(self).backgrounds,
            final(self).selected_rows == old(self).selected_rows,
            final(self).current_type == old(self).current_type.successor(),
            final(self).position == old(self).position + if old(self).reads_selection() {
                1int
            } else {
                0int
            },
    {
        match self.current_type.next() {
            RowType::Header(_) => self.backgrounds.header,
            RowType::Content(striped) => {
                if let Some(rows) = self.selected_rows {
                    let is_selected = rows[self.position];
                    self.position = self.position + 1;
                    if is_selected {
                        return self.backgrounds.selected;
                    }
                }
                match striped {
                    Some(true) => self.backgrounds.striped,
                    _ => self.backgrounds.normal,
                }
            },
        }
    }
}

} // verus!
