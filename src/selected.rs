//! The rows of a table that are selected, and what to make of a new selection.
use vstd::prelude::*;

verus! {

/// The selection state that a table is given: one bit per content row,
/// borrowed from the caller, and the callback that turns a new selection into
/// a message.
pub(crate) struct Selected<'a, F> {
    pub(crate) selected_rows: &'a [bool],
    pub(crate) on_selected: F,
}

} // verus!
