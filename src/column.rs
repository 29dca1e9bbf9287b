//! A column of a table.
use vstd::prelude::*;

use iced_core::alignment::{Horizontal, Vertical};
use iced_core::Padding;

use crate::length::Length;

verus! {

/// A column of a table: how wide its cells are, and how their content sits in
/// them.
#[derive(Debug, Clone, Copy)]
pub struct Column {
    /// The width of the column.
    pub width: Length,
    /// The horizontal and vertical alignment of the content of each cell.
    pub alignment: (Horizontal, Vertical),
    /// The space around the content of each cell.
    pub cell_padding: Padding,
}

} // verus!
