//! Rows as callers give them, and rows as a table holds them: each cell sized
//! and aligned by its column.
use vstd::prelude::*;

use iced_core::alignment::{Horizontal, Vertical};
use iced_core::Padding;

use crate::column::Column;
use crate::host::{fixed_length, fixed_units};
use crate::length::core_length;

verus! {

/// A row of a table as a caller gives it: one cell per column, where `None`
/// stands for an empty cell, and a height in pixels.
pub struct Row<E> {
    /// The cells of the row, in column order.
    pub cells: Vec<Option<E>>,
    /// The height of the row.
    pub height: u16,
}

impl<E> Row<E> {
    /// Creates a row with the given cells, `None` denoting an empty one, and
    /// height.
    pub fn new(cells: Vec<Option<E>>, height: u16) -> (r: Self)
        ensures
            r.cells@ == cells@,
            r.height == height,
    {
        Row { cells, height }
    }
}

/// A cell wrapped in the container that its column asks for.
pub struct Cell<E> {
    /// What the cell shows; `None` for an empty cell.
    pub content: Option<E>,
    /// The width of the container: the column's.
    pub width: iced_core::Length,
    /// The height of the container: the row's, fixed.
    pub height: iced_core::Length,
    /// The space around the content: the column's cell padding.
    pub padding: Padding,
    /// Where the content sits horizontally.
    pub align_x: Horizontal,
    /// Where the content sits vertically.
    pub align_y: Vertical,
}

/// A row as a table holds it: each cell in its sized container.
pub struct SizedRow<E> {
    /// The wrapped cells, in column order.
    pub cells: Vec<Cell<E>>,
    /// The height of the row.
    pub height: u16,
}

/// The alignment that a cell of `column` gets: the override where there is
/// one, else the column's own.
pub open spec fn cell_alignment(
    column: Column,
    overriding: Option<(Horizontal, Vertical)>,
) -> (Horizontal, Vertical) {
    match overriding {
        Some(a) => a,
        None => column.alignment,
    }
}

/// The container of `content` in `column`, in a row of the given height.
pub open spec fn sized_cell<E>(
    content: Option<E>,
    column: Column,
    height: u16,
    overriding: Option<(Horizontal, Vertical)>,
) -> Cell<E> {
    Cell {
        content,
        width: core_length(column.width),
        height: fixed_units(height),
        padding: column.cell_padding,
        align_x: cell_alignment(column, overriding).0,
        align_y: cell_alignment(column, overriding).1,
    }
}

/// The cells of `row` wrapped, one by one, for the columns of the same place.
pub open spec fn sized_cells<E>(
    row: Row<E>,
    columns: Seq<Column>,
    overriding: Option<(Horizontal, Vertical)>,
) -> Seq<Cell<E>> {
    Seq::new(
        row.cells@.len(),
        |j: int| sized_cell(row.cells@[j], columns[j], row.height, overriding),
    )
}

/// Whether `sized` is `row` with its cells wrapped for `columns`.
pub open spec fn is_sized<E>(
    sized: SizedRow<E>,
    row: Row<E>,
    columns: Seq<Column>,
    overriding: Option<(Horizontal, Vertical)>,
) -> bool {
    &&& sized.height == row.height
    &&& sized.cells@ == sized_cells(row, columns, overriding)
}

/// Where an alignment overrides the columns', every wrapped cell of the row
/// has that alignment, whatever its column's own, and still has its column's
/// width and padding and the row's height.
pub proof fn lemma_overriding_alignment<E>(
    sized: SizedRow<E>,
    row: Row<E>,
    columns: Seq<Column>,
    alignment: (Horizontal, Vertical),
)
    requires
        is_sized(sized, row, columns, Some(alignment)),
    ensures
        sized.cells@.len() == row.cells@.len(),
        forall|j: int|
            #![trigger sized.cells@[j]]
            0 <= j < sized.cells@.len() ==> {
                &&& sized.cells@[j].align_x == alignment.0
                &&& sized.cells@[j].align_y == alignment.1
                &&& sized.cells@[j].width == core_length(columns[j].width)
                &&& sized.cells@[j].padding == columns[j].cell_padding
                &&& sized.cells@[j].height == fixed_units(row.height)
                &&& sized.cells@[j].content == row.cells@[j]
            },
{
}

/// Wraps each cell of `row` in a container with the width, alignment and
/// padding of its column and the height of the row; `overriding`, where given,
/// replaces the alignment of every column.
pub(crate) fn size_row<E>(
    row: Row<E>,
    columns: &Vec<Column>,
    overriding: Option<(Horizontal, Vertical)>,
) -> (r: SizedRow<E>)
    requires
        row.cells@.len() == columns@.len(),
    ensures
        is_sized(r, row, columns@, overriding),
{
    let ghost given = row;
    let Row { cells, height } = row;
    let mut sized: Vec<Cell<E>> = Vec::new();
    let mut j: usize = 0;
    for content in it: cells
        invariant
            cells@ == given.cells@,
            height == given.height,
            given.cells@.len() == columns@.len(),
            j == it.index(),
            it.seq() == given.cells@,
            sized@ =~= sized_cells(given, columns@, overriding).take(j as int),
    {
        assert(j < columns.len());
        let column = &columns[j];
        let alignment = match overriding {
            Some(a) => a,
            None => column.alignment,
        };
        let cell = Cell {
            content,
            width: iced_core::Length::from(column.width),
            height: fixed_length(height),
            padding: column.cell_padding,
            align_x: alignment.0,
            align_y: alignment.1,
        };
        sized.push(cell);
        j = j + 1;
    }
    assert(sized@ =~= sized_cells(given, columns@, overriding));
    SizedRow { cells: sized, height }
}

} // verus!
