//! A table widget's model: columns, rows whose cells are sized and aligned by
//! their columns, an optional header, striping, row selection, and the
//! background that each row is painted with.
mod background;
mod column;
mod host;
mod length;
mod row;
mod selected;
mod state;
mod table;

pub use background::{content_index, lemma_row_type_successor, stripe, Backgrounds, RowType};
pub use column::Column;
pub use host::{fixed_units, interaction_rank, uniform_padding};
pub use length::{core_length, Length};
pub use row::{
    cell_alignment, is_sized, lemma_overriding_alignment, sized_cell, sized_cells, Cell, Row,
    SizedRow,
};
pub use state::{Modifiers, State};
pub use table::{
    all_of_arity, lemma_fill_factor_width, lemma_selected_backgrounds, lemma_striped_backgrounds,
    mouse_interaction, Iter, Table, TableView,
};
