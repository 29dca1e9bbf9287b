//! A table: columns, content rows, an optional header, and how it is drawn.
use vstd::prelude::*;

use iced_core::alignment::{Horizontal, Vertical};
use iced_core::mouse::Interaction;
use iced_core::{Background, Padding};

use crate::background::{content_index, lemma_row_type_successor, Backgrounds, RowBackground, RowType};
use crate::column::Column;
use crate::host::{interaction_rank, padding_of_units, uniform_padding};
use crate::length::Length;
use crate::row::{is_sized, size_row, Row, SizedRow};
use crate::selected::Selected;

verus! {

/// A table whose rows are laid out vertically, each cell sized and aligned by
/// its column, with an optional header, striping and selected rows.
pub struct Table<'a, E, S, F> {
    pub(crate) columns: Vec<Column>,
    pub(crate) rows: Vec<SizedRow<E>>,
    pub(crate) header: Option<SizedRow<E>>,
    pub(crate) fill_factor: u16,
    pub(crate) padding: Padding,
    pub(crate) is_striped: bool,
    pub(crate) selected: Option<Selected<'a, F>>,
    pub(crate) style: S,
}

/// What a table holds, as values.
pub struct TableView<E, S, F> {
    /// The columns, whose number every row matches.
    pub columns: Seq<Column>,
    /// The content rows, each cell wrapped for its column.
    pub rows: Seq<SizedRow<E>>,
    /// The header row, where there is one.
    pub header: Option<SizedRow<E>>,
    /// The table's share of the space where some column can grow.
    pub fill_factor: u16,
    /// The space around the content.
    pub padding: Padding,
    /// Whether every second content row is striped.
    pub is_striped: bool,
    /// One bit per content row, where a selection is attached.
    pub selection: Option<Seq<bool>>,
    /// What turns a changed selection into a message, where a selection is
    /// attached.
    pub on_selected: Option<F>,
    /// The style that the theme paints the table in.
    pub style: S,
}

/// Whether every row of `rows` has exactly `arity` cells.
pub open spec fn all_of_arity<E>(rows: Seq<Row<E>>, arity: nat) -> bool {
    forall|i: int| 0 <= i < rows.len() ==> #[trigger] rows[i].cells@.len() == arity
}

impl<E, S, F> TableView<E, S, F> {
    /// Every row, header included, has one cell per column, and a selection
    /// has one bit per content row.
    pub open spec fn wf(self) -> bool {
        &&& forall|i: int|
            0 <= i < self.rows.len() ==> #[trigger] self.rows[i].cells@.len() == self.columns.len()
        &&& self.header matches Some(h) ==> h.cells@.len() == self.columns.len()
        &&& self.selection matches Some(s) ==> s.len() == self.rows.len()
    }

    /// The number of rows, header included.
    pub open spec fn len(self) -> nat {
        self.rows.len() + if self.header is Some {
            1nat
        } else {
            0nat
        }
    }

    /// The rows in the order in which they are laid out and painted: the
    /// header first, where there is one.
    pub open spec fn ordered_rows(self) -> Seq<SizedRow<E>> {
        match self.header {
            Some(h) => seq![h] + self.rows,
            None => self.rows,
        }
    }

    /// Whether some column is not of fixed width.
    pub open spec fn has_flexible_column(self) -> bool {
        exists|j: int| 0 <= j < self.columns.len() && !(#[trigger] self.columns[j].width is Fixed)
    }

    /// The width policy of the table: a share of the space by its fill factor
    /// where some column can grow, else as wide as its columns.
    pub open spec fn width(self) -> iced_core::Length {
        if self.has_flexible_column() {
            iced_core::Length::FillPortion(self.fill_factor)
        } else {
            iced_core::Length::Shrink
        }
    }

    /// The background of the row at `index`, in painting order: the header's
    /// for the header; for a content row, the selected one where its bit is
    /// set, else the striped one for every second row of a striped table,
    /// else the normal one.
    pub open spec fn row_background(self, backgrounds: Backgrounds, index: int) -> Background {
        let has_header = self.header is Some;
        let c = content_index(has_header, index);
        if has_header && index == 0 {
            backgrounds.header
        } else if self.selection matches Some(s) && s[c] {
            backgrounds.selected
        } else if self.is_striped && c % 2 == 1 {
            backgrounds.striped
        } else {
            backgrounds.normal
        }
    }
}

impl<'a, E, S, F> View for Table<'a, E, S, F> {
    type V = TableView<E, S, F>;

    closed spec fn view(&self) -> TableView<E, S, F> {
        TableView {
            columns: self.columns@,
            rows: self.rows@,
            header: self.header,
            fill_factor: self.fill_factor,
            padding: self.padding,
            is_striped: self.is_striped,
            selection: match self.selected {
                Some(s) => Some(s.selected_rows@),
                None => None,
            },
            on_selected: match self.selected {
                Some(s) => Some(s.on_selected),
                None => None,
            },
            style: self.style,
        }
    }
}

impl<'a, E, S, F> Table<'a, E, S, F> {
    #[verifier::type_invariant]
    spec fn well_formed(self) -> bool {
        self@.wf()
    }

    /// Tries to create a table with the given columns and rows.
    ///
    /// Where every row has one cell per column, returns the table, each cell
    /// wrapped for its column and row; else returns the number of columns.
    pub fn try_new(columns: Vec<Column>, rows: Vec<Row<E>>) -> (r: Result<Self, usize>)
        where
            S: Default,
        ensures
            r is Ok <==> all_of_arity(rows@, columns@.len()),
            r matches Err(n) ==> n == columns@.len(),
            r matches Ok(t) ==> {
                &&& t@.columns == columns@
                &&& t@.rows.len() == rows@.len()
                &&& forall|i: int|
                    0 <= i < rows@.len() ==> is_sized(#[trigger] t@.rows[i], rows@[i], columns@, None)
                &&& t@.header is None
                &&& t@.fill_factor == 1
                &&& t@.padding == uniform_padding(0)
                &&& !t@.is_striped
                &&& t@.selection is None
                &&& t@.on_selected is None
                &&& call_ensures(S::default, (), t@.style)
            },
    {
        let ghost given = rows@;
        let mut sized: Vec<SizedRow<E>> = Vec::new();
        for row in it: rows
            invariant
                it.seq() == given,
                sized@.len() == it.index(),
                all_of_arity(given.take(it.index() as int), columns@.len()),
                forall|i: int|
                    0 <= i < it.index() ==> is_sized(#[trigger] sized@[i], given[i], columns@, None),
        {
            if row.cells.len() != columns.len() {
                return Err(columns.len());
            }
            let ghost at = it.index();
            sized.push(size_row(row, &columns, None));
            assert(given.take(at + 1) =~= given.take(at as int).push(given[at as int]));
        }
        assert(given.take(given.len() as int) =~= given);
        Ok(Table {
            columns,
            rows: sized,
            header: None,
            fill_factor: 1,
            padding: padding_of_units(0),
            is_striped: false,
            selected: None,
            style: S::default(),
        })
    }

    /// Sets the fill factor, the table's share of the space where some
    /// column can grow. The default is 1.
    pub fn fill_factor(self, fill_factor: u16) -> (r: Self)
        ensures
            r@ == (TableView { fill_factor, ..self@ }),
    {
        proof {
            use_type_invariant(&self);
        }
        let mut table = self;
        table.fill_factor = fill_factor;
        table
    }

    /// Sets the space around the table's content.
    pub fn padding(self, padding: Padding) -> (r: Self)
        ensures
            r@ == (TableView { padding, ..self@ }),
    {
        proof {
            use_type_invariant(&self);
        }
        let mut table = self;
        table.padding = padding;
        table
    }

    /// Sets whether every second content row is striped. The default is not.
    pub fn striped(self, is_striped: bool) -> (r: Self)
        ensures
            r@ == (TableView { is_striped, ..self@ }),
    {
        proof {
            use_type_invariant(&self);
        }
        let mut table = self;
        table.is_striped = is_striped;
        table
    }

    /// Sets the style of the table.
    pub fn style(self, style: S) -> (r: Self)
        ensures
            r@ == (TableView { style, ..self@ }),
    {
        proof {
            use_type_invariant(&self);
        }
        let mut table = self;
        table.style = style;
        table
    }

    /// Tries to attach a selection: one bit per content row, and the message
    /// to produce from a changed selection.
    ///
    /// Where there are as many bits as content rows, returns the table with
    /// the selection; else returns the number of content rows.
    pub fn try_selected<M>(self, selected_rows: &'a [bool], on_selected: F) -> (r: Result<
        Self,
        usize,
    >) where F: Fn(Vec<bool>) -> M
        ensures
            r is Ok <==> selected_rows@.len() == self@.rows.len(),
            r matches Err(n) ==> n == self@.rows.len(),
            r matches Ok(t) ==> t@ == (TableView {
                selection: Some(selected_rows@),
                on_selected: Some(on_selected),
                ..self@
            }),
    {
        proof {
            use_type_invariant(&self);
        }
        if selected_rows.len() != self.rows.len() {
            Err(self.rows.len())
        } else {
            let mut table = self;
            table.selected = Some(Selected { selected_rows, on_selected });
            Ok(table)
        }
    }

    /// Tries to set the header row.
    ///
    /// Where the header has one cell per column, returns the table with it,
    /// each cell wrapped for its column; `overriding_alignment`, where given,
    /// replaces the alignment of every column in the header. Else returns the
    /// number of columns.
    pub fn try_header(
        self,
        header: Row<E>,
        overriding_alignment: Option<(Horizontal, Vertical)>,
    ) -> (r: Result<Self, usize>)
        ensures
            r is Ok <==> header.cells@.len() == self@.columns.len(),
            r matches Err(n) ==> n == self@.columns.len(),
            r matches Ok(t) ==> {
                &&& t@.header matches Some(h) && is_sized(
                    h,
                    header,
                    self@.columns,
                    overriding_alignment,
                )
                &&& t@ == (TableView { header: t@.header, ..self@ })
            },
    {
        proof {
            use_type_invariant(&self);
        }
        if header.cells.len() != self.columns.len() {
            return Err(self.columns.len());
        }
        let sized = size_row(header, &self.columns, overriding_alignment);
        let mut table = self;
        table.header = Some(sized);
        Ok(table)
    }

    /// The number of rows, header included.
    pub fn len(&self) -> (r: usize)
        requires
            self@.len() <= usize::MAX,
        ensures
            r == self@.len(),
    {
        let has_header: usize = if self.header.is_some() {
            1
        } else {
            0
        };
        self.rows.len() + has_header
    }

    /// The width policy of the table: `FillPortion` of its fill factor where
    /// some column is not of fixed width, else `Shrink`.
    pub fn width(&self) -> (r: iced_core::Length)
        ensures
            r == self@.width(),
    {
        let mut j: usize = 0;
        while j < self.columns.len()
            invariant
                j <= self.columns@.len(),
                forall|k: int| 0 <= k < j ==> self.columns@[k].width is Fixed,
            decreases self.columns@.len() - j,
        {
            match self.columns[j].width {
                Length::Fixed(_) => {},
                _ => {
                    return iced_core::Length::FillPortion(self.fill_factor);
                },
            }
            j = j + 1;
        }
        iced_core::Length::Shrink
    }

    /// The height policy of the table: as tall as its rows and padding.
    pub fn height(&self) -> (r: iced_core::Length)
        ensures
            r == iced_core::Length::Shrink,
    {
        iced_core::Length::Shrink
    }

    /// The background of each row, header first, in painting order.
    pub fn row_backgrounds(&self, backgrounds: Backgrounds) -> (r: Vec<Background>)
        requires
            self@.len() <= usize::MAX,
        ensures
            r@.len() == self@.len(),
            forall|k: int| 0 <= k < r@.len() ==> r@[k] == self@.row_background(backgrounds, k),
    {
        proof {
            use_type_invariant(self);
        }
        let n = self.len();
        let has_header = self.header.is_some();
        let selected_rows = match &self.selected {
            Some(s) => Some(s.selected_rows),
            None => None,
        };
        let mut background = RowBackground::new(has_header, self.is_striped, selected_rows, backgrounds);
        let mut r: Vec<Background> = Vec::new();
        let mut k: usize = 0;
        while k < n
            invariant
                n == self@.len(),
                self@.wf(),
                has_header == self@.header is Some,
                k <= n,
                r@.len() == k,
                forall|i: int| 0 <= i < k ==> r@[i] == self@.row_background(backgrounds, i),
                background.backgrounds == backgrounds,
                background.selected_rows == selected_rows,
                selected_rows matches Some(s) ==> self@.selection == Some(s@),
                selected_rows is None ==> self@.selection is None,
                background.current_type == RowType::at(has_header, self@.is_striped, k as int),
                selected_rows is Some ==> background.position == if has_header && k == 0 {
                    0
                } else {
                    content_index(has_header, k as int)
                },
            decreases n - k,
        {
            proof {
                lemma_row_type_successor(has_header, self@.is_striped, k as int);
            }
            let b = background.next();
            r.push(b);
            k = k + 1;
        }
        r
    }


    /// The rows in layout and painting order: the header first, where there
    /// is one, then the content rows.
    pub fn iter<'b>(&'b self) -> (r: Iter<'b, 'a, E, S, F>)
        ensures
            r@ == self@.ordered_rows(),
    {
        let r = Iter { table: self, header_done: self.header.is_none(), next_row: 0 };
        assert(self@.rows.skip(0) =~= self@.rows);
        r
    }

    /// The columns of the table.
    pub fn columns(&self) -> (r: &Vec<Column>)
        ensures
            r@ == self@.columns,
    {
        &self.columns
    }

    /// The content rows, each cell wrapped for its column.
    pub fn rows(&self) -> (r: &Vec<SizedRow<E>>)
        ensures
            r@ == self@.rows,
    {
        &self.rows
    }

    /// The space around the table's content.
    pub fn content_padding(&self) -> (r: Padding)
        ensures
            r == self@.padding,
    {
        self.padding
    }

    /// The header row, where there is one.
    pub fn header(&self) -> (r: Option<&SizedRow<E>>)
        ensures
            r matches Some(h) ==> self@.header == Some(*h),
            r is None <==> self@.header is None,
    {
        self.header.as_ref()
    }

}

impl<'a, E, S: Default, F> Default for Table<'a, E, S, F> {
    /// A table with no columns and no rows.
    fn default() -> (r: Self)
        ensures
            r@.columns.len() == 0,
            r@.rows.len() == 0,
            r@.header is None,
            r@.fill_factor == 1,
            r@.padding == uniform_padding(0),
            !r@.is_striped,
            r@.selection is None,
            r@.on_selected is None,
            call_ensures(S::default, (), r@.style),
    {
        Table {
            columns: Vec::new(),
            rows: Vec::new(),
            header: None,
            fill_factor: 1,
            padding: padding_of_units(0),
            is_striped: false,
            selected: None,
            style: S::default(),
        }
    }
}

/// Setting the fill factor to `k` makes the table's width `FillPortion(k)`
/// where some column is not of fixed width, and `Shrink` where every column
/// is, whatever `k` is.
pub proof fn lemma_fill_factor_width<'a, E, S, F>(table: Table<'a, E, S, F>, k: u16)
    ensures
        (TableView { fill_factor: k, ..table@ }).width() == if table@.has_flexible_column() {
            iced_core::Length::FillPortion(k)
        } else {
            iced_core::Length::Shrink
        },
{
}

/// With a header, stripes and no selection, the header's background comes
/// first, then the content rows alternate normal, striped, normal, ...
pub proof fn lemma_striped_backgrounds<'a, E, S, F>(
    table: Table<'a, E, S, F>,
    backgrounds: Backgrounds,
    index: int,
)
    requires
        table@.header is Some,
        table@.is_striped,
        table@.selection is None,
        0 <= index < table@.len(),
    ensures
        table@.row_background(backgrounds, index) == if index == 0 {
            backgrounds.header
        } else if index % 2 == 1 {
            backgrounds.normal
        } else {
            backgrounds.striped
        },
{
    assert(index > 0 ==> ((index - 1) % 2 == 1 <==> index % 2 == 0));
}

/// Without a header or stripes, a row is painted with the selected background
/// where its selection bit is set and with the normal one where it is not.
pub proof fn lemma_selected_backgrounds<'a, E, S, F>(
    table: Table<'a, E, S, F>,
    backgrounds: Backgrounds,
    index: int,
)
    requires
        table@.header is None,
        !table@.is_striped,
        table@.selection is Some,
        0 <= index < table@.len(),
    ensures
        table@.row_background(backgrounds, index) == if table@.selection->0[index] {
            backgrounds.selected
        } else {
            backgrounds.normal
        },
{
}

/// The cursor over a table or a row, from the cursors that its parts ask for:
/// the most active of them, or idle where there are none.
pub fn mouse_interaction(interactions: &Vec<Interaction>) -> (r: Interaction)
    ensures
        interactions@.len() == 0 ==> r == Interaction::Idle,
        interactions@.len() > 0 ==> interactions@.contains(r),
        forall|i: int|
            0 <= i < interactions@.len() ==> interaction_rank(#[trigger] interactions@[i])
                <= interaction_rank(r),
{
    let mut most = Interaction::Idle;
    let mut j: usize = 0;
    while j < interactions.len()
        invariant
            j <= interactions@.len(),
            j == 0 ==> most == Interaction::Idle,
            j > 0 ==> interactions@.take(j as int).contains(most),
            forall|i: int|
                0 <= i < j ==> interaction_rank(#[trigger] interactions@[i]) <= interaction_rank(
                    most,
                ),
        decreases interactions@.len() - j,
    {
        let next = interactions[j];
        let ghost before = most;
        most = match next.cmp(&most) {
            core::cmp::Ordering::Less => most,
            _ => next,
        };
        assert(interactions@.take(j + 1) =~= interactions@.take(j as int).push(next));
        assert(interactions@.take(j + 1).contains(most)) by {
            if most == next {
                assert(interactions@.take(j + 1)[j as int] == next);
            } else {
                assert(most == before);
                let k = choose|k: int| 0 <= k < j && interactions@.take(j as int)[k] == before;
                assert(interactions@.take(j + 1)[k] == before);
            }
        }
        j = j + 1;
    }
    if interactions.len() > 0 {
        assert(interactions@.take(interactions@.len() as int) =~= interactions@);
    }
    most
}

/// A walk over the rows of a table in layout and painting order.
pub struct Iter<'b, 'a, E, S, F> {
    table: &'b Table<'a, E, S, F>,
    header_done: bool,
    next_row: usize,
}

impl<'b, 'a, E, S, F> View for Iter<'b, 'a, E, S, F> {
    type V = Seq<SizedRow<E>>;

    /// The rows that the walk has yet to hand out.
    closed spec fn view(&self) -> Seq<SizedRow<E>> {
        let rest = self.table@.rows.skip(self.next_row as int);
        match self.table@.header {
            Some(h) => if self.header_done {
                rest
            } else {
                seq![h] + rest
            },
            None => rest,
        }
    }
}

impl<'b, 'a, E, S, F> Iter<'b, 'a, E, S, F> {
    #[verifier::type_invariant]
    spec fn well_formed(self) -> bool {
        &&& self.next_row <= self.table@.rows.len()
        &&& !self.header_done ==> self.next_row == 0 && self.table@.header is Some
    }

    /// Hands out the next row, or `None` where every row has been handed out.
    pub fn next(&mut self) -> (r: Option<&'b SizedRow<E>>)
        ensures
            old(self)@.len() == 0 ==> r is None && final(self)@ == old(self)@,
            old(self)@.len() > 0 ==> {
                &&& r matches Some(row) && *row == old(self)@[0]
                &&& final(self)@ == old(self)@.drop_first()
            },
    {
        proof {
            use_type_invariant(&*self);
        }
        let table: &'b Table<'a, E, S, F> = self.table;
        if !self.header_done {
            self.header_done = true;
            if let Some(h) = &table.header {
                assert(self@ =~= old(self)@.drop_first());
                return Some(h);
            }
        }
        if self.next_row < table.rows.len() {
            let row = &table.rows[self.next_row];
            self.next_row = self.next_row + 1;
            assert(self@ =~= old(self)@.drop_first());
            Some(row)
        } else {
            None
        }
    }
}

} // verus!
