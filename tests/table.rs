use iced_core::alignment::{Horizontal, Vertical};
use iced_core::{Background, Color, Padding};
use iced_core::mouse::Interaction;
use iced_table::{
    mouse_interaction, Backgrounds, Column, Length, Modifiers, Row, RowType, State, Table,
};

type Callback = fn(Vec<bool>) -> Vec<bool>;
type TestTable<'a> = Table<'a, &'static str, (), Callback>;

fn echo(rows: Vec<bool>) -> Vec<bool> {
    rows
}

fn column(width: Length, alignment: (Horizontal, Vertical), padding: u16) -> Column {
    Column { width, alignment, cell_padding: Padding::from(padding) }
}

fn three_columns() -> Vec<Column> {
    vec![
        column(Length::Fixed(100), (Horizontal::Center, Vertical::Center), 2),
        column(Length::Fixed(500), (Horizontal::Left, Vertical::Top), 3),
        column(Length::Fill, (Horizontal::Right, Vertical::Bottom), 4),
    ]
}

fn full_row(label: &'static str, height: u16) -> Row<&'static str> {
    Row::new(vec![Some(label), None, Some(label)], height)
}

fn content_rows(n: usize) -> Vec<Row<&'static str>> {
    (0..n).map(|_| full_row("cell", 30)).collect()
}

fn backgrounds() -> Backgrounds {
    Backgrounds {
        normal: Background::Color(Color::from_rgb(1.0, 1.0, 1.0)),
        header: Background::Color(Color::from_rgb(0.0, 0.0, 1.0)),
        striped: Background::Color(Color::from_rgb(0.5, 0.5, 0.5)),
        selected: Background::Color(Color::from_rgb(0.0, 1.0, 0.0)),
    }
}

fn same_padding(a: Padding, b: Padding) -> bool {
    a.top == b.top && a.right == b.right && a.bottom == b.bottom && a.left == b.left
}

#[test]
fn try_new_keeps_every_row_of_matching_arity() {
    let table = TestTable::try_new(three_columns(), content_rows(4)).ok().unwrap();
    assert_eq!(table.rows().len(), 4);
    assert_eq!(table.len(), 4);
    assert_eq!(table.columns().len(), 3);
    assert!(table.header().is_none());
}

#[test]
fn try_new_with_no_rows_succeeds() {
    let table = TestTable::try_new(three_columns(), Vec::new()).ok().unwrap();
    assert_eq!(table.rows().len(), 0);
    assert_eq!(table.len(), 0);
}

#[test]
fn try_new_reports_the_column_count_on_a_short_row() {
    let rows = vec![full_row("a", 30), Row::new(vec![Some("b"), None], 30)];
    let result = TestTable::try_new(three_columns(), rows);
    assert_eq!(result.err(), Some(3));
}

#[test]
fn try_new_reports_the_column_count_on_a_long_row() {
    let rows = vec![Row::new(vec![None, None, None, None], 30), full_row("a", 30)];
    let result = TestTable::try_new(three_columns(), rows);
    assert_eq!(result.err(), Some(3));
}

#[test]
fn try_new_sizes_each_cell_by_its_column_and_row() {
    let rows = vec![full_row("x", 30), full_row("y", 45)];
    let table = TestTable::try_new(three_columns(), rows).ok().unwrap();
    let second = &table.rows()[1];
    assert_eq!(second.height, 45);
    assert_eq!(second.cells.len(), 3);
    assert_eq!(second.cells[0].content, Some("y"));
    assert_eq!(second.cells[1].content, None);
    assert_eq!(second.cells[0].width, iced_core::Length::Fixed(100.0));
    assert_eq!(second.cells[1].width, iced_core::Length::Fixed(500.0));
    assert_eq!(second.cells[2].width, iced_core::Length::Fill);
    for cell in &second.cells {
        assert_eq!(cell.height, iced_core::Length::Fixed(45.0));
    }
    assert_eq!(second.cells[1].align_x, Horizontal::Left);
    assert_eq!(second.cells[1].align_y, Vertical::Top);
    assert!(same_padding(second.cells[2].padding, Padding::new(4.0)));
}

#[test]
fn new_table_has_no_padding_and_fill_factor_one() {
    let table = TestTable::try_new(three_columns(), content_rows(1)).ok().unwrap();
    assert!(same_padding(table.content_padding(), Padding::ZERO));
    assert_eq!(table.width(), iced_core::Length::FillPortion(1));
    let padded = table.padding(Padding::new(7.0));
    assert!(same_padding(padded.content_padding(), Padding::new(7.0)));
}

#[test]
fn default_table_is_empty() {
    let table = TestTable::default();
    assert_eq!(table.len(), 0);
    assert_eq!(table.columns().len(), 0);
    assert_eq!(table.width(), iced_core::Length::Shrink);
    assert!(same_padding(table.content_padding(), Padding::ZERO));
}

#[test]
fn try_selected_reports_the_row_count_on_a_short_selection() {
    let table = TestTable::try_new(three_columns(), content_rows(3)).ok().unwrap();
    let selection = [true, false];
    let result = table.try_selected(&selection, echo as Callback);
    assert_eq!(result.err(), Some(3));
}

#[test]
fn try_selected_reports_the_row_count_on_a_long_selection() {
    let table = TestTable::try_new(three_columns(), content_rows(3)).ok().unwrap();
    let selection = [true, false, true, true];
    let result = table.try_selected(&selection, echo as Callback);
    assert_eq!(result.err(), Some(3));
}

#[test]
fn try_selected_accepts_one_bit_per_row() {
    let table = TestTable::try_new(three_columns(), content_rows(3)).ok().unwrap();
    let selection = [true, false, true];
    assert!(table.try_selected(&selection, echo as Callback).is_ok());
}

#[test]
fn try_selected_on_an_empty_table_needs_an_empty_selection() {
    let table = TestTable::try_new(three_columns(), Vec::new()).ok().unwrap();
    let selection = [true];
    assert_eq!(table.try_selected(&selection, echo as Callback).err(), Some(0));
}

#[test]
fn header_and_stripes_alternate_from_normal() {
    let b = backgrounds();
    let table = TestTable::try_new(three_columns(), content_rows(4))
        .ok()
        .unwrap()
        .striped(true)
        .try_header(full_row("title", 50), None)
        .ok()
        .unwrap();
    let painted = table.row_backgrounds(b);
    assert_eq!(painted, vec![b.header, b.normal, b.striped, b.normal, b.striped]);
}

#[test]
fn selected_rows_without_stripes_or_header() {
    let b = backgrounds();
    let selection = [true, false, true];
    let table = TestTable::try_new(three_columns(), content_rows(3))
        .ok()
        .unwrap()
        .try_selected(&selection, echo as Callback)
        .ok()
        .unwrap();
    let painted = table.row_backgrounds(b);
    assert_eq!(painted, vec![b.selected, b.normal, b.selected]);
}

#[test]
fn selection_wins_over_stripes_but_not_over_the_header() {
    let b = backgrounds();
    let selection = [false, true, false, true];
    let table = TestTable::try_new(three_columns(), content_rows(4))
        .ok()
        .unwrap()
        .striped(true)
        .try_selected(&selection, echo as Callback)
        .ok()
        .unwrap()
        .try_header(full_row("title", 50), None)
        .ok()
        .unwrap();
    let painted = table.row_backgrounds(b);
    assert_eq!(painted, vec![b.header, b.normal, b.selected, b.normal, b.selected]);
}

#[test]
fn unstriped_rows_are_all_normal() {
    let b = backgrounds();
    let table = TestTable::try_new(three_columns(), content_rows(3)).ok().unwrap().striped(false);
    assert_eq!(table.row_backgrounds(b), vec![b.normal, b.normal, b.normal]);
}

#[test]
fn no_rows_no_backgrounds() {
    let table = TestTable::try_new(three_columns(), Vec::new()).ok().unwrap();
    assert!(table.row_backgrounds(backgrounds()).is_empty());
}

#[test]
fn fill_factor_sets_the_width_where_a_column_can_grow() {
    let table = TestTable::try_new(three_columns(), content_rows(2)).ok().unwrap().fill_factor(5);
    assert_eq!(table.width(), iced_core::Length::FillPortion(5));
}

#[test]
fn fixed_columns_shrink_whatever_the_fill_factor() {
    let columns = vec![
        column(Length::Fixed(10), (Horizontal::Left, Vertical::Top), 0),
        column(Length::Fixed(20), (Horizontal::Left, Vertical::Top), 0),
    ];
    let table = TestTable::try_new(columns, Vec::new()).ok().unwrap().fill_factor(5);
    assert_eq!(table.width(), iced_core::Length::Shrink);
}

#[test]
fn a_fill_portion_column_counts_as_growing() {
    let columns = vec![
        column(Length::Fixed(10), (Horizontal::Left, Vertical::Top), 0),
        column(Length::FillPortion(3), (Horizontal::Left, Vertical::Top), 0),
    ];
    let table = TestTable::try_new(columns, Vec::new()).ok().unwrap().fill_factor(9);
    assert_eq!(table.width(), iced_core::Length::FillPortion(9));
}

#[test]
fn height_is_always_shrink() {
    let table = TestTable::try_new(three_columns(), content_rows(2)).ok().unwrap();
    assert_eq!(table.height(), iced_core::Length::Shrink);
}

#[test]
fn overriding_alignment_applies_to_every_header_cell() {
    let table = TestTable::try_new(three_columns(), content_rows(1))
        .ok()
        .unwrap()
        .try_header(full_row("title", 50), Some((Horizontal::Right, Vertical::Bottom)))
        .ok()
        .unwrap();
    let header = table.header().unwrap();
    let widths = [
        iced_core::Length::Fixed(100.0),
        iced_core::Length::Fixed(500.0),
        iced_core::Length::Fill,
    ];
    let paddings = [2.0, 3.0, 4.0];
    assert_eq!(header.cells.len(), 3);
    for (j, cell) in header.cells.iter().enumerate() {
        assert_eq!(cell.align_x, Horizontal::Right);
        assert_eq!(cell.align_y, Vertical::Bottom);
        assert_eq!(cell.width, widths[j]);
        assert_eq!(cell.height, iced_core::Length::Fixed(50.0));
        assert!(same_padding(cell.padding, Padding::new(paddings[j])));
    }
    let content = &table.rows()[0];
    assert_eq!(content.cells[0].align_x, Horizontal::Center);
    assert_eq!(content.cells[1].align_y, Vertical::Top);
}

#[test]
fn header_without_override_keeps_column_alignment() {
    let table = TestTable::try_new(three_columns(), Vec::new())
        .ok()
        .unwrap()
        .try_header(full_row("title", 50), None)
        .ok()
        .unwrap();
    let header = table.header().unwrap();
    assert_eq!(header.cells[0].align_x, Horizontal::Center);
    assert_eq!(header.cells[0].align_y, Vertical::Center);
    assert_eq!(header.cells[1].align_x, Horizontal::Left);
    assert_eq!(header.cells[2].align_y, Vertical::Bottom);
    assert_eq!(table.len(), 1);
}

#[test]
fn try_header_reports_the_column_count() {
    let table = TestTable::try_new(three_columns(), content_rows(2)).ok().unwrap();
    let result = table.try_header(Row::new(vec![Some("only")], 50), None);
    assert_eq!(result.err(), Some(3));
}

#[test]
fn rows_are_walked_header_first() {
    let rows = vec![full_row("first", 30), full_row("second", 30)];
    let table = TestTable::try_new(three_columns(), rows)
        .ok()
        .unwrap()
        .try_header(full_row("title", 50), None)
        .ok()
        .unwrap();
    let mut walk = table.iter();
    assert_eq!(walk.next().unwrap().cells[0].content, Some("title"));
    assert_eq!(walk.next().unwrap().cells[0].content, Some("first"));
    assert_eq!(walk.next().unwrap().cells[0].content, Some("second"));
    assert!(walk.next().is_none());
    assert!(walk.next().is_none());
}

#[test]
fn rows_are_walked_in_order_without_header() {
    let rows = vec![full_row("first", 30), full_row("second", 30)];
    let table = TestTable::try_new(three_columns(), rows).ok().unwrap();
    let mut walk = table.iter();
    assert_eq!(walk.next().unwrap().cells[2].content, Some("first"));
    assert_eq!(walk.next().unwrap().cells[2].content, Some("second"));
    assert!(walk.next().is_none());
}

#[test]
fn column_lengths_convert_to_host_lengths() {
    assert_eq!(iced_core::Length::from(Length::Fill), iced_core::Length::Fill);
    assert_eq!(iced_core::Length::from(Length::FillPortion(3)), iced_core::Length::FillPortion(3));
    assert_eq!(iced_core::Length::from(Length::Fixed(40)), iced_core::Length::Fixed(40.0));
}

#[test]
fn row_type_sequence_with_header_and_stripes() {
    let mut kind = RowType::new(true, true);
    assert_eq!(kind.next(), RowType::Header(Some(false)));
    assert_eq!(kind.next(), RowType::Content(Some(false)));
    assert_eq!(kind.next(), RowType::Content(Some(true)));
    assert_eq!(kind.next(), RowType::Content(Some(false)));
}

#[test]
fn row_type_sequence_without_header_or_stripes() {
    let mut kind = RowType::new(false, false);
    assert_eq!(kind.next(), RowType::Content(None));
    assert_eq!(kind.next(), RowType::Content(None));
}

#[test]
fn new_state_holds_no_modifier() {
    let none = Modifiers { shift: false, control: false, alt: false, logo: false };
    assert_eq!(State::new().keyboard_modifiers(), none);
    assert_eq!(State::default().keyboard_modifiers(), none);
}

#[test]
fn no_parts_leave_the_cursor_idle() {
    assert_eq!(mouse_interaction(&Vec::new()), Interaction::Idle);
}

#[test]
fn the_most_active_cursor_wins() {
    let parts = vec![Interaction::Pointer, Interaction::Text, Interaction::Idle, Interaction::Grab];
    assert_eq!(mouse_interaction(&parts), Interaction::Text);
}

#[test]
fn the_last_declared_cursor_beats_every_other() {
    let parts = vec![
        Interaction::ResizingVertically,
        Interaction::ResizingHorizontally,
        Interaction::Grabbing,
    ];
    assert_eq!(mouse_interaction(&parts), Interaction::ResizingVertically);
}

#[test]
fn equal_cursors_give_that_cursor() {
    let parts = vec![Interaction::Crosshair, Interaction::Crosshair];
    assert_eq!(mouse_interaction(&parts), Interaction::Crosshair);
}
