//! The presentation of a record as a bordered table: a title, a row of
//! facts, and the sprite art below them.

use vstd::prelude::*;
use crate::decimal::{append_decimal, decimal};
use crate::present::{format_height, format_weight, height_text, weight_text};
use crate::record::{type_list, type_list_text, Pokemon};
use crate::text::uppercase;

verus! {

/// The limit on the width of a column that tables are drawn with, in
/// cells of the terminal.
pub const COLUMN_LIMIT: usize = 96;

/// A row may span this many columns at most.
pub const MAX_COLUMNS: usize = 0xFFFF;

/// Stands before the number of a creature.
pub const NUMBER_SIGN: &'static str = "# ";

/// Where the text of a cell stands between the borders of the cell.
#[derive(Clone, Copy, Debug, PartialEq, Eq, Structural)]
pub enum Alignment {
    Left,
    Right,
    Center,
}

/// One cell of a table: its text, which may have several lines, and the
/// number of columns that it spans.
#[derive(Debug)]
pub struct Cell {
    pub text: String,
    pub col_span: usize,
    pub alignment: Alignment,
}

/// The mathematical content of a cell.
pub struct CellView {
    pub text: Seq<char>,
    pub col_span: nat,
    pub alignment: Alignment,
}

impl View for Cell {
    type V = CellView;

    open spec fn view(&self) -> CellView {
        CellView { text: self.text@, col_span: self.col_span as nat, alignment: self.alignment }
    }
}

impl DeepView for Cell {
    type V = CellView;

    open spec fn deep_view(&self) -> CellView {
        self@
    }
}

/// Which facts the table shows beside the number.
#[derive(Clone, Copy, Debug, PartialEq, Eq, Structural)]
pub enum TableVariant {
    /// Two columns: the number and the list of types.
    Types,
    /// Three columns: the number, the weight and the height.
    Measures,
}

/// The number of columns that the cells of a row span together.
pub open spec fn row_span(cells: Seq<CellView>) -> nat
    decreases cells.len(),
{
    if cells.len() == 0 {
        0
    } else {
        row_span(cells.drop_last()) + cells.last().col_span
    }
}

/// A row that can be drawn: every cell spans at least one column, and
/// all of them together no more than `MAX_COLUMNS`.
pub open spec fn valid_row(cells: Seq<CellView>) -> bool {
    &&& forall|i: int| 0 <= i < cells.len() ==> (#[trigger] cells[i]).col_span >= 1
    &&& row_span(cells) <= MAX_COLUMNS
}

/// Rows that can be drawn as a table.
pub open spec fn valid_rows(rows: Seq<Seq<CellView>>) -> bool {
    forall|i: int| 0 <= i < rows.len() ==> valid_row(#[trigger] rows[i])
}

/// A centred cell.
pub open spec fn centered(text: Seq<char>, col_span: nat) -> CellView {
    CellView { text, col_span, alignment: Alignment::Center }
}

/// The number of columns of the table of a variant.
pub open spec fn column_count(variant: TableVariant) -> nat {
    match variant {
        TableVariant::Types => 2,
        TableVariant::Measures => 3,
    }
}

/// The number of a creature as the table shows it.
pub open spec fn number_text(id: nat) -> Seq<char> {
    NUMBER_SIGN@ + decimal(id)
}

/// The row of facts: the number first, then what the variant asks for,
/// one column each.
pub open spec fn fact_row(pokemon: Pokemon, variant: TableVariant) -> Seq<CellView> {
    match variant {
        TableVariant::Types => seq![
            centered(number_text(pokemon.id as nat), 1),
            centered(type_list(pokemon.types@), 1),
        ],
        TableVariant::Measures => seq![
            centered(number_text(pokemon.id as nat), 1),
            centered(weight_text(pokemon.weight as nat), 1),
            centered(height_text(pokemon.height as nat), 1),
        ],
    }
}

/// The rows of the table for `pokemon`: the title over the full width,
/// the row of facts, and the art over the full width. Every cell is
/// centred.
pub open spec fn layout(
    pokemon: Pokemon,
    title: Seq<char>,
    art: Seq<char>,
    variant: TableVariant,
) -> Seq<Seq<CellView>> {
    seq![
        seq![centered(title, column_count(variant))],
        fact_row(pokemon, variant),
        seq![centered(art, column_count(variant))],
    ]
}

/// The table type of the `term_table` crate. Nothing is seen of a value
/// but what the names below say of it.
#[verifier::external_type_specification]
#[verifier::external_body]
pub struct ExTable(term_table::Table);

/// The rows that a table of `term_table` holds, from the top: of each
/// cell its text, the number of columns it spans, and its alignment.
pub uninterp spec fn table_rows(table: term_table::Table) -> Seq<Seq<CellView>>;

/// The greatest width that a table of `term_table` gives to a column
/// (its field `max_column_width`).
pub uninterp spec fn table_column_limit(table: term_table::Table) -> nat;

/// Whether a table of `term_table` is, but for its rows and its limit on
/// the width of columns, as `Table::new` makes it: in the extended
/// style, with a border at the top and at the bottom and a separator
/// above every row, without a limit for single columns, every cell
/// padded by a blank on either side.
pub uninterp spec fn table_is_plain(table: term_table::Table) -> bool;

/// The text that `Table::render` of `term_table` gives for a plain table
/// with the given rows and limit on the width of columns.
pub uninterp spec fn rendered_table(rows: Seq<Seq<CellView>>, column_limit: nat) -> Seq<char>;

/// Calls `Table::new` and sets the field `max_column_width`. Believed,
/// not proved: the table is empty and plain, with the given limit.
#[verifier::external_body]
fn table_new(column_limit: usize) -> (table: term_table::Table)
    ensures
        table_rows(table) == Seq::<Seq<CellView>>::empty(),
        table_column_limit(table) == column_limit,
        table_is_plain(table),
{
    let mut table = term_table::Table::new();
    table.max_column_width = column_limit;
    table
}

/// Calls `Table::add_row` with a row made by `Row::new` of cells made by
/// `TableCell::builder`, one for each of `cells`. Believed, not proved:
/// the row is added below the others, and nothing else of the table
/// changes.
#[verifier::external_body]
fn table_add_row(table: &mut term_table::Table, cells: &Vec<Cell>)
    ensures
        table_rows(*final(table)) == table_rows(*old(table)).push(cells.deep_view()),
        table_column_limit(*final(table)) == table_column_limit(*old(table)),
        table_is_plain(*final(table)) == table_is_plain(*old(table)),
{
    table.add_row(term_table::row::Row::new(cells.iter().map(|cell| {
        let alignment = match cell.alignment {
            Alignment::Left => term_table::table_cell::Alignment::Left,
            Alignment::Right => term_table::table_cell::Alignment::Right,
            Alignment::Center => term_table::table_cell::Alignment::Center,
        };
        term_table::table_cell::TableCell::builder(&cell.text)
            .col_span(cell.col_span)
            .alignment(alignment)
            .build()
    })));
}

/// Calls `Table::render`. Believed, not proved: for a plain table the
/// text depends on the rows and the limit alone, and is what
/// `rendered_table` names. Rows that are not valid are kept out: for a
/// cell that spans no column the crate's code indexes past its list of
/// column widths, and it adds up the spans of a row without a test for
/// overflow.
#[verifier::external_body]
fn table_render(table: &term_table::Table) -> (text: String)
    requires
        table_is_plain(*table),
        valid_rows(table_rows(*table)),
    ensures
        text@ == rendered_table(table_rows(*table), table_column_limit(*table)),
{
    table.render()
}

/// Taking one more cell adds its span to that of the row.
proof fn lemma_row_span_next(cells: Seq<CellView>, i: int)
    requires
        0 <= i < cells.len(),
    ensures
        row_span(cells.take(i + 1)) == row_span(cells.take(i)) + cells[i].col_span,
{
    assert(cells.take(i + 1).drop_last() =~= cells.take(i));
}

/// The first cells of a row span no more columns than the whole row.
proof fn lemma_row_span_grows(cells: Seq<CellView>, i: int)
    requires
        0 <= i <= cells.len(),
    ensures
        row_span(cells.take(i)) <= row_span(cells),
    decreases cells.len() - i,
{
    if i < cells.len() {
        lemma_row_span_next(cells, i);
        lemma_row_span_grows(cells, i + 1);
    } else {
        assert(cells.take(i) =~= cells);
    }
}

/// Whether the row can be drawn.
pub fn row_is_valid(cells: &Vec<Cell>) -> (valid: bool)
    ensures
        valid == valid_row(cells.deep_view()),
{
    let ghost views = cells.deep_view();
    let mut total: usize = 0;
    let mut i: usize = 0;
    while i < cells.len()
        invariant
            i <= cells.len(),
            views == cells.deep_view(),
            total == row_span(views.take(i as int)),
            total <= MAX_COLUMNS,
            forall|j: int| 0 <= j < i ==> (#[trigger] views[j]).col_span >= 1,
        decreases cells.len() - i,
    {
        let span = cells[i].col_span;
        proof {
            lemma_row_span_next(views, i as int);
            lemma_row_span_grows(views, i + 1);
        }
        if span < 1 || span > MAX_COLUMNS - total {
            assert(views[i as int].col_span == span);
            return false;
        }
        total = total + span;
        i = i + 1;
    }
    assert(views.take(cells.len() as int) =~= views);
    true
}

/// Whether the rows can be drawn as a table.
pub fn rows_are_valid(rows: &Vec<Vec<Cell>>) -> (valid: bool)
    ensures
        valid == valid_rows(rows.deep_view()),
{
    let mut i: usize = 0;
    while i < rows.len()
        invariant
            i <= rows.len(),
            forall|j: int| 0 <= j < i ==> valid_row(#[trigger] rows.deep_view()[j]),
        decreases rows.len() - i,
    {
        if !row_is_valid(&rows[i]) {
            assert(rows.deep_view()[i as int] == rows@[i as int].deep_view());
            return false;
        }
        assert(rows.deep_view()[i as int] == rows@[i as int].deep_view());
        i = i + 1;
    }
    true
}

/// The table of the given rows, which can be drawn, with borders in the
/// extended style.
fn draw_rows(rows: &Vec<Vec<Cell>>) -> (text: String)
    requires
        valid_rows(rows.deep_view()),
    ensures
        text@ == rendered_table(rows.deep_view(), COLUMN_LIMIT as nat),
{
    let ghost views = rows.deep_view();
    let mut table = table_new(COLUMN_LIMIT);
    let mut i: usize = 0;
    while i < rows.len()
        invariant
            i <= rows.len(),
            views == rows.deep_view(),
            table_rows(table) == views.take(i as int),
            table_column_limit(table) == COLUMN_LIMIT,
            table_is_plain(table),
        decreases rows.len() - i,
    {
        table_add_row(&mut table, &rows[i]);
        assert(views.take(i + 1) =~= views.take(i as int).push(rows@[i as int].deep_view()));
        i = i + 1;
    }
    assert(views.take(rows.len() as int) =~= views);
    table_render(&table)
}

/// The table of the given rows, drawn with borders in the extended
/// style: `None` where a cell spans no column or a row more than
/// `MAX_COLUMNS`.
pub fn render_rows(rows: &Vec<Vec<Cell>>) -> (drawn: Option<String>)
    ensures
        drawn is Some <==> valid_rows(rows.deep_view()),
        drawn matches Some(text) ==> text@ == rendered_table(rows.deep_view(), COLUMN_LIMIT as nat),
{
    if rows_are_valid(rows) {
        Some(draw_rows(rows))
    } else {
        None
    }
}

/// A centred cell.
pub fn centered_cell(text: String, col_span: usize) -> (cell: Cell)
    ensures
        cell@ == centered(text@, col_span as nat),
{
    Cell { text, col_span, alignment: Alignment::Center }
}

/// Every table has the title in one cell over the full width first, the
/// facts next, beginning with the number, and the art in one cell over
/// the full width last. Each of the three rows spans as many columns as
/// the variant has, and the rows can be drawn.
pub proof fn lemma_layout_shape(
    pokemon: Pokemon,
    title: Seq<char>,
    art: Seq<char>,
    variant: TableVariant,
)
    ensures
        layout(pokemon, title, art, variant).len() == 3,
        layout(pokemon, title, art, variant)[0] == seq![centered(title, column_count(variant))],
        layout(pokemon, title, art, variant)[1].len() == column_count(variant),
        layout(pokemon, title, art, variant)[1][0] == centered(
            number_text(pokemon.id as nat),
            1,
        ),
        layout(pokemon, title, art, variant)[2] == seq![centered(art, column_count(variant))],
        forall|i: int|
            0 <= i < 3 ==> row_span(#[trigger] layout(pokemon, title, art, variant)[i])
                == column_count(variant),
        valid_rows(layout(pokemon, title, art, variant)),
{
    let rows = layout(pokemon, title, art, variant);
    assert forall|i: int| 0 <= i < 3 implies row_span(#[trigger] rows[i]) == column_count(
        variant,
    ) && valid_row(rows[i]) by {
        reveal_with_fuel(row_span, 4);
    }
}

/// The rows of the table for `pokemon` under the given title.
pub fn table_layout(pokemon: &Pokemon, title: &str, art: &str, variant: TableVariant) -> (rows:
    Vec<Vec<Cell>>)
    ensures
        rows.deep_view() == layout(*pokemon, title@, art@, variant),
{
    let columns: usize = match variant {
        TableVariant::Types => 2,
        TableVariant::Measures => 3,
    };
    let mut number = String::new();
    number.append(NUMBER_SIGN);
    append_decimal(&mut number, pokemon.id as u32);
    assert(number@ =~= number_text(pokemon.id as nat));

    let mut title_row: Vec<Cell> = Vec::new();
    title_row.push(centered_cell(String::from_str(title), columns));

    let mut facts: Vec<Cell> = Vec::new();
    facts.push(centered_cell(number, 1));
    match variant {
        TableVariant::Types => {
            facts.push(centered_cell(type_list_text(&pokemon.types), 1));
        },
        TableVariant::Measures => {
            facts.push(centered_cell(format_weight(pokemon.weight), 1));
            facts.push(centered_cell(format_height(pokemon.height), 1));
        },
    }

    let mut art_row: Vec<Cell> = Vec::new();
    art_row.push(centered_cell(String::from_str(art), columns));

    proof {
        let expected = layout(*pokemon, title@, art@, variant);
        assert(title_row.deep_view() =~= expected[0]);
        assert(facts.deep_view() =~= expected[1]);
        assert(art_row.deep_view() =~= expected[2]);
    }
    let mut rows: Vec<Vec<Cell>> = Vec::new();
    rows.push(title_row);
    rows.push(facts);
    rows.push(art_row);
    assert(rows.deep_view() =~= layout(*pokemon, title@, art@, variant));
    rows
}

/// The table for `pokemon`, drawn: the name in upper case as the title,
/// the facts of the variant, and `art` below them.
pub fn render_table(pokemon: &Pokemon, art: &str, variant: TableVariant) -> (text: String)
    ensures
        text@ == rendered_table(
            layout(*pokemon, uppercase(pokemon.name@), art@, variant),
            COLUMN_LIMIT as nat,
        ),
{
    let title = pokemon.name.as_str().to_uppercase();
    let rows = table_layout(pokemon, title.as_str(), art, variant);
    proof {
        lemma_layout_shape(*pokemon, title@, art@, variant);
    }
    draw_rows(&rows)
}

} // verus!
