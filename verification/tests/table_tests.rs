use pokedex::record::{NamedAPIResource, Pokemon, PokemonType};
use pokedex::table::{
    centered_cell, render_rows, render_table, row_is_valid, rows_are_valid, table_layout,
    Alignment, Cell, TableVariant, COLUMN_LIMIT, MAX_COLUMNS,
};

fn kind(slot: u8, name: &str) -> PokemonType {
    PokemonType {
        slot,
        kind: NamedAPIResource { name: String::from(name), url: String::new() },
    }
}

fn pikachu() -> Pokemon {
    Pokemon {
        id: 25,
        name: String::from("pikachu"),
        weight: 60,
        height: 4,
        sprite_url: String::from("https://example.org/sprites/25.png"),
        types: vec![kind(1, "electric")],
    }
}

fn cell(text: &str, col_span: usize, alignment: Alignment) -> Cell {
    Cell { text: String::from(text), col_span, alignment }
}

fn shape(rows: &Vec<Vec<Cell>>) -> Vec<Vec<(String, usize, Alignment)>> {
    rows.iter()
        .map(|row| row.iter().map(|c| (c.text.clone(), c.col_span, c.alignment)).collect())
        .collect()
}

#[test]
fn types_table_has_the_joined_type_in_its_cell() {
    let rows = table_layout(&pikachu(), "PIKACHU", "art", TableVariant::Types);
    assert_eq!(
        shape(&rows),
        vec![
            vec![(String::from("PIKACHU"), 2, Alignment::Center)],
            vec![
                (String::from("# 25"), 1, Alignment::Center),
                (String::from("electric"), 1, Alignment::Center),
            ],
            vec![(String::from("art"), 2, Alignment::Center)],
        ]
    );
}

#[test]
fn types_table_joins_several_types() {
    let mut p = pikachu();
    p.types = vec![kind(1, "grass"), kind(2, "poison")];
    let rows = table_layout(&p, "T", "", TableVariant::Types);
    assert_eq!(rows[1][1].text, "grass, poison");
}

#[test]
fn measures_table_has_three_columns() {
    let rows = table_layout(&pikachu(), "PIKACHU", "art\n", TableVariant::Measures);
    assert_eq!(
        shape(&rows),
        vec![
            vec![(String::from("PIKACHU"), 3, Alignment::Center)],
            vec![
                (String::from("# 25"), 1, Alignment::Center),
                (String::from("6.0kg"), 1, Alignment::Center),
                (String::from("0.4m"), 1, Alignment::Center),
            ],
            vec![(String::from("art\n"), 3, Alignment::Center)],
        ]
    );
}

#[test]
fn layouts_can_be_drawn() {
    for variant in [TableVariant::Types, TableVariant::Measures] {
        let rows = table_layout(&pikachu(), "X", "", variant);
        assert!(rows_are_valid(&rows));
        assert!(render_rows(&rows).is_some());
    }
}

#[test]
fn centred_cells_are_centred() {
    let c = centered_cell(String::from("x"), 4);
    assert_eq!((c.text.as_str(), c.col_span, c.alignment), ("x", 4, Alignment::Center));
}

#[test]
fn a_cell_must_span_a_column() {
    assert!(row_is_valid(&vec![cell("a", 1, Alignment::Left)]));
    assert!(!row_is_valid(&vec![cell("a", 0, Alignment::Left)]));
    assert!(!row_is_valid(&vec![cell("a", 1, Alignment::Left), cell("b", 0, Alignment::Left)]));
    assert!(row_is_valid(&vec![]));
    let rows = vec![vec![cell("a", 1, Alignment::Left)], vec![cell("b", 0, Alignment::Left)]];
    assert!(!rows_are_valid(&rows));
    assert_eq!(render_rows(&rows), None);
}

#[test]
fn a_row_must_not_span_too_many_columns() {
    assert!(row_is_valid(&vec![cell("a", MAX_COLUMNS, Alignment::Left)]));
    assert!(!row_is_valid(&vec![cell("a", MAX_COLUMNS + 1, Alignment::Left)]));
    assert!(!row_is_valid(&vec![
        cell("a", MAX_COLUMNS, Alignment::Left),
        cell("b", 1, Alignment::Left)
    ]));
    assert!(!row_is_valid(&vec![
        cell("a", usize::MAX, Alignment::Left),
        cell("b", usize::MAX, Alignment::Left)
    ]));
    assert_eq!(render_rows(&vec![vec![cell("a", usize::MAX, Alignment::Left)]]), None);
}

#[test]
fn a_single_cell_is_drawn_in_a_box() {
    let rows = vec![vec![cell("A", 1, Alignment::Center)]];
    assert_eq!(render_rows(&rows), Some(String::from("╔═══╗\n║ A ║\n╚═══╝\n")));
}

#[test]
fn no_rows_give_no_table() {
    assert_eq!(render_rows(&Vec::new()), Some(String::new()));
}

#[test]
fn alignment_moves_the_text() {
    let rows = vec![
        vec![cell("wide text", 1, Alignment::Left)],
        vec![cell("l", 1, Alignment::Left)],
        vec![cell("r", 1, Alignment::Right)],
    ];
    let text = render_rows(&rows).unwrap();
    let lines: Vec<&str> = text.lines().collect();
    assert_eq!(lines[1], "║ wide text ║");
    assert_eq!(lines[3], "║ l         ║");
    assert_eq!(lines[5], "║         r ║");
}

#[test]
fn columns_are_no_wider_than_the_limit() {
    let long = "x".repeat(300);
    let text = render_rows(&vec![vec![cell(&long, 1, Alignment::Left)]]).unwrap();
    for line in text.lines() {
        assert_eq!(line.chars().count(), COLUMN_LIMIT + 2);
    }
}

#[test]
fn rows_are_drawn_as_the_table_crate_draws_them() {
    let rows = vec![
        vec![cell("TITLE", 2, Alignment::Center)],
        vec![cell("# 1", 1, Alignment::Left), cell("fire, flying", 1, Alignment::Right)],
        vec![cell("\x1B[38;2;1;2;3m▀\x1B[0m \n ▄\n", 2, Alignment::Center)],
    ];
    let mut table = term_table::Table::new();
    table.max_column_width = COLUMN_LIMIT;
    table.style = term_table::TableStyle::extended();
    table.add_row(term_table::row::Row::new(vec![term_table::table_cell::TableCell::builder(
        "TITLE",
    )
    .col_span(2)
    .alignment(term_table::table_cell::Alignment::Center)
    .build()]));
    table.add_row(term_table::row::Row::new(vec![
        term_table::table_cell::TableCell::builder("# 1")
            .col_span(1)
            .alignment(term_table::table_cell::Alignment::Left)
            .build(),
        term_table::table_cell::TableCell::builder("fire, flying")
            .col_span(1)
            .alignment(term_table::table_cell::Alignment::Right)
            .build(),
    ]));
    table.add_row(term_table::row::Row::new(vec![term_table::table_cell::TableCell::builder(
        "\x1B[38;2;1;2;3m▀\x1B[0m \n ▄\n",
    )
    .col_span(2)
    .alignment(term_table::table_cell::Alignment::Center)
    .build()]));
    assert_eq!(render_rows(&rows), Some(table.render()));
}

#[test]
fn the_table_is_titled_in_upper_case() {
    let text = render_table(&pikachu(), "", TableVariant::Types);
    let lines: Vec<&str> = text.lines().collect();
    assert!(lines[0].starts_with('╔') && lines[0].ends_with('╗'));
    assert!(lines[1].contains("PIKACHU"));
    assert!(!text.contains("pikachu"));
    assert!(lines[3].contains("# 25"));
    assert!(lines[3].contains("electric"));
    assert!(lines.last().unwrap().starts_with('╚'));
}

#[test]
fn the_table_is_the_drawing_of_its_layout() {
    for variant in [TableVariant::Types, TableVariant::Measures] {
        let art = " \x1B[38;2;255;0;0m▀\x1B[0m\n";
        let rows = table_layout(&pikachu(), "PIKACHU", art, variant);
        assert_eq!(Some(render_table(&pikachu(), art, variant)), render_rows(&rows));
    }
}

#[test]
fn the_measures_table_shows_weight_and_height() {
    let text = render_table(&pikachu(), "", TableVariant::Measures);
    let lines: Vec<&str> = text.lines().collect();
    assert!(lines[3].contains("# 25"));
    assert!(lines[3].contains("6.0kg"));
    assert!(lines[3].contains("0.4m"));
    assert!(!text.contains("electric"));
}

/// A small generator of numbers that looks arbitrary and is the same in
/// every run.
struct Sequence(u64);

impl Sequence {
    fn next(&mut self, below: u64) -> u64 {
        self.0 = self.0.wrapping_mul(6364136223846793005).wrapping_add(1442695040888963407);
        (self.0 >> 33) % below
    }
}

#[test]
fn valid_rows_of_any_shape_are_drawn() {
    let texts = [
        "",
        "a",
        "some words in a cell",
        "two\nlines",
        "ends with a break\n",
        "\n",
        "\x1B[38;2;1;2;3m\u{2580}\x1B[0m",
        "\x1B[38;2;255;255;255m\x1B[48;2;0;0;0m\u{2580}\x1B[0m \x1B[38;2;9;9;9m\u{2584}\x1B[0m\n \n",
        "wide 漢字 text",
        "é",
        "0123456789012345678901234567890123456789012345678901234567890123456789012345678901234567890123456789012345678901234567890123456789",
    ];
    let alignments = [Alignment::Left, Alignment::Right, Alignment::Center];
    let mut numbers = Sequence(25);
    for _ in 0..1500 {
        let mut rows = Vec::new();
        for _ in 0..numbers.next(5) {
            let mut row = Vec::new();
            for _ in 0..numbers.next(5) {
                row.push(cell(
                    texts[numbers.next(texts.len() as u64) as usize],
                    1 + numbers.next(5) as usize,
                    alignments[numbers.next(3) as usize],
                ));
            }
            rows.push(row);
        }
        assert!(rows_are_valid(&rows));
        let text = render_rows(&rows).unwrap();
        assert_eq!(text.is_empty(), rows.is_empty());
    }
}

#[test]
fn a_wide_span_over_a_short_text_is_drawn() {
    let rows = vec![
        vec![cell("", 40, Alignment::Center)],
        vec![cell("x", 1, Alignment::Left)],
        vec![cell("", 1, Alignment::Right), cell("y", 200, Alignment::Center)],
    ];
    assert!(render_rows(&rows).is_some());
}
