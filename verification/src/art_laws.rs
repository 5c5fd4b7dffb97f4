//! What holds of every piece of art: how many lines and cells it has, and
//! what a cell looks like for each kind of pixel pair.

use vstd::prelude::*;
use crate::decimal::{decimal, is_digit, lemma_decimal_digits};
use crate::pixel::{GridView, Pixel};
use crate::render::{
    art_cell, art_line, art_line_cells, art_lines, art_text, background, channels, foreground,
    full_block_cell, half_block_cell, line_count, RenderMode, BACKGROUND_PREFIX, BLANK,
    CHANNEL_SEPARATOR, COLOR_SUFFIX, FOREGROUND_PREFIX, LOWER_HALF_BLOCK, RESET, UPPER_HALF_BLOCK,
};
use crate::text::{lemma_flatten_take_next, LINE_BREAK};

verus! {

/// The number of places in `s` that hold a character of `wanted`.
pub open spec fn count_in(s: Seq<char>, wanted: Set<char>) -> nat
    decreases s.len(),
{
    if s.len() == 0 {
        0
    } else {
        count_in(s.drop_last(), wanted) + if wanted.contains(s.last()) {
            1nat
        } else {
            0nat
        }
    }
}

/// The characters that are drawn into a cell of their own: the blank and
/// the two half blocks. The characters of an escape sequence are not
/// among them.
pub open spec fn glyphs() -> Set<char> {
    Set::new(
        |c: char|
            seq![c] == BLANK@ || seq![c] == UPPER_HALF_BLOCK@ || seq![c] == LOWER_HALF_BLOCK@,
    )
}

/// The characters that end a line.
pub open spec fn line_breaks() -> Set<char> {
    Set::new(|c: char| seq![c] == LINE_BREAK@)
}

/// The number of glyphs in `s`: the number of cells that a terminal
/// fills when it prints `s`.
pub open spec fn glyph_count(s: Seq<char>) -> nat {
    count_in(s, glyphs())
}

/// The number of line breaks in `s`.
pub open spec fn break_count(s: Seq<char>) -> nat {
    count_in(s, line_breaks())
}

/// Whether `pattern` stands in `s` from index `i` on.
pub open spec fn occurs_at(s: Seq<char>, pattern: Seq<char>, i: int) -> bool {
    0 <= i && i + pattern.len() <= s.len() && s.subrange(i, i + pattern.len()) == pattern
}

/// Whether `pattern` stands somewhere in `s`.
pub open spec fn occurs(s: Seq<char>, pattern: Seq<char>) -> bool {
    exists|i: int| occurs_at(s, pattern, i)
}

/// Whether `c` is one of the characters that escape sequences are made
/// of: the escape character, the bracket, the digits, the separator and
/// the closing letter.
spec fn in_sequence(c: char) -> bool {
    c == '\x1B' || c == '[' || c == ';' || c == 'm' || is_digit(c)
}

/// Whether `s` holds nothing but characters of escape sequences.
spec fn unseen(s: Seq<char>) -> bool {
    forall|i: int| 0 <= i < s.len() ==> in_sequence(#[trigger] s[i])
}

/// What the constants of the art hold, character by character.
proof fn lemma_constants()
    ensures
        BLANK@ == seq![' '],
        UPPER_HALF_BLOCK@ == seq!['\u{2580}'],
        LOWER_HALF_BLOCK@ == seq!['\u{2584}'],
        CHANNEL_SEPARATOR@ == seq![';'],
        COLOR_SUFFIX@ == seq!['m'],
        FOREGROUND_PREFIX@ == seq!['\x1B', '[', '3', '8', ';', '2', ';'],
        BACKGROUND_PREFIX@ == seq!['\x1B', '[', '4', '8', ';', '2', ';'],
        RESET@ == seq!['\x1B', '[', '0', 'm'],
        LINE_BREAK@ == seq!['\n'],
        forall|c: char| glyphs().contains(c) <==> c == ' ' || c == '\u{2580}' || c == '\u{2584}',
        forall|c: char| line_breaks().contains(c) <==> c == '\n',
{
    reveal_strlit(" ");
    reveal_strlit("\u{2580}");
    reveal_strlit("\u{2584}");
    reveal_strlit(";");
    reveal_strlit("m");
    reveal_strlit("\x1B[38;2;");
    reveal_strlit("\x1B[48;2;");
    reveal_strlit("\x1B[0m");
    reveal_strlit("\n");
    assert(BLANK@ =~= seq![' ']);
    assert(UPPER_HALF_BLOCK@ =~= seq!['\u{2580}']);
    assert(LOWER_HALF_BLOCK@ =~= seq!['\u{2584}']);
    assert(CHANNEL_SEPARATOR@ =~= seq![';']);
    assert(COLOR_SUFFIX@ =~= seq!['m']);
    assert(FOREGROUND_PREFIX@ =~= seq!['\x1B', '[', '3', '8', ';', '2', ';']);
    assert(BACKGROUND_PREFIX@ =~= seq!['\x1B', '[', '4', '8', ';', '2', ';']);
    assert(RESET@ =~= seq!['\x1B', '[', '0', 'm']);
    assert(LINE_BREAK@ =~= seq!['\n']);
    assert forall|c: char| glyphs().contains(c) <==> c == ' ' || c == '\u{2580}' || c
        == '\u{2584}' by {
        assert(seq![c][0] == c);
    }
    assert forall|c: char| line_breaks().contains(c) <==> c == '\n' by {
        assert(seq![c][0] == c);
    }
}

/// What is counted in a concatenation is what is counted in its two
/// parts.
pub proof fn lemma_count_add(a: Seq<char>, b: Seq<char>, wanted: Set<char>)
    ensures
        count_in(a + b, wanted) == count_in(a, wanted) + count_in(b, wanted),
    decreases b.len(),
{
    if b.len() == 0 {
        assert(a + b =~= a);
    } else {
        assert((a + b).drop_last() =~= a + b.drop_last());
        assert((a + b).last() == b.last());
        lemma_count_add(a, b.drop_last(), wanted);
    }
}

/// What is counted in a concatenation of three is what is counted in
/// its parts.
proof fn lemma_count_three(a: Seq<char>, b: Seq<char>, c: Seq<char>, wanted: Set<char>)
    ensures
        count_in(a + b + c, wanted) == count_in(a, wanted) + count_in(b, wanted) + count_in(
            c,
            wanted,
        ),
{
    lemma_count_add(a, b, wanted);
    lemma_count_add(a + b, c, wanted);
}

/// Where no character of a text is wanted, none is counted.
proof fn lemma_count_none(s: Seq<char>, wanted: Set<char>)
    requires
        forall|i: int| 0 <= i < s.len() ==> !wanted.contains(#[trigger] s[i]),
    ensures
        count_in(s, wanted) == 0,
    decreases s.len(),
{
    if s.len() > 0 {
        assert(!wanted.contains(s[s.len() - 1]));
        lemma_count_none(s.drop_last(), wanted);
    }
}

/// A text of one character counts one or none.
proof fn lemma_count_single(s: Seq<char>, wanted: Set<char>)
    requires
        s.len() == 1,
    ensures
        count_in(s, wanted) == if wanted.contains(s[0]) {
            1nat
        } else {
            0nat
        },
{
    assert(s.drop_last().len() == 0);
    assert(count_in(s.drop_last(), wanted) == 0);
}

/// Where each of the first `n` parts counts `each`, their concatenation
/// counts `n` times as much.
proof fn lemma_count_flatten(parts: Seq<Seq<char>>, wanted: Set<char>, each: nat, n: int)
    requires
        0 <= n <= parts.len(),
        forall|i: int| 0 <= i < n ==> count_in(#[trigger] parts[i], wanted) == each,
    ensures
        count_in(parts.take(n).flatten(), wanted) == n * each,
    decreases n,
{
    if n == 0 {
        assert(parts.take(0).len() == 0);
        assert(parts.take(0).flatten() =~= Seq::<char>::empty());
        assert(0 * each == 0) by (nonlinear_arith);
    } else {
        lemma_count_flatten(parts, wanted, each, n - 1);
        lemma_flatten_take_next(parts, n - 1);
        lemma_count_add(parts.take(n - 1).flatten(), parts[n - 1], wanted);
        assert((n - 1) * each + each == n * each) by (nonlinear_arith);
    }
}

/// What is made of the characters of escape sequences fills no cell and
/// ends no line.
proof fn lemma_unseen(s: Seq<char>)
    requires
        unseen(s),
    ensures
        glyph_count(s) == 0,
        break_count(s) == 0,
{
    lemma_constants();
    assert forall|i: int| 0 <= i < s.len() implies !glyphs().contains(#[trigger] s[i])
        && !line_breaks().contains(s[i]) by {
        assert(in_sequence(s[i]));
    }
    lemma_count_none(s, glyphs());
    lemma_count_none(s, line_breaks());
}

/// The channels of a colour are digits and separators.
proof fn lemma_channels_chars(p: Pixel)
    ensures
        channels(p).len() >= 5,
        forall|i: int|
            0 <= i < channels(p).len() ==> is_digit(#[trigger] channels(p)[i]) || channels(p)[i]
                == ';',
{
    lemma_constants();
    lemma_decimal_digits(p.r as nat);
    lemma_decimal_digits(p.g as nat);
    lemma_decimal_digits(p.b as nat);
    let r = decimal(p.r as nat);
    let g = decimal(p.g as nat);
    let b = decimal(p.b as nat);
    let c = channels(p);
    assert(c =~= r + seq![';'] + g + seq![';'] + b);
    assert forall|i: int| 0 <= i < c.len() implies is_digit(#[trigger] c[i]) || c[i] == ';' by {
        if i < r.len() {
            assert(c[i] == r[i]);
        } else if i == r.len() {
        } else if i < r.len() + 1 + g.len() {
            assert(c[i] == g[i - r.len() - 1]);
        } else if i == r.len() + 1 + g.len() {
        } else {
            assert(c[i] == b[i - r.len() - g.len() - 2]);
        }
    }
}

/// An escape sequence that sets a colour begins with the escape
/// character and holds no other; it is made of the characters of escape
/// sequences alone.
proof fn lemma_color_sequence(prefix: Seq<char>, p: Pixel)
    requires
        prefix == FOREGROUND_PREFIX@ || prefix == BACKGROUND_PREFIX@,
    ensures
        ({
            let s = prefix + channels(p) + COLOR_SUFFIX@;
            &&& s.len() >= 13
            &&& s[0] == '\x1B'
            &&& s[1] == '['
            &&& s[2] == prefix[2]
            &&& forall|i: int| 1 <= i < s.len() ==> #[trigger] s[i] != '\x1B'
            &&& unseen(s)
            &&& glyph_count(s) == 0
            &&& break_count(s) == 0
        }),
{
    lemma_constants();
    lemma_channels_chars(p);
    let c = channels(p);
    let s = prefix + c + COLOR_SUFFIX@;
    assert(s.len() == 7 + c.len() + 1);
    assert forall|i: int| 0 <= i < s.len() implies in_sequence(#[trigger] s[i]) && (i >= 1 ==> s[i]
        != '\x1B') by {
        if i < 7 {
            assert(s[i] == prefix[i]);
        } else if i < 7 + c.len() {
            assert(s[i] == c[i - 7]);
            assert(is_digit(c[i - 7]) || c[i - 7] == ';');
        } else {
            assert(s[i] == 'm');
        }
    }
    lemma_unseen(s);
}

/// The reset sequence fills no cell and ends no line.
proof fn lemma_reset_unseen()
    ensures
        glyph_count(RESET@) == 0,
        break_count(RESET@) == 0,
{
    lemma_constants();
    lemma_unseen(RESET@);
}

/// A glyph on its own fills one cell and ends no line.
proof fn lemma_glyph_alone(s: Seq<char>)
    requires
        s == BLANK@ || s == UPPER_HALF_BLOCK@ || s == LOWER_HALF_BLOCK@,
    ensures
        glyph_count(s) == 1,
        break_count(s) == 0,
{
    lemma_constants();
    lemma_count_single(s, glyphs());
    lemma_count_single(s, line_breaks());
}

/// Whatever the two pixels are, their cell fills exactly one cell of the
/// terminal, and does not end the line.
pub proof fn lemma_half_block_cell_counts(upper: Pixel, lower: Pixel)
    ensures
        glyph_count(half_block_cell(upper, lower)) == 1,
        break_count(half_block_cell(upper, lower)) == 0,
{
    lemma_reset_unseen();
    lemma_glyph_alone(BLANK@);
    lemma_glyph_alone(UPPER_HALF_BLOCK@);
    lemma_glyph_alone(LOWER_HALF_BLOCK@);
    lemma_color_sequence(FOREGROUND_PREFIX@, upper);
    lemma_color_sequence(FOREGROUND_PREFIX@, lower);
    lemma_color_sequence(BACKGROUND_PREFIX@, lower);
    if upper.transparent() && lower.transparent() {
    } else if upper.transparent() {
        lemma_count_three(foreground(lower), LOWER_HALF_BLOCK@, RESET@, glyphs());
        lemma_count_three(foreground(lower), LOWER_HALF_BLOCK@, RESET@, line_breaks());
    } else if lower.transparent() {
        lemma_count_three(foreground(upper), UPPER_HALF_BLOCK@, RESET@, glyphs());
        lemma_count_three(foreground(upper), UPPER_HALF_BLOCK@, RESET@, line_breaks());
    } else {
        let colours = foreground(upper) + background(lower);
        lemma_count_add(foreground(upper), background(lower), glyphs());
        lemma_count_add(foreground(upper), background(lower), line_breaks());
        lemma_count_three(colours, UPPER_HALF_BLOCK@, RESET@, glyphs());
        lemma_count_three(colours, UPPER_HALF_BLOCK@, RESET@, line_breaks());
    }
}

/// Whatever the pixel is, its cell fills exactly one cell of the
/// terminal, and does not end the line.
pub proof fn lemma_full_block_cell_counts(p: Pixel)
    ensures
        glyph_count(full_block_cell(p)) == 1,
        break_count(full_block_cell(p)) == 0,
{
    lemma_reset_unseen();
    lemma_glyph_alone(BLANK@);
    lemma_color_sequence(BACKGROUND_PREFIX@, p);
    if !p.transparent() {
        lemma_count_three(background(p), BLANK@, RESET@, glyphs());
        lemma_count_three(background(p), BLANK@, RESET@, line_breaks());
    }
}

/// A line fills as many cells of the terminal as the grid has columns,
/// and holds no line break.
pub proof fn lemma_line_counts(g: GridView, mode: RenderMode, row: int)
    ensures
        art_line_cells(g, mode, row).len() == g.width,
        glyph_count(art_line(g, mode, row)) == g.width,
        break_count(art_line(g, mode, row)) == 0,
{
    let cells = art_line_cells(g, mode, row);
    assert forall|x: int| 0 <= x < cells.len() implies glyph_count(#[trigger] cells[x]) == 1
        && break_count(cells[x]) == 0 by {
        match mode {
            RenderMode::HalfBlock => {
                lemma_half_block_cell_counts(g.at(x, 2 * row), g.at_or_clear(x, 2 * row + 1));
            },
            RenderMode::FullBlock => {
                lemma_full_block_cell_counts(g.at(x, row));
            },
        }
    }
    lemma_count_flatten(cells, glyphs(), 1, cells.len() as int);
    lemma_count_flatten(cells, line_breaks(), 0, cells.len() as int);
    assert(cells.take(cells.len() as int) =~= cells);
    assert(cells.len() * 1 == cells.len()) by (nonlinear_arith);
    assert(cells.len() * 0 == 0) by (nonlinear_arith);
}

/// The art of a grid has one line for every two rows of pixels with half
/// blocks, hence half as many lines as rows where their number is even,
/// and one line per row with full blocks. Every line is made of as many
/// cells as the grid has columns, and fills that many cells of the
/// terminal, the escape sequences left out of the count.
pub proof fn lemma_art_shape(g: GridView, mode: RenderMode)
    ensures
        art_lines(g, mode).len() == line_count(g, mode),
        mode == RenderMode::HalfBlock && g.height % 2 == 0 ==> art_lines(g, mode).len() == g.height
            / 2,
        mode == RenderMode::FullBlock ==> art_lines(g, mode).len() == g.height,
        forall|row: int|
            0 <= row < line_count(g, mode) ==> {
                &&& (#[trigger] art_lines(g, mode)[row]) == art_line(g, mode, row)
                &&& art_line_cells(g, mode, row).len() == g.width
                &&& glyph_count(art_line(g, mode, row)) == g.width
            },
{
    assert forall|row: int| 0 <= row < line_count(g, mode) implies {
        &&& (#[trigger] art_lines(g, mode)[row]) == art_line(g, mode, row)
        &&& art_line_cells(g, mode, row).len() == g.width
        &&& glyph_count(art_line(g, mode, row)) == g.width
    } by {
        lemma_line_counts(g, mode, row);
    }
}

/// The art as one text has as many line breaks as the art has lines:
/// none stands inside a line.
pub proof fn lemma_art_text_breaks(g: GridView, mode: RenderMode)
    ensures
        break_count(art_text(g, mode)) == line_count(g, mode),
        mode == RenderMode::HalfBlock && g.height % 2 == 0 ==> break_count(art_text(g, mode))
            == g.height / 2,
{
    lemma_constants();
    let lines = art_lines(g, mode);
    let ended = lines.map_values(|l: Seq<char>| l + LINE_BREAK@);
    assert forall|row: int| 0 <= row < ended.len() implies break_count(#[trigger] ended[row])
        == 1 by {
        lemma_line_counts(g, mode, row);
        lemma_count_single(LINE_BREAK@, line_breaks());
        lemma_count_add(lines[row], LINE_BREAK@, line_breaks());
    }
    lemma_count_flatten(ended, line_breaks(), 1, ended.len() as int);
    assert(ended.take(ended.len() as int) =~= ended);
    assert(ended.len() * 1 == ended.len()) by (nonlinear_arith);
}

/// Two fully transparent pixels give a single blank, with no escape
/// sequence.
pub proof fn lemma_transparent_pair(upper: Pixel, lower: Pixel)
    requires
        upper.a == 0,
        lower.a == 0,
    ensures
        half_block_cell(upper, lower) == seq![' '],
{
    lemma_constants();
}

/// Where only the upper pixel shows, the cell is the upper half block in
/// the colour of that pixel, followed by a reset, and nothing in it sets
/// a background.
pub proof fn lemma_upper_only(upper: Pixel, lower: Pixel)
    requires
        upper.a != 0,
        lower.a == 0,
    ensures
        half_block_cell(upper, lower) == foreground(upper) + seq!['\u{2580}'] + RESET@,
        !occurs(half_block_cell(upper, lower), BACKGROUND_PREFIX@),
{
    lemma_constants();
    lemma_foreground_only(upper, UPPER_HALF_BLOCK@);
}

/// Where only the lower pixel shows, the cell is the lower half block in
/// the colour of that pixel, followed by a reset, and nothing in it sets
/// a background.
pub proof fn lemma_lower_only(upper: Pixel, lower: Pixel)
    requires
        upper.a == 0,
        lower.a != 0,
    ensures
        half_block_cell(upper, lower) == foreground(lower) + seq!['\u{2584}'] + RESET@,
        !occurs(half_block_cell(upper, lower), BACKGROUND_PREFIX@),
{
    lemma_constants();
    lemma_foreground_only(lower, LOWER_HALF_BLOCK@);
}

/// Where both pixels show, the cell is the upper half block between the
/// two escape sequences that set the foreground to the upper colour and
/// the background to the lower one, and a reset.
pub proof fn lemma_both_opaque(upper: Pixel, lower: Pixel)
    requires
        upper.a != 0,
        lower.a != 0,
    ensures
        half_block_cell(upper, lower) == foreground(upper) + background(lower) + seq!['\u{2580}']
            + RESET@,
        occurs_at(half_block_cell(upper, lower), foreground(upper), 0),
        occurs_at(
            half_block_cell(upper, lower),
            background(lower),
            foreground(upper).len() as int,
        ),
{
    lemma_constants();
    let f = foreground(upper);
    let b = background(lower);
    let cell = half_block_cell(upper, lower);
    assert(cell =~= f + b + seq!['\u{2580}'] + RESET@);
    assert(cell.subrange(0, f.len() as int) =~= f);
    assert(cell.subrange(f.len() as int, (f.len() + b.len()) as int) =~= b);
}

/// Where the number of rows is odd, the last line shows the last row
/// alone, as if a fully transparent row followed it: each of its cells is
/// a blank or an upper half block, and nothing in it sets a background.
pub proof fn lemma_unpaired_row(g: GridView, x: int)
    requires
        g.height % 2 == 1,
        0 <= x < g.width,
    ensures
        line_count(g, RenderMode::HalfBlock) == g.height / 2 + 1,
        art_cell(g, RenderMode::HalfBlock, x, g.height as int / 2) == half_block_cell(
            g.at(x, g.height - 1),
            Pixel::clear(),
        ),
        !occurs(art_cell(g, RenderMode::HalfBlock, x, g.height as int / 2), BACKGROUND_PREFIX@),
{
    let last = g.at(x, g.height - 1);
    lemma_constants();
    if last.transparent() {
        let cell = half_block_cell(last, Pixel::clear());
        assert forall|i: int| !occurs_at(cell, BACKGROUND_PREFIX@, i) by {}
    } else {
        lemma_upper_only(last, Pixel::clear());
    }
}

/// A foreground colour, one half block and a reset hold no sequence that
/// sets a background.
proof fn lemma_foreground_only(p: Pixel, glyph: Seq<char>)
    requires
        glyph == UPPER_HALF_BLOCK@ || glyph == LOWER_HALF_BLOCK@,
    ensures
        !occurs(foreground(p) + glyph + RESET@, BACKGROUND_PREFIX@),
{
    lemma_constants();
    lemma_color_sequence(FOREGROUND_PREFIX@, p);
    let f = foreground(p);
    let s = f + glyph + RESET@;
    let pattern = BACKGROUND_PREFIX@;
    assert forall|i: int| !occurs_at(s, pattern, i) by {
        if occurs_at(s, pattern, i) {
            let part = s.subrange(i, i + 7);
            assert(part[0] == '\x1B' && part[2] == '4');
            assert(s[i] == '\x1B' && s[i + 2] == '4');
            if i == 0 {
                assert(s[2] == f[2]);
            } else if i < f.len() {
                assert(s[i] == f[i]);
            } else if i == f.len() {
                assert(s[i] == glyph[0]);
            } else {
                assert(i + 7 > s.len());
            }
        }
    }
}

} // verus!
