//! Sprite art for text terminals: every character cell shows one pixel, or
//! two pixels stacked with the help of half-block glyphs, coloured by SGR
//! escape sequences.

use vstd::prelude::*;
use crate::decimal::{append_decimal, decimal};
use crate::pixel::{GridView, Pixel, PixelGrid};
use crate::text::{break_lines, broken_lines, lemma_flatten_take_next};

verus! {

/// The glyph that fills the upper half of a character cell.
pub const UPPER_HALF_BLOCK: &'static str = "\u{2580}";

/// The glyph that fills the lower half of a character cell.
pub const LOWER_HALF_BLOCK: &'static str = "\u{2584}";

/// The glyph of an empty cell.
pub const BLANK: &'static str = " ";

/// Opens the escape sequence that sets a 24-bit foreground colour.
pub const FOREGROUND_PREFIX: &'static str = "\x1B[38;2;";

/// Opens the escape sequence that sets a 24-bit background colour.
pub const BACKGROUND_PREFIX: &'static str = "\x1B[48;2;";

/// Stands between the channels of a colour.
pub const CHANNEL_SEPARATOR: &'static str = ";";

/// Closes an escape sequence that sets a colour.
pub const COLOR_SUFFIX: &'static str = "m";

/// The escape sequence that puts all styling back to the default.
pub const RESET: &'static str = "\x1B[0m";

/// How pixels are laid onto character cells.
#[derive(Clone, Copy, Debug, PartialEq, Eq, Structural)]
pub enum RenderMode {
    /// Two pixels per cell, one above the other.
    HalfBlock,
    /// One pixel per cell, shown as a coloured blank.
    FullBlock,
}

/// The three channels of a colour in decimal, as an escape sequence
/// takes them.
pub open spec fn channels(p: Pixel) -> Seq<char> {
    decimal(p.r as nat) + CHANNEL_SEPARATOR@ + decimal(p.g as nat) + CHANNEL_SEPARATOR@ + decimal(
        p.b as nat,
    )
}

/// The escape sequence that sets the foreground to the colour of `p`.
pub open spec fn foreground(p: Pixel) -> Seq<char> {
    FOREGROUND_PREFIX@ + channels(p) + COLOR_SUFFIX@
}

/// The escape sequence that sets the background to the colour of `p`.
pub open spec fn background(p: Pixel) -> Seq<char> {
    BACKGROUND_PREFIX@ + channels(p) + COLOR_SUFFIX@
}

/// The cell that shows `upper` above `lower`. The first case that
/// applies decides: both transparent, a blank without any escape
/// sequence; only the lower one visible, a lower half block in its
/// colour; only the upper one visible, an upper half block in its colour;
/// both visible, an upper half block in the upper colour on a background
/// in the lower colour. A coloured cell ends with a reset.
pub open spec fn half_block_cell(upper: Pixel, lower: Pixel) -> Seq<char> {
    if upper.transparent() && lower.transparent() {
        BLANK@
    } else if upper.transparent() {
        foreground(lower) + LOWER_HALF_BLOCK@ + RESET@
    } else if lower.transparent() {
        foreground(upper) + UPPER_HALF_BLOCK@ + RESET@
    } else {
        foreground(upper) + background(lower) + UPPER_HALF_BLOCK@ + RESET@
    }
}

/// The cell that shows `p` alone: a blank, on a background in the
/// pixel's colour unless the pixel is transparent.
pub open spec fn full_block_cell(p: Pixel) -> Seq<char> {
    if p.transparent() {
        BLANK@
    } else {
        background(p) + BLANK@ + RESET@
    }
}

/// The number of lines that the art of `g` has. With half blocks a line
/// takes two rows of pixels, and a last row without a partner still gets
/// its line.
pub open spec fn line_count(g: GridView, mode: RenderMode) -> nat {
    match mode {
        RenderMode::HalfBlock => (g.height + 1) / 2,
        RenderMode::FullBlock => g.height,
    }
}

/// The cell in column `x` of line `row`. With half blocks it shows the
/// pixels of rows `2 * row` and `2 * row + 1`; where the grid ends after
/// the first of the two, the second counts as fully transparent.
pub open spec fn art_cell(g: GridView, mode: RenderMode, x: int, row: int) -> Seq<char> {
    match mode {
        RenderMode::HalfBlock => half_block_cell(g.at(x, 2 * row), g.at_or_clear(x, 2 * row + 1)),
        RenderMode::FullBlock => full_block_cell(g.at(x, row)),
    }
}

/// The cells of line `row`, from left to right: one per column.
pub open spec fn art_line_cells(g: GridView, mode: RenderMode, row: int) -> Seq<Seq<char>> {
    Seq::new(g.width, |x: int| art_cell(g, mode, x, row))
}

/// Line `row` of the art, without a line break.
pub open spec fn art_line(g: GridView, mode: RenderMode, row: int) -> Seq<char> {
    art_line_cells(g, mode, row).flatten()
}

/// The lines of the art, from top to bottom.
pub open spec fn art_lines(g: GridView, mode: RenderMode) -> Seq<Seq<char>> {
    Seq::new(line_count(g, mode), |row: int| art_line(g, mode, row))
}

/// The art as one text.
pub open spec fn art_text(g: GridView, mode: RenderMode) -> Seq<char> {
    broken_lines(art_lines(g, mode))
}

/// Appends the three channels of `p`.
fn append_channels(out: &mut String, p: Pixel)
    ensures
        final(out)@ == old(out)@ + channels(p),
{
    append_decimal(out, p.r as u32);
    out.append(CHANNEL_SEPARATOR);
    append_decimal(out, p.g as u32);
    out.append(CHANNEL_SEPARATOR);
    append_decimal(out, p.b as u32);
    assert(out@ =~= old(out)@ + channels(p));
}

/// Appends the escape sequence for a foreground in the colour of `p`.
pub fn append_foreground(out: &mut String, p: Pixel)
    ensures
        final(out)@ == old(out)@ + foreground(p),
{
    out.append(FOREGROUND_PREFIX);
    append_channels(out, p);
    out.append(COLOR_SUFFIX);
    assert(out@ =~= old(out)@ + foreground(p));
}

/// Appends the escape sequence for a background in the colour of `p`.
pub fn append_background(out: &mut String, p: Pixel)
    ensures
        final(out)@ == old(out)@ + background(p),
{
    out.append(BACKGROUND_PREFIX);
    append_channels(out, p);
    out.append(COLOR_SUFFIX);
    assert(out@ =~= old(out)@ + background(p));
}

/// Appends the cell that shows `upper` above `lower`.
pub fn append_half_block_cell(out: &mut String, upper: Pixel, lower: Pixel)
    ensures
        final(out)@ == old(out)@ + half_block_cell(upper, lower),
{
    if upper.is_transparent() && lower.is_transparent() {
        out.append(BLANK);
    } else if upper.is_transparent() {
        append_foreground(out, lower);
        out.append(LOWER_HALF_BLOCK);
        out.append(RESET);
    } else if lower.is_transparent() {
        append_foreground(out, upper);
        out.append(UPPER_HALF_BLOCK);
        out.append(RESET);
    } else {
        append_foreground(out, upper);
        append_background(out, lower);
        out.append(UPPER_HALF_BLOCK);
        out.append(RESET);
    }
    assert(out@ =~= old(out)@ + half_block_cell(upper, lower));
}

/// Appends the cell that shows `p` alone.
pub fn append_full_block_cell(out: &mut String, p: Pixel)
    ensures
        final(out)@ == old(out)@ + full_block_cell(p),
{
    if p.is_transparent() {
        out.append(BLANK);
    } else {
        append_background(out, p);
        out.append(BLANK);
        out.append(RESET);
    }
    assert(out@ =~= old(out)@ + full_block_cell(p));
}

/// The cell that shows `upper` above `lower`.
pub fn half_block_cell_text(upper: Pixel, lower: Pixel) -> (cell: String)
    ensures
        cell@ == half_block_cell(upper, lower),
{
    let mut cell = String::new();
    append_half_block_cell(&mut cell, upper, lower);
    assert(cell@ =~= half_block_cell(upper, lower));
    cell
}

/// The cell that shows `p` alone.
pub fn full_block_cell_text(p: Pixel) -> (cell: String)
    ensures
        cell@ == full_block_cell(p),
{
    let mut cell = String::new();
    append_full_block_cell(&mut cell, p);
    assert(cell@ =~= full_block_cell(p));
    cell
}

/// Line `row` of the art of `grid`, without a line break.
pub fn render_line(grid: &PixelGrid, mode: RenderMode, row: u32) -> (line: String)
    requires
        row < line_count(grid@, mode),
    ensures
        line@ == art_line(grid@, mode, row as int),
{
    let width = grid.width();
    let height = grid.height();
    let ghost cells = art_line_cells(grid@, mode, row as int);
    let mut line = String::new();
    let mut x: u32 = 0;
    while x < width
        invariant
            x <= width,
            width == grid@.width,
            height == grid@.height,
            row < line_count(grid@, mode),
            cells == art_line_cells(grid@, mode, row as int),
            line@ == cells.take(x as int).flatten(),
        decreases width - x,
    {
        match mode {
            RenderMode::HalfBlock => {
                let upper = grid.get_pixel(x, 2 * row);
                let lower = grid.pixel_or_clear(x, 2 * row + 1);
                append_half_block_cell(&mut line, upper, lower);
            },
            RenderMode::FullBlock => {
                let p = grid.get_pixel(x, row);
                append_full_block_cell(&mut line, p);
            },
        }
        proof {
            lemma_flatten_take_next(cells, x as int);
        }
        x = x + 1;
    }
    assert(cells.take(width as int) =~= cells);
    line
}

/// The number of lines that the art of `grid` has.
pub fn count_lines(grid: &PixelGrid, mode: RenderMode) -> (count: u32)
    ensures
        count == line_count(grid@, mode),
{
    let height = grid.height();
    match mode {
        RenderMode::HalfBlock => height / 2 + height % 2,
        RenderMode::FullBlock => height,
    }
}

/// The art of `grid`, line by line from the top.
pub fn render_lines(grid: &PixelGrid, mode: RenderMode) -> (lines: Vec<String>)
    ensures
        lines@.len() == line_count(grid@, mode),
        lines.deep_view() == art_lines(grid@, mode),
{
    let count = count_lines(grid, mode);
    let mut lines: Vec<String> = Vec::new();
    let mut row: u32 = 0;
    while row < count
        invariant
            row <= count,
            count == line_count(grid@, mode),
            lines@.len() == row,
            forall|j: int| 0 <= j < row ==> (#[trigger] lines@[j])@ == art_line(grid@, mode, j),
        decreases count - row,
    {
        let line = render_line(grid, mode, row);
        lines.push(line);
        row = row + 1;
    }
    assert(lines.deep_view() =~= art_lines(grid@, mode));
    lines
}

/// The art of `grid` as one text, a line break after each line.
pub fn render(grid: &PixelGrid, mode: RenderMode) -> (text: String)
    ensures
        text@ == art_text(grid@, mode),
{
    let lines = render_lines(grid, mode);
    break_lines(&lines)
}

} // verus!
