//! The course of a run, between its requests: what to ask for next, and
//! what to print in the end.

use vstd::prelude::*;
use crate::failure::{Failure, INCONSISTENT_MESSAGE};
use crate::pixel::{rgba_pixels, GridView, PixelGrid};
use crate::present::{plain_fields, plain_text};
use crate::record::Pokemon;
use crate::render::{art_text, render, RenderMode};
use crate::request::{metadata_address, metadata_url, sprite_address, sprite_url, SpriteSource};
use crate::sprite::{decode_sprite, decoded_image};
use crate::table::{layout, render_table, rendered_table, TableVariant, COLUMN_LIMIT};
use crate::text::{broken_lines, lowercase, uppercase};

verus! {

/// How a record is shown.
#[derive(Clone, Copy, Debug, PartialEq, Eq, Structural)]
pub enum Presentation {
    /// The fields, line by line. No sprite is fetched.
    Plain,
    /// A bordered table with the sprite art below the facts.
    Table { variant: TableVariant, blocks: RenderMode, source: SpriteSource },
}

/// What is to be done once the record is there.
#[derive(Debug)]
pub enum Next {
    /// The run is over: print the text.
    Show { text: String },
    /// Fetch the sprite from the address, and go on with its bytes.
    FetchSprite { url: String, variant: TableVariant, blocks: RenderMode },
}

/// The table for `pokemon` with the art of `grid`, as one text.
pub open spec fn table_text(
    pokemon: Pokemon,
    grid: GridView,
    blocks: RenderMode,
    variant: TableVariant,
) -> Seq<char> {
    rendered_table(
        layout(pokemon, uppercase(pokemon.name@), art_text(grid, blocks), variant),
        COLUMN_LIMIT as nat,
    )
}

/// How a run begins: with the address of the record for the name or
/// number that was given, or with its failure where none was.
pub fn begin(search: Option<&str>) -> (first: Result<String, Failure>)
    ensures
        match search {
            Some(term) => first matches Ok(url) && url@ == metadata_address(lowercase(term@)),
            None => first matches Err(Failure::ArgumentMissing),
        },
{
    match search {
        Some(term) => Ok(metadata_url(term)),
        None => Err(Failure::ArgumentMissing),
    }
}

/// What follows the record: the plain presentation at once, or the
/// request for the sprite that the table needs.
pub fn after_record(pokemon: &Pokemon, presentation: Presentation) -> (next: Next)
    ensures
        match presentation {
            Presentation::Plain => next matches Next::Show { text } && text@ == broken_lines(
                plain_fields(*pokemon),
            ),
            Presentation::Table { variant, blocks, source } => next matches Next::FetchSprite {
                url,
                variant: v,
                blocks: b,
            } && url@ == sprite_address(*pokemon, source) && v == variant && b == blocks,
        },
{
    match presentation {
        Presentation::Plain => Next::Show { text: plain_text(pokemon) },
        Presentation::Table { variant, blocks, source } => Next::FetchSprite {
            url: sprite_url(pokemon, source),
            variant,
            blocks,
        },
    }
}

/// The table for `pokemon` with the art of `grid`.
pub fn table_with_art(
    pokemon: &Pokemon,
    grid: &PixelGrid,
    blocks: RenderMode,
    variant: TableVariant,
) -> (text: String)
    ensures
        text@ == table_text(*pokemon, grid@, blocks, variant),
{
    let art = render(grid, blocks);
    render_table(pokemon, art.as_str(), variant)
}

/// What follows the bytes of the sprite: the table to print, or the
/// failure of the run where the bytes are no image.
pub fn after_sprite(
    pokemon: &Pokemon,
    bytes: &[u8],
    blocks: RenderMode,
    variant: TableVariant,
) -> (outcome: Result<String, Failure>)
    ensures
        match decoded_image(bytes@) {
            Some((width, height, data)) => if data.len() == 4 * (width * height) {
                outcome matches Ok(text) && text@ == table_text(
                    *pokemon,
                    GridView {
                        width: width as nat,
                        height: height as nat,
                        pixels: rgba_pixels(data),
                    },
                    blocks,
                    variant,
                )
            } else {
                outcome matches Err(Failure::Decode { reason }) && reason@
                    == INCONSISTENT_MESSAGE@
            },
            None => outcome matches Err(Failure::Decode { .. }),
        },
{
    match decode_sprite(bytes) {
        Ok(grid) => Ok(table_with_art(pokemon, &grid, blocks, variant)),
        Err(error) => Err(Failure::from_decode(error)),
    }
}

} // verus!
