//! The plain presentation of a record: one field per line.

use vstd::prelude::*;
use crate::decimal::{append_decimal, append_tenths, decimal, tenths};
use crate::record::Pokemon;
use crate::text::{break_lines, broken_lines};

verus! {

/// Stands before the number.
pub const ID_LABEL: &'static str = "id: ";

/// Stands before the name.
pub const NAME_LABEL: &'static str = "name: ";

/// Stands before the weight.
pub const WEIGHT_LABEL: &'static str = "weight: ";

/// Stands before the height.
pub const HEIGHT_LABEL: &'static str = "height: ";

/// Stands before the address of the sprite.
pub const SPRITE_LABEL: &'static str = "sprite url: ";

/// The unit of a weight.
pub const WEIGHT_UNIT: &'static str = "kg";

/// The unit of a height.
pub const HEIGHT_UNIT: &'static str = "m";

/// A weight of `tenths_of_kg` tenths of a kilogram, in kilograms with one
/// decimal place and the unit.
pub open spec fn weight_text(tenths_of_kg: nat) -> Seq<char> {
    tenths(tenths_of_kg) + WEIGHT_UNIT@
}

/// A height of `tenths_of_m` tenths of a metre, in metres with one
/// decimal place and the unit.
pub open spec fn height_text(tenths_of_m: nat) -> Seq<char> {
    tenths(tenths_of_m) + HEIGHT_UNIT@
}

/// The five lines of the plain presentation: number, name, weight,
/// height and the address of the sprite, each after its label.
pub open spec fn plain_fields(pokemon: Pokemon) -> Seq<Seq<char>> {
    seq![
        ID_LABEL@ + decimal(pokemon.id as nat),
        NAME_LABEL@ + pokemon.name@,
        WEIGHT_LABEL@ + weight_text(pokemon.weight as nat),
        HEIGHT_LABEL@ + height_text(pokemon.height as nat),
        SPRITE_LABEL@ + pokemon.sprite_url@,
    ]
}

/// A weight in kilograms with one decimal place and the unit.
pub fn format_weight(tenths_of_kg: u16) -> (text: String)
    ensures
        text@ == weight_text(tenths_of_kg as nat),
{
    let mut text = String::new();
    append_tenths(&mut text, tenths_of_kg);
    text.append(WEIGHT_UNIT);
    assert(text@ =~= weight_text(tenths_of_kg as nat));
    text
}

/// A height in metres with one decimal place and the unit.
pub fn format_height(tenths_of_m: u16) -> (text: String)
    ensures
        text@ == height_text(tenths_of_m as nat),
{
    let mut text = String::new();
    append_tenths(&mut text, tenths_of_m);
    text.append(HEIGHT_UNIT);
    assert(text@ =~= height_text(tenths_of_m as nat));
    text
}

/// The lines of the plain presentation of `pokemon`.
pub fn plain_lines(pokemon: &Pokemon) -> (lines: Vec<String>)
    ensures
        lines.deep_view() == plain_fields(*pokemon),
{
    let mut id = String::new();
    id.append(ID_LABEL);
    append_decimal(&mut id, pokemon.id as u32);

    let mut name = String::new();
    name.append(NAME_LABEL);
    name.append(pokemon.name.as_str());

    let mut weight = String::new();
    weight.append(WEIGHT_LABEL);
    weight.append(format_weight(pokemon.weight).as_str());

    let mut height = String::new();
    height.append(HEIGHT_LABEL);
    height.append(format_height(pokemon.height).as_str());

    let mut sprite = String::new();
    sprite.append(SPRITE_LABEL);
    sprite.append(pokemon.sprite_url.as_str());

    proof {
        let fields = plain_fields(*pokemon);
        assert(id@ =~= fields[0]);
        assert(name@ =~= fields[1]);
        assert(weight@ =~= fields[2]);
        assert(height@ =~= fields[3]);
        assert(sprite@ =~= fields[4]);
    }
    let mut lines: Vec<String> = Vec::new();
    lines.push(id);
    lines.push(name);
    lines.push(weight);
    lines.push(height);
    lines.push(sprite);
    assert(lines.deep_view() =~= plain_fields(*pokemon));
    lines
}

/// The plain presentation of `pokemon` as one text, a line break after
/// each of its lines.
pub fn plain_text(pokemon: &Pokemon) -> (text: String)
    ensures
        text@ == broken_lines(plain_fields(*pokemon)),
{
    let lines = plain_lines(pokemon);
    break_lines(&lines)
}

} // verus!
