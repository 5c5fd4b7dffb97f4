//! The record of one creature, as the metadata service describes it.

use vstd::prelude::*;
use crate::text::{join, join_strings};

verus! {

/// Stands between two type names in a list.
pub const TYPE_SEPARATOR: &'static str = ", ";

/// A named entry of the service, with the address of its own record.
#[derive(Debug)]
pub struct NamedAPIResource {
    pub name: String,
    pub url: String,
}

/// One type of a creature, with its place among the creature's types.
#[derive(Debug)]
pub struct PokemonType {
    pub slot: u8,
    pub kind: NamedAPIResource,
}

/// What is known of a creature. Weight is in tenths of a kilogram, height
/// in tenths of a metre.
#[derive(Debug)]
pub struct Pokemon {
    pub id: u16,
    pub name: String,
    pub weight: u16,
    pub height: u16,
    pub sprite_url: String,
    pub types: Vec<PokemonType>,
}

/// The names of the given types, in their order.
pub open spec fn type_names(types: Seq<PokemonType>) -> Seq<Seq<char>> {
    Seq::new(types.len(), |i: int| types[i].kind.name@)
}

/// The names of the given types in one text, in their order, a comma
/// and a blank between each two.
pub open spec fn type_list(types: Seq<PokemonType>) -> Seq<char> {
    join(type_names(types), TYPE_SEPARATOR@)
}

/// The names of the given types in one text, in their order, a comma and
/// a blank between each two. A single type gives its name alone, no type
/// the empty text.
pub fn get_pokemon_types_str(types: Vec<PokemonType>) -> (list: String)
    ensures
        list@ == type_list(types@),
        types@.len() == 0 ==> list@ == Seq::<char>::empty(),
        types@.len() == 1 ==> list@ == types@[0].kind.name@,
{
    type_list_text(&types)
}

/// As `get_pokemon_types_str`, for types that the caller keeps.
pub fn type_list_text(types: &Vec<PokemonType>) -> (list: String)
    ensures
        list@ == type_list(types@),
        types@.len() == 0 ==> list@ == Seq::<char>::empty(),
        types@.len() == 1 ==> list@ == types@[0].kind.name@,
{
    let mut simplified_types: Vec<String> = Vec::new();
    let mut i: usize = 0;
    while i < types.len()
        invariant
            i <= types.len(),
            simplified_types@.len() == i,
            forall|j: int|
                0 <= j < i ==> (#[trigger] simplified_types@[j])@ == types@[j].kind.name@,
        decreases types.len() - i,
    {
        simplified_types.push(types[i].kind.name.clone());
        i = i + 1;
    }
    assert(simplified_types.deep_view() =~= type_names(types@));
    join_strings(&simplified_types, TYPE_SEPARATOR)
}

} // verus!
