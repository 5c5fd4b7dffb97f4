//! The addresses from which a record and its sprite are fetched.

use vstd::prelude::*;
use crate::record::Pokemon;
use crate::text::lowercase;

verus! {

/// The address of the metadata service, up to the name or number of the
/// creature.
pub const METADATA_ENDPOINT: &'static str = "https://pokeapi.co/api/v2/pokemon/";

/// The address of the icon mirror, up to the name of the creature.
pub const ICON_ENDPOINT: &'static str = "https://img.pokemondb.net/sprites/sword-shield/icon/";

/// What follows the name in an address of the icon mirror.
pub const ICON_SUFFIX: &'static str = ".png";

/// Where the sprite of a creature is taken from.
#[derive(Clone, Copy, Debug, PartialEq, Eq, Structural)]
pub enum SpriteSource {
    /// The address that the record itself gives.
    FrontDefault,
    /// The icon mirror, by the creature's name.
    IconMirror,
}

/// The address of the record for a search term that is in lower case.
pub open spec fn metadata_address(term: Seq<char>) -> Seq<char> {
    METADATA_ENDPOINT@ + term
}

/// The address of the sprite of `pokemon` at `source`.
pub open spec fn sprite_address(pokemon: Pokemon, source: SpriteSource) -> Seq<char> {
    match source {
        SpriteSource::FrontDefault => pokemon.sprite_url@,
        SpriteSource::IconMirror => ICON_ENDPOINT@ + pokemon.name@ + ICON_SUFFIX@,
    }
}

/// The address of the record for `term`, which is taken as it is.
pub fn metadata_url_for(term: &str) -> (url: String)
    ensures
        url@ == metadata_address(term@),
{
    let mut url = String::new();
    url.append(METADATA_ENDPOINT);
    url.append(term);
    assert(url@ =~= metadata_address(term@));
    url
}

/// The address of the record for the name or number `search`, which may
/// be written in either case: the service is asked in lower case.
pub fn metadata_url(search: &str) -> (url: String)
    ensures
        url@ == metadata_address(lowercase(search@)),
{
    let term = search.to_lowercase();
    metadata_url_for(term.as_str())
}

/// The address of the sprite of `pokemon` at `source`.
pub fn sprite_url(pokemon: &Pokemon, source: SpriteSource) -> (url: String)
    ensures
        url@ == sprite_address(*pokemon, source),
{
    match source {
        SpriteSource::FrontDefault => pokemon.sprite_url.clone(),
        SpriteSource::IconMirror => {
            let mut url = String::new();
            url.append(ICON_ENDPOINT);
            url.append(pokemon.name.as_str());
            url.append(ICON_SUFFIX);
            assert(url@ =~= sprite_address(*pokemon, source));
            url
        },
    }
}

} // verus!
