//! Two read-only lookup services over hardcoded catalogs: planets of the solar
//! system and Pokémon species, each described in several languages.
pub mod catalog;
pub mod planets;
pub mod species;

pub use planets::{get_planet, State};
pub use species::get_pokemon_species;
