pub mod entities;
pub mod repository;
pub mod inmemory_pokemon;
pub mod create_pokemon;
pub mod fetch_pokemon;
pub mod fetch_all_pokemons;
pub mod delete_pokemon;
pub mod sqlite_pokemon;
pub mod airtable_pokemon;
