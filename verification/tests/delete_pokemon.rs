use pokedex::delete_pokemon::{execute, Error, Request};
use pokedex::entities::{PokemonName, PokemonNumber, PokemonTypes};
use pokedex::inmemory_pokemon::InMemoryRepository;
use pokedex::repository::Repository;

#[test]
fn it_should_return_unknown_error_when_unexpected_error_happens() {
    let mut repo = InMemoryRepository::new().with_error();

    let req = Request { number: 25 };
    let res = execute(&mut repo, req);

    assert!(matches!(res, Err(Error::Unknown)))
}

#[test]
fn it_should_return_bad_request_when_number_is_invalid() {
    let mut repo = InMemoryRepository::new();

    let req = Request { number: 0 };
    let res = execute(&mut repo, req);

    assert!(matches!(res, Err(Error::BadRequest)));
}

#[test]
fn it_should_return_not_found_when_repo_does_not_find_pokemon() {
    let mut repo = InMemoryRepository::new();

    let req = Request { number: 1 };
    let res = execute(&mut repo, req);

    assert!(matches!(res, Err(Error::NotFound)));
}

#[test]
fn it_should_return_ok_when_pokemon_is_deleted() {
    let mut repo = InMemoryRepository::new();
    repo.insert(
        PokemonNumber::vulpix(),
        PokemonName::vulpix(),
        PokemonTypes::vulpix(),
    )
    .expect("error inserting vulpix");
    repo.insert(
        PokemonNumber::pikachu(),
        PokemonName::pikachu(),
        PokemonTypes::pikachu(),
    )
    .expect("error inserting pikachu");

    let req = Request { number: 25 };
    let res = execute(&mut repo, req).expect("error while deleting pikachu");

    let pokemons = repo.fetch_all().expect("error on fetch all pokemons");

    assert!(matches!(res, ()));
    assert_eq!(pokemons.len(), 1);
    assert_eq!(pokemons[0].number, PokemonNumber::vulpix());
}
