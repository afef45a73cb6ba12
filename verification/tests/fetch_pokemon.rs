use pokedex::entities::{PokemonName, PokemonNumber, PokemonTypes};
use pokedex::fetch_pokemon::{execute, Error, Request};
use pokedex::inmemory_pokemon::InMemoryRepository;
use pokedex::repository::Repository;

#[test]
fn it_should_return_unknow_error_when_an_unexpected_error_happens() {
    let repo = InMemoryRepository::new().with_error();

    let req = Request::new(25);
    let res = execute(&repo, req);

    assert!(matches!(res, Err(Error::Unknown)))
}

#[test]
fn it_should_return_bad_request_when_request_is_invalid() {
    let repo = InMemoryRepository::new();

    let req = Request::new(0);
    let res = execute(&repo, req);

    assert!(matches!(res, Err(Error::BadRequest)));
}

#[test]
fn it_should_return_not_found_when_request_repo_does_not_contain_pokemon() {
    let repo = InMemoryRepository::new();

    let req = Request::new(25);
    let res = execute(&repo, req);

    assert!(matches!(res, Err(Error::NotFound)));
}

#[test]
fn it_should_return_pokemon_otherwise() {
    let mut repo = InMemoryRepository::new();
    repo.insert(
        PokemonNumber::pikachu(),
        PokemonName::pikachu(),
        PokemonTypes::pikachu(),
    )
    .expect("error inserting pikachu");

    let req = Request::new(25);
    let res = execute(&repo, req).expect("error on execute");

    assert_eq!(res.number, 25);
    assert_eq!(res.name, "Pikachu");
    assert_eq!(res.types, vec!["Electric"]);
}
