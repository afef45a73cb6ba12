use pokedex::create_pokemon::{execute, Error, Request};
use pokedex::entities::{PokemonName, PokemonNumber, PokemonTypes};
use pokedex::inmemory_pokemon::InMemoryRepository;
use pokedex::repository::Repository;

#[test]
fn it_should_return_the_pokemon_otherwise() {
    let mut repo = InMemoryRepository::new();
    let req = Request {
        number: 25,
        name: String::from("Pikachu"),
        types: vec![String::from("Electric")],
    };

    let res = execute(&mut repo, req);

    match res {
        Ok(res) => {
            assert_eq!(res.number, 25);
            assert_eq!(res.name, "Pikachu".to_owned());
            assert_eq!(res.types, vec!["Electric".to_owned()]);
        }
        _ => unreachable!("execute returned an error"),
    }
}

#[test]
fn it_should_return_a_bad_request_error_when_request_is_invalid() {
    let mut repo = InMemoryRepository::new();
    let req = Request {
        number: 25,
        name: String::from(""),
        types: vec![String::from("Electric")],
    };

    let res = execute(&mut repo, req);

    match res {
        Err(Error::BadRequest) => {}
        _ => unreachable!(),
    };
}

#[test]
fn it_should_return_a_conflict_error_when_pokemon_already_exists() {
    let mut repo = InMemoryRepository::new();
    let number = PokemonNumber::pikachu();
    let name = PokemonName::pikachu();
    let types = PokemonTypes::pikachu();
    repo.insert(number, name, types).ok();

    let req = Request {
        number: 25,
        name: String::from("Charmander"),
        types: vec![String::from("Fire")],
    };
    let res = execute(&mut repo, req);

    assert!(
        matches!(res, Err(Error::Conflict)),
        "execute didn't return conflict"
    );
}

#[test]
fn create_pokemon_it_should_return_an_error_when_an_unexpected_error_happens() {
    let mut repo = InMemoryRepository::new().with_error();
    let number = 25;
    let req = Request {
        number,
        name: String::from("Pikachu"),
        types: vec![String::from("Electric")],
    };

    let res = execute(&mut repo, req);

    match res {
        Err(Error::Unknown) => {}
        _ => unreachable!(),
    }
}
