use pokedex::entities::{PokemonName, PokemonNumber, PokemonTypes};
use pokedex::fetch_all_pokemons::{execute, Error};
use pokedex::inmemory_pokemon::InMemoryRepository;
use pokedex::repository::Repository;

#[test]
fn fetch_all_pokemons_it_should_return_an_error_when_an_unexpected_error_happens() {
    let repo = InMemoryRepository::new().with_error();

    let res = execute(&repo);

    assert!(matches!(res, Err(Error::Unknown)), "didn't returned error");
}

#[test]
fn it_should_return_all_pokemon_in_repository() {
    let mut repo = InMemoryRepository::new();
    repo.insert(
        PokemonNumber::pikachu(),
        PokemonName::pikachu(),
        PokemonTypes::pikachu(),
    )
    .expect("error inserting pikachu");
    repo.insert(
        PokemonNumber::vulpix(),
        PokemonName::vulpix(),
        PokemonTypes::vulpix(),
    )
    .expect("error inserting vulpix");

    let res = execute(&repo).expect("execute returned an error");

    assert_eq!(res[0].number, 25);
    assert_eq!(res[0].name, "Pikachu".to_owned());
    assert_eq!(res[0].types, vec!["Electric".to_owned()]);

    assert_eq!(res[1].number, 37);
    assert_eq!(res[1].name, "Vulpix".to_owned());
    assert_eq!(res[1].types, vec!["Fire".to_owned()]);
}
