use pokedex::create_pokemon;
use pokedex::delete_pokemon;
use pokedex::entities::{PokemonName, PokemonNumber, PokemonTypes};
use pokedex::fetch_all_pokemons;
use pokedex::fetch_pokemon;
use pokedex::inmemory_pokemon::InMemoryRepository;
use pokedex::repository::{DeleteError, FetchAllError, FetchOneError, InsertError, Repository};

#[test]
fn scenario_duplicate_insert_conflicts_and_leaves_the_first_record() {
    let mut repo = InMemoryRepository::new();

    let first = create_pokemon::execute(
        &mut repo,
        create_pokemon::Request {
            number: 25,
            name: String::from("Pikachu"),
            types: vec![String::from("Electric")],
        },
    );
    assert!(first.is_ok());

    let second = create_pokemon::execute(
        &mut repo,
        create_pokemon::Request {
            number: 25,
            name: String::from("Raichu"),
            types: vec![String::from("Electric")],
        },
    );
    assert!(matches!(second, Err(create_pokemon::Error::Conflict)));

    let fetched = fetch_pokemon::execute(&repo, fetch_pokemon::Request::new(25))
        .expect("the first record should still be there");
    assert_eq!(fetched.name, "Pikachu");
    assert_eq!(fetched.types, vec![String::from("Electric")]);
}

#[test]
fn scenario_fetch_one_missing_and_invalid_keys() {
    let repo = InMemoryRepository::new();

    // a valid but absent key fails in the store, not before it
    let missing = fetch_pokemon::execute(&repo, fetch_pokemon::Request::new(42));
    assert!(matches!(missing, Err(fetch_pokemon::Error::NotFound)));

    // keys outside the valid range never reach the store
    let zero = fetch_pokemon::execute(&repo, fetch_pokemon::Request::new(0));
    assert!(matches!(zero, Err(fetch_pokemon::Error::BadRequest)));
    let too_big = fetch_pokemon::execute(&repo, fetch_pokemon::Request::new(999));
    assert!(matches!(too_big, Err(fetch_pokemon::Error::BadRequest)));
}

#[test]
fn fetch_all_returns_ascending_keys_whatever_the_insertion_order() {
    let mut repo = InMemoryRepository::new();
    repo.insert(
        PokemonNumber::try_from(151).unwrap(),
        PokemonName::try_from(String::from("Mew")).unwrap(),
        PokemonTypes::try_from(vec![String::from("Electric")]).unwrap(),
    )
    .expect("error inserting mew");
    repo.insert(
        PokemonNumber::pikachu(),
        PokemonName::pikachu(),
        PokemonTypes::pikachu(),
    )
    .expect("error inserting pikachu");
    repo.insert(
        PokemonNumber::vulpix(),
        PokemonName::vulpix(),
        PokemonTypes::vulpix(),
    )
    .expect("error inserting vulpix");

    let res = fetch_all_pokemons::execute(&repo).expect("fetch all failed");
    let numbers: Vec<u16> = res.iter().map(|p| p.number).collect();
    assert_eq!(numbers, vec![25, 37, 151]);
}

#[test]
fn delete_on_absent_key_is_not_found_and_changes_nothing() {
    let mut repo = InMemoryRepository::new();
    repo.insert(
        PokemonNumber::pikachu(),
        PokemonName::pikachu(),
        PokemonTypes::pikachu(),
    )
    .expect("error inserting pikachu");

    let res = delete_pokemon::execute(&mut repo, delete_pokemon::Request { number: 37 });
    assert!(matches!(res, Err(delete_pokemon::Error::NotFound)));

    let all = repo.fetch_all().expect("fetch all failed");
    assert_eq!(all.len(), 1);
}

#[test]
fn delete_on_present_key_removes_exactly_that_record() {
    let mut repo = InMemoryRepository::new();
    repo.insert(
        PokemonNumber::pikachu(),
        PokemonName::pikachu(),
        PokemonTypes::pikachu(),
    )
    .expect("error inserting pikachu");
    repo.insert(
        PokemonNumber::vulpix(),
        PokemonName::vulpix(),
        PokemonTypes::vulpix(),
    )
    .expect("error inserting vulpix");

    delete_pokemon::execute(&mut repo, delete_pokemon::Request { number: 37 })
        .expect("delete failed");

    let all = repo.fetch_all().expect("fetch all failed");
    assert_eq!(all.len(), 1);
    assert_eq!(all[0].number, PokemonNumber::pikachu());
    assert!(matches!(
        repo.fetch_one(PokemonNumber::vulpix()),
        Err(FetchOneError::NotFound)
    ));
}

#[test]
fn fault_injected_backend_fails_every_operation_with_unknown() {
    let mut repo = InMemoryRepository::new().with_error();

    assert!(matches!(
        repo.insert(
            PokemonNumber::pikachu(),
            PokemonName::pikachu(),
            PokemonTypes::pikachu(),
        ),
        Err(InsertError::Unknown)
    ));
    assert!(matches!(repo.fetch_all(), Err(FetchAllError::Unknown)));
    assert!(matches!(
        repo.fetch_one(PokemonNumber::pikachu()),
        Err(FetchOneError::Unknown)
    ));
    assert!(matches!(
        repo.delete(PokemonNumber::pikachu()),
        Err(DeleteError::Unknown)
    ));
}

#[test]
fn insert_then_fetch_one_returns_exactly_the_inserted_values() {
    let mut repo = InMemoryRepository::new();
    let created = match create_pokemon::execute(
        &mut repo,
        create_pokemon::Request {
            number: 134,
            name: String::from("Vaporeon"),
            types: vec![String::from("Fire"), String::from("Electric")],
        },
    ) {
        Ok(resp) => resp,
        Err(_) => panic!("create failed"),
    };
    assert_eq!(created.number, 134);

    let fetched = fetch_pokemon::execute(&repo, fetch_pokemon::Request::new(134))
        .expect("fetch failed");
    assert_eq!(fetched.number, 134);
    assert_eq!(fetched.name, "Vaporeon");
    assert_eq!(
        fetched.types,
        vec![String::from("Fire"), String::from("Electric")]
    );
}
