use pokedex::entities::{PokemonName, PokemonNumber, PokemonTypes};
use pokedex::repository::{DeleteError, FetchOneError, InsertError, Repository};
use pokedex::sqlite_pokemon::{
    delete_outcome, fetch_all_from_rows, fetch_one_from_row, first_header_row,
    header_insert_outcome, SqlFailure, SqliteRepository, SqliteRow,
};

fn fresh_repo() -> SqliteRepository {
    let conn = rusqlite::Connection::open_in_memory().expect("in-memory database");
    conn.execute("pragma foreign_keys = 1", ())
        .expect("pragma failed");
    conn.execute_batch(
        "create table pokemons (number integer primary key, name text not null);
         create table types (
             pokemon_number integer not null references pokemons (number) on delete cascade,
             name text not null
         );",
    )
    .expect("schema failed");
    SqliteRepository::from_connection(conn)
}

fn pikachu_parts() -> (PokemonNumber, PokemonName, PokemonTypes) {
    (
        PokemonNumber::pikachu(),
        PokemonName::pikachu(),
        PokemonTypes::pikachu(),
    )
}

#[test]
fn sqlite_insert_then_fetch_one_round_trips() {
    let mut repo = fresh_repo();
    let (number, name, types) = pikachu_parts();
    let stored = repo.insert(number, name, types).expect("insert failed");
    assert_eq!(stored.number.value(), 25);

    let fetched = repo
        .fetch_one(PokemonNumber::pikachu())
        .expect("fetch failed");
    assert_eq!(fetched.number.value(), 25);
    assert_eq!(fetched.name.as_str(), "Pikachu");
    assert_eq!(fetched.types.into_strings(), vec![String::from("Electric")]);
}

#[test]
fn sqlite_duplicate_key_is_a_conflict() {
    let mut repo = fresh_repo();
    let (number, name, types) = pikachu_parts();
    repo.insert(number, name, types).expect("insert failed");

    let res = repo.insert(
        PokemonNumber::pikachu(),
        PokemonName::try_from(String::from("Raichu")).unwrap(),
        PokemonTypes::pikachu(),
    );
    assert!(matches!(res, Err(InsertError::Conflict)));

    let kept = repo
        .fetch_one(PokemonNumber::pikachu())
        .expect("fetch failed");
    assert_eq!(kept.name.as_str(), "Pikachu");
}

#[test]
fn sqlite_fetch_all_is_sorted_by_key() {
    let mut repo = fresh_repo();
    repo.insert(
        PokemonNumber::vulpix(),
        PokemonName::vulpix(),
        PokemonTypes::vulpix(),
    )
    .expect("insert vulpix failed");
    repo.insert(
        PokemonNumber::pikachu(),
        PokemonName::pikachu(),
        PokemonTypes::pikachu(),
    )
    .expect("insert pikachu failed");

    let all = repo.fetch_all().expect("fetch all failed");
    let numbers: Vec<u16> = all.iter().map(|p| p.number.value()).collect();
    assert_eq!(numbers, vec![25, 37]);
}

#[test]
fn sqlite_delete_reports_absent_keys_and_removes_present_ones() {
    let mut repo = fresh_repo();
    assert!(matches!(
        repo.delete(PokemonNumber::pikachu()),
        Err(DeleteError::NotFound)
    ));

    let (number, name, types) = pikachu_parts();
    repo.insert(number, name, types).expect("insert failed");
    repo.delete(PokemonNumber::pikachu()).expect("delete failed");
    assert!(matches!(
        repo.fetch_one(PokemonNumber::pikachu()),
        Err(FetchOneError::NotFound)
    ));
    assert_eq!(repo.fetch_all().expect("fetch all failed").len(), 0);
}

#[test]
fn sqlite_try_new_fails_fast_on_a_missing_database() {
    assert!(SqliteRepository::try_new("/nonexistent/pokedex.sqlite").is_err());
}

#[test]
fn sqlite_fetch_all_rejects_a_corrupt_store() {
    // bypass the repository to corrupt the store: an empty name never
    // passes the entity constructors on the way back out
    let conn = rusqlite::Connection::open_in_memory().expect("in-memory database");
    conn.execute_batch(
        "create table pokemons (number integer primary key, name text not null);
         create table types (pokemon_number integer not null, name text not null);
         insert into pokemons values (25, '');
         insert into types values (25, 'Electric');",
    )
    .expect("schema failed");
    let repo = SqliteRepository::from_connection(conn);
    assert!(repo.fetch_all().is_err());
    assert!(repo.fetch_one(PokemonNumber::pikachu()).is_err());
}

fn row(number: u16, name: &str, tags: &[&str]) -> SqliteRow {
    SqliteRow {
        number,
        name: name.to_owned(),
        tags: tags.iter().map(|t| String::from(*t)).collect(),
    }
}

#[test]
fn first_header_row_reports_not_found_on_an_empty_list() {
    assert!(matches!(
        first_header_row(Vec::new()),
        Err(FetchOneError::NotFound)
    ));
    let h = first_header_row(vec![(25, String::from("Pikachu"))]).expect("row expected");
    assert_eq!(h, (25, String::from("Pikachu")));
}

#[test]
fn fetch_one_from_row_revalidates_and_checks_the_key() {
    let p = fetch_one_from_row(25, row(25, "Pikachu", &["Electric"])).expect("should parse");
    assert_eq!(p.number.value(), 25);
    assert_eq!(p.name.as_str(), "Pikachu");

    // a row under another key than the one asked for is a corrupt store
    assert!(matches!(
        fetch_one_from_row(25, row(37, "Vulpix", &["Fire"])),
        Err(FetchOneError::Unknown)
    ));
    // so is a row the constructors reject
    assert!(matches!(
        fetch_one_from_row(25, row(25, "", &["Electric"])),
        Err(FetchOneError::Unknown)
    ));
    assert!(matches!(
        fetch_one_from_row(25, row(25, "Pikachu", &["Sludge"])),
        Err(FetchOneError::Unknown)
    ));
}

#[test]
fn fetch_all_from_rows_sorts_and_rejects_partial_lists() {
    let all = fetch_all_from_rows(vec![
        row(37, "Vulpix", &["Fire"]),
        row(25, "Pikachu", &["Electric"]),
    ])
    .expect("should parse");
    let numbers: Vec<u16> = all.iter().map(|p| p.number.value()).collect();
    assert_eq!(numbers, vec![25, 37]);

    assert!(fetch_all_from_rows(vec![
        row(25, "Pikachu", &["Electric"]),
        row(37, "Vulpix", &[]),
    ])
    .is_err());
    assert!(fetch_all_from_rows(vec![
        row(25, "Pikachu", &["Electric"]),
        row(25, "Raichu", &["Electric"]),
    ])
    .is_err());
}

#[test]
fn header_insert_outcome_maps_each_variant() {
    assert!(header_insert_outcome(Ok(1)).is_ok());
    assert!(matches!(
        header_insert_outcome(Err(SqlFailure::ConstraintViolation)),
        Err(InsertError::Conflict)
    ));
    assert!(matches!(
        header_insert_outcome(Err(SqlFailure::Other)),
        Err(InsertError::Unknown)
    ));
}

#[test]
fn delete_outcome_reads_the_affected_row_count() {
    assert!(matches!(delete_outcome(0), Err(DeleteError::NotFound)));
    assert!(delete_outcome(1).is_ok());
    assert!(delete_outcome(3).is_ok());
}
