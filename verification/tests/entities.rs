use pokedex::entities::{PokemonName, PokemonNumber, PokemonType, PokemonTypes};

#[test]
fn number_rejects_zero_and_upper_bound_and_accepts_the_edges_within() {
    assert!(PokemonNumber::try_from(0).is_err());
    assert!(PokemonNumber::try_from(899).is_err());
    assert!(PokemonNumber::try_from(1).is_ok());
    assert!(PokemonNumber::try_from(898).is_ok());
}

#[test]
fn number_round_trips_its_raw_value() {
    let n = PokemonNumber::try_from(151).expect("151 is in range");
    assert_eq!(n.value(), 151);
}

#[test]
fn number_test_doubles_carry_their_values() {
    assert_eq!(PokemonNumber::pikachu().value(), 25);
    assert_eq!(PokemonNumber::vulpix().value(), 37);
    assert_eq!(PokemonNumber::bad().value(), 0);
}

#[test]
fn name_rejects_empty_and_accepts_any_non_empty_string() {
    assert!(PokemonName::try_from(String::from("")).is_err());
    assert!(PokemonName::try_from(String::from("x")).is_ok());
    assert!(PokemonName::try_from(String::from("Mewtwo")).is_ok());
    assert_eq!(
        PokemonName::try_from(String::from("Mewtwo"))
            .unwrap()
            .into_string(),
        "Mewtwo"
    );
    assert_eq!(PokemonName::bad().into_string(), "");
}

#[test]
fn type_parsing_is_case_sensitive_and_closed() {
    assert!(PokemonType::try_from(String::from("Electric")).is_ok());
    assert!(PokemonType::try_from(String::from("Fire")).is_ok());
    assert!(PokemonType::try_from(String::from("electric")).is_err());
    assert!(PokemonType::try_from(String::from("Water")).is_err());
    assert_eq!(
        PokemonType::try_from(String::from("Fire"))
            .unwrap()
            .into_string(),
        "Fire"
    );
}

#[test]
fn tag_set_rejects_empty_list() {
    assert!(PokemonTypes::try_from(Vec::new()).is_err());
}

#[test]
fn tag_set_rejects_the_whole_list_on_one_unknown_tag() {
    let res = PokemonTypes::try_from(vec![
        String::from("Electric"),
        String::from("Banana"),
    ]);
    assert!(res.is_err());
}

#[test]
fn tag_set_keeps_order_and_spelling() {
    let types =
        PokemonTypes::try_from(vec![String::from("Fire"), String::from("Electric")]).unwrap();
    assert_eq!(
        types.into_strings(),
        vec![String::from("Fire"), String::from("Electric")]
    );
}
