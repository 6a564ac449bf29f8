use client_balance::domain::model::error::ClientError;
use client_balance::domain::model::value::client_name::ClientName;
use client_balance::domain::model::value::MAX_LENGTH_NAME;

#[test]
fn test_01_given_a_client_name_when_creating_it_then_it_should_be_created() {
    // GIVEN
    let name_expected = "John Doe";

    // SETUP
    let client_name = ClientName::new(name_expected).unwrap();

    // THEN
    assert_eq!(client_name.to_string(), name_expected);
}

#[test]
fn test_02_given_an_empty_client_name_when_creating_it_then_it_should_fail() {
    // GIVEN
    let name = "";

    // WHEN
    let result = ClientName::new(name);

    // THEN
    assert!(result.is_err());
}

#[test]
fn test_03_given_a_client_name_with_only_spaces_when_creating_it_then_it_should_fail() {
    // GIVEN
    let name = "     ";

    // WHEN
    let result = ClientName::new(name);

    // THEN
    assert!(result.is_err());
}

#[test]
fn test_04_given_a_client_name_exceeding_max_length_when_creating_it_then_it_should_fail() {
    // GIVEN
    let name = "a".repeat(MAX_LENGTH_NAME + 1);

    // WHEN
    let result = ClientName::new(&name);

    // THEN
    assert!(result.is_err());
}

#[test]
fn test_05_given_a_client_name_with_spaces_when_creating_it_then_it_should_be_trimmed_and_accepted() {
    let name = "   John Doe   ";
    let client_name = ClientName::new(name).unwrap();
    assert_eq!(client_name.to_string(), "John Doe");
}

#[test]
fn test_06_given_a_client_name_with_special_characters_when_creating_it_then_it_should_be_accepted() {
    let name = "JÃ¶hn D'oe!@#";
    let client_name = ClientName::new(name).unwrap();
    assert_eq!(client_name.to_string(), name);
}

#[test]
fn client_name_reports_which_rule_was_broken() {
    assert_eq!(
        ClientName::new("").err().unwrap(),
        ClientError::FieldEmpty { field_name: "name".to_string() }
    );
    assert_eq!(
        ClientName::new(&"n".repeat(129)).err().unwrap(),
        ClientError::FieldMaxLength { field_name: "name".to_string(), max_length: 128 }
    );
    assert!(ClientName::new(&"n".repeat(128)).is_ok());
}
