use client_balance::domain::model::error::ClientError;
use client_balance::domain::model::value::country::Country;
use client_balance::domain::model::value::MAX_LENGTH_COUNTRY;

#[test]
fn test_01_given_a_valid_country_when_creating_it_then_it_should_be_created() {
    let country_name = "Argentina";
    let country = Country::new(country_name).unwrap();
    assert_eq!(country.to_string(), country_name);
}

#[test]
fn test_02_given_an_empty_country_when_creating_it_then_it_should_fail() {
    let country_name = "";
    let result = Country::new(country_name);
    assert!(result.is_err());
}

#[test]
fn test_03_given_a_country_with_only_spaces_when_creating_it_then_it_should_fail() {
    let country_name = "    ";
    let result = Country::new(country_name);
    assert!(result.is_err());
}

#[test]
fn test_04_given_a_country_exceeding_max_length_when_creating_it_then_it_should_fail() {
    let country_name = "a".repeat(MAX_LENGTH_COUNTRY + 1);
    let result = Country::new(&country_name);
    assert!(result.is_err());
}

#[test]
fn test_05_given_a_country_with_spaces_when_creating_it_then_it_should_be_trimmed_and_accepted() {
    let country_name = "   Argentina   ";
    let country = Country::new(country_name).unwrap();
    assert_eq!(country.to_string(), "Argentina");
}

#[test]
fn test_06_given_a_country_with_special_characters_when_creating_it_then_it_should_be_accepted() {
    let country_name = "Côte d'Ivoire!@#";
    let country = Country::new(country_name).unwrap();
    assert_eq!(country.to_string(), country_name);
}

#[test]
fn country_reports_which_rule_was_broken() {
    assert_eq!(
        Country::new(" \t\n").err().unwrap(),
        ClientError::FieldEmpty { field_name: "country".to_string() }
    );
    assert_eq!(
        Country::new(&"a".repeat(MAX_LENGTH_COUNTRY + 1)).err().unwrap(),
        ClientError::FieldMaxLength { field_name: "country".to_string(), max_length: 32 }
    );
}

#[test]
fn country_length_is_counted_in_bytes_after_trimming() {
    assert!(Country::new(&"a".repeat(MAX_LENGTH_COUNTRY)).is_ok());
    let padded = format!("  {}  ", "a".repeat(MAX_LENGTH_COUNTRY));
    assert_eq!(Country::new(&padded).unwrap().as_str().len(), 32);
    // sixteen two-byte letters fit, seventeen do not
    assert!(Country::new(&"é".repeat(16)).is_ok());
    assert!(Country::new(&"é".repeat(17)).is_err());
}

#[test]
fn country_trims_unicode_whitespace() {
    let country = Country::new("\u{2003}Perú\u{00A0}\u{3000}").unwrap();
    assert_eq!(country.to_string(), "Perú");
}
