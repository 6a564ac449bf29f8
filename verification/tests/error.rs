use client_balance::domain::model::error::{code_of_field, ClientError};
use client_balance::domain::model::value::client_id::ClientId;
use client_balance::domain::model::value::document::Document;

#[test]
fn test_01_given_two_duplicate_errors_with_same_document_when_comparing_then_they_should_be_equal() {
    // GIVEN
    let doc = "123".to_string();
    let err1 = ClientError::Duplicate { document: doc.clone() };
    let err2 = ClientError::Duplicate { document: doc.clone() };
    // THEN
    assert_eq!(err1, err2);
}

#[test]
fn test_02_given_two_duplicate_errors_with_different_document_when_comparing_then_they_should_not_be_equal() {
    // GIVEN
    let err1 = ClientError::Duplicate { document: "123".to_string() };
    let err2 = ClientError::Duplicate { document: "456".to_string() };
    // THEN
    assert_ne!(err1, err2);
}

#[test]
fn test_03_given_two_not_found_by_id_errors_with_same_id_when_comparing_then_they_should_be_equal() {
    // GIVEN
    let id = ClientId::from_number(0);
    let err1 = ClientError::NotFoundById { id_document: id.clone() };
    let err2 = ClientError::NotFoundById { id_document: id.clone() };
    // THEN
    assert_eq!(err1, err2);
}

#[test]
fn test_04_given_two_not_found_by_id_errors_with_different_id_when_comparing_then_they_should_not_be_equal() {
    // GIVEN
    let err1 = ClientError::NotFoundById { id_document: ClientId::from_number(0) };
    let err2 = ClientError::NotFoundById { id_document: ClientId::from_number(1) };
    // THEN
    assert_ne!(err1, err2);
}

#[test]
fn test_05_given_two_field_empty_errors_with_same_field_when_comparing_then_they_should_be_equal() {
    // GIVEN
    let err1 = ClientError::FieldEmpty { field_name: "foo".to_string() };
    let err2 = ClientError::FieldEmpty { field_name: "foo".to_string() };
    // THEN
    assert_eq!(err1, err2);
}

#[test]
fn test_06_given_two_field_empty_errors_with_different_field_when_comparing_then_they_should_not_be_equal() {
    // GIVEN
    let err1 = ClientError::FieldEmpty { field_name: "foo".to_string() };
    let err2 = ClientError::FieldEmpty { field_name: "bar".to_string() };
    // THEN
    assert_ne!(err1, err2);
}

#[test]
fn test_07_given_simple_variants_when_comparing_then_they_should_be_equal_or_not() {
    // THEN
    assert_eq!(ClientError::NegativeAmount, ClientError::NegativeAmount);
    assert_eq!(ClientError::PositiveAmount, ClientError::PositiveAmount);
    assert_eq!(ClientError::ZeroAmount, ClientError::ZeroAmount);
    assert_eq!(ClientError::BalancesEmpty, ClientError::BalancesEmpty);
    assert_eq!(
        ClientError::Unknown("err1".to_string()),
        ClientError::Unknown("err2".to_string())
    );
    assert_ne!(ClientError::NegativeAmount, ClientError::PositiveAmount);
}

#[test]
fn test_08_given_field_invalid_and_field_max_length_when_comparing_then_they_should_be_equal_or_not() {
    // GIVEN
    let err1 = ClientError::FieldInvalid { field_name: "foo".to_string(), value: "a".to_string() };
    let err2 = ClientError::FieldInvalid { field_name: "foo".to_string(), value: "a".to_string() };
    let err3 = ClientError::FieldInvalid { field_name: "foo".to_string(), value: "b".to_string() };
    let err4 = ClientError::FieldMaxLength { field_name: "foo".to_string(), max_length: 5 };
    let err5 = ClientError::FieldMaxLength { field_name: "foo".to_string(), max_length: 5 };
    let err6 = ClientError::FieldMaxLength { field_name: "foo".to_string(), max_length: 6 };
    // THEN
    assert_eq!(err1, err2);
    assert_ne!(err1, err3);
    assert_eq!(err4, err5);
    assert_ne!(err4, err6);
}

#[test]
fn test_09_given_all_variants_when_calling_code_then_should_return_expected_code() {
    // GIVEN
    let doc = "123".to_string();
    let id = ClientId::from_number(0);
    let d = Document::new("A").unwrap();
    // THEN
    assert_eq!(ClientError::Duplicate { document: doc.clone() }.code(), "CLIENT_DUPLICATE");
    assert_eq!(ClientError::NotFoundById { id_document: id.clone() }.code(), "CLIENT_NOT_FOUND_BY_ID");
    assert_eq!(
        ClientError::NotFoundByDocument { document: d.clone() }.code(),
        "CLIENT_NOT_FOUND_BY_DOCUMENT"
    );
    assert_eq!(ClientError::FieldEmpty { field_name: "foo".to_string() }.code(), "CLIENT_FOO_EMPTY");
    assert_eq!(
        ClientError::FieldInvalid { field_name: "foo".to_string(), value: "bar".to_string() }.code(),
        "CLIENT_FOO_INVALID"
    );
    assert_eq!(
        ClientError::FieldMaxLength { field_name: "foo".to_string(), max_length: 5 }.code(),
        "CLIENT_FOO_MAX_LENGTH"
    );
    assert_eq!(ClientError::NegativeAmount.code(), "CLIENT_NEGATIVE_BALANCE");
    assert_eq!(ClientError::PositiveAmount.code(), "CLIENT_POSITIVE_BALANCE");
    assert_eq!(ClientError::ZeroAmount.code(), "CLIENT_ZERO_BALANCE");
    assert_eq!(ClientError::BalancesEmpty.code(), "CLIENT_BALANCES_EMPTY");
    assert_eq!(ClientError::Unknown("err".to_string()).code(), "CLIENT_UNKNOWN_ERROR");
}

#[test]
fn test_10_given_all_variants_when_display_then_should_return_expected_message() {
    // GIVEN
    let doc = "123".to_string();
    let id = ClientId::from_number(0);
    let d = Document::new("A").unwrap();
    // THEN
    assert_eq!(
        ClientError::Duplicate { document: doc.clone() }.to_string(),
        format!("client with document {} already exists", doc)
    );
    assert_eq!(
        ClientError::NotFoundById { id_document: id.clone() }.to_string(),
        format!("client not found by id {}", id.to_string())
    );
    assert_eq!(
        ClientError::NotFoundByDocument { document: d.clone() }.to_string(),
        format!("client not found by document {}", d.to_string())
    );
    assert_eq!(
        ClientError::FieldEmpty { field_name: "foo".to_string() }.to_string(),
        "client foo cannot be empty"
    );
    assert_eq!(
        ClientError::FieldInvalid { field_name: "foo".to_string(), value: "bar".to_string() }
            .to_string(),
        "client foo is invalid: bar"
    );
    assert_eq!(
        ClientError::FieldMaxLength { field_name: "foo".to_string(), max_length: 5 }.to_string(),
        "client foo is too long. Max length is 5"
    );
    assert_eq!(ClientError::NegativeAmount.to_string(), "client amount cannot be negative");
    assert_eq!(ClientError::PositiveAmount.to_string(), "client amount cannot be positive");
    assert_eq!(ClientError::ZeroAmount.to_string(), "client amount cannot be zero");
    assert_eq!(ClientError::BalancesEmpty.to_string(), "balances are empty");
    let unknown = ClientError::Unknown("err".to_string()).to_string();
    assert!(unknown.contains("err"));
}

#[test]
fn not_found_errors_differ_by_what_was_looked_for() {
    assert_ne!(
        ClientError::NotFoundById { id_document: ClientId::from_number(1) },
        ClientError::NotFoundById { id_document: ClientId::from_number(2) }
    );
    assert_ne!(
        ClientError::NotFoundByDocument { document: Document::new("A").unwrap() },
        ClientError::NotFoundByDocument { document: Document::new("B").unwrap() }
    );
    assert_eq!(
        ClientError::NotFoundById { id_document: ClientId::from_number(255) }.to_string(),
        "client not found by id 255"
    );
    assert_ne!(ClientError::Unknown("x".to_string()), ClientError::BalancesEmpty);
}

#[test]
fn field_codes_put_the_field_name_in_upper_case() {
    assert_eq!(
        ClientError::FieldEmpty { field_name: "birth_date".to_string() }.code(),
        "CLIENT_BIRTH_DATE_EMPTY"
    );
    assert_eq!(
        ClientError::FieldInvalid { field_name: "straße".to_string(), value: String::new() }.code(),
        "CLIENT_STRASSE_INVALID"
    );
}

#[test]
fn field_code_is_joined_from_its_parts() {
    assert_eq!(code_of_field("NAME", "_EMPTY"), "CLIENT_NAME_EMPTY");
    assert_eq!(code_of_field("", ""), "CLIENT_");
}
