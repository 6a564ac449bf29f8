use client_balance::domain::model::error::ClientError;
use client_balance::domain::model::value::document::Document;
use client_balance::domain::model::value::MAX_LENGTH_DOCUMENT;

#[test]
fn test_01_given_a_valid_document_when_creating_it_then_it_should_be_created() {
    let doc = "1234567890";
    let document = Document::new(doc).unwrap();
    assert_eq!(document.to_string(), doc);
}

#[test]
fn test_02_given_an_empty_document_when_creating_it_then_it_should_fail() {
    let doc = "";
    let result = Document::new(doc);
    assert!(result.is_err());
}

#[test]
fn test_03_given_a_document_with_only_spaces_when_creating_it_then_it_should_fail() {
    let doc = "    ";
    let result = Document::new(doc);
    assert!(result.is_err());
}

#[test]
fn test_04_given_a_document_exceeding_max_length_when_creating_it_then_it_should_fail() {
    let doc = "a".repeat(MAX_LENGTH_DOCUMENT + 1);
    let result = Document::new(&doc);
    assert!(result.is_err());
}

#[test]
fn test_05_given_a_document_with_spaces_when_creating_it_then_it_should_be_trimmed_and_accepted() {
    let doc = "   1234567890   ";
    let document = Document::new(doc).unwrap();
    assert_eq!(document.to_string(), "1234567890");
}

#[test]
fn document_reports_which_rule_was_broken() {
    assert_eq!(
        Document::new("  ").err().unwrap(),
        ClientError::FieldEmpty { field_name: "document".to_string() }
    );
    assert_eq!(
        Document::new(&"7".repeat(65)).err().unwrap(),
        ClientError::FieldMaxLength { field_name: "document".to_string(), max_length: 64 }
    );
    assert!(Document::new(&"7".repeat(64)).is_ok());
}

#[test]
fn documents_compare_by_their_text() {
    let a = Document::new(" 123 ").unwrap();
    let b = Document::new("123").unwrap();
    let c = Document::new("124").unwrap();
    assert_eq!(a, b);
    assert_ne!(a, c);
    assert_eq!(a.clone(), a);
    assert!(b < c);
}
