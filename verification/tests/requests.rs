use client_balance::domain::model::dto::create_client::CreateClientRequest;
use client_balance::domain::model::dto::credit_transaction::CreditTransactionRequest;
use client_balance::domain::model::dto::debit_transaction::DebitTransactionRequest;
use client_balance::domain::model::dto::get_balance::GetClientRequest;
use client_balance::domain::model::entity::client::Client;
use client_balance::domain::model::error::ClientError;
use client_balance::domain::model::value::amount::MonetaryAmount;
use client_balance::domain::model::value::birth_date::BirthDate;
use client_balance::domain::model::value::client_id::ClientId;
use client_balance::domain::model::value::client_name::ClientName;
use client_balance::domain::model::value::country::Country;
use client_balance::domain::model::value::document::Document;

#[test]
fn test_01_given_valid_data_when_creating_create_client_request_then_fields_should_be_accessible() {
    let name = ClientName::new("John Doe").unwrap();
    let birth_date = BirthDate::new("1990-01-01").unwrap();
    let document = Document::new("1234567890").unwrap();
    let country = Country::new("Argentina").unwrap();
    let req = CreateClientRequest::new(
        name.clone(),
        birth_date.clone(),
        document.clone(),
        country.clone(),
    );
    assert_eq!(req.name(), &name);
    assert_eq!(req.birth_date(), &birth_date);
    assert_eq!(req.document(), &document);
    assert_eq!(req.country(), &country);
}

#[test]
fn test_01_given_positive_amount_when_creating_credit_transaction_then_should_be_ok() {
    let client_id = ClientId::from_number(0);
    let req = CreditTransactionRequest::new(client_id.clone(), MonetaryAmount::from_integer(100));
    assert!(req.is_ok());
    let req = req.unwrap();
    assert_eq!(req.client_id(), &client_id);
    assert_eq!(req.amount(), &MonetaryAmount::from_integer(100));
}

#[test]
fn test_02_given_negative_amount_when_creating_credit_transaction_then_should_fail() {
    let client_id = ClientId::from_number(0);
    let req = CreditTransactionRequest::new(client_id, MonetaryAmount::from_integer(-100));
    assert!(req.is_err());
    assert_eq!(req.err().unwrap(), ClientError::NegativeAmount);
}

#[test]
fn test_03_given_zero_amount_when_creating_credit_transaction_then_should_fail() {
    let client_id = ClientId::from_number(0);
    let req = CreditTransactionRequest::new(client_id, MonetaryAmount::zero());
    assert!(req.is_err());
    assert_eq!(req.err().unwrap(), ClientError::ZeroAmount);
}

#[test]
fn test_01_given_negative_amount_when_creating_debit_transaction_then_should_be_ok() {
    let client_id = ClientId::new("1").unwrap();
    let req = DebitTransactionRequest::new(client_id.clone(), MonetaryAmount::from_integer(-100));
    assert!(req.is_ok());
    let req = req.unwrap();
    assert_eq!(req.client_id(), &client_id);
    assert_eq!(req.amount(), &MonetaryAmount::from_integer(-100));
}

#[test]
fn test_02_given_positive_amount_when_creating_debit_transaction_then_should_fail() {
    let client_id = ClientId::new("1").unwrap();
    let req = DebitTransactionRequest::new(client_id, MonetaryAmount::from_integer(100));
    assert!(req.is_err());
    assert_eq!(req.err().unwrap(), ClientError::PositiveAmount);
}

#[test]
fn test_03_given_zero_amount_when_creating_debit_transaction_then_should_fail() {
    let client_id = ClientId::new("1").unwrap();
    let req = DebitTransactionRequest::new(client_id, MonetaryAmount::zero());
    assert!(req.is_err());
    assert_eq!(req.err().unwrap(), ClientError::ZeroAmount);
}

#[test]
fn test_01_given_a_client_id_when_creating_get_client_request_then_field_should_be_accessible() {
    let client_id = ClientId::from_number(0);
    let req = GetClientRequest::new(client_id.clone());
    assert_eq!(req.client_id(), &client_id);
}

#[test]
fn test_01_given_valid_data_when_creating_client_then_fields_should_be_accessible() {
    let id = ClientId::from_number(0);
    let name = ClientName::new("John Doe").unwrap();
    let birth_date = BirthDate::new("1990-01-01").unwrap();
    let document = Document::new("1234567890").unwrap();
    let country = Country::new("Argentina").unwrap();
    let client = Client::new(
        id.clone(),
        name.clone(),
        birth_date.clone(),
        document.clone(),
        country.clone(),
    );
    assert_eq!(client.id(), &id);
    assert_eq!(client.name(), &name);
    assert_eq!(client.birth_date(), &birth_date);
    assert_eq!(client.document(), &document);
    assert_eq!(client.country(), &country);
}

#[test]
fn zero_with_decimals_is_still_zero_for_a_transaction() {
    let written_zero = MonetaryAmount::new(0, 2).unwrap();
    let id = ClientId::from_number(3);
    assert_eq!(CreditTransactionRequest::new(id, written_zero).err().unwrap(), ClientError::ZeroAmount);
    assert_eq!(DebitTransactionRequest::new(id, written_zero).err().unwrap(), ClientError::ZeroAmount);
    let cent = MonetaryAmount::new(1, 2).unwrap();
    assert!(CreditTransactionRequest::new(id, cent).is_ok());
    assert_eq!(DebitTransactionRequest::new(id, cent).err().unwrap(), ClientError::PositiveAmount);
}
