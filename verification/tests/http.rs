use client_balance::domain::model::entity::balance::Balance;
use client_balance::domain::model::entity::client::Client;
use client_balance::domain::model::error::ClientError;
use client_balance::domain::model::value::amount::MonetaryAmount;
use client_balance::domain::model::value::birth_date::BirthDate;
use client_balance::domain::model::value::client_id::ClientId;
use client_balance::domain::model::value::client_name::ClientName;
use client_balance::domain::model::value::country::Country;
use client_balance::domain::model::value::document::Document;
use client_balance::infrastructure::inbound::http::dto::create_client::{
    CreateClientHttpRequestBody, CreateClientHttpResponseBody,
};
use client_balance::infrastructure::inbound::http::dto::get_client_balance::{
    GetClientBalanceHttpRequestPath, GetClientBalanceHttpResponseBody,
};
use client_balance::infrastructure::inbound::http::dto::new_credit_transaction::{
    NewCreditTransactionHttpRequestBody, NewCreditTransactionHttpResponseBody,
};
use client_balance::infrastructure::inbound::http::dto::new_debit_transaction::{
    NewDebitTransactionHttpRequestBody, NewDebitTransactionHttpResponseBody,
};
use client_balance::infrastructure::inbound::http::dto::store_balances::StoreBalancesHttpResponseBody;
use client_balance::infrastructure::inbound::http::error::ApiError;

fn body(name: &str, birth_date: &str, document: &str, country: &str) -> CreateClientHttpRequestBody {
    CreateClientHttpRequestBody::new(
        name.to_string(),
        birth_date.to_string(),
        document.to_string(),
        country.to_string(),
    )
}

fn client() -> Client {
    Client::new(
        ClientId::from_number(42),
        ClientName::new("John Doe").unwrap(),
        BirthDate::new("1990-01-01").unwrap(),
        Document::new("1234567890").unwrap(),
        Country::new("US").unwrap(),
    )
}

#[test]
fn every_error_has_its_status() {
    let document = Document::new("A").unwrap();
    let text = || "x".to_string();
    assert_eq!(ClientError::Duplicate { document: text() }.status_code(), 409);
    assert_eq!(ClientError::NotFoundById { id_document: ClientId::from_number(1) }.status_code(), 404);
    assert_eq!(ClientError::NotFoundByDocument { document }.status_code(), 404);
    assert_eq!(ClientError::FieldEmpty { field_name: text() }.status_code(), 400);
    assert_eq!(ClientError::FieldInvalid { field_name: text(), value: text() }.status_code(), 400);
    assert_eq!(ClientError::FieldMaxLength { field_name: text(), max_length: 1 }.status_code(), 400);
    assert_eq!(ClientError::NegativeAmount.status_code(), 400);
    assert_eq!(ClientError::PositiveAmount.status_code(), 400);
    assert_eq!(ClientError::ZeroAmount.status_code(), 400);
    assert_eq!(ClientError::BalancesEmpty.status_code(), 404);
    assert_eq!(ClientError::Unknown(text()).status_code(), 500);
}

#[test]
fn api_error_carries_status_code_and_message() {
    let error = ApiError::from(ClientError::FieldEmpty { field_name: "name".to_string() });
    assert_eq!(error.status_code(), 400);
    assert_eq!(error.error_code(), "CLIENT_NAME_EMPTY");
    assert_eq!(error.error_message(), "client name cannot be empty");
    assert_eq!(error.to_string(), "client name cannot be empty");
    let error = ApiError::new(418, "TEAPOT".to_string(), "short and stout".to_string());
    assert_eq!((error.status_code(), error.error_code()), (418, "TEAPOT"));
}

#[test]
fn creation_body_becomes_a_request() {
    let request = body(" John Doe ", " 1990-01-01 ", " 1234567890 ", " US ").try_into_domain().unwrap();
    assert_eq!(request.name().to_string(), "John Doe");
    assert_eq!(request.birth_date().to_string(), "1990-01-01");
    assert_eq!(request.document().to_string(), "1234567890");
    assert_eq!(request.country().to_string(), "US");
}

#[test]
fn creation_body_reports_the_first_field_that_fails() {
    let code = |b: CreateClientHttpRequestBody| b.try_into_domain().err().unwrap().error_code().to_string();
    assert_eq!(code(body("", "", "", "")), "CLIENT_NAME_EMPTY");
    assert_eq!(code(body("J", "", "", "")), "CLIENT_DOCUMENT_EMPTY");
    assert_eq!(code(body("J", "", "1", "")), "CLIENT_COUNTRY_EMPTY");
    assert_eq!(code(body("J", "", "1", "US")), "CLIENT_BIRTH_DATE_EMPTY");
    assert_eq!(code(body("J", "soon", "1", "US")), "CLIENT_BIRTH_DATE_INVALID");
    assert_eq!(code(body("J", "1990-01-01", &"1".repeat(65), "US")), "CLIENT_DOCUMENT_MAX_LENGTH");
}

#[test]
fn path_becomes_a_lookup() {
    let request = GetClientBalanceHttpRequestPath::new(" 15 ".to_string()).try_into_domain().unwrap();
    assert_eq!(request.client_id().number(), 15);
    let error = GetClientBalanceHttpRequestPath::new("  ".to_string()).try_into_domain().err().unwrap();
    assert_eq!(error.status_code(), 400);
    assert_eq!(error.error_code(), "CLIENT_CLIENT_ID_EMPTY");
    assert_eq!(error.error_message(), "client client_id cannot be empty");
    let error = GetClientBalanceHttpRequestPath::new("abc".to_string()).try_into_domain().err().unwrap();
    assert_eq!(error.status_code(), 400);
    assert_eq!(error.error_code(), "CLIENT_CLIENT_ID_INVALID");
    assert_eq!(error.error_message(), "client client_id is invalid: abc");
}

#[test]
fn transaction_bodies_check_the_id_and_then_the_sign() {
    let credit = |id: &str, units: i64| {
        NewCreditTransactionHttpRequestBody::new(id.to_string(), MonetaryAmount::from_integer(units))
            .try_into_domain()
    };
    let debit = |id: &str, units: i64| {
        NewDebitTransactionHttpRequestBody::new(id.to_string(), MonetaryAmount::from_integer(units))
            .try_into_domain()
    };
    assert_eq!(credit("3", 10).unwrap().client_id().number(), 3);
    assert_eq!(credit("x", 0).err().unwrap().error_code(), "CLIENT_CLIENT_ID_INVALID");
    assert_eq!(credit("", 10).err().unwrap().error_code(), "CLIENT_CLIENT_ID_EMPTY");
    assert_eq!(credit("3", 0).err().unwrap().error_code(), "CLIENT_ZERO_BALANCE");
    assert_eq!(credit("3", -1).err().unwrap().error_code(), "CLIENT_NEGATIVE_BALANCE");
    assert_eq!(debit("3", -10).unwrap().amount(), &MonetaryAmount::from_integer(-10));
    assert_eq!(debit("x", 0).err().unwrap().error_code(), "CLIENT_CLIENT_ID_INVALID");
    assert_eq!(debit("3", 0).err().unwrap().error_code(), "CLIENT_ZERO_BALANCE");
    assert_eq!(debit("3", 1).err().unwrap().error_code(), "CLIENT_POSITIVE_BALANCE");
}

#[test]
fn answers_are_text() {
    let balance = Balance::new(ClientId::from_number(42), MonetaryAmount::new(12345, 2).unwrap());
    let created = CreateClientHttpResponseBody::from(client());
    assert_eq!(created.id(), "42");
    let credited = NewCreditTransactionHttpResponseBody::from(balance);
    assert_eq!((credited.id(), credited.balance()), ("42", "123.45"));
    let debited = NewDebitTransactionHttpResponseBody::from(balance);
    assert_eq!((debited.id(), debited.balance()), ("42", "123.45"));
    let found = GetClientBalanceHttpResponseBody::from((client(), balance));
    assert_eq!(found.id(), "42");
    assert_eq!(found.name(), "John Doe");
    assert_eq!(found.birth_date(), "1990-01-01");
    assert_eq!(found.document(), "1234567890");
    assert_eq!(found.country(), "US");
    assert_eq!(found.balance(), "123.45");
    assert_eq!(StoreBalancesHttpResponseBody::success_store().message(), "Successfully stored balances");
    assert_eq!(StoreBalancesHttpResponseBody::new("done").message(), "done");
}
