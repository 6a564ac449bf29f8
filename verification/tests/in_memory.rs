use client_balance::domain::model::dto::create_client::CreateClientRequest;
use client_balance::domain::model::dto::credit_transaction::CreditTransactionRequest;
use client_balance::domain::model::dto::debit_transaction::DebitTransactionRequest;
use client_balance::domain::model::dto::get_balance::GetClientRequest;
use client_balance::domain::model::entity::balance::Balance;
use client_balance::domain::model::error::ClientError;
use client_balance::domain::model::value::amount::MonetaryAmount;
use client_balance::domain::model::value::birth_date::BirthDate;
use client_balance::domain::model::value::client_id::ClientId;
use client_balance::domain::model::value::client_name::ClientName;
use client_balance::domain::model::value::country::Country;
use client_balance::domain::model::value::document::Document;
use client_balance::domain::port::outbound::client_balance_repository::ClientBalanceRepository;
use client_balance::infrastructure::outbound::in_memory::InMemoryRepository;

fn request(name: &str, document: &str) -> CreateClientRequest {
    CreateClientRequest::new(
        ClientName::new(name).unwrap(),
        BirthDate::new("1990-01-01").unwrap(),
        Document::new(document).unwrap(),
        Country::new("US").unwrap(),
    )
}

fn amount(units: i64) -> MonetaryAmount {
    MonetaryAmount::from_integer(units)
}

fn get(id: &ClientId) -> GetClientRequest {
    GetClientRequest::new(id.clone())
}

#[test]
fn store_files_clients_under_counted_ids() {
    let mut store = InMemoryRepository::new();
    let a = store.create_client(&request("A", "1")).unwrap();
    let b = store.create_client(&request("B", "2")).unwrap();
    assert_eq!((a.id().number(), b.id().number()), (0, 1));
    assert!(store.client_id_exists(a.id()).unwrap());
    assert!(!store.client_id_exists(&ClientId::from_number(2)).unwrap());
    assert_eq!(store.get_client(&get(b.id())).unwrap().name().to_string(), "B");
    assert_eq!(
        store.get_client(&get(&ClientId::from_number(9))).err().unwrap(),
        ClientError::NotFoundById { id_document: ClientId::from_number(9) }
    );
}

#[test]
fn store_rejects_a_document_that_is_taken() {
    let mut store = InMemoryRepository::new();
    store.create_client(&request("A", "1")).unwrap();
    assert_eq!(
        store.create_client(&request("B", "1")).err().unwrap(),
        ClientError::Duplicate { document: "1".to_string() }
    );
    let found = store.get_client_by_document(&Document::new("1").unwrap()).unwrap();
    assert_eq!(found.name().to_string(), "A");
    assert_eq!(
        store.get_client_by_document(&Document::new("2").unwrap()).err().unwrap(),
        ClientError::NotFoundByDocument { document: Document::new("2").unwrap() }
    );
}

#[test]
fn store_opens_balances_only_for_its_clients() {
    let mut store = InMemoryRepository::new();
    assert!(store.are_balances_empty().unwrap());
    let id = store.create_client(&request("A", "1")).unwrap().id().clone();
    assert_eq!(
        store.get_balance_by_client_id(&get(&id)).err().unwrap(),
        ClientError::NotFoundById { id_document: id.clone() }
    );
    assert_eq!(store.init_client_balance(&id).unwrap(), Balance::new(id.clone(), amount(0)));
    assert!(!store.are_balances_empty().unwrap());
    let stranger = ClientId::from_number(5);
    assert_eq!(
        store.init_client_balance(&stranger).err().unwrap(),
        ClientError::NotFoundById { id_document: stranger }
    );
}

#[test]
fn store_adds_credits_and_debits() {
    let mut store = InMemoryRepository::new();
    let id = store.create_client(&request("A", "1")).unwrap().id().clone();
    store.init_client_balance(&id).unwrap();
    let credit = CreditTransactionRequest::new(id.clone(), amount(100)).unwrap();
    let debit = DebitTransactionRequest::new(id.clone(), amount(-33)).unwrap();
    assert_eq!(store.credit_balance(&credit).unwrap(), Balance::new(id.clone(), amount(100)));
    assert_eq!(store.debit_balance(&debit).unwrap(), Balance::new(id.clone(), amount(67)));
    assert_eq!(store.get_balance_by_client_id(&get(&id)).unwrap().balance(), &amount(67));
    let stranger = CreditTransactionRequest::new(ClientId::from_number(4), amount(1)).unwrap();
    assert_eq!(
        store.credit_balance(&stranger).err().unwrap(),
        ClientError::NotFoundById { id_document: ClientId::from_number(4) }
    );
}

#[test]
fn store_refuses_a_sum_it_cannot_hold() {
    let mut store = InMemoryRepository::new();
    let id = store.create_client(&request("A", "1")).unwrap().id().clone();
    store.init_client_balance(&id).unwrap();
    let most = MonetaryAmount::new(0xFFFF_FFFF_FFFF_FFFF_FFFF_FFFF, 0).unwrap();
    store.credit_balance(&CreditTransactionRequest::new(id.clone(), most).unwrap()).unwrap();
    let one = CreditTransactionRequest::new(id.clone(), amount(1)).unwrap();
    assert_eq!(store.credit_balance(&one).err().unwrap().code(), "CLIENT_UNKNOWN_ERROR");
    assert_eq!(store.get_balance_by_client_id(&get(&id)).unwrap().balance(), &most);
}

#[test]
fn reset_returns_every_balance_and_leaves_zeros() {
    let mut store = InMemoryRepository::new();
    let a = store.create_client(&request("A", "1")).unwrap().id().clone();
    let b = store.create_client(&request("B", "2")).unwrap().id().clone();
    store.init_client_balance(&a).unwrap();
    store.init_client_balance(&b).unwrap();
    store.credit_balance(&CreditTransactionRequest::new(a.clone(), amount(100)).unwrap()).unwrap();
    store.debit_balance(&DebitTransactionRequest::new(b.clone(), amount(-50)).unwrap()).unwrap();
    let snapshot = store.reset_all_balances_to_zero().unwrap();
    assert_eq!(snapshot, vec![Balance::new(a.clone(), amount(100)), Balance::new(b.clone(), amount(-50))]);
    assert_eq!(store.get_balance_by_client_id(&get(&a)).unwrap().balance(), &amount(0));
    assert_eq!(store.get_balance_by_client_id(&get(&b)).unwrap().balance(), &amount(0));
}

#[test]
fn merge_adds_and_passes_over_clients_without_balance() {
    let mut store = InMemoryRepository::new();
    let a = store.create_client(&request("A", "1")).unwrap().id().clone();
    store.init_client_balance(&a).unwrap();
    store.credit_balance(&CreditTransactionRequest::new(a.clone(), amount(10)).unwrap()).unwrap();
    let olds = vec![
        Balance::new(a.clone(), amount(5)),
        Balance::new(ClientId::from_number(77), amount(1000)),
        Balance::new(a.clone(), amount(-1)),
    ];
    assert!(store.merge_old_balances(olds).is_ok());
    assert_eq!(store.get_balance_by_client_id(&get(&a)).unwrap().balance(), &amount(14));
    assert!(store.get_balance_by_client_id(&get(&ClientId::from_number(77))).is_err());
}

#[test]
fn merge_that_cannot_be_held_changes_nothing() {
    let mut store = InMemoryRepository::new();
    let a = store.create_client(&request("A", "1")).unwrap().id().clone();
    let b = store.create_client(&request("B", "2")).unwrap().id().clone();
    store.init_client_balance(&a).unwrap();
    store.init_client_balance(&b).unwrap();
    let most = MonetaryAmount::new(0xFFFF_FFFF_FFFF_FFFF_FFFF_FFFF, 0).unwrap();
    store.credit_balance(&CreditTransactionRequest::new(b.clone(), most).unwrap()).unwrap();
    let olds = vec![Balance::new(a.clone(), amount(5)), Balance::new(b.clone(), amount(1))];
    assert_eq!(store.merge_old_balances(olds).err().unwrap().code(), "CLIENT_UNKNOWN_ERROR");
    assert_eq!(store.get_balance_by_client_id(&get(&a)).unwrap().balance(), &amount(0));
    assert_eq!(store.get_balance_by_client_id(&get(&b)).unwrap().balance(), &most);
}

#[test]
fn deleted_client_is_gone_and_its_id_is_not_given_again() {
    let mut store = InMemoryRepository::new();
    let a = store.create_client(&request("A", "1")).unwrap().id().clone();
    assert!(store.delete_client(&a).is_ok());
    assert!(!store.client_id_exists(&a).unwrap());
    assert!(store.delete_client(&a).is_ok());
    let again = store.create_client(&request("A", "1")).unwrap();
    assert_eq!(again.id().number(), 1);
}
