use client_balance::domain::model::entity::balance::Balance;
use client_balance::domain::model::value::amount::MonetaryAmount;
use client_balance::domain::model::value::client_id::ClientId;

fn amount(units: i64) -> MonetaryAmount {
    MonetaryAmount::from_integer(units)
}

#[test]
fn test_01_given_a_balance_when_creating_it_then_it_should_be_created() {
    let client_id = ClientId::new("1").unwrap();
    let balance = Balance::new(client_id.clone(), amount(100));
    assert_eq!(balance.balance(), &amount(100));
    assert_eq!(balance.client_id(), &client_id);
}

#[test]
fn test_02_given_a_balance_when_setting_new_balance_then_it_should_update_and_return_old() {
    let mut balance = Balance::new(ClientId::new("1").unwrap(), amount(100));
    let old = balance.set_balance(amount(200));
    assert_eq!(old, amount(100));
    assert_eq!(balance.balance(), &amount(200));
}

#[test]
fn test_03_given_a_balance_with_zero_then_it_should_be_created() {
    let balance = Balance::new(ClientId::new("1").unwrap(), amount(0));
    assert_eq!(balance.balance(), &amount(0));
}

#[test]
fn test_04_given_a_balance_with_negative_value_then_it_should_be_created() {
    let balance = Balance::new(ClientId::new("1").unwrap(), amount(-50));
    assert_eq!(balance.balance(), &amount(-50));
}

#[test]
fn test_05_given_a_balance_when_setting_new_balance_then_id_should_remain_unchanged() {
    let mut balance = Balance::new(ClientId::new("1").unwrap(), amount(100));
    let id_before = balance.client_id().clone();
    balance.set_balance(amount(300));
    assert_eq!(balance.client_id(), &id_before);
}

#[test]
fn test_06_given_a_balance_when_increasing_then_balance_should_increase() {
    let mut balance = Balance::new(ClientId::new("1").unwrap(), amount(50));
    balance.set_balance(balance.balance().checked_add(&amount(25)).unwrap());
    assert_eq!(balance.balance(), &amount(75));
}

#[test]
fn test_07_given_a_balance_when_decreasing_then_balance_should_decrease() {
    let mut balance = Balance::new(ClientId::new("1").unwrap(), amount(50));
    balance.set_balance(balance.balance().checked_add(&amount(-20)).unwrap());
    assert_eq!(balance.balance(), &amount(30));
}

#[test]
fn test_08_given_a_balance_when_changing_from_negative_to_positive_then_should_reflect() {
    let mut balance = Balance::new(ClientId::new("1").unwrap(), amount(-10));
    balance.set_balance(amount(20));
    assert_eq!(balance.balance(), &amount(20));
}

#[test]
fn test_09_given_a_balance_when_changing_from_positive_to_negative_then_should_reflect() {
    let mut balance = Balance::new(ClientId::new("1").unwrap(), amount(30));
    balance.set_balance(amount(-5));
    assert_eq!(balance.balance(), &amount(-5));
}
