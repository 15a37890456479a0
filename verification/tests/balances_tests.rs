use ledger_runtime::balances::Pallet;
use ledger_runtime::support::Error;

#[test]
fn init_balances() {
    let mut balances = Pallet::new();

    assert_eq!(balances.balance(&"alice".to_string()), 0);
    balances.set_balance(&"alice".to_string(), 100);
    assert_eq!(balances.balance(&"alice".to_string()), 100);
    assert_eq!(balances.balance(&"bob".to_string()), 0);
}

#[test]
fn transfer_balance() {
    let alice = "alice".to_string();
    let bob = "bob".to_string();

    let mut balances = Pallet::new();

    balances.set_balance(&alice, 100);
    let _ = balances.transfer(alice.clone(), bob.clone(), 90);

    assert_eq!(balances.balance(&alice), 10);
    assert_eq!(balances.balance(&bob), 90);
}

#[test]
fn transfer_insufficient_balance_changes_nothing() {
    let alice = "alice".to_string();
    let bob = "bob".to_string();

    let mut balances = Pallet::new();
    balances.set_balance(&alice, 10);
    balances.set_balance(&bob, 7);

    let res = balances.transfer(alice.clone(), bob.clone(), 11);
    assert_eq!(res, Err(Error::InsufficientBalance));
    assert_eq!(res.unwrap_err().message(), "Insufficient balance");
    assert_eq!(balances.balance(&alice), 10);
    assert_eq!(balances.balance(&bob), 7);
}

#[test]
fn transfer_overflow_changes_nothing() {
    let alice = "alice".to_string();
    let bob = "bob".to_string();

    let mut balances = Pallet::new();
    balances.set_balance(&alice, 1);
    balances.set_balance(&bob, u128::MAX);

    let res = balances.transfer(alice.clone(), bob.clone(), 1);
    assert_eq!(res, Err(Error::Overflow));
    assert_eq!(res.unwrap_err().message(), "Overflow when adding to balance");
    assert_eq!(balances.balance(&alice), 1);
    assert_eq!(balances.balance(&bob), u128::MAX);
}

#[test]
fn transfer_round_trip_restores_balances() {
    let alice = "alice".to_string();
    let bob = "bob".to_string();

    let mut balances = Pallet::new();
    balances.set_balance(&alice, 100);
    balances.set_balance(&bob, 5);

    assert_eq!(balances.transfer(alice.clone(), bob.clone(), 40), Ok(()));
    assert_eq!(balances.transfer(bob.clone(), alice.clone(), 40), Ok(()));

    assert_eq!(balances.balance(&alice), 100);
    assert_eq!(balances.balance(&bob), 5);
}

#[test]
fn self_transfer_is_a_no_op() {
    let alice = "alice".to_string();

    let mut balances = Pallet::new();
    balances.set_balance(&alice, 10);

    assert_eq!(balances.transfer(alice.clone(), alice.clone(), 4), Ok(()));
    assert_eq!(balances.balance(&alice), 10);

    assert_eq!(
        balances.transfer(alice.clone(), alice.clone(), 11),
        Err(Error::InsufficientBalance)
    );
    assert_eq!(balances.balance(&alice), 10);
}

#[test]
fn zero_amount_transfer_succeeds_without_change() {
    let alice = "alice".to_string();
    let bob = "bob".to_string();

    let mut balances = Pallet::new();
    balances.set_balance(&alice, 10);

    assert_eq!(balances.transfer(alice.clone(), bob.clone(), 0), Ok(()));
    assert_eq!(balances.balance(&alice), 10);
    assert_eq!(balances.balance(&bob), 0);
}
