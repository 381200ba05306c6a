use token_standard::contract::{
    deduct_allowance, handle_approve, handle_transfer, handle_transfer_from, instantiate,
    query_allowance, query_balance, ReceiverKind,
};
use token_standard::error::ContractError;
use token_standard::msg::InstantiateMsg;
use token_standard::state::Ledger;

fn fresh_ledger(creator: &str, amount: u128) -> Ledger {
    let msg = InstantiateMsg {
        name: "Test".to_string(),
        symbol: "TST".to_string(),
        decimals: 8,
        initial_balances: amount,
    };
    instantiate(creator.to_string(), msg).unwrap().0
}

fn token() -> String {
    "token".to_string()
}

#[test]
fn conservation_across_transfers() {
    let mut ledger = fresh_ledger("a", 10_000);
    handle_transfer(&mut ledger, &token(), "a".to_string(), "b".to_string(), 2_500, ReceiverKind::PlainAccount).unwrap();
    handle_transfer(&mut ledger, &token(), "b".to_string(), "c".to_string(), 500, ReceiverKind::PlainAccount).unwrap();
    handle_approve(&mut ledger, "a".to_string(), "d".to_string(), 1_000, 0).unwrap();
    handle_transfer_from(&mut ledger, &token(), "d".to_string(), "a".to_string(), "c".to_string(), 1_000, ReceiverKind::PlainAccount).unwrap();

    let a = query_balance(&ledger, "a".to_string()).balance;
    let b = query_balance(&ledger, "b".to_string()).balance;
    let c = query_balance(&ledger, "c".to_string()).balance;
    let d = query_balance(&ledger, "d".to_string()).balance;
    assert_eq!(a, 6_500);
    assert_eq!(b, 2_000);
    assert_eq!(c, 1_500);
    assert_eq!(d, 0);
    assert_eq!(a + b + c + d, ledger.token.total_supply);
}

#[test]
fn no_negative_balances() {
    // an operation that would drive a balance below zero fails and leaves
    // every balance unchanged
    let mut ledger = fresh_ledger("a", 100);
    handle_transfer(&mut ledger, &token(), "a".to_string(), "b".to_string(), 60, ReceiverKind::PlainAccount).unwrap();

    let err = handle_transfer(&mut ledger, &token(), "b".to_string(), "c".to_string(), 61, ReceiverKind::PlainAccount)
        .unwrap_err();
    assert_eq!(err, ContractError::InsufficientFunds);
    assert_eq!(query_balance(&ledger, "a".to_string()).balance, 40);
    assert_eq!(query_balance(&ledger, "b".to_string()).balance, 60);
    assert_eq!(query_balance(&ledger, "c".to_string()).balance, 0);

    // the same through a delegated transfer
    handle_approve(&mut ledger, "b".to_string(), "s".to_string(), 100, 0).unwrap();
    let err = handle_transfer_from(&mut ledger, &token(), "s".to_string(), "b".to_string(), "c".to_string(), 61, ReceiverKind::PlainAccount)
        .unwrap_err();
    assert_eq!(err, ContractError::InsufficientFunds);
    assert_eq!(query_balance(&ledger, "b".to_string()).balance, 60);
    assert_eq!(query_balance(&ledger, "c".to_string()).balance, 0);
    // the allowance was not consumed either
    assert_eq!(query_allowance(&ledger, "b".to_string(), "s".to_string()).allowance, 100);
}

#[test]
fn zero_amount_rejected() {
    let mut ledger = fresh_ledger("a", 100);
    let err = handle_transfer(&mut ledger, &token(), "a".to_string(), "b".to_string(), 0, ReceiverKind::PlainAccount)
        .unwrap_err();
    assert_eq!(err, ContractError::InvalidZeroAmount);
    assert_eq!(query_balance(&ledger, "a".to_string()).balance, 100);
    assert_eq!(query_balance(&ledger, "b".to_string()).balance, 0);
}

#[test]
fn self_approval_rejected() {
    let mut ledger = fresh_ledger("a", 100);
    let err = handle_approve(&mut ledger, "a".to_string(), "a".to_string(), 10, 0).unwrap_err();
    assert_eq!(err, ContractError::CannotSetOwnAccount);
}

#[test]
fn optimistic_lock() {
    let mut ledger = fresh_ledger("a", 100);
    handle_approve(&mut ledger, "a".to_string(), "s".to_string(), 5, 0).unwrap();

    // a stale observation is refused and the allowance stays
    let err = handle_approve(&mut ledger, "a".to_string(), "s".to_string(), 9, 4).unwrap_err();
    assert_eq!(err, ContractError::InvalidCurrentAllowance);
    assert_eq!(query_allowance(&ledger, "a".to_string(), "s".to_string()).allowance, 5);

    // restating the stored value succeeds
    handle_approve(&mut ledger, "a".to_string(), "s".to_string(), 9, 5).unwrap();
    assert_eq!(query_allowance(&ledger, "a".to_string(), "s".to_string()).allowance, 9);
}

#[test]
fn allowance_symmetry() {
    let mut ledger = fresh_ledger("a", 100);
    let owner = "a".to_string();
    let spender = "s".to_string();

    handle_approve(&mut ledger, owner.clone(), spender.clone(), 7, 0).unwrap();
    assert_eq!(ledger.allowance_of(&owner, &spender), 7);
    assert_eq!(ledger.allowance_of_spender(&spender, &owner), 7);

    deduct_allowance(&mut ledger, &owner, &spender, 3).unwrap();
    assert_eq!(ledger.allowance_of(&owner, &spender), 4);
    assert_eq!(ledger.allowance_of_spender(&spender, &owner), 4);

    // approving zero deletes both halves of the pair
    handle_approve(&mut ledger, owner.clone(), spender.clone(), 0, 4).unwrap();
    assert_eq!(ledger.allowance_lookup(&owner, &spender), None);
    assert_eq!(ledger.allowance_lookup_spender(&spender, &owner), None);
}

#[test]
fn depleted_allowance_entry_is_kept() {
    // draining an allowance through a delegated transfer keeps a zero entry;
    // only an explicit zero approval deletes it
    let mut ledger = fresh_ledger("a", 100);
    let owner = "a".to_string();
    let spender = "s".to_string();
    handle_approve(&mut ledger, owner.clone(), spender.clone(), 10, 0).unwrap();
    handle_transfer_from(&mut ledger, &token(), spender.clone(), owner.clone(), "c".to_string(), 10, ReceiverKind::PlainAccount)
        .unwrap();
    assert_eq!(ledger.allowance_lookup(&owner, &spender), Some(0));
    assert_eq!(ledger.allowance_lookup_spender(&spender, &owner), Some(0));
}

#[test]
fn receiver_rejection_rollback() {
    let mut ledger = fresh_ledger("owner", 1000);
    let err = handle_transfer(
        &mut ledger,
        &token(),
        "owner".to_string(),
        "recipient".to_string(),
        100,
        ReceiverKind::ProgrammableAccount { enabled: false },
    )
    .unwrap_err();
    assert_eq!(err, ContractError::NonTransferable);
    assert_eq!(query_balance(&ledger, "owner".to_string()).balance, 1000);
    assert_eq!(query_balance(&ledger, "recipient".to_string()).balance, 0);
}

#[test]
fn end_to_end_transfer_from() {
    let mut ledger = fresh_ledger("owner", 1_000_000_000);
    handle_approve(&mut ledger, "owner".to_string(), "spender".to_string(), 1_000_000, 0).unwrap();
    handle_transfer_from(
        &mut ledger,
        &token(),
        "spender".to_string(),
        "owner".to_string(),
        "recipient".to_string(),
        500_000,
        ReceiverKind::PlainAccount,
    )
    .unwrap();
    assert_eq!(query_balance(&ledger, "owner".to_string()).balance, 999_500_000);
    assert_eq!(query_balance(&ledger, "recipient".to_string()).balance, 500_000);
    assert_eq!(
        query_allowance(&ledger, "owner".to_string(), "spender".to_string()).allowance,
        500_000
    );
}

#[test]
fn credit_overflow_is_refused() {
    let mut ledger = fresh_ledger("a", 1000);
    // a raw credit can overflow the 128-bit range; the ledger refuses it and
    // stays as it was
    ledger.credit(&"a".to_string(), u128::MAX - 1500).unwrap();
    let err = ledger.credit(&"a".to_string(), 501).unwrap_err();
    assert_eq!(err, ContractError::Overflow);
    assert_eq!(ledger.balance_of(&"a".to_string()), u128::MAX - 500);
    ledger.credit(&"a".to_string(), 500).unwrap();
    assert_eq!(ledger.balance_of(&"a".to_string()), u128::MAX);
}

#[test]
fn transfer_to_self_moves_nothing() {
    let mut ledger = fresh_ledger("a", 100);
    let res = handle_transfer(&mut ledger, &token(), "a".to_string(), "a".to_string(), 60, ReceiverKind::PlainAccount)
        .unwrap();
    assert_eq!(res.events[0].ty, "Transfer");
    assert_eq!(query_balance(&ledger, "a".to_string()).balance, 100);

    // even the whole balance can be sent to oneself: the debit happens
    // before the credit, so nothing overflows
    handle_transfer(&mut ledger, &token(), "a".to_string(), "a".to_string(), 100, ReceiverKind::PlainAccount)
        .unwrap();
    assert_eq!(query_balance(&ledger, "a".to_string()).balance, 100);
}

#[test]
fn well_formed_detects_corruption() {
    let ledger = fresh_ledger("a", 100);
    assert!(ledger.well_formed());

    // a duplicated balance key
    let mut broken = ledger.clone();
    broken.balances.push(("a".to_string(), 5));
    assert!(!broken.well_formed());

    // an allowance entry missing from the reverse index
    let mut broken = ledger.clone();
    broken.allowances.push(("a".to_string(), "s".to_string(), 5));
    assert!(!broken.well_formed());

    // mirrored entries that disagree on the value
    let mut broken = ledger.clone();
    broken.allowances.push(("a".to_string(), "s".to_string(), 5));
    broken.allowances_spender.push(("s".to_string(), "a".to_string(), 6));
    assert!(!broken.well_formed());

    // an invalid token description
    let mut broken = ledger.clone();
    broken.token.decimals = 19;
    assert!(!broken.well_formed());
}

#[test]
fn transfer_from_of_zero_needs_an_entry() {
    // unlike a direct transfer, a delegated transfer of zero is not refused
    // up front: it succeeds when an entry exists and fails with NoAllowance
    // when none does
    let mut ledger = fresh_ledger("a", 100);
    let err = handle_transfer_from(&mut ledger, &token(), "s".to_string(), "a".to_string(), "b".to_string(), 0, ReceiverKind::PlainAccount)
        .unwrap_err();
    assert_eq!(err, ContractError::NoAllowance);

    handle_approve(&mut ledger, "a".to_string(), "s".to_string(), 10, 0).unwrap();
    let res = handle_transfer_from(&mut ledger, &token(), "s".to_string(), "a".to_string(), "b".to_string(), 0, ReceiverKind::PlainAccount)
        .unwrap();
    assert_eq!(res.events[0].ty, "Transfer");
    assert_eq!(query_balance(&ledger, "a".to_string()).balance, 100);
    assert_eq!(query_allowance(&ledger, "a".to_string(), "s".to_string()).allowance, 10);
}
