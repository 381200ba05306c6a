use token_standard::contract::{
    execute, handle_approve, handle_transfer, handle_transfer_from, instantiate, query,
    query_allowance, query_balance, query_info, query_total_supply, receive, CallContext,
    ReceiverKind,
};
use token_standard::error::ContractError;
use token_standard::event::Response;
use token_standard::msg::{ExecuteMsg, InstantiateMsg, QueryAnswer, QueryMsg};
use token_standard::state::Ledger;

fn do_instantiate(creator: &str, amount: u128) -> Ledger {
    let msg = InstantiateMsg {
        name: "Test".to_string(),
        symbol: "TST".to_string(),
        decimals: 8,
        initial_balances: amount,
    };
    let (ledger, res) = instantiate(creator.to_string(), msg).unwrap();
    assert_eq!(0, res.messages.len());
    let info = query_info(&ledger);
    assert_eq!(info.name, "Test");
    assert_eq!(info.symbol, "TST");
    assert_eq!(info.decimal, 8);
    assert_eq!(info.total_supply, amount);
    ledger
}

fn plain_ctx(token: &str, sender: &str) -> CallContext {
    CallContext {
        token_address: token.to_string(),
        sender: sender.to_string(),
        recipient_kind: ReceiverKind::PlainAccount,
        sender_is_contract: false,
    }
}

#[test]
fn transfer() {
    let creator = String::from("creator");
    let recipient = String::from("recipient");

    let init_balance: u128 = 1000000000;
    let mut ledger = do_instantiate(&creator, init_balance);

    // transfer zero
    let msg = ExecuteMsg::Transfer { recipient: recipient.clone(), amount: 0 };
    let err = execute(&mut ledger, plain_ctx("cosmos2contract", &creator), msg).unwrap_err();
    assert_eq!(err, ContractError::InvalidZeroAmount);

    // transfer normal
    let amount: u128 = 1000;
    let msg = ExecuteMsg::Transfer { recipient: recipient.clone(), amount };
    let res = execute(&mut ledger, plain_ctx("cosmos2contract", &creator), msg).unwrap();
    assert_eq!(res.events[0].ty, "Transfer");
}

#[test]
fn transfer_from() {
    let owner = String::from("owner");
    let spender = String::from("spender");
    let recipient = String::from("recipient");

    let init_balance: u128 = 1000000000;
    let mut ledger = do_instantiate(&owner, init_balance);

    // approve
    let allow1: u128 = 1000000;
    let msg = ExecuteMsg::Approve { spender: spender.clone(), amount: allow1, current_allowance: 0 };
    let res = execute(&mut ledger, plain_ctx("cosmos2contract", &owner), msg).unwrap();
    assert_eq!(res.events[0].ty, "Approval");
    let allowance = query_allowance(&ledger, owner.clone(), spender.clone());
    assert_eq!(allow1, allowance.allowance);

    // transfer_from
    let amount: u128 = 500000;
    let msg = ExecuteMsg::TransferFrom {
        owner: owner.clone(),
        recipient: recipient.clone(),
        amount,
    };
    let res = execute(&mut ledger, plain_ctx("cosmos2contract", &spender), msg).unwrap();
    assert_eq!(res.events[0].ty, "Transfer");
    let res = query_balance(&ledger, owner.clone());
    assert_eq!(res.balance, init_balance - amount);
}

#[test]
fn transfer_insufficient_funds() {
    let mut ledger = do_instantiate("creator", 1000);
    let err = handle_transfer(
        &mut ledger,
        &"token".to_string(),
        "creator".to_string(),
        "recipient".to_string(),
        2000,
        ReceiverKind::PlainAccount,
    )
    .unwrap_err();
    assert_eq!(err, ContractError::InsufficientFunds);
    assert_eq!(ledger.balance_of(&"creator".to_string()), 1000);
    assert_eq!(ledger.balance_of(&"recipient".to_string()), 0);
}

#[test]
fn transfer_from_without_approval() {
    let mut ledger = do_instantiate("owner", 1000);
    let err = handle_transfer_from(
        &mut ledger,
        &"token".to_string(),
        "spender".to_string(),
        "owner".to_string(),
        "recipient".to_string(),
        100,
        ReceiverKind::PlainAccount,
    )
    .unwrap_err();
    assert_eq!(err, ContractError::NoAllowance);
    assert_eq!(ledger.balance_of(&"owner".to_string()), 1000);
}

#[test]
fn transfer_from_beyond_allowance() {
    let mut ledger = do_instantiate("owner", 1000);
    handle_approve(&mut ledger, "owner".to_string(), "spender".to_string(), 50, 0).unwrap();
    let err = handle_transfer_from(
        &mut ledger,
        &"token".to_string(),
        "spender".to_string(),
        "owner".to_string(),
        "recipient".to_string(),
        51,
        ReceiverKind::PlainAccount,
    )
    .unwrap_err();
    assert_eq!(err, ContractError::InsufficientAllowance);
    assert_eq!(ledger.balance_of(&"owner".to_string()), 1000);
    assert_eq!(
        query_allowance(&ledger, "owner".to_string(), "spender".to_string()).allowance,
        50
    );
}

#[test]
fn transfer_notifies_consenting_contract_recipient() {
    let mut ledger = do_instantiate("creator", 1000);
    let res = handle_transfer(
        &mut ledger,
        &"token".to_string(),
        "creator".to_string(),
        "vault".to_string(),
        400,
        ReceiverKind::ProgrammableAccount { enabled: true },
    )
    .unwrap();
    assert_eq!(res.messages.len(), 1);
    assert_eq!(res.messages[0].contract_addr, "vault");
    assert_eq!(res.messages[0].sender, "token");
    assert_eq!(res.messages[0].amount, 400);
    assert_eq!(res.attributes.len(), 1);
    assert_eq!(res.attributes[0], ("on_ft_received".to_string(), "true".to_string()));
    assert_eq!(ledger.balance_of(&"vault".to_string()), 400);
}

#[test]
fn receive_checks_the_actual_caller() {
    // the claimed sender differs from the actual caller
    let err = receive(&"mallory".to_string(), "token".to_string(), 5, true).unwrap_err();
    assert_eq!(err, ContractError::Unauthorized);
    // the caller is not a programmable account
    let err = receive(&"token".to_string(), "token".to_string(), 5, false).unwrap_err();
    assert_eq!(err, ContractError::Unauthorized);
    // both checks pass
    let res: Response = receive(&"token".to_string(), "token".to_string(), 5, true).unwrap();
    assert_eq!(res.messages.len(), 0);
    assert_eq!(res.events.len(), 0);
}

#[test]
fn receive_through_execute() {
    let mut ledger = do_instantiate("creator", 1000);
    let ctx = CallContext {
        token_address: "token".to_string(),
        sender: "other".to_string(),
        recipient_kind: ReceiverKind::PlainAccount,
        sender_is_contract: true,
    };
    let msg = ExecuteMsg::Receive { sender: "other".to_string(), amount: 5 };
    let res = execute(&mut ledger, ctx, msg).unwrap();
    assert_eq!(res.events.len(), 0);
    assert_eq!(ledger.balance_of(&"creator".to_string()), 1000);
}

#[test]
fn deduct_allowance_updates_both_indexes() {
    let mut ledger = do_instantiate("owner", 1000);
    let owner = "owner".to_string();
    let spender = "spender".to_string();

    let err =
        token_standard::contract::deduct_allowance(&mut ledger, &owner, &spender, 1).unwrap_err();
    assert_eq!(err, ContractError::NoAllowance);

    handle_approve(&mut ledger, owner.clone(), spender.clone(), 10, 0).unwrap();
    let resp = token_standard::contract::deduct_allowance(&mut ledger, &owner, &spender, 4).unwrap();
    assert_eq!(resp.allowance, 6);
    assert_eq!(ledger.allowance_of(&owner, &spender), 6);
    assert_eq!(ledger.allowance_of_spender(&spender, &owner), 6);

    let err =
        token_standard::contract::deduct_allowance(&mut ledger, &owner, &spender, 7).unwrap_err();
    assert_eq!(err, ContractError::InsufficientAllowance);
    assert_eq!(ledger.allowance_of(&owner, &spender), 6);
}

#[test]
fn query_dispatch() {
    let mut ledger = do_instantiate("creator", 777);
    handle_approve(&mut ledger, "creator".to_string(), "friend".to_string(), 5, 0).unwrap();

    match query(&ledger, QueryMsg::Info {}) {
        QueryAnswer::Info(i) => {
            assert_eq!(i.name, "Test");
            assert_eq!(i.total_supply, 777);
        }
        other => panic!("unexpected answer {:?}", other),
    }
    match query(&ledger, QueryMsg::TotalSupply {}) {
        QueryAnswer::TotalSupply(t) => assert_eq!(t.total_supply, 777),
        other => panic!("unexpected answer {:?}", other),
    }
    match query(&ledger, QueryMsg::Balance { owner: "creator".to_string() }) {
        QueryAnswer::Balance(b) => assert_eq!(b.balance, 777),
        other => panic!("unexpected answer {:?}", other),
    }
    match query(&ledger, QueryMsg::Balance { owner: "stranger".to_string() }) {
        QueryAnswer::Balance(b) => assert_eq!(b.balance, 0),
        other => panic!("unexpected answer {:?}", other),
    }
    match query(
        &ledger,
        QueryMsg::Allowance { owner: "creator".to_string(), spender: "friend".to_string() },
    ) {
        QueryAnswer::Allowance(a) => assert_eq!(a.allowance, 5),
        other => panic!("unexpected answer {:?}", other),
    }
    match query(
        &ledger,
        QueryMsg::OnFTReceived {
            sender: "token".to_string(),
            owner: "creator".to_string(),
            amount: 0,
        },
    ) {
        QueryAnswer::OnFTReceived(o) => assert!(!o.enable),
        other => panic!("unexpected answer {:?}", other),
    }
    match query(
        &ledger,
        QueryMsg::OnFTReceived {
            sender: "token".to_string(),
            owner: "creator".to_string(),
            amount: 3,
        },
    ) {
        QueryAnswer::OnFTReceived(o) => assert!(o.enable),
        other => panic!("unexpected answer {:?}", other),
    }
    let t = query_total_supply(&ledger);
    assert_eq!(t.total_supply, 777);
}

#[test]
fn version_is_stamped_at_construction() {
    let ledger = do_instantiate("creator", 1);
    assert_eq!(ledger.version.contract, "crates.io:token-standard");
    assert_eq!(ledger.version.version, "0.1.0");
}
