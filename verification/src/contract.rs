use vstd::prelude::*;

use crate::error::ContractError;
use crate::event::{
    approval_event, is_approval_event, is_attr, is_receive_notification, is_transfer_event,
    transfer_event, Response,
};
use crate::event::ReceiveNotification;
use crate::msg::{
    AllowanceResponse, BalanceResponse, ExecuteMsg, InfoResponse, InstantiateMsg,
    OnFTReceivedResponse, QueryAnswer, QueryMsg, TotalSupplyResponse,
};
use crate::state::{
    alw_lookup, alw_of, alw_unchanged_except, bal_lookup, bal_of, bal_unchanged_except,
    sum_balances, ContractVersion, Ledger, TokenInfo,
};

verus! {

/// What the host knows about an account that is about to receive funds: a
/// plain account always accepts; a programmable account was asked through its
/// capability query and answered with `enabled`.
#[derive(Clone, Copy, Debug, PartialEq, Eq, Structural)]
pub enum ReceiverKind {
    PlainAccount,
    ProgrammableAccount { enabled: bool },
}

impl ReceiverKind {
    /// The recipient was asked and declined custody.
    pub open spec fn declines(&self) -> bool {
        match *self {
            ReceiverKind::PlainAccount => false,
            ReceiverKind::ProgrammableAccount { enabled } => !enabled,
        }
    }
}

/// Host-supplied facts about the inbound call, gathered before the ledger
/// logic runs: the token instance's own address, the calling account, the
/// recipient's capability answer (for transfers), and whether the claimed
/// sender of a notification resolves to a contract (for `Receive`).
#[derive(Clone, Debug, PartialEq, Eq)]
pub struct CallContext {
    pub token_address: String,
    pub sender: String,
    pub recipient_kind: ReceiverKind,
    pub sender_is_contract: bool,
}

// ---------------------------------------------------------------------------
// Spec-level descriptions of the transitions.
// ---------------------------------------------------------------------------

/// Whether crediting `to` after debiting `from` would leave the 128-bit
/// range. A self-transfer restores the debited amount, so it never overflows.
pub open spec fn credit_would_overflow(
    b: Seq<(String, u128)>,
    from: Seq<char>,
    to: Seq<char>,
    amount: u128,
) -> bool {
    if to == from {
        false
    } else {
        bal_of(b, to) + amount > u128::MAX
    }
}

/// The error a direct transfer reports, `None` when it succeeds. The checks
/// run in this order: zero amount, sender funds, recipient overflow,
/// recipient consent.
pub open spec fn spec_transfer_err(
    l: Ledger,
    sender: Seq<char>,
    recipient: Seq<char>,
    amount: u128,
    recipient_kind: ReceiverKind,
) -> Option<ContractError> {
    if amount == 0 {
        Some(ContractError::InvalidZeroAmount)
    } else if bal_of(l.balances@, sender) < amount {
        Some(ContractError::InsufficientFunds)
    } else if credit_would_overflow(l.balances@, sender, recipient, amount) {
        Some(ContractError::Overflow)
    } else if recipient_kind.declines() {
        Some(ContractError::NonTransferable)
    } else {
        None
    }
}

/// The error a delegated transfer reports, `None` when it succeeds. Unlike a
/// direct transfer, a zero amount is not rejected up front: it only fails
/// when no allowance entry exists at all. The checks run in this order:
/// allowance presence, allowance size, owner funds, recipient overflow,
/// recipient consent.
pub open spec fn spec_transfer_from_err(
    l: Ledger,
    owner: Seq<char>,
    spender: Seq<char>,
    recipient: Seq<char>,
    amount: u128,
    recipient_kind: ReceiverKind,
) -> Option<ContractError> {
    match alw_lookup(l.allowances@, owner, spender) {
        None => Some(ContractError::NoAllowance),
        Some(cur) => if cur < amount {
            Some(ContractError::InsufficientAllowance)
        } else if bal_of(l.balances@, owner) < amount {
            Some(ContractError::InsufficientFunds)
        } else if credit_would_overflow(l.balances@, owner, recipient, amount) {
            Some(ContractError::Overflow)
        } else if recipient_kind.declines() {
            Some(ContractError::NonTransferable)
        } else {
            None
        },
    }
}

/// The error an approval reports, `None` when it succeeds: self-approval is
/// refused, then the optimistic lock requires the caller to restate the
/// allowance it last observed.
pub open spec fn spec_approve_err(
    l: Ledger,
    owner: Seq<char>,
    spender: Seq<char>,
    current_allowance: u128,
) -> Option<ContractError> {
    if spender == owner {
        Some(ContractError::CannotSetOwnAccount)
    } else if current_allowance != alw_of(l.allowances@, owner, spender) {
        Some(ContractError::InvalidCurrentAllowance)
    } else {
        None
    }
}

/// How a successful transfer moves value: `amount` leaves `sender`, arrives
/// at `recipient`, every other balance reads unchanged, and the stored total
/// is conserved.
pub open spec fn transfer_balances_applied(
    pre: Seq<(String, u128)>,
    post: Seq<(String, u128)>,
    sender: Seq<char>,
    recipient: Seq<char>,
    amount: u128,
) -> bool {
    &&& (sender == recipient ==> {
        &&& bal_of(post, sender) == bal_of(pre, sender)
        &&& bal_unchanged_except(pre, post, sender)
    })
    &&& (sender != recipient ==> {
        &&& bal_of(post, sender) == bal_of(pre, sender) - amount
        &&& bal_of(post, recipient) == bal_of(pre, recipient) + amount
        &&& forall|k: Seq<char>|
            k != sender && k != recipient ==> bal_of(post, k) == bal_of(pre, k)
    })
    &&& sum_balances(post) == sum_balances(pre)
}

/// The response of a successful transfer: one transfer event; and, exactly
/// when the recipient is a consenting programmable account, one scheduled
/// notification (plus, for a direct transfer, the acknowledgement attribute).
pub open spec fn is_transfer_response(
    resp: Response,
    token_address: Seq<char>,
    owner: Seq<char>,
    recipient: Seq<char>,
    amount: u128,
    recipient_kind: ReceiverKind,
    with_ack_attr: bool,
) -> bool {
    &&& resp.events@.len() == 1
    &&& is_transfer_event(resp.events@[0], owner, recipient, amount)
    &&& match recipient_kind {
        ReceiverKind::PlainAccount => {
            &&& resp.messages@.len() == 0
            &&& resp.attributes@.len() == 0
        },
        ReceiverKind::ProgrammableAccount { enabled } => {
            &&& enabled
            &&& resp.messages@.len() == 1
            &&& is_receive_notification(resp.messages@[0], recipient, token_address, amount)
            &&& if with_ack_attr {
                resp.attributes@.len() == 1 && is_attr(
                    resp.attributes@[0],
                    "on_ft_received"@,
                    "true"@,
                )
            } else {
                resp.attributes@.len() == 0
            }
        },
    }
}

/// The response of a successful approval: one approval event carrying the
/// old and the new amount, nothing else.
pub open spec fn is_approve_response(
    resp: Response,
    owner: Seq<char>,
    spender: Seq<char>,
    old_amount: u128,
    new_amount: u128,
) -> bool {
    &&& resp.events@.len() == 1
    &&& is_approval_event(resp.events@[0], owner, spender, old_amount, new_amount)
    &&& resp.messages@.len() == 0
    &&& resp.attributes@.len() == 0
}

// ---------------------------------------------------------------------------
// Initialization.
// ---------------------------------------------------------------------------

/// Creates the ledger: validates the token description, records the
/// write-once version stamp, and credits the deploying account with the whole
/// initial balance, which becomes the total supply.
pub fn instantiate(sender: String, msg: InstantiateMsg) -> (r: Result<
    (Ledger, Response),
    ContractError,
>)
    ensures
        match r {
            Ok(lr) => {
                &&& msg.valid()
                &&& lr.0.wf()
                &&& lr.0.conserves()
                &&& lr.0.token.name == msg.name
                &&& lr.0.token.symbol == msg.symbol
                &&& lr.0.token.decimals == msg.decimals
                &&& lr.0.token.total_supply == msg.initial_balances
                &&& bal_of(lr.0.balances@, sender@) == msg.initial_balances
                &&& forall|k: Seq<char>|
                    k != sender@ ==> bal_lookup(lr.0.balances@, k) == None::<u128>
                &&& lr.0.allowances@.len() == 0
                &&& lr.0.allowances_spender@.len() == 0
                &&& lr.0.version.contract@ == "crates.io:token-standard"@
                &&& lr.0.version.version@ == "0.1.0"@
                &&& lr.1.is_empty()
            },
            Err(e) => !msg.valid() && msg.spec_validate_err() == Some(e),
        },
{
    match msg.validate() {
        Ok(_) => {},
        Err(e) => {
            return Err(e);
        },
    }
    let total_supply = msg.initial_balances;
    let mut balances: Vec<(String, u128)> = Vec::new();
    balances.push((sender, total_supply));
    let ledger = Ledger {
        token: TokenInfo {
            name: msg.name,
            symbol: msg.symbol,
            decimals: msg.decimals,
            total_supply,
        },
        version: ContractVersion {
            contract: "crates.io:token-standard".to_owned(),
            version: "0.1.0".to_owned(),
        },
        balances,
        allowances: Vec::new(),
        allowances_spender: Vec::new(),
    };
    proof {
        crate::state::lemma_bal_lookup_at(ledger.balances@, 0);
        assert(ledger.balances@.drop_last() =~= Seq::<(String, u128)>::empty());
        assert(sum_balances(Seq::<(String, u128)>::empty()) == 0);
        assert(sum_balances(ledger.balances@) == total_supply + 0);
    }
    Ok((ledger, Response::new()))
}

// ---------------------------------------------------------------------------
// Execution.
// ---------------------------------------------------------------------------

/// Dispatches one state-changing request to its handler.
pub fn execute(state: &mut Ledger, ctx: CallContext, msg: ExecuteMsg) -> (r: Result<
    Response,
    ContractError,
>)
    requires
        old(state).wf(),
    ensures
        final(state).wf(),
        final(state).token == old(state).token,
        final(state).version == old(state).version,
        old(state).conserves() ==> final(state).conserves(),
        match msg {
            ExecuteMsg::Transfer { recipient, amount } => {
                &&& final(state).same_except_balances(old(state))
                &&& match spec_transfer_err(
                    *old(state),
                    ctx.sender@,
                    recipient@,
                    amount,
                    ctx.recipient_kind,
                ) {
                    Some(e) => r == Err::<Response, ContractError>(e) && *final(state) == *old(
                        state,
                    ),
                    None => match r {
                        Ok(resp) => transfer_balances_applied(
                            old(state).balances@,
                            final(state).balances@,
                            ctx.sender@,
                            recipient@,
                            amount,
                        ) && is_transfer_response(
                            resp,
                            ctx.token_address@,
                            ctx.sender@,
                            recipient@,
                            amount,
                            ctx.recipient_kind,
                            true,
                        ),
                        Err(_) => false,
                    },
                }
            },
            ExecuteMsg::TransferFrom { owner, recipient, amount } => {
                match spec_transfer_from_err(
                    *old(state),
                    owner@,
                    ctx.sender@,
                    recipient@,
                    amount,
                    ctx.recipient_kind,
                ) {
                    Some(e) => r == Err::<Response, ContractError>(e) && *final(state) == *old(
                        state,
                    ),
                    None => match r {
                        Ok(resp) => transfer_from_applied(
                            *old(state),
                            *final(state),
                            owner@,
                            ctx.sender@,
                            recipient@,
                            amount,
                        ) && is_transfer_response(
                            resp,
                            ctx.token_address@,
                            owner@,
                            recipient@,
                            amount,
                            ctx.recipient_kind,
                            false,
                        ),
                        Err(_) => false,
                    },
                }
            },
            ExecuteMsg::Approve { spender, amount, current_allowance } => {
                &&& final(state).same_except_allowances(old(state))
                &&& match spec_approve_err(*old(state), ctx.sender@, spender@, current_allowance) {
                    Some(e) => r == Err::<Response, ContractError>(e) && *final(state) == *old(
                        state,
                    ),
                    None => match r {
                        Ok(resp) => approve_applied(
                            *old(state),
                            *final(state),
                            ctx.sender@,
                            spender@,
                            amount,
                        ) && is_approve_response(
                            resp,
                            ctx.sender@,
                            spender@,
                            alw_of(old(state).allowances@, ctx.sender@, spender@),
                            amount,
                        ),
                        Err(_) => false,
                    },
                }
            },
            ExecuteMsg::Receive { sender, amount } => {
                &&& *final(state) == *old(state)
                &&& match r {
                    Ok(resp) => ctx.sender@ == sender@ && ctx.sender_is_contract
                        && resp.is_empty(),
                    Err(e) => e == ContractError::Unauthorized && !(ctx.sender@ == sender@
                        && ctx.sender_is_contract),
                }
            },
        },
{
    let CallContext { token_address, sender, recipient_kind, sender_is_contract } = ctx;
    match msg {
        ExecuteMsg::Transfer { recipient, amount } => handle_transfer(
            state,
            &token_address,
            sender,
            recipient,
            amount,
            recipient_kind,
        ),
        ExecuteMsg::TransferFrom { owner, recipient, amount } => handle_transfer_from(
            state,
            &token_address,
            sender,
            owner,
            recipient,
            amount,
            recipient_kind,
        ),
        ExecuteMsg::Approve { spender, amount, current_allowance } => handle_approve(
            state,
            sender,
            spender,
            amount,
            current_allowance,
        ),
        ExecuteMsg::Receive { sender: claimed, amount } => receive(
            &sender,
            claimed,
            amount,
            sender_is_contract,
        ),
    }
}

/// Moves `amount` from the caller to `recipient`. A zero amount is refused;
/// a programmable recipient that declined the capability query aborts the
/// whole call with `NonTransferable`, leaving every balance as it was.
pub fn handle_transfer(
    state: &mut Ledger,
    token_address: &String,
    sender: String,
    recipient: String,
    amount: u128,
    recipient_kind: ReceiverKind,
) -> (r: Result<Response, ContractError>)
    requires
        old(state).wf(),
    ensures
        final(state).wf(),
        final(state).same_except_balances(old(state)),
        sum_balances(final(state).balances@) == sum_balances(old(state).balances@),
        old(state).conserves() ==> final(state).conserves(),
        match spec_transfer_err(*old(state), sender@, recipient@, amount, recipient_kind) {
            Some(e) => r == Err::<Response, ContractError>(e) && *final(state) == *old(state),
            None => match r {
                Ok(resp) => transfer_balances_applied(
                    old(state).balances@,
                    final(state).balances@,
                    sender@,
                    recipient@,
                    amount,
                ) && is_transfer_response(
                    resp,
                    token_address@,
                    sender@,
                    recipient@,
                    amount,
                    recipient_kind,
                    true,
                ),
                Err(_) => false,
            },
        },
{
    if amount == 0 {
        return Err(ContractError::InvalidZeroAmount);
    }
    // All refusals are decided before any mutation, so an aborted call
    // leaves the state exactly as it was.
    let sender_balance = state.balance_of(&sender);
    if sender_balance < amount {
        return Err(ContractError::InsufficientFunds);
    }
    if !recipient.eq(&sender) {
        let recipient_balance = state.balance_of(&recipient);
        if amount > u128::MAX - recipient_balance {
            return Err(ContractError::Overflow);
        }
    }
    if let ReceiverKind::ProgrammableAccount { enabled } = recipient_kind {
        if !enabled {
            return Err(ContractError::NonTransferable);
        }
    }
    match state.debit(&sender, amount) {
        Ok(_) => {},
        Err(e) => {
            proof {
                assert(false);
            }
            return Err(e);
        },
    }
    let ghost mid = *state;
    match state.credit(&recipient, amount) {
        Ok(_) => {},
        Err(e) => {
            proof {
                assert(false);
            }
            return Err(e);
        },
    }
    let mut resp = Response::new();
    let ev = transfer_event(sender.as_str(), recipient.as_str(), amount);
    resp.events.push(ev);
    if let ReceiverKind::ProgrammableAccount { enabled: _ } = recipient_kind {
        resp.messages.push(
            ReceiveNotification {
                contract_addr: recipient,
                sender: token_address.clone(),
                amount,
            },
        );
        resp.attributes.push(("on_ft_received".to_owned(), "true".to_owned()));
    }
    Ok(resp)
}

/// How a successful delegated transfer changes the ledger: the balances move
/// as in a direct transfer, and the (owner, spender) allowance shrinks by
/// `amount` in both indexes. The entry is kept even when it reaches zero;
/// only `handle_approve` deletes entries.
pub open spec fn transfer_from_applied(
    pre: Ledger,
    post: Ledger,
    owner: Seq<char>,
    spender: Seq<char>,
    recipient: Seq<char>,
    amount: u128,
) -> bool {
    &&& post.token == pre.token
    &&& post.version == pre.version
    &&& transfer_balances_applied(pre.balances@, post.balances@, owner, recipient, amount)
    &&& alw_lookup(post.allowances@, owner, spender) == Some(
        (alw_of(pre.allowances@, owner, spender) - amount) as u128,
    )
    &&& alw_unchanged_except(pre.allowances@, post.allowances@, owner, spender)
}

/// Moves `amount` out of `owner`'s balance on the strength of the caller's
/// allowance, which is consumed first. A zero amount is not refused up
/// front; it fails only when no allowance entry exists at all.
pub fn handle_transfer_from(
    state: &mut Ledger,
    token_address: &String,
    spender: String,
    owner: String,
    recipient: String,
    amount: u128,
    recipient_kind: ReceiverKind,
) -> (r: Result<Response, ContractError>)
    requires
        old(state).wf(),
    ensures
        final(state).wf(),
        final(state).token == old(state).token,
        final(state).version == old(state).version,
        sum_balances(final(state).balances@) == sum_balances(old(state).balances@),
        old(state).conserves() ==> final(state).conserves(),
        match spec_transfer_from_err(
            *old(state),
            owner@,
            spender@,
            recipient@,
            amount,
            recipient_kind,
        ) {
            Some(e) => r == Err::<Response, ContractError>(e) && *final(state) == *old(state),
            None => match r {
                Ok(resp) => transfer_from_applied(
                    *old(state),
                    *final(state),
                    owner@,
                    spender@,
                    recipient@,
                    amount,
                ) && is_transfer_response(
                    resp,
                    token_address@,
                    owner@,
                    recipient@,
                    amount,
                    recipient_kind,
                    false,
                ),
                Err(_) => false,
            },
        },
{
    // All refusals are decided before any mutation, so an aborted call
    // leaves the state exactly as it was.
    let current = match state.allowance_lookup(&owner, &spender) {
        Some(c) => c,
        None => {
            return Err(ContractError::NoAllowance);
        },
    };
    if current < amount {
        return Err(ContractError::InsufficientAllowance);
    }
    let owner_balance = state.balance_of(&owner);
    if owner_balance < amount {
        return Err(ContractError::InsufficientFunds);
    }
    if !recipient.eq(&owner) {
        let recipient_balance = state.balance_of(&recipient);
        if amount > u128::MAX - recipient_balance {
            return Err(ContractError::Overflow);
        }
    }
    if let ReceiverKind::ProgrammableAccount { enabled } = recipient_kind {
        if !enabled {
            return Err(ContractError::NonTransferable);
        }
    }
    match deduct_allowance(state, &owner, &spender, amount) {
        Ok(_) => {},
        Err(e) => {
            proof {
                assert(false);
            }
            return Err(e);
        },
    }
    let ghost after_deduct = *state;
    match state.debit(&owner, amount) {
        Ok(_) => {},
        Err(e) => {
            proof {
                assert(false);
            }
            return Err(e);
        },
    }
    let ghost mid = *state;
    match state.credit(&recipient, amount) {
        Ok(_) => {},
        Err(e) => {
            proof {
                assert(false);
            }
            return Err(e);
        },
    }
    let mut resp = Response::new();
    let ev = transfer_event(owner.as_str(), recipient.as_str(), amount);
    resp.events.push(ev);
    if let ReceiverKind::ProgrammableAccount { enabled: _ } = recipient_kind {
        resp.messages.push(
            ReceiveNotification {
                contract_addr: recipient,
                sender: token_address.clone(),
                amount,
            },
        );
    }
    Ok(resp)
}

/// Consumes `amount` of the (owner, spender) allowance, writing the reduced
/// value back to both the forward and the reverse index - never only one.
/// Fails with `NoAllowance` when no entry exists and with
/// `InsufficientAllowance` when the entry is too small; the state is then
/// unchanged.
pub fn deduct_allowance(
    state: &mut Ledger,
    owner: &String,
    spender: &String,
    amount: u128,
) -> (r: Result<AllowanceResponse, ContractError>)
    requires
        old(state).wf(),
    ensures
        final(state).wf(),
        final(state).same_except_allowances(old(state)),
        match alw_lookup(old(state).allowances@, owner@, spender@) {
            None => r == Err::<AllowanceResponse, ContractError>(ContractError::NoAllowance)
                && *final(state) == *old(state),
            Some(cur) => if cur < amount {
                r == Err::<AllowanceResponse, ContractError>(ContractError::InsufficientAllowance)
                    && *final(state) == *old(state)
            } else {
                &&& r == Ok::<AllowanceResponse, ContractError>(
                    (AllowanceResponse { allowance: (cur - amount) as u128 }),
                )
                &&& alw_lookup(final(state).allowances@, owner@, spender@) == Some(
                    (cur - amount) as u128,
                )
                &&& alw_unchanged_except(
                    old(state).allowances@,
                    final(state).allowances@,
                    owner@,
                    spender@,
                )
            },
        },
{
    let current = match state.allowance_lookup(owner, spender) {
        Some(c) => c,
        None => {
            return Err(ContractError::NoAllowance);
        },
    };
    if current < amount {
        return Err(ContractError::InsufficientAllowance);
    }
    let remaining = current - amount;
    state.set_allowance(owner, spender, remaining);
    Ok(AllowanceResponse { allowance: remaining })
}

/// How a successful approval changes the ledger: the (owner, spender) entry
/// is deleted from both indexes when the new amount is zero, written to both
/// otherwise, and nothing else moves.
pub open spec fn approve_applied(
    pre: Ledger,
    post: Ledger,
    owner: Seq<char>,
    spender: Seq<char>,
    amount: u128,
) -> bool {
    &&& post.same_except_allowances(&pre)
    &&& (amount == 0 ==> alw_lookup(post.allowances@, owner, spender) == None::<u128>
        && alw_lookup(post.allowances_spender@, spender, owner) == None::<u128>)
    &&& (amount != 0 ==> alw_lookup(post.allowances@, owner, spender) == Some(amount)
        && alw_lookup(post.allowances_spender@, spender, owner) == Some(amount))
    &&& alw_unchanged_except(pre.allowances@, post.allowances@, owner, spender)
}

/// Sets the caller's allowance for `spender` to `amount`, guarded by an
/// optimistic lock: the caller restates the allowance it last observed, and
/// the call fails if the stored value has changed since. A zero amount
/// deletes the entry from both indexes rather than storing zero.
pub fn handle_approve(
    state: &mut Ledger,
    sender: String,
    spender: String,
    amount: u128,
    current_allowance: u128,
) -> (r: Result<Response, ContractError>)
    requires
        old(state).wf(),
    ensures
        final(state).wf(),
        final(state).same_except_allowances(old(state)),
        match spec_approve_err(*old(state), sender@, spender@, current_allowance) {
            Some(e) => r == Err::<Response, ContractError>(e) && *final(state) == *old(state),
            None => match r {
                Ok(resp) => approve_applied(*old(state), *final(state), sender@, spender@, amount)
                    && is_approve_response(
                    resp,
                    sender@,
                    spender@,
                    alw_of(old(state).allowances@, sender@, spender@),
                    amount,
                ),
                Err(_) => false,
            },
        },
{
    if spender.eq(&sender) {
        return Err(ContractError::CannotSetOwnAccount);
    }
    let old_allowance = state.allowance_of(&sender, &spender);
    if current_allowance != old_allowance {
        return Err(ContractError::InvalidCurrentAllowance);
    }
    if amount == 0 {
        state.remove_allowance(&sender, &spender);
    } else {
        state.set_allowance(&sender, &spender, amount);
    }
    let mut resp = Response::new();
    let ev = approval_event(sender.as_str(), spender.as_str(), old_allowance, amount);
    resp.events.push(ev);
    Ok(resp)
}

/// Handles an inbound push notification: accepts it only when the claimed
/// sender is the actual caller and that caller is itself a programmable
/// account, refusing forged notifications with `Unauthorized`.
pub fn receive(
    info_sender: &String,
    sender: String,
    _amount: u128,
    sender_is_contract: bool,
) -> (r: Result<Response, ContractError>)
    ensures
        match r {
            Ok(resp) => info_sender@ == sender@ && sender_is_contract && resp.is_empty(),
            Err(e) => e == ContractError::Unauthorized && !(info_sender@ == sender@
                && sender_is_contract),
        },
{
    if !info_sender.eq(&sender) || !sender_is_contract {
        return Err(ContractError::Unauthorized);
    }
    Ok(Response::new())
}

// ---------------------------------------------------------------------------
// Queries: pure reads, no side effects.
// ---------------------------------------------------------------------------

pub open spec fn is_info_response(l: Ledger, i: InfoResponse) -> bool {
    &&& i.name == l.token.name
    &&& i.symbol == l.token.symbol
    &&& i.decimal == l.token.decimals
    &&& i.total_supply == l.token.total_supply
}

/// What `query` answers for each request.
pub open spec fn spec_query_answer(l: Ledger, msg: QueryMsg, r: QueryAnswer) -> bool {
    match msg {
        QueryMsg::Info {  } => match r {
            QueryAnswer::Info(i) => is_info_response(l, i),
            _ => false,
        },
        QueryMsg::TotalSupply {  } => match r {
            QueryAnswer::TotalSupply(t) => t.total_supply == l.token.total_supply,
            _ => false,
        },
        QueryMsg::Balance { owner } => match r {
            QueryAnswer::Balance(b) => b.balance == bal_of(l.balances@, owner@),
            _ => false,
        },
        QueryMsg::Allowance { owner, spender } => match r {
            QueryAnswer::Allowance(a) => a.allowance == alw_of(l.allowances@, owner@, spender@),
            _ => false,
        },
        QueryMsg::OnFTReceived { sender, owner, amount } => match r {
            QueryAnswer::OnFTReceived(o) => o.enable == (amount != 0),
            _ => false,
        },
    }
}

/// Dispatches one read-only request; the host encodes the answer.
pub fn query(state: &Ledger, msg: QueryMsg) -> (r: QueryAnswer)
    requires
        state.wf(),
    ensures
        spec_query_answer(*state, msg, r),
{
    match msg {
        QueryMsg::Info {  } => QueryAnswer::Info(query_info(state)),
        QueryMsg::TotalSupply {  } => QueryAnswer::TotalSupply(query_total_supply(state)),
        QueryMsg::Balance { owner } => QueryAnswer::Balance(query_balance(state, owner)),
        QueryMsg::Allowance { owner, spender } => QueryAnswer::Allowance(
            query_allowance(state, owner, spender),
        ),
        QueryMsg::OnFTReceived { sender, owner, amount } => QueryAnswer::OnFTReceived(
            query_on_ft_received(sender, owner, amount),
        ),
    }
}

pub fn query_info(state: &Ledger) -> (r: InfoResponse)
    ensures
        is_info_response(*state, r),
{
    InfoResponse {
        name: state.token.name.clone(),
        symbol: state.token.symbol.clone(),
        decimal: state.token.decimals,
        total_supply: state.token.total_supply,
    }
}

pub fn query_total_supply(state: &Ledger) -> (r: TotalSupplyResponse)
    ensures
        r.total_supply == state.token.total_supply,
{
    TotalSupplyResponse { total_supply: state.token.total_supply }
}

/// Zero for unknown accounts rather than an error.
pub fn query_balance(state: &Ledger, owner: String) -> (r: BalanceResponse)
    requires
        state.wf(),
    ensures
        r.balance == state.spec_balance_of(owner@),
{
    BalanceResponse { balance: state.balance_of(&owner) }
}

/// Zero for absent pairs rather than an error.
pub fn query_allowance(state: &Ledger, owner: String, spender: String) -> (r: AllowanceResponse)
    requires
        state.wf(),
    ensures
        r.allowance == state.spec_allowance(owner@, spender@),
{
    AllowanceResponse { allowance: state.allowance_of(&owner, &spender) }
}

/// This instance's own capability answer when it is the recipient of another
/// token's push: it accepts any non-zero amount.
pub fn query_on_ft_received(_sender: String, _owner: String, amount: u128) -> (r:
    OnFTReceivedResponse)
    ensures
        r.enable == (amount != 0),
{
    if amount == 0 {
        return OnFTReceivedResponse { enable: false };
    }
    OnFTReceivedResponse { enable: true }
}

} // verus!
