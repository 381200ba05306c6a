use vstd::prelude::*;

use crate::contract::{
    spec_transfer_err, spec_transfer_from_err, ReceiverKind,
};
use crate::error::ContractError;
use crate::state::{
    alw_lookup, bal_of, lemma_bal_of_le_sum, lemma_bal_of_two_le_sum, Ledger,
};

verus! {

/// Allowance symmetry: in a well-formed ledger, looking a pair up by
/// (owner, spender) in the forward index and by (spender, owner) in the
/// reverse index always yields the same entry - the same value, or absence
/// in both.
pub proof fn lemma_allowance_symmetry(l: Ledger, owner: Seq<char>, spender: Seq<char>)
    requires
        l.wf(),
    ensures
        alw_lookup(l.allowances@, owner, spender) == alw_lookup(
            l.allowances_spender@,
            spender,
            owner,
        ),
{
}

/// While supply is conserved, a direct transfer can never fail with
/// `Overflow`: the sender's and the recipient's balances together never
/// exceed the total supply, so the credited balance stays in range.
pub proof fn lemma_transfer_no_overflow(
    l: Ledger,
    sender: Seq<char>,
    recipient: Seq<char>,
    amount: u128,
    recipient_kind: ReceiverKind,
)
    requires
        l.wf(),
        l.conserves(),
    ensures
        spec_transfer_err(l, sender, recipient, amount, recipient_kind) != Some(
            ContractError::Overflow,
        ),
{
    if amount != 0 && bal_of(l.balances@, sender) >= amount && recipient != sender {
        lemma_bal_of_two_le_sum(l.balances@, sender, recipient);
    }
}

/// The same holds for a delegated transfer out of `owner`'s balance.
pub proof fn lemma_transfer_from_no_overflow(
    l: Ledger,
    owner: Seq<char>,
    spender: Seq<char>,
    recipient: Seq<char>,
    amount: u128,
    recipient_kind: ReceiverKind,
)
    requires
        l.wf(),
        l.conserves(),
    ensures
        spec_transfer_from_err(l, owner, spender, recipient, amount, recipient_kind) != Some(
            ContractError::Overflow,
        ),
{
    if bal_of(l.balances@, owner) >= amount && recipient != owner {
        lemma_bal_of_two_le_sum(l.balances@, owner, recipient);
    }
}

/// No stored balance can exceed the conserved total supply.
pub proof fn lemma_balance_bounded_by_supply(l: Ledger, account: Seq<char>)
    requires
        l.conserves(),
    ensures
        bal_of(l.balances@, account) <= l.token.total_supply,
{
    lemma_bal_of_le_sum(l.balances@, account);
}

} // verus!
