use vstd::prelude::*;

verus! {

/// Every way a call into the ledger can fail. Each error aborts the call with
/// no partial effect, and callers receive the specific kind so they can decide
/// whether to resubmit.
#[derive(Clone, Copy, Debug, PartialEq, Eq, Structural)]
pub enum ContractError {
    /// A notification claimed a sender that is not the actual caller, or one
    /// that is not a programmable account.
    Unauthorized,
    /// An approval named the owner itself as the spender.
    CannotSetOwnAccount,
    /// A direct transfer of zero tokens.
    InvalidZeroAmount,
    /// The optimistic lock on an approval failed: the allowance the caller
    /// last observed is no longer the stored one.
    InvalidCurrentAllowance,
    /// A delegated transfer with no allowance entry for (owner, spender).
    NoAllowance,
    /// The allowance entry exists but is smaller than the requested amount.
    InsufficientAllowance,
    /// A debit would drive the account's balance below zero.
    InsufficientFunds,
    /// A credit would push the account's balance past the 128-bit range.
    Overflow,
    /// The recipient's capability query declined the incoming transfer.
    NonTransferable,
    /// The token name is not 3 to 12 bytes long.
    InvalidName,
    /// The token symbol is not 3 to 12 bytes drawn from `[A-Za-z-]`.
    InvalidSymbol,
    /// The token decimals exceed 18.
    InvalidDecimals,
}

} // verus!
