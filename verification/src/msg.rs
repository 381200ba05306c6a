use vstd::prelude::*;
use vstd::utf8::encode_utf8;

use crate::error::ContractError;

verus! {

/// A token name is acceptable when its UTF-8 encoding is 3 to 12 bytes long.
pub open spec fn spec_valid_name(bytes: Seq<u8>) -> bool {
    3 <= bytes.len() <= 12
}

/// A symbol byte is `-` or an ASCII letter.
pub open spec fn symbol_byte_ok(b: u8) -> bool {
    b == 45 || (65 <= b <= 90) || (97 <= b <= 122)
}

/// A token symbol is acceptable when it is 3 to 12 bytes, all from `[A-Za-z-]`.
pub open spec fn spec_valid_symbol(bytes: Seq<u8>) -> bool {
    &&& 3 <= bytes.len() <= 12
    &&& forall|i: int| 0 <= i < bytes.len() ==> symbol_byte_ok(bytes[i])
}

pub fn is_valid_name(name: &str) -> (r: bool)
    ensures
        r == spec_valid_name(encode_utf8(name@)),
{
    let bytes = name.as_bytes();
    if bytes.len() < 3 || bytes.len() > 12 {
        return false;
    }
    true
}

pub fn is_valid_symbol(symbol: &str) -> (r: bool)
    ensures
        r == spec_valid_symbol(encode_utf8(symbol@)),
{
    let bytes = symbol.as_bytes();
    if bytes.len() < 3 || bytes.len() > 12 {
        return false;
    }
    let mut i: usize = 0;
    while i < bytes.len()
        invariant
            i <= bytes@.len(),
            bytes@ == encode_utf8(symbol@),
            forall|j: int| 0 <= j < i ==> symbol_byte_ok(bytes@[j]),
        decreases bytes@.len() - i,
    {
        let byte = bytes[i];
        if (byte != 45) && (byte < 65 || byte > 90) && (byte < 97 || byte > 122) {
            return false;
        }
        i = i + 1;
    }
    true
}

/// The request that initializes the ledger: token description plus the
/// deploying account's starting balance, which becomes the total supply.
#[derive(Clone, Debug, PartialEq, Eq)]
pub struct InstantiateMsg {
    pub name: String,
    pub symbol: String,
    pub decimals: u8,
    pub initial_balances: u128,
}

impl InstantiateMsg {
    /// The token description is acceptable: name 3-12 bytes, symbol 3-12
    /// bytes of `[A-Za-z-]`, decimals at most 18.
    pub open spec fn valid(&self) -> bool {
        &&& spec_valid_name(encode_utf8(self.name@))
        &&& spec_valid_symbol(encode_utf8(self.symbol@))
        &&& self.decimals <= 18
    }

    /// The error `validate` reports, `None` when the description is
    /// acceptable.
    pub open spec fn spec_validate_err(&self) -> Option<ContractError> {
        if !spec_valid_name(encode_utf8(self.name@)) {
            Some(ContractError::InvalidName)
        } else if !spec_valid_symbol(encode_utf8(self.symbol@)) {
            Some(ContractError::InvalidSymbol)
        } else if self.decimals > 18 {
            Some(ContractError::InvalidDecimals)
        } else {
            None
        }
    }

    pub fn validate(&self) -> (r: Result<(), ContractError>)
        ensures
            match r {
                Ok(_) => self.valid() && self.spec_validate_err() == None::<ContractError>,
                Err(e) => !self.valid() && self.spec_validate_err() == Some(e),
            },
    {
        if !is_valid_name(self.name.as_str()) {
            return Err(ContractError::InvalidName);
        }
        if !is_valid_symbol(self.symbol.as_str()) {
            return Err(ContractError::InvalidSymbol);
        }
        if self.decimals > 18 {
            return Err(ContractError::InvalidDecimals);
        }
        Ok(())
    }
}

/// The ledger's state-changing requests.
#[derive(Clone, Debug, PartialEq, Eq)]
pub enum ExecuteMsg {
    Transfer { recipient: String, amount: u128 },
    TransferFrom { owner: String, recipient: String, amount: u128 },
    Approve { spender: String, amount: u128, current_allowance: u128 },
    Receive { sender: String, amount: u128 },
}

/// The ledger's read-only requests.
#[derive(Clone, Debug, PartialEq, Eq)]
pub enum QueryMsg {
    Info {},
    TotalSupply {},
    Balance { owner: String },
    Allowance { owner: String, spender: String },
    OnFTReceived { sender: String, owner: String, amount: u128 },
}

#[derive(Clone, Debug, PartialEq, Eq)]
pub struct InfoResponse {
    pub name: String,
    pub symbol: String,
    pub decimal: u8,
    pub total_supply: u128,
}

#[derive(Clone, Copy, Debug, PartialEq, Eq, Structural)]
pub struct TotalSupplyResponse {
    pub total_supply: u128,
}

#[derive(Clone, Copy, Debug, PartialEq, Eq, Structural)]
pub struct BalanceResponse {
    pub balance: u128,
}

#[derive(Clone, Copy, Debug, PartialEq, Eq, Structural)]
pub struct AllowanceResponse {
    pub allowance: u128,
}

/// The answer to the capability query: whether the queried account will
/// accept an incoming transfer.
#[derive(Clone, Copy, Debug, PartialEq, Eq, Structural)]
pub struct OnFTReceivedResponse {
    pub enable: bool,
}

/// One read-only answer for each `QueryMsg` variant; the host encodes it in
/// its own wire format.
#[derive(Clone, Debug, PartialEq, Eq)]
pub enum QueryAnswer {
    Info(InfoResponse),
    TotalSupply(TotalSupplyResponse),
    Balance(BalanceResponse),
    Allowance(AllowanceResponse),
    OnFTReceived(OnFTReceivedResponse),
}

} // verus!
