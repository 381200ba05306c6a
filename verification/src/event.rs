use vstd::prelude::*;
use vstd::string::StringExecFns;

verus! {

// ---------------------------------------------------------------------------
// Decimal rendering of amounts, so events carry human-readable numbers.
// ---------------------------------------------------------------------------

pub open spec fn dec_digit(d: nat) -> char {
    if d == 0 {
        '0'
    } else if d == 1 {
        '1'
    } else if d == 2 {
        '2'
    } else if d == 3 {
        '3'
    } else if d == 4 {
        '4'
    } else if d == 5 {
        '5'
    } else if d == 6 {
        '6'
    } else if d == 7 {
        '7'
    } else if d == 8 {
        '8'
    } else {
        '9'
    }
}

/// The usual base-10 rendering, most significant digit first, no leading
/// zeros (a lone zero for 0).
pub open spec fn spec_dec(n: nat) -> Seq<char>
    decreases n,
{
    if n < 10 {
        seq![dec_digit(n)]
    } else {
        spec_dec(n / 10).push(dec_digit(n % 10))
    }
}

fn digit_str(d: u128) -> (r: &'static str)
    requires
        d < 10,
    ensures
        r@ == seq![dec_digit(d as nat)],
{
    if d == 0 {
        proof {
            reveal_strlit("0");
            assert("0"@ =~= seq![dec_digit(d as nat)]);
        }
        "0"
    } else if d == 1 {
        proof {
            reveal_strlit("1");
            assert("1"@ =~= seq![dec_digit(d as nat)]);
        }
        "1"
    } else if d == 2 {
        proof {
            reveal_strlit("2");
            assert("2"@ =~= seq![dec_digit(d as nat)]);
        }
        "2"
    } else if d == 3 {
        proof {
            reveal_strlit("3");
            assert("3"@ =~= seq![dec_digit(d as nat)]);
        }
        "3"
    } else if d == 4 {
        proof {
            reveal_strlit("4");
            assert("4"@ =~= seq![dec_digit(d as nat)]);
        }
        "4"
    } else if d == 5 {
        proof {
            reveal_strlit("5");
            assert("5"@ =~= seq![dec_digit(d as nat)]);
        }
        "5"
    } else if d == 6 {
        proof {
            reveal_strlit("6");
            assert("6"@ =~= seq![dec_digit(d as nat)]);
        }
        "6"
    } else if d == 7 {
        proof {
            reveal_strlit("7");
            assert("7"@ =~= seq![dec_digit(d as nat)]);
        }
        "7"
    } else if d == 8 {
        proof {
            reveal_strlit("8");
            assert("8"@ =~= seq![dec_digit(d as nat)]);
        }
        "8"
    } else {
        proof {
            reveal_strlit("9");
            assert("9"@ =~= seq![dec_digit(d as nat)]);
        }
        "9"
    }
}

pub fn u128_to_dec_string(n: u128) -> (s: String)
    ensures
        s@ == spec_dec(n as nat),
    decreases n,
{
    if n < 10 {
        digit_str(n).to_owned()
    } else {
        let mut s = u128_to_dec_string(n / 10);
        s.append(digit_str(n % 10));
        proof {
            assert(s@ =~= spec_dec(n as nat));
        }
        s
    }
}

// ---------------------------------------------------------------------------
// Events and the call response.
// ---------------------------------------------------------------------------

/// A structured event: a type tag plus key/value attributes, enough for an
/// external observer to reconstruct the ledger delta without reading storage.
#[derive(Clone, Debug, PartialEq, Eq)]
pub struct Event {
    pub ty: String,
    pub attributes: Vec<(String, String)>,
}

pub open spec fn is_attr(a: (String, String), key: Seq<char>, value: Seq<char>) -> bool {
    a.0@ == key && a.1@ == value
}

pub open spec fn is_transfer_event(
    ev: Event,
    owner: Seq<char>,
    recipient: Seq<char>,
    amount: u128,
) -> bool {
    &&& ev.ty@ == "Transfer"@
    &&& ev.attributes@.len() == 3
    &&& is_attr(ev.attributes@[0], "owner"@, owner)
    &&& is_attr(ev.attributes@[1], "recipient"@, recipient)
    &&& is_attr(ev.attributes@[2], "amount"@, spec_dec(amount as nat))
}

pub open spec fn is_approval_event(
    ev: Event,
    owner: Seq<char>,
    spender: Seq<char>,
    old_amount: u128,
    new_amount: u128,
) -> bool {
    &&& ev.ty@ == "Approval"@
    &&& ev.attributes@.len() == 4
    &&& is_attr(ev.attributes@[0], "owner"@, owner)
    &&& is_attr(ev.attributes@[1], "spender"@, spender)
    &&& is_attr(ev.attributes@[2], "old_amount"@, spec_dec(old_amount as nat))
    &&& is_attr(ev.attributes@[3], "new_amount"@, spec_dec(new_amount as nat))
}

/// The event recording one completed transfer.
pub fn transfer_event(owner: &str, recipient: &str, amount: u128) -> (ev: Event)
    ensures
        is_transfer_event(ev, owner@, recipient@, amount),
{
    let mut attributes: Vec<(String, String)> = Vec::new();
    attributes.push(("owner".to_owned(), owner.to_owned()));
    attributes.push(("recipient".to_owned(), recipient.to_owned()));
    attributes.push(("amount".to_owned(), u128_to_dec_string(amount)));
    Event { ty: "Transfer".to_owned(), attributes }
}

/// The event recording one allowance change, old and new value included.
pub fn approval_event(owner: &str, spender: &str, old_amount: u128, new_amount: u128) -> (ev:
    Event)
    ensures
        is_approval_event(ev, owner@, spender@, old_amount, new_amount),
{
    let mut attributes: Vec<(String, String)> = Vec::new();
    attributes.push(("owner".to_owned(), owner.to_owned()));
    attributes.push(("spender".to_owned(), spender.to_owned()));
    attributes.push(("old_amount".to_owned(), u128_to_dec_string(old_amount)));
    attributes.push(("new_amount".to_owned(), u128_to_dec_string(new_amount)));
    Event { ty: "Approval".to_owned(), attributes }
}

/// A push notification for the host to schedule in the same atomic unit of
/// execution: it asks `contract_addr` (the recipient) to run its `Receive`
/// handler, naming this token instance (`sender`) and the moved `amount`.
#[derive(Clone, Debug, PartialEq, Eq)]
pub struct ReceiveNotification {
    pub contract_addr: String,
    pub sender: String,
    pub amount: u128,
}

pub open spec fn is_receive_notification(
    m: ReceiveNotification,
    recipient: Seq<char>,
    token_address: Seq<char>,
    amount: u128,
) -> bool {
    &&& m.contract_addr@ == recipient
    &&& m.sender@ == token_address
    &&& m.amount == amount
}

/// What one successful call hands back to the host: notification messages to
/// schedule, loose attributes, and structured events.
#[derive(Clone, Debug, PartialEq, Eq)]
pub struct Response {
    pub messages: Vec<ReceiveNotification>,
    pub attributes: Vec<(String, String)>,
    pub events: Vec<Event>,
}

impl Response {
    pub open spec fn is_empty(&self) -> bool {
        &&& self.messages@.len() == 0
        &&& self.attributes@.len() == 0
        &&& self.events@.len() == 0
    }

    pub fn new() -> (r: Response)
        ensures
            r.is_empty(),
    {
        Response { messages: Vec::new(), attributes: Vec::new(), events: Vec::new() }
    }
}

impl Default for Response {
    fn default() -> (r: Response)
        ensures
            r.is_empty(),
    {
        Response::new()
    }
}

} // verus!
