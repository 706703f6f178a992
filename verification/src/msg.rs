use vstd::prelude::*;
use vstd::string::StringExecFns;

verus! {

/// Host-supplied facts about the executing contract instance.
pub struct Env {
    pub contract_address: String,
}

/// Host-supplied facts about the submitted command: who sent it.
pub struct MessageInfo {
    pub sender: String,
}

/// One coin position, as the token backend reports it.
#[derive(Clone, Debug, PartialEq, Eq)]
pub struct Coin {
    pub denom: String,
    pub amount: u128,
}

pub struct InstantiateMsg {
    pub subdenom: String,
}

/// The closed command set, exhaustively matched by the dispatcher.
pub enum ExecuteMsg {
    Mint { to_address: String, amount: u128 },
    Burn { amount: u128 },
    Blacklist { address: String, status: bool },
    SetMinter { address: String, allowance: u128 },
    SetBurner { address: String, allowance: u128 },
    SetFreezer { address: String, status: bool },
    SetBlacklister { address: String, status: bool },
    ChangeContractOwner { new_owner: String },
    ChangeTokenfactoryAdmin { new_admin_address: String },
    Freeze { status: bool },
}

/// Privileged hooks that the host invokes out-of-band.
pub enum SudoMsg {
    BeforeSend { from: String, to: String, amount: Vec<Coin> },
}

pub enum QueryMsg {
    IsFrozen,
    Denom,
}

#[derive(Clone, Debug, PartialEq, Eq)]
pub struct IsFrozenResponse {
    pub is_frozen: bool,
}

#[derive(Clone, Debug, PartialEq, Eq)]
pub struct DenomResponse {
    pub denom: String,
}

pub enum QueryAnswer {
    IsFrozen(IsFrozenResponse),
    Denom(DenomResponse),
}

/// One human-readable key-value fact about a handled command.
#[derive(Clone, Debug, PartialEq, Eq)]
pub struct Attribute {
    pub key: String,
    pub value: String,
}

/// An instruction destined for the external token backend. Handlers emit
/// these as data; an unverified adapter dispatches them.
#[derive(Clone, Debug, PartialEq, Eq)]
pub enum OutboundMsg {
    MintTokens { denom: String, amount: u128, mint_to_address: String },
    SendTokens { to_address: String, amount: u128, denom: String },
    BurnTokens { denom: String, amount: u128, burn_from_address: String },
    ChangeAdmin { denom: String, new_admin_address: String },
}

/// What a successful command hands back: attributes describing the action
/// taken, plus zero or more outbound instructions.
#[derive(Clone, Debug, PartialEq, Eq)]
pub struct Response {
    pub attributes: Vec<Attribute>,
    pub messages: Vec<OutboundMsg>,
}

pub open spec fn attr_is(a: Attribute, k: Seq<char>, v: Seq<char>) -> bool {
    a.key@ == k && a.value@ == v
}

pub open spec fn msg_is_mint(m: OutboundMsg, denom: Seq<char>, amount: u128, mint_to: Seq<char>) -> bool {
    m matches OutboundMsg::MintTokens { denom: d, amount: a, mint_to_address: t }
        && d@ == denom && a == amount && t@ == mint_to
}

pub open spec fn msg_is_send(m: OutboundMsg, to: Seq<char>, amount: u128, denom: Seq<char>) -> bool {
    m matches OutboundMsg::SendTokens { to_address: t, amount: a, denom: d }
        && t@ == to && a == amount && d@ == denom
}

pub open spec fn msg_is_burn(m: OutboundMsg, denom: Seq<char>, amount: u128, burn_from: Seq<char>) -> bool {
    m matches OutboundMsg::BurnTokens { denom: d, amount: a, burn_from_address: f }
        && d@ == denom && a == amount && f@ == burn_from
}

pub open spec fn msg_is_change_admin(m: OutboundMsg, denom: Seq<char>, new_admin: Seq<char>) -> bool {
    m matches OutboundMsg::ChangeAdmin { denom: d, new_admin_address: n }
        && d@ == denom && n@ == new_admin
}

impl Response {
    pub fn new() -> (r: Response)
        ensures
            r.attributes@.len() == 0,
            r.messages@.len() == 0,
    {
        Response { attributes: Vec::new(), messages: Vec::new() }
    }

    pub fn add_attribute(self, key: &str, value: String) -> (r: Response)
        ensures
            r.attributes@.len() == self.attributes@.len() + 1,
            forall|i: int| 0 <= i < self.attributes@.len() ==> r.attributes@[i]
                == self.attributes@[i],
            attr_is(r.attributes@[self.attributes@.len() as int], key@, value@),
            r.messages@ == self.messages@,
    {
        let mut attributes = self.attributes;
        attributes.push(Attribute { key: String::from_str(key), value });
        Response { attributes, messages: self.messages }
    }

    pub fn add_message(self, msg: OutboundMsg) -> (r: Response)
        ensures
            r.messages@.len() == self.messages@.len() + 1,
            forall|i: int| 0 <= i < self.messages@.len() ==> r.messages@[i] == self.messages@[i],
            r.messages@[self.messages@.len() as int] == msg,
            r.attributes@ == self.attributes@,
    {
        let mut messages = self.messages;
        messages.push(msg);
        Response { attributes: self.attributes, messages }
    }
}

/// The character for one decimal digit.
pub open spec fn spec_digit_char(d: u128) -> char {
    if d == 0 { '0' }
    else if d == 1 { '1' }
    else if d == 2 { '2' }
    else if d == 3 { '3' }
    else if d == 4 { '4' }
    else if d == 5 { '5' }
    else if d == 6 { '6' }
    else if d == 7 { '7' }
    else if d == 8 { '8' }
    else { '9' }
}

/// Decimal digits of `n`, most significant first, no leading zeros.
pub open spec fn spec_decimal(n: u128) -> Seq<char>
    decreases n,
{
    if n < 10 {
        seq![spec_digit_char(n)]
    } else {
        spec_decimal(n / 10).push(spec_digit_char(n % 10))
    }
}

fn digit_str(d: u128) -> (r: &'static str)
    requires
        d < 10,
    ensures
        r@ == seq![spec_digit_char(d)],
{
    proof {
        reveal_strlit("0");
        reveal_strlit("1");
        reveal_strlit("2");
        reveal_strlit("3");
        reveal_strlit("4");
        reveal_strlit("5");
        reveal_strlit("6");
        reveal_strlit("7");
        reveal_strlit("8");
        reveal_strlit("9");
    }
    let r = if d == 0 { "0" }
    else if d == 1 { "1" }
    else if d == 2 { "2" }
    else if d == 3 { "3" }
    else if d == 4 { "4" }
    else if d == 5 { "5" }
    else if d == 6 { "6" }
    else if d == 7 { "7" }
    else if d == 8 { "8" }
    else { "9" };
    proof {
        assert(r@ =~= seq![spec_digit_char(d)]);
    }
    r
}

/// Render an amount the way it appears in event attributes.
pub fn u128_to_decimal(n: u128) -> (s: String)
    ensures
        s@ == spec_decimal(n),
    decreases n,
{
    if n < 10 {
        String::from_str(digit_str(n))
    } else {
        let mut s = u128_to_decimal(n / 10);
        s.append(digit_str(n % 10));
        proof {
            assert(s@ =~= spec_decimal(n));
        }
        s
    }
}

/// How a boolean reads in event attributes.
pub open spec fn spec_bool_str(b: bool) -> Seq<char> {
    if b { "true"@ } else { "false"@ }
}

pub fn bool_to_string(b: bool) -> (s: String)
    ensures
        s@ == spec_bool_str(b),
{
    if b {
        String::from_str("true")
    } else {
        String::from_str("false")
    }
}

} // verus!
