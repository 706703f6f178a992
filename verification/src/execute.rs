use vstd::prelude::*;

use crate::address::{valid_addr, validate_address};
use crate::error::ContractError;
use crate::helpers::check_is_contract_owner;
use crate::msg::{
    attr_is, bool_to_string, msg_is_burn, msg_is_change_admin, msg_is_mint, msg_is_send,
    spec_bool_str, spec_decimal, u128_to_decimal, Env, MessageInfo, OutboundMsg, Response,
};
use crate::state::State;

verus! {

/// Everything but the minter allowance ledger is as it was.
pub open spec fn unchanged_but_minters(s0: State, s1: State) -> bool {
    &&& s1.config == s0.config
    &&& s1.burner_allowances == s0.burner_allowances
    &&& s1.freezer_allowances == s0.freezer_allowances
    &&& s1.blacklister_allowances == s0.blacklister_allowances
    &&& s1.blacklisted_addresses == s0.blacklisted_addresses
}

/// Everything but the burner allowance ledger is as it was.
pub open spec fn unchanged_but_burners(s0: State, s1: State) -> bool {
    &&& s1.config == s0.config
    &&& s1.minter_allowances == s0.minter_allowances
    &&& s1.freezer_allowances == s0.freezer_allowances
    &&& s1.blacklister_allowances == s0.blacklister_allowances
    &&& s1.blacklisted_addresses == s0.blacklisted_addresses
}

/// Everything but the freezer permission registry is as it was.
pub open spec fn unchanged_but_freezers(s0: State, s1: State) -> bool {
    &&& s1.config == s0.config
    &&& s1.minter_allowances == s0.minter_allowances
    &&& s1.burner_allowances == s0.burner_allowances
    &&& s1.blacklister_allowances == s0.blacklister_allowances
    &&& s1.blacklisted_addresses == s0.blacklisted_addresses
}

/// Everything but the blacklister permission registry is as it was.
pub open spec fn unchanged_but_blacklisters(s0: State, s1: State) -> bool {
    &&& s1.config == s0.config
    &&& s1.minter_allowances == s0.minter_allowances
    &&& s1.burner_allowances == s0.burner_allowances
    &&& s1.freezer_allowances == s0.freezer_allowances
    &&& s1.blacklisted_addresses == s0.blacklisted_addresses
}

/// Everything but the blacklist registry is as it was.
pub open spec fn unchanged_but_blacklist(s0: State, s1: State) -> bool {
    &&& s1.config == s0.config
    &&& s1.minter_allowances == s0.minter_allowances
    &&& s1.burner_allowances == s0.burner_allowances
    &&& s1.freezer_allowances == s0.freezer_allowances
    &&& s1.blacklister_allowances == s0.blacklister_allowances
}

/// Every principal-keyed mapping is as it was; only the configuration
/// singleton may differ.
pub open spec fn unchanged_but_config(s0: State, s1: State) -> bool {
    &&& s1.minter_allowances == s0.minter_allowances
    &&& s1.burner_allowances == s0.burner_allowances
    &&& s1.freezer_allowances == s0.freezer_allowances
    &&& s1.blacklister_allowances == s0.blacklister_allowances
    &&& s1.blacklisted_addresses == s0.blacklisted_addresses
}

/// Complete account of `mint`: on success the minter allowance of the
/// caller drops by exactly `amount` and a mint-into-custody instruction is
/// followed by a transfer to the recipient; on any failure the state is
/// untouched and the error names the first violated precondition.
pub open spec fn mint_post(
    s0: State,
    s1: State,
    contract: Seq<char>,
    sender: Seq<char>,
    to: Seq<char>,
    amount: u128,
    r: Result<Response, ContractError>,
) -> bool {
    match r {
        Ok(resp) => {
            &&& valid_addr(to)
            &&& amount != 0
            &&& s0.minter_allowance(sender) >= amount
            &&& s1.minter_allowance(sender) == s0.minter_allowance(sender) - amount
            &&& forall|p: Seq<char>| p != sender ==> #[trigger] s1.minter_allowance(p)
                == s0.minter_allowance(p)
            &&& unchanged_but_minters(s0, s1)
            &&& resp.attributes@.len() == 1
            &&& attr_is(resp.attributes@[0], "method"@, "mint_tokens"@)
            &&& resp.messages@.len() == 2
            &&& msg_is_mint(resp.messages@[0], s0.config.denom@, amount, contract)
            &&& msg_is_send(resp.messages@[1], to, amount, s0.config.denom@)
        },
        Err(e) => {
            &&& s1 == s0
            &&& if !valid_addr(to) {
                e == ContractError::InvalidAddress
            } else if amount == 0 {
                e == ContractError::ZeroAmount
            } else {
                s0.minter_allowance(sender) < amount && e == ContractError::InsufficientAllowance
            }
        },
    }
}

pub fn mint(
    state: &mut State,
    env: &Env,
    info: &MessageInfo,
    to_address: String,
    amount: u128,
) -> (r: Result<Response, ContractError>)
    ensures
        mint_post(
            *old(state),
            *final(state),
            env.contract_address@,
            info.sender@,
            to_address@,
            amount,
            r,
        ),
{
    if !validate_address(to_address.as_str()) {
        return Err(ContractError::InvalidAddress);
    }
    if amount == 0 {
        return Err(ContractError::ZeroAmount);
    }
    match state.minter_allowances.consume(&info.sender, amount) {
        Ok(_) => {},
        Err(e) => {
            return Err(e);
        },
    }
    let denom = state.config.denom.clone();
    let resp = Response::new()
        .add_attribute("method", String::from_str("mint_tokens"))
        .add_message(OutboundMsg::MintTokens {
            denom: denom.clone(),
            amount,
            mint_to_address: env.contract_address.clone(),
        })
        .add_message(OutboundMsg::SendTokens { to_address, amount, denom });
    Ok(resp)
}

/// Complete account of `burn`: on success the burner allowance of the
/// caller drops by exactly `amount` and one burn-from-custody instruction
/// is emitted; on any failure the state is untouched.
pub open spec fn burn_post(
    s0: State,
    s1: State,
    sender: Seq<char>,
    amount: u128,
    r: Result<Response, ContractError>,
) -> bool {
    match r {
        Ok(resp) => {
            &&& amount != 0
            &&& s0.burner_allowance(sender) >= amount
            &&& s1.burner_allowance(sender) == s0.burner_allowance(sender) - amount
            &&& forall|p: Seq<char>| p != sender ==> #[trigger] s1.burner_allowance(p)
                == s0.burner_allowance(p)
            &&& unchanged_but_burners(s0, s1)
            &&& resp.attributes@.len() == 2
            &&& attr_is(resp.attributes@[0], "method"@, "execute_burn"@)
            &&& attr_is(resp.attributes@[1], "amount"@, spec_decimal(amount))
            &&& resp.messages@.len() == 1
            &&& msg_is_burn(resp.messages@[0], s0.config.denom@, amount, Seq::<char>::empty())
        },
        Err(e) => {
            &&& s1 == s0
            &&& if amount == 0 {
                e == ContractError::ZeroAmount
            } else {
                s0.burner_allowance(sender) < amount && e == ContractError::InsufficientAllowance
            }
        },
    }
}

pub fn burn(state: &mut State, _env: &Env, info: &MessageInfo, amount: u128) -> (r: Result<
    Response,
    ContractError,
>)
    ensures
        burn_post(*old(state), *final(state), info.sender@, amount, r),
{
    if amount == 0 {
        return Err(ContractError::ZeroAmount);
    }
    match state.burner_allowances.consume(&info.sender, amount) {
        Ok(_) => {},
        Err(e) => {
            return Err(e);
        },
    }
    let denom = state.config.denom.clone();
    let resp = Response::new()
        .add_attribute("method", String::from_str("execute_burn"))
        .add_attribute("amount", u128_to_decimal(amount))
        .add_message(OutboundMsg::BurnTokens { denom, amount, burn_from_address: String::new() });
    Ok(resp)
}

/// Complete account of `change_contract_owner`: only the current owner may
/// hand ownership to a well-formed principal; nothing else moves.
pub open spec fn change_owner_post(
    s0: State,
    s1: State,
    sender: Seq<char>,
    new_owner: Seq<char>,
    r: Result<Response, ContractError>,
) -> bool {
    match r {
        Ok(resp) => {
            &&& sender == s0.config.owner@
            &&& valid_addr(new_owner)
            &&& s1.config.owner@ == new_owner
            &&& s1.config.is_frozen == s0.config.is_frozen
            &&& s1.config.denom@ == s0.config.denom@
            &&& unchanged_but_config(s0, s1)
            &&& resp.attributes@.len() == 2
            &&& attr_is(resp.attributes@[0], "method"@, "change_contract_owner"@)
            &&& attr_is(resp.attributes@[1], "new_owner"@, new_owner)
            &&& resp.messages@.len() == 0
        },
        Err(e) => {
            &&& s1 == s0
            &&& if sender != s0.config.owner@ {
                e == ContractError::Unauthorized
            } else {
                !valid_addr(new_owner) && e == ContractError::InvalidAddress
            }
        },
    }
}

pub fn change_contract_owner(
    state: &mut State,
    _env: &Env,
    info: &MessageInfo,
    new_owner: String,
) -> (r: Result<Response, ContractError>)
    ensures
        change_owner_post(*old(state), *final(state), info.sender@, new_owner@, r),
{
    match check_is_contract_owner(state, &info.sender) {
        Ok(_) => {},
        Err(e) => {
            return Err(e);
        },
    }
    if !validate_address(new_owner.as_str()) {
        return Err(ContractError::InvalidAddress);
    }
    state.config.owner = new_owner.clone();
    let resp = Response::new()
        .add_attribute("method", String::from_str("change_contract_owner"))
        .add_attribute("new_owner", new_owner);
    Ok(resp)
}

/// Complete account of `change_tokenfactory_admin`: owner-gated; emits one
/// change-admin instruction for the backend and mutates nothing locally.
pub open spec fn change_admin_post(
    s0: State,
    s1: State,
    sender: Seq<char>,
    new_admin: Seq<char>,
    r: Result<Response, ContractError>,
) -> bool {
    match r {
        Ok(resp) => {
            &&& sender == s0.config.owner@
            &&& valid_addr(new_admin)
            &&& s1 == s0
            &&& resp.attributes@.len() == 1
            &&& attr_is(resp.attributes@[0], "method"@, "change_tokenfactory_admin"@)
            &&& resp.messages@.len() == 1
            &&& msg_is_change_admin(resp.messages@[0], s0.config.denom@, new_admin)
        },
        Err(e) => {
            &&& s1 == s0
            &&& if sender != s0.config.owner@ {
                e == ContractError::Unauthorized
            } else {
                !valid_addr(new_admin) && e == ContractError::InvalidAddress
            }
        },
    }
}

pub fn change_tokenfactory_admin(
    state: &mut State,
    _env: &Env,
    info: &MessageInfo,
    new_admin_address: String,
) -> (r: Result<Response, ContractError>)
    ensures
        change_admin_post(*old(state), *final(state), info.sender@, new_admin_address@, r),
{
    match check_is_contract_owner(state, &info.sender) {
        Ok(_) => {},
        Err(e) => {
            return Err(e);
        },
    }
    if !validate_address(new_admin_address.as_str()) {
        return Err(ContractError::InvalidAddress);
    }
    let resp = Response::new()
        .add_attribute("method", String::from_str("change_tokenfactory_admin"))
        .add_message(OutboundMsg::ChangeAdmin {
            denom: state.config.denom.clone(),
            new_admin_address,
        });
    Ok(resp)
}

/// Complete account of `set_blacklister`: owner-gated overwrite of the
/// blacklister permission flag, with no idempotence guard.
pub open spec fn set_blacklister_post(
    s0: State,
    s1: State,
    sender: Seq<char>,
    address: Seq<char>,
    status: bool,
    r: Result<Response, ContractError>,
) -> bool {
    match r {
        Ok(resp) => {
            &&& sender == s0.config.owner@
            &&& valid_addr(address)
            &&& s1.blacklister_permission(address) == status
            &&& forall|p: Seq<char>| p != address ==> #[trigger] s1.blacklister_permission(p)
                == s0.blacklister_permission(p)
            &&& unchanged_but_blacklisters(s0, s1)
            &&& resp.attributes@.len() == 3
            &&& attr_is(resp.attributes@[0], "method"@, "set_blacklister"@)
            &&& attr_is(resp.attributes@[1], "blacklister"@, address)
            &&& attr_is(resp.attributes@[2], "status"@, spec_bool_str(status))
            &&& resp.messages@.len() == 0
        },
        Err(e) => {
            &&& s1 == s0
            &&& if sender != s0.config.owner@ {
                e == ContractError::Unauthorized
            } else {
                !valid_addr(address) && e == ContractError::InvalidAddress
            }
        },
    }
}

pub fn set_blacklister(
    state: &mut State,
    _env: &Env,
    info: &MessageInfo,
    address: String,
    status: bool,
) -> (r: Result<Response, ContractError>)
    ensures
        set_blacklister_post(*old(state), *final(state), info.sender@, address@, status, r),
{
    match check_is_contract_owner(state, &info.sender) {
        Ok(_) => {},
        Err(e) => {
            return Err(e);
        },
    }
    if !validate_address(address.as_str()) {
        return Err(ContractError::InvalidAddress);
    }
    state.blacklister_allowances.set(address.clone(), status);
    let resp = Response::new()
        .add_attribute("method", String::from_str("set_blacklister"))
        .add_attribute("blacklister", address)
        .add_attribute("status", bool_to_string(status));
    Ok(resp)
}

/// Complete account of `set_freezer`: owner-gated overwrite of the freezer
/// permission flag, with no idempotence guard.
pub open spec fn set_freezer_post(
    s0: State,
    s1: State,
    sender: Seq<char>,
    address: Seq<char>,
    status: bool,
    r: Result<Response, ContractError>,
) -> bool {
    match r {
        Ok(resp) => {
            &&& sender == s0.config.owner@
            &&& valid_addr(address)
            &&& s1.freezer_permission(address) == status
            &&& forall|p: Seq<char>| p != address ==> #[trigger] s1.freezer_permission(p)
                == s0.freezer_permission(p)
            &&& unchanged_but_freezers(s0, s1)
            &&& resp.attributes@.len() == 3
            &&& attr_is(resp.attributes@[0], "method"@, "set_freezer"@)
            &&& attr_is(resp.attributes@[1], "freezer"@, address)
            &&& attr_is(resp.attributes@[2], "status"@, spec_bool_str(status))
            &&& resp.messages@.len() == 0
        },
        Err(e) => {
            &&& s1 == s0
            &&& if sender != s0.config.owner@ {
                e == ContractError::Unauthorized
            } else {
                !valid_addr(address) && e == ContractError::InvalidAddress
            }
        },
    }
}

pub fn set_freezer(
    state: &mut State,
    _env: &Env,
    info: &MessageInfo,
    address: String,
    status: bool,
) -> (r: Result<Response, ContractError>)
    ensures
        set_freezer_post(*old(state), *final(state), info.sender@, address@, status, r),
{
    match check_is_contract_owner(state, &info.sender) {
        Ok(_) => {},
        Err(e) => {
            return Err(e);
        },
    }
    if !validate_address(address.as_str()) {
        return Err(ContractError::InvalidAddress);
    }
    state.freezer_allowances.set(address.clone(), status);
    let resp = Response::new()
        .add_attribute("method", String::from_str("set_freezer"))
        .add_attribute("freezer", address)
        .add_attribute("status", bool_to_string(status));
    Ok(resp)
}

/// Complete account of `set_burner`: owner-gated overwrite (not addition)
/// of the burner allowance.
pub open spec fn set_burner_post(
    s0: State,
    s1: State,
    sender: Seq<char>,
    address: Seq<char>,
    allowance: u128,
    r: Result<Response, ContractError>,
) -> bool {
    match r {
        Ok(resp) => {
            &&& sender == s0.config.owner@
            &&& valid_addr(address)
            &&& s1.burner_allowance(address) == allowance
            &&& forall|p: Seq<char>| p != address ==> #[trigger] s1.burner_allowance(p)
                == s0.burner_allowance(p)
            &&& unchanged_but_burners(s0, s1)
            &&& resp.attributes@.len() == 3
            &&& attr_is(resp.attributes@[0], "method"@, "set_burner"@)
            &&& attr_is(resp.attributes@[1], "burner"@, address)
            &&& attr_is(resp.attributes@[2], "allowance"@, spec_decimal(allowance))
            &&& resp.messages@.len() == 0
        },
        Err(e) => {
            &&& s1 == s0
            &&& if sender != s0.config.owner@ {
                e == ContractError::Unauthorized
            } else {
                !valid_addr(address) && e == ContractError::InvalidAddress
            }
        },
    }
}

pub fn set_burner(
    state: &mut State,
    _env: &Env,
    info: &MessageInfo,
    address: String,
    allowance: u128,
) -> (r: Result<Response, ContractError>)
    ensures
        set_burner_post(*old(state), *final(state), info.sender@, address@, allowance, r),
{
    match check_is_contract_owner(state, &info.sender) {
        Ok(_) => {},
        Err(e) => {
            return Err(e);
        },
    }
    if !validate_address(address.as_str()) {
        return Err(ContractError::InvalidAddress);
    }
    state.burner_allowances.set(address.clone(), allowance);
    let resp = Response::new()
        .add_attribute("method", String::from_str("set_burner"))
        .add_attribute("burner", address)
        .add_attribute("allowance", u128_to_decimal(allowance));
    Ok(resp)
}

/// Complete account of `set_minter`: owner-gated overwrite (not addition)
/// of the minter allowance.
pub open spec fn set_minter_post(
    s0: State,
    s1: State,
    sender: Seq<char>,
    address: Seq<char>,
    allowance: u128,
    r: Result<Response, ContractError>,
) -> bool {
    match r {
        Ok(resp) => {
            &&& sender == s0.config.owner@
            &&& valid_addr(address)
            &&& s1.minter_allowance(address) == allowance
            &&& forall|p: Seq<char>| p != address ==> #[trigger] s1.minter_allowance(p)
                == s0.minter_allowance(p)
            &&& unchanged_but_minters(s0, s1)
            &&& resp.attributes@.len() == 3
            &&& attr_is(resp.attributes@[0], "method"@, "set_minter"@)
            &&& attr_is(resp.attributes@[1], "minter"@, address)
            &&& attr_is(resp.attributes@[2], "amount"@, spec_decimal(allowance))
            &&& resp.messages@.len() == 0
        },
        Err(e) => {
            &&& s1 == s0
            &&& if sender != s0.config.owner@ {
                e == ContractError::Unauthorized
            } else {
                !valid_addr(address) && e == ContractError::InvalidAddress
            }
        },
    }
}

pub fn set_minter(
    state: &mut State,
    _env: &Env,
    info: &MessageInfo,
    address: String,
    allowance: u128,
) -> (r: Result<Response, ContractError>)
    ensures
        set_minter_post(*old(state), *final(state), info.sender@, address@, allowance, r),
{
    match check_is_contract_owner(state, &info.sender) {
        Ok(_) => {},
        Err(e) => {
            return Err(e);
        },
    }
    if !validate_address(address.as_str()) {
        return Err(ContractError::InvalidAddress);
    }
    state.minter_allowances.set(address.clone(), allowance);
    let resp = Response::new()
        .add_attribute("method", String::from_str("set_minter"))
        .add_attribute("minter", address)
        .add_attribute("amount", u128_to_decimal(allowance));
    Ok(resp)
}

/// Complete account of `freeze`: gated on the caller's freezer permission;
/// on success the global freeze flag is overwritten with `status` and
/// nothing else moves.
pub open spec fn freeze_post(
    s0: State,
    s1: State,
    sender: Seq<char>,
    status: bool,
    r: Result<Response, ContractError>,
) -> bool {
    match r {
        Ok(resp) => {
            &&& s0.freezer_permission(sender)
            &&& s1.config.is_frozen == status
            &&& s1.config.owner@ == s0.config.owner@
            &&& s1.config.denom@ == s0.config.denom@
            &&& unchanged_but_config(s0, s1)
            &&& resp.attributes@.len() == 2
            &&& attr_is(resp.attributes@[0], "method"@, "execute_freeze"@)
            &&& attr_is(resp.attributes@[1], "status"@, spec_bool_str(status))
            &&& resp.messages@.len() == 0
        },
        Err(e) => {
            &&& s1 == s0
            &&& !s0.freezer_permission(sender)
            &&& e == ContractError::Unauthorized
        },
    }
}

pub fn freeze(state: &mut State, _env: &Env, info: &MessageInfo, status: bool) -> (r: Result<
    Response,
    ContractError,
>)
    ensures
        freeze_post(*old(state), *final(state), info.sender@, status, r),
{
    if !state.freezer_allowances.get_or(&info.sender, false) {
        return Err(ContractError::Unauthorized);
    }
    state.config.is_frozen = status;
    let resp = Response::new()
        .add_attribute("method", String::from_str("execute_freeze"))
        .add_attribute("status", bool_to_string(status));
    Ok(resp)
}

/// Complete account of `blacklist`: gated on the caller's blacklister
/// permission; on success the target's restricted status is overwritten
/// with `status` and nothing else moves.
pub open spec fn blacklist_post(
    s0: State,
    s1: State,
    sender: Seq<char>,
    address: Seq<char>,
    status: bool,
    r: Result<Response, ContractError>,
) -> bool {
    match r {
        Ok(resp) => {
            &&& s0.blacklister_permission(sender)
            &&& valid_addr(address)
            &&& s1.blacklisted(address) == status
            &&& forall|p: Seq<char>| p != address ==> #[trigger] s1.blacklisted(p)
                == s0.blacklisted(p)
            &&& unchanged_but_blacklist(s0, s1)
            &&& resp.attributes@.len() == 3
            &&& attr_is(resp.attributes@[0], "method"@, "blacklist"@)
            &&& attr_is(resp.attributes@[1], "address"@, address)
            &&& attr_is(resp.attributes@[2], "status"@, spec_bool_str(status))
            &&& resp.messages@.len() == 0
        },
        Err(e) => {
            &&& s1 == s0
            &&& if !s0.blacklister_permission(sender) {
                e == ContractError::Unauthorized
            } else {
                !valid_addr(address) && e == ContractError::InvalidAddress
            }
        },
    }
}

pub fn blacklist(
    state: &mut State,
    _env: &Env,
    info: &MessageInfo,
    address: String,
    status: bool,
) -> (r: Result<Response, ContractError>)
    ensures
        blacklist_post(*old(state), *final(state), info.sender@, address@, status, r),
{
    if !state.blacklister_allowances.get_or(&info.sender, false) {
        return Err(ContractError::Unauthorized);
    }
    if !validate_address(address.as_str()) {
        return Err(ContractError::InvalidAddress);
    }
    state.blacklisted_addresses.set(address.clone(), status);
    let resp = Response::new()
        .add_attribute("method", String::from_str("blacklist"))
        .add_attribute("address", address)
        .add_attribute("status", bool_to_string(status));
    Ok(resp)
}

} // verus!
