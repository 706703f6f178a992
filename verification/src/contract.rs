use vstd::prelude::*;
use vstd::string::StringExecFns;

use crate::address::{valid_addr, validate_address};
use crate::error::ContractError;
use crate::execute::{
    blacklist, blacklist_post, burn, burn_post, change_admin_post, change_contract_owner,
    change_owner_post, change_tokenfactory_admin, freeze, freeze_post, mint, mint_post,
    set_blacklister, set_blacklister_post, set_burner, set_burner_post, set_freezer,
    set_freezer_post, set_minter, set_minter_post,
};
use crate::msg::{
    attr_is, Coin, DenomResponse, Env, ExecuteMsg, InstantiateMsg, IsFrozenResponse, MessageInfo,
    QueryAnswer, QueryMsg, Response, SudoMsg,
};
use crate::state::{Config, KvMap, State};

verus! {

/// What initialization leaves behind: a configuration owned by the sender
/// with the freeze flag down and the denomination taken from the message,
/// and five empty mappings.
pub open spec fn instantiate_post(s: State, sender: Seq<char>, subdenom: Seq<char>, resp: Response) -> bool {
    &&& s.config.owner@ == sender
    &&& s.config.is_frozen == false
    &&& s.config.denom@ == subdenom
    &&& forall|p: Seq<char>| #[trigger] s.minter_allowances.lookup(p) == None::<u128>
    &&& forall|p: Seq<char>| #[trigger] s.burner_allowances.lookup(p) == None::<u128>
    &&& forall|p: Seq<char>| #[trigger] s.freezer_allowances.lookup(p) == None::<bool>
    &&& forall|p: Seq<char>| #[trigger] s.blacklister_allowances.lookup(p) == None::<bool>
    &&& forall|p: Seq<char>| #[trigger] s.blacklisted_addresses.lookup(p) == None::<bool>
    &&& resp.attributes@.len() == 2
    &&& attr_is(resp.attributes@[0], "method"@, "instantiate"@)
    &&& attr_is(resp.attributes@[1], "owner"@, sender)
    &&& resp.messages@.len() == 0
}

/// Create the singleton configuration, exactly once per instance; the host
/// environment is responsible for preventing a second call.
pub fn instantiate(_env: &Env, info: &MessageInfo, msg: InstantiateMsg) -> (r: (State, Response))
    ensures
        instantiate_post(r.0, info.sender@, msg.subdenom@, r.1),
{
    let config = Config {
        owner: info.sender.clone(),
        is_frozen: false,
        denom: msg.subdenom,
    };
    let state = State {
        config,
        minter_allowances: KvMap::new(),
        burner_allowances: KvMap::new(),
        freezer_allowances: KvMap::new(),
        blacklister_allowances: KvMap::new(),
        blacklisted_addresses: KvMap::new(),
    };
    let resp = Response::new()
        .add_attribute("method", String::from_str("instantiate"))
        .add_attribute("owner", info.sender.clone());
    (state, resp)
}

/// The dispatcher's contract: each command behaves exactly as the handler
/// that owns it.
pub open spec fn execute_post(
    s0: State,
    s1: State,
    contract: Seq<char>,
    sender: Seq<char>,
    msg: ExecuteMsg,
    r: Result<Response, ContractError>,
) -> bool {
    match msg {
        ExecuteMsg::Mint { to_address, amount } => mint_post(
            s0,
            s1,
            contract,
            sender,
            to_address@,
            amount,
            r,
        ),
        ExecuteMsg::Burn { amount } => burn_post(s0, s1, sender, amount, r),
        ExecuteMsg::Blacklist { address, status } => blacklist_post(
            s0,
            s1,
            sender,
            address@,
            status,
            r,
        ),
        ExecuteMsg::SetMinter { address, allowance } => set_minter_post(
            s0,
            s1,
            sender,
            address@,
            allowance,
            r,
        ),
        ExecuteMsg::SetBurner { address, allowance } => set_burner_post(
            s0,
            s1,
            sender,
            address@,
            allowance,
            r,
        ),
        ExecuteMsg::SetFreezer { address, status } => set_freezer_post(
            s0,
            s1,
            sender,
            address@,
            status,
            r,
        ),
        ExecuteMsg::SetBlacklister { address, status } => set_blacklister_post(
            s0,
            s1,
            sender,
            address@,
            status,
            r,
        ),
        ExecuteMsg::ChangeContractOwner { new_owner } => change_owner_post(
            s0,
            s1,
            sender,
            new_owner@,
            r,
        ),
        ExecuteMsg::ChangeTokenfactoryAdmin { new_admin_address } => change_admin_post(
            s0,
            s1,
            sender,
            new_admin_address@,
            r,
        ),
        ExecuteMsg::Freeze { status } => freeze_post(s0, s1, sender, status, r),
    }
}

/// Route a command to the handler that owns it; every precondition is
/// enforced by that handler before it mutates anything.
pub fn execute(state: &mut State, env: &Env, info: &MessageInfo, msg: ExecuteMsg) -> (r: Result<
    Response,
    ContractError,
>)
    ensures
        execute_post(*old(state), *final(state), env.contract_address@, info.sender@, msg, r),
{
    match msg {
        ExecuteMsg::Mint { to_address, amount } => execute_mint(state, env, info, to_address, amount),
        ExecuteMsg::Burn { amount } => burn(state, env, info, amount),
        ExecuteMsg::Blacklist { address, status } => execute_blacklist(
            state,
            env,
            info,
            address,
            status,
        ),
        ExecuteMsg::SetMinter { address, allowance } => set_minter(
            state,
            env,
            info,
            address,
            allowance,
        ),
        ExecuteMsg::SetBurner { address, allowance } => set_burner(
            state,
            env,
            info,
            address,
            allowance,
        ),
        ExecuteMsg::SetFreezer { address, status } => set_freezer(state, env, info, address, status),
        ExecuteMsg::SetBlacklister { address, status } => set_blacklister(
            state,
            env,
            info,
            address,
            status,
        ),
        ExecuteMsg::ChangeContractOwner { new_owner } => change_contract_owner(
            state,
            env,
            info,
            new_owner,
        ),
        ExecuteMsg::ChangeTokenfactoryAdmin { new_admin_address } => change_tokenfactory_admin(
            state,
            env,
            info,
            new_admin_address,
        ),
        ExecuteMsg::Freeze { status } => freeze(state, env, info, status),
    }
}

/// Entry point behind the `Mint` command; same behaviour as `mint`.
pub fn execute_mint(
    state: &mut State,
    env: &Env,
    info: &MessageInfo,
    to_address: String,
    amount: u128,
) -> (r: Result<Response, ContractError>)
    ensures
        mint_post(
            *old(state),
            *final(state),
            env.contract_address@,
            info.sender@,
            to_address@,
            amount,
            r,
        ),
{
    mint(state, env, info, to_address, amount)
}

/// Entry point behind the `Blacklist` command; same behaviour as
/// `blacklist`.
pub fn execute_blacklist(
    state: &mut State,
    env: &Env,
    info: &MessageInfo,
    address: String,
    status: bool,
) -> (r: Result<Response, ContractError>)
    ensures
        blacklist_post(*old(state), *final(state), info.sender@, address@, status, r),
{
    blacklist(state, env, info, address, status)
}

/// The pre-transfer guard's verdict, as a function of the state alone:
/// malformed parties are rejected outright, a raised freeze flag blocks
/// every transfer, and otherwise a restricted sender is refused.
pub open spec fn transfer_verdict(s: State, from: Seq<char>, to: Seq<char>) -> Option<
    ContractError,
> {
    if !valid_addr(from) || !valid_addr(to) {
        Some(ContractError::InvalidAddress)
    } else if s.config.is_frozen {
        Some(ContractError::Frozen)
    } else if s.blacklisted(from) {
        Some(ContractError::Blacklisted)
    } else {
        None
    }
}

/// The guard returns success exactly when the verdict allows the transfer,
/// and the verdict's reason otherwise; it writes nothing.
pub open spec fn beforesend_post(
    s: State,
    from: Seq<char>,
    to: Seq<char>,
    r: Result<Response, ContractError>,
) -> bool {
    match r {
        Ok(resp) => {
            &&& transfer_verdict(s, from, to) is None
            &&& resp.attributes@.len() == 1
            &&& attr_is(resp.attributes@[0], "method"@, "beforesend_hook"@)
            &&& resp.messages@.len() == 0
        },
        Err(e) => transfer_verdict(s, from, to) == Some(e),
    }
}

/// Read-only hook the token backend consults before moving any of the
/// managed denom; the amount plays no part in the verdict.
pub fn beforesend_hook(state: &State, from: String, to: String, _amount: Vec<Coin>) -> (r: Result<
    Response,
    ContractError,
>)
    ensures
        beforesend_post(*state, from@, to@, r),
{
    if !validate_address(from.as_str()) {
        return Err(ContractError::InvalidAddress);
    }
    if !validate_address(to.as_str()) {
        return Err(ContractError::InvalidAddress);
    }
    if state.config.is_frozen {
        return Err(ContractError::Frozen);
    }
    if state.blacklisted_addresses.get_or(&from, false) {
        return Err(ContractError::Blacklisted);
    }
    Ok(Response::new().add_attribute("method", String::from_str("beforesend_hook")))
}

/// Route a host hook to its handler.
pub fn sudo(state: &State, msg: SudoMsg) -> (r: Result<Response, ContractError>)
    ensures
        match msg {
            SudoMsg::BeforeSend { from, to, amount } => beforesend_post(*state, from@, to@, r),
        },
{
    match msg {
        SudoMsg::BeforeSend { from, to, amount } => beforesend_hook(state, from, to, amount),
    }
}

pub fn query_denom(state: &State) -> (r: String)
    ensures
        r@ == state.config.denom@,
{
    state.config.denom.clone()
}

pub fn query_is_frozen(state: &State) -> (r: IsFrozenResponse)
    ensures
        r.is_frozen == state.config.is_frozen,
{
    IsFrozenResponse { is_frozen: state.config.is_frozen }
}

/// Answer a read-only query; no side effects.
pub fn query(state: &State, msg: QueryMsg) -> (r: QueryAnswer)
    ensures
        match msg {
            QueryMsg::IsFrozen => r matches QueryAnswer::IsFrozen(x) && x.is_frozen
                == state.config.is_frozen,
            QueryMsg::Denom => r matches QueryAnswer::Denom(x) && x.denom@ == state.config.denom@,
        },
{
    match msg {
        QueryMsg::IsFrozen => QueryAnswer::IsFrozen(query_is_frozen(state)),
        QueryMsg::Denom => QueryAnswer::Denom(DenomResponse { denom: query_denom(state) }),
    }
}

} // verus!
