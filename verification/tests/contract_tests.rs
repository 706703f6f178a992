use cw_usdc::contract::{
    beforesend_hook, execute, execute_blacklist, execute_mint, instantiate, query, query_denom,
    query_is_frozen, sudo,
};
use cw_usdc::error::ContractError;
use cw_usdc::execute::{
    blacklist, burn, change_contract_owner, change_tokenfactory_admin, freeze, mint,
    set_blacklister, set_burner, set_freezer, set_minter,
};
use cw_usdc::helpers::check_is_contract_owner;
use cw_usdc::msg::{
    Coin, Env, ExecuteMsg, InstantiateMsg, MessageInfo, OutboundMsg, QueryAnswer, QueryMsg,
    Response, SudoMsg,
};
use cw_usdc::state::State;

fn env() -> Env {
    Env {
        contract_address: String::from("contractaddr"),
    }
}

fn info(sender: &str) -> MessageInfo {
    MessageInfo {
        sender: String::from(sender),
    }
}

fn setup() -> (Env, MessageInfo, State) {
    let e = env();
    let creator = info("creator");
    let (state, _res) = instantiate(
        &e,
        &creator,
        InstantiateMsg {
            subdenom: String::from("uusdc"),
        },
    );
    (e, creator, state)
}

fn attr(res: &Response, i: usize) -> (&str, &str) {
    (
        res.attributes[i].key.as_str(),
        res.attributes[i].value.as_str(),
    )
}

#[test]
fn proper_initialization() {
    let e = env();
    let creator = info("creator");
    let (state, res) = instantiate(
        &e,
        &creator,
        InstantiateMsg {
            subdenom: String::from("uusdc"),
        },
    );
    assert_eq!(0, res.messages.len());
    assert_eq!(attr(&res, 0), ("method", "instantiate"));
    assert_eq!(attr(&res, 1), ("owner", "creator"));
    assert_eq!(query_denom(&state).as_str(), "uusdc");
    assert!(!query_is_frozen(&state).is_frozen);
    assert_eq!(state.config.owner.as_str(), "creator");
}

#[test]
fn query_answers() {
    let (_e, _creator, state) = setup();
    match query(&state, QueryMsg::Denom) {
        QueryAnswer::Denom(d) => assert_eq!(d.denom.as_str(), "uusdc"),
        _ => panic!("wrong answer variant"),
    }
    match query(&state, QueryMsg::IsFrozen) {
        QueryAnswer::IsFrozen(f) => assert!(!f.is_frozen),
        _ => panic!("wrong answer variant"),
    }
}

#[test]
fn mint_within_allowance() {
    let (e, creator, mut state) = setup();
    let res = set_minter(&mut state, &e, &creator, String::from("minterone"), 100).unwrap();
    assert_eq!(attr(&res, 0), ("method", "set_minter"));
    assert_eq!(attr(&res, 1), ("minter", "minterone"));
    assert_eq!(attr(&res, 2), ("amount", "100"));
    assert_eq!(
        state.minter_allowances.get_or(&String::from("minterone"), 0),
        100
    );

    let minter = info("minterone");
    let res = mint(&mut state, &e, &minter, String::from("recipient"), 40).unwrap();
    assert_eq!(
        state.minter_allowances.get_or(&String::from("minterone"), 0),
        60
    );
    assert_eq!(attr(&res, 0), ("method", "mint_tokens"));
    assert_eq!(res.messages.len(), 2);
    assert_eq!(
        res.messages[0],
        OutboundMsg::MintTokens {
            denom: String::from("uusdc"),
            amount: 40,
            mint_to_address: String::from("contractaddr"),
        }
    );
    assert_eq!(
        res.messages[1],
        OutboundMsg::SendTokens {
            to_address: String::from("recipient"),
            amount: 40,
            denom: String::from("uusdc"),
        }
    );
}

#[test]
fn mint_beyond_allowance_leaves_state_unchanged() {
    let (e, creator, mut state) = setup();
    set_minter(&mut state, &e, &creator, String::from("minterone"), 100).unwrap();
    let minter = info("minterone");
    mint(&mut state, &e, &minter, String::from("recipient"), 40).unwrap();

    let err = mint(&mut state, &e, &minter, String::from("recipient"), 61).unwrap_err();
    assert_eq!(err, ContractError::InsufficientAllowance);
    assert_eq!(
        state.minter_allowances.get_or(&String::from("minterone"), 0),
        60
    );
}

#[test]
fn mint_without_any_allowance_fails() {
    let (e, _creator, mut state) = setup();
    let nobody = info("someminter");
    let err = mint(&mut state, &e, &nobody, String::from("recipient"), 1).unwrap_err();
    assert_eq!(err, ContractError::InsufficientAllowance);
}

#[test]
fn zero_amount_mint_rejected() {
    let (e, creator, mut state) = setup();
    set_minter(&mut state, &e, &creator, String::from("minterone"), 100).unwrap();
    let minter = info("minterone");
    let err = mint(&mut state, &e, &minter, String::from("recipient"), 0).unwrap_err();
    assert_eq!(err, ContractError::ZeroAmount);
    assert_eq!(
        state.minter_allowances.get_or(&String::from("minterone"), 0),
        100
    );
}

#[test]
fn zero_amount_burn_rejected() {
    let (e, creator, mut state) = setup();
    set_burner(&mut state, &e, &creator, String::from("burnerone"), 100).unwrap();
    let burner = info("burnerone");
    let err = burn(&mut state, &e, &burner, 0).unwrap_err();
    assert_eq!(err, ContractError::ZeroAmount);
    assert_eq!(
        state.burner_allowances.get_or(&String::from("burnerone"), 0),
        100
    );
}

#[test]
fn burn_within_allowance() {
    let (e, creator, mut state) = setup();
    let res = set_burner(&mut state, &e, &creator, String::from("burnerone"), 100).unwrap();
    assert_eq!(attr(&res, 2), ("allowance", "100"));

    let burner = info("burnerone");
    let res = burn(&mut state, &e, &burner, 40).unwrap();
    assert_eq!(
        state.burner_allowances.get_or(&String::from("burnerone"), 0),
        60
    );
    assert_eq!(attr(&res, 0), ("method", "execute_burn"));
    assert_eq!(attr(&res, 1), ("amount", "40"));
    assert_eq!(res.messages.len(), 1);
    assert_eq!(
        res.messages[0],
        OutboundMsg::BurnTokens {
            denom: String::from("uusdc"),
            amount: 40,
            burn_from_address: String::new(),
        }
    );
}

#[test]
fn burn_beyond_allowance_fails() {
    let (e, _creator, mut state) = setup();
    let burner = info("burnerone");
    let err = burn(&mut state, &e, &burner, 5).unwrap_err();
    assert_eq!(err, ContractError::InsufficientAllowance);
}

#[test]
fn ownership_gate_rejects_non_owner() {
    let (e, _creator, mut state) = setup();
    let anyone = info("anyone");
    let commands = vec![
        ExecuteMsg::SetMinter {
            address: String::from("minterone"),
            allowance: 5,
        },
        ExecuteMsg::SetBurner {
            address: String::from("burnerone"),
            allowance: 5,
        },
        ExecuteMsg::SetFreezer {
            address: String::from("freezerone"),
            status: true,
        },
        ExecuteMsg::SetBlacklister {
            address: String::from("blacklistone"),
            status: true,
        },
        ExecuteMsg::ChangeContractOwner {
            new_owner: String::from("newowner"),
        },
        ExecuteMsg::ChangeTokenfactoryAdmin {
            new_admin_address: String::from("newadmin"),
        },
    ];
    for msg in commands {
        match execute(&mut state, &e, &anyone, msg) {
            Err(ContractError::Unauthorized) => {}
            _ => panic!("Must return unauthorized error"),
        }
    }
    assert_eq!(state.config.owner.as_str(), "creator");
    assert_eq!(
        state.minter_allowances.get_or(&String::from("minterone"), 0),
        0
    );
    assert!(!state
        .freezer_allowances
        .get_or(&String::from("freezerone"), false));
}

#[test]
fn check_owner_helper() {
    let (_e, _creator, state) = setup();
    assert!(check_is_contract_owner(&state, &String::from("creator")).is_ok());
    assert_eq!(
        check_is_contract_owner(&state, &String::from("anyone")).unwrap_err(),
        ContractError::Unauthorized
    );
}

#[test]
fn grant_overwrite_is_idempotent() {
    let (e, creator, mut state) = setup();
    set_minter(&mut state, &e, &creator, String::from("minterone"), 7).unwrap();
    assert_eq!(
        state.minter_allowances.get_or(&String::from("minterone"), 0),
        7
    );
    set_minter(&mut state, &e, &creator, String::from("minterone"), 7).unwrap();
    assert_eq!(
        state.minter_allowances.get_or(&String::from("minterone"), 0),
        7
    );
}

#[test]
fn grant_overwrites_instead_of_adding() {
    let (e, creator, mut state) = setup();
    set_minter(&mut state, &e, &creator, String::from("minterone"), 100).unwrap();
    set_minter(&mut state, &e, &creator, String::from("minterone"), 30).unwrap();
    assert_eq!(
        state.minter_allowances.get_or(&String::from("minterone"), 0),
        30
    );
}

#[test]
fn freeze_requires_permission() {
    let (e, _creator, mut state) = setup();
    let anyone = info("anyone");
    let err = freeze(&mut state, &e, &anyone, true).unwrap_err();
    assert_eq!(err, ContractError::Unauthorized);
    assert!(!state.config.is_frozen);
}

#[test]
fn freeze_blocks_all_transfers() {
    let (e, creator, mut state) = setup();
    let res = set_freezer(&mut state, &e, &creator, String::from("freezerone"), true).unwrap();
    assert_eq!(attr(&res, 0), ("method", "set_freezer"));
    assert_eq!(attr(&res, 1), ("freezer", "freezerone"));
    assert_eq!(attr(&res, 2), ("status", "true"));

    let freezer = info("freezerone");
    let res = freeze(&mut state, &e, &freezer, true).unwrap();
    assert_eq!(attr(&res, 0), ("method", "execute_freeze"));
    assert_eq!(attr(&res, 1), ("status", "true"));
    assert!(query_is_frozen(&state).is_frozen);

    let err = beforesend_hook(
        &state,
        String::from("alice"),
        String::from("bobby"),
        vec![Coin {
            denom: String::from("uusdc"),
            amount: 5,
        }],
    )
    .unwrap_err();
    assert_eq!(err, ContractError::Frozen);

    freeze(&mut state, &e, &freezer, false).unwrap();
    assert!(!query_is_frozen(&state).is_frozen);
    let res = beforesend_hook(
        &state,
        String::from("alice"),
        String::from("bobby"),
        Vec::new(),
    )
    .unwrap();
    assert_eq!(attr(&res, 0), ("method", "beforesend_hook"));
}

#[test]
fn blacklist_requires_permission() {
    let (e, _creator, mut state) = setup();
    let anyone = info("anyone");
    let err = blacklist(&mut state, &e, &anyone, String::from("target"), true).unwrap_err();
    assert_eq!(err, ContractError::Unauthorized);
    assert!(!state
        .blacklisted_addresses
        .get_or(&String::from("target"), false));
}

#[test]
fn blacklisted_sender_is_rejected() {
    let (e, creator, mut state) = setup();
    set_blacklister(&mut state, &e, &creator, String::from("blacklistone"), true).unwrap();
    let blacklister = info("blacklistone");
    let res = blacklist(&mut state, &e, &blacklister, String::from("alice"), true).unwrap();
    assert_eq!(attr(&res, 0), ("method", "blacklist"));
    assert_eq!(attr(&res, 1), ("address", "alice"));
    assert_eq!(attr(&res, 2), ("status", "true"));

    let err = beforesend_hook(&state, String::from("alice"), String::from("bobby"), Vec::new())
        .unwrap_err();
    assert_eq!(err, ContractError::Blacklisted);

    let res = beforesend_hook(&state, String::from("carol"), String::from("bobby"), Vec::new())
        .unwrap();
    assert_eq!(res.messages.len(), 0);

    blacklist(&mut state, &e, &blacklister, String::from("alice"), false).unwrap();
    assert!(beforesend_hook(
        &state,
        String::from("alice"),
        String::from("bobby"),
        Vec::new()
    )
    .is_ok());
}

#[test]
fn sudo_routes_beforesend() {
    let (e, creator, mut state) = setup();
    set_freezer(&mut state, &e, &creator, String::from("freezerone"), true).unwrap();
    freeze(&mut state, &e, &info("freezerone"), true).unwrap();
    let err = sudo(
        &state,
        SudoMsg::BeforeSend {
            from: String::from("alice"),
            to: String::from("bobby"),
            amount: Vec::new(),
        },
    )
    .unwrap_err();
    assert_eq!(err, ContractError::Frozen);
}

#[test]
fn invalid_addresses_are_rejected() {
    let (e, creator, mut state) = setup();
    set_minter(&mut state, &e, &creator, String::from("minterone"), 100).unwrap();
    let minter = info("minterone");

    let err = mint(&mut state, &e, &minter, String::from("AB"), 40).unwrap_err();
    assert_eq!(err, ContractError::InvalidAddress);
    assert_eq!(
        state.minter_allowances.get_or(&String::from("minterone"), 0),
        100
    );

    let err = set_minter(&mut state, &e, &creator, String::from("xy"), 5).unwrap_err();
    assert_eq!(err, ContractError::InvalidAddress);

    let err = beforesend_hook(&state, String::from("no"), String::from("bobby"), Vec::new())
        .unwrap_err();
    assert_eq!(err, ContractError::InvalidAddress);
}

#[test]
fn change_owner_hands_over_the_gate() {
    let (e, creator, mut state) = setup();
    let res = change_contract_owner(&mut state, &e, &creator, String::from("newowner")).unwrap();
    assert_eq!(attr(&res, 0), ("method", "change_contract_owner"));
    assert_eq!(attr(&res, 1), ("new_owner", "newowner"));
    assert_eq!(state.config.owner.as_str(), "newowner");

    let err =
        set_minter(&mut state, &e, &creator, String::from("minterone"), 5).unwrap_err();
    assert_eq!(err, ContractError::Unauthorized);

    let newowner = info("newowner");
    set_minter(&mut state, &e, &newowner, String::from("minterone"), 5).unwrap();
    assert_eq!(
        state.minter_allowances.get_or(&String::from("minterone"), 0),
        5
    );
}

#[test]
fn change_admin_emits_instruction_only() {
    let (e, creator, mut state) = setup();
    let res =
        change_tokenfactory_admin(&mut state, &e, &creator, String::from("newadmin")).unwrap();
    assert_eq!(attr(&res, 0), ("method", "change_tokenfactory_admin"));
    assert_eq!(res.messages.len(), 1);
    assert_eq!(
        res.messages[0],
        OutboundMsg::ChangeAdmin {
            denom: String::from("uusdc"),
            new_admin_address: String::from("newadmin"),
        }
    );
    assert_eq!(state.config.owner.as_str(), "creator");
    assert_eq!(query_denom(&state).as_str(), "uusdc");
}

#[test]
fn execute_routes_mint_and_blacklist() {
    let (e, creator, mut state) = setup();
    set_minter(&mut state, &e, &creator, String::from("minterone"), 100).unwrap();
    let minter = info("minterone");
    let res = execute(
        &mut state,
        &e,
        &minter,
        ExecuteMsg::Mint {
            to_address: String::from("recipient"),
            amount: 40,
        },
    )
    .unwrap();
    assert_eq!(res.messages.len(), 2);
    assert_eq!(
        state.minter_allowances.get_or(&String::from("minterone"), 0),
        60
    );

    set_blacklister(&mut state, &e, &creator, String::from("blacklistone"), true).unwrap();
    let blacklister = info("blacklistone");
    execute(
        &mut state,
        &e,
        &blacklister,
        ExecuteMsg::Blacklist {
            address: String::from("alice"),
            status: true,
        },
    )
    .unwrap();
    assert!(state
        .blacklisted_addresses
        .get_or(&String::from("alice"), false));

    let res = execute(
        &mut state,
        &e,
        &info("freezerone"),
        ExecuteMsg::Freeze { status: true },
    );
    assert_eq!(res.unwrap_err(), ContractError::Unauthorized);
}

#[test]
fn entry_point_wrappers_behave_like_handlers() {
    let (e, creator, mut state) = setup();
    set_minter(&mut state, &e, &creator, String::from("minterone"), 50).unwrap();
    let minter = info("minterone");
    let res = execute_mint(&mut state, &e, &minter, String::from("recipient"), 50).unwrap();
    assert_eq!(res.messages.len(), 2);
    assert_eq!(
        state.minter_allowances.get_or(&String::from("minterone"), 0),
        0
    );

    set_blacklister(&mut state, &e, &creator, String::from("blacklistone"), true).unwrap();
    let blacklister = info("blacklistone");
    execute_blacklist(&mut state, &e, &blacklister, String::from("alice"), true).unwrap();
    assert!(state
        .blacklisted_addresses
        .get_or(&String::from("alice"), false));
}

#[test]
fn attribute_amounts_render_in_decimal() {
    let (e, creator, mut state) = setup();
    let res = set_minter(&mut state, &e, &creator, String::from("minterone"), 0).unwrap();
    assert_eq!(attr(&res, 2), ("amount", "0"));
    let res = set_burner(
        &mut state,
        &e,
        &creator,
        String::from("burnerone"),
        340282366920938463463374607431768211455,
    )
    .unwrap();
    assert_eq!(
        attr(&res, 2),
        ("allowance", "340282366920938463463374607431768211455")
    );
    let res = set_blacklister(&mut state, &e, &creator, String::from("blacklistone"), false)
        .unwrap();
    assert_eq!(attr(&res, 2), ("status", "false"));
}
