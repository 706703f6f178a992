use vstd::prelude::*;

use crate::address::valid_addr;
use crate::contract::transfer_verdict;
use crate::error::ContractError;
use crate::execute::{
    blacklist_post, burn_post, change_admin_post, change_owner_post, freeze_post, mint_post,
    set_blacklister_post, set_burner_post, set_freezer_post, set_minter_post,
};
use crate::msg::Response;
use crate::state::State;

verus! {

/// Allowance conservation: a mint of `amount` by `sender` within the
/// current allowance succeeds and leaves the allowance smaller by exactly
/// `amount`; a mint beyond the allowance fails with
/// `InsufficientAllowance` and changes nothing.
pub proof fn lemma_mint_allowance_conservation(
    s0: State,
    s1: State,
    contract: Seq<char>,
    sender: Seq<char>,
    to: Seq<char>,
    amount: u128,
    r: Result<Response, ContractError>,
)
    requires
        mint_post(s0, s1, contract, sender, to, amount, r),
        valid_addr(to),
        amount != 0,
    ensures
        amount <= s0.minter_allowance(sender) ==> r is Ok && s1.minter_allowance(sender)
            == s0.minter_allowance(sender) - amount,
        amount > s0.minter_allowance(sender) ==> r == Err::<Response, ContractError>(
            ContractError::InsufficientAllowance,
        ) && s1 == s0,
{
}

/// Zero-amount rejection for mint: whatever the allowances and
/// permissions, minting nothing to a well-formed recipient fails with
/// `ZeroAmount` and changes nothing.
pub proof fn lemma_mint_zero_amount_rejected(
    s0: State,
    s1: State,
    contract: Seq<char>,
    sender: Seq<char>,
    to: Seq<char>,
    r: Result<Response, ContractError>,
)
    requires
        mint_post(s0, s1, contract, sender, to, 0, r),
        valid_addr(to),
    ensures
        r == Err::<Response, ContractError>(ContractError::ZeroAmount),
        s1 == s0,
{
}

/// Zero-amount rejection for burn: burning nothing fails with
/// `ZeroAmount` and changes nothing, whoever the caller is.
pub proof fn lemma_burn_zero_amount_rejected(
    s0: State,
    s1: State,
    sender: Seq<char>,
    r: Result<Response, ContractError>,
)
    requires
        burn_post(s0, s1, sender, 0, r),
    ensures
        r == Err::<Response, ContractError>(ContractError::ZeroAmount),
        s1 == s0,
{
}

/// The ownership gate: the command succeeded only if the caller is the
/// configured owner, and any other caller got `Unauthorized` with no state
/// change.
pub open spec fn ownership_gate(
    s0: State,
    s1: State,
    sender: Seq<char>,
    r: Result<Response, ContractError>,
) -> bool {
    &&& r is Ok ==> sender == s0.config.owner@
    &&& sender != s0.config.owner@ ==> r == Err::<Response, ContractError>(
        ContractError::Unauthorized,
    ) && s1 == s0
}

/// Only the owner can set a minter allowance.
pub proof fn lemma_owner_gate_set_minter(
    s0: State,
    s1: State,
    sender: Seq<char>,
    address: Seq<char>,
    allowance: u128,
    r: Result<Response, ContractError>,
)
    requires
        set_minter_post(s0, s1, sender, address, allowance, r),
    ensures
        ownership_gate(s0, s1, sender, r),
{
}

/// Only the owner can set a burner allowance.
pub proof fn lemma_owner_gate_set_burner(
    s0: State,
    s1: State,
    sender: Seq<char>,
    address: Seq<char>,
    allowance: u128,
    r: Result<Response, ContractError>,
)
    requires
        set_burner_post(s0, s1, sender, address, allowance, r),
    ensures
        ownership_gate(s0, s1, sender, r),
{
}

/// Only the owner can grant or revoke the freezer permission.
pub proof fn lemma_owner_gate_set_freezer(
    s0: State,
    s1: State,
    sender: Seq<char>,
    address: Seq<char>,
    status: bool,
    r: Result<Response, ContractError>,
)
    requires
        set_freezer_post(s0, s1, sender, address, status, r),
    ensures
        ownership_gate(s0, s1, sender, r),
{
}

/// Only the owner can grant or revoke the blacklister permission.
pub proof fn lemma_owner_gate_set_blacklister(
    s0: State,
    s1: State,
    sender: Seq<char>,
    address: Seq<char>,
    status: bool,
    r: Result<Response, ContractError>,
)
    requires
        set_blacklister_post(s0, s1, sender, address, status, r),
    ensures
        ownership_gate(s0, s1, sender, r),
{
}

/// Only the owner can hand ownership over.
pub proof fn lemma_owner_gate_change_owner(
    s0: State,
    s1: State,
    sender: Seq<char>,
    new_owner: Seq<char>,
    r: Result<Response, ContractError>,
)
    requires
        change_owner_post(s0, s1, sender, new_owner, r),
    ensures
        ownership_gate(s0, s1, sender, r),
{
}

/// Only the owner can reassign the backend administrator of the denom.
pub proof fn lemma_owner_gate_change_admin(
    s0: State,
    s1: State,
    sender: Seq<char>,
    new_admin: Seq<char>,
    r: Result<Response, ContractError>,
)
    requires
        change_admin_post(s0, s1, sender, new_admin, r),
    ensures
        ownership_gate(s0, s1, sender, r),
{
}

/// The freeze gate: raising the freeze flag succeeds exactly for callers
/// holding the freezer permission, and once it has succeeded the
/// pre-transfer guard rejects every transfer between well-formed parties
/// with `Frozen`.
pub proof fn lemma_freeze_gate(
    s0: State,
    s1: State,
    sender: Seq<char>,
    r: Result<Response, ContractError>,
)
    requires
        freeze_post(s0, s1, sender, true, r),
    ensures
        r is Ok <==> s0.freezer_permission(sender),
        r is Err ==> r == Err::<Response, ContractError>(ContractError::Unauthorized) && s1 == s0,
        r is Ok ==> forall|from: Seq<char>, to: Seq<char>|
            valid_addr(from) && valid_addr(to) ==> #[trigger] transfer_verdict(s1, from, to)
                == Some(ContractError::Frozen),
{
}

/// The blacklist gate: marking a principal restricted succeeds only for
/// callers holding the blacklister permission (anyone else gets
/// `Unauthorized` and no state change), and once it has succeeded the
/// guard rejects transfers from that principal with `Blacklisted` while
/// the freeze flag is down.
pub proof fn lemma_blacklist_gate(
    s0: State,
    s1: State,
    sender: Seq<char>,
    address: Seq<char>,
    r: Result<Response, ContractError>,
)
    requires
        blacklist_post(s0, s1, sender, address, true, r),
    ensures
        r is Ok ==> s0.blacklister_permission(sender),
        !s0.blacklister_permission(sender) ==> r == Err::<Response, ContractError>(
            ContractError::Unauthorized,
        ) && s1 == s0,
        r is Ok && !s1.config.is_frozen ==> forall|to: Seq<char>|
            valid_addr(to) ==> #[trigger] transfer_verdict(s1, address, to)
                == Some(ContractError::Blacklisted),
{
}

/// Idempotence of grants: issuing the same minter grant twice leaves the
/// target's allowance at the granted value after either call, and the
/// second call moves nothing at all.
pub proof fn lemma_minter_grant_idempotent(
    s0: State,
    s1: State,
    s2: State,
    sender: Seq<char>,
    address: Seq<char>,
    allowance: u128,
    r1: Result<Response, ContractError>,
    r2: Result<Response, ContractError>,
)
    requires
        set_minter_post(s0, s1, sender, address, allowance, r1),
        set_minter_post(s1, s2, sender, address, allowance, r2),
        r1 is Ok,
        r2 is Ok,
    ensures
        s1.minter_allowance(address) == allowance,
        s2.minter_allowance(address) == allowance,
        forall|p: Seq<char>| #[trigger] s2.minter_allowance(p) == s1.minter_allowance(p),
{
}

} // verus!
