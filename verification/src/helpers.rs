use vstd::prelude::*;

use crate::error::ContractError;
use crate::state::State;

verus! {

/// Succeeds exactly when `sender` is the configured owner; every
/// owner-gated command calls this before touching any state.
pub fn check_is_contract_owner(state: &State, sender: &String) -> (r: Result<(), ContractError>)
    ensures
        r is Ok <==> sender@ == state.config.owner@,
        r is Err ==> r == Err::<(), ContractError>(ContractError::Unauthorized),
{
    if *sender == state.config.owner {
        Ok(())
    } else {
        Err(ContractError::Unauthorized)
    }
}

} // verus!
