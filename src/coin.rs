use vstd::prelude::*;

use crate::ids::Principal;

verus! {

/// A request to a fungible-token program.
#[derive(Clone, Copy, Debug, PartialEq, Eq, Structural)]
pub enum FTAction {
    Mint(u128),
    Burn(u128),
    Transfer { from: Principal, to: Principal, amount: u128 },
    Approve { to: Principal, amount: u128 },
    TotalSupply,
    BalanceOf(Principal),
}

} // verus!
