//! Account lists of two small instructions, resolved from fetched state and
//! from addresses that are fixed per program.
use crate::mirror::fetched_value;
use crate::types::{Error, Fetched, Missing, PoolState, Pubkey};
use vstd::prelude::*;

verus! {

/// What is needed to change the pool's admin: the new admin, the pool state
/// as fetched, and the address it lives at.
#[derive(Clone, Copy, Debug)]
pub struct SetAdminFreeArgs {
    pub new_admin: Pubkey,
    pub pool_state: Fetched<PoolState>,
    pub pool_state_addr: Pubkey,
}

/// The accounts of the instruction that changes the admin.
#[derive(Clone, Copy, Debug, PartialEq, Eq, Structural)]
pub struct SetAdminKeys {
    pub current_admin: Pubkey,
    pub new_admin: Pubkey,
    pub pool_state: Pubkey,
}

impl SetAdminFreeArgs {
    /// Reads the current admin out of the pool state. Fails as the fetch of
    /// the pool state did.
    pub fn resolve(self) -> (r: Result<SetAdminKeys, Error>)
        ensures
            match fetched_value(self.pool_state, Missing::PoolState) {
                Err(e) => r == Err::<SetAdminKeys, Error>(e),
                Ok(ps) => r == Ok::<SetAdminKeys, Error>(
                    SetAdminKeys {
                        current_admin: ps.admin,
                        new_admin: self.new_admin,
                        pool_state: self.pool_state_addr,
                    },
                ),
            },
    {
        match self.pool_state {
            Fetched::Missing => Err(Error::NotReady(Missing::PoolState)),
            Fetched::Failed(e) => Err(e),
            Fetched::Parsed(ps) => Ok(
                SetAdminKeys {
                    current_admin: ps.admin,
                    new_admin: self.new_admin,
                    pool_state: self.pool_state_addr,
                },
            ),
        }
    }
}

/// The asset for which the redemption of LP tokens is priced.
#[derive(Clone, Copy, Debug, PartialEq, Eq, Structural)]
pub struct PriceLpTokenToRedeemFreeArgs {
    pub output_lst_mint: Pubkey,
}

/// The accounts of the pricing request for a redemption.
#[derive(Clone, Copy, Debug, PartialEq, Eq, Structural)]
pub struct PriceLpTokensToRedeemKeys {
    pub output_lst_mint: Pubkey,
    pub state: Pubkey,
}

impl PriceLpTokenToRedeemFreeArgs {
    /// Pairs the asset with the pricing program's state account.
    pub fn resolve(&self, state: Pubkey) -> (r: PriceLpTokensToRedeemKeys)
        ensures
            r == (PriceLpTokensToRedeemKeys { output_lst_mint: self.output_lst_mint, state }),
    {
        PriceLpTokensToRedeemKeys { output_lst_mint: self.output_lst_mint, state }
    }
}

} // verus!
