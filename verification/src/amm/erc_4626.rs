//! ERC-4626 vaults.
use vstd::prelude::*;

use crate::primitives::{Address, U256};

verus! {

/// A vault that trades its own token against the asset that it holds.
#[derive(Clone, Copy, Debug, PartialEq, Eq)]
pub struct ERC4626Vault {
    pub vault_token: Address,
    pub vault_token_decimals: u8,
    pub asset_token: Address,
    pub asset_token_decimals: u8,
    pub vault_reserve: U256,
    pub asset_reserve: U256,
    pub deposit_fee: u32,
    pub withdraw_fee: u32,
}

} // verus!
