//! The AMMs that are kept in sync.
use vstd::prelude::*;

use crate::amm::erc_4626::ERC4626Vault;
use crate::amm::uniswap_v2::UniswapV2Pool;
use crate::amm::uniswap_v3::{UniswapV3Pool, UniswapV3PoolView};
use crate::primitives::Address;

pub mod erc_4626;
pub mod factory;
pub mod uniswap_v2;
pub mod uniswap_v3;

verus! {

/// An automated market maker.
#[derive(Debug)]
pub enum AMM {
    UniswapV2Pool(UniswapV2Pool),
    UniswapV3Pool(UniswapV3Pool),
    ERC4626Vault(ERC4626Vault),
}

/// What an [`AMM`] holds.
pub enum AMMView {
    UniswapV2Pool(UniswapV2Pool),
    UniswapV3Pool(UniswapV3PoolView),
    ERC4626Vault(ERC4626Vault),
}

impl View for AMM {
    type V = AMMView;

    open spec fn view(&self) -> AMMView {
        match *self {
            AMM::UniswapV2Pool(pool) => AMMView::UniswapV2Pool(pool),
            AMM::UniswapV3Pool(pool) => AMMView::UniswapV3Pool(pool@),
            AMM::ERC4626Vault(vault) => AMMView::ERC4626Vault(vault),
        }
    }
}

/// What each AMM of a list holds.
pub open spec fn amm_views(amms: Seq<AMM>) -> Seq<AMMView> {
    amms.map_values(|amm: AMM| amm@)
}

/// What an AMM shows is the pool or the vault that it is, and a list shows that of each AMM in
/// its place.
pub proof fn law_amms_show_what_they_are(
    v2_pool: UniswapV2Pool,
    v3_pool: UniswapV3Pool,
    vault: ERC4626Vault,
    amms: Seq<AMM>,
    i: int,
)
    ensures
        AMM::UniswapV2Pool(v2_pool)@ == AMMView::UniswapV2Pool(v2_pool),
        AMM::UniswapV3Pool(v3_pool)@ == AMMView::UniswapV3Pool(v3_pool@),
        AMM::ERC4626Vault(vault)@ == AMMView::ERC4626Vault(vault),
        amm_views(amms).len() == amms.len(),
        0 <= i < amms.len() ==> amm_views(amms)[i] == amms[i]@,
{
}

/// The address that an AMM is known by: that of the pool, or that of the vault's own token.
pub open spec fn amm_address(amm: AMMView) -> Address {
    match amm {
        AMMView::UniswapV2Pool(pool) => pool.address,
        AMMView::UniswapV3Pool(pool) => pool.address,
        AMMView::ERC4626Vault(vault) => vault.vault_token,
    }
}

/// The addresses of a list of AMMs, in their order.
pub open spec fn amm_addresses(amms: Seq<AMMView>) -> Seq<Address> {
    amms.map_values(|amm: AMMView| amm_address(amm))
}

impl Clone for AMM {
    fn clone(&self) -> (r: AMM)
        ensures
            r@ == self@,
    {
        match self {
            AMM::UniswapV2Pool(pool) => AMM::UniswapV2Pool(*pool),
            AMM::UniswapV3Pool(pool) => AMM::UniswapV3Pool(pool.clone()),
            AMM::ERC4626Vault(vault) => AMM::ERC4626Vault(*vault),
        }
    }
}

} // verus!
