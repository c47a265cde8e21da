//! The factories that AMMs are discovered from.
use vstd::prelude::*;

use crate::amm::uniswap_v2::factory::UniswapV2Factory;
use crate::amm::uniswap_v3::UniswapV3Factory;

verus! {

/// A contract that creates AMMs.
#[derive(Clone, Copy, Debug, PartialEq, Eq)]
pub enum Factory {
    UniswapV2Factory(UniswapV2Factory),
    UniswapV3Factory(UniswapV3Factory),
}

} // verus!
