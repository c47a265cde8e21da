//! Uniswap v3 pools and their factory.
use vstd::prelude::*;

use crate::lists::copied;
use crate::primitives::{Address, U256};

verus! {

/// What a pool keeps for one initialised tick.
#[derive(Clone, Copy, Debug, PartialEq, Eq)]
pub struct TickInfo {
    pub liquidity_gross: u128,
    pub liquidity_net: i128,
    pub initialized: bool,
}

/// A Uniswap v3 pool.
#[derive(Debug)]
pub struct UniswapV3Pool {
    pub address: Address,
    pub token_a: Address,
    pub token_a_decimals: u8,
    pub token_b: Address,
    pub token_b_decimals: u8,
    pub liquidity: u128,
    pub sqrt_price: U256,
    pub fee: u32,
    pub tick: i32,
    pub tick_spacing: i32,
    pub tick_bitmap: Vec<(i16, U256)>,
    pub ticks: Vec<(i32, TickInfo)>,
}

/// What a [`UniswapV3Pool`] holds.
pub struct UniswapV3PoolView {
    pub address: Address,
    pub token_a: Address,
    pub token_a_decimals: u8,
    pub token_b: Address,
    pub token_b_decimals: u8,
    pub liquidity: u128,
    pub sqrt_price: U256,
    pub fee: u32,
    pub tick: i32,
    pub tick_spacing: i32,
    pub tick_bitmap: Seq<(i16, U256)>,
    pub ticks: Seq<(i32, TickInfo)>,
}

impl View for UniswapV3Pool {
    type V = UniswapV3PoolView;

    open spec fn view(&self) -> UniswapV3PoolView {
        UniswapV3PoolView {
            address: self.address,
            token_a: self.token_a,
            token_a_decimals: self.token_a_decimals,
            token_b: self.token_b,
            token_b_decimals: self.token_b_decimals,
            liquidity: self.liquidity,
            sqrt_price: self.sqrt_price,
            fee: self.fee,
            tick: self.tick,
            tick_spacing: self.tick_spacing,
            tick_bitmap: self.tick_bitmap@,
            ticks: self.ticks@,
        }
    }
}

/// Two pools that show the same agree in every field, and in every entry of their tick data.
pub proof fn law_pool_hides_nothing(pool: UniswapV3Pool, other: UniswapV3Pool)
    ensures
        pool@ == other@ <==> {
            &&& pool.address == other.address
            &&& pool.token_a == other.token_a
            &&& pool.token_a_decimals == other.token_a_decimals
            &&& pool.token_b == other.token_b
            &&& pool.token_b_decimals == other.token_b_decimals
            &&& pool.liquidity == other.liquidity
            &&& pool.sqrt_price == other.sqrt_price
            &&& pool.fee == other.fee
            &&& pool.tick == other.tick
            &&& pool.tick_spacing == other.tick_spacing
            &&& pool.tick_bitmap@ == other.tick_bitmap@
            &&& pool.ticks@ == other.ticks@
        },
{
}

impl Clone for UniswapV3Pool {
    fn clone(&self) -> (r: UniswapV3Pool)
        ensures
            r@ == self@,
    {
        UniswapV3Pool {
            address: self.address,
            token_a: self.token_a,
            token_a_decimals: self.token_a_decimals,
            token_b: self.token_b,
            token_b_decimals: self.token_b_decimals,
            liquidity: self.liquidity,
            sqrt_price: self.sqrt_price,
            fee: self.fee,
            tick: self.tick,
            tick_spacing: self.tick_spacing,
            tick_bitmap: copied(self.tick_bitmap.as_slice()),
            ticks: copied(self.ticks.as_slice()),
        }
    }
}

/// A contract that creates Uniswap v3 pools.
#[derive(Clone, Copy, Debug, PartialEq, Eq)]
pub struct UniswapV3Factory {
    pub address: Address,
    pub creation_block: u64,
}

} // verus!
