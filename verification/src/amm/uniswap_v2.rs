//! Uniswap v2 pools.
use vstd::prelude::*;

use crate::primitives::{zero_address_bytes, Address};

pub mod data_batches;
pub mod factory;
pub mod pair_batches;
pub mod pair_created;
pub mod retry;
pub mod safe_pairs;

verus! {

/// A Uniswap v2 pool.
#[derive(Clone, Copy, Debug, PartialEq, Eq)]
pub struct UniswapV2Pool {
    pub address: Address,
    pub token_a: Address,
    pub token_a_decimals: u8,
    pub token_b: Address,
    pub token_b_decimals: u8,
    pub reserve_0: u128,
    pub reserve_1: u128,
    pub fee: u32,
}

impl UniswapV2Pool {
    /// Nothing is known of the pool but its address and its tokens.
    pub open spec fn is_bare(self) -> bool {
        &&& self.token_a_decimals == 0
        &&& self.token_b_decimals == 0
        &&& self.reserve_0 == 0
        &&& self.reserve_1 == 0
        &&& self.fee == 0
    }

    /// Nothing is known of the pool but its address.
    pub open spec fn is_empty_at(self, address: Address) -> bool {
        &&& self.address == address
        &&& self.token_a@ == zero_address_bytes()
        &&& self.token_b@ == zero_address_bytes()
        &&& self.is_bare()
    }
}

/// A pool of which nothing is known but its address has that address, and zero in every other
/// field.
pub proof fn law_empty_pool_is_zero_but_for_its_address(pool: UniswapV2Pool, address: Address)
    ensures
        pool.is_empty_at(address) <==> {
            &&& pool.address == address
            &&& forall|i: int| 0 <= i < 20 ==> pool.token_a.bytes@[i] == 0
            &&& forall|i: int| 0 <= i < 20 ==> pool.token_b.bytes@[i] == 0
            &&& pool.token_a_decimals == 0
            &&& pool.token_b_decimals == 0
            &&& pool.reserve_0 == 0
            &&& pool.reserve_1 == 0
            &&& pool.fee == 0
        },
        pool.is_bare() <==> {
            &&& pool.token_a_decimals == 0
            &&& pool.token_b_decimals == 0
            &&& pool.reserve_0 == 0
            &&& pool.reserve_1 == 0
            &&& pool.fee == 0
        },
{
    if forall|i: int| 0 <= i < 20 ==> pool.token_a.bytes@[i] == 0 {
        assert(pool.token_a@ =~= zero_address_bytes());
    }
    if forall|i: int| 0 <= i < 20 ==> pool.token_b.bytes@[i] == 0 {
        assert(pool.token_b@ =~= zero_address_bytes());
    }
    assert(pool.token_a@ == zero_address_bytes() ==> forall|i: int|
        0 <= i < 20 ==> pool.token_a.bytes@[i] == zero_address_bytes()[i]);
    assert(pool.token_b@ == zero_address_bytes() ==> forall|i: int|
        0 <= i < 20 ==> pool.token_b.bytes@[i] == zero_address_bytes()[i]);
}

impl UniswapV2Pool {
    /// The pool at an address, with nothing else known of it.
    pub fn empty(address: Address) -> (r: UniswapV2Pool)
        ensures
            r.is_empty_at(address),
    {
        UniswapV2Pool {
            address,
            token_a: Address::zero(),
            token_a_decimals: 0,
            token_b: Address::zero(),
            token_b_decimals: 0,
            reserve_0: 0,
            reserve_1: 0,
            fee: 0,
        }
    }
}

impl Default for UniswapV2Pool {
    fn default() -> (r: UniswapV2Pool)
        ensures
            r.address@ == zero_address_bytes(),
            r.is_empty_at(r.address),
    {
        UniswapV2Pool::empty(Address::zero())
    }
}

} // verus!
