//! The contract that creates Uniswap v2 pools.
use vstd::prelude::*;

use crate::amm::uniswap_v2::data_batches::{data_start, DataBatches};
use crate::amm::uniswap_v2::pair_batches::{walk_start, PairBatches};
use crate::amm::uniswap_v2::pair_created::{
    decode_pair_created, pair_created, pair_created_hash, pair_created_signature, Log, LogError,
};
use crate::amm::uniswap_v2::safe_pairs::{pair_queries, queries_for, PairQuery};
use crate::amm::uniswap_v2::UniswapV2Pool;
use crate::amm::AMM;
use crate::primitives::{zero_address_bytes, Address, U256};

verus! {

/// A pool whose data is to be read from the chain.
#[derive(Clone, Copy, Debug, PartialEq, Eq)]
pub struct PoolRequest {
    pub address: Address,
    pub fee: u32,
}

/// A contract that creates Uniswap v2 pools.
#[derive(Clone, Copy, Debug, PartialEq, Eq)]
pub struct UniswapV2Factory {
    pub address: Address,
    pub creation_block: u64,
    pub fee: u32,
}

impl Default for UniswapV2Factory {
    fn default() -> (r: UniswapV2Factory)
        ensures
            r.address@ == zero_address_bytes(),
            r.creation_block == 0,
            r.fee == 0,
    {
        UniswapV2Factory { address: Address::zero(), creation_block: 0, fee: 0 }
    }
}

impl UniswapV2Factory {
    /// The factory at an address, the block that it was created in and the fee of its pools.
    pub fn new(address: Address, creation_block: u64, fee: u32) -> (r: UniswapV2Factory)
        ensures
            r.address == address,
            r.creation_block == creation_block,
            r.fee == fee,
    {
        UniswapV2Factory { address, creation_block, fee }
    }

    /// Starts to read all pairs of the factory, which has `pairs_length` of them.
    pub fn get_all_pairs_via_batched_calls(&self, pairs_length: U256) -> (r: PairBatches)
        requires
            pairs_length@ <= usize::MAX,
        ensures
            r@ == walk_start(self.address, pairs_length@),
            r@.factory == self.address,
            r@.length == pairs_length@,
            r@.done == 0,
            r@.pairs.len() == 0,
    {
        PairBatches::new(self.address, pairs_length)
    }

    /// The calls that ask the factory for the pool of every two of the tokens.
    pub fn safe_amms(&self, safe_tokens: &[Address]) -> (r: Vec<PairQuery>)
        ensures
            r@ == pair_queries(self.address, safe_tokens@),
    {
        queries_for(self.address, safe_tokens)
    }

    /// The address of the factory.
    pub fn address(&self) -> (r: Address)
        ensures
            r == self.address,
    {
        self.address
    }

    /// The block that the factory was created in.
    pub fn creation_block(&self) -> (r: u64)
        ensures
            r == self.creation_block,
    {
        self.creation_block
    }

    /// The first topic of the logs that the factory writes when it creates a pool.
    pub fn amm_created_event_signature(&self) -> (r: [u8; 32])
        ensures
            r@ == pair_created_hash(),
    {
        pair_created_signature()
    }

    /// The pool that a creation log speaks of, which is to be read from the chain and given
    /// the fee of the factory.
    pub fn new_amm_from_log(&self, log: &Log) -> (r: Result<PoolRequest, LogError>)
        ensures
            match pair_created(log.topics@, log.data@) {
                Ok(event) => r matches Ok(request) && {
                    &&& request.address@ == event.pair
                    &&& request.fee == self.fee
                },
                Err(error) => r == Err::<PoolRequest, LogError>(error),
            },
            r is Ok <==> {
                &&& log.topics@.len() >= 3
                &&& log.topics@[0]@ == pair_created_hash()
                &&& log.data@.len() == 64
                &&& forall|i: int| 0 <= i < 12 ==> log.data@[i] == 0
            },
            r matches Ok(request) ==> request.address.bytes@ == log.data@.subrange(12, 32),
    {
        match decode_pair_created(log) {
            Ok(event) => Ok(PoolRequest { address: event.pair, fee: self.fee }),
            Err(error) => Err(error),
        }
    }

    /// The pool that a creation log speaks of, with its tokens and nothing else known of it.
    pub fn new_empty_amm_from_log(&self, log: &Log) -> (r: Result<AMM, LogError>)
        ensures
            match pair_created(log.topics@, log.data@) {
                Ok(event) => r matches Ok(AMM::UniswapV2Pool(pool)) && {
                    &&& pool.address@ == event.pair
                    &&& pool.token_a@ == event.token0
                    &&& pool.token_b@ == event.token1
                    &&& pool.is_bare()
                },
                Err(error) => r == Err::<AMM, LogError>(error),
            },
            r is Ok <==> {
                &&& log.topics@.len() >= 3
                &&& log.topics@[0]@ == pair_created_hash()
                &&& log.data@.len() == 64
                &&& forall|i: int| 0 <= i < 12 ==> log.data@[i] == 0
            },
            r matches Ok(AMM::UniswapV2Pool(pool)) ==> {
                &&& pool.address.bytes@ == log.data@.subrange(12, 32)
                &&& pool.token_a.bytes@ == log.topics@[1]@.subrange(12, 32)
                &&& pool.token_b.bytes@ == log.topics@[2]@.subrange(12, 32)
            },
    {
        match decode_pair_created(log) {
            Ok(event) => Ok(
                AMM::UniswapV2Pool(
                    UniswapV2Pool {
                        address: event.pair,
                        token_a: event.token0,
                        token_a_decimals: 0,
                        token_b: event.token1,
                        token_b_decimals: 0,
                        reserve_0: 0,
                        reserve_1: 0,
                        fee: 0,
                    },
                ),
            ),
            Err(error) => Err(error),
        }
    }

    /// Starts to read the data of a list of AMMs.
    pub fn populate_amm_data(&self, amms: &[AMM]) -> (r: DataBatches)
        ensures
            r@ == data_start(amms@.len()),
            r@.count == amms@.len(),
            r@.done == 0,
    {
        DataBatches::new(amms.len())
    }
}

} // verus!
