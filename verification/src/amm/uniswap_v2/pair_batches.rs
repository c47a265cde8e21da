//! Reading all pairs of a factory in batches.
use vstd::arithmetic::div_mod::lemma_small_mod;
use vstd::prelude::*;

use crate::amm::uniswap_v2::UniswapV2Pool;
use crate::amm::AMM;
use crate::primitives::{u256_modulus, Address, U256};

verus! {

/// The most pairs that one batch asks for; a larger batch makes the call too large.
pub const PAIRS_PER_BATCH: usize = 766;

/// The number of batches that a factory with `length` pairs is read in.
pub open spec fn batch_count(length: nat) -> nat {
    (length + PAIRS_PER_BATCH - 1) as nat / PAIRS_PER_BATCH as nat
}

/// The index that batch `k` starts at.
pub open spec fn batch_from(k: nat) -> nat {
    PAIRS_PER_BATCH as nat * k
}

/// The index that batch `k` goes up to, and that the next one starts at. The last one of
/// several batches stops one short of the length where the length is no multiple of the
/// batch size.
pub open spec fn batch_to(length: nat, k: nat) -> nat {
    if length < PAIRS_PER_BATCH {
        length
    } else if batch_from(k + 1) <= length {
        batch_from(k + 1)
    } else {
        (length - 1) as nat
    }
}

/// The first batch starts at the first pair, and each batch starts where the one before it
/// ended.
pub proof fn law_batches_are_consecutive(length: nat, k: nat)
    requires
        k + 1 < batch_count(length),
    ensures
        batch_from(0) == 0,
        batch_to(length, k) == batch_from(k + 1),
{
}

/// No batch is larger than the batch size, none runs backwards and none goes past the
/// length.
pub proof fn law_batches_are_bounded(length: nat, k: nat)
    requires
        k < batch_count(length),
    ensures
        batch_from(k) <= batch_to(length, k) <= batch_from(k) + PAIRS_PER_BATCH,
        batch_to(length, k) <= length,
{
}

/// Each batch but the last one asks for 766 pairs. The last one goes up to the length where
/// there is no other, or where the length is a multiple of 766, and else stops one short of it.
pub proof fn law_batches_are_full_but_for_the_last(length: nat, k: nat)
    requires
        k < batch_count(length),
    ensures
        k + 1 < batch_count(length) ==> batch_to(length, k) - batch_from(k) == 766,
        k + 1 == batch_count(length) && (length < 766 || length % 766 == 0) ==> batch_to(length, k)
            == length,
        k + 1 == batch_count(length) && length >= 766 && length % 766 != 0 ==> batch_to(length, k)
            == length - 1,
        batch_from(k) == 766 * k,
{
}

/// There are as many batches as it takes to hold all pairs at 766 to a batch, and not one more:
/// none for a factory without pairs.
pub proof fn law_number_of_pair_batches(length: nat)
    ensures
        766 * (batch_count(length) - 1) < length <= 766 * batch_count(length),
        batch_count(length) == 0 <==> length == 0,
{
}

/// Each index is in one batch and in no other, for every length below the batch size and
/// every multiple of it. For any other length that holds of each index but the last.
pub proof fn law_batches_cover_each_index_once(length: nat, i: nat)
    requires
        i < length,
        length < PAIRS_PER_BATCH || length % (PAIRS_PER_BATCH as nat) == 0 || i + 1 < length,
    ensures
        exists|k: nat|
            k < batch_count(length) && #[trigger] batch_from(k) <= i < batch_to(length, k),
        forall|k: nat, m: nat|
            k < batch_count(length) && m < batch_count(length) && #[trigger] batch_from(k) <= i
                < batch_to(length, k) && #[trigger] batch_from(m) <= i < batch_to(length, m) ==> k
                == m,
{
    let k = i / PAIRS_PER_BATCH as nat;
    assert(batch_from(k) <= i < batch_to(length, k));
}

/// A request for the pairs of a factory with the indices from `idx_from` up to `idx_to`.
#[derive(Clone, Copy, Debug, PartialEq, Eq)]
pub struct PairsRequest {
    pub factory: Address,
    pub idx_from: U256,
    pub idx_to: U256,
}

/// A walk over all pairs of a factory, batch by batch.
#[derive(Debug)]
pub struct PairBatches {
    factory: Address,
    pairs_length: U256,
    idx_from: U256,
    idx_to: U256,
    done: usize,
    count: usize,
    pairs: Vec<Address>,
}

/// The state of a walk over all pairs of a factory.
pub struct PairBatchesView {
    /// The factory that is read.
    pub factory: Address,
    /// The number of pairs that the factory has.
    pub length: nat,
    /// The number of batches that were read.
    pub done: nat,
    /// The pairs that were read.
    pub pairs: Seq<Address>,
}

/// A walk that has read nothing yet.
pub open spec fn walk_start(factory: Address, length: nat) -> PairBatchesView {
    PairBatchesView { factory, length, done: 0, pairs: Seq::empty() }
}

/// A walk after it has taken in one more batch.
pub open spec fn absorbed(walk: PairBatchesView, batch: Seq<Address>) -> PairBatchesView {
    PairBatchesView { done: walk.done + 1, pairs: walk.pairs + batch, ..walk }
}

/// A walk after it has taken in batch after batch.
pub open spec fn walk_after(
    factory: Address,
    length: nat,
    batches: Seq<Seq<Address>>,
) -> PairBatchesView
    decreases batches.len(),
{
    if batches.len() == 0 {
        walk_start(factory, length)
    } else {
        absorbed(walk_after(factory, length, batches.drop_last()), batches.last())
    }
}

/// A walk keeps every pair that it is given, in the order of the batches, and it keeps to its
/// factory and to the number of pairs that it started with.
pub proof fn law_walk_keeps_every_pair(
    factory: Address,
    length: nat,
    batches: Seq<Seq<Address>>,
)
    ensures
        walk_after(factory, length, batches) == (PairBatchesView {
            factory,
            length,
            done: batches.len(),
            pairs: batches.flatten(),
        }),
    decreases batches.len(),
{
    if batches.len() > 0 {
        law_walk_keeps_every_pair(factory, length, batches.drop_last());
        batches.lemma_flatten_and_flatten_alt_are_equivalent();
        batches.drop_last().lemma_flatten_and_flatten_alt_are_equivalent();
    }
}

/// A walk after the reply to one more request, or the error that ends it.
pub open spec fn pairs_replied<E>(walk: PairBatchesView, reply: Result<Seq<Address>, E>) -> Result<
    PairBatchesView,
    E,
> {
    match reply {
        Ok(batch) => Ok(absorbed(walk, batch)),
        Err(error) => Err(error),
    }
}

/// A walk after one reply after the other, or the error that ended it.
pub open spec fn walk_replied<E>(
    factory: Address,
    length: nat,
    replies: Seq<Result<Seq<Address>, E>>,
) -> Result<PairBatchesView, E>
    decreases replies.len(),
{
    if replies.len() == 0 {
        Ok(walk_start(factory, length))
    } else {
        match walk_replied(factory, length, replies.drop_last()) {
            Ok(walk) => pairs_replied(walk, replies.last()),
            Err(error) => Err(error),
        }
    }
}

/// When no request fails, the walk has taken in the batches of the replies.
pub proof fn law_every_reply_is_taken_in<E>(
    factory: Address,
    length: nat,
    replies: Seq<Result<Seq<Address>, E>>,
)
    requires
        forall|i: int| 0 <= i < replies.len() ==> (#[trigger] replies[i]) is Ok,
    ensures
        walk_replied(factory, length, replies) == Ok::<PairBatchesView, E>(
            walk_after(
                factory,
                length,
                replies.map_values(|reply: Result<Seq<Address>, E>| reply->Ok_0),
            ),
        ),
    decreases replies.len(),
{
    let f = |reply: Result<Seq<Address>, E>| reply->Ok_0;
    if replies.len() > 0 {
        law_every_reply_is_taken_in(factory, length, replies.drop_last());
        assert(replies[replies.len() - 1] is Ok);
        assert(replies.map_values(f).drop_last() =~= replies.drop_last().map_values(f));
    }
}

/// The first request that fails ends the walk: its error is what comes out, whatever the
/// replies behind it would be, and no pairs come out with it.
pub proof fn law_first_failed_request_ends_the_walk<E>(
    factory: Address,
    length: nat,
    replies: Seq<Result<Seq<Address>, E>>,
    i: int,
)
    requires
        0 <= i < replies.len(),
        replies[i] is Err,
        forall|j: int| 0 <= j < i ==> (#[trigger] replies[j]) is Ok,
    ensures
        walk_replied(factory, length, replies) == Err::<PairBatchesView, E>(replies[i]->Err_0),
    decreases replies.len(),
{
    let before = replies.drop_last();
    if i < before.len() {
        law_first_failed_request_ends_the_walk(factory, length, before, i);
    } else {
        law_every_reply_is_taken_in(factory, length, before);
    }
}

/// The batch of a reply that holds one.
pub open spec fn reply_view<E>(reply: Result<Vec<Address>, E>) -> Result<Seq<Address>, E> {
    match reply {
        Ok(batch) => Ok(batch@),
        Err(error) => Err(error),
    }
}

impl View for PairBatches {
    type V = PairBatchesView;

    closed spec fn view(&self) -> PairBatchesView {
        PairBatchesView {
            factory: self.factory,
            length: self.pairs_length@,
            done: self.done as nat,
            pairs: self.pairs@,
        }
    }
}

impl PairBatches {
    #[verifier::type_invariant]
    spec fn wf(self) -> bool {
        let length = self.pairs_length@;
        &&& length <= usize::MAX
        &&& self.count == batch_count(length)
        &&& self.done <= self.count
        &&& self.done < self.count ==> {
            &&& self.idx_from@ == batch_from(self.done as nat)
            &&& self.idx_to@ == batch_to(length, self.done as nat)
        }
    }

    /// A walk over the pairs of a factory that has `pairs_length` of them.
    pub(crate) fn new(factory: Address, pairs_length: U256) -> (r: PairBatches)
        requires
            pairs_length@ <= usize::MAX,
        ensures
            r@ == walk_start(factory, pairs_length@),
            r@.factory == factory,
            r@.length == pairs_length@,
            r@.done == 0,
            r@.pairs.len() == 0,
    {
        let length: usize = pairs_length.to_usize();
        let idx_to = if PAIRS_PER_BATCH > length {
            pairs_length
        } else {
            U256::from_usize(PAIRS_PER_BATCH)
        };
        let mut count: usize = length / PAIRS_PER_BATCH;
        if length % PAIRS_PER_BATCH != 0 {
            count = count + 1;
        }
        PairBatches {
            factory,
            pairs_length,
            idx_from: U256::zero(),
            idx_to,
            done: 0,
            count,
            pairs: Vec::new(),
        }
    }

    /// The number of batches of the whole walk.
    pub fn count(&self) -> (r: usize)
        ensures
            r == batch_count(self@.length),
            766 * (r - 1) < self@.length <= 766 * r,
    {
        proof {
            use_type_invariant(self);
        }
        self.count
    }

    /// The request for the next batch; none when all batches were read.
    pub fn next_request(&self) -> (r: Option<PairsRequest>)
        ensures
            match r {
                Some(request) => {
                    &&& self@.done < batch_count(self@.length)
                    &&& request.factory == self@.factory
                    &&& request.idx_from@ == batch_from(self@.done)
                    &&& request.idx_to@ == batch_to(self@.length, self@.done)
                    &&& request.idx_from@ == 766 * self@.done
                    &&& request.idx_from@ <= request.idx_to@ <= self@.length
                },
                None => self@.done == batch_count(self@.length),
            },
    {
        proof {
            use_type_invariant(self);
        }
        if self.done < self.count {
            Some(
                PairsRequest {
                    factory: self.factory,
                    idx_from: self.idx_from,
                    idx_to: self.idx_to,
                },
            )
        } else {
            None
        }
    }

    /// Takes in the reply to the request for the next batch. A request that failed ends the
    /// walk with its error.
    pub fn absorb_reply<E>(self, reply: Result<Vec<Address>, E>) -> (r: Result<PairBatches, E>)
        requires
            self@.done < batch_count(self@.length),
        ensures
            match pairs_replied(self@, reply_view(reply)) {
                Ok(walk) => r matches Ok(after) && after@ == walk,
                Err(error) => r == Err::<PairBatches, E>(error),
            },
            match reply {
                Ok(batch) => r matches Ok(after) && {
                    &&& after@.factory == self@.factory
                    &&& after@.length == self@.length
                    &&& after@.done == self@.done + 1
                    &&& after@.pairs == self@.pairs + batch@
                },
                Err(error) => r == Err::<PairBatches, E>(error),
            },
    {
        match reply {
            Ok(batch) => Ok(self.absorb(batch)),
            Err(error) => Err(error),
        }
    }

    /// Takes in the next batch.
    pub fn absorb(self, batch: Vec<Address>) -> (r: PairBatches)
        requires
            self@.done < batch_count(self@.length),
        ensures
            r@ == absorbed(self@, batch@),
            r@.factory == self@.factory,
            r@.length == self@.length,
            r@.done == self@.done + 1,
            r@.pairs == self@.pairs + batch@,
    {
        proof {
            use_type_invariant(&self);
        }
        let mut pairs = self.pairs;
        let mut batch = batch;
        pairs.append(&mut batch);
        let step = U256::from_usize(PAIRS_PER_BATCH);
        let idx_from = self.idx_to;
        let advanced = self.idx_to.plus(step);
        let idx_to = if advanced.exceeds(self.pairs_length) {
            self.pairs_length.minus(U256::from_usize(1))
        } else {
            advanced
        };
        proof {
            let length = self.pairs_length@;
            let modulus = u256_modulus();
            assert(modulus > usize::MAX + PAIRS_PER_BATCH);
            if self.done + 1 < self.count {
                assert(self.idx_to@ == batch_from((self.done + 1) as nat));
                lemma_small_mod(self.idx_to@ + PAIRS_PER_BATCH as nat, modulus);
                lemma_small_mod((length - 1) as nat, modulus);
                assert(advanced@ == batch_from((self.done + 2) as nat));
                assert(advanced@ > length ==> idx_to@ == length - 1);
                assert(idx_to@ == batch_to(length, (self.done + 1) as nat));
            }
        }
        PairBatches {
            factory: self.factory,
            pairs_length: self.pairs_length,
            idx_from,
            idx_to,
            done: self.done + 1,
            count: self.count,
            pairs,
        }
    }

    /// The pools of all pairs that were read, each with nothing known of it but its address.
    pub fn finish(self) -> (r: Vec<AMM>)
        ensures
            r@.len() == self@.pairs.len(),
            forall|i: int|
                0 <= i < r@.len() ==> ((#[trigger] r@[i]) matches AMM::UniswapV2Pool(pool)
                    && pool.is_empty_at(self@.pairs[i])),
    {
        let mut amms: Vec<AMM> = Vec::new();
        let mut i: usize = 0;
        while i < self.pairs.len()
            invariant
                i <= self.pairs@.len(),
                amms@.len() == i,
                forall|j: int|
                    0 <= j < i ==> ((#[trigger] amms@[j]) matches AMM::UniswapV2Pool(pool)
                        && pool.is_empty_at(self.pairs@[j])),
            decreases self.pairs@.len() - i,
        {
            amms.push(AMM::UniswapV2Pool(UniswapV2Pool::empty(self.pairs[i])));
            i = i + 1;
        }
        amms
    }
}

} // verus!
