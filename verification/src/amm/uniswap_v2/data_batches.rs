//! Reading the data of AMMs in batches.
use vstd::prelude::*;

verus! {

/// The most AMMs whose data one call reads.
pub const AMMS_PER_BATCH: usize = 127;

/// The number of batches that the data of `count` AMMs is read in.
pub open spec fn chunk_count(count: nat) -> nat {
    (count + AMMS_PER_BATCH - 1) as nat / AMMS_PER_BATCH as nat
}

/// The position that batch `k` starts at.
pub open spec fn chunk_from(k: nat) -> nat {
    AMMS_PER_BATCH as nat * k
}

/// The position that batch `k` ends before.
pub open spec fn chunk_to(count: nat, k: nat) -> nat {
    if chunk_from(k + 1) <= count {
        chunk_from(k + 1)
    } else {
        count
    }
}

/// Each AMM is in one batch and in no other; no batch is empty or larger than the batch
/// size.
pub proof fn law_chunks_partition(count: nat, i: nat)
    requires
        i < count,
    ensures
        exists|k: nat|
            k < chunk_count(count) && #[trigger] chunk_from(k) <= i < chunk_to(count, k),
        forall|k: nat, m: nat|
            k < chunk_count(count) && m < chunk_count(count) && #[trigger] chunk_from(k) <= i
                < chunk_to(count, k) && #[trigger] chunk_from(m) <= i < chunk_to(count, m) ==> k
                == m,
        forall|k: nat|
            k < chunk_count(count) ==> #[trigger] chunk_from(k) < chunk_to(count, k) <= chunk_from(
                k,
            ) + AMMS_PER_BATCH,
{
    let k = i / AMMS_PER_BATCH as nat;
    assert(chunk_from(k) <= i < chunk_to(count, k));
}

/// The batches lie one behind the other and make up the list, no more and no less: the first
/// one starts at the head of the list, each one starts where the one before it ended, the last
/// one ends with the list, and none goes past it. Each holds 127 AMMs but for the last one,
/// which holds the rest.
pub proof fn law_batches_make_up_the_list(count: nat, k: nat)
    requires
        k < chunk_count(count),
    ensures
        chunk_from(0) == 0,
        k + 1 < chunk_count(count) ==> chunk_to(count, k) == chunk_from(k + 1),
        k + 1 < chunk_count(count) ==> chunk_to(count, k) - chunk_from(k) == 127,
        k + 1 == chunk_count(count) ==> chunk_to(count, k) == count,
        0 < chunk_to(count, k) - chunk_from(k) <= 127,
        chunk_to(count, k) <= count,
{
}

/// There are as many batches as it takes to hold all AMMs at 127 to a batch, and not one more:
/// none for an empty list.
pub proof fn law_number_of_data_batches(count: nat)
    ensures
        127 * (chunk_count(count) - 1) < count <= 127 * chunk_count(count),
        chunk_count(count) == 0 <==> count == 0,
{
}

/// A walk over a list of AMMs whose data is read, batch by batch.
#[derive(Debug)]
pub struct DataBatches {
    count: usize,
    done: usize,
    from: usize,
}

/// The state of a walk over a list of AMMs whose data is read.
pub struct DataBatchesView {
    /// The number of AMMs.
    pub count: nat,
    /// The number of batches whose data was read.
    pub done: nat,
}

impl View for DataBatches {
    type V = DataBatchesView;

    closed spec fn view(&self) -> DataBatchesView {
        DataBatchesView { count: self.count as nat, done: self.done as nat }
    }
}

/// A walk that has read nothing yet.
pub open spec fn data_start(count: nat) -> DataBatchesView {
    DataBatchesView { count, done: 0 }
}

/// A walk after the reply to one more batch, or the error that ends it.
pub open spec fn data_replied<E>(walk: DataBatchesView, reply: Result<(), E>) -> Result<
    DataBatchesView,
    E,
> {
    match reply {
        Ok(()) => Ok(DataBatchesView { done: walk.done + 1, ..walk }),
        Err(error) => Err(error),
    }
}

/// A walk after one reply after the other, or the error that ended it.
pub open spec fn data_after<E>(count: nat, replies: Seq<Result<(), E>>) -> Result<
    DataBatchesView,
    E,
>
    decreases replies.len(),
{
    if replies.len() == 0 {
        Ok(data_start(count))
    } else {
        match data_after(count, replies.drop_last()) {
            Ok(walk) => data_replied(walk, replies.last()),
            Err(error) => Err(error),
        }
    }
}

impl DataBatches {
    #[verifier::type_invariant]
    spec fn wf(self) -> bool {
        &&& self.done <= chunk_count(self.count as nat)
        &&& self.from == (if self.done < chunk_count(self.count as nat) {
            chunk_from(self.done as nat)
        } else {
            self.count as nat
        })
    }

    /// A walk over `count` AMMs.
    pub(crate) fn new(count: usize) -> (r: DataBatches)
        ensures
            r@ == data_start(count as nat),
            r@.count == count,
            r@.done == 0,
    {
        DataBatches { count, done: 0, from: 0 }
    }

    /// The next batch, by the position that it starts at and the position that it ends before;
    /// none when all batches were read.
    pub fn next_batch(&self) -> (r: Option<(usize, usize)>)
        ensures
            match r {
                Some((from, to)) => {
                    &&& self@.done < chunk_count(self@.count)
                    &&& from == chunk_from(self@.done)
                    &&& to == chunk_to(self@.count, self@.done)
                    &&& from == 127 * self@.done
                    &&& from < to <= self@.count
                    &&& to == from + 127 || (to == self@.count && to < from + 127)
                },
                None => self@.done == chunk_count(self@.count),
            },
    {
        proof {
            use_type_invariant(self);
        }
        if self.from < self.count {
            Some((self.from, self.to()))
        } else {
            None
        }
    }

    /// The position that the next batch ends before.
    fn to(&self) -> (r: usize)
        requires
            self@.done < chunk_count(self@.count),
        ensures
            r == chunk_to(self@.count, self@.done),
    {
        proof {
            use_type_invariant(self);
        }
        if self.count - self.from < AMMS_PER_BATCH {
            self.count
        } else {
            self.from + AMMS_PER_BATCH
        }
    }

    /// Takes in whether the next batch was read. A batch that could not be read ends the walk
    /// with its error.
    pub fn absorb_reply<E>(self, reply: Result<(), E>) -> (r: Result<DataBatches, E>)
        requires
            self@.done < chunk_count(self@.count),
        ensures
            match data_replied(self@, reply) {
                Ok(walk) => r matches Ok(after) && after@ == walk,
                Err(error) => r == Err::<DataBatches, E>(error),
            },
            match reply {
                Ok(()) => r matches Ok(after) && {
                    &&& after@.count == self@.count
                    &&& after@.done == self@.done + 1
                },
                Err(error) => r == Err::<DataBatches, E>(error),
            },
    {
        proof {
            use_type_invariant(&self);
        }
        match reply {
            Ok(()) => Ok(DataBatches { count: self.count, done: self.done + 1, from: self.to() }),
            Err(error) => Err(error),
        }
    }
}

/// When no batch fails, the walk goes on by one batch with each reply.
pub proof fn law_every_batch_is_counted<E>(count: nat, replies: Seq<Result<(), E>>)
    requires
        forall|i: int| 0 <= i < replies.len() ==> (#[trigger] replies[i]) is Ok,
    ensures
        data_after(count, replies) == Ok::<DataBatchesView, E>(
            DataBatchesView { count, done: replies.len() },
        ),
    decreases replies.len(),
{
    if replies.len() > 0 {
        law_every_batch_is_counted(count, replies.drop_last());
        assert(replies[replies.len() - 1] is Ok);
    }
}

/// The first batch that fails ends the walk: its error is what comes out, whatever the replies
/// behind it would be.
pub proof fn law_first_failed_batch_ends_the_reading<E>(
    count: nat,
    replies: Seq<Result<(), E>>,
    i: int,
)
    requires
        0 <= i < replies.len(),
        replies[i] is Err,
        forall|j: int| 0 <= j < i ==> (#[trigger] replies[j]) is Ok,
    ensures
        data_after(count, replies) == Err::<DataBatchesView, E>(replies[i]->Err_0),
    decreases replies.len(),
{
    let before = replies.drop_last();
    if i < before.len() {
        law_first_failed_batch_ends_the_reading(count, before, i);
    } else {
        law_every_batch_is_counted(count, before);
    }
}

} // verus!
