//! Gathering what tasks bring that run side by side.
//!
//! The outcomes are taken in as the tasks come to their end. The first bad one ends the
//! gathering.
use vstd::prelude::*;

use crate::amm::AMM;
use crate::errors::{outcome_error, Outcome, TaskError};

verus! {

/// The AMMs that tasks brought so far.
#[derive(Debug)]
pub struct AmmCollector {
    pub amms: Vec<AMM>,
}

impl View for AmmCollector {
    type V = Seq<AMM>;

    open spec fn view(&self) -> Seq<AMM> {
        self.amms@
    }
}

/// The AMMs after a task has brought one more, or the error that ends the gathering.
pub open spec fn with_amm<E, J>(amms: Seq<AMM>, outcome: Outcome<AMM, E, J>) -> Result<
    Seq<AMM>,
    TaskError<E, J>,
> {
    match outcome {
        Ok(Ok(amm)) => Ok(amms.push(amm)),
        Ok(Err(error)) => Err(TaskError::Failed(error)),
        Err(error) => Err(TaskError::Join(error)),
    }
}

/// The AMMs after a task has brought some more, or the error that ends the gathering.
pub open spec fn with_amms<E, J>(amms: Seq<AMM>, outcome: Outcome<Vec<AMM>, E, J>) -> Result<
    Seq<AMM>,
    TaskError<E, J>,
> {
    match outcome {
        Ok(Ok(more)) => Ok(amms + more@),
        Ok(Err(error)) => Err(TaskError::Failed(error)),
        Err(error) => Err(TaskError::Join(error)),
    }
}

impl AmmCollector {
    /// A collector that has gathered nothing yet.
    pub fn new() -> (r: AmmCollector)
        ensures
            r@ == Seq::<AMM>::empty(),
            r.amms@.len() == 0,
    {
        AmmCollector { amms: Vec::new() }
    }

    /// Takes in the outcome of a task that brings one AMM. After a bad one the collector is
    /// as it was.
    pub fn absorb_amm<E, J>(&mut self, outcome: Outcome<AMM, E, J>) -> (r: Result<
        (),
        TaskError<E, J>,
    >)
        ensures
            match with_amm(old(self)@, outcome) {
                Ok(amms) => r == Ok::<(), TaskError<E, J>>(()) && final(self)@ == amms,
                Err(error) => r == Err::<(), TaskError<E, J>>(error) && final(self)@ == old(self)@,
            },
            match outcome {
                Ok(Ok(amm)) => r is Ok && final(self).amms@ == old(self).amms@.push(amm),
                Ok(Err(error)) => {
                    &&& r == Err::<(), TaskError<E, J>>(TaskError::Failed(error))
                    &&& final(self).amms@ == old(self).amms@
                },
                Err(error) => {
                    &&& r == Err::<(), TaskError<E, J>>(TaskError::Join(error))
                    &&& final(self).amms@ == old(self).amms@
                },
            },
    {
        match outcome {
            Ok(Ok(amm)) => {
                self.amms.push(amm);
                Ok(())
            },
            Ok(Err(error)) => Err(TaskError::Failed(error)),
            Err(error) => Err(TaskError::Join(error)),
        }
    }

    /// Takes in the outcome of a task that brings a list of AMMs. After a bad one the
    /// collector is as it was.
    pub fn absorb_amms<E, J>(&mut self, outcome: Outcome<Vec<AMM>, E, J>) -> (r: Result<
        (),
        TaskError<E, J>,
    >)
        ensures
            match with_amms(old(self)@, outcome) {
                Ok(amms) => r == Ok::<(), TaskError<E, J>>(()) && final(self)@ == amms,
                Err(error) => r == Err::<(), TaskError<E, J>>(error) && final(self)@ == old(self)@,
            },
            match outcome {
                Ok(Ok(more)) => r is Ok && final(self).amms@ == old(self).amms@ + more@,
                Ok(Err(error)) => {
                    &&& r == Err::<(), TaskError<E, J>>(TaskError::Failed(error))
                    &&& final(self).amms@ == old(self).amms@
                },
                Err(error) => {
                    &&& r == Err::<(), TaskError<E, J>>(TaskError::Join(error))
                    &&& final(self).amms@ == old(self).amms@
                },
            },
    {
        match outcome {
            Ok(Ok(more)) => {
                let mut more = more;
                self.amms.append(&mut more);
                Ok(())
            },
            Ok(Err(error)) => Err(TaskError::Failed(error)),
            Err(error) => Err(TaskError::Join(error)),
        }
    }

    /// All that was gathered.
    pub fn finish(self) -> (r: Vec<AMM>)
        ensures
            r@ == self@,
            r@ == self.amms@,
    {
        self.amms
    }
}

/// What is gathered from tasks that bring one AMM each, in the order in which they end.
pub open spec fn gather_amm<E, J>(outcomes: Seq<Outcome<AMM, E, J>>) -> Result<
    Seq<AMM>,
    TaskError<E, J>,
>
    decreases outcomes.len(),
{
    if outcomes.len() == 0 {
        Ok(Seq::empty())
    } else {
        match gather_amm(outcomes.drop_last()) {
            Ok(amms) => with_amm(amms, outcomes.last()),
            Err(error) => Err(error),
        }
    }
}

/// What is gathered from tasks that bring a list of AMMs each, in the order in which they
/// end.
pub open spec fn gather_amms<E, J>(outcomes: Seq<Outcome<Vec<AMM>, E, J>>) -> Result<
    Seq<AMM>,
    TaskError<E, J>,
>
    decreases outcomes.len(),
{
    if outcomes.len() == 0 {
        Ok(Seq::empty())
    } else {
        match gather_amms(outcomes.drop_last()) {
            Ok(amms) => with_amms(amms, outcomes.last()),
            Err(error) => Err(error),
        }
    }
}

/// When no task comes to a bad end, all AMMs are gathered, in the order in which the tasks
/// end.
pub proof fn law_every_amm_is_gathered<E, J>(outcomes: Seq<Outcome<AMM, E, J>>)
    requires
        forall|i: int| 0 <= i < outcomes.len() ==> outcome_error(#[trigger] outcomes[i]) is None,
    ensures
        gather_amm(outcomes) is Ok,
        gather_amm(outcomes)->Ok_0 == outcomes.map_values(
            |outcome: Outcome<AMM, E, J>| outcome->Ok_0->Ok_0,
        ),
    decreases outcomes.len(),
{
    let f = |outcome: Outcome<AMM, E, J>| outcome->Ok_0->Ok_0;
    if outcomes.len() > 0 {
        law_every_amm_is_gathered(outcomes.drop_last());
        assert(outcome_error(outcomes[outcomes.len() - 1]) is None);
        assert(outcomes.map_values(f) =~= outcomes.drop_last().map_values(f).push(
            f(outcomes.last()),
        ));
    }
}

/// When no task comes to a bad end, all lists of AMMs are gathered, one behind the other in
/// the order in which the tasks end.
pub proof fn law_every_list_is_gathered<E, J>(outcomes: Seq<Outcome<Vec<AMM>, E, J>>)
    requires
        forall|i: int| 0 <= i < outcomes.len() ==> outcome_error(#[trigger] outcomes[i]) is None,
    ensures
        gather_amms(outcomes) is Ok,
        gather_amms(outcomes)->Ok_0 == outcomes.map_values(
            |outcome: Outcome<Vec<AMM>, E, J>| (outcome->Ok_0->Ok_0)@,
        ).flatten(),
    decreases outcomes.len(),
{
    let f = |outcome: Outcome<Vec<AMM>, E, J>| (outcome->Ok_0->Ok_0)@;
    if outcomes.len() > 0 {
        let lists = outcomes.map_values(f);
        law_every_list_is_gathered(outcomes.drop_last());
        assert(outcome_error(outcomes[outcomes.len() - 1]) is None);
        assert(lists.drop_last() =~= outcomes.drop_last().map_values(f));
        lists.lemma_flatten_and_flatten_alt_are_equivalent();
        lists.drop_last().lemma_flatten_and_flatten_alt_are_equivalent();
        assert(lists.last() == f(outcomes.last()));
    }
}

/// The first task that comes to a bad end decides: its error is reported, whatever the tasks
/// behind it bring.
pub proof fn law_first_bad_end_is_reported<E, J>(outcomes: Seq<Outcome<AMM, E, J>>, i: int)
    requires
        0 <= i < outcomes.len(),
        outcome_error(outcomes[i]) is Some,
        forall|j: int| 0 <= j < i ==> outcome_error(#[trigger] outcomes[j]) is None,
    ensures
        gather_amm(outcomes) == Err::<Seq<AMM>, TaskError<E, J>>(outcome_error(outcomes[i])->0),
    decreases outcomes.len(),
{
    let before = outcomes.drop_last();
    assert forall|j: int| 0 <= j < i implies outcome_error(#[trigger] before[j]) is None by {
        assert(before[j] == outcomes[j]);
    }
    if i < before.len() {
        law_first_bad_end_is_reported(before, i);
    } else {
        law_every_amm_is_gathered(before);
    }
}

/// When AMMs are gathered, no task came to a bad end, and there are as many AMMs as tasks.
pub proof fn law_as_many_amms_are_gathered_as_tasks_end<E, J>(outcomes: Seq<Outcome<AMM, E, J>>)
    requires
        gather_amm(outcomes) is Ok,
    ensures
        (gather_amm(outcomes)->Ok_0).len() == outcomes.len(),
        forall|i: int| 0 <= i < outcomes.len() ==> outcome_error(#[trigger] outcomes[i]) is None,
    decreases outcomes.len(),
{
    if outcomes.len() > 0 {
        let before = outcomes.drop_last();
        law_as_many_amms_are_gathered_as_tasks_end(before);
        assert forall|i: int| 0 <= i < outcomes.len() implies outcome_error(
            #[trigger] outcomes[i],
        ) is None by {
            if i < before.len() {
                assert(outcome_error(before[i]) is None);
            }
        }
    }
}

/// The first task that comes to a bad end decides also where tasks bring lists of AMMs.
pub proof fn law_first_bad_end_of_lists_is_reported<E, J>(
    outcomes: Seq<Outcome<Vec<AMM>, E, J>>,
    i: int,
)
    requires
        0 <= i < outcomes.len(),
        outcome_error(outcomes[i]) is Some,
        forall|j: int| 0 <= j < i ==> outcome_error(#[trigger] outcomes[j]) is None,
    ensures
        gather_amms(outcomes) == Err::<Seq<AMM>, TaskError<E, J>>(outcome_error(outcomes[i])->0),
    decreases outcomes.len(),
{
    let before = outcomes.drop_last();
    assert forall|j: int| 0 <= j < i implies outcome_error(#[trigger] before[j]) is None by {
        assert(before[j] == outcomes[j]);
    }
    if i < before.len() {
        law_first_bad_end_of_lists_is_reported(before, i);
    } else {
        law_every_list_is_gathered(before);
    }
}

pub(crate) proof fn lemma_map_of_reordered<A, B>(s: Seq<A>, t: Seq<A>, f: spec_fn(A) -> B)
    requires
        s.to_multiset() == t.to_multiset(),
    ensures
        s.map_values(f).to_multiset() == t.map_values(f).to_multiset(),
    decreases s.len(),
{
    broadcast use vstd::seq_lib::group_to_multiset_ensures;

    assert(s.len() == s.to_multiset().len() == t.to_multiset().len() == t.len());
    if s.len() > 0 {
        let x = s.last();
        let s1 = s.drop_last();
        assert(s =~= s1.push(x));
        assert(t.to_multiset().count(x) > 0);
        assert(t.contains(x));
        let k = choose|k: int| 0 <= k < t.len() && t[k] == x;
        let t1 = t.remove(k);
        assert(s1.to_multiset() =~= t1.to_multiset());
        lemma_map_of_reordered(s1, t1, f);
        assert(s.map_values(f) =~= s1.map_values(f).push(f(x)));
        assert(t.map_values(f).remove(k) =~= t1.map_values(f));
        assert(t.map_values(f)[k] == f(x));
        assert(t.map_values(f).contains(f(x)));
        assert(t.map_values(f).to_multiset() =~= t1.map_values(f).to_multiset().insert(f(x)));
    } else {
        assert(s.map_values(f) =~= t.map_values(f));
    }
}

proof fn lemma_flatten_without(lists: Seq<Seq<AMM>>, k: int)
    requires
        0 <= k < lists.len(),
    ensures
        lists.flatten().to_multiset() == lists.remove(k).flatten().to_multiset().add(
            lists[k].to_multiset(),
        ),
    decreases lists.len(),
{
    let rest = lists.remove(k);
    lists.lemma_flatten_and_flatten_alt_are_equivalent();
    rest.lemma_flatten_and_flatten_alt_are_equivalent();
    let before = lists.drop_last();
    before.lemma_flatten_and_flatten_alt_are_equivalent();
    vstd::seq_lib::lemma_multiset_commutative(before.flatten(), lists.last());
    if k < before.len() {
        lemma_flatten_without(before, k);
        assert(rest.drop_last() =~= before.remove(k));
        before.remove(k).lemma_flatten_and_flatten_alt_are_equivalent();
        vstd::seq_lib::lemma_multiset_commutative(before.remove(k).flatten(), lists.last());
        assert(rest.last() == lists.last());
        assert(lists.flatten().to_multiset() =~= rest.flatten().to_multiset().add(
            lists[k].to_multiset(),
        ));
    } else {
        assert(rest =~= before);
    }
}

proof fn lemma_flatten_of_reordered(s: Seq<Seq<AMM>>, t: Seq<Seq<AMM>>)
    requires
        s.to_multiset() == t.to_multiset(),
    ensures
        s.flatten().to_multiset() == t.flatten().to_multiset(),
    decreases s.len(),
{
    broadcast use vstd::seq_lib::group_to_multiset_ensures;

    assert(s.len() == s.to_multiset().len() == t.to_multiset().len() == t.len());
    if s.len() > 0 {
        let x = s.last();
        let n = s.len() - 1;
        assert(s[n] == x);
        assert(s.contains(x));
        assert(t.to_multiset().count(x) > 0);
        assert(t.contains(x));
        let k = choose|k: int| 0 <= k < t.len() && t[k] == x;
        assert(s.remove(n).to_multiset() =~= t.remove(k).to_multiset());
        lemma_flatten_of_reordered(s.remove(n), t.remove(k));
        lemma_flatten_without(s, n);
        lemma_flatten_without(t, k);
    } else {
        assert(s =~= t);
    }
}

/// Which AMMs are gathered does not depend on the order in which the tasks end, when none
/// comes to a bad end.
pub proof fn law_order_of_ends_does_not_matter<E, J>(
    outcomes: Seq<Outcome<AMM, E, J>>,
    reordered: Seq<Outcome<AMM, E, J>>,
)
    requires
        outcomes.to_multiset() == reordered.to_multiset(),
        forall|i: int| 0 <= i < outcomes.len() ==> outcome_error(#[trigger] outcomes[i]) is None,
        forall|i: int| 0 <= i < reordered.len() ==> outcome_error(#[trigger] reordered[i]) is None,
    ensures
        (gather_amm(outcomes)->Ok_0).to_multiset() == (gather_amm(
            reordered,
        )->Ok_0).to_multiset(),
{
    law_every_amm_is_gathered(outcomes);
    law_every_amm_is_gathered(reordered);
    lemma_map_of_reordered(
        outcomes,
        reordered,
        |outcome: Outcome<AMM, E, J>| outcome->Ok_0->Ok_0,
    );
}

/// Which AMMs are gathered from lists does not depend on the order in which the tasks end,
/// when none comes to a bad end.
pub proof fn law_order_of_ends_of_lists_does_not_matter<E, J>(
    outcomes: Seq<Outcome<Vec<AMM>, E, J>>,
    reordered: Seq<Outcome<Vec<AMM>, E, J>>,
)
    requires
        outcomes.to_multiset() == reordered.to_multiset(),
        forall|i: int| 0 <= i < outcomes.len() ==> outcome_error(#[trigger] outcomes[i]) is None,
        forall|i: int| 0 <= i < reordered.len() ==> outcome_error(#[trigger] reordered[i]) is None,
    ensures
        (gather_amms(outcomes)->Ok_0).to_multiset() == (gather_amms(
            reordered,
        )->Ok_0).to_multiset(),
{
    let f = |outcome: Outcome<Vec<AMM>, E, J>| (outcome->Ok_0->Ok_0)@;
    law_every_list_is_gathered(outcomes);
    law_every_list_is_gathered(reordered);
    lemma_map_of_reordered(outcomes, reordered, f);
    lemma_flatten_of_reordered(outcomes.map_values(f), reordered.map_values(f));
}

} // verus!
