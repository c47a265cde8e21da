//! Asking a factory for the pools between tokens that are known to be safe.
use vstd::prelude::*;

use crate::amm::uniswap_v2::UniswapV2Pool;
use crate::amm::AMM;
use crate::errors::{outcome_error, Outcome, TaskError};
use crate::primitives::{zero_address_bytes, Address};

verus! {

/// The pause before each call of `getPair`, in milliseconds: it limits the rate of calls.
pub const PAIR_CALL_DELAY_MILLIS: u64 = 500;

/// A call of a factory's `getPair`.
#[derive(Clone, Copy, Debug, PartialEq, Eq)]
pub struct PairQuery {
    pub factory: Address,
    pub token_a: Address,
    pub token_b: Address,
}

/// The calls for the token at position `i`: one with each token behind it, in their order.
pub open spec fn query_row(factory: Address, tokens: Seq<Address>, i: int) -> Seq<PairQuery> {
    Seq::new(
        (tokens.len() - i - 1) as nat,
        |k: int| PairQuery { factory, token_a: tokens[i], token_b: tokens[i + 1 + k] },
    )
}

/// The calls for the first `rows` tokens, row behind row.
pub open spec fn query_rows(factory: Address, tokens: Seq<Address>, rows: nat) -> Seq<PairQuery>
    decreases rows,
{
    if rows == 0 {
        Seq::empty()
    } else {
        query_rows(factory, tokens, (rows - 1) as nat) + query_row(factory, tokens, rows - 1)
    }
}

/// The calls for all tokens.
pub open spec fn pair_queries(factory: Address, tokens: Seq<Address>) -> Seq<PairQuery> {
    query_rows(factory, tokens, tokens.len())
}

/// The number of calls in the first `rows` rows for `n` tokens.
pub open spec fn row_start(n: nat, rows: nat) -> nat
    decreases rows,
{
    if rows == 0 {
        0
    } else {
        (row_start(n, (rows - 1) as nat) + (n - rows)) as nat
    }
}

/// The position of the call for the tokens at the positions `i` and `j` out of `n`.
pub open spec fn query_position(n: nat, i: nat, j: nat) -> nat {
    (row_start(n, i) + (j - i - 1)) as nat
}

proof fn lemma_rows_length(factory: Address, tokens: Seq<Address>, rows: nat)
    requires
        rows <= tokens.len(),
    ensures
        query_rows(factory, tokens, rows).len() == row_start(tokens.len(), rows),
    decreases rows,
{
    if rows > 0 {
        lemma_rows_length(factory, tokens, (rows - 1) as nat);
    }
}

proof fn lemma_row_start_doubled(n: nat, rows: nat)
    requires
        rows <= n,
    ensures
        2 * row_start(n, rows) == rows * (2 * n - rows - 1),
    decreases rows,
{
    if rows > 0 {
        let last = (rows - 1) as nat;
        lemma_row_start_doubled(n, last);
        assert(last * (2 * n - last - 1) + 2 * (n - rows) == rows * (2 * n - rows - 1))
            by (nonlinear_arith)
            requires
                last == rows - 1,
        ;
    } else {
        assert(rows * (2 * n - rows - 1) == 0) by (nonlinear_arith)
            requires
                rows == 0,
        ;
    }
}

proof fn lemma_row_start_grows(n: nat, i: nat, rows: nat)
    requires
        i <= rows <= n,
    ensures
        row_start(n, i) <= row_start(n, rows),
    decreases rows,
{
    if i < rows {
        lemma_row_start_grows(n, i, (rows - 1) as nat);
    }
}

proof fn lemma_query_in_rows(factory: Address, tokens: Seq<Address>, rows: nat, i: nat, j: nat)
    requires
        i < rows <= tokens.len(),
        i < j < tokens.len(),
    ensures
        query_position(tokens.len(), i, j) < query_rows(factory, tokens, rows).len(),
        query_rows(factory, tokens, rows)[query_position(tokens.len(), i, j) as int] == (
        PairQuery { factory, token_a: tokens[i as int], token_b: tokens[j as int] }),
    decreases rows,
{
    let last = (rows - 1) as nat;
    lemma_rows_length(factory, tokens, last);
    if i < last {
        lemma_query_in_rows(factory, tokens, last, i, j);
    }
}

proof fn lemma_position_in_rows(n: nat, rows: nat, k: nat) -> (ij: (nat, nat))
    requires
        rows <= n,
        k < row_start(n, rows),
    ensures
        ij.0 < ij.1 < n,
        query_position(n, ij.0, ij.1) == k,
    decreases rows,
{
    let last = (rows - 1) as nat;
    if k < row_start(n, last) {
        lemma_position_in_rows(n, last, k)
    } else {
        (last, (k - row_start(n, last) + last + 1) as nat)
    }
}

/// With `n` tokens there are `n * (n - 1) / 2` calls.
pub proof fn law_number_of_queries(factory: Address, tokens: Seq<Address>)
    ensures
        2 * pair_queries(factory, tokens).len() == tokens.len() * (tokens.len() - 1),
{
    let n = tokens.len();
    lemma_rows_length(factory, tokens, n);
    lemma_row_start_doubled(n, n);
}

/// Every two tokens are asked for, the earlier one first, at the position that is computed
/// from theirs.
pub proof fn law_every_two_tokens_are_queried(
    factory: Address,
    tokens: Seq<Address>,
    i: nat,
    j: nat,
)
    requires
        i < j < tokens.len(),
    ensures
        query_position(tokens.len(), i, j) < pair_queries(factory, tokens).len(),
        pair_queries(factory, tokens)[query_position(tokens.len(), i, j) as int] == (PairQuery {
            factory,
            token_a: tokens[i as int],
            token_b: tokens[j as int],
        }),
{
    lemma_query_in_rows(factory, tokens, tokens.len(), i, j);
}

/// Every call is the one for two of the tokens: nothing else is asked for.
pub proof fn law_every_query_is_for_two_tokens(factory: Address, tokens: Seq<Address>, k: nat)
    requires
        k < pair_queries(factory, tokens).len(),
    ensures
        exists|i: nat, j: nat| i < j < tokens.len() && query_position(tokens.len(), i, j) == k,
{
    lemma_rows_length(factory, tokens, tokens.len());
    let ij = lemma_position_in_rows(tokens.len(), tokens.len(), k);
    assert(query_position(tokens.len(), ij.0, ij.1) == k);
}

/// No two tokens are asked for twice: calls for other positions stand at another place, in
/// the order of the positions.
pub proof fn law_queries_are_ordered(n: nat, i: nat, j: nat, other_i: nat, other_j: nat)
    requires
        i < j < n,
        other_i < other_j < n,
        i < other_i || (i == other_i && j < other_j),
    ensures
        query_position(n, i, j) < query_position(n, other_i, other_j),
{
    if i < other_i {
        lemma_row_start_grows(n, (i + 1) as nat, other_i);
    }
}

/// The calls that ask a factory for the pool of every two of the tokens.
pub(crate) fn queries_for(factory: Address, tokens: &[Address]) -> (r: Vec<PairQuery>)
    ensures
        r@ == pair_queries(factory, tokens@),
{
    let mut queries: Vec<PairQuery> = Vec::new();
    let mut i: usize = 0;
    while i < tokens.len()
        invariant
            i <= tokens@.len(),
            queries@ == query_rows(factory, tokens@, i as nat),
        decreases tokens@.len() - i,
    {
        let mut j: usize = i + 1;
        while j < tokens.len()
            invariant
                i < j <= tokens@.len(),
                queries@ == query_rows(factory, tokens@, i as nat) + query_row(
                    factory,
                    tokens@,
                    i as int,
                ).take(j - i - 1),
            decreases tokens@.len() - j,
        {
            queries.push(PairQuery { factory, token_a: tokens[i], token_b: tokens[j] });
            j = j + 1;
            assert(query_row(factory, tokens@, i as int).take(j - i - 1) =~= query_row(
                factory,
                tokens@,
                i as int,
            ).take(j - i - 2).push(query_row(factory, tokens@, i as int)[j - i - 2]));
        }
        assert(query_row(factory, tokens@, i as int).take(j - i - 1) =~= query_row(
            factory,
            tokens@,
            i as int,
        ));
        i = i + 1;
    }
    queries
}

/// What a reply of `getPair` says: the zero address stands for a pool that does not exist.
pub fn read_pair_reply<E>(reply: Result<Address, E>) -> (r: Result<Option<AMM>, E>)
    ensures
        match reply {
            Ok(pair) => if pair@ == zero_address_bytes() {
                r == Ok::<Option<AMM>, E>(None)
            } else {
                r matches Ok(Some(AMM::UniswapV2Pool(pool))) && pool.is_empty_at(pair)
            },
            Err(error) => r == Err::<Option<AMM>, E>(error),
        },
        reply is Ok ==> (r == Ok::<Option<AMM>, E>(None) <==> forall|i: int|
            0 <= i < 20 ==> (reply->Ok_0).bytes@[i] == 0),
        r matches Ok(Some(amm)) ==> (amm matches AMM::UniswapV2Pool(pool) && pool.address
            == reply->Ok_0),
{
    proof {
        if let Ok(pair) = reply {
            if forall|i: int| 0 <= i < 20 ==> pair.bytes@[i] == 0 {
                assert(pair@ =~= zero_address_bytes());
            }
            assert(pair@ == zero_address_bytes() ==> forall|i: int|
                0 <= i < 20 ==> pair.bytes@[i] == zero_address_bytes()[i]);
        }
    }
    match reply {
        Ok(pair) => if pair.is_zero() {
            Ok(None)
        } else {
            Ok(Some(AMM::UniswapV2Pool(UniswapV2Pool::empty(pair))))
        },
        Err(error) => Err(error),
    }
}

/// How one call of `getPair` came out.
pub type PairOutcome<E, J> = Outcome<Option<AMM>, E, J>;

/// The pool that a call found.
pub open spec fn outcome_amm<E, J>(outcome: PairOutcome<E, J>) -> Option<AMM> {
    match outcome {
        Ok(Ok(found)) => found,
        _ => None,
    }
}

/// The pools that were found, in the order of the calls.
pub open spec fn found_amms<E, J>(outcomes: Seq<PairOutcome<E, J>>) -> Seq<AMM> {
    outcomes.filter_map(|outcome: PairOutcome<E, J>| outcome_amm(outcome))
}

proof fn lemma_found_are_the_finds<E, J>(outcomes: Seq<PairOutcome<E, J>>)
    ensures
        found_amms(outcomes) == outcomes.filter(
            |outcome: PairOutcome<E, J>| outcome matches Ok(Ok(Some(_))),
        ).map_values(|outcome: PairOutcome<E, J>| outcome->Ok_0->Ok_0->Some_0),
    decreases outcomes.len(),
{
    let f = |outcome: PairOutcome<E, J>| outcome_amm(outcome);
    let found = |outcome: PairOutcome<E, J>| outcome matches Ok(Ok(Some(_)));
    let pool = |outcome: PairOutcome<E, J>| outcome->Ok_0->Ok_0->Some_0;
    reveal(Seq::filter);
    if outcomes.len() > 0 {
        let n = outcomes.len() - 1;
        assert(outcomes.take(n) =~= outcomes.drop_last());
        assert(outcomes.take(n + 1) =~= outcomes);
        outcomes.lemma_filter_map_take_succ(f, n);
        lemma_found_are_the_finds(outcomes.drop_last());
    }
    assert(found_amms(outcomes) =~= outcomes.filter(found).map_values(pool));
}

/// A pool is among those found exactly when some call brought it.
pub proof fn law_found_amms_are_the_replies<E, J>(outcomes: Seq<PairOutcome<E, J>>, amm: AMM)
    ensures
        found_amms(outcomes).contains(amm) <==> outcomes.contains(Ok(Ok(Some(amm)))),
    decreases outcomes.len(),
{
    let f = |outcome: PairOutcome<E, J>| outcome_amm(outcome);
    let wanted: PairOutcome<E, J> = Ok(Ok(Some(amm)));
    if found_amms(outcomes).contains(amm) {
        outcomes.lemma_filter_map_contains(f, amm);
    }
    if outcomes.contains(wanted) {
        let n = outcomes.len() as int;
        let before = outcomes.take(n - 1);
        let i = choose|i: int| 0 <= i < n && outcomes[i] == wanted;
        outcomes.lemma_filter_map_take_succ(f, n - 1);
        assert(outcomes.take(n) =~= outcomes);
        if i < n - 1 {
            assert(before[i] == wanted);
            law_found_amms_are_the_replies(before, amm);
            let k = choose|k: int| 0 <= k < found_amms(before).len() && found_amms(before)[k] == amm;
            assert(found_amms(outcomes)[k] == amm);
        } else {
            assert(found_amms(outcomes).last() == amm);
        }
    }
}

/// The pools that were found are those that the calls brought, each once for each call that
/// brought it and in the order of the calls: there are as many of them as calls that found one,
/// and a call that found one has its pool behind those of the calls before it.
pub proof fn law_each_find_is_there_once_and_in_order<E, J>(outcomes: Seq<PairOutcome<E, J>>, i: int)
    ensures
        found_amms(outcomes).len() == outcomes.filter(
            |outcome: PairOutcome<E, J>| outcome matches Ok(Ok(Some(_))),
        ).len(),
        0 <= i < outcomes.len() ==> (outcomes[i] matches Ok(Ok(Some(amm))) ==> {
            let earlier = outcomes.take(i).filter(
                |outcome: PairOutcome<E, J>| outcome matches Ok(Ok(Some(_))),
            ).len() as int;
            &&& earlier < found_amms(outcomes).len()
            &&& found_amms(outcomes)[earlier] == amm
        }),
    decreases outcomes.len(),
{
    let f = |outcome: PairOutcome<E, J>| outcome_amm(outcome);
    reveal(Seq::filter);
    if outcomes.len() > 0 {
        let n = outcomes.len() - 1;
        let before = outcomes.drop_last();
        assert(outcomes.take(n) =~= before);
        assert(outcomes.take(n + 1) =~= outcomes);
        outcomes.lemma_filter_map_take_succ(f, n);
        law_each_find_is_there_once_and_in_order(before, i);
        if 0 <= i < n {
            assert(before.take(i) =~= outcomes.take(i));
        }
    }
}

/// The pools that were found in one run of calls and in another behind it are those of the first
/// followed by those of the second.
pub proof fn law_finds_of_two_runs_stand_behind_each_other<E, J>(
    first: Seq<PairOutcome<E, J>>,
    second: Seq<PairOutcome<E, J>>,
)
    ensures
        found_amms(first + second) == found_amms(first) + found_amms(second),
    decreases second.len(),
{
    let f = |outcome: PairOutcome<E, J>| outcome_amm(outcome);
    let both = first + second;
    if second.len() == 0 {
        assert(both =~= first);
        assert(found_amms(second) =~= Seq::empty());
    } else {
        let n = both.len() - 1;
        let m = second.len() - 1;
        law_finds_of_two_runs_stand_behind_each_other(first, second.take(m));
        assert(both.take(n) =~= first + second.take(m));
        assert(both.take(n + 1) =~= both);
        assert(second.take(m + 1) =~= second);
        both.lemma_filter_map_take_succ(f, n);
        second.lemma_filter_map_take_succ(f, m);
        assert(found_amms(both) =~= found_amms(first) + found_amms(second));
    }
}

/// The pools that were found, or the error of the first call that failed.
pub fn collect_safe_amms<E, J>(outcomes: Vec<PairOutcome<E, J>>) -> (r: Result<
    Vec<AMM>,
    TaskError<E, J>,
>)
    ensures
        match r {
            Ok(amms) => {
                &&& amms@ == found_amms(outcomes@)
                &&& amms@ == outcomes@.filter(
                    |outcome: PairOutcome<E, J>| outcome matches Ok(Ok(Some(_))),
                ).map_values(|outcome: PairOutcome<E, J>| outcome->Ok_0->Ok_0->Some_0)
                &&& forall|i: int|
                    0 <= i < outcomes@.len() ==> ((#[trigger] outcomes@[i]) matches Ok(Ok(_)))
                &&& forall|i: int|
                    0 <= i < outcomes@.len() ==> outcome_error(#[trigger] outcomes@[i]) is None
            },
            Err(error) => exists|i: int|
                {
                    &&& 0 <= i < outcomes@.len()
                    &&& outcome_error(#[trigger] outcomes@[i]) == Some(error)
                    &&& forall|j: int|
                        0 <= j < i ==> outcome_error(#[trigger] outcomes@[j]) is None
                },
        },
{
    let ghost all = outcomes@;
    let mut amms: Vec<AMM> = Vec::new();
    for outcome in it: outcomes
        invariant
            it.seq() == all,
            amms@ == found_amms(all.take(it.index() as int)),
            forall|j: int| 0 <= j < it.index() ==> outcome_error(#[trigger] all[j]) is None,
    {
        proof {
            let k = it.index() as int;
            assert(all[k] == outcome);
            all.lemma_filter_map_take_succ(|o: PairOutcome<E, J>| outcome_amm(o), k);
        }
        match outcome {
            Ok(Ok(Some(amm))) => {
                amms.push(amm);
            },
            Ok(Ok(None)) => {},
            Ok(Err(error)) => {
                return Err(TaskError::Failed(error));
            },
            Err(error) => {
                return Err(TaskError::Join(error));
            },
        }
    }
    assert(all.take(all.len() as int) =~= all);
    proof {
        lemma_found_are_the_finds(all);
        assert forall|i: int| 0 <= i < all.len() implies ((#[trigger] all[i]) matches Ok(
            Ok(_),
        )) by {
            assert(outcome_error(all[i]) is None);
        }
    }
    Ok(amms)
}

} // verus!
