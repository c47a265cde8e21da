//! Copies of lists.
use vstd::prelude::*;

use crate::amm::{amm_views, AMM};

verus! {

/// A copy of a list of plain values.
pub(crate) fn copied<T: Copy>(items: &[T]) -> (r: Vec<T>)
    ensures
        r@ == items@,
{
    let mut r: Vec<T> = Vec::new();
    let mut i: usize = 0;
    while i < items.len()
        invariant
            i <= items.len(),
            r@ == items@.take(i as int),
        decreases items.len() - i,
    {
        r.push(items[i]);
        i = i + 1;
        assert(items@.take(i as int) =~= items@.take(i - 1).push(items@[i - 1]));
    }
    assert(items@.take(i as int) =~= items@);
    r
}

/// A copy of a list of AMMs.
pub(crate) fn cloned_amms(amms: &[AMM]) -> (r: Vec<AMM>)
    ensures
        amm_views(r@) == amm_views(amms@),
        r@.len() == amms@.len(),
        forall|i: int| 0 <= i < amms@.len() ==> (#[trigger] r@[i])@ == amms@[i]@,
{
    let mut r: Vec<AMM> = Vec::new();
    let mut i: usize = 0;
    while i < amms.len()
        invariant
            i <= amms@.len(),
            r@.len() == i,
            forall|j: int| 0 <= j < i ==> (#[trigger] r@[j])@ == amms@[j]@,
        decreases amms@.len() - i,
    {
        r.push(amms[i].clone());
        i = i + 1;
    }
    assert(amm_views(r@) =~= amm_views(amms@));
    r
}

} // verus!
