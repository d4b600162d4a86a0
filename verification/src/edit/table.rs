//! Tables keyed by identifiers: looking through the identifiers in order.

use std::collections::BTreeMap;
use vstd::prelude::*;

verus! {

/// The greatest of `keys` below `bound`.
pub open spec fn key_below(keys: Set<usize>, bound: int) -> Option<usize>
    decreases bound,
{
    if bound <= 0 {
        None
    } else if keys.contains((bound - 1) as usize) {
        Some((bound - 1) as usize)
    } else {
        key_below(keys, bound - 1)
    }
}

/// The least of `keys` from `from` on and below `end`.
pub open spec fn key_from(keys: Set<usize>, from: int, end: int) -> Option<usize>
    decreases end - from,
{
    if from < 0 || from >= end {
        None
    } else if keys.contains(from as usize) {
        Some(from as usize)
    } else {
        key_from(keys, from + 1, end)
    }
}

/// `key_below` gives a key below the bound with no key between the two, and
/// `None` exactly when no key is below the bound.
pub proof fn lemma_key_below(keys: Set<usize>, bound: int)
    requires
        bound <= usize::MAX + 1,
    ensures
        match key_below(keys, bound) {
            Some(k) => {
                &&& keys.contains(k)
                &&& k < bound
                &&& forall|j: usize| keys.contains(j) && j < bound ==> j <= k
            },
            None => forall|j: usize| keys.contains(j) ==> j >= bound,
        },
    decreases bound,
{
    if bound > 0 && !keys.contains((bound - 1) as usize) {
        lemma_key_below(keys, bound - 1);
    }
}

/// `key_from` gives a key in `[from, end)` with no key between `from` and it,
/// and `None` exactly when no key is in `[from, end)`.
pub proof fn lemma_key_from(keys: Set<usize>, from: int, end: int)
    requires
        0 <= from,
        end <= usize::MAX + 1,
    ensures
        match key_from(keys, from, end) {
            Some(k) => {
                &&& keys.contains(k)
                &&& from <= k < end
                &&& forall|j: usize| keys.contains(j) && from <= j ==> k <= j
            },
            None => forall|j: usize| keys.contains(j) ==> !(from <= j < end),
        },
    decreases end - from,
{
    if from < end && !keys.contains(from as usize) {
        lemma_key_from(keys, from + 1, end);
    }
}

/// The greatest identifier in `map` below `bound`.
pub fn find_below<V>(map: &BTreeMap<usize, V>, bound: usize) -> (r: Option<usize>)
    ensures
        r == key_below(map@.dom(), bound as int),
{
    let mut at: usize = bound;
    while at > 0
        invariant
            at <= bound,
            key_below(map@.dom(), bound as int) == key_below(map@.dom(), at as int),
        decreases at,
    {
        at -= 1;
        if map.contains_key(&at) {
            return Some(at);
        }
    }
    None
}

/// The least identifier in `map` from `from` on and below `end`.
pub fn find_from<V>(map: &BTreeMap<usize, V>, from: usize, end: usize) -> (r: Option<usize>)
    ensures
        r == key_from(map@.dom(), from as int, end as int),
{
    let mut at: usize = from;
    while at < end
        invariant
            from <= at,
            key_from(map@.dom(), from as int, end as int) == key_from(
                map@.dom(),
                at as int,
                end as int,
            ),
        decreases end - at,
    {
        if map.contains_key(&at) {
            return Some(at);
        }
        at += 1;
    }
    None
}

/// `BTreeMap::get_mut`: a mutable reference to the value under `id`, if the
/// map has one. The map keeps its keys; the value under `id` is what the
/// reference is left holding.
#[verifier::external_body]
pub(crate) fn entry_mut<V>(map: &mut BTreeMap<usize, V>, id: usize) -> (r: Option<&mut V>)
    ensures
        match r {
            Some(value) => {
                &&& old(map)@.contains_key(id)
                &&& *value == old(map)@[id]
                &&& final(map)@ == old(map)@.insert(id, *final(value))
            },
            None => !old(map)@.contains_key(id) && final(map)@ == old(map)@,
        },
{
    map.get_mut(&id)
}

} // verus!
