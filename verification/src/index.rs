//! Normalization of requested signed indices into valid 1-based positions.

use vstd::prelude::*;

verus! {

/// Position that a requested signed `index` denotes in a list of `length`
/// entries. Positions are 1-based; a negative index counts back from the end
/// of the list, so `-1` denotes the last entry. The result is floored at 1;
/// no upper clamp is applied, so callers decide what a position past the end
/// means (a read treats it as "not found", an insert as "append").
pub open spec fn resolve(index: int, length: int) -> int {
    let raw = if index < 0 {
        length + 1 + index
    } else {
        index
    };
    if raw < 1 {
        1
    } else {
        raw
    }
}

/// Maps a requested signed index to the 1-based position it denotes in a
/// list of `length` entries. Pure and deterministic.
pub fn wrap_index(index: isize, length: isize) -> (position: isize)
    requires
        length >= 0,
    ensures
        position == resolve(index as int, length as int),
        position >= 1,
{
    if index < 0 {
        // Grouping as `length + (1 + index)` keeps every intermediate value
        // in range: `1 + index` is at most 0 here, and at least isize::MIN + 1.
        let shifted = length + (1 + index);
        if shifted < 1 {
            1
        } else {
            shifted
        }
    } else {
        if index < 1 {
            1
        } else {
            index
        }
    }
}

/// Every resolved position is at least 1, for every index and every
/// (non-negative or not) length.
pub proof fn lemma_resolve_at_least_one(index: int, length: int)
    ensures
        resolve(index, length) >= 1,
{
}

/// Index 1 always denotes the first entry, and index -1 denotes the last
/// entry of a non-empty list.
pub proof fn lemma_resolve_first_and_last(length: int)
    requires
        length >= 1,
    ensures
        resolve(1, length) == 1,
        resolve(-1, length) == length,
{
}

} // verus!
