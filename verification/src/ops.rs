//! Positional operations on a topic's list: read, insert and delete by a
//! 1-based wrap-around position, composed from the store's native
//! primitives, none of which addresses a position on insert or delete.
//!
//! A positional edit anchors its target slot with a reserved placeholder
//! value (the empty string): the entry at the slot is displaced by the
//! placeholder, the value-addressed primitive inserts before or removes that
//! placeholder, and on insert the displaced entry is restored one slot
//! later. This only lands on the right slot when no stored entry equals the
//! placeholder, which [`placeholder_free`] captures; every entry inserted
//! through here is required to be non-empty, so the operations preserve it.

use vstd::prelude::*;

use crate::index::resolve;
use crate::index::wrap_index;
use crate::store::ListStore;
use crate::store::first_occurrence_at;

verus! {

/// No entry of `s` equals the reserved placeholder, the empty string.
pub open spec fn placeholder_free(s: Seq<Seq<char>>) -> bool {
    forall|i: int| 0 <= i < s.len() ==> s[i].len() != 0
}

/// The entry a positional read of `index` reports: the entry at the
/// resolved position, or nothing when that position lies past the end.
pub open spec fn entry_at(s: Seq<Seq<char>>, index: int) -> Option<Seq<char>> {
    let p = resolve(index, s.len() as int);
    if p <= s.len() {
        Some(s[p - 1])
    } else {
        None
    }
}

/// Position a positional insert of `index` targets in a list of `length`
/// entries: the resolved position when it lies strictly within the list, and
/// the append position `length + 1` when the index is absent or resolves
/// at-or-past the end.
pub open spec fn insert_pos(index: Option<int>, length: int) -> int {
    match index {
        None => length + 1,
        Some(i) => {
            let p = resolve(i, length);
            if p >= length + 1 {
                length + 1
            } else {
                p
            }
        },
    }
}

/// The requested index as a mathematical integer, where one was given.
pub open spec fn index_of_request(index: Option<isize>) -> Option<int> {
    match index {
        None => None,
        Some(i) => Some(i as int),
    }
}

/// Why a positional delete returned no entry.
#[derive(Clone, Copy, PartialEq, Eq, Structural, Debug)]
pub enum DelError {
    /// The topic has no entries at all.
    EmptyTopic,
    /// The topic has entries, but the position lies past the last one.
    PositionNotFound,
}

/// Reads the entry at the position that `index` denotes. Returns the
/// resolved position, the list's length, and the entry, absent when the
/// position lies past the end (in particular always for an empty list).
pub fn get(store: &ListStore, index: isize) -> (r: (isize, isize, Option<String>))
    requires
        store@.len() <= isize::MAX as nat,
    ensures
        r.0 == resolve(index as int, store@.len() as int),
        r.1 == store@.len(),
        match r.2 {
            Some(entry) => entry_at(store@, index as int) == Some(entry@),
            None => entry_at(store@, index as int) is None,
        },
{
    let len = store.length();
    let len_i = len as isize;
    let j = wrap_index(index, len_i);
    let entry = store.get_at((j - 1) as usize);
    (j, len_i, entry)
}

/// Position a positional insert of `index` targets in a list of `length`
/// entries: the decision between an in-place insert (a result within
/// `1..=length`) and a plain append (`length + 1`).
pub fn insert_position(index: Option<isize>, length: isize) -> (p: isize)
    requires
        0 <= length < isize::MAX,
    ensures
        p == insert_pos(index_of_request(index), length as int),
        1 <= p <= length + 1,
{
    match index {
        None => length + 1,
        Some(i) => {
            let p = wrap_index(i, length);
            if p >= length + 1 {
                length + 1
            } else {
                p
            }
        },
    }
}

/// Inserts `fact` at the position that `index` denotes, appending when the
/// index is absent or lands at-or-past the end. Every entry after the
/// target position shifts one position later. Returns the position the
/// fact now occupies and the new length.
///
/// The in-place path displaces the target entry with the placeholder,
/// inserts the fact immediately before it, and restores the displaced entry
/// over the placeholder one slot later; the append path is a single native
/// append. Both are proved to realize insertion at the reported position.
pub fn insert_at(store: &mut ListStore, index: Option<isize>, fact: String) -> (r: (isize, isize))
    requires
        placeholder_free(old(store)@),
        fact@.len() != 0,
        old(store)@.len() + 1 <= isize::MAX as nat,
    ensures
        ({
            let p = insert_pos(index_of_request(index), old(store)@.len() as int);
            &&& final(store)@ == old(store)@.insert(p - 1, fact@)
            &&& r.0 == p
            &&& r.1 == old(store)@.len() + 1
            &&& placeholder_free(final(store)@)
        }),
{
    let ghost s0 = store@;
    let ghost factv = fact@;
    let len = store.length();
    let len_i = len as isize;
    let j = insert_position(index, len_i);
    if j == len_i + 1 {
        store.append(fact);
        proof {
            assert(store@ =~= s0.insert(j - 1, factv));
        }
        (j, len_i + 1)
    } else {
        let offset = (j - 1) as usize;
        let displaced = store.get_at(offset).unwrap();
        store.set_at(offset, String::new());
        let ghost s1 = store@;
        let found = store.insert_before(&String::new(), fact);
        let ghost s2 = store@;
        proof {
            // The placeholder occurs exactly once, at the anchored slot, so
            // the value-addressed insert landed there.
            assert(s1[j - 1].len() == 0);
            assert(found);
            let k = choose|k: int|
                first_occurrence_at(s1, Seq::<char>::empty(), k) && s2 == s1.insert(k, factv);
            if k < j - 1 {
                assert(s1[k] == s0[k]);
                assert(false);
            }
            if k > j - 1 {
                assert(s1[j - 1] != Seq::<char>::empty());
                assert(false);
            }
            assert(s2 == s1.insert(j - 1, factv));
        }
        store.set_at(j as usize, displaced);
        proof {
            assert(store@ =~= s0.insert(j - 1, factv));
            assert forall|i: int| 0 <= i < store@.len() implies store@[i].len() != 0 by {
                if i < j - 1 {
                    assert(store@[i] == s0[i]);
                } else if i > j - 1 {
                    assert(store@[i] == s0[i - 1]);
                }
            }
        }
        (j, len_i + 1)
    }
}

/// Deletes the entry at the position that `index` denotes and returns it;
/// every entry after it shifts one position earlier. When the position lies
/// past the end, the list is unchanged and the error says whether the topic
/// was empty or merely shorter than requested.
///
/// The delete path displaces the target entry with the placeholder and
/// removes the first placeholder occurrence by value; this is proved to
/// remove exactly the entry at the resolved position.
pub fn delete_at(store: &mut ListStore, index: isize) -> (r: Result<String, DelError>)
    requires
        placeholder_free(old(store)@),
        old(store)@.len() <= isize::MAX as nat,
    ensures
        ({
            let len = old(store)@.len() as int;
            let p = resolve(index as int, len);
            if p <= len {
                &&& r matches Ok(entry) && entry@ == old(store)@[p - 1]
                &&& final(store)@ == old(store)@.remove(p - 1)
                &&& placeholder_free(final(store)@)
            } else {
                &&& final(store)@ == old(store)@
                &&& r == (if len == 0 {
                    Err::<String, DelError>(DelError::EmptyTopic)
                } else {
                    Err::<String, DelError>(DelError::PositionNotFound)
                })
            }
        }),
{
    let ghost s0 = store@;
    let len = store.length();
    let len_i = len as isize;
    let j = wrap_index(index, len_i);
    if j > len_i {
        if len == 0 {
            Err(DelError::EmptyTopic)
        } else {
            Err(DelError::PositionNotFound)
        }
    } else {
        let offset = (j - 1) as usize;
        let deleted = store.get_at(offset).unwrap();
        store.set_at(offset, String::new());
        let ghost s1 = store@;
        let found = store.remove_by_value(&String::new());
        proof {
            // As on insert: the placeholder occurs exactly once, at the
            // anchored slot, so the value-addressed remove took that slot.
            assert(s1[j - 1].len() == 0);
            assert(found);
            let k = choose|k: int|
                first_occurrence_at(s1, Seq::<char>::empty(), k) && store@ == s1.remove(k);
            if k < j - 1 {
                assert(s1[k] == s0[k]);
                assert(false);
            }
            if k > j - 1 {
                assert(s1[j - 1] != Seq::<char>::empty());
                assert(false);
            }
            assert(store@ =~= s0.remove(j - 1));
            assert forall|i: int| 0 <= i < store@.len() implies store@[i].len() != 0 by {
                if i < j - 1 {
                    assert(store@[i] == s0[i]);
                } else {
                    assert(store@[i] == s0[i + 1]);
                }
            }
        }
        Ok(deleted)
    }
}

/// The position a positional insert targets is always a valid slot: at
/// least 1, and at most one past the current end.
pub proof fn lemma_insert_pos_bounds(index: Option<int>, length: int)
    requires
        length >= 0,
    ensures
        1 <= insert_pos(index, length) <= length + 1,
{
}

/// Round trip of insert and read: inserting a fact into a list of length L
/// and then reading the reported position yields that fact back, and the
/// list has grown to length L + 1.
pub proof fn lemma_insert_then_get(s: Seq<Seq<char>>, index: Option<int>, fact: Seq<char>)
    ensures
        ({
            let p = insert_pos(index, s.len() as int);
            let after = s.insert(p - 1, fact);
            &&& after.len() == s.len() + 1
            &&& entry_at(after, p) == Some(fact)
        }),
{
    let p = insert_pos(index, s.len() as int);
    lemma_insert_pos_bounds(index, s.len() as int);
    let after = s.insert(p - 1, fact);
    assert(resolve(p, after.len() as int) == p);
    assert(after[p - 1] == fact);
}

/// Round trip of read and delete: deleting the entry at a position that a
/// read finds occupied returns exactly the entry that read reported, and
/// the list shrinks to length L - 1.
pub proof fn lemma_delete_round_trip(s: Seq<Seq<char>>, index: int)
    requires
        entry_at(s, index) is Some,
    ensures
        ({
            let p = resolve(index, s.len() as int);
            &&& entry_at(s, index) == Some(s[p - 1])
            &&& s.remove(p - 1).len() == s.len() - 1
        }),
{
}

/// Append-path idempotence: inserting with an index at-or-past one past the
/// end targets the same position and produces the same list as omitting the
/// index; both append.
pub proof fn lemma_append_path_same_as_no_index(s: Seq<Seq<char>>, i: int, fact: Seq<char>)
    requires
        i >= s.len() + 1,
    ensures
        insert_pos(Some(i), s.len() as int) == insert_pos(None, s.len() as int),
        s.insert(insert_pos(Some(i), s.len() as int) - 1, fact) == s.insert(
            insert_pos(None, s.len() as int) - 1,
            fact,
        ),
{
}

/// Two inserts applied one after the other — the order in which the store's
/// transaction mechanism serializes two concurrent inserts — lose neither
/// fact: both are present afterwards, and the length has grown by two.
pub proof fn lemma_two_inserts_keep_both(
    s: Seq<Seq<char>>,
    i1: Option<int>,
    f1: Seq<char>,
    i2: Option<int>,
    f2: Seq<char>,
)
    ensures
        ({
            let s1 = s.insert(insert_pos(i1, s.len() as int) - 1, f1);
            let s2 = s1.insert(insert_pos(i2, s1.len() as int) - 1, f2);
            &&& s2.len() == s.len() + 2
            &&& s2.contains(f1)
            &&& s2.contains(f2)
        }),
{
    let p1 = insert_pos(i1, s.len() as int);
    lemma_insert_pos_bounds(i1, s.len() as int);
    let s1 = s.insert(p1 - 1, f1);
    let p2 = insert_pos(i2, s1.len() as int);
    lemma_insert_pos_bounds(i2, s1.len() as int);
    let s2 = s1.insert(p2 - 1, f2);
    assert(s2[p2 - 1] == f2);
    assert(s2.contains(f2));
    let w = if p1 - 1 < p2 - 1 {
        p1 - 1
    } else {
        p1
    };
    assert(s2[w] == f1);
    assert(s2.contains(f1));
}

} // verus!
