//! In-memory realization of the ordered-list store that holds one topic's
//! entries, offering exactly the native primitives of the remote store:
//! length, get-by-offset, append, set-by-offset, insert-before-a-value and
//! remove-by-value. None of these addresses a position on insert or delete;
//! the positional operations are composed from them elsewhere.
//!
//! The remote store runs each composed command block atomically; here the
//! calls within a block simply run back to back, which is the same thing for
//! a store used by one caller at a time.

use vstd::prelude::*;

verus! {

/// Holds `value` at the first position in `s` where `value` occurs: `k` is a
/// valid offset, the entry there equals `value`, and no earlier entry does.
pub open spec fn first_occurrence_at(s: Seq<Seq<char>>, value: Seq<char>, k: int) -> bool {
    &&& 0 <= k < s.len()
    &&& s[k] == value
    &&& forall|m: int| 0 <= m < k ==> s[m] != value
}

/// One topic's ordered list of entries.
pub struct ListStore {
    entries: Vec<String>,
}

impl View for ListStore {
    type V = Seq<Seq<char>>;

    closed spec fn view(&self) -> Seq<Seq<char>> {
        self.entries.deep_view()
    }
}

/// Offset of the first entry of `entries` equal to `value`, if any.
fn find_first(entries: &Vec<String>, value: &String) -> (r: Option<usize>)
    ensures
        match r {
            Some(k) => first_occurrence_at(entries.deep_view(), value@, k as int),
            None => forall|m: int| 0 <= m < entries.deep_view().len()
                ==> entries.deep_view()[m] != value@,
        },
{
    let n = entries.len();
    let mut i: usize = 0;
    while i < n
        invariant
            n == entries.deep_view().len(),
            i <= n,
            forall|m: int| 0 <= m < i ==> entries.deep_view()[m] != value@,
        decreases n - i,
    {
        if entries[i] == *value {
            return Some(i);
        }
        i = i + 1;
    }
    None
}

impl ListStore {
    /// A topic with no entries yet; indistinguishable from one never written.
    pub fn new() -> (s: ListStore)
        ensures
            s@ == Seq::<Seq<char>>::empty(),
    {
        ListStore { entries: Vec::new() }
    }

    /// Number of entries in the list.
    pub fn length(&self) -> (n: usize)
        ensures
            n == self@.len(),
    {
        self.entries.len()
    }

    /// Entry at 0-based `offset`, or nothing when the offset is past the end.
    pub fn get_at(&self, offset: usize) -> (r: Option<String>)
        ensures
            match r {
                Some(entry) => offset < self@.len() && entry@ == self@[offset as int],
                None => offset >= self@.len(),
            },
    {
        if offset < self.entries.len() {
            Some(self.entries[offset].clone())
        } else {
            None
        }
    }

    /// Appends `value` at the end of the list.
    pub fn append(&mut self, value: String)
        ensures
            final(self)@ == old(self)@.push(value@),
    {
        self.entries.push(value);
        proof {
            assert(final(self)@ =~= old(self)@.push(value@));
        }
    }

    /// Overwrites the entry at 0-based `offset` with `value`.
    pub fn set_at(&mut self, offset: usize, value: String)
        requires
            offset < old(self)@.len(),
        ensures
            final(self)@ == old(self)@.update(offset as int, value@),
    {
        self.entries[offset] = value;
        proof {
            assert(final(self)@ =~= old(self)@.update(offset as int, value@));
        }
    }

    /// Inserts `value` immediately before the first entry equal to `pivot`.
    /// When no entry equals `pivot`, the list is left unchanged and `found`
    /// is false.
    pub fn insert_before(&mut self, pivot: &String, value: String) -> (found: bool)
        ensures
            found == exists|k: int| 0 <= k < old(self)@.len() && old(self)@[k] == pivot@,
            found ==> exists|k: int|
                first_occurrence_at(old(self)@, pivot@, k)
                    && final(self)@ == old(self)@.insert(k, value@),
            !found ==> final(self)@ == old(self)@,
    {
        match find_first(&self.entries, pivot) {
            Some(k) => {
                self.entries.insert(k, value);
                proof {
                    let ghost kk = k as int;
                    assert(final(self)@ =~= old(self)@.insert(kk, value@));
                    assert(first_occurrence_at(old(self)@, pivot@, kk)
                        && final(self)@ == old(self)@.insert(kk, value@));
                }
                true
            },
            None => {
                proof {
                    assert(final(self)@ =~= old(self)@);
                }
                false
            },
        }
    }

    /// Removes the first entry equal to `value`. When no entry equals
    /// `value`, the list is left unchanged and `found` is false.
    pub fn remove_by_value(&mut self, value: &String) -> (found: bool)
        ensures
            found == exists|k: int| 0 <= k < old(self)@.len() && old(self)@[k] == value@,
            found ==> exists|k: int|
                first_occurrence_at(old(self)@, value@, k)
                    && final(self)@ == old(self)@.remove(k),
            !found ==> final(self)@ == old(self)@,
    {
        match find_first(&self.entries, value) {
            Some(k) => {
                self.entries.remove(k);
                proof {
                    let ghost kk = k as int;
                    assert(final(self)@ =~= old(self)@.remove(kk));
                    assert(first_occurrence_at(old(self)@, value@, kk)
                        && final(self)@ == old(self)@.remove(kk));
                }
                true
            },
            None => {
                proof {
                    assert(final(self)@ =~= old(self)@);
                }
                false
            },
        }
    }
}

} // verus!
