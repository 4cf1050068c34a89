//! Entry points for parsed commands and queries: they run the positional
//! operation and render the outcome as display text. Failures of the
//! operations themselves (an empty topic, a position past the end) are
//! rendered as replies here and never escape; rendering a store-access
//! failure is the caller's part, with [`crate::fmt::format_store_error`].

use vstd::prelude::*;

use crate::fmt::format_added;
use crate::fmt::format_deleted;
use crate::fmt::format_empty_topic;
use crate::fmt::format_found;
use crate::fmt::format_not_enough;
use crate::fmt::int_rep;
use crate::index::resolve;
use crate::ops::DelError;
use crate::ops::delete_at;
use crate::ops::entry_at;
use crate::ops::get;
use crate::ops::index_of_request;
use crate::ops::insert_at;
use crate::ops::insert_pos;
use crate::ops::placeholder_free;
use crate::store::ListStore;

verus! {

/// A mutation that the command grammar has already parsed: the verb, the
/// topic, the optional requested index, and for an insert the fact text.
pub enum MutationCommand {
    /// Insert `fact` at the position `index` denotes, appending when the
    /// index is absent or lands at-or-past the end.
    Add { topic: String, index: Option<isize>, fact: String },
    /// Delete the entry at the position `index` denotes.
    Delete { topic: String, index: isize },
}

/// Inserts `fact` and reports the position it now occupies and the new
/// length.
pub fn learn_add(store: &mut ListStore, topic: &str, index: Option<isize>, fact: String) -> (r:
    String)
    requires
        placeholder_free(old(store)@),
        fact@.len() != 0,
        old(store)@.len() + 1 <= isize::MAX as nat,
    ensures
        ({
            let p = insert_pos(index_of_request(index), old(store)@.len() as int);
            &&& final(store)@ == old(store)@.insert(p - 1, fact@)
            &&& placeholder_free(final(store)@)
            &&& r@ == "Added "@ + topic@ + "["@ + int_rep(p) + "/"@ + int_rep(
                old(store)@.len() as int + 1,
            ) + "]."@
        }),
{
    let (position, length) = insert_at(store, index, fact);
    format_added(topic, position, length)
}

/// Deletes the entry at the position `index` denotes and reports it; when
/// the position lies past the end, replies as a read would: the empty-topic
/// marker for a topic with no entries, or how many entries there are.
pub fn learn_del(store: &mut ListStore, topic: &str, index: isize) -> (r: String)
    requires
        placeholder_free(old(store)@),
        old(store)@.len() <= isize::MAX as nat,
    ensures
        ({
            let len = old(store)@.len() as int;
            let p = resolve(index as int, len);
            if p <= len {
                &&& final(store)@ == old(store)@.remove(p - 1)
                &&& placeholder_free(final(store)@)
                &&& r@ == "Deleted "@ + topic@ + "["@ + int_rep(index as int) + "]: "@ + old(
                    store,
                )@[p - 1] + "."@
            } else {
                &&& final(store)@ == old(store)@
                &&& (len == 0 ==> r@ == topic@ + "? \u{af}\\\\(\u{b0}\u{200b}_o)/\u{af}"@)
                &&& (len > 0 ==> r@ == topic@ + " has only "@ + int_rep(len) + " entries."@)
            }
        }),
{
    match delete_at(store, index) {
        Ok(entry) => format_deleted(topic, index, entry.as_str()),
        Err(DelError::EmptyTopic) => format_empty_topic(topic),
        Err(DelError::PositionNotFound) => {
            let length = store.length();
            format_not_enough(topic, length as isize)
        },
    }
}

/// Reply for a positional read, given what the store reported: the entry
/// with its position and the topic's length when one was found; otherwise
/// the empty-topic marker when the topic has no entries at all, and how
/// many entries there are when the position merely lies past the end.
pub fn format_query_outcome(topic: &str, position: isize, length: isize, entry: Option<String>) -> (r: String)
    ensures
        ({
            match entry {
                Some(found) => r@ == topic@ + "["@ + int_rep(position as int) + "/"@ + int_rep(
                    length as int,
                ) + "]: "@ + found@,
                None => if length == 0 {
                    r@ == topic@ + "? \u{af}\\\\(\u{b0}\u{200b}_o)/\u{af}"@
                } else {
                    r@ == topic@ + " has only "@ + int_rep(length as int) + " entries."@
                },
            }
        }),
{
    match entry {
        Some(found) => format_found(topic, position, length, found.as_str()),
        None => {
            if length == 0 {
                format_empty_topic(topic)
            } else {
                format_not_enough(topic, length)
            }
        },
    }
}

/// Reads the entry at the position `index` denotes and renders it with its
/// position and the topic's length; a topic with no entries and a position
/// past the end of a non-empty topic each get their own reply.
pub fn handle_query(store: &ListStore, topic: &str, index: isize) -> (r: String)
    requires
        store@.len() <= isize::MAX as nat,
    ensures
        ({
            let len = store@.len() as int;
            let p = resolve(index as int, len);
            match entry_at(store@, index as int) {
                Some(entry) => r@ == topic@ + "["@ + int_rep(p) + "/"@ + int_rep(len) + "]: "@
                    + entry,
                None => if len == 0 {
                    r@ == topic@ + "? \u{af}\\\\(\u{b0}\u{200b}_o)/\u{af}"@
                } else {
                    r@ == topic@ + " has only "@ + int_rep(len) + " entries."@
                },
            }
        }),
{
    let (position, length, entry) = get(store, index);
    format_query_outcome(topic, position, length, entry)
}

/// Routes a parsed mutation to the positional insert or delete and replies
/// as [`learn_add`] or [`learn_del`] does.
pub fn handle_mutation_command(store: &mut ListStore, command: MutationCommand) -> (r: String)
    requires
        placeholder_free(old(store)@),
        old(store)@.len() + 1 <= isize::MAX as nat,
        command matches MutationCommand::Add { fact, .. } ==> fact@.len() != 0,
    ensures
        ({
            let len = old(store)@.len() as int;
            match command {
                MutationCommand::Add { topic, index, fact } => {
                    let p = insert_pos(index_of_request(index), len);
                    &&& final(store)@ == old(store)@.insert(p - 1, fact@)
                    &&& placeholder_free(final(store)@)
                    &&& r@ == "Added "@ + topic@ + "["@ + int_rep(p) + "/"@ + int_rep(len + 1)
                        + "]."@
                },
                MutationCommand::Delete { topic, index } => {
                    let p = resolve(index as int, len);
                    if p <= len {
                        &&& final(store)@ == old(store)@.remove(p - 1)
                        &&& placeholder_free(final(store)@)
                        &&& r@ == "Deleted "@ + topic@ + "["@ + int_rep(index as int) + "]: "@
                            + old(store)@[p - 1] + "."@
                    } else {
                        &&& final(store)@ == old(store)@
                        &&& (len == 0 ==> r@ == topic@ + "? \u{af}\\\\(\u{b0}\u{200b}_o)/\u{af}"@)
                        &&& (len > 0 ==> r@ == topic@ + " has only "@ + int_rep(len)
                            + " entries."@)
                    }
                },
            }
        }),
{
    match command {
        MutationCommand::Add { topic, index, fact } => learn_add(store, topic.as_str(), index, fact),
        MutationCommand::Delete { topic, index } => learn_del(store, topic.as_str(), index),
    }
}

} // verus!
