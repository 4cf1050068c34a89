//! Per-topic ordered lists of short text entries ("facts"), addressed by a
//! 1-based, wrap-around position index: negative indices count back from the
//! end of the list.
//!
//! The core is the indexing-and-mutation layer: [`index::wrap_index`]
//! normalizes an arbitrary signed index into a valid position, and the
//! positional operations perform reads, inserts and deletes on a store whose
//! native primitives only offer length, append, get-by-offset,
//! insert-adjacent-to-a-value and remove-by-value. Positional insert and
//! delete anchor the target slot with a reserved placeholder value; the
//! sequence of primitive steps is proved to realize the positional edit.
//! [`service`] routes parsed commands and queries to the operations and
//! renders their outcomes with [`fmt`] as display text.

pub mod fmt;
pub mod index;
pub mod ops;
pub mod service;
pub mod store;
