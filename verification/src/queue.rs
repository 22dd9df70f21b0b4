//! The application's queue, a persistent vector of the crate `im`.

use crate::data::QueueEntry;
use im::Vector;
use vstd::prelude::*;

verus! {

/// The persistent vector of the crate `im`.
#[verifier::external_type_specification]
#[verifier::external_body]
#[verifier::reject_recursive_types(A)]
pub struct ExVector<A>(im::Vector<A>);

/// The entries of a queue, front to back.
pub uninterp spec fn queue_entries(queue: Vector<QueueEntry>) -> Seq<QueueEntry>;

/// Calls `im::Vector::len`, which counts the entries.
#[verifier::external_body]
pub(crate) fn queue_len(queue: &Vector<QueueEntry>) -> (len: usize)
    ensures
        len == queue_entries(*queue).len(),
{
    queue.len()
}

/// Calls `im::Vector::get`, which gives the entry at an index, and `None` past the end.
#[verifier::external_body]
pub(crate) fn queue_get(queue: &Vector<QueueEntry>, index: usize) -> (entry: Option<&QueueEntry>)
    ensures
        entry == if index < queue_entries(*queue).len() {
            Some(&queue_entries(*queue)[index as int])
        } else {
            None
        },
{
    queue.get(index)
}

/// Collects a queue by `im::Vector`'s `FromIterator`, which pushes the entries to the back one
/// after the other.
#[verifier::external_body]
pub(crate) fn queue_collect(entries: Vec<QueueEntry>) -> (queue: Vector<QueueEntry>)
    ensures
        queue_entries(queue) == entries@,
{
    entries.into_iter().collect()
}

} // verus!
