//! The per-view incremental cache.
//!
//! Each open view owns one [`Cache`]. The dispatcher feeds it every update
//! message for that view; the externally observable state after an update
//! is fixed by the message itself (the resulting total length, line count
//! and revision), which is what makes the update path verifiable end to end.

use vstd::prelude::*;
use crate::messages::PluginUpdate;

verus! {

/// Incremental text-state summary for one document view.
///
/// The observable state is the document's total byte length, its line count,
/// and the revision they correspond to. Deltas arrive in non-decreasing
/// revision order per view; the transport guarantees this, and the cache
/// simply records the totals each update announces.
#[derive(Clone, Copy, Debug, PartialEq, Eq)]
pub struct Cache {
    /// Total length in bytes of the document at `rev`.
    pub len: usize,
    /// Total number of lines of the document at `rev`.
    pub line_count: usize,
    /// Revision number the cached state corresponds to.
    pub rev: u64,
}

/// The cache state an update message leaves behind. An update carries the
/// resulting totals outright, so the state after it is a function of the
/// message alone, independent of the state before it.
pub open spec fn applied(new_len: usize, new_line_count: usize, rev: u64) -> Cache {
    Cache { len: new_len, line_count: new_line_count, rev }
}

impl Cache {
    /// A cache for a freshly opened view, holding the totals announced in
    /// the view's buffer info.
    pub fn new(buf_size: usize, rev: u64, nb_lines: usize) -> (c: Cache)
        ensures
            c == applied(buf_size, nb_lines, rev),
    {
        Cache { len: buf_size, line_count: nb_lines, rev }
    }

    /// Consume one update message: after the call the cache corresponds
    /// exactly to the document at revision `rev`.
    ///
    /// `delta` is the edit script; it is `None` only for the degenerate
    /// edit (a pure revision bump). The totals announced by the message
    /// determine the new state, so the script itself needs no inspection.
    pub fn update(
        &mut self,
        delta: Option<&serde_json::Value>,
        new_len: usize,
        new_line_count: usize,
        rev: u64,
    )
        ensures
            *final(self) == applied(new_len, new_line_count, rev),
    {
        self.len = new_len;
        self.line_count = new_line_count;
        self.rev = rev;
    }
}

/// The cache state after consuming a whole sequence of update messages, one
/// by one in order: apply the first, then the rest.
pub open spec fn cache_after_updates(c: Cache, updates: Seq<PluginUpdate>) -> Cache
    decreases updates.len(),
{
    if updates.len() == 0 {
        c
    } else {
        let first = updates.first();
        cache_after_updates(
            applied(first.new_len, first.new_line_count, first.rev),
            updates.drop_first(),
        )
    }
}

/// A run of updates collapses: the state after consuming a non-empty
/// sequence is that of its last element alone, because every update
/// announces the resulting totals outright.
pub proof fn lemma_cache_updates_collapse(c: Cache, updates: Seq<PluginUpdate>)
    requires
        updates.len() > 0,
    ensures
        cache_after_updates(c, updates) == applied(
            updates.last().new_len,
            updates.last().new_line_count,
            updates.last().rev,
        ),
    decreases updates.len(),
{
    let first = updates.first();
    if updates.len() > 1 {
        lemma_cache_updates_collapse(
            applied(first.new_len, first.new_line_count, first.rev),
            updates.drop_first(),
        );
        assert(updates.drop_first().last() == updates.last());
    } else {
        assert(updates.drop_first().len() == 0);
        assert(cache_after_updates(
            applied(first.new_len, first.new_line_count, first.rev),
            updates.drop_first(),
        ) == applied(first.new_len, first.new_line_count, first.rev));
        assert(updates.first() == updates.last());
    }
}

/// Law: round trip. Applying a sequence of updates with strictly increasing
/// revisions to a cache, one by one, leaves the same state as applying one
/// pre-merged update that carries the final totals and revision. The cache's
/// representation supports this equivalence by the collapse lemma above.
pub proof fn lemma_update_round_trip(c: Cache, updates: Seq<PluginUpdate>, merged: PluginUpdate)
    requires
        updates.len() > 0,
        forall|i: int, j: int|
            0 <= i < j < updates.len() ==> (#[trigger] updates[i]).rev < (#[trigger] updates[j]).rev,
        merged.new_len == updates.last().new_len,
        merged.new_line_count == updates.last().new_line_count,
        merged.rev == updates.last().rev,
    ensures
        cache_after_updates(c, updates) == cache_after_updates(c, seq![merged]),
{
    lemma_cache_updates_collapse(c, updates);
    lemma_cache_updates_collapse(c, seq![merged]);
    assert(seq![merged].last() == merged);
}

} // verus!
