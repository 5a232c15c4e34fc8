//! Pending-event latch: a single-slot buffer with last-write-wins replacement
//! and take-once reads.
//!
//! The latch holds at most one not-yet-delivered activation URL. A write
//! unconditionally replaces any unread value (only the most recent activation
//! matters); a take returns the current value and clears the slot, so no value
//! is ever delivered twice. Callers serialise access with a mutual-exclusion
//! guard around the store; each operation below is one atomic step under that
//! guard.

use vstd::prelude::*;

verus! {

/// Single-slot store for the last deep-link URL, so the frontend can fetch it
/// after it becomes ready.
pub struct DeepLinkStore {
    pending: Option<String>,
}

impl View for DeepLinkStore {
    type V = Option<Seq<char>>;

    closed spec fn view(&self) -> Option<Seq<char>> {
        match self.pending {
            Some(s) => Some(s@),
            None => None,
        }
    }
}

/// The latch state after a write: the new value, whatever was there before.
pub open spec fn latch_after_write(state: Option<Seq<char>>, value: Seq<char>) -> Option<Seq<char>> {
    Some(value)
}

/// What a take returns: exactly the current contents.
pub open spec fn latch_taken(state: Option<Seq<char>>) -> Option<Seq<char>> {
    state
}

/// The latch state after a take: always empty.
pub open spec fn latch_after_take(state: Option<Seq<char>>) -> Option<Seq<char>> {
    None
}

impl DeepLinkStore {
    /// A fresh store holds nothing.
    pub fn new() -> (store: DeepLinkStore)
        ensures
            store@ is None,
    {
        DeepLinkStore { pending: None }
    }

    /// Buffer an activation URL, replacing any unread one (last-write-wins).
    pub fn write(&mut self, value: String)
        ensures
            final(self)@ == latch_after_write(old(self)@, value@),
    {
        self.pending = Some(value);
    }

    /// Return the pending URL, if any, and clear the slot.
    pub fn take(&mut self) -> (taken: Option<String>)
        ensures
            taken.deep_view() == latch_taken(old(self)@),
            final(self)@ == latch_after_take(old(self)@),
    {
        self.pending.take()
    }
}

/// Pull-style query for the frontend: hand over the pending activation URL,
/// if any, clearing it so a repeat query comes back empty.
pub fn take_pending_deep_link(store: &mut DeepLinkStore) -> (taken: Option<String>)
    ensures
        taken.deep_view() == latch_taken(old(store)@),
        final(store)@ == latch_after_take(old(store)@),
{
    store.take()
}

/// Last-write-wins: after two writes in order, a take yields the second value
/// and a further take yields nothing.
pub proof fn lemma_latch_last_write_wins(
    state: Option<Seq<char>>,
    first: Seq<char>,
    second: Seq<char>,
)
    ensures
        ({
            let written = latch_after_write(latch_after_write(state, first), second);
            &&& latch_taken(written) == Some(second)
            &&& latch_taken(latch_after_take(written)) is None
        }),
{
}

/// Take-once: after a single write, of two successive takes (in whichever
/// order the exclusion guard serialises them) the first returns the written
/// value and the second returns nothing; exactly one observes the value.
pub proof fn lemma_latch_take_once(state: Option<Seq<char>>, value: Seq<char>)
    ensures
        ({
            let written = latch_after_write(state, value);
            &&& latch_taken(written) == Some(value)
            &&& latch_taken(latch_after_take(written)) is None
        }),
{
}

/// No lost activation: a take that follows a write (with no write in between)
/// observes the written value; the latch never silently drops an unread value.
pub proof fn lemma_latch_no_lost_activation(state: Option<Seq<char>>, value: Seq<char>)
    ensures
        latch_taken(latch_after_write(state, value)) == Some(value),
{
}

} // verus!
