//! The cursor handed to a consumer over the sixteen entropy words of a batch.
use vstd::prelude::*;
use crate::registers::{ENT_COUNT, entropy_valid, ent_val, is_set};

verus! {

/// Position of a cursor after `k` words were taken from position `start`.
pub open spec fn position_after(start: nat, k: nat) -> nat
    decreases k,
{
    if k == 0 {
        start
    } else {
        ((position_after(start, (k - 1) as nat) + 1) % 16) as nat
    }
}

/// A cursor over the entropy words. It yields word indices 0 to 15 in turn
/// while the batch is valid, and wraps to 0 after index 15.
pub struct EntropyCursor {
    idx: usize,
}

impl EntropyCursor {
    /// The index of the next word to read.
    pub closed spec fn position(&self) -> nat {
        self.idx as nat
    }

    pub closed spec fn wf(&self) -> bool {
        self.idx < ENT_COUNT
    }

    /// A fresh cursor at word 0.
    pub fn new() -> (c: Self)
        ensures
            c.wf(),
            c.position() == 0,
    {
        EntropyCursor { idx: 0 }
    }

    /// Given the value read from MCTL, returns the index of the entropy word
    /// to read next and advances, or `None` when the batch is not valid.
    pub fn next_index(&mut self, mctl: u32) -> (r: Option<usize>)
        requires
            old(self).wf(),
        ensures
            final(self).wf(),
            final(self).position() < ENT_COUNT,
            r matches Some(i) ==> i < ENT_COUNT,
            !entropy_valid(mctl) ==> r is None && final(self).position() == old(self).position(),
            entropy_valid(mctl) ==> r == Some(old(self).position() as usize)
                && final(self).position() == (old(self).position() + 1) % 16,
    {
        if !is_set(mctl, ent_val()) {
            return None;
        }
        let i = self.idx;
        if self.idx < 15 {
            self.idx = self.idx + 1;
        } else {
            self.idx = 0;
        }
        Some(i)
    }
}

/// Taking `k` words from a fresh cursor leaves it at `k mod 16`: at most 16
/// words are read before the cursor returns to word 0, and the word after the
/// sixteenth is word 0 again.
pub proof fn lemma_cursor_wraps(k: nat)
    ensures
        position_after(0, k) == k % 16,
        position_after(0, k) < 16,
    decreases k,
{
    if k > 0 {
        lemma_cursor_wraps((k - 1) as nat);
    }
}

} // verus!
