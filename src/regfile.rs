//! A register block held in memory: the 64 words of the TRNG block, on which
//! the controller's accesses can be carried out and observed.
use vstd::prelude::*;
use crate::controller::{Action, Continue, decision_sequence, request_sequence};
use crate::cursor::EntropyCursor;
use crate::registers::{
    BLOCK_WORDS, Reg, SAMP_MODE_VON, entropy_valid, field_of, insert_field, inserted,
    int_ent_val_spec, lemma_field_constants, lemma_field_kept, lemma_field_write, prgm_spec,
    rst_def_spec, samp_mode_spec,
};

verus! {

/// Index of the word that holds register `r`.
pub open spec fn slot(r: Reg) -> int {
    (r.offset_spec() / 4) as int
}

/// An access can be carried out: its register exists and its field fits.
pub open spec fn action_wf(a: Action) -> bool {
    match a {
        Action::EnableClock => true,
        Action::Modify(r, f, _) => r.wf() && f.wf(),
        Action::Read(r) => r.wf(),
    }
}

/// The block's words after access `a`. Enabling the clock and reads leave
/// the words as they were.
pub open spec fn apply(words: Seq<u32>, a: Action) -> Seq<u32> {
    match a {
        Action::Modify(r, f, v) => words.update(slot(r), inserted(words[slot(r)], f, v)),
        _ => words,
    }
}

/// The block's words after the accesses `acts`, in order.
pub open spec fn apply_all(words: Seq<u32>, acts: Seq<Action>) -> Seq<u32>
    decreases acts.len(),
{
    if acts.len() == 0 {
        words
    } else {
        apply(apply_all(words, acts.drop_last()), acts.last())
    }
}

proof fn lemma_apply_prefix(words: Seq<u32>, acts: Seq<Action>, k: int)
    requires
        0 < k <= acts.len(),
    ensures
        apply_all(words, acts.take(k)) == apply(apply_all(words, acts.take(k - 1)), acts[k - 1]),
{
    assert(acts.take(k).drop_last() =~= acts.take(k - 1));
}

proof fn lemma_apply_whole(words: Seq<u32>, acts: Seq<Action>)
    ensures
        apply_all(words, acts.take(acts.len() as int)) == apply_all(words, acts),
        apply_all(words, acts.take(0)) == words,
{
    assert(acts.take(acts.len() as int) =~= acts);
    assert(acts.take(0) =~= Seq::<Action>::empty());
}

/// The accesses of a request for entropy leave MCTL in run mode (PRGM = 0),
/// with Von Neumann sampling selected and the reset-default bit written, and
/// change no other register.
pub proof fn lemma_request_effect(words: Seq<u32>)
    requires
        words.len() == BLOCK_WORDS,
    ensures
        ({
            let after = apply_all(words, request_sequence());
            &&& after.len() == BLOCK_WORDS
            &&& field_of(after[0], prgm_spec()) == 0
            &&& field_of(after[0], rst_def_spec()) == 1
            &&& field_of(after[0], samp_mode_spec()) == SAMP_MODE_VON
            &&& forall|i: int| 0 < i < BLOCK_WORDS ==> #[trigger] after[i] == words[i]
        }),
{
    let q = request_sequence();
    let (p, r, s) = (prgm_spec(), rst_def_spec(), samp_mode_spec());
    lemma_field_constants();
    lemma_apply_whole(words, q);
    lemma_apply_prefix(words, q, 1);
    lemma_apply_prefix(words, q, 2);
    lemma_apply_prefix(words, q, 3);
    lemma_apply_prefix(words, q, 4);
    lemma_apply_prefix(words, q, 5);
    lemma_apply_prefix(words, q, 6);
    let w1 = apply_all(words, q.take(1));
    let w2 = apply_all(words, q.take(2));
    let w3 = apply_all(words, q.take(3));
    let w4 = apply_all(words, q.take(4));
    lemma_field_write(w1[0], p, 1);
    lemma_field_kept(w1[0], p, 1, r);
    lemma_field_write(w2[0], r, 1);
    lemma_field_kept(w2[0], r, 1, p);
    lemma_field_write(w3[0], s, SAMP_MODE_VON);
    lemma_field_kept(w3[0], s, SAMP_MODE_VON, p);
    lemma_field_kept(w3[0], s, SAMP_MODE_VON, r);
    lemma_field_write(w4[0], p, 0);
    lemma_field_kept(w4[0], p, 0, r);
    lemma_field_kept(w4[0], p, 0, s);
}

/// The accesses that follow a `Done` decision put MCTL back in programming
/// mode; those that follow `More` set the entropy-valid bit in the interrupt
/// mask and interrupt control registers.
pub proof fn lemma_decision_effect(words: Seq<u32>, decision: Continue)
    requires
        words.len() == BLOCK_WORDS,
    ensures
        ({
            let after = apply_all(words, decision_sequence(decision));
            match decision {
                Continue::Done => field_of(after[slot(Reg::Mctl)], prgm_spec()) == 1,
                Continue::More => field_of(after[slot(Reg::IntMask)], int_ent_val_spec()) == 1
                    && field_of(after[slot(Reg::IntCtrl)], int_ent_val_spec()) == 1,
            }
        }),
{
    let q = decision_sequence(decision);
    let (p, e) = (prgm_spec(), int_ent_val_spec());
    lemma_field_constants();
    lemma_apply_whole(words, q);
    lemma_apply_prefix(words, q, 1);
    let w1 = apply_all(words, q.take(1));
    match decision {
        Continue::Done => {
            lemma_field_write(words[0], p, 1);
        },
        Continue::More => {
            lemma_apply_prefix(words, q, 2);
            lemma_field_write(words[46], e, 1);
            lemma_field_write(w1[45], e, 1);
        },
    }
}

/// The TRNG register block as 64 words of memory.
pub struct RegisterFile {
    words: Vec<u32>,
}

impl RegisterFile {
    pub closed spec fn view(&self) -> Seq<u32> {
        self.words@
    }

    pub open spec fn wf(&self) -> bool {
        self.view().len() == BLOCK_WORDS
    }

    /// A block with every register at zero.
    pub fn new() -> (r: Self)
        ensures
            r.wf(),
            forall|i: int| 0 <= i < BLOCK_WORDS ==> #[trigger] r.view()[i] == 0,
    {
        let mut words: Vec<u32> = Vec::new();
        let mut i: usize = 0;
        while i < BLOCK_WORDS
            invariant
                i <= BLOCK_WORDS,
                words@.len() == i,
                forall|j: int| 0 <= j < i ==> #[trigger] words@[j] == 0,
            decreases BLOCK_WORDS - i,
        {
            words.push(0);
            i = i + 1;
        }
        RegisterFile { words }
    }

    /// The value of register `reg`.
    pub fn read(&self, reg: Reg) -> (v: u32)
        requires
            self.wf(),
            reg.wf(),
        ensures
            v == self.view()[slot(reg)],
    {
        self.words[reg.offset() / 4]
    }

    /// Stores `value` in register `reg` as the device would, with no field
    /// logic: this is how a batch of entropy or a status bit appears.
    pub fn store(&mut self, reg: Reg, value: u32)
        requires
            old(self).wf(),
            reg.wf(),
        ensures
            final(self).view() == old(self).view().update(slot(reg), value),
    {
        let i = reg.offset() / 4;
        self.words.set(i, value);
    }

    /// Carries out access `a`: returns the value read, for a read.
    pub fn perform(&mut self, a: Action) -> (r: Option<u32>)
        requires
            old(self).wf(),
            action_wf(a),
        ensures
            final(self).view() == apply(old(self).view(), a),
            match a {
                Action::Read(reg) => r == Some(old(self).view()[slot(reg)]),
                _ => r is None,
            },
    {
        match a {
            Action::EnableClock => None,
            Action::Modify(reg, f, v) => {
                let i = reg.offset() / 4;
                let w = insert_field(self.words[i], f, v);
                self.words.set(i, w);
                None
            },
            Action::Read(reg) => Some(self.read(reg)),
        }
    }

    /// Carries out the accesses `acts` in order.
    pub fn perform_all(&mut self, acts: &Vec<Action>)
        requires
            old(self).wf(),
            forall|i: int| 0 <= i < acts@.len() ==> action_wf(#[trigger] acts@[i]),
        ensures
            final(self).wf(),
            final(self).view() == apply_all(old(self).view(), acts@),
    {
        let ghost start = self.view();
        let mut i: usize = 0;
        while i < acts.len()
            invariant
                i <= acts@.len(),
                self.wf(),
                forall|k: int| 0 <= k < acts@.len() ==> action_wf(#[trigger] acts@[k]),
                self.view() == apply_all(start, acts@.take(i as int)),
            decreases acts@.len() - i,
        {
            let a = acts[i];
            self.perform(a);
            proof {
                let t = acts@.take(i as int + 1);
                assert(t.drop_last() =~= acts@.take(i as int));
                assert(t.last() == a);
            }
            i = i + 1;
        }
        assert(acts@.take(acts@.len() as int) =~= acts@);
    }

    /// Reads the next entropy word through `cursor`: `None` when MCTL does
    /// not report a valid batch.
    pub fn next_entropy(&self, cursor: &mut EntropyCursor) -> (r: Option<u32>)
        requires
            self.wf(),
            old(cursor).wf(),
        ensures
            final(cursor).wf(),
            !entropy_valid(self.view()[slot(Reg::Mctl)]) ==> r is None
                && final(cursor).position() == old(cursor).position(),
            entropy_valid(self.view()[slot(Reg::Mctl)]) ==> r == Some(
                self.view()[slot(Reg::Ent(old(cursor).position() as usize))],
            ) && final(cursor).position() == (old(cursor).position() + 1) % 16,
    {
        let mctl = self.read(Reg::Mctl);
        match cursor.next_index(mctl) {
            Some(i) => Some(self.read(Reg::Ent(i))),
            None => None,
        }
    }
}

} // verus!
