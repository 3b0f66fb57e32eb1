//! The TRNG controller: which register accesses each operation makes, and how
//! the controller's state moves between operations.
//!
//! The controller never touches the hardware itself. Each operation returns the
//! accesses to perform, in order; whoever owns the register block performs them.
use vstd::prelude::*;
use crate::registers::{
    Field, Reg, SAMP_MODE_VON, entropy_valid, ent_val, int_ent_val, int_ent_val_spec, is_set, prgm,
    prgm_spec, rst_def, rst_def_spec, samp_mode, samp_mode_spec,
};

verus! {

/// One step that the owner of the register block carries out.
#[derive(Clone, Copy, Debug, PartialEq, Eq, Structural)]
pub enum Action {
    /// Ask the clock controller to ungate the TRNG clock.
    EnableClock,
    /// Read-modify-write: set field `1` of register `0` to value `2`.
    Modify(Reg, Field, u32),
    /// Read register `0` and discard the value.
    Read(Reg),
}

/// Where the generator stands, as far as the controller has driven it.
#[derive(Clone, Copy, Debug, PartialEq, Eq, Structural)]
pub enum Phase {
    /// Nothing requested yet: clock gated, generator not programmed.
    Idle,
    /// Generator in run mode, producing entropy.
    Running,
    /// Generator halted in programming mode.
    Programming,
}

/// A consumer's decision after it was handed a batch of entropy.
#[derive(Clone, Copy, Debug, PartialEq, Eq, Structural)]
pub enum Continue {
    /// The consumer has enough: stop generating.
    Done,
    /// The consumer wants another batch.
    More,
}

/// What an interrupt leads to.
#[derive(Clone, Copy, Debug, PartialEq, Eq, Structural)]
pub enum Delivery<C> {
    /// A batch is valid: hand a fresh cursor to this consumer.
    Deliver(C),
    /// The entropy-valid bit is clear: nothing to deliver.
    NotReady,
    /// A batch is valid but no consumer is registered: the interrupt is dropped.
    NoConsumer,
}

/// Failures reported to callers.
#[derive(Clone, Copy, Debug, PartialEq, Eq, Structural)]
pub enum ErrorCode {
    /// The operation is not supported.
    Fail,
}

/// The abstract state of a controller.
pub struct ControllerState<C> {
    pub client: Option<C>,
    pub phase: Phase,
}

/// The accesses of a request for entropy, in order: ungate the clock, enter
/// programming mode, restore the check defaults, select Von Neumann sampling,
/// return to run mode, and prime the generator with one read of the last
/// entropy word.
pub open spec fn request_sequence() -> Seq<Action> {
    seq![
        Action::EnableClock,
        Action::Modify(Reg::Mctl, prgm_spec(), 1),
        Action::Modify(Reg::Mctl, rst_def_spec(), 1),
        Action::Modify(Reg::Mctl, samp_mode_spec(), SAMP_MODE_VON),
        Action::Modify(Reg::Mctl, prgm_spec(), 0),
        Action::Read(Reg::Ent(15)),
    ]
}

/// The accesses that follow a consumer's decision.
pub open spec fn decision_sequence(decision: Continue) -> Seq<Action> {
    match decision {
        Continue::Done => seq![Action::Modify(Reg::Mctl, prgm_spec(), 1)],
        Continue::More => seq![
            Action::Modify(Reg::IntMask, int_ent_val_spec(), 1),
            Action::Modify(Reg::IntCtrl, int_ent_val_spec(), 1),
        ],
    }
}

/// The phase that follows a consumer's decision.
pub open spec fn decision_phase(decision: Continue) -> Phase {
    match decision {
        Continue::Done => Phase::Programming,
        Continue::More => Phase::Running,
    }
}

/// The state after `client` is registered: it replaces any earlier consumer.
pub open spec fn with_client<C>(s: ControllerState<C>, client: C) -> ControllerState<C> {
    ControllerState { client: Some(client), phase: s.phase }
}

/// What an interrupt leads to, given the registered consumer and the value of MCTL.
pub open spec fn delivery_for<C>(client: Option<C>, mctl: u32) -> Delivery<C> {
    if !entropy_valid(mctl) {
        Delivery::NotReady
    } else {
        match client {
            Some(c) => Delivery::Deliver(c),
            None => Delivery::NoConsumer,
        }
    }
}

/// The TRNG controller, holding at most one registered consumer `C`.
pub struct TRNG<C> {
    client: Option<C>,
    phase: Phase,
}

impl<C: Copy> TRNG<C> {
    pub closed spec fn view(&self) -> ControllerState<C> {
        ControllerState { client: self.client, phase: self.phase }
    }

    /// A controller with no consumer, before any request.
    pub fn new() -> (t: Self)
        ensures
            t.view().client == None::<C>,
            t.view().phase == Phase::Idle,
    {
        TRNG { client: None, phase: Phase::Idle }
    }

    /// The current phase.
    pub fn phase(&self) -> (r: Phase)
        ensures
            r == self.view().phase,
    {
        self.phase
    }

    /// The registered consumer, if any.
    pub fn client(&self) -> (r: Option<C>)
        ensures
            r == self.view().client,
    {
        self.client
    }

    /// Requests entropy: returns the accesses that start the generator, and
    /// always succeeds. Valid entropy is announced later by an interrupt.
    pub fn get(&mut self) -> (r: Result<Vec<Action>, ErrorCode>)
        ensures
            r is Ok,
            r->Ok_0@ == request_sequence(),
            final(self).view().phase == Phase::Running,
            final(self).view().client == old(self).view().client,
    {
        let mut acts: Vec<Action> = Vec::new();
        acts.push(Action::EnableClock);
        acts.push(Action::Modify(Reg::Mctl, prgm(), 1));
        acts.push(Action::Modify(Reg::Mctl, rst_def(), 1));
        acts.push(Action::Modify(Reg::Mctl, samp_mode(), SAMP_MODE_VON));
        acts.push(Action::Modify(Reg::Mctl, prgm(), 0));
        acts.push(Action::Read(Reg::Ent(15)));
        self.phase = Phase::Running;
        assert(acts@ =~= request_sequence());
        Ok(acts)
    }

    /// Generation cannot be aborted once requested: always fails.
    pub fn cancel(&self) -> (r: Result<(), ErrorCode>)
        ensures
            r == Err::<(), ErrorCode>(ErrorCode::Fail),
    {
        Err(ErrorCode::Fail)
    }

    /// Registers `client`, replacing any earlier consumer.
    pub fn set_client(&mut self, client: C)
        ensures
            final(self).view() == with_client(old(self).view(), client),
    {
        self.client = Some(client);
    }

    /// Reacts to the TRNG interrupt, given the value read from MCTL: says
    /// whether a batch is to be handed to the registered consumer.
    pub fn interrupt_handler(&self, mctl: u32) -> (d: Delivery<C>)
        ensures
            d == delivery_for(self.view().client, mctl),
    {
        if !is_set(mctl, ent_val()) {
            Delivery::NotReady
        } else {
            match self.client {
                Some(c) => Delivery::Deliver(c),
                None => Delivery::NoConsumer,
            }
        }
    }

    /// Applies the consumer's decision after a delivery: returns the accesses
    /// that halt the generator (`Done`) or re-arm the entropy-valid interrupt
    /// (`More`).
    pub fn entropy_consumed(&mut self, decision: Continue) -> (r: Vec<Action>)
        ensures
            r@ == decision_sequence(decision),
            final(self).view().phase == decision_phase(decision),
            final(self).view().client == old(self).view().client,
    {
        let mut acts: Vec<Action> = Vec::new();
        match decision {
            Continue::Done => {
                acts.push(Action::Modify(Reg::Mctl, prgm(), 1));
                self.phase = Phase::Programming;
            },
            Continue::More => {
                acts.push(Action::Modify(Reg::IntMask, int_ent_val(), 1));
                acts.push(Action::Modify(Reg::IntCtrl, int_ent_val(), 1));
                self.phase = Phase::Running;
            },
        }
        assert(acts@ =~= decision_sequence(decision));
        acts
    }
}

/// The accesses of `n` requests for entropy, one after the other.
pub open spec fn requests_log(n: nat) -> Seq<Action>
    decreases n,
{
    if n == 0 {
        Seq::empty()
    } else {
        requests_log((n - 1) as nat) + request_sequence()
    }
}

/// A write of MCTL.PRGM with value `v`.
pub open spec fn prgm_write(v: u32) -> Action {
    Action::Modify(Reg::Mctl, prgm_spec(), v)
}

/// A write of the reset-default or sample-mode field of MCTL.
pub open spec fn configures(a: Action) -> bool {
    match a {
        Action::Modify(r, f, _) => r == Reg::Mctl && (f == rst_def_spec() || f == samp_mode_spec()),
        _ => false,
    }
}

/// In the accesses `log`, the write at `i` comes after a write of PRGM = 1
/// with no write of PRGM = 0 in between, and a write of PRGM = 0 follows it.
pub open spec fn guarded_by_program_mode(log: Seq<Action>, i: int) -> bool {
    &&& exists|p: int|
        0 <= p < i && log[p] == prgm_write(1) && forall|k: int|
            p < k < i ==> #[trigger] log[k] != prgm_write(0)
    &&& exists|c: int| i < c < log.len() && #[trigger] log[c] == prgm_write(0)
}

/// Over any number of requests for entropy, every write of RST_DEF or
/// SAMP_MODE happens in programming mode: PRGM = 1 was written before it and
/// not cleared since, and PRGM = 0 is written after it.
pub proof fn lemma_request_order(n: nat)
    ensures
        forall|i: int|
            0 <= i < requests_log(n).len() && configures(#[trigger] requests_log(n)[i])
                ==> guarded_by_program_mode(requests_log(n), i),
    decreases n,
{
    if n > 0 {
        let m = (n - 1) as nat;
        lemma_request_order(m);
        let prev = requests_log(m);
        let req = request_sequence();
        let log = requests_log(n);
        let b = prev.len() as int;
        assert(log == prev + req);
        assert forall|i: int| 0 <= i < log.len() && configures(#[trigger] log[i]) implies guarded_by_program_mode(log, i) by {
            if i < b {
                assert(log[i] == prev[i]);
                assert(guarded_by_program_mode(prev, i));
                let p = choose|p: int|
                    0 <= p < i && prev[p] == prgm_write(1) && forall|k: int|
                        p < k < i ==> #[trigger] prev[k] != prgm_write(0);
                let c = choose|c: int| i < c < prev.len() && #[trigger] prev[c] == prgm_write(0);
                assert(log[p] == prev[p]);
                assert(log[c] == prev[c]);
                assert forall|k: int| p < k < i implies #[trigger] log[k] != prgm_write(0) by {
                    assert(log[k] == prev[k]);
                }
            } else {
                let j = i - b;
                assert(log[i] == req[j]);
                assert(j == 2 || j == 3);
                assert(log[b + 1] == req[1]);
                assert(log[b + 4] == req[4]);
                assert forall|k: int| b + 1 < k < i implies #[trigger] log[k] != prgm_write(0) by {
                    assert(log[k] == req[k - b]);
                }
            }
        }
    }
}

/// Registering consumer `b` after consumer `a` discards `a`: an interrupt
/// with a valid batch is delivered to `b`.
pub proof fn lemma_last_consumer_wins<C>(s: ControllerState<C>, a: C, b: C, mctl: u32)
    requires
        entropy_valid(mctl),
    ensures
        delivery_for(with_client(with_client(s, a), b).client, mctl) == Delivery::Deliver(b),
{
}

/// While MCTL does not report valid entropy, an interrupt delivers nothing,
/// whatever consumer is registered.
pub proof fn lemma_no_delivery_without_entropy<C>(s: ControllerState<C>, mctl: u32)
    requires
        !entropy_valid(mctl),
    ensures
        delivery_for(s.client, mctl) == Delivery::<C>::NotReady,
{
}

} // verus!
