//! The status of one endpoint, and how each reachability sample moves it.

use crate::clock::Moment;
use std::time::Instant;
use time::OffsetDateTime;
use vstd::prelude::*;

verus! {

/// The mathematical value of a [`State`].
pub struct StatusView {
    /// `None` until the first sample, then the latest sample.
    pub is_online: Option<bool>,
    /// Wall-clock time at which the current state began.
    pub since: Option<OffsetDateTime>,
    /// Monotonic anchor of the time at which the current state began.
    pub elapsed_reference: Option<Instant>,
    /// Number of offline to online transitions seen so far.
    pub restarts: nat,
}

/// The status before any sample.
pub open spec fn fresh() -> StatusView {
    StatusView { is_online: None, since: None, elapsed_reference: None, restarts: 0 }
}

/// One more restart, held at the largest value a `u32` counter can show.
pub open spec fn bump(n: nat) -> nat {
    if n < u32::MAX {
        n + 1
    } else {
        n
    }
}

/// The status after `sample`, taken at `at`, is recorded on `s`.
///
/// A sample equal to the current state only confirms it. Any other sample
/// (the first one included) starts a new state at `at`, and an offline to
/// online transition counts one restart.
pub open spec fn step(s: StatusView, sample: bool, at: Moment) -> StatusView {
    if s.is_online == Some(sample) {
        s
    } else {
        StatusView {
            is_online: Some(sample),
            since: Some(at.wall),
            elapsed_reference: Some(at.mono),
            restarts: if s.is_online == Some(false) {
                bump(s.restarts)
            } else {
                s.restarts
            },
        }
    }
}

/// The status after the samples of `h` are recorded in order on a fresh state.
pub open spec fn replay(h: Seq<(bool, Moment)>) -> StatusView
    decreases h.len(),
{
    if h.len() == 0 {
        fresh()
    } else {
        step(replay(h.drop_last()), h.last().0, h.last().1)
    }
}

/// The sample values of a history, without their moments.
pub open spec fn samples_of(h: Seq<(bool, Moment)>) -> Seq<bool> {
    h.map_values(|p: (bool, Moment)| p.0)
}

/// Number of adjacent `false`, `true` pairs in `samples`.
pub open spec fn count_rises(samples: Seq<bool>) -> nat
    decreases samples.len(),
{
    if samples.len() < 2 {
        0
    } else {
        count_rises(samples.drop_last()) + if !samples[samples.len() - 2]
            && samples[samples.len() - 1] {
            1nat
        } else {
            0nat
        }
    }
}

/// Every status reached by recording whole samples on a fresh state is
/// consistent: its state and both of its times were set together, and it
/// never mixes one sample's outcome with another's.
pub proof fn lemma_replay_wf(h: Seq<(bool, Moment)>)
    ensures
        replay(h).wf(),
    decreases h.len(),
{
    if h.len() > 0 {
        lemma_replay_wf(h.drop_last());
    }
}

/// After the first sample of any sequence, the state is that sample, it began
/// at the sample's moment, and no restart has been counted.
pub proof fn lemma_first_sample(h: Seq<(bool, Moment)>)
    requires
        h.len() >= 1,
    ensures
        replay(h.take(1)).is_online == Some(h[0].0),
        replay(h.take(1)).since == Some(h[0].1.wall),
        replay(h.take(1)).elapsed_reference == Some(h[0].1.mono),
        replay(h.take(1)).restarts == 0,
{
    let first = h.take(1);
    assert(first.drop_last() =~= Seq::<(bool, Moment)>::empty());
    assert(first.len() == 1);
    assert(first.last() == h[0]);
    assert(replay(first.drop_last()) == fresh());
    assert(replay(first) == step(fresh(), h[0].0, h[0].1));
}

/// After any sequence of samples, the state is the latest sample, and the
/// restart counter equals the number of offline to online transitions in the
/// sequence, held at `u32::MAX` where that number is larger.
pub proof fn lemma_restarts_count_rises(h: Seq<(bool, Moment)>)
    ensures
        replay(h).restarts == (if count_rises(samples_of(h)) <= u32::MAX {
            count_rises(samples_of(h))
        } else {
            u32::MAX as nat
        }),
        h.len() > 0 ==> replay(h).is_online == Some(h.last().0),
    decreases h.len(),
{
    if h.len() > 0 {
        let prev = h.drop_last();
        assert(samples_of(prev) =~= samples_of(h).drop_last());
        if h.len() >= 2 {
            assert(prev.last() == h[h.len() - 2]);
        }
        lemma_restarts_count_rises(prev);
    }
}

/// Index at which the final run of equal samples begins.
pub open spec fn run_start(samples: Seq<bool>) -> int
    decreases samples.len(),
{
    if samples.len() < 2 {
        0
    } else if samples[samples.len() - 2] == samples[samples.len() - 1] {
        run_start(samples.drop_last())
    } else {
        samples.len() - 1
    }
}

/// After any non-empty sequence of samples, the current state began at the
/// first sample of the final run of equal samples: repeats never move it.
pub proof fn lemma_since_is_run_start(h: Seq<(bool, Moment)>)
    requires
        h.len() > 0,
    ensures
        0 <= run_start(samples_of(h)) < h.len(),
        replay(h).since == Some(h[run_start(samples_of(h))].1.wall),
        replay(h).elapsed_reference == Some(h[run_start(samples_of(h))].1.mono),
        replay(h).is_online == Some(h.last().0),
    decreases h.len(),
{
    let prev = h.drop_last();
    assert(samples_of(prev) =~= samples_of(h).drop_last());
    if h.len() >= 2 {
        assert(prev.last() == h[h.len() - 2]);
        lemma_since_is_run_start(prev);
    } else {
        assert(prev =~= Seq::<(bool, Moment)>::empty());
    }
}

/// Recording more samples never lowers the restart counter, and once a sample
/// has been recorded the state stays known.
pub proof fn lemma_restarts_never_decrease(h: Seq<(bool, Moment)>, more: Seq<(bool, Moment)>)
    ensures
        replay(h).restarts <= replay(h + more).restarts,
        replay(h).is_online is Some ==> replay(h + more).is_online is Some,
    decreases more.len(),
{
    if more.len() > 0 {
        let shorter = more.drop_last();
        assert((h + more).drop_last() =~= h + shorter);
        lemma_restarts_never_decrease(h, shorter);
    } else {
        assert(h + more =~= h);
    }
}

/// A sample equal to the recorded state moves neither the start of the state
/// nor its monotonic anchor; any other sample sets both to its own moment.
pub proof fn lemma_since_moves_on_change(s: StatusView, sample: bool, at: Moment)
    ensures
        s.is_online == Some(sample) ==> step(s, sample, at).since == s.since
            && step(s, sample, at).elapsed_reference == s.elapsed_reference,
        s.is_online != Some(sample) ==> step(s, sample, at).since == Some(at.wall)
            && step(s, sample, at).elapsed_reference == Some(at.mono),
{
}

impl StatusView {
    /// Either no sample has come yet and no time is set, or both times are set
    /// for the current state.
    pub open spec fn wf(self) -> bool {
        &&& (self.is_online is None <==> self.since is None)
        &&& (self.is_online is None <==> self.elapsed_reference is None)
        &&& (self.is_online is None ==> self.restarts == 0)
        &&& self.restarts <= u32::MAX
    }
}

/// The status record of one endpoint.
#[derive(Clone, Copy)]
pub struct State {
    is_online: Option<bool>,
    since: Option<OffsetDateTime>,
    elapsed_reference: Option<Instant>,
    restarts: u32,
}

impl View for State {
    type V = StatusView;

    closed spec fn view(&self) -> StatusView {
        StatusView {
            is_online: self.is_online,
            since: self.since,
            elapsed_reference: self.elapsed_reference,
            restarts: self.restarts as nat,
        }
    }
}

impl State {
    /// A state that has seen no sample.
    pub fn new() -> (r: State)
        ensures
            r@ == fresh(),
    {
        State { is_online: None, since: None, elapsed_reference: None, restarts: 0 }
    }

    /// Every state is consistent: its sample and both of its times are set
    /// together.
    #[verifier::type_invariant]
    spec fn consistent(&self) -> bool {
        self@.wf()
    }

    /// Records `is_online`, sampled at `at`.
    pub fn set_is_online_at(&mut self, is_online: bool, at: Moment)
        ensures
            final(self)@ == step(old(self)@, is_online, at),
    {
        if self.is_online != Some(is_online) {
            let restarts = if self.is_online == Some(false) {
                self.restarts.saturating_add(1)
            } else {
                self.restarts
            };
            *self = State {
                is_online: Some(is_online),
                since: Some(at.wall),
                elapsed_reference: Some(at.mono),
                restarts,
            };
        }
    }

    /// Records `is_online`, sampled now.
    pub fn set_is_online(&mut self, is_online: bool)
        ensures
            exists|at: Moment| final(self)@ == #[trigger] step(old(self)@, is_online, at),
    {
        let at = Moment::now();
        self.set_is_online_at(is_online, at);
    }

    /// `None` before the first sample, then the latest sample.
    pub fn is_online(&self) -> (r: Option<bool>)
        ensures
            r == self@.is_online,
    {
        self.is_online
    }

    /// Wall-clock time at which the current state began.
    pub fn since(&self) -> (r: Option<OffsetDateTime>)
        ensures
            r == self@.since,
    {
        self.since
    }

    /// Monotonic anchor of the time at which the current state began.
    pub fn elapsed_reference(&self) -> (r: Option<Instant>)
        ensures
            r == self@.elapsed_reference,
    {
        self.elapsed_reference
    }

    /// When the endpoint came online, while it is online.
    pub fn last_online(&self) -> (r: Option<OffsetDateTime>)
        ensures
            r == (if self@.is_online == Some(true) { self@.since } else { None }),
    {
        if self.is_online == Some(true) {
            self.since
        } else {
            None
        }
    }

    /// Monotonic anchor of when the endpoint came online, while it is online.
    pub fn elapsed_online(&self) -> (r: Option<Instant>)
        ensures
            r == (if self@.is_online == Some(true) { self@.elapsed_reference } else { None }),
    {
        if self.is_online == Some(true) {
            self.elapsed_reference
        } else {
            None
        }
    }

    /// When the endpoint went offline, while it is offline.
    pub fn last_offline(&self) -> (r: Option<OffsetDateTime>)
        ensures
            r == (if self@.is_online == Some(false) { self@.since } else { None }),
    {
        if self.is_online == Some(false) {
            self.since
        } else {
            None
        }
    }

    /// Monotonic anchor of when the endpoint went offline, while it is offline.
    pub fn elapsed_offline(&self) -> (r: Option<Instant>)
        ensures
            r == (if self@.is_online == Some(false) { self@.elapsed_reference } else { None }),
    {
        if self.is_online == Some(false) {
            self.elapsed_reference
        } else {
            None
        }
    }

    /// Number of offline to online transitions seen so far.
    pub fn restarts(&self) -> (r: u32)
        ensures
            r as nat == self@.restarts,
    {
        self.restarts
    }
}

} // verus!
