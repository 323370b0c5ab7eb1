//! The per-tick state machine over the coarse battery state: which
//! announcement to make and what to do with the low-battery warning.
use vstd::prelude::*;
use crate::bat::{aggregate_level, coarse_state, BatState, Bats};

verus! {

/// A transient announcement of a change of coarse state.
#[derive(Debug, PartialEq, Eq, Structural, Clone, Copy)]
pub enum Announce {
    Charging,
    Discharging,
}

/// What to do with the persistent low-battery warning.
#[derive(Debug, PartialEq, Eq, Structural, Clone, Copy)]
pub enum LowAction {
    Nothing,
    Show,
    Close,
}

/// The actions one tick asks for.
#[derive(Debug, PartialEq, Eq, Structural, Clone, Copy)]
pub struct Tick {
    pub announce: Option<Announce>,
    pub low: LowAction,
}

/// The state kept across ticks: the last known coarse state, and whether the
/// low-battery warning is showing.
#[derive(Debug, PartialEq, Eq, Structural, Clone, Copy)]
pub struct Monitor {
    pub previous: BatState,
    pub low_shown: bool,
}

/// The warning is never showing while the stored state is Charging.
pub open spec fn monitor_wf(m: Monitor) -> bool {
    m.low_shown ==> m.previous != BatState::Charging
}

/// The low-battery policy: a level at or below the threshold is low.
pub open spec fn low_level(level: int, low_pct: int) -> bool {
    level <= low_pct
}

/// An Unknown sample keeps the stored state; any other sample replaces it.
pub open spec fn next_state(previous: BatState, current: BatState) -> BatState {
    if current == BatState::Unknown {
        previous
    } else {
        current
    }
}

/// The announcement owed when a known sample differs from the stored state.
pub open spec fn announce_of(previous: BatState, current: BatState) -> Option<Announce> {
    if current == BatState::Charging && previous != BatState::Charging {
        Some(Announce::Charging)
    } else if current == BatState::Discharging && previous != BatState::Discharging {
        Some(Announce::Discharging)
    } else {
        None
    }
}

/// One tick: the state after it and the actions it asks for.
pub open spec fn step(m: Monitor, current: BatState, level: int, low_pct: int) -> (Monitor, Tick) {
    let next = next_state(m.previous, current);
    let low = if next == BatState::Charging {
        if m.low_shown {
            LowAction::Close
        } else {
            LowAction::Nothing
        }
    } else if low_level(level, low_pct) && !m.low_shown {
        LowAction::Show
    } else {
        LowAction::Nothing
    };
    let shown = next != BatState::Charging && (m.low_shown || low_level(level, low_pct));
    (Monitor { previous: next, low_shown: shown }, Tick { announce: announce_of(m.previous, current), low })
}

/// The stored state after a run of samples.
pub open spec fn previous_after(init: BatState, samples: Seq<BatState>) -> BatState
    decreases samples.len(),
{
    if samples.len() == 0 {
        init
    } else {
        next_state(previous_after(init, samples.drop_last()), samples.last())
    }
}

/// The number of announcements made over a run of samples.
pub open spec fn announcements(init: BatState, samples: Seq<BatState>) -> nat
    decreases samples.len(),
{
    if samples.len() == 0 {
        0
    } else {
        let before = previous_after(init, samples.drop_last());
        announcements(init, samples.drop_last()) + if announce_of(before, samples.last()) is Some {
            1nat
        } else {
            0nat
        }
    }
}

/// Whether a level is low under the threshold (inclusive: a level equal to
/// the threshold is low).
pub fn is_low(level: usize, low_pct: usize) -> (r: bool)
    ensures
        r == low_level(level as int, low_pct as int),
{
    level <= low_pct
}

impl Monitor {
    /// The state machine after the first sample: nothing is showing yet.
    pub fn new(initial: BatState) -> (r: Monitor)
        ensures
            r.previous == initial,
            !r.low_shown,
            monitor_wf(r),
    {
        Monitor { previous: initial, low_shown: false }
    }

    /// Handles one sample: updates the stored state per the transition table,
    /// then applies the low-battery rule to the updated state.
    pub fn once(&mut self, current: BatState, level: usize, low_pct: usize) -> (r: Tick)
        ensures
            (*final(self), r) == step(*old(self), current, level as int, low_pct as int),
            monitor_wf(*final(self)),
    {
        let announce = if current == BatState::Charging && self.previous != BatState::Charging {
            Some(Announce::Charging)
        } else if current == BatState::Discharging && self.previous != BatState::Discharging {
            Some(Announce::Discharging)
        } else {
            None
        };
        if current != BatState::Unknown {
            self.previous = current;
        }
        let low_now = is_low(level, low_pct);
        let low = if self.previous == BatState::Charging {
            if self.low_shown {
                LowAction::Close
            } else {
                LowAction::Nothing
            }
        } else if low_now && !self.low_shown {
            LowAction::Show
        } else {
            LowAction::Nothing
        };
        self.low_shown = self.previous != BatState::Charging && (self.low_shown || low_now);
        Tick { announce, low }
    }

    /// One tick over the batteries' latest readings: classifies them, with
    /// the adapter's presence, and handles the resulting sample.
    pub fn observe(&mut self, bats: &Bats, online: bool, low_pct: usize) -> (r: Tick)
        requires
            bats.wf(),
        ensures
            (*final(self), r) == step(
                *old(self),
                coarse_state(bats@, online),
                aggregate_level(bats@),
                low_pct as int,
            ),
            monitor_wf(*final(self)),
    {
        let current = bats.state(online);
        let level = bats.level();
        self.once(current, level, low_pct)
    }

    /// Records that the warning the last tick asked for could not be shown,
    /// so that a later tick asks again.
    pub fn show_failed(&mut self)
        ensures
            final(self).previous == old(self).previous,
            !final(self).low_shown,
    {
        self.low_shown = false;
    }
}

/// An Unknown sample never changes the stored state, and a changed state is
/// always announced: over any run of samples the stored state is the initial
/// one or the last sample that was not Unknown.
pub proof fn lemma_previous_changes_on_edges(init: BatState, samples: Seq<BatState>)
    ensures
        previous_after(init, samples.push(BatState::Unknown)) == previous_after(init, samples),
        forall|c: BatState|
            #![trigger previous_after(init, samples.push(c))]
            previous_after(init, samples.push(c)) != previous_after(init, samples) ==> c
                != BatState::Unknown && announce_of(previous_after(init, samples), c) is Some,
        (forall|i: int| 0 <= i < samples.len() ==> samples[i] == BatState::Unknown)
            ==> previous_after(init, samples) == init,
        samples.len() > 0 && samples.last() != BatState::Unknown ==> previous_after(init, samples)
            == samples.last(),
    decreases samples.len(),
{
    assert(samples.push(BatState::Unknown).drop_last() =~= samples);
    assert forall|c: BatState| #![trigger previous_after(init, samples.push(c))] true implies
        samples.push(c).drop_last() == samples by {
        assert(samples.push(c).drop_last() =~= samples);
    }
    if samples.len() > 0 {
        lemma_previous_changes_on_edges(init, samples.drop_last());
    }
}

/// A run of identical samples makes at most one announcement: one if the
/// sample is known and differs from the initial state, else none.
pub proof fn lemma_repeated_samples_announce_once(init: BatState, c: BatState, samples: Seq<BatState>)
    requires
        forall|i: int| 0 <= i < samples.len() ==> samples[i] == c,
    ensures
        announcements(init, samples) == if samples.len() > 0 && c != BatState::Unknown && c
            != init {
            1nat
        } else {
            0nat
        },
        samples.len() > 0 ==> previous_after(init, samples) == next_state(init, c),
    decreases samples.len(),
{
    if samples.len() > 0 {
        let pre = samples.drop_last();
        lemma_repeated_samples_announce_once(init, c, pre);
        assert(samples.last() == c);
    }
}

/// The low-battery warning is shown at most once while the state stays away
/// from Charging, and a tick whose sample is Charging closes it.
pub proof fn lemma_low_warning_once(m: Monitor, current: BatState, level: int, low_pct: int)
    requires
        monitor_wf(m),
    ensures
        ({
            let (m2, t) = step(m, current, level, low_pct);
            &&& monitor_wf(m2)
            &&& m.low_shown ==> t.low != LowAction::Show
            &&& t.low == LowAction::Show ==> m2.low_shown
            &&& m.low_shown && m2.previous != BatState::Charging ==> m2.low_shown
            &&& current == BatState::Charging ==> !m2.low_shown && (m.low_shown ==> t.low
                == LowAction::Close)
            &&& t.low == LowAction::Close ==> m.low_shown && !m2.low_shown
        }),
{
}

} // verus!
