//! Reduction of per-battery readings and adapter presence to one coarse state
//! and one aggregate charge level.
use vstd::prelude::*;

verus! {

/// The coarse state that drives notifications.
#[derive(Debug, PartialEq, Eq, Structural, Clone, Copy)]
pub enum BatState {
    Discharging,
    /// charging, or plugged into an online adapter
    Charging,
    Unknown,
}

/// The charge-state tag that the operating system reports for one battery.
#[derive(Debug, PartialEq, Eq, Structural, Clone, Copy)]
pub enum RawState {
    Unknown,
    Charging,
    Discharging,
    Empty,
    Full,
}

/// One battery's raw snapshot: its state tag and its charge in percent, as
/// reported (not yet clamped to 0..=100).
#[derive(Debug, PartialEq, Eq, Structural, Clone, Copy)]
pub struct Reading {
    pub state: RawState,
    pub percent: i64,
}

/// Why the aggregator cannot be built.
#[derive(Debug, PartialEq, Eq, Structural, Clone, Copy)]
pub enum BatError {
    NoBatteriesDetected,
}

/// Some battery in `s` reports `st`.
pub open spec fn any_reports(s: Seq<Reading>, st: RawState) -> bool {
    exists|i: int| 0 <= i < s.len() && #[trigger] s[i].state == st
}

/// Charging if any battery charges or the adapter is online; else Discharging
/// if any battery discharges; else Unknown.
pub open spec fn coarse_state(s: Seq<Reading>, online: bool) -> BatState {
    if any_reports(s, RawState::Charging) || online {
        BatState::Charging
    } else if any_reports(s, RawState::Discharging) {
        BatState::Discharging
    } else {
        BatState::Unknown
    }
}

/// A raw percentage clamped to 0..=100.
pub open spec fn clamp_pct(p: i64) -> int {
    if p < 0 {
        0
    } else if p > 100 {
        100
    } else {
        p as int
    }
}

/// The sum of the clamped percentages of `s`.
pub open spec fn sum_clamped(s: Seq<Reading>) -> int
    decreases s.len(),
{
    if s.len() == 0 {
        0
    } else {
        sum_clamped(s.drop_last()) + clamp_pct(s.last().percent)
    }
}

/// The truncating mean of the clamped percentages of a nonempty `s`.
pub open spec fn aggregate_level(s: Seq<Reading>) -> int
    recommends
        s.len() > 0,
{
    sum_clamped(s) / (s.len() as int)
}

proof fn lemma_sum_clamped_bounds(s: Seq<Reading>)
    ensures
        0 <= sum_clamped(s) <= 100 * s.len(),
    decreases s.len(),
{
    if s.len() > 0 {
        lemma_sum_clamped_bounds(s.drop_last());
    }
}

/// The aggregate level lies in 0..=100 for any nonempty set of readings,
/// whatever the raw percentages.
pub proof fn lemma_level_in_range(s: Seq<Reading>)
    requires
        s.len() > 0,
    ensures
        0 <= aggregate_level(s) <= 100,
{
    lemma_sum_clamped_bounds(s);
    let n = s.len() as int;
    let t = sum_clamped(s);
    assert(0 <= t / n <= 100) by (nonlinear_arith)
        requires
            0 <= t <= 100 * n,
            n > 0,
    ;
}

/// Clamps a raw percentage to 0..=100.
pub fn clamp_percent(p: i64) -> (r: u8)
    ensures
        r as int == clamp_pct(p),
{
    if p < 0 {
        0
    } else if p > 100 {
        100
    } else {
        p as u8
    }
}

/// The batteries being tracked, as last read.
pub struct Bats {
    bats: Vec<Reading>,
}

impl View for Bats {
    type V = Seq<Reading>;

    closed spec fn view(&self) -> Seq<Reading> {
        self.bats@
    }
}

impl Bats {
    /// At least one battery is tracked.
    pub open spec fn wf(&self) -> bool {
        self@.len() > 0
    }

    /// Starts tracking the batteries that were enumerated; fails when there
    /// are none.
    pub fn init(readings: Vec<Reading>) -> (r: Result<Bats, BatError>)
        ensures
            r is Ok <==> readings@.len() > 0,
            r matches Ok(b) ==> b@ == readings@ && b.wf(),
            r matches Err(e) ==> e == BatError::NoBatteriesDetected,
    {
        if readings.len() == 0 {
            Err(BatError::NoBatteriesDetected)
        } else {
            Ok(Bats { bats: readings })
        }
    }

    /// Replaces the readings of the tracked batteries with fresh ones.
    pub fn update(&mut self, readings: Vec<Reading>)
        requires
            old(self).wf(),
            readings@.len() == old(self)@.len(),
        ensures
            final(self)@ == readings@,
            final(self).wf(),
    {
        self.bats = readings;
    }

    /// The number of tracked batteries.
    pub fn count(&self) -> (r: usize)
        ensures
            r == self@.len(),
    {
        self.bats.len()
    }

    /// The coarse state of the batteries, given whether the adapter is online.
    pub fn state(&self, online: bool) -> (r: BatState)
        ensures
            r == coarse_state(self@, online),
    {
        if self.reports(RawState::Charging) || online {
            BatState::Charging
        } else if self.reports(RawState::Discharging) {
            BatState::Discharging
        } else {
            BatState::Unknown
        }
    }

    fn reports(&self, st: RawState) -> (r: bool)
        ensures
            r == any_reports(self@, st),
    {
        let mut i: usize = 0;
        while i < self.bats.len()
            invariant
                i <= self@.len(),
                forall|j: int| 0 <= j < i ==> self@[j].state != st,
            decreases self@.len() - i,
        {
            if self.bats[i].state == st {
                return true;
            }
            i = i + 1;
        }
        false
    }

    /// The truncating mean of the clamped charge percentages.
    pub fn level(&self) -> (r: usize)
        requires
            self.wf(),
        ensures
            r == aggregate_level(self@),
            r <= 100,
    {
        let n = self.bats.len();
        let mut sum: u128 = 0;
        let mut i: usize = 0;
        while i < n
            invariant
                n == self@.len(),
                i <= n,
                sum == sum_clamped(self@.take(i as int)),
                sum <= 100 * i,
            decreases n - i,
        {
            proof {
                assert(self@.take(i + 1).drop_last() =~= self@.take(i as int));
            }
            sum = sum + clamp_percent(self.bats[i].percent) as u128;
            i = i + 1;
        }
        proof {
            assert(self@.take(n as int) =~= self@);
            lemma_level_in_range(self@);
        }
        (sum / (n as u128)) as usize
    }
}

} // verus!
