use vstd::prelude::*;

verus! {

/// The trigger's state machine. `Firing` carries the nanoseconds left until
/// the next shot; it may be negative for a moment while an overshoot is carried.
#[derive(Clone, Copy, Debug, PartialEq, Eq, Structural)]
pub enum FireState {
    Idle,
    Firing(i64),
}

/// Clamps a timer into the range of `i64` from below (it can only leave it
/// downward, after an elapsed time of centuries).
pub open spec fn floor_timer(t: int) -> int {
    if t < i64::MIN as int { i64::MIN as int } else { t }
}

/// One advance of `dt` nanoseconds at a cadence of `cadence` nanoseconds:
/// the next state, and whether a shot was spawned. When the timer runs below
/// zero a shot is spawned and the overshoot is carried into the next period.
pub open spec fn fire_step(s: FireState, dt: int, cadence: int) -> (FireState, bool) {
    match s {
        FireState::Idle => (FireState::Idle, false),
        FireState::Firing(t) => {
            let left = t - dt;
            if left < 0 {
                (FireState::Firing(floor_timer(cadence + left) as i64), true)
            } else {
                (FireState::Firing(left as i64), false)
            }
        },
    }
}

/// The state after a run of advances, and the number of shots spawned.
pub open spec fn fire_run(s: FireState, dts: Seq<int>, cadence: int) -> (FireState, nat)
    decreases dts.len(),
{
    if dts.len() == 0 {
        (s, 0)
    } else {
        let (s1, shot) = fire_step(s, dts[0], cadence);
        let (last, n) = fire_run(s1, dts.drop_first(), cadence);
        (last, n + if shot { 1nat } else { 0nat })
    }
}

/// The time left on a firing timer; zero when idle.
pub open spec fn timer_of(s: FireState) -> int {
    match s {
        FireState::Idle => 0,
        FireState::Firing(t) => t as int,
    }
}

/// The total of a sequence of elapsed times.
pub open spec fn total(dts: Seq<int>) -> int
    decreases dts.len(),
{
    if dts.len() == 0 { 0 } else { dts[0] + total(dts.drop_first()) }
}

impl FireState {
    /// The state a fresh trigger starts in.
    pub fn new() -> (r: FireState)
        ensures
            r == FireState::Idle,
    {
        FireState::Idle
    }

    /// Whether the trigger is held.
    pub fn is_firing(&self) -> (r: bool)
        ensures
            r == (*self != FireState::Idle),
    {
        match self {
            FireState::Idle => false,
            FireState::Firing(_) => true,
        }
    }

    /// The trigger is pressed: an idle trigger fires at the next advance; a
    /// held one keeps its timer.
    pub fn press(&mut self)
        ensures
            *old(self) == FireState::Idle ==> *final(self) == FireState::Firing(0),
            *old(self) != FireState::Idle ==> *final(self) == *old(self),
    {
        if let FireState::Idle = self {
            *self = FireState::Firing(0);
        }
    }

    /// The trigger is released: whatever the timer, the state is idle at once.
    pub fn release(&mut self)
        ensures
            *final(self) == FireState::Idle,
    {
        *self = FireState::Idle;
    }

    /// Advances the timer by `dt` nanoseconds; returns whether a shot is spawned.
    pub fn advance(&mut self, dt: u64, cadence: i64) -> (shot: bool)
        requires
            cadence > 0,
        ensures
            (*final(self), shot) == fire_step(*old(self), dt as int, cadence as int),
    {
        match *self {
            FireState::Idle => false,
            FireState::Firing(t) => {
                let left: i128 = t as i128 - dt as i128;
                if left < 0 {
                    let next: i128 = cadence as i128 + left;
                    *self = FireState::Firing(if next < i64::MIN as i128 { i64::MIN } else { next as i64 });
                    true
                } else {
                    *self = FireState::Firing(left as i64);
                    false
                }
            },
        }
    }
}

/// An idle trigger stays idle and spawns nothing, however long the run.
pub proof fn lemma_idle_run(dts: Seq<int>, cadence: int)
    ensures
        fire_run(FireState::Idle, dts, cadence) == (FireState::Idle, 0nat),
    decreases dts.len(),
{
    if dts.len() > 0 {
        lemma_idle_run(dts.drop_first(), cadence);
    }
}

/// Shots are paced without drift: over any run of advances, each no longer
/// than one cadence period, from a timer within one period, the timer stays
/// within one period and the shots times the period equal the elapsed time
/// plus the change of the timer. So the count differs from the elapsed time
/// over the period by less than one shot, whatever the split into advances.
pub proof fn lemma_cadence_conserved(t0: int, dts: Seq<int>, cadence: int)
    requires
        0 < cadence <= i64::MAX,
        0 <= t0 <= cadence,
        forall|i: int| 0 <= i < dts.len() ==> 0 <= #[trigger] dts[i] <= cadence,
    ensures
        ({
            let (last, n) = fire_run(FireState::Firing(t0 as i64), dts, cadence);
            &&& last != FireState::Idle
            &&& 0 <= timer_of(last) <= cadence
            &&& n * cadence == total(dts) + timer_of(last) - t0
        }),
        total(dts) - t0 <= fire_run(FireState::Firing(t0 as i64), dts, cadence).1 * cadence,
        fire_run(FireState::Firing(t0 as i64), dts, cadence).1 * cadence <= total(dts) + cadence - t0,
    decreases dts.len(),
{
    let s0 = FireState::Firing(t0 as i64);
    if dts.len() == 0 {
        assert(fire_run(s0, dts, cadence) == (s0, 0nat));
        assert(total(dts) == 0);
        assert(timer_of(s0) == t0);
        assert(fire_run(s0, dts, cadence).1 == 0);
        assert(0 * cadence == 0) by (nonlinear_arith);
    } else {
        let dt = dts[0];
        let rest = dts.drop_first();
        assert forall|i: int| 0 <= i < rest.len() implies 0 <= #[trigger] rest[i] <= cadence by {
            assert(rest[i] == dts[i + 1]);
        }
        let left = t0 - dt;
        let t1 = if left < 0 { cadence + left } else { left };
        assert(0 <= t1 <= cadence);
        assert(fire_step(s0, dt, cadence) == (FireState::Firing(t1 as i64), left < 0));
        lemma_cadence_conserved(t1, rest, cadence);
        let (last, m) = fire_run(FireState::Firing(t1 as i64), rest, cadence);
        let t = timer_of(last);
        let n = fire_run(s0, dts, cadence).1;
        assert(n == m + if left < 0 { 1nat } else { 0nat });
        assert(n * cadence == m * cadence + (if left < 0 { cadence } else { 0 })) by (nonlinear_arith)
            requires
                n == m + if left < 0 { 1nat } else { 0nat },
        ;
        assert(total(dts) == dt + total(rest));
        assert(fire_run(s0, dts, cadence).0 == last);
        assert(n * cadence == total(dts) + t - t0);
        assert(0 <= t <= cadence);
        assert(n * cadence <= total(dts) + cadence - t0);
    }
}

} // verus!
