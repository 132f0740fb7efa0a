use vstd::prelude::*;

verus! {

/// Where the elapsed time of a running repeating timer lands after an advance by `delta`:
/// below the duration it simply accumulates; once the duration is reached it wraps around it.
pub open spec fn wrapped_elapsed(duration: nat, elapsed: nat, delta: nat) -> nat {
    let total = elapsed + delta;
    if total < duration {
        total
    } else if duration == 0 {
        0
    } else {
        total % duration
    }
}

/// Whether a running timer reaches an interval boundary in an advance by `delta`.
pub open spec fn reaches_boundary(duration: nat, elapsed: nat, delta: nat) -> bool {
    elapsed + delta >= duration
}

/// Advances a running (not paused) repeating timer of `duration_nanos`, whose elapsed time is
/// `elapsed_nanos`, by `delta_nanos`; returns the new elapsed time and whether an interval
/// boundary was reached.
///
/// Relies on bevy's `Timer::tick` for a repeating timer (bevy_time 0.14): the stopwatch adds
/// `delta`; `finished` is set to whether the elapsed time has reached the duration, and then
/// the elapsed time becomes `elapsed % duration` (or zero for a zero duration).
#[verifier::external_body]
fn advance_running(duration_nanos: u64, elapsed_nanos: u64, delta_nanos: u64) -> (r: (u64, bool))
    ensures
        r.0 == wrapped_elapsed(duration_nanos as nat, elapsed_nanos as nat, delta_nanos as nat),
        r.1 == reaches_boundary(duration_nanos as nat, elapsed_nanos as nat, delta_nanos as nat),
{
    let mut timer = bevy::time::Timer::new(
        std::time::Duration::from_nanos(duration_nanos),
        bevy::time::TimerMode::Repeating,
    );
    timer.set_elapsed(std::time::Duration::from_nanos(elapsed_nanos));
    timer.tick(std::time::Duration::from_nanos(delta_nanos));
    (timer.elapsed().as_nanos() as u64, timer.finished())
}

/// A repeating countdown that can be paused, with all durations in nanoseconds.
pub struct IntervalTimer {
    /// Length of one interval.
    pub duration_nanos: u64,
    /// Time accumulated since the last interval boundary.
    pub elapsed_nanos: u64,
    /// A paused timer does not accumulate time.
    pub paused: bool,
    /// Whether the most recent advance reached an interval boundary.
    pub just_finished: bool,
}

impl IntervalTimer {
    /// The timer after an advance by `delta` nanoseconds.
    pub open spec fn ticked(self, delta: nat) -> IntervalTimer {
        if self.paused {
            IntervalTimer { just_finished: false, ..self }
        } else {
            IntervalTimer {
                elapsed_nanos: wrapped_elapsed(
                    self.duration_nanos as nat,
                    self.elapsed_nanos as nat,
                    delta,
                ) as u64,
                just_finished: reaches_boundary(
                    self.duration_nanos as nat,
                    self.elapsed_nanos as nat,
                    delta,
                ),
                ..self
            }
        }
    }

    /// A running timer with nothing accumulated yet.
    pub fn new(duration_nanos: u64) -> (r: IntervalTimer)
        ensures
            r.duration_nanos == duration_nanos,
            r.elapsed_nanos == 0,
            !r.paused,
            !r.just_finished,
    {
        IntervalTimer { duration_nanos, elapsed_nanos: 0, paused: false, just_finished: false }
    }

    /// Stops accumulating time.
    pub fn pause(&mut self)
        ensures
            *final(self) == (IntervalTimer { paused: true, ..*old(self) }),
    {
        self.paused = true;
    }

    /// Resumes accumulating time.
    pub fn unpause(&mut self)
        ensures
            *final(self) == (IntervalTimer { paused: false, ..*old(self) }),
    {
        self.paused = false;
    }

    pub fn is_paused(&self) -> (r: bool)
        ensures
            r == self.paused,
    {
        self.paused
    }

    pub fn just_finished(&self) -> (r: bool)
        ensures
            r == self.just_finished,
    {
        self.just_finished
    }

    /// Advances the timer by `delta_nanos`; a paused timer keeps its elapsed time.
    pub fn tick(&mut self, delta_nanos: u64)
        ensures
            *final(self) == old(self).ticked(delta_nanos as nat),
    {
        if self.paused {
            self.just_finished = false;
        } else {
            let (elapsed, crossed) = advance_running(
                self.duration_nanos,
                self.elapsed_nanos,
                delta_nanos,
            );
            proof {
                let total = self.elapsed_nanos as nat + delta_nanos as nat;
                if total >= self.duration_nanos as nat && self.duration_nanos > 0 {
                    vstd::arithmetic::div_mod::lemma_mod_bound(
                        total as int,
                        self.duration_nanos as int,
                    );
                }
            }
            self.elapsed_nanos = elapsed;
            self.just_finished = crossed;
        }
    }
}

} // verus!
