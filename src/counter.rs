use vstd::prelude::*;
use crate::timer::IntervalTimer;

verus! {

/// Time between two refreshes of the readout: one second.
pub const UPDATE_INTERVAL_NANOS: u64 = 1_000_000_000;

/// Prefix of the readout, followed by the rounded frame rate.
pub const STRING_FORMAT: &'static str = "FPS: ";

/// What the readout shows before its first refresh.
pub const STRING_INITIAL: &'static str = "FPS: ...";

/// What the readout shows while no frame rate has been measured yet.
pub const STRING_MISSING: &'static str = "FPS: ???";

/// The readout while enabled, for a frame rate already rounded to a whole number and written
/// in decimal (`Some`), or for a missing one (`None`).
pub open spec fn display_of(sample: Option<Seq<char>>) -> Seq<char> {
    match sample {
        Some(s) => STRING_FORMAT@ + s,
        None => STRING_MISSING@,
    }
}

/// The view of an optional borrowed string.
pub open spec fn str_opt_view(s: Option<&str>) -> Option<Seq<char>> {
    match s {
        Some(t) => Some(t@),
        None => None,
    }
}

/// The view of an optional owned string.
pub open spec fn string_opt_view(s: Option<String>) -> Option<Seq<char>> {
    match s {
        Some(t) => Some(t@),
        None => None,
    }
}

/// Builds the readout while enabled.
pub fn display_text(sample: Option<&str>) -> (r: String)
    ensures
        r@ == display_of(str_opt_view(sample)),
{
    match sample {
        Some(s) => String::from_str(STRING_FORMAT).concat(s),
        None => String::from_str(STRING_MISSING),
    }
}

/// What a frame does to the readout.
#[derive(PartialEq, Eq, Structural, Debug, Clone, Copy)]
pub enum FrameAction {
    /// The readout stays as it is.
    Leave,
    /// The readout is emptied.
    Clear,
    /// The readout shows the frame rate (or its placeholder).
    Show,
}

/// The state of the readout: an interval timer that is paused while the readout is disabled,
/// and a latch that asks for a refresh on the next frame whatever the timer says.
pub struct FpsCounter {
    pub timer: IntervalTimer,
    pub update_now: bool,
}

impl FpsCounter {
    /// Whether the readout is shown.
    pub open spec fn enabled(self) -> bool {
        !self.timer.paused
    }

    /// The state right after the readout is switched on (`true`) or off (`false`).
    pub open spec fn toggled(self, on: bool) -> FpsCounter {
        FpsCounter { timer: IntervalTimer { paused: !on, ..self.timer }, update_now: true }
    }

    /// The state after a switch for each element of `ops`, in order.
    pub open spec fn toggled_all(self, ops: Seq<bool>) -> FpsCounter
        decreases ops.len(),
    {
        if ops.len() == 0 {
            self
        } else {
            self.toggled_all(ops.drop_last()).toggled(ops.last())
        }
    }

    /// Whether a frame that lasted `delta` nanoseconds refreshes the readout.
    pub open spec fn due(self, delta: nat) -> bool {
        self.update_now || self.timer.ticked(delta).just_finished
    }

    /// What a frame that lasted `delta` nanoseconds writes into the readout, if anything:
    /// nothing between interval boundaries without a pending refresh, the empty text while
    /// disabled, and the frame rate (or its placeholder) while enabled.
    pub open spec fn frame_text(self, delta: nat, sample: Option<Seq<char>>) -> Option<Seq<char>> {
        if !self.due(delta) {
            None
        } else if self.timer.paused {
            Some(Seq::empty())
        } else {
            Some(display_of(sample))
        }
    }

    /// What a frame that lasted `delta` nanoseconds does to the readout.
    pub open spec fn frame_action(self, delta: nat) -> FrameAction {
        if !self.due(delta) {
            FrameAction::Leave
        } else if self.timer.paused {
            FrameAction::Clear
        } else {
            FrameAction::Show
        }
    }

    /// The state after a frame that lasted `delta` nanoseconds: the timer has advanced and
    /// the refresh latch is spent.
    pub open spec fn after_frame(self, delta: nat) -> FpsCounter {
        FpsCounter { timer: self.timer.ticked(delta), update_now: false }
    }

    /// Switches the readout on; it is refreshed on the next frame.
    pub fn enable(&mut self)
        ensures
            *final(self) == old(self).toggled(true),
    {
        self.timer.unpause();
        self.update_now = true;
    }

    /// Switches the readout off; it is cleared on the next frame.
    pub fn disable(&mut self)
        ensures
            *final(self) == old(self).toggled(false),
    {
        self.timer.pause();
        self.update_now = true;
    }

    /// Whether the readout is switched on.
    pub fn is_enabled(&self) -> (r: bool)
        ensures
            r == self.enabled(),
    {
        !self.timer.is_paused()
    }

    /// Runs one frame that lasted `delta_nanos` and says what it does to the readout, so that
    /// the frame rate is only read and formatted on frames that show it.
    pub fn step(&mut self, delta_nanos: u64) -> (r: FrameAction)
        ensures
            *final(self) == old(self).after_frame(delta_nanos as nat),
            r == old(self).frame_action(delta_nanos as nat),
    {
        self.timer.tick(delta_nanos);
        let due = self.update_now || self.timer.just_finished();
        self.update_now = false;
        if !due {
            FrameAction::Leave
        } else if self.timer.is_paused() {
            FrameAction::Clear
        } else {
            FrameAction::Show
        }
    }

    /// Runs one frame that lasted `delta_nanos`, with the frame rate already rounded and
    /// written in decimal (`None` while none has been measured); returns the new text of the
    /// readout, or `None` where it stays as it is.
    pub fn advance(&mut self, delta_nanos: u64, sample: Option<&str>) -> (r: Option<String>)
        ensures
            *final(self) == old(self).after_frame(delta_nanos as nat),
            string_opt_view(r) == old(self).frame_text(delta_nanos as nat, str_opt_view(sample)),
    {
        match self.step(delta_nanos) {
            FrameAction::Leave => None,
            FrameAction::Clear => Some(String::new()),
            FrameAction::Show => Some(display_text(sample)),
        }
    }
}

impl Default for FpsCounter {
    /// An enabled readout, refreshed on the first frame and then once per second.
    fn default() -> (r: FpsCounter)
        ensures
            r == (FpsCounter {
                timer: IntervalTimer {
                    duration_nanos: UPDATE_INTERVAL_NANOS,
                    elapsed_nanos: 0,
                    paused: false,
                    just_finished: false,
                },
                update_now: true,
            }),
    {
        FpsCounter { timer: IntervalTimer::new(UPDATE_INTERVAL_NANOS), update_now: true }
    }
}

} // verus!
