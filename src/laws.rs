use vstd::prelude::*;
use crate::counter::{display_of, FpsCounter};

verus! {

/// The sum of a sequence of frame durations.
pub open spec fn total(deltas: Seq<nat>) -> nat
    decreases deltas.len(),
{
    if deltas.len() == 0 {
        0
    } else {
        total(deltas.drop_last()) + deltas.last()
    }
}

impl FpsCounter {
    /// The state after frames that lasted `deltas`, in order.
    pub open spec fn run(self, deltas: Seq<nat>) -> FpsCounter
        decreases deltas.len(),
    {
        if deltas.len() == 0 {
            self
        } else {
            self.run(deltas.drop_last()).after_frame(deltas.last())
        }
    }
}

/// After any sequence of switches the readout is on exactly when the last switch turned it
/// on; with no switch at all the state is unchanged.
pub proof fn lemma_enabled_follows_last_switch(c: FpsCounter, ops: Seq<bool>)
    ensures
        ops.len() > 0 ==> c.toggled_all(ops).enabled() == ops.last(),
        ops.len() == 0 ==> c.toggled_all(ops) == c,
{
}

/// Right after the readout is switched off, the next frame clears it, whatever the timer
/// and the frame rate.
pub proof fn lemma_disable_clears_next_frame(c: FpsCounter, delta: nat, sample: Option<Seq<char>>)
    ensures
        c.toggled(false).frame_text(delta, sample) == Some(Seq::<char>::empty()),
{
}

/// Right after the readout is switched on, the next frame shows the frame rate (or its
/// placeholder), whatever point of the interval the timer is at.
pub proof fn lemma_enable_shows_next_frame(c: FpsCounter, delta: nat, sample: Option<Seq<char>>)
    ensures
        c.toggled(true).frame_text(delta, sample) == Some(display_of(sample)),
{
}

/// While the readout is on, a refresh with a measured frame rate shows `"FPS: "` followed by
/// the rate rounded to a whole number.
pub proof fn lemma_refresh_shows_rate(c: FpsCounter, delta: nat, rounded: Seq<char>)
    requires
        c.enabled(),
        c.due(delta),
    ensures
        c.frame_text(delta, Some(rounded)) == Some(seq!['F', 'P', 'S', ':', ' '] + rounded),
{
    reveal_strlit("FPS: ");
    assert("FPS: "@ =~= seq!['F', 'P', 'S', ':', ' ']);
}

/// While the readout is on, a refresh without a measured frame rate shows `"FPS: ???"`.
pub proof fn lemma_refresh_shows_placeholder(c: FpsCounter, delta: nat)
    requires
        c.enabled(),
        c.due(delta),
    ensures
        c.frame_text(delta, None) == Some(seq!['F', 'P', 'S', ':', ' ', '?', '?', '?']),
{
    reveal_strlit("FPS: ???");
    assert("FPS: ???"@ =~= seq!['F', 'P', 'S', ':', ' ', '?', '?', '?']);
}

proof fn lemma_total_prefix(deltas: Seq<nat>, k: int)
    requires
        0 <= k <= deltas.len(),
    ensures
        total(deltas.take(k)) <= total(deltas),
    decreases deltas.len(),
{
    if k < deltas.len() {
        assert(deltas.drop_last().take(k) =~= deltas.take(k));
        lemma_total_prefix(deltas.drop_last(), k);
    } else {
        assert(deltas.take(k) =~= deltas);
    }
}

proof fn lemma_quiet_run_state(c: FpsCounter, deltas: Seq<nat>, k: int)
    requires
        !c.update_now,
        c.timer.paused || c.timer.elapsed_nanos + total(deltas) < c.timer.duration_nanos,
        0 <= k <= deltas.len(),
    ensures
        !c.run(deltas.take(k)).update_now,
        c.run(deltas.take(k)).timer.paused == c.timer.paused,
        c.run(deltas.take(k)).timer.duration_nanos == c.timer.duration_nanos,
        !c.timer.paused ==> c.run(deltas.take(k)).timer.elapsed_nanos == c.timer.elapsed_nanos
            + total(deltas.take(k)),
    decreases k,
{
    if k > 0 {
        lemma_quiet_run_state(c, deltas, k - 1);
        assert(deltas.take(k).drop_last() =~= deltas.take(k - 1));
        lemma_total_prefix(deltas, k);
    }
}

/// Without a pending refresh, frames that stay short of the next interval boundary, or that
/// run while the readout is off, write nothing.
pub proof fn lemma_quiet_between_boundaries(
    c: FpsCounter,
    deltas: Seq<nat>,
    sample: Option<Seq<char>>,
)
    requires
        !c.update_now,
        c.timer.paused || c.timer.elapsed_nanos + total(deltas) < c.timer.duration_nanos,
    ensures
        forall|i: int|
            0 <= i < deltas.len() ==> (#[trigger] c.run(deltas.take(i))).frame_text(
                deltas[i],
                sample,
            ) is None,
{
    assert forall|i: int| 0 <= i < deltas.len() implies (#[trigger] c.run(
        deltas.take(i),
    )).frame_text(deltas[i], sample) is None by {
        lemma_quiet_run_state(c, deltas, i);
        lemma_total_prefix(deltas, i + 1);
        assert(deltas.take(i + 1).drop_last() =~= deltas.take(i));
    }
}

} // verus!
