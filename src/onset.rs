//! The onset latch of the stretch-sync controller: while time-stretch is in
//! effect, each rise of the onset tracker's modulation through its threshold
//! forces one grain restart.
use vstd::prelude::*;

verus! {

/// Whether the onset tracker runs, and whether a note is held.
#[derive(Clone, Copy, Debug, PartialEq, Eq, Structural)]
pub struct OnsetLatch {
    pub follower_active: bool,
    pub note_on: bool,
}

/// One observation: the note is held exactly while the modulation is at or
/// above the threshold, and a restart is forced where it rises to it.
/// Returns the new note state and whether to force a restart.
pub open spec fn latch_step(note_on: bool, above_threshold: bool) -> (bool, bool) {
    (above_threshold, above_threshold && !note_on)
}

/// The note state after a run of observations, and the restart flags they
/// produced.
pub open spec fn latch_run(note_on: bool, above: Seq<bool>) -> (bool, Seq<bool>)
    decreases above.len(),
{
    if above.len() == 0 {
        (note_on, Seq::empty())
    } else {
        let (held, flags) = latch_run(note_on, above.drop_last());
        let (next, fire) = latch_step(held, above.last());
        (next, flags.push(fire))
    }
}

/// From a freshly engaged tracker, a restart is forced on exactly the samples
/// where the modulation reaches the threshold after being below it (or on the
/// first sample): once per rise, and not again until it has fallen below the
/// threshold and risen again.
pub proof fn lemma_restarts_on_rising_edges(above: Seq<bool>)
    ensures
        latch_run(false, above).1.len() == above.len(),
        above.len() > 0 ==> latch_run(false, above).0 == above.last(),
        forall|k: int|
            0 <= k < above.len() ==> #[trigger] latch_run(false, above).1[k] == (above[k] && (k == 0
                || !above[k - 1])),
    decreases above.len(),
{
    if above.len() > 0 {
        let prefix = above.drop_last();
        lemma_restarts_on_rising_edges(prefix);
        let n = above.len() - 1;
        assert forall|k: int| 0 <= k < above.len() implies #[trigger] latch_run(false, above).1[k] == (
        above[k] && (k == 0 || !above[k - 1])) by {
            if k < n {
                assert(latch_run(false, prefix).1[k] == (prefix[k] && (k == 0 || !prefix[k - 1])));
            }
        }
    }
}

impl OnsetLatch {
    /// A latch with the tracker off and no note held.
    pub fn new() -> (r: OnsetLatch)
        ensures
            !r.follower_active,
            !r.note_on,
    {
        OnsetLatch { follower_active: false, note_on: false }
    }

    /// Engages the tracker while the stretch factor in effect exceeds one.
    /// Returns `true` on the transition from off to on, where the caller
    /// resets the tracker's filters; the held note is cleared then.
    pub fn engage(&mut self, stretch_factor: u8) -> (restart_tracker: bool)
        ensures
            final(self).follower_active == (stretch_factor > 1),
            restart_tracker == (stretch_factor > 1 && !old(self).follower_active),
            final(self).note_on == (if restart_tracker { false } else { old(self).note_on }),
    {
        let active = stretch_factor > 1;
        let restart_tracker = active && !self.follower_active;
        if restart_tracker {
            self.note_on = false;
        }
        self.follower_active = active;
        restart_tracker
    }

    /// Records whether the tracker's modulation is at or above the threshold;
    /// returns whether this sample forces a grain restart.
    pub fn observe(&mut self, above_threshold: bool) -> (trigger_stretch: bool)
        ensures
            (final(self).note_on, trigger_stretch) == latch_step(old(self).note_on, above_threshold),
            final(self).follower_active == old(self).follower_active,
    {
        let trigger_stretch = above_threshold && !self.note_on;
        self.note_on = above_threshold;
        trigger_stretch
    }

    /// Clears the held note and sets the tracker by the stretch factor in effect.
    pub fn reset(&mut self, stretch_factor: u8)
        ensures
            final(self).follower_active == (stretch_factor > 1),
            !final(self).note_on,
    {
        self.follower_active = stretch_factor > 1;
        self.note_on = false;
    }
}

} // verus!
