//! What the engine asks of the code that serves its clients.
use vstd::prelude::*;

verus! {

/// Takes captured periods.
pub trait ProCaptureSink: Send {
    /// What it means for the sink to have taken a block under a sequence. A sink that gives it no
    /// meaning of its own promises nothing.
    open spec fn took(&self, sequence: u64, capture: Seq<i32>) -> bool {
        true
    }

    /// Publishes one capture block without allocation, locking, or waiting for client work.
    fn process_capture(&mut self, sequence: u64, capture: &[i32])
        ensures
            final(self).took(sequence, capture@),
    ;

    /// Publishes one capture block under the sequence at which it is answered.
    fn process_capture_for_playback(
        &mut self,
        hardware_sequence: u64,
        playback_sequence: u64,
        capture: &[i32],
    )
        default_ensures
            final(self).took(playback_sequence, capture@),
    {
        self.process_capture(playback_sequence, capture);
    }

    /// Publishes non-PRO capture after the exact PRO handoff has completed.
    fn process_deferred_capture(&mut self, hardware_sequence: u64, capture: &[i32])
        default_ensures
            &*final(self) == &*old(self),
    {
    }
}

/// Whether a block may still be taken at a cutoff; one whose publication is not known may.
pub open spec fn in_time(published_nanos: Option<u64>, cutoff_nanos: u64) -> bool {
    published_nanos is Some ==> published_nanos->0 <= cutoff_nanos
}

/// Provides playback periods.
pub trait ProPlaybackSource: Send {
    /// What it means for the source to have made `block` of `old_block` for a sequence. A source
    /// that gives it no meaning of its own promises nothing.
    open spec fn gave(&self, sequence: u64, old_block: Seq<i32>, block: Seq<i32>) -> bool {
        true
    }

    /// Changes whenever previously rendered output is no longer valid for reuse.
    fn playback_epoch(&self) -> (epoch: u64)
        default_ensures
            epoch == 0,
    {
        0
    }

    /// Publishes the next sequence watermark before the hardware wait.
    fn prepare_playback(&mut self, sequence: u64)
        default_ensures
            &*final(self) == &*old(self),
    {
    }

    /// Prepares non-PRO output before the hardware wait.
    fn prepare_playback_mix(&mut self, sequence: u64)
        default_ensures
            &*final(self) == &*old(self),
    {
    }

    /// Tells that nothing is left of the client's budget.
    fn mark_playback_budget_exhausted(&mut self, sequence: u64)
        default_ensures
            &*final(self) == &*old(self),
    {
    }

    /// Waits for an exact-sequence block, at most until the cutoff.
    fn wait_for_playback_before(&mut self, sequence: u64, cutoff_nanos: u64)
        default_ensures
            &*final(self) == &*old(self),
    {
    }

    /// Keeps output from being taken away until `end_playback_commit`.
    fn begin_playback_commit(&mut self)
        default_ensures
            &*final(self) == &*old(self),
    {
    }

    /// Ends what `begin_playback_commit` began.
    fn end_playback_commit(&mut self)
        default_ensures
            &*final(self) == &*old(self),
    {
    }

    /// When the block of a sequence was published, where the source knows.
    fn published_nanos(&self, sequence: u64) -> (nanos: Option<u64>)
        default_ensures
            nanos is None,
    {
        None
    }

    /// Takes one already-ready exact-sequence block without waiting.
    fn process_playback(&mut self, sequence: u64, playback: &mut [i32])
        ensures
            final(self).gave(sequence, old(playback)@, final(playback)@),
    ;

    /// Takes an exact-sequence block only when it was published by the cutoff; a later one is left
    /// alone.
    fn process_playback_before(
        &mut self,
        sequence: u64,
        cutoff_nanos: u64,
        playback: &mut [i32],
    )
        default_ensures
            exists|published: Option<u64>|
                #[trigger] call_ensures(Self::published_nanos, (&*old(self), sequence), published)
                    && if in_time(published, cutoff_nanos) {
                    final(self).gave(sequence, old(playback)@, final(playback)@)
                } else {
                    &&& &*final(self) == &*old(self)
                    &&& final(playback)@ == old(playback)@
                },
    {
        let published: Option<u64> = self.published_nanos(sequence);
        if let Some(nanos) = published {
            if nanos > cutoff_nanos {
                return;
            }
        }
        self.process_playback(sequence, playback);
    }

    /// Adds any output not prepared before the hardware wait.
    fn commit_playback(&mut self, sequence: u64, playback: &mut [i32])
        default_ensures
            &*final(self) == &*old(self),
            final(playback)@ == old(playback)@,
    {
    }
}

} // verus!
