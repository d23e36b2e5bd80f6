//! Moving a whole number of frames through a ring that offers them in pieces.
use vstd::prelude::*;
use crate::error::{EngineError, StreamDirection};

verus! {

/// A transfer of frames in one direction, part of which may have happened.
#[derive(Clone, Copy, Debug, PartialEq, Eq, Structural)]
pub struct Transfer {
    pub direction: StreamDirection,
    pub channels: usize,
    pub required_frames: usize,
    pub done_frames: usize,
}

/// What a transfer needs next.
#[derive(Clone, Copy, Debug, PartialEq, Eq, Structural)]
pub enum TransferStep {
    /// Everything has been moved.
    Complete,
    /// Nothing is available: wait for the device.
    Wait,
    /// Map and move this many frames.
    Move { frames: usize },
}

impl Transfer {
    /// The frames done are a part of the frames required, and every sample offset can be counted.
    pub open spec fn wf(self) -> bool {
        &&& self.channels > 0
        &&& self.done_frames <= self.required_frames
        &&& self.required_frames * self.channels <= usize::MAX
    }

    pub open spec fn remaining(self) -> int {
        self.required_frames - self.done_frames
    }

    /// A transfer of the whole frames in `sample_count` samples.
    pub fn new(direction: StreamDirection, channels: usize, sample_count: usize) -> (transfer: Self)
        requires
            channels > 0,
        ensures
            transfer == (Transfer {
                direction,
                channels,
                required_frames: sample_count / channels,
                done_frames: 0,
            }),
            transfer.wf(),
    {
        let frames: usize = sample_count / channels;
        proof {
            vstd::arithmetic::div_mod::lemma_fundamental_div_mod(
                sample_count as int,
                channels as int,
            );
            vstd::arithmetic::mul::lemma_mul_is_commutative(frames as int, channels as int);
            vstd::arithmetic::div_mod::lemma_mod_bound(sample_count as int, channels as int);
        }
        Transfer { direction, channels, required_frames: frames, done_frames: 0 }
    }

    /// Whether everything has been moved; the device need not be asked then.
    pub fn is_complete(&self) -> (complete: bool)
        requires
            self.wf(),
        ensures
            complete == (self.remaining() == 0),
    {
        self.done_frames == self.required_frames
    }

    /// What to do when the device reports `available` frames.
    pub fn next_step(&self, available: i64) -> (step: TransferStep)
        requires
            self.wf(),
        ensures
            step == if self.remaining() == 0 {
                TransferStep::Complete
            } else if available <= 0 {
                TransferStep::Wait
            } else {
                TransferStep::Move {
                    frames: crate::arith::least(self.remaining(), available as int) as usize,
                }
            },
            step matches TransferStep::Move { frames } ==> {
                &&& 0 < frames <= available
                &&& self.done_frames + frames <= self.required_frames
                &&& frames == available || self.done_frames + frames == self.required_frames
            },
            step is Complete <==> self.done_frames == self.required_frames,
    {
        let remaining: usize = self.required_frames - self.done_frames;
        if remaining == 0 {
            TransferStep::Complete
        } else if available <= 0 {
            TransferStep::Wait
        } else if (remaining as u128) < (available as u128) {
            TransferStep::Move { frames: remaining }
        } else {
            TransferStep::Move { frames: available as usize }
        }
    }

    /// The sample at which the next frame stands in the caller's block.
    pub fn offset_samples(&self) -> (offset: usize)
        requires
            self.wf(),
        ensures
            offset == self.done_frames * self.channels,
    {
        proof {
            assert(self.done_frames * self.channels <= self.required_frames * self.channels)
                by (nonlinear_arith)
                requires
                    self.done_frames <= self.required_frames,
            ;
        }
        self.done_frames * self.channels
    }

    /// Accounts for `processed` of the `mapped` frames that were offered. Committing fewer than
    /// were mapped is a failure; having moved nothing asks the caller to wait.
    pub fn committed(&mut self, mapped: usize, processed: usize) -> (result: Result<
        bool,
        EngineError,
    >)
        requires
            old(self).wf(),
            mapped <= old(self).remaining(),
        ensures
            final(self).wf(),
            match result {
                Ok(wait) => {
                    &&& processed == mapped
                    &&& wait == (processed == 0)
                    &&& *final(self) == (Transfer {
                        done_frames: (old(self).done_frames + processed) as usize,
                        ..*old(self)
                    })
                },
                Err(error) => {
                    &&& processed != mapped
                    &&& error == EngineError::ShortCommit {
                        direction: old(self).direction,
                        actual: processed as i64,
                        required: mapped as i64,
                    }
                    &&& *final(self) == *old(self)
                },
            },
    {
        if processed != mapped {
            return Err(
                EngineError::ShortCommit {
                    direction: self.direction,
                    actual: processed as i64,
                    required: mapped as i64,
                },
            );
        }
        self.done_frames = self.done_frames + processed;
        Ok(processed == 0)
    }

    /// Copies mapped capture frames to their place in `scratch`.
    pub fn store_captured(&self, mapped: &[i32], scratch: &mut [i32])
        requires
            self.wf(),
            self.done_frames * self.channels + mapped@.len() <= old(scratch)@.len(),
        ensures
            final(scratch)@ == old(scratch)@.subrange(0, self.done_frames * self.channels) + mapped@
                + old(scratch)@.skip(self.done_frames * self.channels + mapped@.len()),
    {
        let at: usize = self.offset_samples();
        let room: usize = scratch.len();
        let mut i: usize = 0;
        while i < mapped.len()
            invariant
                i <= mapped@.len(),
                at + mapped@.len() <= scratch@.len(),
                at + mapped@.len() <= room,
                scratch@.len() == old(scratch)@.len(),
                forall|k: int|
                    0 <= k < scratch@.len() ==> #[trigger] scratch@[k] == if at <= k < at + i {
                        mapped@[k - at]
                    } else {
                        old(scratch)@[k]
                    },
            decreases mapped.len() - i,
        {
            scratch[at + i] = mapped[i];
            i = i + 1;
        }
        assert(scratch@ =~= old(scratch)@.subrange(0, at as int) + mapped@ + old(scratch)@.skip(
            at + mapped@.len(),
        ));
    }

    /// Fills mapped playback frames from their place in `samples`.
    pub fn load_playback(&self, samples: &[i32], mapped: &mut [i32])
        requires
            self.wf(),
            self.done_frames * self.channels + old(mapped)@.len() <= samples@.len(),
        ensures
            final(mapped)@ == samples@.subrange(
                self.done_frames * self.channels,
                self.done_frames * self.channels + old(mapped)@.len(),
            ),
    {
        let at: usize = self.offset_samples();
        let length: usize = mapped.len();
        let room: usize = samples.len();
        let mut i: usize = 0;
        while i < length
            invariant
                i <= length,
                length == mapped@.len(),
                mapped@.len() == old(mapped)@.len(),
                at + length <= samples@.len(),
                at + length <= room,
                forall|k: int| 0 <= k < i ==> #[trigger] mapped@[k] == samples@[at + k],
            decreases length - i,
        {
            mapped[i] = samples[at + i];
            i = i + 1;
        }
        assert(mapped@ =~= samples@.subrange(at as int, at + length));
    }
}

/// What is left of a transfer and what is done make up what is required.
pub proof fn done_and_left_make_up_a_transfer(transfer: Transfer)
    requires
        transfer.wf(),
    ensures
        transfer.remaining() + transfer.done_frames == transfer.required_frames,
        transfer.remaining() >= 0,
{
}

} // verus!
