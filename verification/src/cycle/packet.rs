//! The linked cycle with lead and hardware periods smaller than the client's: a period travels in
//! chunks, and the last chunk of one cycle is written at the front of the next.
use vstd::prelude::*;
use crate::cycle::{
    counted, frame_samples, grant_handoff_budget, has_processed, lemma_one_more_period,
    period_limit_reached, take_pending_pro_capture, undisturbed, went_well, CaptureObservation,
    CycleAction, CycleEvent, LinkedProConfig, PendingProCapture, RunState,
};
use crate::error::{same_result, ConfigError, EngineError, StreamDirection};
use crate::sequence::{next_sequence, pro_target_sequence};

verus! {

/// A linked pair works in chunks when it has lead and its hardware periods are the smaller ones.
pub open spec fn staged(sequence_lead: u64, period: i64, hardware_period: i64) -> bool {
    sequence_lead != 0 && hardware_period < period
}

pub fn uses_staged_packet_cycle(sequence_lead: u64, period: i64, hardware_period: i64) -> (uses:
    bool)
    ensures
        uses == staged(sequence_lead, period, hardware_period),
{
    sequence_lead != 0 && hardware_period < period
}

/// The cycle that a linked pair is driven by.
#[derive(Clone, Copy, Debug, PartialEq, Eq, Structural)]
pub enum LinkedCycleKind {
    /// A captured period is answered in its own cycle.
    Direct,
    /// Periods are moved in chunks of the hardware period, with lead.
    Packet,
    /// Whole periods, with lead.
    Ahead,
}

/// Chooses the cycle of a linked pair.
pub fn linked_cycle_kind(config: &LinkedProConfig) -> (kind: LinkedCycleKind)
    ensures
        kind == if config.sequence_lead == 0 {
            LinkedCycleKind::Direct
        } else if config.hardware_period < config.period {
            LinkedCycleKind::Packet
        } else {
            LinkedCycleKind::Ahead
        },
{
    if uses_staged_packet_cycle(config.sequence_lead, config.period, config.hardware_period) {
        LinkedCycleKind::Packet
    } else if config.sequence_lead != 0 {
        LinkedCycleKind::Ahead
    } else {
        LinkedCycleKind::Direct
    }
}

/// How a started pair is made ready for its first period.
#[derive(Clone, Copy, Debug, PartialEq, Eq, Structural)]
pub enum LinkedStartup {
    /// Qualify the loopback, where one is configured.
    Qualify,
    /// Calibrate the phase of the two directions.
    Calibrate,
}

pub fn linked_startup(config: &LinkedProConfig) -> (startup: LinkedStartup)
    ensures
        startup == if config.event_driven {
            LinkedStartup::Qualify
        } else {
            LinkedStartup::Calibrate
        },
{
    if config.event_driven {
        LinkedStartup::Qualify
    } else {
        LinkedStartup::Calibrate
    }
}

/// The playback chunk that is written before a capture chunk is read: the one before it.
pub fn staged_playback_chunk_before_capture(capture_chunk: i64) -> (playback_chunk: Option<i64>)
    ensures
        playback_chunk == if capture_chunk > 0 {
            Some((capture_chunk - 1) as i64)
        } else {
            None
        },
{
    if capture_chunk > 0 {
        Some(capture_chunk - 1)
    } else {
        None
    }
}

/// Which write a refill belongs to.
#[derive(Clone, Copy, Debug, PartialEq, Eq, Structural)]
pub enum Refill {
    /// The last chunk of the previous block.
    Tail,
    /// The chunk before the capture chunk `capture`.
    Before { capture: i64 },
}

/// Where a cycle stands. `epoch` is the output that the cycle began with.
#[derive(Debug)]
pub enum PacketPhase {
    Opening,
    Asking,
    /// Silencing a block that was staged for output since taken away.
    StaleClearing { epoch: u64 },
    Preparing { epoch: u64 },
    Mixing { epoch: u64 },
    Draining { epoch: u64, refill: Refill },
    Writing { epoch: u64, refill: Refill, offset: usize },
    Clearing { epoch: u64 },
    HandoffBudgeting { epoch: u64, due: PendingProCapture },
    HandoffWaiting { epoch: u64, due: PendingProCapture },
    Rendering { epoch: u64, due: Option<PendingProCapture> },
    Committing { epoch: u64, due: Option<PendingProCapture> },
    Deferring { epoch: u64, due: PendingProCapture },
    Inspecting { epoch: u64, capture: i64 },
    Timing { epoch: u64, capture: i64 },
    Reading { epoch: u64, capture: i64, offset: usize },
    Observing { epoch: u64 },
    Publishing { epoch: u64, playback_sequence: u64 },
    /// Looking at the clock to decide when the answer is due.
    Arming { epoch: u64, playback_sequence: u64 },
    Closing,
    /// Letting go of the commit after a failure.
    Aborting { error: EngineError },
    /// Silencing the block before the streams are restarted.
    RecoveryClearing { error: EngineError },
    Recovering { error: EngineError },
    Finished { result: Result<(), EngineError> },
}

/// The linked cycle in chunks.
#[derive(Debug)]
pub struct PacketCycle {
    pub config: LinkedProConfig,
    pub chunks: i64,
    pub playback_chunk_samples: usize,
    pub capture_chunk_samples: usize,
    pub playback_position: u64,
    pub capture_position: u64,
    pub sequence: u64,
    pub periods_processed: u64,
    pub pending: Option<PendingProCapture>,
    /// The output for which the block was staged.
    pub staged_epoch: Option<u64>,
    pub phase: PacketPhase,
}

impl PacketCycle {
    /// There is at least one chunk, and chunk numbers stay below their count.
    pub open spec fn wf(self) -> bool {
        &&& self.chunks >= 1
        &&& match self.phase {
            PacketPhase::Draining { refill: Refill::Before { capture }, .. } => 0 < capture
                < self.chunks,
            PacketPhase::Writing { refill: Refill::Before { capture }, .. } => 0 < capture
                < self.chunks,
            PacketPhase::Inspecting { capture, .. } => 0 < capture < self.chunks,
            PacketPhase::Timing { capture, .. } => 0 < capture < self.chunks,
            PacketPhase::Reading { capture, .. } => 0 <= capture < self.chunks,
            _ => true,
        }
    }

    pub open spec fn at(self, phase: PacketPhase) -> PacketCycle {
        PacketCycle { phase, ..self }
    }

    /// The top of the loop: the run ends when it is asked to or has processed its periods.
    pub open spec fn top(self, state: RunState) -> (PacketCycle, RunState) {
        if state.control.stop || crate::cycle::limit_reached(
            self.periods_processed,
            self.config.max_periods,
        ) {
            (self.at(PacketPhase::Finished { result: Ok(()) }), state.ended())
        } else {
            (self.at(PacketPhase::Opening), state)
        }
    }

    /// A failed cycle, once nothing is being committed: a request to stop ends the run quietly, a
    /// recoverable failure forgets what was staged and pending and restarts the streams, and any
    /// other ends the run with it.
    pub open spec fn settled(self, state: RunState, error: EngineError) -> (PacketCycle, RunState) {
        if error is Stopped {
            (self.at(PacketPhase::Finished { result: Ok(()) }), state.ended())
        } else if error.recoverable() {
            (
                PacketCycle {
                    pending: None,
                    staged_epoch: None,
                    phase: PacketPhase::RecoveryClearing { error },
                    ..self
                },
                state,
            )
        } else {
            (self.at(PacketPhase::Finished { result: Err(error) }), state.ended())
        }
    }

    /// A failure inside the commit.
    pub open spec fn aborted(self, error: EngineError) -> PacketCycle {
        self.at(PacketPhase::Aborting { error })
    }

    /// The write of a chunk, or a failure when its place cannot be counted.
    pub open spec fn write(self, epoch: u64, refill: Refill) -> PacketCycle {
        let chunk = match refill {
            Refill::Tail => (self.chunks - 1) as i64,
            Refill::Before { capture } => (capture - 1) as i64,
        };
        match crate::cycle::samples_in(chunk, self.playback_chunk_samples) {
            Some(offset) => self.at(PacketPhase::Writing { epoch, refill, offset }),
            None => self.aborted(
                EngineError::InvalidConfig(ConfigError::Reason("playback chunk offset overflow")),
            ),
        }
    }

    /// The read of a chunk, or a failure when its place cannot be counted.
    pub open spec fn read(self, epoch: u64, capture: i64) -> PacketCycle {
        match crate::cycle::samples_in(capture, self.capture_chunk_samples) {
            Some(offset) => self.at(PacketPhase::Reading { epoch, capture, offset }),
            None => self.aborted(
                EngineError::InvalidConfig(ConfigError::Reason("capture chunk offset overflow")),
            ),
        }
    }

    /// The beginning of capture chunk `capture`: the playback chunk before it is written first.
    pub open spec fn chunk(self, epoch: u64, capture: i64) -> PacketCycle {
        if capture == 0 {
            self.read(epoch, capture)
        } else if capture == 1 {
            self.at(PacketPhase::Inspecting { epoch, capture })
        } else {
            self.at(PacketPhase::Draining { epoch, refill: Refill::Before { capture } })
        }
    }

    /// What a finished write comes to.
    pub open spec fn written(
        self,
        state: RunState,
        epoch: u64,
        refill: Refill,
        result: Result<i64, EngineError>,
    ) -> (PacketCycle, RunState) {
        match result {
            Ok(frames) => if frames == self.config.hardware_period {
                let position = self.playback_position.wrapping_add(
                    self.config.hardware_period as u64,
                );
                let moved = PacketCycle { playback_position: position, ..self };
                (
                    match refill {
                        Refill::Tail => moved.at(PacketPhase::Clearing { epoch }),
                        Refill::Before { capture } => if capture == 1 {
                            moved.at(PacketPhase::Timing { epoch, capture })
                        } else {
                            moved.read(epoch, capture)
                        },
                    },
                    state.with_timeline(
                        crate::timeline::HardwareTimeline {
                            playback_position: position,
                            ..state.timeline
                        },
                    ),
                )
            } else {
                (
                    self.aborted(
                        EngineError::ShortCommit {
                            direction: StreamDirection::Playback,
                            actual: frames,
                            required: self.config.hardware_period,
                        },
                    ),
                    state,
                )
            },
            Err(error) => (self.aborted(error), state),
        }
    }

    /// The cycle once the block is silent: the pending capture is taken if its answer is due.
    pub open spec fn cleared(self, epoch: u64) -> PacketCycle {
        match crate::cycle::due_capture(self.pending, self.sequence) {
            Some(due) => PacketCycle {
                pending: None,
                phase: PacketPhase::HandoffBudgeting { epoch, due },
                ..self
            },
            None => self.at(PacketPhase::Rendering { epoch, due: None }),
        }
    }

    /// What a read chunk comes to.
    pub open spec fn captured(
        self,
        state: RunState,
        epoch: u64,
        capture: i64,
        result: Result<i64, EngineError>,
    ) -> (PacketCycle, RunState) {
        match result {
            Ok(frames) => if frames == self.config.hardware_period {
                let position = self.capture_position.wrapping_add(
                    self.config.hardware_period as u64,
                );
                let moved = PacketCycle { capture_position: position, ..self };
                (
                    if capture + 1 == self.chunks {
                        moved.at(PacketPhase::Observing { epoch })
                    } else if state.control.stop {
                        moved.aborted(EngineError::Stopped)
                    } else {
                        moved.chunk(epoch, (capture + 1) as i64)
                    },
                    state.with_timeline(
                        crate::timeline::HardwareTimeline {
                            capture_position: position,
                            ..state.timeline
                        },
                    ),
                )
            } else {
                (
                    self.aborted(
                        EngineError::ShortCommit {
                            direction: StreamDirection::Capture,
                            actual: frames,
                            required: self.config.hardware_period,
                        },
                    ),
                    state,
                )
            },
            Err(error) => (self.aborted(error), state),
        }
    }

    /// The sequence at which a period captured now is played.
    pub open spec fn answer_sequence(self) -> u64 {
        crate::sequence::sequence_after(self.sequence, self.config.sequence_lead as int)
    }

    /// The state after the last chunk was observed.
    pub open spec fn observed(self, state: RunState, epoch: u64, seen: CaptureObservation) -> (
        PacketCycle,
        RunState,
    ) {
        let delayed = match seen.capture_delay {
            Some(delay) => state.timeline.with_pcm_delay(
                StreamDirection::Capture,
                delay,
                self.config.period as u64,
            ),
            None => state.timeline,
        };
        (
            self.at(
                PacketPhase::Publishing { epoch, playback_sequence: self.answer_sequence() },
            ),
            state.with_timeline(delayed.with_capture_read(self.answer_sequence(), seen.nanos)),
        )
    }

    /// The cycle once its capture is pending: the block counts as staged for `epoch`.
    pub open spec fn armed(
        self,
        state: RunState,
        epoch: u64,
        playback_sequence: u64,
        now: u64,
    ) -> PacketCycle {
        let pending = PacketCycle {
            pending: Some(
                PendingProCapture {
                    hardware_sequence: self.sequence,
                    playback_sequence,
                    target_nanos: crate::arith::clamp_u64(now + self.config.handoff_nanos),
                },
            ),
            ..self
        };
        if state.control.stop {
            pending.aborted(EngineError::Stopped)
        } else {
            PacketCycle {
                staged_epoch: Some(epoch),
                phase: PacketPhase::Closing,
                ..pending
            }
        }
    }

    /// What follows client code.
    pub open spec fn next_called(self, state: RunState, panicked: bool) -> (PacketCycle, RunState) {
        match self.phase {
            PacketPhase::Opening => if panicked {
                self.settled(state.ended(), EngineError::WorkerPanic)
            } else {
                (self.at(PacketPhase::Asking), state)
            },
            PacketPhase::StaleClearing { epoch } => (
                self.at(PacketPhase::Preparing { epoch }),
                state,
            ),
            PacketPhase::Preparing { epoch } => if panicked {
                (self.aborted(EngineError::WorkerPanic), state)
            } else {
                (self.at(PacketPhase::Mixing { epoch }), state)
            },
            PacketPhase::Mixing { epoch } => if panicked {
                (self.aborted(EngineError::WorkerPanic), state)
            } else {
                (self.at(PacketPhase::Draining { epoch, refill: Refill::Tail }), state)
            },
            PacketPhase::Clearing { epoch } => (self.cleared(epoch), state),
            PacketPhase::Rendering { epoch, due } => if panicked {
                (self.aborted(EngineError::WorkerPanic), state)
            } else {
                (self.at(PacketPhase::Committing { epoch, due }), state)
            },
            PacketPhase::Committing { epoch, due } => if panicked {
                (self.aborted(EngineError::WorkerPanic), state)
            } else {
                match due {
                    Some(capture) => (
                        self.at(PacketPhase::Deferring { epoch, due: capture }),
                        state,
                    ),
                    None => (self.chunk(epoch, 0), state),
                }
            },
            PacketPhase::Deferring { epoch, .. } => if panicked {
                (self.aborted(EngineError::WorkerPanic), state)
            } else {
                (self.chunk(epoch, 0), state)
            },
            PacketPhase::Publishing { epoch, playback_sequence } => if panicked {
                (self.aborted(EngineError::WorkerPanic), state)
            } else {
                (
                    self.at(PacketPhase::Arming { epoch, playback_sequence }),
                    state.with_capture_delivered(),
                )
            },
            PacketPhase::Closing => if panicked {
                self.settled(state.ended(), EngineError::WorkerPanic)
            } else {
                PacketCycle {
                    sequence: self.sequence.wrapping_add(1),
                    periods_processed: self.periods_processed.wrapping_add(1),
                    ..self
                }.top(state.with_period_done(self.config.period as u64))
            },
            PacketPhase::Aborting { error } => self.settled(state, error),
            PacketPhase::RecoveryClearing { error } => (
                self.at(PacketPhase::Recovering { error }),
                state,
            ),
            _ => (self, state),
        }
    }

    /// What follows `event`. An event that was not asked for changes nothing.
    pub open spec fn next(self, state: RunState, event: CycleEvent) -> (PacketCycle, RunState) {
        match (self.phase, event) {
            (_, CycleEvent::Called { panicked }) => self.next_called(state, panicked),
            (PacketPhase::Asking, CycleEvent::Epoch(answer)) => match answer {
                Some(epoch) => if self.staged_epoch is Some && self.staged_epoch->0 != epoch {
                    (self.at(PacketPhase::StaleClearing { epoch }), state)
                } else {
                    (self.at(PacketPhase::Preparing { epoch }), state)
                },
                None => (self.aborted(EngineError::WorkerPanic), state.ended()),
            },
            (PacketPhase::Draining { epoch, refill }, CycleEvent::Waited(waited)) => match waited {
                Ok(_) => if state.control.stopping() {
                    (self.aborted(EngineError::Stopped), state)
                } else {
                    (self.write(epoch, refill), state)
                },
                Err(error) => (self.aborted(error), state),
            },
            (
                PacketPhase::Writing { epoch, refill, .. },
                CycleEvent::Written { result, write_nanos },
            ) => self.written(
                state.with_timeline(state.timeline.with_write_time(write_nanos)),
                epoch,
                refill,
                result,
            ),
            (PacketPhase::HandoffBudgeting { epoch, due }, CycleEvent::Clock { nanos }) => (
                if nanos < due.target_nanos {
                    self.at(PacketPhase::HandoffWaiting { epoch, due })
                } else {
                    self.at(PacketPhase::Rendering { epoch, due: Some(due) })
                },
                state.with_timeline(
                    crate::cycle::with_handoff_budget(state.timeline, due.target_nanos, nanos),
                ),
            ),
            (PacketPhase::HandoffWaiting { epoch, due }, CycleEvent::Waited(waited)) =>
                match waited {
                    Ok(_) => (self.at(PacketPhase::Rendering { epoch, due: Some(due) }), state),
                    Err(error) => (self.aborted(error), state),
                },
            (PacketPhase::Inspecting { epoch, capture }, CycleEvent::Status(status)) => (
                self.at(PacketPhase::Draining { epoch, refill: Refill::Before { capture } }),
                match status {
                    Some(seen) => state.with_timeline(
                        state.timeline.with_pcm_delay(
                            StreamDirection::Playback,
                            seen.delay,
                            self.config.hardware_period as u64,
                        ).with_delay_breakdown(seen.delay, seen.available, self.config.buffer),
                    ),
                    None => state,
                },
            ),
            (PacketPhase::Timing { epoch, capture }, CycleEvent::Clock { nanos }) => (
                self.read(epoch, capture),
                state.with_timeline(state.timeline.with_playback_write(self.sequence, nanos)),
            ),
            (PacketPhase::Reading { epoch, capture, .. }, CycleEvent::Captured(read)) =>
                self.captured(state, epoch, capture, read),
            (PacketPhase::Observing { epoch }, CycleEvent::CaptureObserved(seen)) =>
                self.observed(state, epoch, seen),
            (
                PacketPhase::Arming { epoch, playback_sequence },
                CycleEvent::Clock { nanos },
            ) => (self.armed(state, epoch, playback_sequence, nanos), state),
            (PacketPhase::Recovering { .. }, CycleEvent::Recovered(recovered)) => match recovered {
                Ok(_) => PacketCycle {
                    sequence: self.sequence.wrapping_add(1),
                    ..self
                }.top(state),
                Err(failure) => (
                    self.at(PacketPhase::Finished { result: Err(failure) }),
                    state,
                ),
            },
            _ => (self, state),
        }
    }

    /// What the phase asks for.
    pub open spec fn wants(self) -> CycleAction {
        match self.phase {
            PacketPhase::Opening => CycleAction::BeginCommit,
            PacketPhase::Asking => CycleAction::ReadEpoch,
            PacketPhase::StaleClearing { .. } => CycleAction::ClearPlayback,
            PacketPhase::Preparing { .. } => CycleAction::PreparePlayback {
                sequence: self.sequence,
            },
            PacketPhase::Mixing { .. } => CycleAction::PreparePlaybackMix {
                sequence: self.sequence,
            },
            PacketPhase::Draining { .. } => CycleAction::WaitPlaybackTarget,
            PacketPhase::Writing { offset, .. } => CycleAction::WritePlayback {
                offset,
                samples: self.playback_chunk_samples,
            },
            PacketPhase::Clearing { .. } => CycleAction::ClearPlayback,
            PacketPhase::HandoffBudgeting { .. } => CycleAction::ReadClock,
            PacketPhase::HandoffWaiting { due, .. } => CycleAction::WaitHandoff {
                target_nanos: due.target_nanos,
            },
            PacketPhase::Rendering { due, .. } => CycleAction::ProcessPlayback {
                sequence: self.sequence,
                cutoff_nanos: match due {
                    Some(capture) => Some(capture.target_nanos),
                    None => None,
                },
            },
            PacketPhase::Committing { .. } => CycleAction::CommitPlayback {
                sequence: self.sequence,
            },
            PacketPhase::Deferring { due, .. } => CycleAction::ProcessDeferredCapture {
                hardware_sequence: due.hardware_sequence,
            },
            PacketPhase::Inspecting { .. } => CycleAction::ReadPlaybackStatus,
            PacketPhase::Timing { .. } => CycleAction::ReadClock,
            PacketPhase::Reading { offset, .. } => CycleAction::ReadCapture {
                offset,
                samples: self.capture_chunk_samples,
            },
            PacketPhase::Observing { .. } => CycleAction::ObserveCapture,
            PacketPhase::Publishing { playback_sequence, .. } => CycleAction::ProcessCapture {
                hardware_sequence: self.sequence,
                playback_sequence,
            },
            PacketPhase::Arming { .. } => CycleAction::ReadClock,
            PacketPhase::Closing => CycleAction::EndCommit,
            PacketPhase::Aborting { .. } => CycleAction::ReleaseCommit,
            PacketPhase::RecoveryClearing { .. } => CycleAction::ClearPlayback,
            PacketPhase::Recovering { .. } => CycleAction::Recover,
            PacketPhase::Finished { .. } => CycleAction::Finish,
        }
    }

    /// What to do next.
    pub fn action(&self) -> (action: CycleAction)
        ensures
            action == self.wants(),
    {
        match self.phase {
            PacketPhase::Opening => CycleAction::BeginCommit,
            PacketPhase::Asking => CycleAction::ReadEpoch,
            PacketPhase::StaleClearing { .. } => CycleAction::ClearPlayback,
            PacketPhase::Preparing { .. } => CycleAction::PreparePlayback {
                sequence: self.sequence,
            },
            PacketPhase::Mixing { .. } => CycleAction::PreparePlaybackMix {
                sequence: self.sequence,
            },
            PacketPhase::Draining { .. } => CycleAction::WaitPlaybackTarget,
            PacketPhase::Writing { offset, .. } => CycleAction::WritePlayback {
                offset,
                samples: self.playback_chunk_samples,
            },
            PacketPhase::Clearing { .. } => CycleAction::ClearPlayback,
            PacketPhase::HandoffBudgeting { .. } => CycleAction::ReadClock,
            PacketPhase::HandoffWaiting { due, .. } => CycleAction::WaitHandoff {
                target_nanos: due.target_nanos,
            },
            PacketPhase::Rendering { due, .. } => CycleAction::ProcessPlayback {
                sequence: self.sequence,
                cutoff_nanos: match due {
                    Some(capture) => Some(capture.target_nanos),
                    None => None,
                },
            },
            PacketPhase::Committing { .. } => CycleAction::CommitPlayback {
                sequence: self.sequence,
            },
            PacketPhase::Deferring { due, .. } => CycleAction::ProcessDeferredCapture {
                hardware_sequence: due.hardware_sequence,
            },
            PacketPhase::Inspecting { .. } => CycleAction::ReadPlaybackStatus,
            PacketPhase::Timing { .. } => CycleAction::ReadClock,
            PacketPhase::Reading { offset, .. } => CycleAction::ReadCapture {
                offset,
                samples: self.capture_chunk_samples,
            },
            PacketPhase::Observing { .. } => CycleAction::ObserveCapture,
            PacketPhase::Publishing { playback_sequence, .. } => CycleAction::ProcessCapture {
                hardware_sequence: self.sequence,
                playback_sequence,
            },
            PacketPhase::Arming { .. } => CycleAction::ReadClock,
            PacketPhase::Closing => CycleAction::EndCommit,
            PacketPhase::Aborting { .. } => CycleAction::ReleaseCommit,
            PacketPhase::RecoveryClearing { .. } => CycleAction::ClearPlayback,
            PacketPhase::Recovering { .. } => CycleAction::Recover,
            PacketPhase::Finished { .. } => CycleAction::Finish,
        }
    }

    /// A cycle at its beginning.
    pub open spec fn fresh(
        config: LinkedProConfig,
        playback_chunk_samples: usize,
        capture_chunk_samples: usize,
    ) -> PacketCycle {
        PacketCycle {
            config,
            chunks: (config.period / config.hardware_period) as i64,
            playback_chunk_samples,
            capture_chunk_samples,
            playback_position: 0,
            capture_position: 0,
            sequence: 0,
            periods_processed: 0,
            pending: None,
            staged_epoch: None,
            phase: PacketPhase::Opening,
        }
    }

    /// A run that is about to begin its first cycle, unless its chunks cannot be counted.
    pub fn new(config: LinkedProConfig, state: &mut RunState) -> (result: Result<
        Self,
        EngineError,
    >)
        requires
            0 < config.hardware_period <= config.period,
        ensures
            ({
                let playback = crate::cycle::samples_in(
                    config.hardware_period,
                    config.playback_channels,
                );
                let capture = crate::cycle::samples_in(
                    config.hardware_period,
                    config.capture_channels,
                );
                if playback is None {
                    &&& result == Err::<PacketCycle, EngineError>(
                        EngineError::InvalidConfig(
                            ConfigError::Reason("playback chunk size overflow"),
                        ),
                    )
                    &&& *final(state) == *old(state)
                } else if capture is None {
                    &&& result == Err::<PacketCycle, EngineError>(
                        EngineError::InvalidConfig(
                            ConfigError::Reason("capture chunk size overflow"),
                        ),
                    )
                    &&& *final(state) == *old(state)
                } else {
                    &&& result matches Ok(cycle)
                    &&& cycle.wf()
                    &&& (cycle, *final(state)) == PacketCycle::fresh(
                        config,
                        playback->0,
                        capture->0,
                    ).top(*old(state))
                }
            }),
    {
        let playback_chunk_samples: usize = match frame_samples(
            config.hardware_period,
            config.playback_channels,
        ) {
            Some(samples) => samples,
            None => {
                return Err(
                    EngineError::InvalidConfig(
                        ConfigError::Reason("playback chunk size overflow"),
                    ),
                );
            },
        };
        let capture_chunk_samples: usize = match frame_samples(
            config.hardware_period,
            config.capture_channels,
        ) {
            Some(samples) => samples,
            None => {
                return Err(
                    EngineError::InvalidConfig(ConfigError::Reason("capture chunk size overflow")),
                );
            },
        };
        let chunks: i64 = config.period / config.hardware_period;
        proof {
            let period = config.period as int;
            let hardware = config.hardware_period as int;
            assert(period / hardware >= 1) by (nonlinear_arith)
                requires
                    0 < hardware <= period,
            ;
        }
        let mut cycle = PacketCycle {
            config,
            chunks,
            playback_chunk_samples,
            capture_chunk_samples,
            playback_position: 0,
            capture_position: 0,
            sequence: 0,
            periods_processed: 0,
            pending: None,
            staged_epoch: None,
            phase: PacketPhase::Opening,
        };
        cycle.go_to_top(state);
        Ok(cycle)
    }

    /// How the run ended, once it has.
    pub fn result(&self) -> (result: Option<Result<(), EngineError>>)
        ensures
            result == match self.phase {
                PacketPhase::Finished { result: ended } => Some(ended),
                _ => None,
            },
    {
        match &self.phase {
            PacketPhase::Finished { result } => Some(same_result(result)),
            _ => None,
        }
    }

    fn go_to_top(&mut self, state: &mut RunState)
        ensures
            (*final(self), *final(state)) == old(self).top(*old(state)),
    {
        if state.control.stop || period_limit_reached(
            self.periods_processed,
            self.config.max_periods,
        ) {
            state.end();
            self.phase = PacketPhase::Finished { result: Ok(()) };
        } else {
            self.phase = PacketPhase::Opening;
        }
    }

    fn settle(&mut self, state: &mut RunState, error: EngineError)
        ensures
            (*final(self), *final(state)) == old(self).settled(*old(state), error),
    {
        if error.is_stopped() {
            state.end();
            self.phase = PacketPhase::Finished { result: Ok(()) };
        } else if error.is_recoverable() {
            self.pending = None;
            self.staged_epoch = None;
            self.phase = PacketPhase::RecoveryClearing { error };
        } else {
            state.end();
            self.phase = PacketPhase::Finished { result: Err(error) };
        }
    }

    fn abort(&mut self, error: EngineError)
        ensures
            *final(self) == old(self).aborted(error),
    {
        self.phase = PacketPhase::Aborting { error };
    }

    fn begin_write(&mut self, epoch: u64, refill: Refill)
        requires
            old(self).chunks >= 1,
            refill matches Refill::Before { capture } ==> capture > 0,
        ensures
            *final(self) == old(self).write(epoch, refill),
    {
        let chunk: i64 = match refill {
            Refill::Tail => self.chunks - 1,
            Refill::Before { capture } => capture - 1,
        };
        match frame_samples(chunk, self.playback_chunk_samples) {
            Some(offset) => {
                self.phase = PacketPhase::Writing { epoch, refill, offset };
            },
            None => self.abort(
                EngineError::InvalidConfig(ConfigError::Reason("playback chunk offset overflow")),
            ),
        }
    }

    fn begin_read(&mut self, epoch: u64, capture: i64)
        ensures
            *final(self) == old(self).read(epoch, capture),
    {
        match frame_samples(capture, self.capture_chunk_samples) {
            Some(offset) => {
                self.phase = PacketPhase::Reading { epoch, capture, offset };
            },
            None => self.abort(
                EngineError::InvalidConfig(ConfigError::Reason("capture chunk offset overflow")),
            ),
        }
    }

    fn begin_chunk(&mut self, epoch: u64, capture: i64)
        ensures
            *final(self) == old(self).chunk(epoch, capture),
    {
        if capture == 0 {
            self.begin_read(epoch, capture);
        } else if capture == 1 {
            self.phase = PacketPhase::Inspecting { epoch, capture };
        } else {
            self.phase = PacketPhase::Draining { epoch, refill: Refill::Before { capture } };
        }
    }

    fn chunk_written(
        &mut self,
        state: &mut RunState,
        epoch: u64,
        refill: Refill,
        result: Result<i64, EngineError>,
    )
        ensures
            (*final(self), *final(state)) == old(self).written(*old(state), epoch, refill, result),
    {
        match result {
            Ok(frames) => if frames == self.config.hardware_period {
                self.playback_position =
                self.playback_position.wrapping_add(self.config.hardware_period as u64);
                state.timeline.update_playback_position(self.playback_position);
                match refill {
                    Refill::Tail => {
                        self.phase = PacketPhase::Clearing { epoch };
                    },
                    Refill::Before { capture } => if capture == 1 {
                        self.phase = PacketPhase::Timing { epoch, capture };
                    } else {
                        self.begin_read(epoch, capture);
                    },
                }
            } else {
                self.abort(
                    EngineError::ShortCommit {
                        direction: StreamDirection::Playback,
                        actual: frames,
                        required: self.config.hardware_period,
                    },
                );
            },
            Err(error) => self.abort(error),
        }
    }

    fn block_cleared(&mut self, epoch: u64)
        ensures
            *final(self) == old(self).cleared(epoch),
    {
        self.phase = match take_pending_pro_capture(&mut self.pending, self.sequence) {
            Some(due) => PacketPhase::HandoffBudgeting { epoch, due },
            None => PacketPhase::Rendering { epoch, due: None },
        };
    }

    fn chunk_captured(
        &mut self,
        state: &mut RunState,
        epoch: u64,
        capture: i64,
        result: Result<i64, EngineError>,
    )
        requires
            0 <= capture < old(self).chunks,
        ensures
            (*final(self), *final(state)) == old(self).captured(
                *old(state),
                epoch,
                capture,
                result,
            ),
    {
        match result {
            Ok(frames) => if frames == self.config.hardware_period {
                self.capture_position =
                self.capture_position.wrapping_add(self.config.hardware_period as u64);
                state.timeline.update_capture_position(self.capture_position);
                if capture + 1 == self.chunks {
                    self.phase = PacketPhase::Observing { epoch };
                } else if state.control.stop {
                    self.abort(EngineError::Stopped);
                } else {
                    self.begin_chunk(epoch, capture + 1);
                }
            } else {
                self.abort(
                    EngineError::ShortCommit {
                        direction: StreamDirection::Capture,
                        actual: frames,
                        required: self.config.hardware_period,
                    },
                );
            },
            Err(error) => self.abort(error),
        }
    }

    fn observe_capture(&mut self, state: &mut RunState, epoch: u64, seen: CaptureObservation)
        ensures
            (*final(self), *final(state)) == old(self).observed(*old(state), epoch, seen),
    {
        if let Some(delay) = seen.capture_delay {
            state.timeline.update_pcm_delay(
                StreamDirection::Capture,
                delay,
                self.config.period as u64,
            );
        }
        let playback_sequence: u64 = pro_target_sequence(
            self.sequence,
            self.config.sequence_lead,
        );
        state.timeline.record_pro_capture_read(playback_sequence, seen.nanos);
        self.phase = PacketPhase::Publishing { epoch, playback_sequence };
    }

    fn arm(&mut self, stop: bool, epoch: u64, playback_sequence: u64, now: u64)
        ensures
            forall|state: RunState|
                state.control.stop == stop ==> *final(self) == #[trigger] old(self).armed(
                    state,
                    epoch,
                    playback_sequence,
                    now,
                ),
    {
        self.pending = Some(
            PendingProCapture {
                hardware_sequence: self.sequence,
                playback_sequence,
                target_nanos: now.saturating_add(self.config.handoff_nanos),
            },
        );
        if stop {
            self.abort(EngineError::Stopped);
        } else {
            self.staged_epoch = Some(epoch);
            self.phase = PacketPhase::Closing;
        }
    }

    fn settle_abort(&mut self, state: &mut RunState)
        requires
            old(self).phase is Aborting,
        ensures
            (*final(self), *final(state)) == old(self).settled(
                *old(state),
                old(self).phase->Aborting_error,
            ),
    {
        if let PacketPhase::Aborting { error } = &self.phase {
            let cause = error.clone();
            self.settle(state, cause);
        }
    }

    fn begin_recovery(&mut self)
        requires
            old(self).phase is RecoveryClearing,
        ensures
            *final(self) == old(self).at(
                PacketPhase::Recovering { error: old(self).phase->RecoveryClearing_error },
            ),
    {
        if let PacketPhase::RecoveryClearing { error } = &self.phase {
            let cause = error.clone();
            self.phase = PacketPhase::Recovering { error: cause };
        }
    }

    /// Handles the outcome of client code.
    fn called(&mut self, state: &mut RunState, panicked: bool)
        ensures
            (*final(self), *final(state)) == old(self).next_called(*old(state), panicked),
    {
        match self.phase {
            PacketPhase::Opening => if panicked {
                state.end();
                self.settle(state, EngineError::WorkerPanic);
            } else {
                self.phase = PacketPhase::Asking;
            },
            PacketPhase::StaleClearing { epoch } => {
                self.phase = PacketPhase::Preparing { epoch };
            },
            PacketPhase::Preparing { epoch } => if panicked {
                self.abort(EngineError::WorkerPanic);
            } else {
                self.phase = PacketPhase::Mixing { epoch };
            },
            PacketPhase::Mixing { epoch } => if panicked {
                self.abort(EngineError::WorkerPanic);
            } else {
                self.phase = PacketPhase::Draining { epoch, refill: Refill::Tail };
            },
            PacketPhase::Clearing { epoch } => self.block_cleared(epoch),
            PacketPhase::Rendering { epoch, due } => if panicked {
                self.abort(EngineError::WorkerPanic);
            } else {
                self.phase = PacketPhase::Committing { epoch, due };
            },
            PacketPhase::Committing { epoch, due } => if panicked {
                self.abort(EngineError::WorkerPanic);
            } else {
                match due {
                    Some(capture) => {
                        self.phase = PacketPhase::Deferring { epoch, due: capture };
                    },
                    None => self.begin_chunk(epoch, 0),
                }
            },
            PacketPhase::Deferring { epoch, .. } => if panicked {
                self.abort(EngineError::WorkerPanic);
            } else {
                self.begin_chunk(epoch, 0);
            },
            PacketPhase::Publishing { epoch, playback_sequence } => if panicked {
                self.abort(EngineError::WorkerPanic);
            } else {
                state.capture_delivered();
                self.phase = PacketPhase::Arming { epoch, playback_sequence };
            },
            PacketPhase::Closing => if panicked {
                state.end();
                self.settle(state, EngineError::WorkerPanic);
            } else {
                self.sequence = next_sequence(self.sequence);
                self.periods_processed = self.periods_processed.wrapping_add(1);
                state.period_done(self.config.period as u64);
                self.go_to_top(state);
            },
            PacketPhase::Aborting { .. } => self.settle_abort(state),
            PacketPhase::RecoveryClearing { .. } => self.begin_recovery(),
            _ => {},
        }
    }

    /// Handles the outcome of the action that was asked for.
    pub fn step(&mut self, state: &mut RunState, event: CycleEvent)
        requires
            old(self).wf(),
        ensures
            final(self).wf(),
            (*final(self), *final(state)) == old(self).next(*old(state), event),
    {
        proof {
            chunk_numbers_stay_in_range(*self, *state, event);
        }
        if let CycleEvent::Called { panicked } = event {
            self.called(state, panicked);
            return ;
        }
        match self.phase {
            PacketPhase::Asking => if let CycleEvent::Epoch(answer) = event {
                match answer {
                    Some(epoch) => {
                        let stale: bool = match self.staged_epoch {
                            Some(staged_epoch) => staged_epoch != epoch,
                            None => false,
                        };
                        self.phase = if stale {
                            PacketPhase::StaleClearing { epoch }
                        } else {
                            PacketPhase::Preparing { epoch }
                        };
                    },
                    None => {
                        state.end();
                        self.abort(EngineError::WorkerPanic);
                    },
                }
            },
            PacketPhase::Draining { epoch, refill } => if let CycleEvent::Waited(waited) = event {
                match waited {
                    Ok(_) => if state.control.should_stop() {
                        self.abort(EngineError::Stopped);
                    } else {
                        self.begin_write(epoch, refill);
                    },
                    Err(error) => self.abort(error),
                }
            },
            PacketPhase::Writing { epoch, refill, .. } =>
                if let CycleEvent::Written { result, write_nanos } = event {
                    state.timeline.record_playback_write(write_nanos);
                    self.chunk_written(state, epoch, refill, result);
                },
            PacketPhase::HandoffBudgeting { epoch, due } =>
                if let CycleEvent::Clock { nanos } = event {
                    self.phase = if grant_handoff_budget(
                        &mut state.timeline,
                        due.target_nanos,
                        nanos,
                    ) {
                        PacketPhase::HandoffWaiting { epoch, due }
                    } else {
                        PacketPhase::Rendering { epoch, due: Some(due) }
                    };
                },
            PacketPhase::HandoffWaiting { epoch, due } =>
                if let CycleEvent::Waited(waited) = event {
                    match waited {
                        Ok(_) => {
                            self.phase = PacketPhase::Rendering { epoch, due: Some(due) };
                        },
                        Err(error) => self.abort(error),
                    }
                },
            PacketPhase::Inspecting { epoch, capture } =>
                if let CycleEvent::Status(status) = event {
                    if let Some(seen) = status {
                        state.timeline.update_pcm_delay(
                            StreamDirection::Playback,
                            seen.delay,
                            self.config.hardware_period as u64,
                        );
                        state.timeline.update_playback_delay_breakdown(
                            seen.delay,
                            seen.available,
                            self.config.buffer,
                        );
                    }
                    self.phase = PacketPhase::Draining { epoch, refill: Refill::Before { capture } };
                },
            PacketPhase::Timing { epoch, capture } => if let CycleEvent::Clock { nanos } = event {
                state.timeline.record_pro_playback_write(self.sequence, nanos);
                self.begin_read(epoch, capture);
            },
            PacketPhase::Reading { epoch, capture, .. } =>
                if let CycleEvent::Captured(read) = event {
                    self.chunk_captured(state, epoch, capture, read);
                },
            PacketPhase::Observing { epoch } => if let CycleEvent::CaptureObserved(seen) = event {
                self.observe_capture(state, epoch, seen);
            },
            PacketPhase::Arming { epoch, playback_sequence } =>
                if let CycleEvent::Clock { nanos } = event {
                    self.arm(state.control.stop, epoch, playback_sequence, nanos);
                },
            PacketPhase::Recovering { .. } => if let CycleEvent::Recovered(recovered) = event {
                match recovered {
                    Ok(_) => {
                        self.sequence = next_sequence(self.sequence);
                        self.go_to_top(state);
                    },
                    Err(failure) => {
                        self.phase = PacketPhase::Finished { result: Err(failure) };
                    },
                }
            },
            _ => {},
        }
    }
}

/// No step leaves the chunks of a period.
pub proof fn chunk_numbers_stay_in_range(cycle: PacketCycle, state: RunState, event: CycleEvent)
    requires
        cycle.wf(),
    ensures
        cycle.next(state, event).0.wf(),
{
}

/// Playback is being committed: the source's output must not be taken away.
pub open spec fn commits(phase: PacketPhase) -> bool {
    match phase {
        PacketPhase::Opening => false,
        PacketPhase::RecoveryClearing { .. } => false,
        PacketPhase::Recovering { .. } => false,
        PacketPhase::Finished { .. } => false,
        _ => true,
    }
}

/// Every commit that is begun is ended exactly once, and playback is written only inside one.
pub proof fn commits_are_bracketed(cycle: PacketCycle, state: RunState, event: CycleEvent)
    ensures
        !commits(cycle.phase) && commits(cycle.next(state, event).0.phase) ==> cycle.wants()
            == CycleAction::BeginCommit,
        commits(cycle.phase) && !commits(cycle.next(state, event).0.phase) ==> cycle.wants()
            == CycleAction::EndCommit || cycle.wants() == CycleAction::ReleaseCommit,
        cycle.wants() is WritePlayback ==> commits(cycle.phase),
{
}

/// A step leaves the sequence alone or moves to the following one; it moves only when the period
/// went through or was given up after a restart.
pub proof fn sequence_moves_one_period_at_a_time(
    cycle: PacketCycle,
    state: RunState,
    event: CycleEvent,
)
    ensures
        ({
            let later = cycle.next(state, event).0;
            &&& later.sequence == cycle.sequence || later.sequence
                == cycle.sequence.wrapping_add(1)
            &&& later.sequence != cycle.sequence ==> cycle.phase is Closing || cycle.phase
                is Recovering
            &&& later.periods_processed != cycle.periods_processed ==> cycle.phase is Closing
        }),
{
}

/// Driving a cycle is no hardware event.
pub proof fn steps_keep_the_hardware_history(
    cycle: PacketCycle,
    state: RunState,
    event: CycleEvent,
)
    ensures
        crate::timeline::same_hardware_history(
            state.timeline,
            cycle.next(state, event).1.timeline,
        ),
{
}

/// A chunk staged for output that was taken away is never played: when the source has another
/// epoch than the staged block, the block is silenced before anything is written.
pub proof fn stale_chunks_are_silenced(cycle: PacketCycle, state: RunState, epoch: u64)
    requires
        cycle.phase is Asking,
        cycle.staged_epoch is Some,
        cycle.staged_epoch->0 != epoch,
    ensures
        cycle.next(state, CycleEvent::Epoch(Some(epoch))).0.wants() == CycleAction::ClearPlayback,
{
}

/// A restart leaves nothing staged and nothing pending, and the block silent.
pub proof fn restarts_forget_staged_output(
    cycle: PacketCycle,
    state: RunState,
    error: EngineError,
)
    requires
        cycle.phase == (PacketPhase::Aborting { error }),
        error.recoverable(),
    ensures
        ({
            let (settled, after) = cycle.next(state, CycleEvent::Called { panicked: false });
            &&& settled.pending is None
            &&& settled.staged_epoch is None
            &&& settled.wants() == CycleAction::ClearPlayback
            &&& settled.next(after, CycleEvent::Called { panicked: false }).0.wants()
                == CycleAction::Recover
        }),
{
}

/// The chunks of one block are written in order: the tail of the previous block first, then before
/// each capture chunk but the first the playback chunk that comes before it.
pub proof fn chunks_are_written_in_order(cycle: PacketCycle, epoch: u64, capture: i64)
    requires
        0 < capture < cycle.chunks,
        crate::cycle::samples_in((capture - 1) as i64, cycle.playback_chunk_samples) is Some,
    ensures
        cycle.write(epoch, Refill::Before { capture }).wants() == (CycleAction::WritePlayback {
            offset: ((capture - 1) * cycle.playback_chunk_samples) as usize,
            samples: cycle.playback_chunk_samples,
        }),
{
}

/// Steps that a period of `chunks` chunks takes at most.
pub open spec fn packet_steps(chunks: i64) -> int {
    17 + 6 * chunks
}

/// Steps that are left of a period once capture chunk `capture` was read, at most.
pub open spec fn steps_after_chunk(chunks: i64, capture: i64) -> int {
    4 + 6 * (chunks - 1 - capture)
}

/// Steps that a phase leaves of its period at most.
pub open spec fn steps_left(chunks: i64, phase: PacketPhase) -> int {
    match phase {
        PacketPhase::Opening => 17 + 6 * chunks,
        PacketPhase::Asking => 16 + 6 * chunks,
        PacketPhase::StaleClearing { .. } => 15 + 6 * chunks,
        PacketPhase::Preparing { .. } => 14 + 6 * chunks,
        PacketPhase::Mixing { .. } => 13 + 6 * chunks,
        PacketPhase::Draining { refill: Refill::Tail, .. } => 12 + 6 * chunks,
        PacketPhase::Writing { refill: Refill::Tail, .. } => 11 + 6 * chunks,
        PacketPhase::Clearing { .. } => 10 + 6 * chunks,
        PacketPhase::HandoffBudgeting { .. } => 9 + 6 * chunks,
        PacketPhase::HandoffWaiting { .. } => 8 + 6 * chunks,
        PacketPhase::Rendering { .. } => 7 + 6 * chunks,
        PacketPhase::Committing { .. } => 6 + 6 * chunks,
        PacketPhase::Deferring { .. } => 5 + 6 * chunks,
        PacketPhase::Inspecting { capture, .. } => 5 + steps_after_chunk(chunks, capture),
        PacketPhase::Draining { refill: Refill::Before { capture }, .. } => 4 + steps_after_chunk(
            chunks,
            capture,
        ),
        PacketPhase::Writing { refill: Refill::Before { capture }, .. } => 3 + steps_after_chunk(
            chunks,
            capture,
        ),
        PacketPhase::Timing { capture, .. } => 2 + steps_after_chunk(chunks, capture),
        PacketPhase::Reading { capture, .. } => 1 + steps_after_chunk(chunks, capture),
        PacketPhase::Observing { .. } => 4,
        PacketPhase::Publishing { .. } => 3,
        PacketPhase::Arming { .. } => 2,
        PacketPhase::Closing => 1,
        _ => 0,
    }
}

/// A pair whose periods and chunks can be counted in samples.
pub open spec fn chunks_are_counted(config: LinkedProConfig) -> bool {
    &&& 0 < config.hardware_period <= config.period
    &&& crate::cycle::samples_in(config.period, config.playback_channels) is Some
    &&& crate::cycle::samples_in(config.period, config.capture_channels) is Some
}

/// A run of the cycle: `cycles` and `left` are the cycle and the state after each step, `found` the
/// state that each step found. The first of each is that of [`PacketCycle::new`].
pub open spec fn packet_run(
    config: LinkedProConfig,
    cycles: Seq<PacketCycle>,
    found: Seq<RunState>,
    left: Seq<RunState>,
    events: Seq<CycleEvent>,
) -> bool {
    &&& cycles.len() == found.len() == left.len() == events.len() + 1
    &&& (cycles[0], left[0]) == PacketCycle::fresh(
        config,
        crate::cycle::samples_in(config.hardware_period, config.playback_channels)->0,
        crate::cycle::samples_in(config.hardware_period, config.capture_channels)->0,
    ).top(found[0])
    &&& forall|i: int|
        #![trigger events[i]]
        0 <= i < events.len() ==> (cycles[i + 1], left[i + 1]) == cycles[i].next(
            found[i + 1],
            events[i],
        )
}

/// Nothing went wrong in a run, and nobody asked it to stop.
pub open spec fn packet_run_went_well(
    config: LinkedProConfig,
    cycles: Seq<PacketCycle>,
    found: Seq<RunState>,
    left: Seq<RunState>,
    events: Seq<CycleEvent>,
) -> bool {
    &&& !found[0].control.stopping()
    &&& forall|i: int|
        #![trigger events[i]]
        0 <= i < events.len() ==> undisturbed(left[i], found[i + 1]) && went_well(
            cycles[i].wants(),
            events[i],
            config.hardware_period,
        )
}

spec fn sized(config: LinkedProConfig, cycle: PacketCycle) -> bool {
    &&& cycle.config == config
    &&& cycle.chunks == config.period as int / config.hardware_period as int
    &&& Some(cycle.playback_chunk_samples) == crate::cycle::samples_in(
        config.hardware_period,
        config.playback_channels,
    )
    &&& Some(cycle.capture_chunk_samples) == crate::cycle::samples_in(
        config.hardware_period,
        config.capture_channels,
    )
}

spec fn on_course(
    config: LinkedProConfig,
    start: RunState,
    limit: u64,
    cycle: PacketCycle,
    state: RunState,
) -> bool {
    &&& cycle.wf()
    &&& sized(config, cycle)
    &&& cycle.periods_processed <= limit
    &&& has_processed(start, state, cycle.periods_processed as int, config.period)
    &&& if cycle.periods_processed == limit {
        cycle.phase == (PacketPhase::Finished { result: Ok(()) }) && state.control.done
    } else {
        &&& !state.control.stopping()
        &&& steps_left(cycle.chunks, cycle.phase) > 0
    }
}

/// Steps that are left of a run at most.
spec fn run_left(limit: u64, cycle: PacketCycle) -> int {
    if cycle.periods_processed >= limit {
        0
    } else {
        (limit - cycle.periods_processed - 1) * packet_steps(cycle.chunks) + steps_left(
            cycle.chunks,
            cycle.phase,
        )
    }
}

proof fn lemma_chunk_is_counted(config: LinkedProConfig, channels: usize, chunk: i64)
    requires
        0 < config.hardware_period <= config.period,
        crate::cycle::samples_in(config.period, channels) is Some,
        0 <= chunk < config.period as int / config.hardware_period as int,
    ensures
        crate::cycle::samples_in(config.hardware_period, channels) is Some,
        crate::cycle::samples_in(
            chunk,
            crate::cycle::samples_in(config.hardware_period, channels)->0,
        ) is Some,
{
    let period = config.period as int;
    let hardware = config.hardware_period as int;
    let c = channels as int;
    let n = chunk as int;
    vstd::arithmetic::div_mod::lemma_fundamental_div_mod(period, hardware);
    assert(n * hardware <= period) by (nonlinear_arith)
        requires
            0 <= n < period / hardware,
            hardware > 0,
            period == hardware * (period / hardware) + period % hardware,
            0 <= period % hardware,
    ;
    assert(hardware * c <= period * c) by (nonlinear_arith)
        requires
            hardware <= period,
            c >= 0,
    ;
    assert(n * (hardware * c) <= period * c) by (nonlinear_arith)
        requires
            n * hardware <= period,
            c >= 0,
    ;
    assert(n <= n * hardware) by (nonlinear_arith)
        requires
            n >= 0,
            hardware >= 1,
    ;
}

proof fn lemma_step_on_course(
    config: LinkedProConfig,
    start: RunState,
    limit: u64,
    cycle: PacketCycle,
    left: RunState,
    found: RunState,
    event: CycleEvent,
)
    requires
        config.max_periods == Some(limit),
        chunks_are_counted(config),
        on_course(config, start, limit, cycle, left),
        undisturbed(left, found),
        went_well(cycle.wants(), event, config.hardware_period),
    ensures
        ({
            let (later, state) = cycle.next(found, event);
            &&& on_course(config, start, limit, later, state)
            &&& run_left(limit, cycle) > 0 ==> run_left(limit, later) < run_left(limit, cycle)
            &&& run_left(limit, cycle) == 0 ==> run_left(limit, later) == 0
        }),
{
    chunk_numbers_stay_in_range(cycle, found, event);
    let (later, state) = cycle.next(found, event);
    assert forall|chunk: i64| 0 <= chunk < cycle.chunks implies #[trigger] crate::cycle::samples_in(
        chunk,
        cycle.playback_chunk_samples,
    ) is Some by {
        lemma_chunk_is_counted(config, config.playback_channels, chunk);
    }
    assert forall|chunk: i64| 0 <= chunk < cycle.chunks implies #[trigger] crate::cycle::samples_in(
        chunk,
        cycle.capture_chunk_samples,
    ) is Some by {
        lemma_chunk_is_counted(config, config.capture_channels, chunk);
    }
    let more = limit - cycle.periods_processed - 1;
    let steps = packet_steps(cycle.chunks);
    assert(more >= 1 ==> more * steps == (more - 1) * steps + steps) by (nonlinear_arith);
    assert(more >= 0 ==> more * steps >= 0) by (nonlinear_arith)
        requires
            steps >= 0,
    ;
    if cycle.phase is Closing {
        lemma_one_more_period(
            start,
            found,
            found.with_period_done(config.period as u64),
            cycle.periods_processed as int,
            config.period,
        );
    } else {
        assert(later.periods_processed == cycle.periods_processed);
    }
}

/// A limited run in which nothing goes wrong processes its periods and ends: after every step as
/// many periods and frames are counted as the cycle has processed, the run is over exactly when
/// these are all, and then it has succeeded and raised the flag. That takes at most six steps for
/// each chunk and seventeen more for each period.
pub proof fn a_limited_run_processes_its_periods(
    config: LinkedProConfig,
    limit: u64,
    cycles: Seq<PacketCycle>,
    found: Seq<RunState>,
    left: Seq<RunState>,
    events: Seq<CycleEvent>,
    k: int,
)
    requires
        config.max_periods == Some(limit),
        chunks_are_counted(config),
        packet_run(config, cycles, found, left, events),
        packet_run_went_well(config, cycles, found, left, events),
        0 <= k <= events.len(),
    ensures
        cycles[k].periods_processed <= limit,
        has_processed(found[0], left[k], cycles[k].periods_processed as int, config.period),
        cycles[k].phase is Finished <==> cycles[k].periods_processed == limit,
        cycles[k].phase is Finished ==> cycles[k].phase == (PacketPhase::Finished {
            result: Ok(()),
        }) && left[k].control.done,
        k >= limit * packet_steps(cycles[k].chunks) ==> cycles[k].phase is Finished,
{
    lemma_run_on_course(config, limit, cycles, found, left, events, k);
    let more = limit - cycles[k].periods_processed - 1;
    let steps = packet_steps(cycles[k].chunks);
    assert(more >= 0 ==> more * steps >= 0) by (nonlinear_arith)
        requires
            steps >= 0,
    ;
}

proof fn lemma_run_on_course(
    config: LinkedProConfig,
    limit: u64,
    cycles: Seq<PacketCycle>,
    found: Seq<RunState>,
    left: Seq<RunState>,
    events: Seq<CycleEvent>,
    k: int,
)
    requires
        config.max_periods == Some(limit),
        chunks_are_counted(config),
        packet_run(config, cycles, found, left, events),
        packet_run_went_well(config, cycles, found, left, events),
        0 <= k <= events.len(),
    ensures
        on_course(config, found[0], limit, cycles[k], left[k]),
        cycles[k].chunks == cycles[0].chunks,
        run_left(limit, cycles[k]) == 0 || run_left(limit, cycles[k]) + k <= limit * packet_steps(
            cycles[0].chunks,
        ),
    decreases k,
{
    if k == 0 {
        let period = config.period as int;
        let hardware = config.hardware_period as int;
        assert(1 <= period / hardware <= period) by (nonlinear_arith)
            requires
                0 < hardware <= period,
        ;
        lemma_chunk_is_counted(config, config.playback_channels, 0);
        lemma_chunk_is_counted(config, config.capture_channels, 0);
        assert(counted(found[0].timeline.periods_processed, 0)
            == found[0].timeline.periods_processed);
        assert(counted(found[0].timeline.sample_position, 0 * (config.period as int))
            == found[0].timeline.sample_position);
        let steps = packet_steps(cycles[0].chunks);
        assert((limit - 1) * steps + steps == limit * steps) by (nonlinear_arith);
    } else {
        lemma_run_on_course(config, limit, cycles, found, left, events, k - 1);
        assert((cycles[k], left[k]) == cycles[k - 1].next(found[k], events[k - 1]));
        lemma_step_on_course(
            config,
            found[0],
            limit,
            cycles[k - 1],
            left[k - 1],
            found[k],
            events[k - 1],
        );
    }
}

/// A period in chunks takes its course: a staged block of output that was taken away is silenced,
/// output is prepared and mixed, the tail of the previous block is written, the block is silenced,
/// a capture whose answer is due is waited for up to its target, and its output is taken up to
/// that target. Then chunk after chunk is captured, each but the first after the playback chunk
/// before it, and the whole period is handed to the client under the number at which it is
/// answered.
pub proof fn a_period_takes_its_course(cycle: PacketCycle, state: RunState, event: CycleEvent)
    requires
        cycle.wf(),
        !state.control.stop,
        !state.control.done,
        cycle.chunks * cycle.playback_chunk_samples <= usize::MAX,
        cycle.chunks * cycle.capture_chunk_samples <= usize::MAX,
        cycle.chunks <= usize::MAX,
        went_well(cycle.wants(), event, cycle.config.hardware_period),
    ensures
        ({
            let after = cycle.next(state, event).0;
            let number = cycle.sequence;
            &&& cycle.phase is Opening ==> cycle.wants() == CycleAction::BeginCommit
                && after.wants() == CycleAction::ReadEpoch
            &&& cycle.phase is Asking ==> {
                &&& event matches CycleEvent::Epoch(Some(epoch))
                &&& cycle.staged_epoch is None || cycle.staged_epoch == Some(epoch)
                    ==> after.wants() == (CycleAction::PreparePlayback { sequence: number })
                    && after.phase == (PacketPhase::Preparing { epoch })
                &&& cycle.staged_epoch is Some && cycle.staged_epoch != Some(epoch)
                    ==> after.wants() == CycleAction::ClearPlayback && after.phase == (
                PacketPhase::StaleClearing { epoch })
            }
            &&& cycle.phase matches PacketPhase::StaleClearing { epoch } ==> after.phase == (
            PacketPhase::Preparing { epoch })
            &&& cycle.phase matches PacketPhase::Preparing { epoch } ==> after.wants() == (
            CycleAction::PreparePlaybackMix { sequence: number }) && after.phase == (
            PacketPhase::Mixing { epoch })
            &&& cycle.phase matches PacketPhase::Mixing { epoch } ==> after.wants()
                == CycleAction::WaitPlaybackTarget && after.phase == (PacketPhase::Draining {
                epoch,
                refill: Refill::Tail,
            })
            &&& cycle.phase matches PacketPhase::Draining { epoch, refill } ==> {
                let chunk = match refill {
                    Refill::Tail => cycle.chunks - 1,
                    Refill::Before { capture } => capture - 1,
                };
                &&& after.wants() matches CycleAction::WritePlayback { offset, samples }
                &&& offset == chunk * cycle.playback_chunk_samples
                &&& samples == cycle.playback_chunk_samples
                &&& after.phase == PacketPhase::Writing { epoch, refill, offset }
            }
            &&& cycle.phase matches PacketPhase::Writing { epoch, refill, .. } ==> match refill {
                Refill::Tail => after.wants() == CycleAction::ClearPlayback && after.phase == (
                PacketPhase::Clearing { epoch }),
                Refill::Before { capture } => if capture == 1 {
                    after.phase == (PacketPhase::Timing { epoch, capture })
                } else {
                    after.wants() matches CycleAction::ReadCapture { offset, .. } && offset
                        == capture * cycle.capture_chunk_samples
                },
            }
            &&& cycle.phase matches PacketPhase::Rendering { epoch, due } ==> after.wants() == (
            CycleAction::CommitPlayback { sequence: number }) && after.phase == (
            PacketPhase::Committing { epoch, due })
            &&& cycle.phase matches PacketPhase::Timing { capture, .. } ==> after.wants() == (
            CycleAction::ReadCapture {
                offset: (capture * cycle.capture_chunk_samples) as usize,
                samples: cycle.capture_chunk_samples,
            })
            &&& cycle.phase matches PacketPhase::Inspecting { epoch, capture } ==> after.phase == (
            PacketPhase::Draining { epoch, refill: Refill::Before { capture } })
        }),
{
    assert forall|chunk: int, samples: usize|
        0 <= chunk < cycle.chunks && cycle.chunks * samples <= usize::MAX implies 0
            <= #[trigger] (chunk * samples) <= usize::MAX by {
        assert(0 <= chunk * samples <= cycle.chunks * samples) by (nonlinear_arith)
            requires
                0 <= chunk < cycle.chunks,
                samples >= 0,
        ;
    }
}

/// The same of the second half of the period: what is rendered is rendered up to the target of the
/// answer that is due, chunks are captured in order until the last, and what was captured is
/// numbered by the lead.
pub proof fn chunks_are_captured_in_order(cycle: PacketCycle, state: RunState, event: CycleEvent)
    requires
        cycle.wf(),
        !state.control.stop,
        !state.control.done,
        cycle.chunks * cycle.playback_chunk_samples <= usize::MAX,
        cycle.chunks * cycle.capture_chunk_samples <= usize::MAX,
        cycle.chunks <= usize::MAX,
        went_well(cycle.wants(), event, cycle.config.hardware_period),
    ensures
        ({
            let after = cycle.next(state, event).0;
            let number = cycle.sequence;
            &&& cycle.phase matches PacketPhase::Clearing { epoch } ==> match cycle.pending {
                Some(capture) => if capture.playback_sequence == number {
                    &&& after.wants() == CycleAction::ReadClock
                    &&& after.phase == PacketPhase::HandoffBudgeting { epoch, due: capture }
                    &&& after.pending is None
                } else {
                    &&& after.phase == PacketPhase::Rendering { epoch, due: None }
                    &&& after.pending == cycle.pending
                },
                None => after.phase == (PacketPhase::Rendering { epoch, due: None }),
            }
            &&& cycle.phase matches PacketPhase::HandoffBudgeting { epoch, due } ==> {
                &&& event matches CycleEvent::Clock { nanos }
                &&& nanos < due.target_nanos ==> after.wants() == (CycleAction::WaitHandoff {
                    target_nanos: due.target_nanos,
                }) && after.phase == (PacketPhase::HandoffWaiting { epoch, due })
                &&& nanos >= due.target_nanos ==> after.phase == (PacketPhase::Rendering {
                    epoch,
                    due: Some(due),
                })
            }
            &&& cycle.phase matches PacketPhase::HandoffWaiting { epoch, due } ==> after.phase == (
            PacketPhase::Rendering { epoch, due: Some(due) })
            &&& cycle.phase matches PacketPhase::Rendering { due, .. } ==> {
                &&& cycle.wants() matches CycleAction::ProcessPlayback { sequence, cutoff_nanos }
                &&& sequence == number
                &&& due is None ==> cutoff_nanos is None
                &&& due is Some ==> cutoff_nanos == Some(due->0.target_nanos)
            }
            &&& cycle.phase matches PacketPhase::Committing { epoch, due } ==> match due {
                Some(capture) => after.wants() == (CycleAction::ProcessDeferredCapture {
                    hardware_sequence: capture.hardware_sequence,
                }),
                None => after.phase == (PacketPhase::Reading { epoch, capture: 0, offset: 0 }),
            }
            &&& cycle.phase matches PacketPhase::Deferring { epoch, .. } ==> after.phase == (
            PacketPhase::Reading { epoch, capture: 0, offset: 0 })
            &&& cycle.phase matches PacketPhase::Reading { epoch, capture, .. } ==> {
                &&& capture + 1 == cycle.chunks ==> after.wants() == CycleAction::ObserveCapture
                &&& capture + 1 < cycle.chunks && capture == 0 ==> after.phase == (
                PacketPhase::Inspecting { epoch, capture: 1 })
                &&& capture + 1 < cycle.chunks && capture > 0 ==> after.phase == (
                PacketPhase::Draining {
                    epoch,
                    refill: Refill::Before { capture: (capture + 1) as i64 },
                })
            }
            &&& cycle.phase is Observing ==> {
                &&& after.wants() matches CycleAction::ProcessCapture {
                    hardware_sequence,
                    playback_sequence,
                }
                &&& hardware_sequence == number
                &&& playback_sequence == number.wrapping_add(cycle.config.sequence_lead)
            }
            &&& cycle.phase matches PacketPhase::Publishing { epoch, playback_sequence }
                ==> after.phase == (PacketPhase::Arming { epoch, playback_sequence })
            &&& cycle.phase matches PacketPhase::Arming { epoch, playback_sequence } ==> {
                &&& event matches CycleEvent::Clock { nanos }
                &&& after.wants() == CycleAction::EndCommit
                &&& after.staged_epoch == Some(epoch)
                &&& after.pending matches Some(capture)
                &&& capture.hardware_sequence == number
                &&& capture.playback_sequence == playback_sequence
                &&& nanos + cycle.config.handoff_nanos <= u64::MAX ==> capture.target_nanos == nanos
                    + cycle.config.handoff_nanos
            }
            &&& cycle.phase is Closing && cycle.config.max_periods is None ==> after.wants()
                == CycleAction::BeginCommit && after.sequence == number.wrapping_add(1)
        }),
{
    assert forall|chunk: int, samples: usize|
        0 <= chunk < cycle.chunks && cycle.chunks * samples <= usize::MAX implies 0
            <= #[trigger] (chunk * samples) <= usize::MAX by {
        assert(0 <= chunk * samples <= cycle.chunks * samples) by (nonlinear_arith)
            requires
                0 <= chunk < cycle.chunks,
                samples >= 0,
        ;
    }
}

/// What a failure comes to: the commit is let go first; then one that the streams can be restarted
/// after silences the block and asks for the restart with itself, a request to stop ends the run
/// quietly, and any other ends the run with itself.
pub proof fn a_failure_restarts_or_ends_the_run(
    cycle: PacketCycle,
    state: RunState,
    error: EngineError,
    write_nanos: u64,
)
    ensures
        ({
            let recoverable = error is Xrun || error is LinkedXrun || error is Suspended;
            let event = match cycle.phase {
                PacketPhase::Reading { .. } => CycleEvent::Captured(Err(error)),
                PacketPhase::Writing { .. } => CycleEvent::Written {
                    result: Err(error),
                    write_nanos,
                },
                _ => CycleEvent::Waited(Err(error)),
            };
            let (after, found) = cycle.next(state, event);
            &&& cycle.phase is Reading || cycle.phase is Writing || cycle.phase is Draining
                || cycle.phase is HandoffWaiting ==> after.wants() == CycleAction::ReleaseCommit
                && after.phase == (PacketPhase::Aborting { error })
            &&& cycle.phase == (PacketPhase::Aborting { error }) ==> {
                let (settled, left) = cycle.next(state, CycleEvent::Called { panicked: false });
                &&& recoverable ==> settled.phase == (PacketPhase::RecoveryClearing { error })
                    && left == state
                &&& error is Stopped ==> settled.phase == (PacketPhase::Finished {
                    result: Ok(()),
                }) && left.control.done
                &&& !recoverable && !(error is Stopped) ==> settled.phase == (
                PacketPhase::Finished { result: Err(error) }) && left.control.done
            }
            &&& cycle.phase == (PacketPhase::RecoveryClearing { error }) ==> cycle.next(
                state,
                CycleEvent::Called { panicked: false },
            ).0.phase == (PacketPhase::Recovering { error })
        }),
        cycle.phase is Recovering ==> {
            let again = cycle.next(state, CycleEvent::Recovered(Ok(()))).0;
            let ended = cycle.next(state, CycleEvent::Recovered(Err(error))).0;
            &&& again.sequence == cycle.sequence.wrapping_add(1)
            &&& again.periods_processed == cycle.periods_processed
            &&& !state.control.stop && cycle.config.max_periods is None ==> again.wants()
                == CycleAction::BeginCommit
            &&& ended.phase == PacketPhase::Finished { result: Err(error) }
        },
{
}

/// Client code that panics ends the run as a panic of the worker once the commit is let go, and a
/// chunk of another length than a hardware period ends it as a short one.
pub proof fn panics_and_short_chunks_end_the_run(
    cycle: PacketCycle,
    state: RunState,
    frames: i64,
    write_nanos: u64,
)
    requires
        frames != cycle.config.hardware_period,
    ensures
        ({
            let (after, found) = cycle.next(state, CycleEvent::Called { panicked: true });
            let inside = cycle.phase is Preparing || cycle.phase is Mixing || cycle.phase
                is Rendering || cycle.phase is Committing || cycle.phase is Deferring
                || cycle.phase is Publishing;
            &&& inside ==> after.phase == (PacketPhase::Aborting {
                error: EngineError::WorkerPanic,
            })
            &&& cycle.phase is Opening || cycle.phase is Closing ==> after.phase == (
            PacketPhase::Finished { result: Err(EngineError::WorkerPanic) }) && found.control.done
        }),
        cycle.phase is Reading ==> cycle.next(state, CycleEvent::Captured(Ok(frames))).0.phase == (
        PacketPhase::Aborting {
            error: EngineError::ShortCommit {
                direction: StreamDirection::Capture,
                actual: frames,
                required: cycle.config.hardware_period,
            },
        }),
        cycle.phase is Writing ==> cycle.next(
            state,
            CycleEvent::Written { result: Ok(frames), write_nanos },
        ).0.phase == (PacketPhase::Aborting {
            error: EngineError::ShortCommit {
                direction: StreamDirection::Playback,
                actual: frames,
                required: cycle.config.hardware_period,
            },
        }),
{
}

/// What a cycle records: the streams stand a hardware period further after each chunk, the delays
/// are those that were reported, and the capture is remembered under the number at which it is
/// answered.
pub proof fn chunks_are_recorded_as_they_were_seen(
    cycle: PacketCycle,
    state: RunState,
    seen: CaptureObservation,
    nanos: u64,
    write_nanos: u64,
    status: crate::cycle::PlaybackStatus,
)
    requires
        cycle.wf(),
        cycle.config.hardware_period >= 0,
        cycle.capture_position + cycle.config.hardware_period <= u64::MAX,
        cycle.playback_position + cycle.config.hardware_period <= u64::MAX,
        0 <= status.delay,
        seen.capture_delay is Some ==> 0 <= seen.capture_delay->0,
    ensures
        cycle.phase is Observing ==> {
            let found = cycle.next(state, CycleEvent::CaptureObserved(seen)).1;
            &&& seen.capture_delay is Some ==> found.timeline.capture_delay_frames
                == seen.capture_delay->0
            &&& 0 < seen.nanos <= nanos ==> found.timeline.elapsed_since_capture(
                cycle.sequence.wrapping_add(cycle.config.sequence_lead),
                nanos,
            ) == Some((nanos - seen.nanos) as u64)
        },
        cycle.phase is Inspecting ==> {
            let found = cycle.next(state, CycleEvent::Status(Some(status))).1;
            &&& found.timeline.playback_delay_frames == status.delay
            &&& 0 <= status.available <= cycle.config.buffer
                ==> found.timeline.playback_ring_delay_frames + status.available
                == cycle.config.buffer
        },
        cycle.phase is Writing ==> {
            let (after, found) = cycle.next(
                state,
                CycleEvent::Written { result: Ok(cycle.config.hardware_period), write_nanos },
            );
            &&& after.playback_position == cycle.playback_position + cycle.config.hardware_period
            &&& found.timeline.playback_position == after.playback_position
            &&& found.timeline.playback_write_max_nanos >= write_nanos
        },
        cycle.phase is Reading ==> {
            let (after, found) = cycle.next(
                state,
                CycleEvent::Captured(Ok(cycle.config.hardware_period)),
            );
            &&& after.capture_position == cycle.capture_position + cycle.config.hardware_period
            &&& found.timeline.capture_position == after.capture_position
        },
        cycle.phase is Timing ==> {
            let found = cycle.next(state, CycleEvent::Clock { nanos }).1;
            state.timeline.elapsed_since_capture(cycle.sequence, nanos) matches Some(elapsed)
                ==> found.timeline.capture_to_playback_write_nanos == elapsed
        },
{
    crate::timeline::lemma_capture_is_remembered(
        state.timeline.pro_timing,
        cycle.answer_sequence(),
        seen.nanos,
    );
}

/// A period is cut into as many chunks as hardware periods fit it, and only a pair with lead whose
/// hardware periods are the smaller ones works so.
pub proof fn a_period_is_cut_into_hardware_periods(
    config: LinkedProConfig,
    playback_chunk_samples: usize,
    capture_chunk_samples: usize,
)
    requires
        config.wf(),
    ensures
        ({
            let chunks = PacketCycle::fresh(
                config,
                playback_chunk_samples,
                capture_chunk_samples,
            ).chunks;
            &&& chunks * config.hardware_period <= config.period
            &&& config.period < (chunks + 1) * config.hardware_period
        }),
        staged(config.sequence_lead, config.period, config.hardware_period)
            <==> config.sequence_lead > 0 && config.hardware_period < config.period,
{
    let period = config.period as int;
    let hardware = config.hardware_period as int;
    vstd::arithmetic::div_mod::lemma_fundamental_div_mod(period, hardware);
    vstd::arithmetic::div_mod::lemma_mod_bound(period, hardware);
    let chunks = period / hardware;
    assert(chunks * hardware <= period < (chunks + 1) * hardware && 0 <= chunks <= period)
        by (nonlinear_arith)
        requires
            period == hardware * chunks + period % hardware,
            0 <= period % hardware < hardware,
            period > 0,
    ;
}

} // verus!
