//! The linked cycle with lead: a captured period is answered some cycles later.
//!
//! One cycle writes the answer to an earlier capture and then reads a new one, whose client has
//! until the cycle of its playback sequence.
use vstd::prelude::*;
use crate::cycle::{
    counted, grant_handoff_budget, has_processed, lemma_one_more_period, period_limit_reached,
    take_pending_pro_capture, undisturbed, went_well, CaptureObservation, CycleAction, CycleEvent,
    LinkedProConfig, PendingProCapture, RunState,
};
use crate::error::{same_result, EngineError, StreamDirection};
use crate::sequence::{next_sequence, pro_target_sequence};

verus! {

/// Where a cycle stands. `due` is the capture whose answer the cycle plays.
#[derive(Debug)]
pub enum AheadPhase {
    Preparing,
    Mixing,
    Clearing,
    HandoffBudgeting { due: PendingProCapture },
    HandoffWaiting { due: PendingProCapture },
    Opening { due: Option<PendingProCapture> },
    Rendering { due: Option<PendingProCapture> },
    Committing { due: Option<PendingProCapture> },
    Deferring { due: PendingProCapture },
    Draining,
    Inspecting,
    Writing,
    Closing { written: Result<i64, EngineError> },
    /// Looking at the clock after the write.
    Timing,
    Reading,
    Observing,
    Publishing { playback_sequence: u64 },
    /// Looking at the clock to decide when the answer is due.
    Arming { playback_sequence: u64 },
    Recovering { error: EngineError, opened: bool },
    Releasing,
    Finished { result: Result<(), EngineError>, opened: bool },
}

/// The linked cycle with lead.
#[derive(Debug)]
pub struct AheadCycle {
    pub config: LinkedProConfig,
    pub playback_position: u64,
    pub capture_position: u64,
    pub sequence: u64,
    pub periods_processed: u64,
    pub pending: Option<PendingProCapture>,
    pub phase: AheadPhase,
}

impl AheadCycle {
    pub open spec fn at(self, phase: AheadPhase) -> AheadCycle {
        AheadCycle { phase, ..self }
    }

    /// A cycle that has processed nothing.
    pub open spec fn unstarted(config: LinkedProConfig) -> AheadCycle {
        AheadCycle {
            config,
            playback_position: 0,
            capture_position: 0,
            sequence: 0,
            periods_processed: 0,
            pending: None,
            phase: AheadPhase::Preparing,
        }
    }

    /// The top of the loop: the run ends when it is asked to or has processed its periods.
    pub open spec fn top(self, state: RunState) -> (AheadCycle, RunState) {
        if state.control.stopping() || crate::cycle::limit_reached(
            self.periods_processed,
            self.config.max_periods,
        ) {
            (self.at(AheadPhase::Finished { result: Ok(()), opened: false }), state.ended())
        } else {
            (self.at(AheadPhase::Preparing), state)
        }
    }

    /// A failure that ends the run.
    pub open spec fn fatal(self, state: RunState, error: EngineError, opened: bool) -> (
        AheadCycle,
        RunState,
    ) {
        (self.at(AheadPhase::Finished { result: Err(error), opened }), state.ended())
    }

    /// A failure that is handed to the caller of the run as it is.
    pub open spec fn handed_on(self, error: EngineError, opened: bool) -> AheadCycle {
        self.at(AheadPhase::Finished { result: Err(error), opened })
    }

    /// A failed wait or transfer: a recoverable failure restarts the streams and forgets the
    /// pending capture, a request to stop ends the run quietly, and any other ends the run with
    /// it.
    pub open spec fn failed(self, state: RunState, error: EngineError, opened: bool) -> (
        AheadCycle,
        RunState,
    ) {
        if error.recoverable() {
            (
                AheadCycle {
                    pending: None,
                    phase: AheadPhase::Recovering { error, opened },
                    ..self
                },
                state,
            )
        } else if error is Stopped {
            (self.at(AheadPhase::Finished { result: Ok(()), opened }), state.ended())
        } else {
            self.fatal(state, error, opened)
        }
    }

    /// The cycle once the block is silent: the pending capture is taken if its answer is due.
    pub open spec fn cleared(self) -> AheadCycle {
        match crate::cycle::due_capture(self.pending, self.sequence) {
            Some(due) => AheadCycle {
                pending: None,
                phase: AheadPhase::HandoffBudgeting { due },
                ..self
            },
            None => self.at(AheadPhase::Opening { due: None }),
        }
    }

    /// What a finished write comes to, once the commit has ended.
    pub open spec fn written(self, state: RunState, result: Result<i64, EngineError>) -> (
        AheadCycle,
        RunState,
    ) {
        match result {
            Ok(frames) => if frames == self.config.period {
                let position = self.playback_position.wrapping_add(self.config.period as u64);
                (
                    AheadCycle { playback_position: position, phase: AheadPhase::Timing, ..self },
                    state.with_timeline(
                        crate::timeline::HardwareTimeline {
                            playback_position: position,
                            ..state.timeline
                        },
                    ),
                )
            } else {
                self.fatal(
                    state,
                    EngineError::ShortCommit {
                        direction: StreamDirection::Playback,
                        actual: frames,
                        required: self.config.period,
                    },
                    false,
                )
            },
            Err(error) => self.failed(state, error, false),
        }
    }

    /// The sequence at which a period captured now is played.
    pub open spec fn answer_sequence(self) -> u64 {
        crate::sequence::sequence_after(self.sequence, self.config.sequence_lead as int)
    }

    /// The state after a capture period was observed.
    pub open spec fn observed(self, state: RunState, seen: CaptureObservation) -> (
        AheadCycle,
        RunState,
    ) {
        let position = self.capture_position.wrapping_add(self.config.period as u64);
        let delayed = match seen.capture_delay {
            Some(delay) => state.timeline.with_pcm_delay(
                StreamDirection::Capture,
                delay,
                self.config.period as u64,
            ),
            None => state.timeline,
        };
        let moved = crate::timeline::HardwareTimeline { capture_position: position, ..delayed };
        (
            AheadCycle {
                capture_position: position,
                phase: AheadPhase::Publishing { playback_sequence: self.answer_sequence() },
                ..self
            },
            state.with_timeline(moved.with_capture_read(self.answer_sequence(), seen.nanos)),
        )
    }

    /// The cycle and the state after its period went through at `now`.
    pub open spec fn completed(self, state: RunState, playback_sequence: u64, now: u64) -> (
        AheadCycle,
        RunState,
    ) {
        (
            AheadCycle {
                pending: Some(
                    PendingProCapture {
                        hardware_sequence: self.sequence,
                        playback_sequence,
                        target_nanos: crate::arith::clamp_u64(now + self.config.handoff_nanos),
                    },
                ),
                sequence: self.sequence.wrapping_add(1),
                periods_processed: self.periods_processed.wrapping_add(1),
                ..self
            },
            state.with_period_done(self.config.period as u64),
        )
    }

    /// What follows client code.
    pub open spec fn next_called(self, state: RunState, panicked: bool) -> (AheadCycle, RunState) {
        match self.phase {
            AheadPhase::Preparing => if panicked {
                (self.handed_on(EngineError::WorkerPanic, false), state)
            } else {
                (self.at(AheadPhase::Mixing), state)
            },
            AheadPhase::Mixing => if panicked {
                (self.handed_on(EngineError::WorkerPanic, false), state)
            } else {
                (self.at(AheadPhase::Clearing), state)
            },
            AheadPhase::Clearing => (self.cleared(), state),
            AheadPhase::Opening { due } => if panicked {
                self.fatal(state, EngineError::WorkerPanic, false)
            } else {
                (self.at(AheadPhase::Rendering { due }), state)
            },
            AheadPhase::Rendering { due } => if panicked {
                (self.handed_on(EngineError::WorkerPanic, true), state)
            } else {
                (self.at(AheadPhase::Committing { due }), state)
            },
            AheadPhase::Committing { due } => if panicked {
                (self.handed_on(EngineError::WorkerPanic, true), state)
            } else {
                match due {
                    Some(capture) => (self.at(AheadPhase::Deferring { due: capture }), state),
                    None => (self.at(AheadPhase::Draining), state),
                }
            },
            AheadPhase::Deferring { .. } => if panicked {
                (self.handed_on(EngineError::WorkerPanic, true), state)
            } else {
                (self.at(AheadPhase::Draining), state)
            },
            AheadPhase::Closing { written } => if panicked {
                self.fatal(state, EngineError::WorkerPanic, false)
            } else {
                self.written(state, written)
            },
            AheadPhase::Publishing { playback_sequence } => if panicked {
                self.fatal(state, EngineError::WorkerPanic, false)
            } else {
                (
                    self.at(AheadPhase::Arming { playback_sequence }),
                    state.with_capture_delivered(),
                )
            },
            AheadPhase::Releasing => self.top(state),
            AheadPhase::Finished { result, .. } => (
                self.at(AheadPhase::Finished { result, opened: false }),
                state,
            ),
            _ => (self, state),
        }
    }

    /// What follows `event`. An event that was not asked for changes nothing.
    pub open spec fn next(self, state: RunState, event: CycleEvent) -> (AheadCycle, RunState) {
        match (self.phase, event) {
            (_, CycleEvent::Called { panicked }) => self.next_called(state, panicked),
            (AheadPhase::HandoffBudgeting { due }, CycleEvent::Clock { nanos }) => (
                if nanos < due.target_nanos {
                    self.at(AheadPhase::HandoffWaiting { due })
                } else {
                    self.at(AheadPhase::Opening { due: Some(due) })
                },
                state.with_timeline(
                    crate::cycle::with_handoff_budget(state.timeline, due.target_nanos, nanos),
                ),
            ),
            (AheadPhase::HandoffWaiting { due }, CycleEvent::Waited(waited)) => match waited {
                Ok(_) => (self.at(AheadPhase::Opening { due: Some(due) }), state),
                Err(error) => (self.handed_on(error, false), state),
            },
            (AheadPhase::Draining, CycleEvent::Waited(waited)) => match waited {
                Ok(_) => if state.control.stopping() {
                    (self.handed_on(EngineError::Stopped, true), state)
                } else {
                    (self.at(AheadPhase::Inspecting), state)
                },
                Err(error) => self.failed(state, error, true),
            },
            (AheadPhase::Inspecting, CycleEvent::Status(status)) => (
                self.at(AheadPhase::Writing),
                match status {
                    Some(seen) => state.with_timeline(
                        state.timeline.with_pcm_delay(
                            StreamDirection::Playback,
                            seen.delay,
                            self.config.period as u64,
                        ).with_delay_breakdown(seen.delay, seen.available, self.config.buffer),
                    ),
                    None => state,
                },
            ),
            (AheadPhase::Writing, CycleEvent::Written { result, write_nanos }) => (
                self.at(AheadPhase::Closing { written: result }),
                state.with_timeline(state.timeline.with_write_time(write_nanos)),
            ),
            (AheadPhase::Timing, CycleEvent::Clock { nanos }) => (
                self.at(AheadPhase::Reading),
                state.with_timeline(state.timeline.with_playback_write(self.sequence, nanos)),
            ),
            (AheadPhase::Reading, CycleEvent::Captured(read)) => match read {
                Ok(frames) => if frames == self.config.period {
                    (self.at(AheadPhase::Observing), state)
                } else {
                    self.fatal(
                        state,
                        EngineError::ShortCommit {
                            direction: StreamDirection::Capture,
                            actual: frames,
                            required: self.config.period,
                        },
                        false,
                    )
                },
                Err(error) => self.failed(state, error, false),
            },
            (AheadPhase::Observing, CycleEvent::CaptureObserved(seen)) => self.observed(
                state,
                seen,
            ),
            (AheadPhase::Arming { playback_sequence }, CycleEvent::Clock { nanos }) => {
                let (cycle, after) = self.completed(state, playback_sequence, nanos);
                cycle.top(after)
            },
            (AheadPhase::Recovering { opened, .. }, CycleEvent::Recovered(recovered)) =>
                match recovered {
                    Ok(_) => {
                        let cycle = AheadCycle {
                            sequence: self.sequence.wrapping_add(1),
                            ..self
                        };
                        if opened {
                            (cycle.at(AheadPhase::Releasing), state)
                        } else {
                            cycle.top(state)
                        }
                    },
                    Err(failure) => (self.handed_on(failure, opened), state),
                },
            _ => (self, state),
        }
    }

    /// What the phase asks for.
    pub open spec fn wants(self) -> CycleAction {
        match self.phase {
            AheadPhase::Preparing => CycleAction::PreparePlayback { sequence: self.sequence },
            AheadPhase::Mixing => CycleAction::PreparePlaybackMix { sequence: self.sequence },
            AheadPhase::Clearing => CycleAction::ClearPlayback,
            AheadPhase::HandoffBudgeting { .. } => CycleAction::ReadClock,
            AheadPhase::HandoffWaiting { due } => CycleAction::WaitHandoff {
                target_nanos: due.target_nanos,
            },
            AheadPhase::Opening { .. } => CycleAction::BeginCommit,
            AheadPhase::Rendering { due } => CycleAction::ProcessPlayback {
                sequence: self.sequence,
                cutoff_nanos: match due {
                    Some(capture) => Some(capture.target_nanos),
                    None => None,
                },
            },
            AheadPhase::Committing { .. } => CycleAction::CommitPlayback {
                sequence: self.sequence,
            },
            AheadPhase::Deferring { due } => CycleAction::ProcessDeferredCapture {
                hardware_sequence: due.hardware_sequence,
            },
            AheadPhase::Draining => CycleAction::WaitPlaybackTarget,
            AheadPhase::Inspecting => CycleAction::ReadPlaybackStatus,
            AheadPhase::Writing => CycleAction::WritePlayback {
                offset: 0,
                samples: self.config.playback_period_samples,
            },
            AheadPhase::Closing { .. } => CycleAction::EndCommit,
            AheadPhase::Timing => CycleAction::ReadClock,
            AheadPhase::Reading => CycleAction::ReadCapture {
                offset: 0,
                samples: self.config.capture_period_samples,
            },
            AheadPhase::Observing => CycleAction::ObserveCapture,
            AheadPhase::Publishing { playback_sequence } => CycleAction::ProcessCapture {
                hardware_sequence: self.sequence,
                playback_sequence,
            },
            AheadPhase::Arming { .. } => CycleAction::ReadClock,
            AheadPhase::Recovering { .. } => CycleAction::Recover,
            AheadPhase::Releasing => CycleAction::ReleaseCommit,
            AheadPhase::Finished { opened, .. } => if opened {
                CycleAction::ReleaseCommit
            } else {
                CycleAction::Finish
            },
        }
    }

    /// What to do next.
    pub fn action(&self) -> (action: CycleAction)
        ensures
            action == self.wants(),
    {
        match self.phase {
            AheadPhase::Preparing => CycleAction::PreparePlayback { sequence: self.sequence },
            AheadPhase::Mixing => CycleAction::PreparePlaybackMix { sequence: self.sequence },
            AheadPhase::Clearing => CycleAction::ClearPlayback,
            AheadPhase::HandoffBudgeting { .. } => CycleAction::ReadClock,
            AheadPhase::HandoffWaiting { due } => CycleAction::WaitHandoff {
                target_nanos: due.target_nanos,
            },
            AheadPhase::Opening { .. } => CycleAction::BeginCommit,
            AheadPhase::Rendering { due } => CycleAction::ProcessPlayback {
                sequence: self.sequence,
                cutoff_nanos: match due {
                    Some(capture) => Some(capture.target_nanos),
                    None => None,
                },
            },
            AheadPhase::Committing { .. } => CycleAction::CommitPlayback {
                sequence: self.sequence,
            },
            AheadPhase::Deferring { due } => CycleAction::ProcessDeferredCapture {
                hardware_sequence: due.hardware_sequence,
            },
            AheadPhase::Draining => CycleAction::WaitPlaybackTarget,
            AheadPhase::Inspecting => CycleAction::ReadPlaybackStatus,
            AheadPhase::Writing => CycleAction::WritePlayback {
                offset: 0,
                samples: self.config.playback_period_samples,
            },
            AheadPhase::Closing { .. } => CycleAction::EndCommit,
            AheadPhase::Timing => CycleAction::ReadClock,
            AheadPhase::Reading => CycleAction::ReadCapture {
                offset: 0,
                samples: self.config.capture_period_samples,
            },
            AheadPhase::Observing => CycleAction::ObserveCapture,
            AheadPhase::Publishing { playback_sequence } => CycleAction::ProcessCapture {
                hardware_sequence: self.sequence,
                playback_sequence,
            },
            AheadPhase::Arming { .. } => CycleAction::ReadClock,
            AheadPhase::Recovering { .. } => CycleAction::Recover,
            AheadPhase::Releasing => CycleAction::ReleaseCommit,
            AheadPhase::Finished { opened, .. } => if opened {
                CycleAction::ReleaseCommit
            } else {
                CycleAction::Finish
            },
        }
    }

    /// A run that is about to begin its first cycle.
    pub fn new(config: LinkedProConfig, state: &mut RunState) -> (cycle: Self)
        ensures
            (cycle, *final(state)) == AheadCycle::unstarted(config).top(*old(state)),
    {
        let mut cycle = AheadCycle {
            config,
            playback_position: 0,
            capture_position: 0,
            sequence: 0,
            periods_processed: 0,
            pending: None,
            phase: AheadPhase::Preparing,
        };
        cycle.go_to_top(state);
        cycle
    }

    /// How the run ended, once it has.
    pub fn result(&self) -> (result: Option<Result<(), EngineError>>)
        ensures
            result == match self.phase {
                AheadPhase::Finished { result: ended, opened: false } => Some(ended),
                _ => None,
            },
    {
        match &self.phase {
            AheadPhase::Finished { result, opened } => if *opened {
                None
            } else {
                Some(same_result(result))
            },
            _ => None,
        }
    }

    fn go_to_top(&mut self, state: &mut RunState)
        ensures
            (*final(self), *final(state)) == old(self).top(*old(state)),
    {
        if state.control.should_stop() || period_limit_reached(
            self.periods_processed,
            self.config.max_periods,
        ) {
            state.end();
            self.phase = AheadPhase::Finished { result: Ok(()), opened: false };
        } else {
            self.phase = AheadPhase::Preparing;
        }
    }

    fn end_with(&mut self, state: &mut RunState, error: EngineError, opened: bool)
        ensures
            (*final(self), *final(state)) == old(self).fatal(*old(state), error, opened),
    {
        state.end();
        self.phase = AheadPhase::Finished { result: Err(error), opened };
    }

    fn hand_on(&mut self, error: EngineError, opened: bool)
        ensures
            *final(self) == old(self).handed_on(error, opened),
    {
        self.phase = AheadPhase::Finished { result: Err(error), opened };
    }

    fn fail(&mut self, state: &mut RunState, error: EngineError, opened: bool)
        ensures
            (*final(self), *final(state)) == old(self).failed(*old(state), error, opened),
    {
        if error.is_recoverable() {
            self.pending = None;
            self.phase = AheadPhase::Recovering { error, opened };
        } else if error.is_stopped() {
            state.end();
            self.phase = AheadPhase::Finished { result: Ok(()), opened };
        } else {
            self.end_with(state, error, opened);
        }
    }

    fn block_cleared(&mut self)
        ensures
            *final(self) == old(self).cleared(),
    {
        self.phase = match take_pending_pro_capture(&mut self.pending, self.sequence) {
            Some(due) => AheadPhase::HandoffBudgeting { due },
            None => AheadPhase::Opening { due: None },
        };
    }

    fn write_closed(&mut self, state: &mut RunState, result: Result<i64, EngineError>)
        ensures
            (*final(self), *final(state)) == old(self).written(*old(state), result),
    {
        match result {
            Ok(frames) => if frames == self.config.period {
                self.playback_position =
                self.playback_position.wrapping_add(self.config.period as u64);
                state.timeline.update_playback_position(self.playback_position);
                self.phase = AheadPhase::Timing;
            } else {
                self.end_with(
                    state,
                    EngineError::ShortCommit {
                        direction: StreamDirection::Playback,
                        actual: frames,
                        required: self.config.period,
                    },
                    false,
                );
            },
            Err(error) => self.fail(state, error, false),
        }
    }

    fn observe_capture(&mut self, state: &mut RunState, seen: CaptureObservation)
        ensures
            (*final(self), *final(state)) == old(self).observed(*old(state), seen),
    {
        let frames: u64 = self.config.period as u64;
        if let Some(delay) = seen.capture_delay {
            state.timeline.update_pcm_delay(StreamDirection::Capture, delay, frames);
        }
        self.capture_position = self.capture_position.wrapping_add(frames);
        state.timeline.update_capture_position(self.capture_position);
        let playback_sequence: u64 = pro_target_sequence(
            self.sequence,
            self.config.sequence_lead,
        );
        state.timeline.record_pro_capture_read(playback_sequence, seen.nanos);
        self.phase = AheadPhase::Publishing { playback_sequence };
    }

    fn period_completed(&mut self, state: &mut RunState, playback_sequence: u64, now: u64)
        ensures
            (*final(self), *final(state)) == old(self).completed(
                *old(state),
                playback_sequence,
                now,
            ),
    {
        self.pending = Some(
            PendingProCapture {
                hardware_sequence: self.sequence,
                playback_sequence,
                target_nanos: now.saturating_add(self.config.handoff_nanos),
            },
        );
        self.sequence = next_sequence(self.sequence);
        self.periods_processed = self.periods_processed.wrapping_add(1);
        state.period_done(self.config.period as u64);
    }

    /// Ends the commit of a run that has ended.
    fn let_go(&mut self)
        requires
            old(self).phase is Finished,
        ensures
            *final(self) == old(self).at(
                AheadPhase::Finished { result: old(self).phase->Finished_result, opened: false },
            ),
    {
        if let AheadPhase::Finished { result, .. } = &self.phase {
            let ended = same_result(result);
            self.phase = AheadPhase::Finished { result: ended, opened: false };
        }
    }

    fn close_write(&mut self, state: &mut RunState)
        requires
            old(self).phase is Closing,
        ensures
            (*final(self), *final(state)) == old(self).written(
                *old(state),
                old(self).phase->Closing_written,
            ),
    {
        if let AheadPhase::Closing { written } = &self.phase {
            let result = same_result(written);
            self.write_closed(state, result);
        }
    }

    /// Handles the outcome of client code.
    fn called(&mut self, state: &mut RunState, panicked: bool)
        ensures
            (*final(self), *final(state)) == old(self).next_called(*old(state), panicked),
    {
        match self.phase {
            AheadPhase::Preparing => if panicked {
                self.hand_on(EngineError::WorkerPanic, false);
            } else {
                self.phase = AheadPhase::Mixing;
            },
            AheadPhase::Mixing => if panicked {
                self.hand_on(EngineError::WorkerPanic, false);
            } else {
                self.phase = AheadPhase::Clearing;
            },
            AheadPhase::Clearing => self.block_cleared(),
            AheadPhase::Opening { due } => if panicked {
                self.end_with(state, EngineError::WorkerPanic, false);
            } else {
                self.phase = AheadPhase::Rendering { due };
            },
            AheadPhase::Rendering { due } => if panicked {
                self.hand_on(EngineError::WorkerPanic, true);
            } else {
                self.phase = AheadPhase::Committing { due };
            },
            AheadPhase::Committing { due } => if panicked {
                self.hand_on(EngineError::WorkerPanic, true);
            } else {
                self.phase = match due {
                    Some(capture) => AheadPhase::Deferring { due: capture },
                    None => AheadPhase::Draining,
                };
            },
            AheadPhase::Deferring { .. } => if panicked {
                self.hand_on(EngineError::WorkerPanic, true);
            } else {
                self.phase = AheadPhase::Draining;
            },
            AheadPhase::Closing { .. } => if panicked {
                self.end_with(state, EngineError::WorkerPanic, false);
            } else {
                self.close_write(state);
            },
            AheadPhase::Publishing { playback_sequence } => if panicked {
                self.end_with(state, EngineError::WorkerPanic, false);
            } else {
                state.capture_delivered();
                self.phase = AheadPhase::Arming { playback_sequence };
            },
            AheadPhase::Releasing => self.go_to_top(state),
            AheadPhase::Finished { .. } => self.let_go(),
            _ => {},
        }
    }

    /// Handles the outcome of the action that was asked for.
    pub fn step(&mut self, state: &mut RunState, event: CycleEvent)
        ensures
            (*final(self), *final(state)) == old(self).next(*old(state), event),
    {
        if let CycleEvent::Called { panicked } = event {
            self.called(state, panicked);
            return ;
        }
        match self.phase {
            AheadPhase::HandoffBudgeting { due } => if let CycleEvent::Clock { nanos } = event {
                self.phase = if grant_handoff_budget(
                    &mut state.timeline,
                    due.target_nanos,
                    nanos,
                ) {
                    AheadPhase::HandoffWaiting { due }
                } else {
                    AheadPhase::Opening { due: Some(due) }
                };
            },
            AheadPhase::HandoffWaiting { due } => if let CycleEvent::Waited(waited) = event {
                match waited {
                    Ok(_) => {
                        self.phase = AheadPhase::Opening { due: Some(due) };
                    },
                    Err(error) => self.hand_on(error, false),
                }
            },
            AheadPhase::Draining => if let CycleEvent::Waited(waited) = event {
                match waited {
                    Ok(_) => if state.control.should_stop() {
                        self.hand_on(EngineError::Stopped, true);
                    } else {
                        self.phase = AheadPhase::Inspecting;
                    },
                    Err(error) => self.fail(state, error, true),
                }
            },
            AheadPhase::Inspecting => if let CycleEvent::Status(status) = event {
                if let Some(seen) = status {
                    state.timeline.update_pcm_delay(
                        StreamDirection::Playback,
                        seen.delay,
                        self.config.period as u64,
                    );
                    state.timeline.update_playback_delay_breakdown(
                        seen.delay,
                        seen.available,
                        self.config.buffer,
                    );
                }
                self.phase = AheadPhase::Writing;
            },
            AheadPhase::Writing => if let CycleEvent::Written { result, write_nanos } = event {
                state.timeline.record_playback_write(write_nanos);
                self.phase = AheadPhase::Closing { written: result };
            },
            AheadPhase::Timing => if let CycleEvent::Clock { nanos } = event {
                state.timeline.record_pro_playback_write(self.sequence, nanos);
                self.phase = AheadPhase::Reading;
            },
            AheadPhase::Reading => if let CycleEvent::Captured(read) = event {
                match read {
                    Ok(frames) => if frames == self.config.period {
                        self.phase = AheadPhase::Observing;
                    } else {
                        self.end_with(
                            state,
                            EngineError::ShortCommit {
                                direction: StreamDirection::Capture,
                                actual: frames,
                                required: self.config.period,
                            },
                            false,
                        );
                    },
                    Err(error) => self.fail(state, error, false),
                }
            },
            AheadPhase::Observing => if let CycleEvent::CaptureObserved(seen) = event {
                self.observe_capture(
                    state,
                    seen,
                );
            },
            AheadPhase::Arming { playback_sequence } => if let CycleEvent::Clock { nanos } = event {
                self.period_completed(state, playback_sequence, nanos);
                self.go_to_top(state);
            },
            AheadPhase::Recovering { opened, .. } =>
                if let CycleEvent::Recovered(recovered) = event {
                    match recovered {
                        Ok(_) => {
                            self.sequence = next_sequence(self.sequence);
                            if opened {
                                self.phase = AheadPhase::Releasing;
                            } else {
                                self.go_to_top(state);
                            }
                        },
                        Err(failure) => self.hand_on(failure, opened),
                    }
                },
            _ => {},
        }
    }
}

/// Playback is being committed: the source's output must not be taken away.
pub open spec fn commits(phase: AheadPhase) -> bool {
    match phase {
        AheadPhase::Rendering { .. } => true,
        AheadPhase::Committing { .. } => true,
        AheadPhase::Deferring { .. } => true,
        AheadPhase::Draining => true,
        AheadPhase::Inspecting => true,
        AheadPhase::Writing => true,
        AheadPhase::Closing { .. } => true,
        AheadPhase::Recovering { opened, .. } => opened,
        AheadPhase::Releasing => true,
        AheadPhase::Finished { opened, .. } => opened,
        _ => false,
    }
}

/// Every commit that is begun is ended exactly once, and playback is written only inside one.
pub proof fn commits_are_bracketed(cycle: AheadCycle, state: RunState, event: CycleEvent)
    ensures
        !commits(cycle.phase) && commits(cycle.next(state, event).0.phase) ==> cycle.wants()
            == CycleAction::BeginCommit,
        commits(cycle.phase) && !commits(cycle.next(state, event).0.phase) ==> cycle.wants()
            == CycleAction::EndCommit || cycle.wants() == CycleAction::ReleaseCommit,
        cycle.wants() is WritePlayback ==> commits(cycle.phase),
        cycle.wants() == CycleAction::Finish ==> !commits(cycle.phase),
{
}

/// A step leaves the sequence alone or moves to the following one; it moves only when the period
/// went through or was given up after a restart.
pub proof fn sequence_moves_one_period_at_a_time(
    cycle: AheadCycle,
    state: RunState,
    event: CycleEvent,
)
    ensures
        ({
            let later = cycle.next(state, event).0;
            &&& later.sequence == cycle.sequence || later.sequence
                == cycle.sequence.wrapping_add(1)
            &&& later.sequence != cycle.sequence ==> cycle.phase is Arming || cycle.phase
                is Recovering
            &&& later.periods_processed != cycle.periods_processed ==> cycle.phase is Arming
        }),
{
}

/// Driving a cycle is no hardware event.
pub proof fn steps_keep_the_hardware_history(
    cycle: AheadCycle,
    state: RunState,
    event: CycleEvent,
)
    ensures
        crate::timeline::same_hardware_history(
            state.timeline,
            cycle.next(state, event).1.timeline,
        ),
{
}

/// A capture never outlives a restart of the streams: whenever a restart is asked for, nothing is
/// pending any more.
pub proof fn restarts_forget_the_pending_capture(
    cycle: AheadCycle,
    state: RunState,
    event: CycleEvent,
)
    requires
        !(cycle.phase is Recovering),
    ensures
        cycle.next(state, event).0.phase is Recovering ==> cycle.next(state, event).0.pending
            is None,
{
}

/// A period captured in one cycle is answered in the cycle that comes `sequence_lead` periods
/// later: that is the sequence it is pending for.
pub proof fn answer_is_due_after_the_lead(
    cycle: AheadCycle,
    state: RunState,
    seen: CaptureObservation,
    now: u64,
)
    requires
        cycle.phase is Observing,
    ensures
        ({
            let (observed, after) = cycle.next(state, CycleEvent::CaptureObserved(seen));
            let (armed, armed_state) = observed.next(
                after,
                CycleEvent::Called { panicked: false },
            );
            let (done, done_state) = armed.next(armed_state, CycleEvent::Clock { nanos: now });
            done.pending == Some(
                PendingProCapture {
                    hardware_sequence: cycle.sequence,
                    playback_sequence: crate::sequence::sequence_after(
                        cycle.sequence,
                        cycle.config.sequence_lead as int,
                    ),
                    target_nanos: crate::arith::clamp_u64(now + cycle.config.handoff_nanos),
                },
            )
        }),
{
}

/// Steps that a period of a pair with lead takes at most.
pub const AHEAD_STEPS: u64 = 18;

/// Steps that a phase leaves of its period at most.
pub open spec fn steps_left(phase: AheadPhase) -> int {
    match phase {
        AheadPhase::Preparing => 18,
        AheadPhase::Mixing => 17,
        AheadPhase::Clearing => 16,
        AheadPhase::HandoffBudgeting { .. } => 15,
        AheadPhase::HandoffWaiting { .. } => 14,
        AheadPhase::Opening { .. } => 13,
        AheadPhase::Rendering { .. } => 12,
        AheadPhase::Committing { .. } => 11,
        AheadPhase::Deferring { .. } => 10,
        AheadPhase::Draining => 9,
        AheadPhase::Inspecting => 8,
        AheadPhase::Writing => 7,
        AheadPhase::Closing { .. } => 6,
        AheadPhase::Timing => 5,
        AheadPhase::Reading => 4,
        AheadPhase::Observing => 3,
        AheadPhase::Publishing { .. } => 2,
        AheadPhase::Arming { .. } => 1,
        _ => 0,
    }
}

/// A run of the cycle: `cycles` and `left` are the cycle and the state after each step, `found` the
/// state that each step found. The first of each is that of [`AheadCycle::new`].
pub open spec fn ahead_run(
    config: LinkedProConfig,
    cycles: Seq<AheadCycle>,
    found: Seq<RunState>,
    left: Seq<RunState>,
    events: Seq<CycleEvent>,
) -> bool {
    &&& cycles.len() == found.len() == left.len() == events.len() + 1
    &&& (cycles[0], left[0]) == AheadCycle::unstarted(config).top(found[0])
    &&& forall|i: int|
        #![trigger events[i]]
        0 <= i < events.len() ==> (cycles[i + 1], left[i + 1]) == cycles[i].next(
            found[i + 1],
            events[i],
        )
}

/// Nothing went wrong in a run, and nobody asked it to stop.
pub open spec fn ahead_run_went_well(
    config: LinkedProConfig,
    cycles: Seq<AheadCycle>,
    found: Seq<RunState>,
    left: Seq<RunState>,
    events: Seq<CycleEvent>,
) -> bool {
    &&& !found[0].control.stopping()
    &&& forall|i: int|
        #![trigger events[i]]
        0 <= i < events.len() ==> undisturbed(left[i], found[i + 1]) && went_well(
            cycles[i].wants(),
            events[i],
            config.period,
        )
}

spec fn on_course(
    config: LinkedProConfig,
    start: RunState,
    limit: u64,
    cycle: AheadCycle,
    state: RunState,
) -> bool {
    &&& cycle.config == config
    &&& cycle.periods_processed <= limit
    &&& has_processed(start, state, cycle.periods_processed as int, config.period)
    &&& if cycle.periods_processed == limit {
        cycle.phase == (AheadPhase::Finished { result: Ok(()), opened: false })
            && state.control.done
    } else {
        &&& !state.control.stopping()
        &&& steps_left(cycle.phase) > 0
        &&& cycle.phase matches AheadPhase::Closing { written } ==> written == Ok::<
            i64,
            EngineError,
        >(config.period)
    }
}

/// Steps that are left of a run at most.
spec fn run_left(limit: u64, cycle: AheadCycle) -> int {
    if cycle.periods_processed >= limit {
        0
    } else {
        (limit - cycle.periods_processed - 1) * 18 + steps_left(cycle.phase)
    }
}

proof fn lemma_step_on_course(
    config: LinkedProConfig,
    start: RunState,
    limit: u64,
    cycle: AheadCycle,
    left: RunState,
    found: RunState,
    event: CycleEvent,
)
    requires
        config.wf(),
        config.max_periods == Some(limit),
        on_course(config, start, limit, cycle, left),
        undisturbed(left, found),
        went_well(cycle.wants(), event, config.period),
    ensures
        ({
            let (later, state) = cycle.next(found, event);
            &&& on_course(config, start, limit, later, state)
            &&& run_left(limit, cycle) > 0 ==> run_left(limit, later) < run_left(limit, cycle)
            &&& run_left(limit, cycle) == 0 ==> run_left(limit, later) == 0
        }),
{
    if cycle.phase is Arming {
        lemma_one_more_period(
            start,
            found,
            found.with_period_done(config.period as u64),
            cycle.periods_processed as int,
            config.period,
        );
    }
}

/// A limited run in which nothing goes wrong processes its periods and ends: after every step as
/// many periods and frames are counted as the cycle has processed, the run is over exactly when
/// these are all, and then it has succeeded, raised the flag and holds no commit. That takes at
/// most eighteen steps for each period.
pub proof fn a_limited_run_processes_its_periods(
    config: LinkedProConfig,
    limit: u64,
    cycles: Seq<AheadCycle>,
    found: Seq<RunState>,
    left: Seq<RunState>,
    events: Seq<CycleEvent>,
    k: int,
)
    requires
        config.wf(),
        config.max_periods == Some(limit),
        ahead_run(config, cycles, found, left, events),
        ahead_run_went_well(config, cycles, found, left, events),
        0 <= k <= events.len(),
    ensures
        cycles[k].periods_processed <= limit,
        has_processed(found[0], left[k], cycles[k].periods_processed as int, config.period),
        cycles[k].phase is Finished <==> cycles[k].periods_processed == limit,
        cycles[k].phase is Finished ==> cycles[k].phase == (AheadPhase::Finished {
            result: Ok(()),
            opened: false,
        }) && left[k].control.done,
        k >= limit * AHEAD_STEPS ==> cycles[k].phase is Finished,
{
    lemma_run_on_course(config, limit, cycles, found, left, events, k);
}

proof fn lemma_run_on_course(
    config: LinkedProConfig,
    limit: u64,
    cycles: Seq<AheadCycle>,
    found: Seq<RunState>,
    left: Seq<RunState>,
    events: Seq<CycleEvent>,
    k: int,
)
    requires
        config.wf(),
        config.max_periods == Some(limit),
        ahead_run(config, cycles, found, left, events),
        ahead_run_went_well(config, cycles, found, left, events),
        0 <= k <= events.len(),
    ensures
        on_course(config, found[0], limit, cycles[k], left[k]),
        run_left(limit, cycles[k]) == 0 || run_left(limit, cycles[k]) + k <= limit * 18,
    decreases k,
{
    if k == 0 {
        assert(counted(found[0].timeline.periods_processed, 0)
            == found[0].timeline.periods_processed);
        assert(counted(found[0].timeline.sample_position, 0 * (config.period as int))
            == found[0].timeline.sample_position);
    } else {
        lemma_run_on_course(config, limit, cycles, found, left, events, k - 1);
        assert((cycles[k], left[k]) == cycles[k - 1].next(found[k], events[k - 1]));
        lemma_step_on_course(
            config,
            found[0],
            limit,
            cycles[k - 1],
            left[k - 1],
            found[k],
            events[k - 1],
        );
    }
}

/// A period of a pair with lead: what is asked for, in order. The output of a cycle is prepared and
/// mixed into a silent block; a capture whose answer is due is waited for up to its target and no
/// longer, and its output is taken up to that target; the block is written whole inside the commit
/// once playback has drained; then the next period is read whole and handed to the client under
/// the number of the cycle and the number at which it is answered.
pub proof fn a_period_takes_its_course(cycle: AheadCycle, state: RunState, event: CycleEvent)
    requires
        !state.control.stop,
        !state.control.done,
        went_well(cycle.wants(), event, cycle.config.period),
    ensures
        ({
            let after = cycle.next(state, event).0;
            let number = cycle.sequence;
            &&& cycle.phase is Preparing ==> cycle.wants() == (CycleAction::PreparePlayback {
                sequence: number,
            }) && after.wants() == (CycleAction::PreparePlaybackMix { sequence: number })
            &&& cycle.phase is Mixing ==> after.wants() == CycleAction::ClearPlayback
            &&& cycle.phase is Clearing ==> match cycle.pending {
                Some(capture) => if capture.playback_sequence == number {
                    &&& after.wants() == CycleAction::ReadClock
                    &&& after.phase == AheadPhase::HandoffBudgeting { due: capture }
                    &&& after.pending is None
                } else {
                    &&& after.phase == AheadPhase::Opening { due: None }
                    &&& after.pending == cycle.pending
                },
                None => after.phase == (AheadPhase::Opening { due: None }),
            }
            &&& cycle.phase matches AheadPhase::HandoffBudgeting { due } ==> {
                &&& event matches CycleEvent::Clock { nanos }
                &&& nanos < due.target_nanos ==> after.wants() == (CycleAction::WaitHandoff {
                    target_nanos: due.target_nanos,
                }) && after.phase == (AheadPhase::HandoffWaiting { due })
                &&& nanos >= due.target_nanos ==> after.phase == (AheadPhase::Opening {
                    due: Some(due),
                })
            }
            &&& cycle.phase matches AheadPhase::HandoffWaiting { due } ==> after.phase == (
            AheadPhase::Opening { due: Some(due) })
            &&& cycle.phase matches AheadPhase::Opening { due } ==> {
                &&& cycle.wants() == CycleAction::BeginCommit
                &&& after.wants() matches CycleAction::ProcessPlayback { sequence, cutoff_nanos }
                &&& sequence == number
                &&& due is None ==> cutoff_nanos is None
                &&& due is Some ==> cutoff_nanos == Some(due->0.target_nanos)
                &&& after.phase == AheadPhase::Rendering { due }
            }
            &&& cycle.phase matches AheadPhase::Rendering { due } ==> after.wants() == (
            CycleAction::CommitPlayback { sequence: number }) && after.phase == (
            AheadPhase::Committing { due })
            &&& cycle.phase matches AheadPhase::Committing { due } ==> match due {
                Some(capture) => after.wants() == (CycleAction::ProcessDeferredCapture {
                    hardware_sequence: capture.hardware_sequence,
                }),
                None => after.wants() == CycleAction::WaitPlaybackTarget,
            }
            &&& cycle.phase is Deferring ==> after.wants() == CycleAction::WaitPlaybackTarget
            &&& cycle.phase is Draining ==> after.wants() == CycleAction::ReadPlaybackStatus
            &&& cycle.phase is Inspecting ==> after.wants() == (CycleAction::WritePlayback {
                offset: 0,
                samples: cycle.config.playback_period_samples,
            })
            &&& cycle.phase is Writing ==> after.wants() == CycleAction::EndCommit && after.phase
                == (AheadPhase::Closing { written: Ok(cycle.config.period) })
            &&& cycle.phase == (AheadPhase::Closing { written: Ok(cycle.config.period) })
                ==> after.wants() == CycleAction::ReadClock && after.phase is Timing
            &&& cycle.phase is Timing ==> after.wants() == (CycleAction::ReadCapture {
                offset: 0,
                samples: cycle.config.capture_period_samples,
            })
            &&& cycle.phase is Reading ==> after.wants() == CycleAction::ObserveCapture
            &&& cycle.phase is Observing ==> {
                &&& after.wants() matches CycleAction::ProcessCapture {
                    hardware_sequence,
                    playback_sequence,
                }
                &&& hardware_sequence == number
                &&& playback_sequence == number.wrapping_add(cycle.config.sequence_lead)
            }
            &&& cycle.phase matches AheadPhase::Publishing { playback_sequence } ==> after.wants()
                == CycleAction::ReadClock && after.phase == (AheadPhase::Arming {
                playback_sequence,
            })
            &&& cycle.phase is Arming && cycle.config.max_periods is None ==> after.wants() == (
            CycleAction::PreparePlayback { sequence: number.wrapping_add(1) })
        }),
{
}

/// The answer to a captured period is due the handoff after the period went through, at the number
/// that it was handed out under.
pub proof fn an_answer_is_due_after_the_handoff(
    cycle: AheadCycle,
    state: RunState,
    playback_sequence: u64,
    now: u64,
)
    requires
        cycle.phase == (AheadPhase::Arming { playback_sequence }),
        now + cycle.config.handoff_nanos <= u64::MAX,
        cycle.config.period >= 0,
        state.timeline.sample_position + cycle.config.period <= u64::MAX,
        state.timeline.periods_processed < u64::MAX,
        cycle.periods_processed < u64::MAX,
    ensures
        ({
            let (after, found) = cycle.next(state, CycleEvent::Clock { nanos: now });
            &&& after.pending matches Some(capture)
            &&& capture.target_nanos == now + cycle.config.handoff_nanos
            &&& capture.playback_sequence == playback_sequence
            &&& capture.hardware_sequence == cycle.sequence
            &&& after.sequence == cycle.sequence.wrapping_add(1)
            &&& after.periods_processed == cycle.periods_processed + 1
            &&& found.timeline.sample_position == state.timeline.sample_position
                + cycle.config.period
            &&& found.timeline.periods_processed == state.timeline.periods_processed + 1
        }),
{
}

/// What a failure comes to: one that the streams can be restarted after asks for the restart with
/// itself, a request to stop ends the run quietly, any other ends the run with itself, and a wait
/// for the handoff restarts nothing. A restart that worked goes on with the following number.
pub proof fn a_failure_restarts_or_ends_the_run(
    cycle: AheadCycle,
    state: RunState,
    error: EngineError,
)
    ensures
        ({
            let recoverable = error is Xrun || error is LinkedXrun || error is Suspended;
            let event = match cycle.phase {
                AheadPhase::Reading => CycleEvent::Captured(Err(error)),
                AheadPhase::Closing { .. } => CycleEvent::Called { panicked: false },
                _ => CycleEvent::Waited(Err(error)),
            };
            let (after, found) = cycle.next(state, event);
            let streaming = cycle.phase is Reading || cycle.phase is Draining || cycle.phase == (
            AheadPhase::Closing { written: Err(error) });
            &&& streaming && recoverable ==> {
                &&& after.wants() == CycleAction::Recover
                &&& after.phase == AheadPhase::Recovering {
                    error,
                    opened: cycle.phase is Draining,
                }
                &&& after.pending is None
                &&& found.control == state.control
            }
            &&& streaming && error is Stopped ==> after.phase == (AheadPhase::Finished {
                result: Ok(()),
                opened: cycle.phase is Draining,
            }) && found.control.done
            &&& streaming && !recoverable && !(error is Stopped) ==> after.phase == (
            AheadPhase::Finished { result: Err(error), opened: cycle.phase is Draining })
                && found.control.done
            &&& cycle.phase is HandoffWaiting ==> after.phase == (AheadPhase::Finished {
                result: Err(error),
                opened: false,
            })
        }),
        cycle.phase matches AheadPhase::Recovering { opened, .. } ==> {
            let again = cycle.next(state, CycleEvent::Recovered(Ok(()))).0;
            let ended = cycle.next(state, CycleEvent::Recovered(Err(error))).0;
            &&& again.sequence == cycle.sequence.wrapping_add(1)
            &&& again.periods_processed == cycle.periods_processed
            &&& opened ==> again.wants() == CycleAction::ReleaseCommit
            &&& !opened && !state.control.stop && !state.control.done
                && cycle.config.max_periods is None ==> again.wants() == (
            CycleAction::PreparePlayback { sequence: again.sequence })
            &&& ended.phase == AheadPhase::Finished { result: Err(error), opened }
        },
{
}

/// Client code that panics ends the run as a panic of the worker, with the commit let go where one
/// was held; and a transfer of another length than a period ends it as a short one.
pub proof fn panics_and_short_transfers_end_the_run(
    cycle: AheadCycle,
    state: RunState,
    frames: i64,
)
    requires
        frames != cycle.config.period,
    ensures
        ({
            let after = cycle.next(state, CycleEvent::Called { panicked: true }).0;
            let outside = cycle.phase is Preparing || cycle.phase is Mixing || cycle.phase
                is Opening || cycle.phase is Closing || cycle.phase is Publishing;
            let inside = cycle.phase is Rendering || cycle.phase is Committing || cycle.phase
                is Deferring;
            outside || inside ==> after.phase == (AheadPhase::Finished {
                result: Err(EngineError::WorkerPanic),
                opened: inside,
            })
        }),
        cycle.phase is Reading ==> cycle.next(state, CycleEvent::Captured(Ok(frames))).0.phase == (
        AheadPhase::Finished {
            result: Err(
                EngineError::ShortCommit {
                    direction: StreamDirection::Capture,
                    actual: frames,
                    required: cycle.config.period,
                },
            ),
            opened: false,
        }),
        cycle.phase == (AheadPhase::Closing { written: Ok(frames) }) ==> cycle.next(
            state,
            CycleEvent::Called { panicked: false },
        ).0.phase == (AheadPhase::Finished {
            result: Err(
                EngineError::ShortCommit {
                    direction: StreamDirection::Playback,
                    actual: frames,
                    required: cycle.config.period,
                },
            ),
            opened: false,
        }),
{
}

/// What a cycle records of its period: where the streams stand after they moved by a period, what
/// they said about themselves, how long the write took, and the capture under the number at which
/// it is answered.
pub proof fn a_period_is_recorded_as_it_was_seen(
    cycle: AheadCycle,
    state: RunState,
    seen: CaptureObservation,
    nanos: u64,
    write_nanos: u64,
    status: crate::cycle::PlaybackStatus,
)
    requires
        cycle.config.period >= 0,
        cycle.capture_position + cycle.config.period <= u64::MAX,
        cycle.playback_position + cycle.config.period <= u64::MAX,
        0 <= status.delay,
        seen.capture_delay is Some ==> 0 <= seen.capture_delay->0,
    ensures
        cycle.phase is Observing ==> {
            let (after, found) = cycle.next(state, CycleEvent::CaptureObserved(seen));
            &&& after.capture_position == cycle.capture_position + cycle.config.period
            &&& found.timeline.capture_position == after.capture_position
            &&& seen.capture_delay is Some ==> found.timeline.capture_delay_frames
                == seen.capture_delay->0
            &&& 0 < seen.nanos <= nanos ==> found.timeline.elapsed_since_capture(
                cycle.sequence.wrapping_add(cycle.config.sequence_lead),
                nanos,
            ) == Some((nanos - seen.nanos) as u64)
        },
        cycle.phase is Inspecting ==> {
            let found = cycle.next(state, CycleEvent::Status(Some(status))).1;
            &&& found.timeline.playback_delay_frames == status.delay
            &&& 0 <= status.available <= cycle.config.buffer
                ==> found.timeline.playback_ring_delay_frames + status.available
                == cycle.config.buffer
        },
        cycle.phase is Writing ==> {
            let found = cycle.next(
                state,
                CycleEvent::Written { result: Ok(cycle.config.period), write_nanos },
            ).1;
            &&& found.timeline.playback_write_max_nanos >= write_nanos
            &&& found.timeline.playback_write_max_nanos == write_nanos
                || found.timeline.playback_write_max_nanos
                == state.timeline.playback_write_max_nanos
        },
        cycle.phase == (AheadPhase::Closing { written: Ok(cycle.config.period) }) ==> {
            let (after, found) = cycle.next(state, CycleEvent::Called { panicked: false });
            &&& after.playback_position == cycle.playback_position + cycle.config.period
            &&& found.timeline.playback_position == after.playback_position
        },
        cycle.phase is Timing ==> {
            let found = cycle.next(state, CycleEvent::Clock { nanos }).1;
            state.timeline.elapsed_since_capture(cycle.sequence, nanos) matches Some(elapsed)
                ==> found.timeline.capture_to_playback_write_nanos == elapsed
        },
{
    crate::timeline::lemma_capture_is_remembered(
        state.timeline.pro_timing,
        cycle.answer_sequence(),
        seen.nanos,
    );
}

} // verus!
