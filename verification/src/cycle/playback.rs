//! The playback worker of an unlinked pair.
//!
//! The worker announces a sequence, waits until the device takes a period, and writes the output
//! of the source. Output belongs to one sequence, one hardware generation and one epoch of the
//! source: a block prepared for another of them is never written.
use vstd::prelude::*;
use crate::control::WorkerControl;
use crate::cycle::{
    counted, has_processed, lemma_one_more_period, period_limit_reached, undisturbed, went_well,
    CycleAction, CycleEvent, PlaybackStatus, RunState,
};
use crate::error::{same_result, EngineError, StreamDirection};
use crate::sequence::next_sequence;

verus! {

/// Time by which a timed playback worker wakes before its target.
pub const PLAYBACK_PREWAKE_NANOS: u64 = 50_000;

#[derive(Clone, Copy, Debug, PartialEq, Eq, Structural)]
pub struct PlaybackWorkerConfig {
    pub channels: usize,
    pub period_samples: usize,
    pub start_samples: usize,
    pub start_frames: i64,
    pub period: i64,
    pub buffer: i64,
    pub rate: u32,
    pub timer_scheduling: bool,
    pub sequence_lead: u64,
    pub guard_frames: i64,
    pub realtime_priority: Option<i32>,
    /// Whether a source provides the output; otherwise silence is played.
    pub pro: bool,
    pub max_periods: Option<u64>,
}

/// Where both workers of a run meet before the streams start.
#[derive(Clone, Copy, Debug, PartialEq, Eq, Structural)]
pub struct DuplexStartGate {
    pub linked: bool,
    pub capture_ready: bool,
    pub playback_ready: bool,
    pub capture_started: bool,
    pub started: bool,
}

/// What a worker does while the pair starts.
#[derive(Clone, Copy, Debug, PartialEq, Eq, Structural)]
pub enum GateStep {
    /// Look again.
    Yield,
    /// The run is ending: mark it so and leave without a failure.
    Leave,
    /// Start the own stream.
    Start,
    /// Both streams run.
    Proceed,
}

impl DuplexStartGate {
    pub fn new(linked: bool) -> (gate: Self)
        ensures
            gate == (DuplexStartGate {
                linked,
                capture_ready: false,
                playback_ready: false,
                capture_started: false,
                started: false,
            }),
    {
        DuplexStartGate {
            linked,
            capture_ready: false,
            playback_ready: false,
            capture_started: false,
            started: false,
        }
    }

    /// What playback does while the pair starts: it starts once capture is ready, and after it
    /// where the streams are not linked.
    pub fn playback_step(&self, control: &WorkerControl) -> (step: GateStep)
        ensures
            step == if control.stopping() {
                GateStep::Leave
            } else if !self.capture_ready || (!self.linked && !self.capture_started) {
                GateStep::Yield
            } else {
                GateStep::Start
            },
    {
        if control.should_stop() {
            GateStep::Leave
        } else if !self.capture_ready || (!self.linked && !self.capture_started) {
            GateStep::Yield
        } else {
            GateStep::Start
        }
    }

    /// What capture does while the pair starts: it starts its own stream once playback is ready,
    /// unless the streams are linked, and goes on once everything runs.
    pub fn capture_step(&self, control: &WorkerControl) -> (step: GateStep)
        ensures
            step == if !self.playback_ready {
                if control.stopping() {
                    GateStep::Leave
                } else {
                    GateStep::Yield
                }
            } else if !self.linked && !self.capture_started {
                if control.stopping() {
                    GateStep::Leave
                } else {
                    GateStep::Start
                }
            } else if !self.started {
                if control.stopping() {
                    GateStep::Leave
                } else {
                    GateStep::Yield
                }
            } else {
                GateStep::Proceed
            },
    {
        if self.playback_ready && (self.linked || self.capture_started) && self.started {
            return GateStep::Proceed;
        }
        if control.should_stop() {
            return GateStep::Leave;
        }
        if self.playback_ready && !self.linked && !self.capture_started {
            GateStep::Start
        } else {
            GateStep::Yield
        }
    }
}

/// The output that a block was made for: sequence, hardware generation and epoch.
pub open spec fn matches_output(
    made_for: Option<(u64, u64, u64)>,
    sequence: u64,
    generation: u64,
    playback_epoch: u64,
) -> bool {
    made_for == Some((sequence, generation, playback_epoch))
}

pub fn prepared_output_matches(
    prepared: Option<(u64, u64, u64)>,
    sequence: u64,
    generation: u64,
    playback_epoch: u64,
) -> (matches: bool)
    ensures
        matches == matches_output(prepared, sequence, generation, playback_epoch),
{
    match prepared {
        Some((s, g, e)) => s == sequence && g == generation && e == playback_epoch,
        None => false,
    }
}

pub fn announced_output_matches(
    announced: Option<(u64, u64, u64)>,
    sequence: u64,
    generation: u64,
    playback_epoch: u64,
) -> (matches: bool)
    ensures
        matches == matches_output(announced, sequence, generation, playback_epoch),
{
    prepared_output_matches(announced, sequence, generation, playback_epoch)
}

/// Where the worker stands.
#[derive(Debug)]
pub enum PlaybackPhase {
    Announcing { generation: u64 },
    Preparing { generation: u64, epoch: u64 },
    Waiting,
    Opening,
    Asking { generation: u64 },
    Clearing { generation: u64, epoch: u64 },
    Rendering { generation: u64, epoch: u64 },
    Committing { generation: u64, epoch: u64 },
    /// Asking whether the output is still the same.
    Rechecking { generation: u64, epoch: u64 },
    Inspecting { generation: u64 },
    /// Asking for the last time before the write.
    Confirming { generation: u64 },
    /// Silencing a block whose output was taken away since.
    StaleClearing,
    /// Looking at the clock before the write.
    Timing,
    Writing,
    Closing { written: Result<i64, EngineError> },
    Publishing,
    Recovering { error: EngineError },
    Releasing,
    Finished { result: Result<(), EngineError>, opened: bool },
}

/// The playback worker.
#[derive(Debug)]
pub struct PlaybackWorker {
    pub config: PlaybackWorkerConfig,
    pub position: u64,
    pub sequence: u64,
    pub successful_periods: u64,
    /// The output that the source was told to prepare.
    pub announced: Option<(u64, u64, u64)>,
    /// The output that the block holds.
    pub prepared: Option<(u64, u64, u64)>,
    pub phase: PlaybackPhase,
}

impl PlaybackWorker {
    pub open spec fn at(self, phase: PlaybackPhase) -> PlaybackWorker {
        PlaybackWorker { phase, ..self }
    }

    /// A worker that has written nothing.
    pub open spec fn unstarted(config: PlaybackWorkerConfig) -> PlaybackWorker {
        PlaybackWorker {
            config,
            position: 0,
            sequence: 0,
            successful_periods: 0,
            announced: None,
            prepared: None,
            phase: PlaybackPhase::Waiting,
        }
    }

    /// The top of the loop: the run ends when it is asked to or has processed its periods; a
    /// sequence that was not announced yet is announced first.
    pub open spec fn top(self, state: RunState) -> (PlaybackWorker, RunState) {
        if state.control.stopping() || crate::cycle::limit_reached(
            self.successful_periods,
            self.config.max_periods,
        ) {
            (self.at(PlaybackPhase::Finished { result: Ok(()), opened: false }), state.ended())
        } else if self.announced is Some && (self.announced->0).0 == self.sequence {
            (self.at(PlaybackPhase::Waiting), state)
        } else if self.config.pro {
            (
                self.at(PlaybackPhase::Announcing { generation: state.timeline.generation }),
                state,
            )
        } else {
            (
                PlaybackWorker {
                    announced: Some((self.sequence, state.timeline.generation, 0u64)),
                    phase: PlaybackPhase::Waiting,
                    ..self
                },
                state,
            )
        }
    }

    pub open spec fn fatal(self, state: RunState, error: EngineError, opened: bool) -> (
        PlaybackWorker,
        RunState,
    ) {
        (self.at(PlaybackPhase::Finished { result: Err(error), opened }), state.ended())
    }

    /// A failed wait, transfer or restart.
    pub open spec fn failed(self, state: RunState, error: EngineError) -> (
        PlaybackWorker,
        RunState,
    ) {
        if error is Stopped {
            (self.at(PlaybackPhase::Finished { result: Ok(()), opened: false }), state.ended())
        } else if error.recoverable() {
            (self.at(PlaybackPhase::Recovering { error }), state)
        } else {
            self.fatal(state, error, false)
        }
    }

    /// What to do with the block once the current output is known: keep it if it was prepared for
    /// exactly that output, else make it anew.
    pub open spec fn identified(self, generation: u64, epoch: u64) -> PlaybackWorker {
        if matches_output(self.prepared, self.sequence, generation, epoch) {
            self.at(PlaybackPhase::Inspecting { generation })
        } else if self.config.pro {
            self.at(PlaybackPhase::Clearing { generation, epoch })
        } else {
            PlaybackWorker {
                prepared: Some((self.sequence, generation, epoch)),
                phase: PlaybackPhase::Inspecting { generation },
                ..self
            }
        }
    }

    /// Nothing is prepared any more, and the loop starts over.
    pub open spec fn discarded(self) -> PlaybackWorker {
        PlaybackWorker { prepared: None, phase: PlaybackPhase::Releasing, ..self }
    }

    /// Whether the generation is still the one that the block was made in.
    pub open spec fn rechecked(self, state: RunState, generation: u64, epoch: u64) -> PlaybackWorker {
        if state.timeline.generation != generation {
            self.discarded()
        } else {
            self.at(PlaybackPhase::Rechecking { generation, epoch })
        }
    }

    /// The last look before the write: a restart discards the block, an output taken away since
    /// silences it.
    pub open spec fn confirmed(
        self,
        state: RunState,
        generation: u64,
        write_epoch: u64,
    ) -> (PlaybackWorker, RunState) {
        if state.timeline.generation != generation {
            if self.config.pro {
                (self.discarded(), state)
            } else {
                (PlaybackWorker { prepared: None, ..self }).top(state)
            }
        } else if matches_output(self.prepared, self.sequence, generation, write_epoch) {
            (self.at(PlaybackPhase::Timing), state)
        } else {
            (
                PlaybackWorker {
                    prepared: Some((self.sequence, generation, write_epoch)),
                    phase: if self.config.pro {
                        PlaybackPhase::StaleClearing
                    } else {
                        PlaybackPhase::Timing
                    },
                    ..self
                },
                state,
            )
        }
    }

    /// The worker after a period was written.
    pub open spec fn advanced(self) -> PlaybackWorker {
        PlaybackWorker {
            position: self.position.wrapping_add(self.config.period as u64),
            sequence: self.sequence.wrapping_add(1),
            successful_periods: crate::arith::clamp_u64(self.successful_periods + 1),
            announced: None,
            prepared: None,
            ..self
        }
    }

    /// The worker and the state after an advance was published.
    pub open spec fn published(self, state: RunState) -> (PlaybackWorker, RunState) {
        self.top(
            state.with_timeline(
                crate::timeline::HardwareTimeline {
                    playback_position: self.position,
                    ..state.timeline
                },
            ).with_period_done(self.config.period as u64),
        )
    }

    /// What a finished write comes to, once the commit has ended.
    pub open spec fn written(self, state: RunState, result: Result<i64, EngineError>) -> (
        PlaybackWorker,
        RunState,
    ) {
        match result {
            Ok(frames) => if frames != self.config.period {
                self.fatal(
                    state,
                    EngineError::ShortCommit {
                        direction: StreamDirection::Playback,
                        actual: frames,
                        required: self.config.period,
                    },
                    false,
                )
            } else if self.config.pro {
                (self.advanced().at(PlaybackPhase::Publishing), state)
            } else {
                self.advanced().published(state)
            },
            Err(error) => self.failed(state, error),
        }
    }

    /// What follows client code.
    pub open spec fn next_called(self, state: RunState, panicked: bool) -> (
        PlaybackWorker,
        RunState,
    ) {
        match self.phase {
            PlaybackPhase::Preparing { generation, epoch } => if panicked {
                self.fatal(state, EngineError::WorkerPanic, false)
            } else {
                (
                    PlaybackWorker {
                        announced: Some((self.sequence, generation, epoch)),
                        phase: PlaybackPhase::Waiting,
                        ..self
                    },
                    state,
                )
            },
            PlaybackPhase::Opening => if panicked {
                self.fatal(state, EngineError::WorkerPanic, false)
            } else {
                (self.at(PlaybackPhase::Asking { generation: state.timeline.generation }), state)
            },
            PlaybackPhase::Clearing { generation, epoch } => if matches_output(
                self.announced,
                self.sequence,
                generation,
                epoch,
            ) {
                (
                    self.at(PlaybackPhase::Rendering { generation, epoch }),
                    state.with_timeline(state.timeline.with_wait_budget(0)),
                )
            } else {
                (self.rechecked(state, generation, epoch), state)
            },
            PlaybackPhase::Rendering { generation, epoch } => if panicked {
                self.fatal(state, EngineError::WorkerPanic, true)
            } else {
                (self.at(PlaybackPhase::Committing { generation, epoch }), state)
            },
            PlaybackPhase::Committing { generation, epoch } => if panicked {
                self.fatal(state, EngineError::WorkerPanic, true)
            } else {
                (self.rechecked(state, generation, epoch), state)
            },
            PlaybackPhase::StaleClearing => (self.at(PlaybackPhase::Timing), state),
            PlaybackPhase::Closing { written } => if panicked {
                self.fatal(state, EngineError::WorkerPanic, false)
            } else {
                self.written(state, written)
            },
            PlaybackPhase::Publishing => self.published(state),
            PlaybackPhase::Releasing => self.top(state),
            PlaybackPhase::Finished { result, .. } => (
                self.at(PlaybackPhase::Finished { result, opened: false }),
                state,
            ),
            _ => (self, state),
        }
    }

    /// What follows the source's answer about its epoch.
    pub open spec fn next_epoch(self, state: RunState, answer: Option<u64>) -> (
        PlaybackWorker,
        RunState,
    ) {
        match self.phase {
            PlaybackPhase::Announcing { generation } => match answer {
                Some(epoch) => (self.at(PlaybackPhase::Preparing { generation, epoch }), state),
                None => self.fatal(state, EngineError::WorkerPanic, false),
            },
            PlaybackPhase::Asking { generation } => match answer {
                Some(epoch) => (self.identified(generation, epoch), state),
                None => self.fatal(state, EngineError::WorkerPanic, true),
            },
            PlaybackPhase::Rechecking { generation, epoch } => match answer {
                Some(now) => if now != epoch {
                    (self.discarded(), state)
                } else {
                    (
                        PlaybackWorker {
                            prepared: Some((self.sequence, generation, epoch)),
                            phase: PlaybackPhase::Inspecting { generation },
                            ..self
                        },
                        state,
                    )
                },
                None => self.fatal(state, EngineError::WorkerPanic, true),
            },
            PlaybackPhase::Confirming { generation } => match answer {
                Some(epoch) => self.confirmed(state, generation, epoch),
                None => self.fatal(state, EngineError::WorkerPanic, true),
            },
            _ => (self, state),
        }
    }

    /// What follows a look at the stream.
    pub open spec fn inspected(
        self,
        state: RunState,
        generation: u64,
        status: Option<PlaybackStatus>,
    ) -> (PlaybackWorker, RunState) {
        let after = match status {
            Some(seen) => state.with_timeline(
                state.timeline.with_pcm_delay(
                    StreamDirection::Playback,
                    seen.delay,
                    self.config.period as u64,
                ).with_delay_breakdown(seen.delay, seen.available, self.config.buffer),
            ),
            None => state,
        };
        if self.config.pro {
            (self.at(PlaybackPhase::Confirming { generation }), after)
        } else {
            self.confirmed(after, generation, 0)
        }
    }

    /// What follows `event`. An event that was not asked for changes nothing.
    pub open spec fn next(self, state: RunState, event: CycleEvent) -> (PlaybackWorker, RunState) {
        match (self.phase, event) {
            (_, CycleEvent::Called { panicked }) => self.next_called(state, panicked),
            (_, CycleEvent::Epoch(answer)) => self.next_epoch(state, answer),
            (PlaybackPhase::Waiting, CycleEvent::Waited(waited)) => match waited {
                Ok(_) => if state.control.stopping() {
                    self.top(state)
                } else if self.config.pro {
                    (self.at(PlaybackPhase::Opening), state)
                } else {
                    (self.identified(state.timeline.generation, 0), state)
                },
                Err(error) => self.failed(state, error),
            },
            (PlaybackPhase::Inspecting { generation }, CycleEvent::Status(status)) =>
                self.inspected(state, generation, status),
            (PlaybackPhase::Timing, CycleEvent::Clock { nanos }) => (
                self.at(PlaybackPhase::Writing),
                state.with_timeline(state.timeline.with_playback_write(self.sequence, nanos)),
            ),
            (PlaybackPhase::Writing, CycleEvent::Written { result, write_nanos }) => {
                let timed = state.with_timeline(state.timeline.with_write_time(write_nanos));
                if self.config.pro {
                    (self.at(PlaybackPhase::Closing { written: result }), timed)
                } else {
                    self.written(timed, result)
                }
            },
            (PlaybackPhase::Recovering { .. }, CycleEvent::Recovered(recovered)) =>
                match recovered {
                    Ok(_) => self.top(state),
                    Err(error) => if error is Stopped {
                        (
                            self.at(PlaybackPhase::Finished { result: Ok(()), opened: false }),
                            state.ended(),
                        )
                    } else {
                        self.fatal(state, error, false)
                    },
                },
            _ => (self, state),
        }
    }

    /// What the phase asks for.
    pub open spec fn wants(self) -> CycleAction {
        match self.phase {
            PlaybackPhase::Announcing { .. } => CycleAction::ReadEpoch,
            PlaybackPhase::Preparing { .. } => CycleAction::PreparePlayback {
                sequence: self.sequence,
            },
            PlaybackPhase::Waiting => if self.config.timer_scheduling {
                CycleAction::WaitPlaybackTarget
            } else {
                CycleAction::WaitTransfer
            },
            PlaybackPhase::Opening => CycleAction::BeginCommit,
            PlaybackPhase::Asking { .. } => CycleAction::ReadEpoch,
            PlaybackPhase::Clearing { .. } => CycleAction::ClearPlayback,
            PlaybackPhase::Rendering { .. } => CycleAction::ProcessPlayback {
                sequence: self.sequence,
                cutoff_nanos: None,
            },
            PlaybackPhase::Committing { .. } => CycleAction::CommitPlayback {
                sequence: self.sequence,
            },
            PlaybackPhase::Rechecking { .. } => CycleAction::ReadEpoch,
            PlaybackPhase::Inspecting { .. } => CycleAction::ReadPlaybackStatus,
            PlaybackPhase::Confirming { .. } => CycleAction::ReadEpoch,
            PlaybackPhase::StaleClearing => CycleAction::ClearPlayback,
            PlaybackPhase::Timing => CycleAction::ReadClock,
            PlaybackPhase::Writing => CycleAction::WritePlayback {
                offset: 0,
                samples: self.config.period_samples,
            },
            PlaybackPhase::Closing { .. } => CycleAction::EndCommit,
            PlaybackPhase::Publishing => CycleAction::PublishProTarget {
                sequence: self.sequence.wrapping_add(self.config.sequence_lead),
            },
            PlaybackPhase::Recovering { .. } => CycleAction::Recover,
            PlaybackPhase::Releasing => CycleAction::ReleaseCommit,
            PlaybackPhase::Finished { opened, .. } => if opened {
                CycleAction::ReleaseCommit
            } else {
                CycleAction::Finish
            },
        }
    }

    /// What to do next.
    pub fn action(&self) -> (action: CycleAction)
        ensures
            action == self.wants(),
    {
        match self.phase {
            PlaybackPhase::Announcing { .. } => CycleAction::ReadEpoch,
            PlaybackPhase::Preparing { .. } => CycleAction::PreparePlayback {
                sequence: self.sequence,
            },
            PlaybackPhase::Waiting => if self.config.timer_scheduling {
                CycleAction::WaitPlaybackTarget
            } else {
                CycleAction::WaitTransfer
            },
            PlaybackPhase::Opening => CycleAction::BeginCommit,
            PlaybackPhase::Asking { .. } => CycleAction::ReadEpoch,
            PlaybackPhase::Clearing { .. } => CycleAction::ClearPlayback,
            PlaybackPhase::Rendering { .. } => CycleAction::ProcessPlayback {
                sequence: self.sequence,
                cutoff_nanos: None,
            },
            PlaybackPhase::Committing { .. } => CycleAction::CommitPlayback {
                sequence: self.sequence,
            },
            PlaybackPhase::Rechecking { .. } => CycleAction::ReadEpoch,
            PlaybackPhase::Inspecting { .. } => CycleAction::ReadPlaybackStatus,
            PlaybackPhase::Confirming { .. } => CycleAction::ReadEpoch,
            PlaybackPhase::StaleClearing => CycleAction::ClearPlayback,
            PlaybackPhase::Timing => CycleAction::ReadClock,
            PlaybackPhase::Writing => CycleAction::WritePlayback {
                offset: 0,
                samples: self.config.period_samples,
            },
            PlaybackPhase::Closing { .. } => CycleAction::EndCommit,
            PlaybackPhase::Publishing => CycleAction::PublishProTarget {
                sequence: self.sequence.wrapping_add(self.config.sequence_lead),
            },
            PlaybackPhase::Recovering { .. } => CycleAction::Recover,
            PlaybackPhase::Releasing => CycleAction::ReleaseCommit,
            PlaybackPhase::Finished { opened, .. } => if opened {
                CycleAction::ReleaseCommit
            } else {
                CycleAction::Finish
            },
        }
    }

    /// A worker that is about to begin its first period.
    pub fn new(config: PlaybackWorkerConfig, state: &mut RunState) -> (worker: Self)
        ensures
            (worker, *final(state)) == PlaybackWorker::unstarted(config).top(*old(state)),
    {
        let mut worker = PlaybackWorker {
            config,
            position: 0,
            sequence: 0,
            successful_periods: 0,
            announced: None,
            prepared: None,
            phase: PlaybackPhase::Waiting,
        };
        worker.go_to_top(state);
        worker
    }

    /// How the run ended, once it has.
    pub fn result(&self) -> (result: Option<Result<(), EngineError>>)
        ensures
            result == match self.phase {
                PlaybackPhase::Finished { result: ended, opened: false } => Some(ended),
                _ => None,
            },
    {
        match &self.phase {
            PlaybackPhase::Finished { result, opened } => if *opened {
                None
            } else {
                Some(same_result(result))
            },
            _ => None,
        }
    }

    fn go_to_top(&mut self, state: &mut RunState)
        ensures
            (*final(self), *final(state)) == old(self).top(*old(state)),
    {
        if state.control.should_stop() || period_limit_reached(
            self.successful_periods,
            self.config.max_periods,
        ) {
            state.end();
            self.phase = PlaybackPhase::Finished { result: Ok(()), opened: false };
            return ;
        }
        if let Some((announced, _, _)) = self.announced {
            if announced == self.sequence {
                self.phase = PlaybackPhase::Waiting;
                return ;
            }
        }
        let generation: u64 = state.timeline.generation();
        if self.config.pro {
            self.phase = PlaybackPhase::Announcing { generation };
        } else {
            self.announced = Some((self.sequence, generation, 0u64));
            self.phase = PlaybackPhase::Waiting;
        }
    }

    fn end_with(&mut self, state: &mut RunState, error: EngineError, opened: bool)
        ensures
            (*final(self), *final(state)) == old(self).fatal(*old(state), error, opened),
    {
        state.end();
        self.phase = PlaybackPhase::Finished { result: Err(error), opened };
    }

    fn fail(&mut self, state: &mut RunState, error: EngineError)
        ensures
            (*final(self), *final(state)) == old(self).failed(*old(state), error),
    {
        if error.is_stopped() {
            state.end();
            self.phase = PlaybackPhase::Finished { result: Ok(()), opened: false };
        } else if error.is_recoverable() {
            self.phase = PlaybackPhase::Recovering { error };
        } else {
            self.end_with(state, error, false);
        }
    }

    fn identify(&mut self, generation: u64, epoch: u64)
        ensures
            *final(self) == old(self).identified(generation, epoch),
    {
        if prepared_output_matches(self.prepared, self.sequence, generation, epoch) {
            self.phase = PlaybackPhase::Inspecting { generation };
        } else if self.config.pro {
            self.phase = PlaybackPhase::Clearing { generation, epoch };
        } else {
            self.prepared = Some((self.sequence, generation, epoch));
            self.phase = PlaybackPhase::Inspecting { generation };
        }
    }

    fn discard(&mut self)
        ensures
            *final(self) == old(self).discarded(),
    {
        self.prepared = None;
        self.phase = PlaybackPhase::Releasing;
    }

    fn recheck(&mut self, state: &RunState, generation: u64, epoch: u64)
        ensures
            *final(self) == old(self).rechecked(*state, generation, epoch),
    {
        if state.timeline.generation() != generation {
            self.discard();
        } else {
            self.phase = PlaybackPhase::Rechecking { generation, epoch };
        }
    }

    fn confirm(&mut self, state: &mut RunState, generation: u64, write_epoch: u64)
        ensures
            (*final(self), *final(state)) == old(self).confirmed(
                *old(state),
                generation,
                write_epoch,
            ),
    {
        if state.timeline.generation() != generation {
            if self.config.pro {
                self.discard();
            } else {
                self.prepared = None;
                self.go_to_top(state);
            }
        } else if prepared_output_matches(self.prepared, self.sequence, generation, write_epoch) {
            self.phase = PlaybackPhase::Timing;
        } else {
            self.prepared = Some((self.sequence, generation, write_epoch));
            self.phase = if self.config.pro {
                PlaybackPhase::StaleClearing
            } else {
                PlaybackPhase::Timing
            };
        }
    }

    fn publish(&mut self, state: &mut RunState)
        ensures
            (*final(self), *final(state)) == old(self).published(*old(state)),
    {
        state.timeline.update_playback_position(self.position);
        state.period_done(self.config.period as u64);
        self.go_to_top(state);
    }

    fn write_closed(&mut self, state: &mut RunState, result: Result<i64, EngineError>)
        ensures
            (*final(self), *final(state)) == old(self).written(*old(state), result),
    {
        match result {
            Ok(frames) => if frames != self.config.period {
                self.end_with(
                    state,
                    EngineError::ShortCommit {
                        direction: StreamDirection::Playback,
                        actual: frames,
                        required: self.config.period,
                    },
                    false,
                );
            } else {
                self.position = self.position.wrapping_add(self.config.period as u64);
                self.sequence = next_sequence(self.sequence);
                self.successful_periods = self.successful_periods.saturating_add(1);
                self.announced = None;
                self.prepared = None;
                if self.config.pro {
                    self.phase = PlaybackPhase::Publishing;
                } else {
                    self.publish(state);
                }
            },
            Err(error) => self.fail(state, error),
        }
    }

    /// Ends the commit of a run that has ended.
    fn let_go(&mut self)
        requires
            old(self).phase is Finished,
        ensures
            *final(self) == old(self).at(
                PlaybackPhase::Finished { result: old(self).phase->Finished_result, opened: false },
            ),
    {
        if let PlaybackPhase::Finished { result, .. } = &self.phase {
            let ended = same_result(result);
            self.phase = PlaybackPhase::Finished { result: ended, opened: false };
        }
    }

    fn close_write(&mut self, state: &mut RunState)
        requires
            old(self).phase is Closing,
        ensures
            (*final(self), *final(state)) == old(self).written(
                *old(state),
                old(self).phase->Closing_written,
            ),
    {
        if let PlaybackPhase::Closing { written } = &self.phase {
            let result = same_result(written);
            self.write_closed(state, result);
        }
    }

    /// Handles the outcome of client code.
    fn called(&mut self, state: &mut RunState, panicked: bool)
        ensures
            (*final(self), *final(state)) == old(self).next_called(*old(state), panicked),
    {
        match self.phase {
            PlaybackPhase::Preparing { generation, epoch } => if panicked {
                self.end_with(state, EngineError::WorkerPanic, false);
            } else {
                self.announced = Some((self.sequence, generation, epoch));
                self.phase = PlaybackPhase::Waiting;
            },
            PlaybackPhase::Opening => if panicked {
                self.end_with(state, EngineError::WorkerPanic, false);
            } else {
                self.phase = PlaybackPhase::Asking { generation: state.timeline.generation() };
            },
            PlaybackPhase::Clearing { generation, epoch } => if announced_output_matches(
                self.announced,
                self.sequence,
                generation,
                epoch,
            ) {
                state.timeline.record_pro_wait_budget(0);
                self.phase = PlaybackPhase::Rendering { generation, epoch };
            } else {
                self.recheck(state, generation, epoch);
            },
            PlaybackPhase::Rendering { generation, epoch } => if panicked {
                self.end_with(state, EngineError::WorkerPanic, true);
            } else {
                self.phase = PlaybackPhase::Committing { generation, epoch };
            },
            PlaybackPhase::Committing { generation, epoch } => if panicked {
                self.end_with(state, EngineError::WorkerPanic, true);
            } else {
                self.recheck(state, generation, epoch);
            },
            PlaybackPhase::StaleClearing => {
                self.phase = PlaybackPhase::Timing;
            },
            PlaybackPhase::Closing { .. } => if panicked {
                self.end_with(state, EngineError::WorkerPanic, false);
            } else {
                self.close_write(state);
            },
            PlaybackPhase::Publishing => self.publish(state),
            PlaybackPhase::Releasing => self.go_to_top(state),
            PlaybackPhase::Finished { .. } => self.let_go(),
            _ => {},
        }
    }

    /// Handles the source's answer about its epoch.
    fn epoch_answered(&mut self, state: &mut RunState, answer: Option<u64>)
        ensures
            (*final(self), *final(state)) == old(self).next_epoch(*old(state), answer),
    {
        match self.phase {
            PlaybackPhase::Announcing { generation } => match answer {
                Some(epoch) => {
                    self.phase = PlaybackPhase::Preparing { generation, epoch };
                },
                None => self.end_with(state, EngineError::WorkerPanic, false),
            },
            PlaybackPhase::Asking { generation } => match answer {
                Some(epoch) => self.identify(generation, epoch),
                None => self.end_with(state, EngineError::WorkerPanic, true),
            },
            PlaybackPhase::Rechecking { generation, epoch } => match answer {
                Some(now) => if now != epoch {
                    self.discard();
                } else {
                    self.prepared = Some((self.sequence, generation, epoch));
                    self.phase = PlaybackPhase::Inspecting { generation };
                },
                None => self.end_with(state, EngineError::WorkerPanic, true),
            },
            PlaybackPhase::Confirming { generation } => match answer {
                Some(epoch) => self.confirm(state, generation, epoch),
                None => self.end_with(state, EngineError::WorkerPanic, true),
            },
            _ => {},
        }
    }

    /// Handles the outcome of the action that was asked for.
    pub fn step(&mut self, state: &mut RunState, event: CycleEvent)
        ensures
            (*final(self), *final(state)) == old(self).next(*old(state), event),
    {
        if let CycleEvent::Called { panicked } = event {
            self.called(state, panicked);
            return ;
        }
        if let CycleEvent::Epoch(answer) = event {
            self.epoch_answered(state, answer);
            return ;
        }
        match self.phase {
            PlaybackPhase::Waiting => if let CycleEvent::Waited(waited) = event {
                match waited {
                    Ok(_) => if state.control.should_stop() {
                        self.go_to_top(state);
                    } else if self.config.pro {
                        self.phase = PlaybackPhase::Opening;
                    } else {
                        self.identify(state.timeline.generation(), 0);
                    },
                    Err(error) => self.fail(state, error),
                }
            },
            PlaybackPhase::Inspecting { generation } => if let CycleEvent::Status(status) = event {
                if let Some(seen) = status {
                    state.timeline.update_pcm_delay(
                        StreamDirection::Playback,
                        seen.delay,
                        self.config.period as u64,
                    );
                    state.timeline.update_playback_delay_breakdown(
                        seen.delay,
                        seen.available,
                        self.config.buffer,
                    );
                }
                if self.config.pro {
                    self.phase = PlaybackPhase::Confirming { generation };
                } else {
                    self.confirm(state, generation, 0);
                }
            },
            PlaybackPhase::Timing => if let CycleEvent::Clock { nanos } = event {
                state.timeline.record_pro_playback_write(self.sequence, nanos);
                self.phase = PlaybackPhase::Writing;
            },
            PlaybackPhase::Writing => if let CycleEvent::Written { result, write_nanos } = event {
                state.timeline.record_playback_write(write_nanos);
                if self.config.pro {
                    self.phase = PlaybackPhase::Closing { written: result };
                } else {
                    self.write_closed(state, result);
                }
            },
            PlaybackPhase::Recovering { .. } => if let CycleEvent::Recovered(recovered) = event {
                match recovered {
                    Ok(_) => self.go_to_top(state),
                    Err(error) => if error.is_stopped() {
                        state.end();
                        self.phase = PlaybackPhase::Finished { result: Ok(()), opened: false };
                    } else {
                        self.end_with(state, error, false);
                    },
                }
            },
            _ => {},
        }
    }
}

/// Playback is being committed: the source's output must not be taken away.
pub open spec fn commits(phase: PlaybackPhase) -> bool {
    match phase {
        PlaybackPhase::Asking { .. } => true,
        PlaybackPhase::Clearing { .. } => true,
        PlaybackPhase::Rendering { .. } => true,
        PlaybackPhase::Committing { .. } => true,
        PlaybackPhase::Rechecking { .. } => true,
        PlaybackPhase::Inspecting { .. } => true,
        PlaybackPhase::Confirming { .. } => true,
        PlaybackPhase::StaleClearing => true,
        PlaybackPhase::Timing => true,
        PlaybackPhase::Writing => true,
        PlaybackPhase::Closing { .. } => true,
        PlaybackPhase::Releasing => true,
        PlaybackPhase::Finished { opened, .. } => opened,
        _ => false,
    }
}

/// With a source, every commit that is begun is ended exactly once, and playback is written only
/// inside one.
pub proof fn commits_are_bracketed(worker: PlaybackWorker, state: RunState, event: CycleEvent)
    requires
        worker.config.pro,
    ensures
        !commits(worker.phase) && commits(worker.next(state, event).0.phase) ==> worker.wants()
            == CycleAction::BeginCommit,
        commits(worker.phase) && !commits(worker.next(state, event).0.phase) ==> worker.wants()
            == CycleAction::EndCommit || worker.wants() == CycleAction::ReleaseCommit,
        worker.wants() is WritePlayback ==> commits(worker.phase),
        worker.wants() == CycleAction::Finish ==> !commits(worker.phase),
{
}

/// The block that is written belongs to the sequence being played.
pub open spec fn block_is_current(worker: PlaybackWorker) -> bool {
    worker.phase is Timing || worker.phase is Writing || worker.phase is StaleClearing ==> (
    worker.prepared is Some && (worker.prepared->0).0 == worker.sequence)
}

/// Whatever happens, a block is written only while it is prepared for the sequence being played.
pub proof fn written_block_is_current(worker: PlaybackWorker, state: RunState, event: CycleEvent)
    requires
        block_is_current(worker),
    ensures
        block_is_current(worker.next(state, event).0),
{
}

/// A block survives a restart of the stream only for the generation and epoch it was prepared for:
/// after a change of either it is silenced and made anew.
pub proof fn prepared_output_is_reused_only_unchanged(
    worker: PlaybackWorker,
    state: RunState,
    generation: u64,
    epoch: u64,
)
    requires
        worker.config.pro,
        worker.phase == (PlaybackPhase::Asking { generation }),
    ensures
        ({
            let asked = worker.next(state, CycleEvent::Epoch(Some(epoch))).0;
            if worker.prepared == Some((worker.sequence, generation, epoch)) {
                asked.wants() == CycleAction::ReadPlaybackStatus
            } else {
                asked.wants() == CycleAction::ClearPlayback
            }
        }),
{
}

/// Output that was announced in another generation or epoch is not asked for: the block stays
/// silent.
pub proof fn unannounced_output_stays_silent(
    worker: PlaybackWorker,
    state: RunState,
    generation: u64,
    epoch: u64,
)
    requires
        worker.phase == (PlaybackPhase::Clearing { generation, epoch }),
        worker.announced != Some((worker.sequence, generation, epoch)),
    ensures
        !(worker.next(state, CycleEvent::Called { panicked: false }).0.phase is Rendering),
{
}

/// Output taken away between rendering and writing is not played: the last look silences the
/// block.
pub proof fn output_taken_away_is_silenced(
    worker: PlaybackWorker,
    state: RunState,
    generation: u64,
    epoch: u64,
)
    requires
        worker.config.pro,
        worker.phase == (PlaybackPhase::Confirming { generation }),
        state.timeline.generation == generation,
        worker.prepared != Some((worker.sequence, generation, epoch)),
    ensures
        worker.next(state, CycleEvent::Epoch(Some(epoch))).0.wants() == CycleAction::ClearPlayback,
{
}

/// Only a written period moves the sequence, by one.
pub proof fn only_written_periods_advance(
    worker: PlaybackWorker,
    state: RunState,
    event: CycleEvent,
)
    ensures
        ({
            let later = worker.next(state, event).0;
            &&& later.sequence == worker.sequence || later.sequence
                == worker.sequence.wrapping_add(1)
            &&& later.sequence != worker.sequence ==> worker.phase is Writing || worker.phase
                is Closing
        }),
{
}

/// Driving the worker is no hardware event.
pub proof fn steps_keep_the_hardware_history(
    worker: PlaybackWorker,
    state: RunState,
    event: CycleEvent,
)
    ensures
        crate::timeline::same_hardware_history(
            state.timeline,
            worker.next(state, event).1.timeline,
        ),
{
}

/// Steps that a period of the playback worker takes at most.
pub const PLAYBACK_STEPS: u64 = 16;

/// Steps that a phase leaves of its period at most.
pub open spec fn steps_left(phase: PlaybackPhase) -> int {
    match phase {
        PlaybackPhase::Announcing { .. } => 16,
        PlaybackPhase::Preparing { .. } => 15,
        PlaybackPhase::Waiting => 14,
        PlaybackPhase::Opening => 13,
        PlaybackPhase::Asking { .. } => 12,
        PlaybackPhase::Clearing { .. } => 11,
        PlaybackPhase::Rendering { .. } => 10,
        PlaybackPhase::Committing { .. } => 9,
        PlaybackPhase::Rechecking { .. } => 8,
        PlaybackPhase::Inspecting { .. } => 7,
        PlaybackPhase::Confirming { .. } => 6,
        PlaybackPhase::StaleClearing => 5,
        PlaybackPhase::Timing => 4,
        PlaybackPhase::Writing => 3,
        PlaybackPhase::Closing { .. } => 2,
        PlaybackPhase::Publishing => 1,
        _ => 0,
    }
}

/// Periods that the worker has written and published.
pub open spec fn published_periods(worker: PlaybackWorker) -> int {
    if worker.phase is Publishing {
        worker.successful_periods - 1
    } else {
        worker.successful_periods as int
    }
}

/// A run of the worker: `workers` and `left` are the worker and the state after each step, `found`
/// the state that each step found. The first of each is that of [`PlaybackWorker::new`].
pub open spec fn playback_run(
    config: PlaybackWorkerConfig,
    workers: Seq<PlaybackWorker>,
    found: Seq<RunState>,
    left: Seq<RunState>,
    events: Seq<CycleEvent>,
) -> bool {
    &&& workers.len() == found.len() == left.len() == events.len() + 1
    &&& (workers[0], left[0]) == PlaybackWorker::unstarted(config).top(found[0])
    &&& forall|i: int|
        #![trigger events[i]]
        0 <= i < events.len() ==> (workers[i + 1], left[i + 1]) == workers[i].next(
            found[i + 1],
            events[i],
        )
}

/// Nothing went wrong in a run, nobody asked it to stop, and no output was taken away: the source
/// stays in `epoch`.
pub open spec fn playback_run_went_well(
    config: PlaybackWorkerConfig,
    epoch: u64,
    workers: Seq<PlaybackWorker>,
    found: Seq<RunState>,
    left: Seq<RunState>,
    events: Seq<CycleEvent>,
) -> bool {
    &&& !found[0].control.stopping()
    &&& forall|i: int|
        #![trigger events[i]]
        0 <= i < events.len() ==> {
            &&& undisturbed(left[i], found[i + 1])
            &&& went_well(workers[i].wants(), events[i], config.period)
            &&& events[i] matches CycleEvent::Epoch(answer) ==> answer == Some(epoch)
        }
}

spec fn on_course(
    config: PlaybackWorkerConfig,
    epoch: u64,
    start: RunState,
    limit: u64,
    worker: PlaybackWorker,
    state: RunState,
) -> bool {
    &&& worker.config == config
    &&& 0 <= published_periods(worker) <= limit
    &&& has_processed(start, state, published_periods(worker), config.period)
    &&& if published_periods(worker) == limit {
        worker.phase == (PlaybackPhase::Finished { result: Ok(()), opened: false })
            && state.control.done
    } else {
        let now = state.timeline.generation;
        &&& !state.control.stopping()
        &&& steps_left(worker.phase) > 0
        &&& match worker.phase {
            PlaybackPhase::Clearing { generation, epoch: e } => generation == now && e == epoch,
            PlaybackPhase::Rendering { generation, epoch: e } => generation == now && e == epoch,
            PlaybackPhase::Committing { generation, epoch: e } => generation == now && e == epoch,
            PlaybackPhase::Rechecking { generation, epoch: e } => generation == now && e == epoch,
            PlaybackPhase::Asking { generation } => generation == now,
            PlaybackPhase::Inspecting { generation } => generation == now,
            PlaybackPhase::Confirming { generation } => generation == now,
            PlaybackPhase::Closing { written } => config.pro && written == Ok::<i64, EngineError>(
                config.period,
            ),
            PlaybackPhase::Publishing => config.pro,
            _ => true,
        }
    }
}

/// Steps that are left of a run at most.
spec fn run_left(limit: u64, worker: PlaybackWorker) -> int {
    if published_periods(worker) >= limit {
        0
    } else {
        (limit - published_periods(worker) - 1) * 16 + steps_left(worker.phase)
    }
}

proof fn lemma_step_on_course(
    config: PlaybackWorkerConfig,
    epoch: u64,
    start: RunState,
    limit: u64,
    worker: PlaybackWorker,
    left: RunState,
    found: RunState,
    event: CycleEvent,
)
    requires
        config.period >= 0,
        config.max_periods == Some(limit),
        on_course(config, epoch, start, limit, worker, left),
        undisturbed(left, found),
        went_well(worker.wants(), event, config.period),
        event matches CycleEvent::Epoch(answer) ==> answer == Some(epoch),
    ensures
        ({
            let (later, state) = worker.next(found, event);
            &&& on_course(config, epoch, start, limit, later, state)
            &&& run_left(limit, worker) > 0 ==> run_left(limit, later) < run_left(limit, worker)
            &&& run_left(limit, worker) == 0 ==> run_left(limit, later) == 0
        }),
{
    let (later, state) = worker.next(found, event);
    if worker.phase is Publishing || (worker.phase is Writing && !config.pro) {
        lemma_one_more_period(start, found, state, published_periods(worker), config.period);
    }
}

/// A limited run in which nothing goes wrong and no output is taken away writes its periods and
/// ends: after every step as many periods and frames are counted as the worker has written and
/// published, the run is over exactly when these are all, and then it has succeeded, raised the
/// flag and holds no commit. That takes at most sixteen steps for each period.
pub proof fn a_limited_run_writes_its_periods(
    config: PlaybackWorkerConfig,
    epoch: u64,
    limit: u64,
    workers: Seq<PlaybackWorker>,
    found: Seq<RunState>,
    left: Seq<RunState>,
    events: Seq<CycleEvent>,
    k: int,
)
    requires
        config.period >= 0,
        config.max_periods == Some(limit),
        playback_run(config, workers, found, left, events),
        playback_run_went_well(config, epoch, workers, found, left, events),
        0 <= k <= events.len(),
    ensures
        published_periods(workers[k]) <= limit,
        has_processed(found[0], left[k], published_periods(workers[k]), config.period),
        workers[k].phase is Finished <==> published_periods(workers[k]) == limit,
        workers[k].phase is Finished ==> workers[k].phase == (PlaybackPhase::Finished {
            result: Ok(()),
            opened: false,
        }) && left[k].control.done,
        k >= limit * PLAYBACK_STEPS ==> workers[k].phase is Finished,
{
    lemma_run_on_course(config, epoch, limit, workers, found, left, events, k);
}

proof fn lemma_run_on_course(
    config: PlaybackWorkerConfig,
    epoch: u64,
    limit: u64,
    workers: Seq<PlaybackWorker>,
    found: Seq<RunState>,
    left: Seq<RunState>,
    events: Seq<CycleEvent>,
    k: int,
)
    requires
        config.period >= 0,
        config.max_periods == Some(limit),
        playback_run(config, workers, found, left, events),
        playback_run_went_well(config, epoch, workers, found, left, events),
        0 <= k <= events.len(),
    ensures
        on_course(config, epoch, found[0], limit, workers[k], left[k]),
        run_left(limit, workers[k]) == 0 || run_left(limit, workers[k]) + k <= limit * 16,
    decreases k,
{
    if k == 0 {
        assert(counted(found[0].timeline.periods_processed, 0)
            == found[0].timeline.periods_processed);
        assert(counted(found[0].timeline.sample_position, 0 * (config.period as int))
            == found[0].timeline.sample_position);
    } else {
        lemma_run_on_course(config, epoch, limit, workers, found, left, events, k - 1);
        assert((workers[k], left[k]) == workers[k - 1].next(found[k], events[k - 1]));
        lemma_step_on_course(
            config,
            epoch,
            found[0],
            limit,
            workers[k - 1],
            left[k - 1],
            found[k],
            events[k - 1],
        );
    }
}

/// A period of a worker with a source takes its course: its output is announced and prepared, the
/// device is waited for, and inside the commit the block is silenced, filled with the announced
/// output, committed and looked at once more before it is written whole under its number; then the
/// number that capture is to aim at is published, ahead by the lead.
pub proof fn a_period_takes_its_course(worker: PlaybackWorker, state: RunState, event: CycleEvent)
    requires
        worker.config.pro,
        !state.control.stop,
        !state.control.done,
        went_well(worker.wants(), event, worker.config.period),
    ensures
        ({
            let after = worker.next(state, event).0;
            let number = worker.sequence;
            let current = state.timeline.generation;
            let wait = if worker.config.timer_scheduling {
                CycleAction::WaitPlaybackTarget
            } else {
                CycleAction::WaitTransfer
            };
            &&& worker.phase matches PlaybackPhase::Announcing { generation } ==> {
                &&& worker.wants() == CycleAction::ReadEpoch
                &&& event matches CycleEvent::Epoch(Some(epoch))
                &&& after.phase == PlaybackPhase::Preparing { generation, epoch }
                &&& after.wants() == CycleAction::PreparePlayback { sequence: number }
            }
            &&& worker.phase matches PlaybackPhase::Preparing { generation, epoch }
                ==> after.announced == Some((number, generation, epoch)) && after.wants() == wait
            &&& worker.phase is Waiting ==> after.wants() == CycleAction::BeginCommit
            &&& worker.phase is Opening ==> after.wants() == CycleAction::ReadEpoch && after.phase
                == (PlaybackPhase::Asking { generation: current })
            &&& worker.phase matches PlaybackPhase::Asking { generation } ==> {
                &&& event matches CycleEvent::Epoch(Some(epoch))
                &&& worker.prepared == Some((number, generation, epoch)) ==> after.wants()
                    == CycleAction::ReadPlaybackStatus && after.prepared == worker.prepared
                &&& worker.prepared != Some((number, generation, epoch)) ==> after.wants()
                    == CycleAction::ClearPlayback && after.phase == (PlaybackPhase::Clearing {
                    generation,
                    epoch,
                })
            }
            &&& worker.phase matches PlaybackPhase::Clearing { generation, epoch } ==> {
                &&& worker.announced == Some((number, generation, epoch)) ==> after.wants() == (
                CycleAction::ProcessPlayback { sequence: number, cutoff_nanos: None })
                    && after.phase == (PlaybackPhase::Rendering { generation, epoch })
                &&& worker.announced != Some((number, generation, epoch)) && current == generation
                    ==> after.phase == (PlaybackPhase::Rechecking { generation, epoch })
            }
            &&& worker.phase matches PlaybackPhase::Rendering { generation, epoch }
                ==> after.wants() == (CycleAction::CommitPlayback { sequence: number })
                && after.phase == (PlaybackPhase::Committing { generation, epoch })
            &&& worker.phase matches PlaybackPhase::Committing { generation, epoch } ==> if current
                == generation {
                &&& after.wants() == CycleAction::ReadEpoch
                &&& after.phase == PlaybackPhase::Rechecking { generation, epoch }
            } else {
                after.wants() == CycleAction::ReleaseCommit && after.prepared is None
            }
            &&& worker.phase matches PlaybackPhase::Rechecking { generation, epoch } ==> {
                &&& event matches CycleEvent::Epoch(Some(now))
                &&& now == epoch ==> after.wants() == CycleAction::ReadPlaybackStatus
                    && after.prepared == Some((number, generation, epoch))
                &&& now != epoch ==> after.wants() == CycleAction::ReleaseCommit && after.prepared
                    is None
            }
            &&& worker.phase matches PlaybackPhase::Inspecting { generation } ==> after.wants()
                == CycleAction::ReadEpoch && after.phase == (PlaybackPhase::Confirming {
                generation,
            })
        }),
{
}

/// The same from the last look to the next period. A restart since discards the block, an output
/// taken away since silences it, and nothing else is written in its place.
pub proof fn a_confirmed_block_is_written(
    worker: PlaybackWorker,
    state: RunState,
    event: CycleEvent,
)
    requires
        worker.config.pro,
        !state.control.stop,
        !state.control.done,
        went_well(worker.wants(), event, worker.config.period),
    ensures
        ({
            let after = worker.next(state, event).0;
            let number = worker.sequence;
            let current = state.timeline.generation;
            &&& worker.phase matches PlaybackPhase::Confirming { generation } ==> {
                &&& event matches CycleEvent::Epoch(Some(epoch))
                &&& current != generation ==> after.wants() == CycleAction::ReleaseCommit
                    && after.prepared is None
                &&& current == generation && worker.prepared == Some((number, generation, epoch))
                    ==> after.wants() == CycleAction::ReadClock && after.prepared
                    == worker.prepared
                &&& current == generation && worker.prepared != Some((number, generation, epoch))
                    ==> after.wants() == CycleAction::ClearPlayback && after.prepared == Some(
                    (number, generation, epoch),
                )
            }
            &&& worker.phase is StaleClearing ==> after.wants() == CycleAction::ReadClock
            &&& worker.phase is Timing ==> after.wants() == (CycleAction::WritePlayback {
                offset: 0,
                samples: worker.config.period_samples,
            })
            &&& worker.phase is Writing ==> after.wants() == CycleAction::EndCommit && after.phase
                == (PlaybackPhase::Closing { written: Ok(worker.config.period) })
            &&& worker.phase == (PlaybackPhase::Closing { written: Ok(worker.config.period) })
                ==> {
                &&& after.sequence == number.wrapping_add(1)
                &&& after.wants() == CycleAction::PublishProTarget {
                    sequence: after.sequence.wrapping_add(worker.config.sequence_lead),
                }
                &&& after.prepared is None
                &&& after.announced is None
                &&& worker.successful_periods < u64::MAX ==> after.successful_periods
                    == worker.successful_periods + 1
                &&& worker.config.period >= 0 && worker.position + worker.config.period <= u64::MAX
                    ==> after.position == worker.position + worker.config.period
            }
            &&& worker.phase is Publishing && worker.config.max_periods is None && (
            worker.announced is None || (worker.announced->0).0 != number) ==> after.wants()
                == CycleAction::ReadEpoch && after.phase == (PlaybackPhase::Announcing {
                generation: current,
            })
            &&& worker.phase is Releasing && worker.config.max_periods is None ==> {
                &&& worker.announced is Some && (worker.announced->0).0 == number ==> after.phase
                    is Waiting
                &&& worker.announced is None || (worker.announced->0).0 != number ==> after.phase
                    == (PlaybackPhase::Announcing { generation: current })
            }
        }),
{
}

/// What the worker records: the delay that the stream reported, how long the write took, the time
/// from the capture of its number, and where playback stands after the period.
pub proof fn a_written_period_is_recorded(
    worker: PlaybackWorker,
    state: RunState,
    status: PlaybackStatus,
    nanos: u64,
    write_nanos: u64,
)
    requires
        0 <= status.delay,
        worker.config.period >= 0,
        state.timeline.sample_position + worker.config.period <= u64::MAX,
        state.timeline.periods_processed < u64::MAX,
    ensures
        worker.phase is Inspecting ==> {
            let found = worker.next(state, CycleEvent::Status(Some(status))).1;
            &&& worker.config.pro ==> found.timeline.playback_delay_frames == status.delay
            &&& worker.config.pro && 0 <= status.available <= worker.config.buffer
                ==> found.timeline.playback_ring_delay_frames + status.available
                == worker.config.buffer
        },
        worker.phase is Timing ==> {
            let found = worker.next(state, CycleEvent::Clock { nanos }).1;
            state.timeline.elapsed_since_capture(worker.sequence, nanos) matches Some(elapsed)
                ==> found.timeline.capture_to_playback_write_nanos == elapsed
        },
        worker.phase is Writing && worker.config.pro ==> {
            let found = worker.next(
                state,
                CycleEvent::Written { result: Ok(worker.config.period), write_nanos },
            ).1;
            &&& found.timeline.playback_write_max_nanos >= write_nanos
            &&& found.timeline.playback_write_max_nanos == write_nanos
                || found.timeline.playback_write_max_nanos
                == state.timeline.playback_write_max_nanos
        },
        worker.phase is Publishing ==> {
            let found = worker.next(state, CycleEvent::Called { panicked: false }).1;
            &&& found.timeline.playback_position == worker.position
            &&& found.timeline.sample_position == state.timeline.sample_position
                + worker.config.period
            &&& found.timeline.periods_processed == state.timeline.periods_processed + 1
        },
{
}

/// What a failure of playback comes to: a restart of the stream, a quiet end, or the end of the run
/// with that failure. A restart goes on with the number that was being played.
pub proof fn a_failure_restarts_or_ends_playback(
    worker: PlaybackWorker,
    state: RunState,
    error: EngineError,
    frames: i64,
)
    ensures
        ({
            let recoverable = error is Xrun || error is LinkedXrun || error is Suspended;
            let event = match worker.phase {
                PlaybackPhase::Waiting => CycleEvent::Waited(Err(error)),
                _ => CycleEvent::Called { panicked: false },
            };
            let (after, found) = worker.next(state, event);
            let streaming = worker.phase is Waiting || worker.phase == (PlaybackPhase::Closing {
                written: Err(error),
            });
            &&& streaming && recoverable ==> after.wants() == CycleAction::Recover && after.phase
                == (PlaybackPhase::Recovering { error }) && found == state
            &&& streaming && error is Stopped ==> after.phase == (PlaybackPhase::Finished {
                result: Ok(()),
                opened: false,
            }) && found.control.done
            &&& streaming && !recoverable && !(error is Stopped) ==> after.phase == (
            PlaybackPhase::Finished { result: Err(error), opened: false }) && found.control.done
        }),
        worker.phase == (PlaybackPhase::Closing { written: Ok(frames) }) && frames
            != worker.config.period ==> worker.next(
            state,
            CycleEvent::Called { panicked: false },
        ).0.phase == (PlaybackPhase::Finished {
            result: Err(
                EngineError::ShortCommit {
                    direction: StreamDirection::Playback,
                    actual: frames,
                    required: worker.config.period,
                },
            ),
            opened: false,
        }),
        ({
            let after = worker.next(state, CycleEvent::Called { panicked: true }).0;
            let outside = worker.phase is Preparing || worker.phase is Opening || worker.phase
                is Closing;
            let inside = worker.phase is Rendering || worker.phase is Committing;
            outside || inside ==> after.phase == (PlaybackPhase::Finished {
                result: Err(EngineError::WorkerPanic),
                opened: inside,
            })
        }),
        worker.phase is Recovering ==> {
            let again = worker.next(state, CycleEvent::Recovered(Ok(()))).0;
            let ended = worker.next(state, CycleEvent::Recovered(Err(error))).0;
            &&& again.sequence == worker.sequence
            &&& again.successful_periods == worker.successful_periods
            &&& again.prepared == worker.prepared
            &&& !(error is Stopped) ==> ended.phase == (PlaybackPhase::Finished {
                result: Err(error),
                opened: false,
            })
            &&& error is Stopped ==> ended.phase == (PlaybackPhase::Finished {
                result: Ok(()),
                opened: false,
            })
        },
{
}

/// A block counts as made for an output only where the number, the generation and the epoch are
/// all the same.
pub proof fn an_output_is_known_by_all_three(
    made_for: (u64, u64, u64),
    sequence: u64,
    generation: u64,
    epoch: u64,
)
    ensures
        matches_output(Some(made_for), sequence, generation, epoch) <==> made_for.0 == sequence
            && made_for.1 == generation && made_for.2 == epoch,
        !matches_output(None, sequence, generation, epoch),
{
}

} // verus!
