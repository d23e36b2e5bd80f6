//! The linked cycle without lead: a captured period is answered in the same cycle.
//!
//! One cycle reads a capture period, hands it to the client, waits for the client within the
//! budget that the playback queue leaves, and writes the answer. Event-driven pairs wait for the
//! hardware and give the client a cutoff; timed pairs give it a handoff target and then wait for
//! the playback queue to drain.
use vstd::prelude::*;
use crate::cycle::{
    counted, frame_samples, grant_handoff_budget, has_processed, lemma_one_more_period,
    period_limit_reached, undisturbed, went_well, CaptureObservation, CycleAction, CycleEvent,
    LinkedProConfig, RunState,
};
use crate::arith::sub_i64;
use crate::error::{
    alsa_failure, same_result, ConfigError, DeviceFailure, EngineError, FailureKind,
    StreamDirection,
};
use crate::sequence::next_sequence;
use crate::timing::{bounded_pro_handoff_target, direct_pro_cutoff_nanos, DirectDuplexReadiness};

verus! {

/// Where a cycle stands: what it has asked for and what it remembers meanwhile.
#[derive(Debug)]
pub enum LinkedPhase {
    /// Waiting for a period in both directions.
    Waiting,
    Reading { readiness: Option<DirectDuplexReadiness> },
    Observing { readiness: Option<DirectDuplexReadiness> },
    Preparing {
        readiness: Option<DirectDuplexReadiness>,
        read_nanos: u64,
        playback_delay: Option<i64>,
    },
    Publishing {
        readiness: Option<DirectDuplexReadiness>,
        read_nanos: u64,
        playback_delay: Option<i64>,
    },
    /// Looking at the clock before the client is waited for, with the cutoff decided.
    Budgeting { cutoff_nanos: u64 },
    ClientWaiting { cutoff_nanos: u64, exhausted: bool },
    /// Looking at the clock to decide on the handoff target.
    Targeting { read_nanos: u64, playback_delay: Option<i64> },
    Mixing { target_nanos: u64 },
    /// Looking at the clock before the handoff is waited for.
    HandoffBudgeting { target_nanos: u64 },
    HandoffWaiting { target_nanos: u64 },
    Opening { cutoff_nanos: u64 },
    Clearing { cutoff_nanos: u64 },
    Rendering { cutoff_nanos: u64 },
    LateMixing,
    Committing,
    Draining,
    Inspecting { samples: usize },
    Writing { samples: usize },
    /// Looking at the clock after the write.
    Timing,
    Closing,
    Deferring,
    /// Restarting the streams; `opened` tells whether playback was being committed, `skip` whether
    /// the period is given up.
    Recovering { error: EngineError, opened: bool, skip: bool },
    /// Letting go of the commit before the next cycle.
    Releasing,
    Finished { result: Result<(), EngineError>, opened: bool },
}

/// The linked cycle without lead.
#[derive(Debug)]
pub struct LinkedCycle {
    pub config: LinkedProConfig,
    pub playback_position: u64,
    pub capture_position: u64,
    pub sequence: u64,
    pub periods_processed: u64,
    pub phase: LinkedPhase,
}

impl LinkedCycle {
    pub open spec fn at(self, phase: LinkedPhase) -> LinkedCycle {
        LinkedCycle { phase, ..self }
    }

    /// A cycle that has processed nothing.
    pub open spec fn unstarted(config: LinkedProConfig) -> LinkedCycle {
        LinkedCycle {
            config,
            playback_position: 0,
            capture_position: 0,
            sequence: 0,
            periods_processed: 0,
            phase: LinkedPhase::Waiting,
        }
    }

    /// The top of the loop: the run ends when it is asked to or has processed its periods.
    pub open spec fn top(self, state: RunState) -> (LinkedCycle, RunState) {
        if state.control.stop || crate::cycle::limit_reached(
            self.periods_processed,
            self.config.max_periods,
        ) {
            (self.at(LinkedPhase::Finished { result: Ok(()), opened: false }), state.ended())
        } else if self.config.event_driven {
            (self.at(LinkedPhase::Waiting), state)
        } else {
            (self.at(LinkedPhase::Reading { readiness: None }), state)
        }
    }

    /// A failed wait or transfer: a request to stop ends the run quietly, a recoverable failure
    /// restarts the streams, and any other ends the run with it.
    pub open spec fn failed(
        self,
        state: RunState,
        error: EngineError,
        opened: bool,
        skip: bool,
    ) -> (LinkedCycle, RunState) {
        if error.recoverable() {
            (self.at(LinkedPhase::Recovering { error, opened, skip }), state)
        } else if error is Stopped {
            (self.at(LinkedPhase::Finished { result: Ok(()), opened }), state.ended())
        } else {
            (self.at(LinkedPhase::Finished { result: Err(error), opened }), state.ended())
        }
    }

    /// A failure that ends the run.
    pub open spec fn fatal(self, state: RunState, error: EngineError, opened: bool) -> (
        LinkedCycle,
        RunState,
    ) {
        (self.at(LinkedPhase::Finished { result: Err(error), opened }), state.ended())
    }

    /// A panic of the client code.
    pub open spec fn panicked(self, state: RunState, opened: bool) -> (LinkedCycle, RunState) {
        self.fatal(state, EngineError::WorkerPanic, opened)
    }

    /// The write of the period, or the end of the run when its samples cannot be counted.
    pub open spec fn write(self, state: RunState) -> (LinkedCycle, RunState) {
        match crate::cycle::samples_in(self.config.period, self.config.playback_channels) {
            Some(samples) => if self.config.event_driven {
                (self.at(LinkedPhase::Writing { samples }), state)
            } else {
                (self.at(LinkedPhase::Inspecting { samples }), state)
            },
            None => (
                self.at(
                    LinkedPhase::Finished {
                        result: Err(
                            EngineError::InvalidConfig(
                                ConfigError::Reason("playback chunk size overflow"),
                            ),
                        ),
                        opened: true,
                    },
                ),
                state,
            ),
        }
    }

    /// The state after a capture period was observed. Only timed pairs look at the streams.
    pub open spec fn observed(self, state: RunState, seen: CaptureObservation) -> (
        LinkedCycle,
        RunState,
    ) {
        let position = self.capture_position.wrapping_add(self.config.period as u64);
        let looked = if self.config.event_driven {
            state.timeline
        } else {
            let delayed = match seen.capture_delay {
                Some(delay) => state.timeline.with_pcm_delay(
                    StreamDirection::Capture,
                    delay,
                    self.config.period as u64,
                ),
                None => state.timeline,
            };
            match seen.pointer_phase {
                Some(phase) => delayed.with_pointer_phase(phase),
                None => delayed,
            }
        };
        let moved = crate::timeline::HardwareTimeline { capture_position: position, ..looked };
        (
            LinkedCycle { capture_position: position, ..self },
            state.with_timeline(moved.with_capture_read(self.sequence, seen.nanos)),
        )
    }

    /// What comes after the client got its capture.
    pub open spec fn published(
        self,
        state: RunState,
        readiness: Option<DirectDuplexReadiness>,
        read_nanos: u64,
        playback_delay: Option<i64>,
    ) -> (LinkedCycle, RunState) {
        let delivered = state.with_capture_delivered();
        if delivered.control.stop {
            self.top(delivered)
        } else if !self.config.event_driven {
            (self.at(LinkedPhase::Targeting { read_nanos, playback_delay }), delivered)
        } else {
            match readiness {
                Some(ready) => (
                    self.at(
                        LinkedPhase::Budgeting {
                            cutoff_nanos: crate::timing::direct_cutoff(
                                ready,
                                self.config.period,
                                self.config.rate,
                                self.config.handoff_nanos,
                            ),
                        },
                    ),
                    delivered,
                ),
                None => (
                    self.at(
                        LinkedPhase::Finished {
                            result: Err(
                                EngineError::InvalidConfig(
                                    ConfigError::Reason("direct duplex readiness is unavailable"),
                                ),
                            ),
                            opened: false,
                        },
                    ),
                    delivered,
                ),
            }
        }
    }

    /// When the client's answer is due, decided at `now`.
    pub open spec fn handoff_due(self, read_nanos: u64, playback_delay: Option<i64>, now: u64) -> u64 {
        match playback_delay {
            Some(delay) => crate::timing::handoff_target(
                read_nanos,
                now,
                self.config.handoff_nanos,
                delay,
                self.config.period,
                self.config.rate,
            ),
            None => crate::arith::clamp_u64(now + self.config.handoff_nanos),
        }
    }

    /// The cycle after its period was given up.
    pub open spec fn skipped(self) -> LinkedCycle {
        LinkedCycle { sequence: self.sequence.wrapping_add(1), ..self }
    }

    /// The cycle and the state after its period went through.
    pub open spec fn completed(self, state: RunState) -> (LinkedCycle, RunState) {
        (
            LinkedCycle {
                sequence: self.sequence.wrapping_add(1),
                periods_processed: self.periods_processed.wrapping_add(1),
                ..self
            },
            state.with_period_done(self.config.period as u64),
        )
    }

    /// What follows `event`. An event that was not asked for changes nothing.
    pub open spec fn next(self, state: RunState, event: CycleEvent) -> (LinkedCycle, RunState) {
        match (self.phase, event) {
            (LinkedPhase::Waiting, CycleEvent::DuplexReady(ready)) => match ready {
                Ok(readiness) => (
                    self.at(LinkedPhase::Reading { readiness: Some(readiness) }),
                    state,
                ),
                Err(error) => self.failed(state, error, false, false),
            },
            (LinkedPhase::Reading { readiness }, CycleEvent::Captured(read)) => match read {
                Ok(frames) => if frames != self.config.period {
                    self.fatal(
                        state,
                        EngineError::ShortCommit {
                            direction: StreamDirection::Capture,
                            actual: frames,
                            required: self.config.period,
                        },
                        false,
                    )
                } else if state.control.stop {
                    self.top(state)
                } else {
                    (self.at(LinkedPhase::Observing { readiness }), state)
                },
                Err(error) => self.failed(state, error, false, false),
            },
            (LinkedPhase::Observing { readiness }, CycleEvent::CaptureObserved(seen)) => {
                let (cycle, after) = self.observed(state, seen);
                (
                    cycle.at(
                        LinkedPhase::Preparing {
                            readiness,
                            read_nanos: seen.nanos,
                            playback_delay: seen.playback_delay,
                        },
                    ),
                    after,
                )
            },
            (
                LinkedPhase::Preparing { readiness, read_nanos, playback_delay },
                CycleEvent::Called { panicked },
            ) => if panicked {
                self.panicked(state, false)
            } else {
                (
                    self.at(LinkedPhase::Publishing { readiness, read_nanos, playback_delay }),
                    state,
                )
            },
            (
                LinkedPhase::Publishing { readiness, read_nanos, playback_delay },
                CycleEvent::Called { panicked },
            ) => if panicked {
                self.panicked(state, false)
            } else {
                self.published(state, readiness, read_nanos, playback_delay)
            },
            (LinkedPhase::Budgeting { cutoff_nanos }, CycleEvent::Clock { nanos }) => (
                self.at(
                    LinkedPhase::ClientWaiting { cutoff_nanos, exhausted: cutoff_nanos <= nanos },
                ),
                state.with_timeline(
                    state.timeline.with_wait_budget(
                        crate::arith::clamp_u64(cutoff_nanos - nanos),
                    ),
                ),
            ),
            (LinkedPhase::ClientWaiting { cutoff_nanos, .. }, CycleEvent::Called { panicked }) =>
                if panicked {
                    self.panicked(state, false)
                } else {
                    (self.at(LinkedPhase::Opening { cutoff_nanos }), state)
                },
            (
                LinkedPhase::Targeting { read_nanos, playback_delay },
                CycleEvent::Clock { nanos },
            ) => (
                self.at(
                    LinkedPhase::Mixing {
                        target_nanos: self.handoff_due(read_nanos, playback_delay, nanos),
                    },
                ),
                state,
            ),
            (LinkedPhase::Mixing { target_nanos }, CycleEvent::Called { panicked }) => if panicked {
                self.panicked(state, false)
            } else {
                (self.at(LinkedPhase::HandoffBudgeting { target_nanos }), state)
            },
            (LinkedPhase::HandoffBudgeting { target_nanos }, CycleEvent::Clock { nanos }) => (
                if nanos < target_nanos {
                    self.at(LinkedPhase::HandoffWaiting { target_nanos })
                } else {
                    self.at(LinkedPhase::Opening { cutoff_nanos: target_nanos })
                },
                state.with_timeline(
                    crate::cycle::with_handoff_budget(state.timeline, target_nanos, nanos),
                ),
            ),
            (LinkedPhase::HandoffWaiting { target_nanos }, CycleEvent::Waited(waited)) =>
                match waited {
                    Ok(_) => (self.at(LinkedPhase::Opening { cutoff_nanos: target_nanos }), state),
                    Err(error) => if error is Stopped {
                        (
                            self.at(LinkedPhase::Finished { result: Ok(()), opened: false }),
                            state.ended(),
                        )
                    } else {
                        self.fatal(state, error, false)
                    },
                },
            (LinkedPhase::Opening { cutoff_nanos }, CycleEvent::Called { panicked }) =>
                if panicked {
                    self.panicked(state, false)
                } else {
                    (self.at(LinkedPhase::Clearing { cutoff_nanos }), state)
                },
            (LinkedPhase::Clearing { cutoff_nanos }, CycleEvent::Called { .. }) => (
                self.at(LinkedPhase::Rendering { cutoff_nanos }),
                state,
            ),
            (LinkedPhase::Rendering { cutoff_nanos }, CycleEvent::Called { panicked }) =>
                if panicked {
                    self.panicked(state, true)
                } else if self.config.event_driven {
                    (self.at(LinkedPhase::LateMixing), state)
                } else if state.control.stop {
                    (self.at(LinkedPhase::Releasing), state)
                } else {
                    (self.at(LinkedPhase::Committing), state)
                },
            (LinkedPhase::LateMixing, CycleEvent::Called { panicked }) => if panicked {
                self.panicked(state, true)
            } else if state.control.stop {
                (self.at(LinkedPhase::Releasing), state)
            } else {
                (self.at(LinkedPhase::Committing), state)
            },
            (LinkedPhase::Committing, CycleEvent::Called { panicked }) => if panicked {
                self.panicked(state, true)
            } else if !self.config.event_driven {
                (self.at(LinkedPhase::Draining), state)
            } else if state.control.stop {
                (self.at(LinkedPhase::Releasing), state)
            } else {
                self.write(state)
            },
            (LinkedPhase::Draining, CycleEvent::Waited(waited)) => match waited {
                Ok(_) => if state.control.stop {
                    (self.at(LinkedPhase::Releasing), state)
                } else {
                    self.write(state)
                },
                Err(error) => if error.recoverable() {
                    (
                        self.at(LinkedPhase::Recovering { error, opened: true, skip: true }),
                        state,
                    )
                } else {
                    self.fatal(state, error, true)
                },
            },
            (LinkedPhase::Inspecting { samples }, CycleEvent::Status(status)) => (
                self.at(LinkedPhase::Writing { samples }),
                match status {
                    Some(seen) => state.with_timeline(
                        state.timeline.with_pcm_delay(
                            StreamDirection::Playback,
                            seen.delay,
                            self.config.period as u64,
                        ).with_delay_breakdown(seen.delay, seen.available, self.config.buffer),
                    ),
                    None => state,
                },
            ),
            (LinkedPhase::Writing { samples }, CycleEvent::Written { result, write_nanos }) => {
                let timed = state.with_timeline(state.timeline.with_write_time(write_nanos));
                match result {
                    Ok(frames) => if frames == self.config.period {
                        let position = self.playback_position.wrapping_add(
                            self.config.period as u64,
                        );
                        (
                            LinkedCycle {
                                playback_position: position,
                                phase: LinkedPhase::Timing,
                                ..self
                            },
                            timed.with_timeline(
                                crate::timeline::HardwareTimeline {
                                    playback_position: position,
                                    ..timed.timeline
                                },
                            ),
                        )
                    } else {
                        self.fatal(
                            timed,
                            EngineError::ShortCommit {
                                direction: StreamDirection::Playback,
                                actual: frames,
                                required: self.config.period,
                            },
                            true,
                        )
                    },
                    Err(error) => self.failed(timed, error, true, true),
                }
            },
            (LinkedPhase::Timing, CycleEvent::Clock { nanos }) => (
                self.at(LinkedPhase::Closing),
                state.with_timeline(state.timeline.with_playback_write(self.sequence, nanos)),
            ),
            (LinkedPhase::Closing, CycleEvent::Called { panicked }) => if panicked {
                self.panicked(state, false)
            } else {
                (self.at(LinkedPhase::Deferring), state)
            },
            (LinkedPhase::Deferring, CycleEvent::Called { panicked }) => if panicked {
                self.panicked(state, false)
            } else {
                let (cycle, after) = self.completed(state);
                cycle.top(after)
            },
            (
                LinkedPhase::Recovering { error, opened, skip },
                CycleEvent::Recovered(recovered),
            ) => match recovered {
                Ok(_) => {
                    let cycle = if skip {
                        self.skipped()
                    } else {
                        self
                    };
                    if opened {
                        (cycle.at(LinkedPhase::Releasing), state)
                    } else {
                        cycle.top(state)
                    }
                },
                Err(failure) => (
                    self.at(LinkedPhase::Finished { result: Err(failure), opened }),
                    state,
                ),
            },
            (LinkedPhase::Releasing, CycleEvent::Called { .. }) => self.top(state),
            (LinkedPhase::Finished { result, .. }, CycleEvent::Called { .. }) => (
                self.at(LinkedPhase::Finished { result, opened: false }),
                state,
            ),
            _ => (self, state),
        }
    }

    /// What the phase asks for.
    pub open spec fn wants(self) -> CycleAction {
        match self.phase {
            LinkedPhase::Waiting => CycleAction::WaitDuplexPeriod,
            LinkedPhase::Reading { .. } => CycleAction::ReadCapture {
                offset: 0,
                samples: self.config.capture_period_samples,
            },
            LinkedPhase::Observing { .. } => CycleAction::ObserveCapture,
            LinkedPhase::Preparing { .. } => CycleAction::PreparePlayback {
                sequence: self.sequence,
            },
            LinkedPhase::Publishing { .. } => CycleAction::ProcessCapture {
                hardware_sequence: self.sequence,
                playback_sequence: self.sequence,
            },
            LinkedPhase::Budgeting { .. } => CycleAction::ReadClock,
            LinkedPhase::ClientWaiting { cutoff_nanos, exhausted } => CycleAction::WaitForClient {
                sequence: self.sequence,
                cutoff_nanos,
                exhausted,
            },
            LinkedPhase::Targeting { .. } => CycleAction::ReadClock,
            LinkedPhase::Mixing { .. } => CycleAction::PreparePlaybackMix {
                sequence: self.sequence,
            },
            LinkedPhase::HandoffBudgeting { .. } => CycleAction::ReadClock,
            LinkedPhase::HandoffWaiting { target_nanos } => CycleAction::WaitHandoff {
                target_nanos,
            },
            LinkedPhase::Opening { .. } => CycleAction::BeginCommit,
            LinkedPhase::Clearing { .. } => CycleAction::ClearPlayback,
            LinkedPhase::Rendering { cutoff_nanos } => CycleAction::ProcessPlayback {
                sequence: self.sequence,
                cutoff_nanos: Some(cutoff_nanos),
            },
            LinkedPhase::LateMixing => CycleAction::PreparePlaybackMix {
                sequence: self.sequence,
            },
            LinkedPhase::Committing => CycleAction::CommitPlayback { sequence: self.sequence },
            LinkedPhase::Draining => CycleAction::WaitPlaybackTarget,
            LinkedPhase::Inspecting { .. } => CycleAction::ReadPlaybackStatus,
            LinkedPhase::Writing { samples } => CycleAction::WritePlayback { offset: 0, samples },
            LinkedPhase::Timing => CycleAction::ReadClock,
            LinkedPhase::Closing => CycleAction::EndCommit,
            LinkedPhase::Deferring => CycleAction::ProcessDeferredCapture {
                hardware_sequence: self.sequence,
            },
            LinkedPhase::Recovering { .. } => CycleAction::Recover,
            LinkedPhase::Releasing => CycleAction::ReleaseCommit,
            LinkedPhase::Finished { opened, .. } => if opened {
                CycleAction::ReleaseCommit
            } else {
                CycleAction::Finish
            },
        }
    }

    /// What to do next.
    pub fn action(&self) -> (action: CycleAction)
        ensures
            action == self.wants(),
    {
        match self.phase {
            LinkedPhase::Waiting => CycleAction::WaitDuplexPeriod,
            LinkedPhase::Reading { .. } => CycleAction::ReadCapture {
                offset: 0,
                samples: self.config.capture_period_samples,
            },
            LinkedPhase::Observing { .. } => CycleAction::ObserveCapture,
            LinkedPhase::Preparing { .. } => CycleAction::PreparePlayback {
                sequence: self.sequence,
            },
            LinkedPhase::Publishing { .. } => CycleAction::ProcessCapture {
                hardware_sequence: self.sequence,
                playback_sequence: self.sequence,
            },
            LinkedPhase::Budgeting { .. } => CycleAction::ReadClock,
            LinkedPhase::ClientWaiting { cutoff_nanos, exhausted } => CycleAction::WaitForClient {
                sequence: self.sequence,
                cutoff_nanos,
                exhausted,
            },
            LinkedPhase::Targeting { .. } => CycleAction::ReadClock,
            LinkedPhase::Mixing { .. } => CycleAction::PreparePlaybackMix {
                sequence: self.sequence,
            },
            LinkedPhase::HandoffBudgeting { .. } => CycleAction::ReadClock,
            LinkedPhase::HandoffWaiting { target_nanos } => CycleAction::WaitHandoff {
                target_nanos,
            },
            LinkedPhase::Opening { .. } => CycleAction::BeginCommit,
            LinkedPhase::Clearing { .. } => CycleAction::ClearPlayback,
            LinkedPhase::Rendering { cutoff_nanos } => CycleAction::ProcessPlayback {
                sequence: self.sequence,
                cutoff_nanos: Some(cutoff_nanos),
            },
            LinkedPhase::LateMixing => CycleAction::PreparePlaybackMix {
                sequence: self.sequence,
            },
            LinkedPhase::Committing => CycleAction::CommitPlayback { sequence: self.sequence },
            LinkedPhase::Draining => CycleAction::WaitPlaybackTarget,
            LinkedPhase::Inspecting { .. } => CycleAction::ReadPlaybackStatus,
            LinkedPhase::Writing { samples } => CycleAction::WritePlayback { offset: 0, samples },
            LinkedPhase::Timing => CycleAction::ReadClock,
            LinkedPhase::Closing => CycleAction::EndCommit,
            LinkedPhase::Deferring => CycleAction::ProcessDeferredCapture {
                hardware_sequence: self.sequence,
            },
            LinkedPhase::Recovering { .. } => CycleAction::Recover,
            LinkedPhase::Releasing => CycleAction::ReleaseCommit,
            LinkedPhase::Finished { opened, .. } => if opened {
                CycleAction::ReleaseCommit
            } else {
                CycleAction::Finish
            },
        }
    }

    /// A run that is about to begin its first cycle.
    pub fn new(config: LinkedProConfig, state: &mut RunState) -> (cycle: Self)
        ensures
            (cycle, *final(state)) == LinkedCycle::unstarted(config).top(*old(state)),
    {
        let mut cycle = LinkedCycle {
            config,
            playback_position: 0,
            capture_position: 0,
            sequence: 0,
            periods_processed: 0,
            phase: LinkedPhase::Waiting,
        };
        cycle.go_to_top(state);
        cycle
    }

    /// How the run ended, once it has.
    pub fn result(&self) -> (result: Option<Result<(), EngineError>>)
        ensures
            result == match self.phase {
                LinkedPhase::Finished { result: ended, opened: false } => Some(ended),
                _ => None,
            },
    {
        match &self.phase {
            LinkedPhase::Finished { result, opened } => if *opened {
                None
            } else {
                Some(same_result(result))
            },
            _ => None,
        }
    }

    fn go_to_top(&mut self, state: &mut RunState)
        ensures
            (*final(self), *final(state)) == old(self).top(*old(state)),
    {
        if state.control.stop || period_limit_reached(
            self.periods_processed,
            self.config.max_periods,
        ) {
            state.end();
            self.phase = LinkedPhase::Finished { result: Ok(()), opened: false };
        } else if self.config.event_driven {
            self.phase = LinkedPhase::Waiting;
        } else {
            self.phase = LinkedPhase::Reading { readiness: None };
        }
    }

    fn fail(&mut self, state: &mut RunState, error: EngineError, opened: bool, skip: bool)
        ensures
            (*final(self), *final(state)) == old(self).failed(*old(state), error, opened, skip),
    {
        if error.is_recoverable() {
            self.phase = LinkedPhase::Recovering { error, opened, skip };
            return ;
        }
        state.end();
        if error.is_stopped() {
            self.phase = LinkedPhase::Finished { result: Ok(()), opened };
        } else {
            self.phase = LinkedPhase::Finished { result: Err(error), opened };
        }
    }

    fn end_with(&mut self, state: &mut RunState, error: EngineError, opened: bool)
        ensures
            (*final(self), *final(state)) == old(self).fatal(*old(state), error, opened),
    {
        state.end();
        self.phase = LinkedPhase::Finished { result: Err(error), opened };
    }

    fn begin_write(&mut self, state: &mut RunState)
        ensures
            (*final(self), *final(state)) == old(self).write(*old(state)),
    {
        match frame_samples(self.config.period, self.config.playback_channels) {
            Some(samples) => {
                self.phase = if self.config.event_driven {
                    LinkedPhase::Writing { samples }
                } else {
                    LinkedPhase::Inspecting { samples }
                };
            },
            None => {
                self.phase = LinkedPhase::Finished {
                    result: Err(
                        EngineError::InvalidConfig(
                            ConfigError::Reason("playback chunk size overflow"),
                        ),
                    ),
                    opened: true,
                };
            },
        }
    }

    fn observe_capture(&mut self, state: &mut RunState, seen: CaptureObservation)
        ensures
            (*final(self), *final(state)) == old(self).observed(*old(state), seen),
    {
        let frames: u64 = self.config.period as u64;
        if !self.config.event_driven {
            if let Some(delay) = seen.capture_delay {
                state.timeline.update_pcm_delay(StreamDirection::Capture, delay, frames);
            }
            if let Some(phase) = seen.pointer_phase {
                state.timeline.record_duplex_pointer_phase(phase);
            }
        }
        self.capture_position = self.capture_position.wrapping_add(frames);
        state.timeline.update_capture_position(self.capture_position);
        state.timeline.record_pro_capture_read(self.sequence, seen.nanos);
    }

    fn capture_published(
        &mut self,
        state: &mut RunState,
        readiness: Option<DirectDuplexReadiness>,
        read_nanos: u64,
        playback_delay: Option<i64>,
    )
        requires
            old(self).config.wf(),
        ensures
            (*final(self), *final(state)) == old(self).published(
                *old(state),
                readiness,
                read_nanos,
                playback_delay,
            ),
    {
        state.capture_delivered();
        if state.control.stop {
            self.go_to_top(state);
            return ;
        }
        if !self.config.event_driven {
            self.phase = LinkedPhase::Targeting { read_nanos, playback_delay };
            return ;
        }
        match readiness {
            Some(ready) => {
                let cutoff_nanos: u64 = direct_pro_cutoff_nanos(
                    ready,
                    self.config.period,
                    self.config.rate,
                    self.config.handoff_nanos,
                );
                self.phase = LinkedPhase::Budgeting { cutoff_nanos };
            },
            None => {
                self.phase = LinkedPhase::Finished {
                    result: Err(
                        EngineError::InvalidConfig(
                            ConfigError::Reason("direct duplex readiness is unavailable"),
                        ),
                    ),
                    opened: false,
                };
            },
        }
    }

    fn period_completed(&mut self, state: &mut RunState)
        ensures
            (*final(self), *final(state)) == old(self).completed(*old(state)),
    {
        self.sequence = next_sequence(self.sequence);
        self.periods_processed = self.periods_processed.wrapping_add(1);
        state.period_done(self.config.period as u64);
    }

    fn playback_written(
        &mut self,
        state: &mut RunState,
        result: Result<i64, EngineError>,
        write_nanos: u64,
    )
        requires
            old(self).phase is Writing,
        ensures
            (*final(self), *final(state)) == old(self).next(
                *old(state),
                CycleEvent::Written { result, write_nanos },
            ),
    {
        state.timeline.record_playback_write(write_nanos);
        match result {
            Ok(frames) => if frames == self.config.period {
                self.playback_position =
                self.playback_position.wrapping_add(self.config.period as u64);
                state.timeline.update_playback_position(self.playback_position);
                self.phase = LinkedPhase::Timing;
            } else {
                self.end_with(
                    state,
                    EngineError::ShortCommit {
                        direction: StreamDirection::Playback,
                        actual: frames,
                        required: self.config.period,
                    },
                    true,
                );
            },
            Err(error) => self.fail(state, error, true, true),
        }
    }

    /// Ends the commit of a run that has ended.
    fn let_go(&mut self)
        requires
            old(self).phase is Finished,
        ensures
            *final(self) == old(self).at(
                LinkedPhase::Finished { result: old(self).phase->Finished_result, opened: false },
            ),
    {
        if let LinkedPhase::Finished { result, .. } = &self.phase {
            let ended = same_result(result);
            self.phase = LinkedPhase::Finished { result: ended, opened: false };
        }
    }

    /// Handles the outcome of client code.
    fn called(&mut self, state: &mut RunState, panicked: bool)
        requires
            old(self).config.wf(),
        ensures
            (*final(self), *final(state)) == old(self).next(
                *old(state),
                CycleEvent::Called { panicked },
            ),
    {
        match self.phase {
            LinkedPhase::Preparing { readiness, read_nanos, playback_delay } => if panicked {
                self.end_with(state, EngineError::WorkerPanic, false);
            } else {
                self.phase = LinkedPhase::Publishing { readiness, read_nanos, playback_delay };
            },
            LinkedPhase::Publishing { readiness, read_nanos, playback_delay } => if panicked {
                self.end_with(state, EngineError::WorkerPanic, false);
            } else {
                self.capture_published(state, readiness, read_nanos, playback_delay);
            },
            LinkedPhase::ClientWaiting { cutoff_nanos, .. } => if panicked {
                self.end_with(state, EngineError::WorkerPanic, false);
            } else {
                self.phase = LinkedPhase::Opening { cutoff_nanos };
            },
            LinkedPhase::Mixing { target_nanos } => if panicked {
                self.end_with(state, EngineError::WorkerPanic, false);
            } else {
                self.phase = LinkedPhase::HandoffBudgeting { target_nanos };
            },
            LinkedPhase::Opening { cutoff_nanos } => if panicked {
                self.end_with(state, EngineError::WorkerPanic, false);
            } else {
                self.phase = LinkedPhase::Clearing { cutoff_nanos };
            },
            LinkedPhase::Clearing { cutoff_nanos } => {
                self.phase = LinkedPhase::Rendering { cutoff_nanos };
            },
            LinkedPhase::Rendering { .. } => if panicked {
                self.end_with(state, EngineError::WorkerPanic, true);
            } else if self.config.event_driven {
                self.phase = LinkedPhase::LateMixing;
            } else if state.control.stop {
                self.phase = LinkedPhase::Releasing;
            } else {
                self.phase = LinkedPhase::Committing;
            },
            LinkedPhase::LateMixing => if panicked {
                self.end_with(state, EngineError::WorkerPanic, true);
            } else if state.control.stop {
                self.phase = LinkedPhase::Releasing;
            } else {
                self.phase = LinkedPhase::Committing;
            },
            LinkedPhase::Committing => if panicked {
                self.end_with(state, EngineError::WorkerPanic, true);
            } else if !self.config.event_driven {
                self.phase = LinkedPhase::Draining;
            } else if state.control.stop {
                self.phase = LinkedPhase::Releasing;
            } else {
                self.begin_write(state);
            },
            LinkedPhase::Closing => if panicked {
                self.end_with(state, EngineError::WorkerPanic, false);
            } else {
                self.phase = LinkedPhase::Deferring;
            },
            LinkedPhase::Deferring => if panicked {
                self.end_with(state, EngineError::WorkerPanic, false);
            } else {
                self.period_completed(state);
                self.go_to_top(state);
            },
            LinkedPhase::Releasing => self.go_to_top(state),
            LinkedPhase::Finished { .. } => self.let_go(),
            _ => {},
        }
    }

    /// Handles a clock reading.
    fn clock_read(&mut self, state: &mut RunState, nanos: u64)
        requires
            old(self).config.wf(),
        ensures
            (*final(self), *final(state)) == old(self).next(
                *old(state),
                CycleEvent::Clock { nanos },
            ),
    {
        match self.phase {
            LinkedPhase::Budgeting { cutoff_nanos } => {
                state.timeline.record_pro_wait_budget(cutoff_nanos.saturating_sub(nanos));
                self.phase = LinkedPhase::ClientWaiting {
                    cutoff_nanos,
                    exhausted: cutoff_nanos <= nanos,
                };
            },
            LinkedPhase::Targeting { read_nanos, playback_delay } => {
                let target_nanos: u64 = match playback_delay {
                    Some(delay) => bounded_pro_handoff_target(
                        read_nanos,
                        nanos,
                        self.config.handoff_nanos,
                        delay,
                        self.config.period,
                        self.config.rate,
                    ),
                    None => nanos.saturating_add(self.config.handoff_nanos),
                };
                self.phase = LinkedPhase::Mixing { target_nanos };
            },
            LinkedPhase::HandoffBudgeting { target_nanos } => {
                self.phase = if grant_handoff_budget(&mut state.timeline, target_nanos, nanos) {
                    LinkedPhase::HandoffWaiting { target_nanos }
                } else {
                    LinkedPhase::Opening { cutoff_nanos: target_nanos }
                };
            },
            LinkedPhase::Timing => {
                state.timeline.record_pro_playback_write(self.sequence, nanos);
                self.phase = LinkedPhase::Closing;
            },
            _ => {},
        }
    }

    /// Handles the outcome of the action that was asked for.
    pub fn step(&mut self, state: &mut RunState, event: CycleEvent)
        requires
            old(self).config.wf(),
        ensures
            (*final(self), *final(state)) == old(self).next(*old(state), event),
    {
        if let CycleEvent::Called { panicked } = event {
            self.called(state, panicked);
            return ;
        }
        if let CycleEvent::Clock { nanos } = event {
            self.clock_read(state, nanos);
            return ;
        }
        match self.phase {
            LinkedPhase::Waiting => if let CycleEvent::DuplexReady(ready) = event {
                match ready {
                    Ok(readiness) => {
                        self.phase = LinkedPhase::Reading { readiness: Some(readiness) };
                    },
                    Err(error) => self.fail(state, error, false, false),
                }
            },
            LinkedPhase::Reading { readiness } => if let CycleEvent::Captured(read) = event {
                match read {
                    Ok(frames) => if frames != self.config.period {
                        self.end_with(
                            state,
                            EngineError::ShortCommit {
                                direction: StreamDirection::Capture,
                                actual: frames,
                                required: self.config.period,
                            },
                            false,
                        );
                    } else if state.control.stop {
                        self.go_to_top(state);
                    } else {
                        self.phase = LinkedPhase::Observing { readiness };
                    },
                    Err(error) => self.fail(state, error, false, false),
                }
            },
            LinkedPhase::Observing { readiness } =>
                if let CycleEvent::CaptureObserved(seen) = event {
                    self.observe_capture(state, seen);
                    self.phase = LinkedPhase::Preparing {
                        readiness,
                        read_nanos: seen.nanos,
                        playback_delay: seen.playback_delay,
                    };
                },
            LinkedPhase::HandoffWaiting { target_nanos } =>
                if let CycleEvent::Waited(waited) = event {
                    match waited {
                        Ok(_) => {
                            self.phase = LinkedPhase::Opening { cutoff_nanos: target_nanos };
                        },
                        Err(error) => if error.is_stopped() {
                            state.end();
                            self.phase = LinkedPhase::Finished { result: Ok(()), opened: false };
                        } else {
                            self.end_with(state, error, false);
                        },
                    }
                },
            LinkedPhase::Draining => if let CycleEvent::Waited(waited) = event {
                match waited {
                    Ok(_) => if state.control.stop {
                        self.phase = LinkedPhase::Releasing;
                    } else {
                        self.begin_write(state);
                    },
                    Err(error) => if error.is_recoverable() {
                        self.phase = LinkedPhase::Recovering { error, opened: true, skip: true };
                    } else {
                        self.end_with(state, error, true);
                    },
                }
            },
            LinkedPhase::Inspecting { samples } => if let CycleEvent::Status(status) = event {
                if let Some(seen) = status {
                    state.timeline.update_pcm_delay(
                        StreamDirection::Playback,
                        seen.delay,
                        self.config.period as u64,
                    );
                    state.timeline.update_playback_delay_breakdown(
                        seen.delay,
                        seen.available,
                        self.config.buffer,
                    );
                }
                self.phase = LinkedPhase::Writing { samples };
            },
            LinkedPhase::Writing { .. } =>
                if let CycleEvent::Written { result, write_nanos } = event {
                    self.playback_written(state, result, write_nanos);
                },
            LinkedPhase::Recovering { opened, skip, .. } =>
                if let CycleEvent::Recovered(recovered) = event {
                    match recovered {
                        Ok(_) => {
                            if skip {
                                self.sequence = next_sequence(self.sequence);
                            }
                            if opened {
                                self.phase = LinkedPhase::Releasing;
                            } else {
                                self.go_to_top(state);
                            }
                        },
                        Err(failure) => {
                            self.phase = LinkedPhase::Finished { result: Err(failure), opened };
                        },
                    }
                },
            _ => {},
        }
    }
}

/// What a device said about the frames it has, and whether it reports an XRUN.
#[derive(Clone, Copy, Debug)]
pub struct StreamAvailability {
    pub available: Result<i64, DeviceFailure>,
    pub in_xrun: bool,
}

impl StreamAvailability {
    pub open spec fn xrun(self) -> bool {
        self.in_xrun || (self.available is Err && self.available->Err_0.kind
            == FailureKind::BrokenPipe)
    }

    fn is_xrun(&self) -> (xrun: bool)
        ensures
            xrun == self.xrun(),
    {
        if self.in_xrun {
            return true;
        }
        match self.available {
            Err(failure) => match failure.kind {
                FailureKind::BrokenPipe => true,
                _ => false,
            },
            Ok(_) => false,
        }
    }
}

/// What polling a duplex pair came to.
#[derive(Clone, Copy, Debug, PartialEq, Eq, Structural)]
pub enum DuplexPoll {
    Ready(DirectDuplexReadiness),
    /// Poll again for the directions that are not ready.
    Pending { playback_ready: bool, capture_ready: bool },
}

/// The failure that two directions in XRUN are reported with: that of playback, else that of
/// capture, else a broken pipe.
pub open spec fn linked_xrun_source(
    playback: StreamAvailability,
    capture: StreamAvailability,
    broken_pipe: i32,
) -> DeviceFailure {
    match playback.available {
        Err(failure) => failure,
        Ok(_) => match capture.available {
            Err(failure) => failure,
            Ok(_) => DeviceFailure { errno: broken_pipe, kind: FailureKind::BrokenPipe },
        },
    }
}

/// Decides on one look at a linked duplex pair at `observed_nanos`. The pair is ready when both
/// directions have a period; an XRUN of either direction is reported for both together.
/// `broken_pipe` is the error number of a broken pipe.
pub fn duplex_period_step(
    playback: StreamAvailability,
    capture: StreamAvailability,
    period: i64,
    buffer: i64,
    observed_nanos: u64,
    broken_pipe: i32,
) -> (result: Result<DuplexPoll, EngineError>)
    ensures
        if playback.xrun() || capture.xrun() {
            result == Err::<DuplexPoll, EngineError>(
                EngineError::LinkedXrun {
                    operation: "update linked duplex availability",
                    playback: playback.xrun(),
                    capture: capture.xrun(),
                    source: linked_xrun_source(playback, capture, broken_pipe),
                },
            )
        } else if playback.available is Err {
            result == Err::<DuplexPoll, EngineError>(
                crate::error::device_error(
                    playback.available->Err_0,
                    "update linked playback availability",
                    StreamDirection::Playback,
                ),
            )
        } else if capture.available is Err {
            result == Err::<DuplexPoll, EngineError>(
                crate::error::device_error(
                    capture.available->Err_0,
                    "update linked capture availability",
                    StreamDirection::Capture,
                ),
            )
        } else {
            let playback_ready = playback.available->Ok_0 >= period;
            let capture_ready = capture.available->Ok_0 >= period;
            result == Ok::<DuplexPoll, EngineError>(
                if playback_ready && capture_ready {
                    DuplexPoll::Ready(
                        DirectDuplexReadiness {
                            playback_queued_frames: crate::arith::greatest(
                                crate::arith::clamp_i64(buffer - playback.available->Ok_0) as int,
                                0,
                            ) as i64,
                            observed_nanos,
                        },
                    )
                } else {
                    DuplexPoll::Pending { playback_ready, capture_ready }
                },
            )
        },
        result matches Err(EngineError::LinkedXrun { playback: played, capture: captured, .. })
            ==> {
            &&& played == (playback.in_xrun || (playback.available matches Err(failure)
                && failure.kind == FailureKind::BrokenPipe))
            &&& captured == (capture.in_xrun || (capture.available matches Err(failure)
                && failure.kind == FailureKind::BrokenPipe))
            &&& played || captured
        },
        result matches Ok(_) ==> !playback.in_xrun && !capture.in_xrun && playback.available is Ok
            && capture.available is Ok,
        result matches Ok(DuplexPoll::Ready(readiness)) ==> {
            &&& playback.available->Ok_0 >= period
            &&& capture.available->Ok_0 >= period
            &&& readiness.observed_nanos == observed_nanos
            &&& 0 <= playback.available->Ok_0 <= buffer ==> readiness.playback_queued_frames
                + playback.available->Ok_0 == buffer
            &&& 0 <= buffer <= playback.available->Ok_0 ==> readiness.playback_queued_frames == 0
        },
        result matches Ok(DuplexPoll::Pending { playback_ready, capture_ready }) ==> {
            &&& playback_ready == (playback.available->Ok_0 >= period)
            &&& capture_ready == (capture.available->Ok_0 >= period)
            &&& !(playback_ready && capture_ready)
        },
{
    let playback_xrun: bool = playback.is_xrun();
    let capture_xrun: bool = capture.is_xrun();
    if playback_xrun || capture_xrun {
        let source = match playback.available {
            Err(failure) => failure,
            Ok(_) => match capture.available {
                Err(failure) => failure,
                Ok(_) => DeviceFailure { errno: broken_pipe, kind: FailureKind::BrokenPipe },
            },
        };
        return Err(
            EngineError::LinkedXrun {
                operation: "update linked duplex availability",
                playback: playback_xrun,
                capture: capture_xrun,
                source,
            },
        );
    }
    let playback_available: i64 = match playback.available {
        Ok(frames) => frames,
        Err(failure) => {
            return Err(
                alsa_failure(
                    failure,
                    "update linked playback availability",
                    StreamDirection::Playback,
                ),
            );
        },
    };
    let capture_available: i64 = match capture.available {
        Ok(frames) => frames,
        Err(failure) => {
            return Err(
                alsa_failure(
                    failure,
                    "update linked capture availability",
                    StreamDirection::Capture,
                ),
            );
        },
    };
    let playback_ready: bool = playback_available >= period;
    let capture_ready: bool = capture_available >= period;
    if playback_ready && capture_ready {
        let queued: i64 = sub_i64(buffer, playback_available);
        Ok(
            DuplexPoll::Ready(
                DirectDuplexReadiness {
                    playback_queued_frames: if queued > 0 {
                        queued
                    } else {
                        0
                    },
                    observed_nanos,
                },
            ),
        )
    } else {
        Ok(DuplexPoll::Pending { playback_ready, capture_ready })
    }
}

/// Playback is being committed: the source's output must not be taken away.
pub open spec fn commits(phase: LinkedPhase) -> bool {
    match phase {
        LinkedPhase::Clearing { .. } => true,
        LinkedPhase::Rendering { .. } => true,
        LinkedPhase::LateMixing => true,
        LinkedPhase::Committing => true,
        LinkedPhase::Draining => true,
        LinkedPhase::Inspecting { .. } => true,
        LinkedPhase::Writing { .. } => true,
        LinkedPhase::Timing => true,
        LinkedPhase::Closing => true,
        LinkedPhase::Recovering { opened, .. } => opened,
        LinkedPhase::Releasing => true,
        LinkedPhase::Finished { opened, .. } => opened,
        _ => false,
    }
}

/// Every commit that is begun is ended exactly once, whatever happens in between: a step begins
/// one only by `BeginCommit`, ends one only by `EndCommit` or `ReleaseCommit`, and playback is
/// written only inside one.
pub proof fn commits_are_bracketed(cycle: LinkedCycle, state: RunState, event: CycleEvent)
    ensures
        !commits(cycle.phase) && commits(cycle.next(state, event).0.phase) ==> cycle.wants()
            == CycleAction::BeginCommit,
        commits(cycle.phase) && !commits(cycle.next(state, event).0.phase) ==> cycle.wants()
            == CycleAction::EndCommit || cycle.wants() == CycleAction::ReleaseCommit,
        cycle.wants() is WritePlayback ==> commits(cycle.phase),
        cycle.wants() == CycleAction::Finish ==> !commits(cycle.phase),
{
}

/// A period has one sequence number: a step leaves the number alone or moves to the following one,
/// and moves only when the period went through or was given up after a restart.
pub proof fn sequence_moves_one_period_at_a_time(
    cycle: LinkedCycle,
    state: RunState,
    event: CycleEvent,
)
    ensures
        ({
            let later = cycle.next(state, event).0;
            &&& later.sequence == cycle.sequence || later.sequence
                == cycle.sequence.wrapping_add(1)
            &&& later.sequence != cycle.sequence ==> cycle.phase is Deferring || (cycle.phase
                matches LinkedPhase::Recovering { skip, .. } && skip)
            &&& later.periods_processed != cycle.periods_processed ==> cycle.phase is Deferring
        }),
{
}

/// Driving a cycle is no hardware event: no step changes the generation or counts an XRUN.
pub proof fn steps_keep_the_hardware_history(
    cycle: LinkedCycle,
    state: RunState,
    event: CycleEvent,
)
    ensures
        crate::timeline::same_hardware_history(
            state.timeline,
            cycle.next(state, event).1.timeline,
        ),
{
}

/// A failure never goes unnoticed by the other workers: a step that ends the run raises the flag,
/// unless the streams could not be restarted or the configuration cannot be used.
pub proof fn ending_raises_the_flag(cycle: LinkedCycle, state: RunState, event: CycleEvent)
    requires
        !(cycle.phase is Finished),
        cycle.next(state, event).0.phase is Finished,
        !(cycle.phase is Recovering),
    ensures
        cycle.next(state, event).1.control.done || cycle.next(
            state,
            event,
        ).0.phase->Finished_result matches Err(EngineError::InvalidConfig(_)),
{
}

/// Only a recoverable failure restarts the streams, and the restart is asked for with exactly that
/// failure.
pub proof fn restarts_follow_recoverable_failures(
    cycle: LinkedCycle,
    state: RunState,
    event: CycleEvent,
)
    requires
        !(cycle.phase is Recovering),
    ensures
        cycle.next(state, event).0.phase matches LinkedPhase::Recovering { error, .. }
            ==> error.recoverable(),
{
}

/// Without lead, a captured period and its answer have one number: what is handed to the client,
/// what is asked of it and what is written belong to the same cycle.
pub proof fn capture_is_answered_in_its_own_cycle(cycle: LinkedCycle)
    ensures
        cycle.wants() matches CycleAction::ProcessCapture {
            hardware_sequence,
            playback_sequence,
        } ==> hardware_sequence == cycle.sequence && playback_sequence == cycle.sequence,
        cycle.wants() matches CycleAction::WaitForClient { sequence, .. } ==> sequence
            == cycle.sequence,
        cycle.wants() matches CycleAction::ProcessPlayback { sequence, .. } ==> sequence
            == cycle.sequence,
        cycle.wants() matches CycleAction::CommitPlayback { sequence } ==> sequence
            == cycle.sequence,
{
}

/// Steps that a period of a linked pair takes at most.
pub const LINKED_STEPS: u64 = 20;

/// Steps that a phase leaves of its period at most.
pub open spec fn steps_left(phase: LinkedPhase) -> int {
    match phase {
        LinkedPhase::Waiting => 20,
        LinkedPhase::Reading { .. } => 19,
        LinkedPhase::Observing { .. } => 18,
        LinkedPhase::Preparing { .. } => 17,
        LinkedPhase::Publishing { .. } => 16,
        LinkedPhase::Targeting { .. } => 15,
        LinkedPhase::Mixing { .. } => 14,
        LinkedPhase::HandoffBudgeting { .. } => 13,
        LinkedPhase::HandoffWaiting { .. } => 12,
        LinkedPhase::Budgeting { .. } => 13,
        LinkedPhase::ClientWaiting { .. } => 12,
        LinkedPhase::Opening { .. } => 11,
        LinkedPhase::Clearing { .. } => 10,
        LinkedPhase::Rendering { .. } => 9,
        LinkedPhase::LateMixing => 8,
        LinkedPhase::Committing => 7,
        LinkedPhase::Draining => 6,
        LinkedPhase::Inspecting { .. } => 5,
        LinkedPhase::Writing { .. } => 4,
        LinkedPhase::Timing => 3,
        LinkedPhase::Closing => 2,
        LinkedPhase::Deferring => 1,
        _ => 0,
    }
}

/// A run of the cycle: `cycles` and `left` are the cycle and the state after each step, `found` the
/// state that each step found. The first of each is that of [`LinkedCycle::new`].
pub open spec fn linked_run(
    config: LinkedProConfig,
    cycles: Seq<LinkedCycle>,
    found: Seq<RunState>,
    left: Seq<RunState>,
    events: Seq<CycleEvent>,
) -> bool {
    &&& cycles.len() == found.len() == left.len() == events.len() + 1
    &&& (cycles[0], left[0]) == LinkedCycle::unstarted(config).top(found[0])
    &&& forall|i: int|
        #![trigger events[i]]
        0 <= i < events.len() ==> (cycles[i + 1], left[i + 1]) == cycles[i].next(
            found[i + 1],
            events[i],
        )
}

/// Nothing went wrong in a run, and nobody asked it to stop.
pub open spec fn linked_run_went_well(
    config: LinkedProConfig,
    cycles: Seq<LinkedCycle>,
    found: Seq<RunState>,
    left: Seq<RunState>,
    events: Seq<CycleEvent>,
) -> bool {
    &&& !found[0].control.stop
    &&& forall|i: int|
        #![trigger events[i]]
        0 <= i < events.len() ==> undisturbed(left[i], found[i + 1]) && went_well(
            cycles[i].wants(),
            events[i],
            config.period,
        )
}

spec fn on_course(
    config: LinkedProConfig,
    start: RunState,
    limit: u64,
    cycle: LinkedCycle,
    state: RunState,
) -> bool {
    &&& cycle.config == config
    &&& cycle.periods_processed <= limit
    &&& has_processed(start, state, cycle.periods_processed as int, config.period)
    &&& !state.control.stop
    &&& if cycle.periods_processed == limit {
        cycle.phase == (LinkedPhase::Finished { result: Ok(()), opened: false })
            && state.control.done
    } else {
        &&& steps_left(cycle.phase) > 0
        &&& match cycle.phase {
            LinkedPhase::Reading { readiness } => config.event_driven ==> readiness is Some,
            LinkedPhase::Observing { readiness } => config.event_driven ==> readiness is Some,
            LinkedPhase::Preparing { readiness, .. } => config.event_driven ==> readiness is Some,
            LinkedPhase::Publishing { readiness, .. } => config.event_driven ==> readiness is Some,
            _ => true,
        }
    }
}

/// Steps that are left of a run at most.
spec fn run_left(limit: u64, cycle: LinkedCycle) -> int {
    if cycle.periods_processed >= limit {
        0
    } else {
        (limit - cycle.periods_processed - 1) * 20 + steps_left(cycle.phase)
    }
}

proof fn lemma_step_on_course(
    config: LinkedProConfig,
    start: RunState,
    limit: u64,
    cycle: LinkedCycle,
    left: RunState,
    found: RunState,
    event: CycleEvent,
)
    requires
        config.wf(),
        config.max_periods == Some(limit),
        crate::cycle::samples_in(config.period, config.playback_channels) is Some,
        on_course(config, start, limit, cycle, left),
        undisturbed(left, found),
        went_well(cycle.wants(), event, config.period),
    ensures
        ({
            let (later, state) = cycle.next(found, event);
            &&& on_course(config, start, limit, later, state)
            &&& run_left(limit, cycle) > 0 ==> run_left(limit, later) < run_left(limit, cycle)
            &&& run_left(limit, cycle) == 0 ==> run_left(limit, later) == 0
        }),
{
    let (later, state) = cycle.next(found, event);
    if cycle.phase is Deferring {
        lemma_one_more_period(
            start,
            found,
            cycle.completed(found).1,
            cycle.periods_processed as int,
            config.period,
        );
    }
}

/// A limited run in which nothing goes wrong processes its periods and ends: after every step as
/// many periods and frames are counted as the cycle has processed, the run is over exactly when
/// these are all, and then it has succeeded, raised the flag and holds no commit. That takes at
/// most twenty steps for each period.
pub proof fn a_limited_run_processes_its_periods(
    config: LinkedProConfig,
    limit: u64,
    cycles: Seq<LinkedCycle>,
    found: Seq<RunState>,
    left: Seq<RunState>,
    events: Seq<CycleEvent>,
    k: int,
)
    requires
        config.wf(),
        config.max_periods == Some(limit),
        crate::cycle::samples_in(config.period, config.playback_channels) is Some,
        linked_run(config, cycles, found, left, events),
        linked_run_went_well(config, cycles, found, left, events),
        0 <= k <= events.len(),
    ensures
        cycles[k].periods_processed <= limit,
        has_processed(found[0], left[k], cycles[k].periods_processed as int, config.period),
        cycles[k].phase is Finished <==> cycles[k].periods_processed == limit,
        cycles[k].phase is Finished ==> cycles[k].phase == (LinkedPhase::Finished {
            result: Ok(()),
            opened: false,
        }) && left[k].control.done,
        k >= limit * LINKED_STEPS ==> cycles[k].phase is Finished,
{
    lemma_run_on_course(config, limit, cycles, found, left, events, k);
}

proof fn lemma_run_on_course(
    config: LinkedProConfig,
    limit: u64,
    cycles: Seq<LinkedCycle>,
    found: Seq<RunState>,
    left: Seq<RunState>,
    events: Seq<CycleEvent>,
    k: int,
)
    requires
        config.wf(),
        config.max_periods == Some(limit),
        crate::cycle::samples_in(config.period, config.playback_channels) is Some,
        linked_run(config, cycles, found, left, events),
        linked_run_went_well(config, cycles, found, left, events),
        0 <= k <= events.len(),
    ensures
        on_course(config, found[0], limit, cycles[k], left[k]),
        run_left(limit, cycles[k]) == 0 || run_left(limit, cycles[k]) + k <= limit * 20,
    decreases k,
{
    if k == 0 {
        assert(counted(found[0].timeline.periods_processed, 0)
            == found[0].timeline.periods_processed);
        assert(counted(found[0].timeline.sample_position, 0 * (config.period as int))
            == found[0].timeline.sample_position);
    } else {
        lemma_run_on_course(config, limit, cycles, found, left, events, k - 1);
        assert((cycles[k], left[k]) == cycles[k - 1].next(found[k], events[k - 1]));
        lemma_step_on_course(
            config,
            found[0],
            limit,
            cycles[k - 1],
            left[k - 1],
            found[k],
            events[k - 1],
        );
    }
}

/// A period of an event-driven pair, from the wait for the hardware to the next one: what is asked
/// for, in order. The captured period is read whole and handed to the client under the number of
/// the cycle; the client is waited for, and its output is taken, up to one and the same cutoff. The
/// block is silenced before it is filled, filled before it is mixed and committed, and written
/// whole inside the commit.
pub proof fn a_direct_period_takes_its_course(
    cycle: LinkedCycle,
    state: RunState,
    event: CycleEvent,
)
    requires
        cycle.config.event_driven,
        !state.control.stop,
        went_well(cycle.wants(), event, cycle.config.period),
    ensures
        ({
            let after = cycle.next(state, event).0;
            let number = cycle.sequence;
            &&& cycle.phase is Waiting ==> {
                &&& after.wants() == CycleAction::ReadCapture {
                    offset: 0,
                    samples: cycle.config.capture_period_samples,
                }
                &&& event matches CycleEvent::DuplexReady(Ok(readiness))
                &&& after.phase == LinkedPhase::Reading { readiness: Some(readiness) }
            }
            &&& cycle.phase matches LinkedPhase::Reading { readiness } ==> after.wants()
                == CycleAction::ObserveCapture && after.phase == (LinkedPhase::Observing {
                readiness,
            })
            &&& cycle.phase matches LinkedPhase::Observing { readiness } ==> {
                &&& after.wants() == CycleAction::PreparePlayback { sequence: number }
                &&& event matches CycleEvent::CaptureObserved(seen)
                &&& after.phase == LinkedPhase::Preparing {
                    readiness,
                    read_nanos: seen.nanos,
                    playback_delay: seen.playback_delay,
                }
            }
            &&& cycle.phase matches LinkedPhase::Preparing { readiness, read_nanos, playback_delay }
                ==> after.wants() == (CycleAction::ProcessCapture {
                hardware_sequence: number,
                playback_sequence: number,
            }) && after.phase == (LinkedPhase::Publishing { readiness, read_nanos, playback_delay })
            &&& cycle.phase matches LinkedPhase::Publishing { readiness: Some(_), .. }
                ==> after.wants() == CycleAction::ReadClock && after.phase is Budgeting
            &&& cycle.phase matches LinkedPhase::Budgeting { cutoff_nanos } ==> event
                matches CycleEvent::Clock { nanos } && after.wants() == (
            CycleAction::WaitForClient {
                sequence: number,
                cutoff_nanos,
                exhausted: nanos >= cutoff_nanos,
            })
            &&& cycle.phase matches LinkedPhase::ClientWaiting { cutoff_nanos, .. }
                ==> after.wants() == CycleAction::BeginCommit && after.phase == (
            LinkedPhase::Opening { cutoff_nanos })
            &&& cycle.phase matches LinkedPhase::Opening { cutoff_nanos } ==> after.wants()
                == CycleAction::ClearPlayback && after.phase == (LinkedPhase::Clearing {
                cutoff_nanos,
            })
            &&& cycle.phase matches LinkedPhase::Clearing { cutoff_nanos } ==> after.wants() == (
            CycleAction::ProcessPlayback { sequence: number, cutoff_nanos: Some(cutoff_nanos) })
            &&& cycle.phase is Rendering ==> after.wants() == (CycleAction::PreparePlaybackMix {
                sequence: number,
            }) && after.phase is LateMixing
            &&& cycle.phase is LateMixing ==> after.wants() == (CycleAction::CommitPlayback {
                sequence: number,
            })
            &&& cycle.phase is Committing && 0 <= cycle.config.period <= usize::MAX
                && cycle.config.period * cycle.config.playback_channels <= usize::MAX
                ==> {
                &&& after.wants() matches CycleAction::WritePlayback { offset, samples }
                &&& offset == 0
                &&& samples == cycle.config.period * cycle.config.playback_channels
            }
            &&& cycle.phase is Writing ==> after.wants() == CycleAction::ReadClock && after.phase
                is Timing
            &&& cycle.phase is Timing ==> after.wants() == CycleAction::EndCommit
            &&& cycle.phase is Closing ==> after.wants() == (CycleAction::ProcessDeferredCapture {
                hardware_sequence: number,
            })
            &&& cycle.phase is Deferring && cycle.config.max_periods is None ==> after.wants()
                == CycleAction::WaitDuplexPeriod
        }),
{
}

/// The cutoff that an event-driven cycle decides on leaves the write reserve, a quarter of a period
/// rounded up, queued: whatever the rate is, no more than the frames above it are played until then.
/// It never lies past the handoff, and lies at its end where those frames last as long.
pub proof fn the_client_is_given_the_spare_queue(
    cycle: LinkedCycle,
    state: RunState,
    readiness: DirectDuplexReadiness,
    read_nanos: u64,
    playback_delay: Option<i64>,
    reserve: int,
)
    requires
        cycle.config.wf(),
        cycle.config.event_driven,
        cycle.config.period <= i64::MAX - 3,
        cycle.config.period <= 4 * reserve < cycle.config.period + 4,
        !state.control.stop,
        cycle.phase == (LinkedPhase::Publishing {
            readiness: Some(readiness),
            read_nanos,
            playback_delay,
        }),
    ensures
        ({
            let after = cycle.next(state, CycleEvent::Called { panicked: false }).0;
            let spare = readiness.playback_queued_frames - reserve;
            &&& after.phase matches LinkedPhase::Budgeting { cutoff_nanos }
            &&& {
                let waited = cutoff_nanos - readiness.observed_nanos;
                &&& 0 <= waited <= cycle.config.handoff_nanos
                &&& spare <= 0 ==> waited == 0
                &&& spare >= 0 ==> waited * cycle.config.rate <= spare * 1_000_000_000
                &&& spare >= 0 && spare * 1_000_000_000 <= u64::MAX && readiness.observed_nanos
                    + cycle.config.handoff_nanos <= u64::MAX && cycle.config.handoff_nanos
                    * cycle.config.rate <= spare * 1_000_000_000 ==> waited
                    == cycle.config.handoff_nanos
            }
        }),
{
    crate::timing::a_direct_wait_plays_the_spare_queue_alone(
        readiness,
        cycle.config.period,
        cycle.config.rate,
        cycle.config.handoff_nanos,
        reserve,
    );
}

/// A period of a timed pair: what is asked for, in order. The client has until its handoff target
/// and its output is taken up to that target, the handoff is waited for only while it lies ahead,
/// and playback has drained to its floor before it is looked at and written.
pub proof fn a_timed_period_takes_its_course(
    cycle: LinkedCycle,
    state: RunState,
    event: CycleEvent,
)
    requires
        !cycle.config.event_driven,
        !state.control.stop,
        went_well(cycle.wants(), event, cycle.config.period),
    ensures
        ({
            let after = cycle.next(state, event).0;
            let number = cycle.sequence;
            &&& cycle.phase matches LinkedPhase::Reading { readiness } ==> after.wants()
                == CycleAction::ObserveCapture
            &&& cycle.phase is Observing ==> {
                &&& after.wants() == CycleAction::PreparePlayback { sequence: number }
                &&& event matches CycleEvent::CaptureObserved(seen)
                &&& after.phase matches LinkedPhase::Preparing { read_nanos, playback_delay, .. }
                &&& read_nanos == seen.nanos
                &&& playback_delay == seen.playback_delay
            }
            &&& cycle.phase matches LinkedPhase::Preparing { readiness, read_nanos, playback_delay }
                ==> after.wants() == (CycleAction::ProcessCapture {
                hardware_sequence: number,
                playback_sequence: number,
            }) && after.phase == (LinkedPhase::Publishing { readiness, read_nanos, playback_delay })
            &&& cycle.phase matches LinkedPhase::Publishing { read_nanos, playback_delay, .. }
                ==> after.wants() == CycleAction::ReadClock && after.phase == (
            LinkedPhase::Targeting { read_nanos, playback_delay })
            &&& cycle.phase is Targeting ==> after.wants() == (CycleAction::PreparePlaybackMix {
                sequence: number,
            }) && after.phase is Mixing
            &&& cycle.phase matches LinkedPhase::Mixing { target_nanos } ==> after.wants()
                == CycleAction::ReadClock && after.phase == (LinkedPhase::HandoffBudgeting {
                target_nanos,
            })
            &&& cycle.phase matches LinkedPhase::HandoffBudgeting { target_nanos } ==> event
                matches CycleEvent::Clock { nanos } && if nanos < target_nanos {
                after.wants() == (CycleAction::WaitHandoff { target_nanos })
            } else {
                after.phase == (LinkedPhase::Opening { cutoff_nanos: target_nanos })
            }
            &&& cycle.phase matches LinkedPhase::HandoffWaiting { target_nanos } ==> after.phase
                == (LinkedPhase::Opening { cutoff_nanos: target_nanos })
            &&& cycle.phase matches LinkedPhase::Opening { cutoff_nanos } ==> cycle.wants()
                == CycleAction::BeginCommit && after.wants() == CycleAction::ClearPlayback
                && after.phase == (LinkedPhase::Clearing { cutoff_nanos })
            &&& cycle.phase matches LinkedPhase::Clearing { cutoff_nanos } ==> after.wants() == (
            CycleAction::ProcessPlayback { sequence: number, cutoff_nanos: Some(cutoff_nanos) })
            &&& cycle.phase is Rendering ==> after.wants() == (CycleAction::CommitPlayback {
                sequence: number,
            })
            &&& cycle.phase is Committing ==> after.wants() == CycleAction::WaitPlaybackTarget
            &&& cycle.phase is Draining && 0 <= cycle.config.period <= usize::MAX
                && cycle.config.period * cycle.config.playback_channels <= usize::MAX
                ==> {
                &&& after.wants() == CycleAction::ReadPlaybackStatus
                &&& after.phase matches LinkedPhase::Inspecting { samples }
                &&& samples == cycle.config.period * cycle.config.playback_channels
            }
            &&& cycle.phase matches LinkedPhase::Inspecting { samples } ==> after.wants() == (
            CycleAction::WritePlayback { offset: 0, samples })
            &&& cycle.phase is Writing ==> after.wants() == CycleAction::ReadClock && after.phase
                is Timing
            &&& cycle.phase is Timing ==> after.wants() == CycleAction::EndCommit
            &&& cycle.phase is Closing ==> after.wants() == (CycleAction::ProcessDeferredCapture {
                hardware_sequence: number,
            })
            &&& cycle.phase is Deferring && cycle.config.max_periods is None ==> after.wants() == (
            CycleAction::ReadCapture { offset: 0, samples: cycle.config.capture_period_samples })
        }),
{
}

/// The handoff target of a timed cycle lies neither past the handoff nor past the time that the
/// queue above a period lasts from the capture on; with no delay known it is the handoff.
pub proof fn the_handoff_leaves_a_period_queued(
    cycle: LinkedCycle,
    state: RunState,
    read_nanos: u64,
    playback_delay: Option<i64>,
    started: u64,
)
    requires
        cycle.config.wf(),
        cycle.phase == (LinkedPhase::Targeting { read_nanos, playback_delay }),
        playback_delay is Some ==> 0 <= playback_delay->0,
        started + cycle.config.handoff_nanos <= u64::MAX,
    ensures
        ({
            let after = cycle.next(state, CycleEvent::Clock { nanos: started }).0;
            &&& after.phase matches LinkedPhase::Mixing { target_nanos }
            &&& {
                &&& target_nanos <= started + cycle.config.handoff_nanos
                &&& playback_delay is None ==> target_nanos == started
                    + cycle.config.handoff_nanos
                &&& playback_delay matches Some(delay) ==> {
                    let margin = delay - cycle.config.period;
                    &&& margin >= 0 ==> (target_nanos - read_nanos) * cycle.config.rate <= margin
                        * 1_000_000_000
                    &&& margin <= 0 ==> target_nanos <= read_nanos
                    &&& 0 <= margin && margin * 1_000_000_000 <= u64::MAX && target_nanos
                        < started + cycle.config.handoff_nanos ==> margin * 1_000_000_000 < (
                    target_nanos - read_nanos + 1) * cycle.config.rate
                }
            }
        }),
{
    if playback_delay is Some {
        crate::timing::a_timed_wait_plays_the_margin_alone(
            read_nanos,
            started,
            cycle.config.handoff_nanos,
            playback_delay->0,
            cycle.config.period,
            cycle.config.rate,
        );
    }
}

/// What a cycle records of its period: where the streams stand after they moved by a period, when
/// the capture of its number was read and how long its write took, what is left of the client's
/// budget, and for timed pairs what the streams said about themselves.
pub proof fn a_period_is_recorded_as_it_was_seen(
    cycle: LinkedCycle,
    state: RunState,
    seen: CaptureObservation,
    nanos: u64,
    write_nanos: u64,
    status: crate::cycle::PlaybackStatus,
)
    requires
        cycle.config.wf(),
        cycle.capture_position + cycle.config.period <= u64::MAX,
        cycle.playback_position + cycle.config.period <= u64::MAX,
        0 <= status.delay,
        seen.capture_delay is Some ==> 0 <= seen.capture_delay->0,
    ensures
        cycle.phase is Observing ==> {
            let (after, found) = cycle.next(state, CycleEvent::CaptureObserved(seen));
            &&& after.capture_position == cycle.capture_position + cycle.config.period
            &&& found.timeline.capture_position == after.capture_position
            &&& cycle.config.event_driven ==> found.timeline.capture_delay_frames
                == state.timeline.capture_delay_frames
                && found.timeline.duplex_pointer_phase_samples
                == state.timeline.duplex_pointer_phase_samples
            &&& !cycle.config.event_driven && seen.capture_delay is Some
                ==> found.timeline.capture_delay_frames == seen.capture_delay->0
            &&& !cycle.config.event_driven && seen.pointer_phase is Some
                ==> found.timeline.duplex_pointer_phase_nanos == seen.pointer_phase->0
            &&& found.control == state.control
        },
        cycle.phase is Inspecting ==> {
            let found = cycle.next(state, CycleEvent::Status(Some(status))).1;
            &&& found.timeline.playback_delay_frames == status.delay
            &&& 0 <= status.available <= cycle.config.buffer
                ==> found.timeline.playback_ring_delay_frames + status.available
                == cycle.config.buffer
        },
        cycle.phase is Writing ==> {
            let (after, found) = cycle.next(
                state,
                CycleEvent::Written { result: Ok(cycle.config.period), write_nanos },
            );
            &&& after.playback_position == cycle.playback_position + cycle.config.period
            &&& found.timeline.playback_position == after.playback_position
            &&& found.timeline.playback_write_max_nanos >= write_nanos
            &&& found.timeline.playback_write_max_nanos == write_nanos
                || found.timeline.playback_write_max_nanos
                == state.timeline.playback_write_max_nanos
        },
        cycle.phase is Timing ==> {
            let found = cycle.next(state, CycleEvent::Clock { nanos }).1;
            state.timeline.elapsed_since_capture(cycle.sequence, nanos) matches Some(elapsed)
                ==> found.timeline.capture_to_playback_write_nanos == elapsed
        },
        cycle.phase matches LinkedPhase::Budgeting { cutoff_nanos } ==> {
            let found = cycle.next(state, CycleEvent::Clock { nanos }).1;
            &&& nanos >= cutoff_nanos ==> found.timeline.stats().pro_wait_budget_min_nanos == 0
            &&& nanos < cutoff_nanos ==> found.timeline.stats().pro_wait_budget_max_nanos
                >= cutoff_nanos - nanos
            &&& nanos < cutoff_nanos && state.timeline.pro_wait_budget_max_nanos == 0
                ==> found.timeline.stats().pro_wait_budget_max_nanos == cutoff_nanos - nanos
        },
{
}

/// The capture of a cycle's number is remembered at the time at which it was read, so that its
/// write is timed from there.
pub proof fn a_cycle_times_its_own_capture(
    cycle: LinkedCycle,
    state: RunState,
    seen: CaptureObservation,
    written: u64,
)
    requires
        cycle.phase is Observing,
        0 < seen.nanos <= written,
    ensures
        cycle.next(
            state,
            CycleEvent::CaptureObserved(seen),
        ).1.timeline.elapsed_since_capture(cycle.sequence, written) == Some(
            (written - seen.nanos) as u64,
        ),
{
    crate::timeline::lemma_capture_is_remembered(
        state.timeline.pro_timing,
        cycle.sequence,
        seen.nanos,
    );
}

/// What a failure comes to: one that the streams can be restarted after asks for the restart with
/// itself, a request to stop ends the run quietly, and any other ends the run with itself. A wait
/// for the handoff restarts nothing. A period that was being written when the streams failed is
/// given up, and one that was not is tried again.
pub proof fn a_failure_restarts_or_ends_the_run(
    cycle: LinkedCycle,
    state: RunState,
    error: EngineError,
    write_nanos: u64,
)
    ensures
        ({
            let event = match cycle.phase {
                LinkedPhase::Waiting => CycleEvent::DuplexReady(Err(error)),
                LinkedPhase::Reading { .. } => CycleEvent::Captured(Err(error)),
                LinkedPhase::Writing { .. } => CycleEvent::Written {
                    result: Err(error),
                    write_nanos,
                },
                _ => CycleEvent::Waited(Err(error)),
            };
            let (after, found) = cycle.next(state, event);
            let streaming = cycle.phase is Waiting || cycle.phase is Reading
                || cycle.phase is Writing || cycle.phase is Draining;
            let listening = streaming || cycle.phase is HandoffWaiting;
            &&& streaming && (error is Xrun || error is LinkedXrun || error is Suspended)
                ==> after.wants() == CycleAction::Recover && after.phase == (
            LinkedPhase::Recovering {
                error,
                opened: cycle.phase is Writing || cycle.phase is Draining,
                skip: cycle.phase is Writing || cycle.phase is Draining,
            }) && found.control == state.control
            &&& cycle.phase is HandoffWaiting && !(error is Stopped) ==> after.phase == (
            LinkedPhase::Finished { result: Err(error), opened: false })
            &&& listening && !(cycle.phase is Draining) && error is Stopped ==> after.phase == (
            LinkedPhase::Finished { result: Ok(()), opened: cycle.phase is Writing })
            &&& streaming && !(error is Xrun || error is LinkedXrun || error is Suspended)
                && !(error is Stopped) ==> after.phase == (LinkedPhase::Finished {
                result: Err(error),
                opened: cycle.phase is Writing || cycle.phase is Draining,
            })
            &&& listening && after.phase is Finished ==> found.control.done
        }),
{
}

/// A restart that worked goes on with the run, past the period where it was given up; one that
/// failed ends the run with its own failure. Either way a commit that was held is let go first.
pub proof fn a_restart_goes_on_or_ends_the_run(
    cycle: LinkedCycle,
    state: RunState,
    failure: EngineError,
)
    requires
        cycle.phase is Recovering,
        !state.control.stop,
        cycle.config.max_periods is None,
    ensures
        ({
            let opened = cycle.phase->Recovering_opened;
            let skip = cycle.phase->skip;
            let (again, found) = cycle.next(state, CycleEvent::Recovered(Ok(())));
            let (ended, _) = cycle.next(state, CycleEvent::Recovered(Err(failure)));
            let first = if cycle.config.event_driven {
                CycleAction::WaitDuplexPeriod
            } else {
                CycleAction::ReadCapture {
                    offset: 0,
                    samples: cycle.config.capture_period_samples,
                }
            };
            &&& again.sequence == if skip {
                cycle.sequence.wrapping_add(1)
            } else {
                cycle.sequence
            }
            &&& again.periods_processed == cycle.periods_processed
            &&& opened ==> again.wants() == CycleAction::ReleaseCommit && again.next(
                found,
                CycleEvent::Called { panicked: false },
            ).0.wants() == first
            &&& !opened ==> again.wants() == first
            &&& ended.phase == (LinkedPhase::Finished { result: Err(failure), opened })
            &&& opened ==> ended.wants() == CycleAction::ReleaseCommit
            &&& !opened ==> ended.wants() == CycleAction::Finish
        }),
{
}

/// Client code that panics ends the run as a panic of the worker, with the commit let go where one
/// was held; and a transfer of another length than a period ends it as a short one.
pub proof fn panics_and_short_transfers_end_the_run(
    cycle: LinkedCycle,
    state: RunState,
    frames: i64,
    write_nanos: u64,
)
    requires
        frames != cycle.config.period,
    ensures
        ({
            let (after, found) = cycle.next(state, CycleEvent::Called { panicked: true });
            let outside = cycle.phase is Preparing || cycle.phase is Publishing
                || cycle.phase is ClientWaiting || cycle.phase is Mixing || cycle.phase is Opening
                || cycle.phase is Closing || cycle.phase is Deferring;
            let inside = cycle.phase is Rendering || cycle.phase is LateMixing
                || cycle.phase is Committing;
            &&& outside || inside ==> found.control.done && after.phase == (
            LinkedPhase::Finished { result: Err(EngineError::WorkerPanic), opened: inside })
        }),
        cycle.phase is Reading ==> cycle.next(state, CycleEvent::Captured(Ok(frames))).0.phase == (
        LinkedPhase::Finished {
            result: Err(
                EngineError::ShortCommit {
                    direction: StreamDirection::Capture,
                    actual: frames,
                    required: cycle.config.period,
                },
            ),
            opened: false,
        }),
        cycle.phase is Writing ==> cycle.next(
            state,
            CycleEvent::Written { result: Ok(frames), write_nanos },
        ).0.phase == (LinkedPhase::Finished {
            result: Err(
                EngineError::ShortCommit {
                    direction: StreamDirection::Playback,
                    actual: frames,
                    required: cycle.config.period,
                },
            ),
            opened: true,
        }),
{
}

/// A request to stop is followed before anything more is done for the client or written: after a
/// read, a publication, a rendering, a mix or a drain the run goes no further, and a commit that
/// is held is let go on the way out.
pub proof fn a_stop_is_followed_at_once(cycle: LinkedCycle, state: RunState)
    requires
        state.control.stop,
    ensures
        ({
            let done = CycleEvent::Called { panicked: false };
            let ended = LinkedPhase::Finished { result: Ok(()), opened: false };
            &&& cycle.phase is Reading ==> cycle.next(
                state,
                CycleEvent::Captured(Ok(cycle.config.period)),
            ).0.phase == ended
            &&& cycle.phase is Publishing ==> cycle.next(state, done).0.phase == ended
            &&& cycle.phase is Deferring ==> cycle.next(state, done).0.phase == ended
            &&& cycle.phase is Releasing ==> cycle.next(state, done).0.phase == ended
            &&& cycle.phase is Rendering && !cycle.config.event_driven ==> cycle.next(
                state,
                done,
            ).0.wants() == CycleAction::ReleaseCommit
            &&& cycle.phase is LateMixing ==> cycle.next(state, done).0.wants()
                == CycleAction::ReleaseCommit
            &&& cycle.phase is Committing && cycle.config.event_driven ==> cycle.next(
                state,
                done,
            ).0.wants() == CycleAction::ReleaseCommit
            &&& cycle.phase is Draining ==> cycle.next(state, CycleEvent::Waited(Ok(()))).0.wants()
                == CycleAction::ReleaseCommit
        }),
{
}

} // verus!
