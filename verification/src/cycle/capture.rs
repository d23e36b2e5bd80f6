//! The capture worker of an unlinked pair.
use vstd::prelude::*;
use crate::cycle::{CycleAction, CycleEvent, RunState};
use crate::error::{same_result, EngineError, StreamDirection};
use crate::sequence::{next_sequence, take_pro_capture_sequence};

verus! {

#[derive(Clone, Copy, Debug, PartialEq, Eq, Structural)]
pub struct CaptureWorkerConfig {
    pub channels: usize,
    pub period_samples: usize,
    pub period: i64,
    pub initial_pro_sequence: u64,
    pub realtime_priority: Option<i32>,
    /// Whether a sink takes the captured periods.
    pub pro: bool,
}

/// Where the worker stands.
#[derive(Debug)]
pub enum CapturePhase {
    Reading,
    Observing,
    /// Asking which sequence playback published.
    Asking { nanos: u64 },
    Publishing { sequence: u64 },
    Deferring,
    Recovering { error: EngineError },
    Finished { result: Result<(), EngineError> },
}

/// The capture worker.
#[derive(Debug)]
pub struct CaptureWorker {
    pub config: CaptureWorkerConfig,
    pub position: u64,
    pub hardware_sequence: u64,
    pub next_pro_sequence: u64,
    pub pro_generation: u64,
    pub phase: CapturePhase,
}

impl CaptureWorker {
    pub open spec fn at(self, phase: CapturePhase) -> CaptureWorker {
        CaptureWorker { phase, ..self }
    }

    pub open spec fn ended(self, state: RunState, result: Result<(), EngineError>) -> (
        CaptureWorker,
        RunState,
    ) {
        (self.at(CapturePhase::Finished { result }), state.ended())
    }

    /// The top of the loop: the run ends when it is asked to.
    pub open spec fn top(self, state: RunState) -> (CaptureWorker, RunState) {
        if state.control.stopping() {
            self.ended(state, Ok(()))
        } else {
            (self.at(CapturePhase::Reading), state)
        }
    }

    /// The worker and the state after a period was handed on.
    pub open spec fn advanced(self, state: RunState) -> (CaptureWorker, RunState) {
        let position = self.position.wrapping_add(self.config.period as u64);
        (CaptureWorker {
            position,
            hardware_sequence: self.hardware_sequence.wrapping_add(1),
            ..self
        }).top(
            state.with_timeline(
                crate::timeline::HardwareTimeline { capture_position: position, ..state.timeline },
            ).with_capture_delivered(),
        )
    }

    /// The sequence that the next captured period gets when playback published `target`.
    pub open spec fn due_sequence(self, target: u64) -> u64 {
        crate::sequence::later_sequence(self.next_pro_sequence, target)
    }

    /// What follows `event`. An event that was not asked for changes nothing.
    pub open spec fn next(self, state: RunState, event: CycleEvent) -> (CaptureWorker, RunState) {
        match (self.phase, event) {
            (CapturePhase::Reading, CycleEvent::Captured(read)) => match read {
                Ok(frames) => if frames == self.config.period {
                    (self.at(CapturePhase::Observing), state)
                } else {
                    self.ended(
                        state,
                        Err(
                            EngineError::ShortCommit {
                                direction: StreamDirection::Capture,
                                actual: frames,
                                required: self.config.period,
                            },
                        ),
                    )
                },
                Err(error) => if error.recoverable() {
                    (self.at(CapturePhase::Recovering { error }), state)
                } else if error is Stopped {
                    self.ended(state, Ok(()))
                } else {
                    self.ended(state, Err(error))
                },
            },
            (CapturePhase::Observing, CycleEvent::CaptureObserved(seen)) => {
                let after = match seen.capture_delay {
                    Some(delay) => state.with_timeline(
                        state.timeline.with_pcm_delay(
                            StreamDirection::Capture,
                            delay,
                            self.config.period as u64,
                        ),
                    ),
                    None => state,
                };
                if after.control.stopping() {
                    self.ended(after, Ok(()))
                } else if self.config.pro {
                    (self.at(CapturePhase::Asking { nanos: seen.nanos }), after)
                } else {
                    self.advanced(after)
                }
            },
            (CapturePhase::Asking { nanos }, CycleEvent::ProTarget { sequence: target }) => (
                CaptureWorker {
                    next_pro_sequence: crate::sequence::sequence_after(
                        self.due_sequence(target),
                        1,
                    ),
                    pro_generation: state.timeline.generation,
                    phase: CapturePhase::Publishing { sequence: self.due_sequence(target) },
                    ..self
                },
                state.with_timeline(
                    state.timeline.with_capture_read(self.due_sequence(target), nanos),
                ),
            ),
            (CapturePhase::Publishing { .. }, CycleEvent::Called { panicked }) => if panicked {
                self.ended(state, Err(EngineError::WorkerPanic))
            } else {
                (self.at(CapturePhase::Deferring), state)
            },
            (CapturePhase::Deferring, CycleEvent::Called { panicked }) => if panicked {
                self.ended(state, Err(EngineError::WorkerPanic))
            } else {
                self.advanced(state)
            },
            (CapturePhase::Recovering { .. }, CycleEvent::Recovered(recovered)) =>
                match recovered {
                    Ok(_) => self.top(state),
                    Err(error) => if error is Stopped {
                        self.ended(state, Ok(()))
                    } else {
                        self.ended(state, Err(error))
                    },
                },
            _ => (self, state),
        }
    }

    /// What the phase asks for.
    pub open spec fn wants(self) -> CycleAction {
        match self.phase {
            CapturePhase::Reading => CycleAction::ReadCapture {
                offset: 0,
                samples: self.config.period_samples,
            },
            CapturePhase::Observing => CycleAction::ObserveCapture,
            CapturePhase::Asking { .. } => CycleAction::ReadProTarget,
            CapturePhase::Publishing { sequence } => CycleAction::ProcessCapture {
                hardware_sequence: self.hardware_sequence,
                playback_sequence: sequence,
            },
            CapturePhase::Deferring => CycleAction::ProcessDeferredCapture {
                hardware_sequence: self.hardware_sequence,
            },
            CapturePhase::Recovering { .. } => CycleAction::Recover,
            CapturePhase::Finished { .. } => CycleAction::Finish,
        }
    }

    /// What to do next.
    pub fn action(&self) -> (action: CycleAction)
        ensures
            action == self.wants(),
    {
        match self.phase {
            CapturePhase::Reading => CycleAction::ReadCapture {
                offset: 0,
                samples: self.config.period_samples,
            },
            CapturePhase::Observing => CycleAction::ObserveCapture,
            CapturePhase::Asking { .. } => CycleAction::ReadProTarget,
            CapturePhase::Publishing { sequence } => CycleAction::ProcessCapture {
                hardware_sequence: self.hardware_sequence,
                playback_sequence: sequence,
            },
            CapturePhase::Deferring => CycleAction::ProcessDeferredCapture {
                hardware_sequence: self.hardware_sequence,
            },
            CapturePhase::Recovering { .. } => CycleAction::Recover,
            CapturePhase::Finished { .. } => CycleAction::Finish,
        }
    }

    /// A worker that is about to read its first period.
    pub fn new(config: CaptureWorkerConfig, state: &mut RunState) -> (worker: Self)
        ensures
            (worker, *final(state)) == (CaptureWorker {
                config,
                position: 0,
                hardware_sequence: 0,
                next_pro_sequence: config.initial_pro_sequence,
                pro_generation: old(state).timeline.generation,
                phase: CapturePhase::Reading,
            }).top(*old(state)),
    {
        let mut worker = CaptureWorker {
            config,
            position: 0,
            hardware_sequence: 0,
            next_pro_sequence: config.initial_pro_sequence,
            pro_generation: state.timeline.generation(),
            phase: CapturePhase::Reading,
        };
        worker.go_to_top(state);
        worker
    }

    /// How the run ended, once it has.
    pub fn result(&self) -> (result: Option<Result<(), EngineError>>)
        ensures
            result == match self.phase {
                CapturePhase::Finished { result: ended } => Some(ended),
                _ => None,
            },
    {
        match &self.phase {
            CapturePhase::Finished { result } => Some(same_result(result)),
            _ => None,
        }
    }

    fn end(&mut self, state: &mut RunState, result: Result<(), EngineError>)
        ensures
            (*final(self), *final(state)) == old(self).ended(*old(state), result),
    {
        state.end();
        self.phase = CapturePhase::Finished { result };
    }

    fn go_to_top(&mut self, state: &mut RunState)
        ensures
            (*final(self), *final(state)) == old(self).top(*old(state)),
    {
        if state.control.should_stop() {
            self.end(state, Ok(()));
        } else {
            self.phase = CapturePhase::Reading;
        }
    }

    fn advance(&mut self, state: &mut RunState)
        ensures
            (*final(self), *final(state)) == old(self).advanced(*old(state)),
    {
        self.hardware_sequence = next_sequence(self.hardware_sequence);
        self.position = self.position.wrapping_add(self.config.period as u64);
        state.timeline.update_capture_position(self.position);
        state.capture_delivered();
        self.go_to_top(state);
    }

    /// Handles the outcome of the action that was asked for.
    pub fn step(&mut self, state: &mut RunState, event: CycleEvent)
        ensures
            (*final(self), *final(state)) == old(self).next(*old(state), event),
    {
        match self.phase {
            CapturePhase::Reading => if let CycleEvent::Captured(read) = event {
                match read {
                    Ok(frames) => if frames == self.config.period {
                        self.phase = CapturePhase::Observing;
                    } else {
                        self.end(
                            state,
                            Err(
                                EngineError::ShortCommit {
                                    direction: StreamDirection::Capture,
                                    actual: frames,
                                    required: self.config.period,
                                },
                            ),
                        );
                    },
                    Err(error) => if error.is_recoverable() {
                        self.phase = CapturePhase::Recovering { error };
                    } else if error.is_stopped() {
                        self.end(state, Ok(()));
                    } else {
                        self.end(state, Err(error));
                    },
                }
            },
            CapturePhase::Observing => if let CycleEvent::CaptureObserved(seen) = event {
                if let Some(delay) = seen.capture_delay {
                    state.timeline.update_pcm_delay(
                        StreamDirection::Capture,
                        delay,
                        self.config.period as u64,
                    );
                }
                if state.control.should_stop() {
                    self.end(state, Ok(()));
                } else if self.config.pro {
                    self.phase = CapturePhase::Asking { nanos: seen.nanos };
                } else {
                    self.advance(state);
                }
            },
            CapturePhase::Asking { nanos } =>
                if let CycleEvent::ProTarget { sequence: target } = event {
                    let sequence: u64 = take_pro_capture_sequence(
                        &mut self.next_pro_sequence,
                        &mut self.pro_generation,
                        state.timeline.generation(),
                        target,
                    );
                    state.timeline.record_pro_capture_read(sequence, nanos);
                    self.phase = CapturePhase::Publishing { sequence };
                },
            CapturePhase::Publishing { .. } => if let CycleEvent::Called { panicked } = event {
                if panicked {
                    self.end(state, Err(EngineError::WorkerPanic));
                } else {
                    self.phase = CapturePhase::Deferring;
                };
            },
            CapturePhase::Deferring => if let CycleEvent::Called { panicked } = event {
                if panicked {
                    self.end(state, Err(EngineError::WorkerPanic));
                } else {
                    self.advance(state);
                };
            },
            CapturePhase::Recovering { .. } => if let CycleEvent::Recovered(recovered) = event {
                match recovered {
                    Ok(_) => self.go_to_top(state),
                    Err(error) => if error.is_stopped() {
                        self.end(state, Ok(()));
                    } else {
                        self.end(state, Err(error));
                    },
                }
            },
            _ => {},
        }
    }
}

/// Captured periods get strictly increasing sequences: the one a period gets comes after that of
/// the period before, whatever playback published in between. The one exception is a published
/// sequence exactly half the sequence space away.
pub proof fn captured_sequences_increase(
    worker: CaptureWorker,
    state: RunState,
    nanos: u64,
    target: u64,
    later_target: u64,
)
    requires
        worker.phase == (CapturePhase::Asking { nanos }),
        crate::sequence::sequence_distance(worker.due_sequence(target), later_target)
            != crate::sequence::sequence_space() / 2,
    ensures
        ({
            let first = worker.due_sequence(target);
            let after = worker.next(state, CycleEvent::ProTarget { sequence: target }).0;
            crate::sequence::precedes(first, after.due_sequence(later_target))
        }),
{
    crate::sequence::capture_sequences_strictly_increase(
        worker.due_sequence(target),
        later_target,
    );
}

/// Driving the worker is no hardware event.
pub proof fn steps_keep_the_hardware_history(
    worker: CaptureWorker,
    state: RunState,
    event: CycleEvent,
)
    ensures
        crate::timeline::same_hardware_history(
            state.timeline,
            worker.next(state, event).1.timeline,
        ),
{
}

/// A captured period takes its course: it is read whole, looked at, numbered by what playback
/// published where that is ahead, handed on under the hardware's number and that one, and then the
/// next one is read. Without a sink it is only counted.
pub proof fn a_captured_period_takes_its_course(
    worker: CaptureWorker,
    state: RunState,
    event: CycleEvent,
)
    requires
        !state.control.stop,
        !state.control.done,
        crate::cycle::went_well(worker.wants(), event, worker.config.period),
    ensures
        ({
            let after = worker.next(state, event).0;
            let number = worker.hardware_sequence;
            let whole = CycleAction::ReadCapture {
                offset: 0,
                samples: worker.config.period_samples,
            };
            &&& worker.phase is Reading ==> worker.wants() == whole && after.wants()
                == CycleAction::ObserveCapture
            &&& worker.phase is Observing && worker.config.pro ==> {
                &&& after.wants() == CycleAction::ReadProTarget
                &&& event matches CycleEvent::CaptureObserved(seen)
                &&& after.phase == CapturePhase::Asking { nanos: seen.nanos }
            }
            &&& worker.phase is Observing && !worker.config.pro ==> after.wants() == whole
                && after.hardware_sequence == number.wrapping_add(1)
            &&& worker.phase is Asking ==> {
                &&& event matches CycleEvent::ProTarget { sequence: target }
                &&& after.wants() matches CycleAction::ProcessCapture {
                    hardware_sequence,
                    playback_sequence,
                }
                &&& hardware_sequence == number
                &&& playback_sequence == worker.next_pro_sequence || playback_sequence == target
                &&& target <= worker.next_pro_sequence && worker.next_pro_sequence - target
                    < 0x8000_0000_0000_0000 ==> playback_sequence == worker.next_pro_sequence
                &&& worker.next_pro_sequence <= target && target - worker.next_pro_sequence
                    < 0x8000_0000_0000_0000 ==> playback_sequence == target
                &&& after.next_pro_sequence == playback_sequence.wrapping_add(1)
                &&& after.pro_generation == state.timeline.generation
            }
            &&& worker.phase is Publishing ==> after.wants() == (
            CycleAction::ProcessDeferredCapture { hardware_sequence: number })
            &&& worker.phase is Deferring ==> after.wants() == whole && after.hardware_sequence
                == number.wrapping_add(1)
        }),
{
}

/// What the capture worker records: where capture stands after it moved by a period, the delay that
/// the stream reported, and when the period of a number was read.
pub proof fn a_captured_period_is_recorded(
    worker: CaptureWorker,
    state: RunState,
    seen: crate::cycle::CaptureObservation,
    target: u64,
    nanos: u64,
)
    requires
        worker.config.period >= 0,
        worker.position + worker.config.period <= u64::MAX,
        seen.capture_delay is Some ==> 0 <= seen.capture_delay->0,
    ensures
        worker.phase is Observing ==> {
            let found = worker.next(state, CycleEvent::CaptureObserved(seen)).1;
            seen.capture_delay is Some ==> found.timeline.capture_delay_frames
                == seen.capture_delay->0
        },
        worker.phase is Deferring ==> {
            let (after, found) = worker.next(state, CycleEvent::Called { panicked: false });
            &&& after.position == worker.position + worker.config.period
            &&& found.timeline.capture_position == after.position
            &&& state.control.capture_cycle_generation is Some
                ==> found.control.capture_cycle_generation == Some(state.timeline.generation)
        },
        worker.phase matches CapturePhase::Asking { nanos: read } ==> {
            let (after, found) = worker.next(state, CycleEvent::ProTarget { sequence: target });
            &&& after.phase matches CapturePhase::Publishing { sequence }
            &&& 0 < read <= nanos ==> found.timeline.elapsed_since_capture(sequence, nanos)
                == Some((nanos - read) as u64)
        },
{
    if worker.phase is Asking {
        crate::timeline::lemma_capture_is_remembered(
            state.timeline.pro_timing,
            worker.due_sequence(target),
            worker.phase->Asking_nanos,
        );
    }
}

/// What a failure of capture comes to: a restart of the stream, a quiet end, or the end of the run
/// with that failure; and whatever ends the worker ends the run for all.
pub proof fn a_failure_restarts_or_ends_capture(
    worker: CaptureWorker,
    state: RunState,
    error: EngineError,
    frames: i64,
)
    ensures
        ({
            let recoverable = error is Xrun || error is LinkedXrun || error is Suspended;
            let (after, found) = worker.next(state, CycleEvent::Captured(Err(error)));
            &&& worker.phase is Reading && recoverable ==> after.wants() == CycleAction::Recover
                && after.phase == (CapturePhase::Recovering { error }) && found == state
            &&& worker.phase is Reading && error is Stopped ==> after.phase == (
            CapturePhase::Finished { result: Ok(()) }) && found.control.done
            &&& worker.phase is Reading && !recoverable && !(error is Stopped) ==> after.phase == (
            CapturePhase::Finished { result: Err(error) }) && found.control.done
        }),
        worker.phase is Reading && frames != worker.config.period ==> {
            let (after, found) = worker.next(state, CycleEvent::Captured(Ok(frames)));
            &&& found.control.done
            &&& after.phase == CapturePhase::Finished {
                result: Err(
                    EngineError::ShortCommit {
                        direction: StreamDirection::Capture,
                        actual: frames,
                        required: worker.config.period,
                    },
                ),
            }
        },
        worker.phase is Publishing || worker.phase is Deferring ==> {
            let (after, found) = worker.next(state, CycleEvent::Called { panicked: true });
            &&& found.control.done
            &&& after.phase == CapturePhase::Finished { result: Err(EngineError::WorkerPanic) }
        },
        worker.phase is Recovering ==> {
            let again = worker.next(state, CycleEvent::Recovered(Ok(()))).0;
            let ended = worker.next(state, CycleEvent::Recovered(Err(error))).0;
            &&& !state.control.stop && !state.control.done ==> again.wants() == (
            CycleAction::ReadCapture { offset: 0, samples: worker.config.period_samples })
            &&& again.hardware_sequence == worker.hardware_sequence
            &&& again.next_pro_sequence == worker.next_pro_sequence
            &&& error is Stopped ==> ended.phase == (CapturePhase::Finished { result: Ok(()) })
            &&& !(error is Stopped) ==> ended.phase == (CapturePhase::Finished {
                result: Err(error),
            })
        },
{
}

} // verus!
