//! Calibrating the phase between linked streams before any client is served.
//!
//! Silent cycles run for one second of hardware time. When every cycle leaves the client enough
//! time between capture and write, the start is accepted; otherwise the streams are started again
//! at another offset, a limited number of times.
use vstd::prelude::*;
use crate::cycle::restart::record_linked_hardware_xruns;
use crate::cycle::{CycleAction, CycleEvent, LinkedProConfig, RunState};
use crate::error::{same_result, EngineError, StreamDirection};
use crate::timing::{
    bounded_pro_handoff_target, linked_phase_dither_frames, linked_phase_target_nanos,
    linked_phase_warmup_cycles,
};

verus! {

/// Where a calibration stands.
#[derive(Debug)]
pub enum CalibrationPhase {
    Reading,
    /// Looking at the clock right after the capture.
    Stamping,
    Measuring { read_nanos: u64 },
    /// Looking at the clock to decide on the handoff target.
    Targeting { read_nanos: u64, playback_delay: i64 },
    HandoffWaiting { read_nanos: u64, target_nanos: u64 },
    Draining { read_nanos: u64 },
    Writing { read_nanos: u64 },
    /// Looking at the clock after the write.
    Timing { read_nanos: u64 },
    Recovering { error: EngineError },
    Rebasing,
    Finished { result: Result<(), EngineError> },
}

/// A calibration under way.
#[derive(Debug)]
pub struct Calibration {
    pub config: LinkedProConfig,
    /// The current attempt, from one.
    pub attempt: u32,
    /// Cycles that the current attempt has completed.
    pub cycles: u64,
    /// The shortest time from capture to write in the current attempt.
    pub minimum_write_nanos: u64,
    pub phase: CalibrationPhase,
}

impl Calibration {
    pub open spec fn at(self, phase: CalibrationPhase) -> Calibration {
        Calibration { phase, ..self }
    }

    pub open spec fn wf(self) -> bool {
        &&& self.config.wf()
        &&& self.phase is Finished || 1 <= self.attempt <= self.config.phase_max_attempts
        &&& self.phase is Finished || self.cycles < crate::timing::warmup_cycles(
            self.config.rate,
            self.config.period,
        )
        &&& self.phase is Recovering || self.phase is Rebasing ==> self.attempt
            < self.config.phase_max_attempts
    }

    pub open spec fn finished(self, result: Result<(), EngineError>) -> Calibration {
        self.at(CalibrationPhase::Finished { result })
    }

    /// Time from capture to write that every cycle must leave.
    pub open spec fn target(self) -> u64 {
        crate::timing::phase_target(
            self.config.hardware_period,
            self.config.rate,
            self.config.handoff_nanos,
        )
    }

    /// The beginning of a cycle; a run that is ending is not calibrated any further.
    pub open spec fn cycle(self, state: RunState) -> Calibration {
        if state.control.stopping() {
            self.finished(Ok(()))
        } else {
            self.at(CalibrationPhase::Reading)
        }
    }

    /// The beginning of the next attempt.
    pub open spec fn retried(self, state: RunState) -> Calibration {
        (Calibration {
            attempt: (self.attempt + 1) as u32,
            cycles: 0,
            minimum_write_nanos: u64::MAX,
            ..self
        }).cycle(state)
    }

    /// A failed cycle: a request to stop ends the calibration quietly; a recoverable failure
    /// restarts the streams, or makes the start unstable in the last attempt; any other failure is
    /// handed on.
    pub open spec fn failed(self, state: RunState, error: EngineError) -> (Calibration, RunState) {
        if error is Stopped {
            (self.finished(Ok(())), state)
        } else if !error.recoverable() {
            (self.finished(Err(error)), state)
        } else if self.attempt < self.config.phase_max_attempts {
            (self.at(CalibrationPhase::Recovering { error }), state)
        } else {
            (
                self.finished(
                    Err(
                        EngineError::LinkedStartupUnstable {
                            attempts: self.attempt,
                            minimum_write_nanos: 0,
                        },
                    ),
                ),
                state.with_timeline(
                    crate::cycle::restart::with_linked_xruns(
                        state.timeline,
                        error,
                    ).with_calibration(self.attempt as u64, 0, false),
                ),
            )
        }
    }

    /// The score of an attempt: the shortest time that was seen, and zero when none was.
    pub open spec fn score(self) -> u64 {
        if self.minimum_write_nanos == u64::MAX {
            0
        } else {
            self.minimum_write_nanos
        }
    }

    /// The end of an attempt whose cycles all went through: it is accepted when its score reaches
    /// the target, else the streams are rebased, or the start is unstable in the last attempt.
    pub open spec fn judged(self, state: RunState) -> (Calibration, RunState) {
        let met = self.score() >= self.target();
        (
            if met {
                self.finished(Ok(()))
            } else if self.attempt < self.config.phase_max_attempts {
                self.at(CalibrationPhase::Rebasing)
            } else {
                self.finished(
                    Err(
                        EngineError::LinkedStartupUnstable {
                            attempts: self.attempt,
                            minimum_write_nanos: self.score(),
                        },
                    ),
                )
            },
            state.with_timeline(
                state.timeline.with_calibration(self.attempt as u64, self.score(), met),
            ),
        )
    }

    /// A cycle that took `elapsed` from capture to write.
    pub open spec fn measured(self, state: RunState, elapsed: u64) -> (Calibration, RunState) {
        let counted = Calibration {
            minimum_write_nanos: crate::arith::least(
                self.minimum_write_nanos as int,
                elapsed as int,
            ) as u64,
            ..self
        };
        if elapsed < self.target() || self.cycles + 1 >= crate::timing::warmup_cycles(
            self.config.rate,
            self.config.period,
        ) {
            counted.judged(state)
        } else {
            (
                (Calibration { cycles: (self.cycles + 1) as u64, ..counted }).cycle(state),
                state,
            )
        }
    }

    /// What follows `event`. An event that was not asked for changes nothing.
    pub open spec fn next(self, state: RunState, event: CycleEvent) -> (Calibration, RunState) {
        match (self.phase, event) {
            (CalibrationPhase::Reading, CycleEvent::Captured(read)) => match read {
                Ok(frames) => if frames != self.config.period {
                    self.failed(
                        state,
                        EngineError::ShortCommit {
                            direction: StreamDirection::Capture,
                            actual: frames,
                            required: self.config.period,
                        },
                    )
                } else if state.control.stopping() {
                    (self.finished(Ok(())), state)
                } else {
                    (self.at(CalibrationPhase::Stamping), state)
                },
                Err(error) => self.failed(state, error),
            },
            (CalibrationPhase::Stamping, CycleEvent::Clock { nanos }) => (
                self.at(CalibrationPhase::Measuring { read_nanos: nanos }),
                state,
            ),
            (CalibrationPhase::Measuring { read_nanos }, CycleEvent::Delay(delay)) => match delay {
                Ok(playback_delay) => (
                    self.at(CalibrationPhase::Targeting { read_nanos, playback_delay }),
                    state,
                ),
                Err(error) => self.failed(state, error),
            },
            (
                CalibrationPhase::Targeting { read_nanos, playback_delay },
                CycleEvent::Clock { nanos },
            ) => (
                self.at(
                    CalibrationPhase::HandoffWaiting {
                        read_nanos,
                        target_nanos: crate::timing::handoff_target(
                            read_nanos,
                            nanos,
                            self.config.handoff_nanos,
                            playback_delay,
                            self.config.period,
                            self.config.rate,
                        ),
                    },
                ),
                state,
            ),
            (
                CalibrationPhase::HandoffWaiting { read_nanos, .. },
                CycleEvent::Waited(waited),
            ) => match waited {
                Ok(_) => (self.at(CalibrationPhase::Draining { read_nanos }), state),
                Err(error) => self.failed(state, error),
            },
            (CalibrationPhase::Draining { read_nanos }, CycleEvent::Waited(waited)) =>
                match waited {
                    Ok(_) => (self.at(CalibrationPhase::Writing { read_nanos }), state),
                    Err(error) => self.failed(state, error),
                },
            (
                CalibrationPhase::Writing { read_nanos },
                CycleEvent::Written { result, .. },
            ) => match result {
                Ok(frames) => if frames == self.config.period {
                    (self.at(CalibrationPhase::Timing { read_nanos }), state)
                } else {
                    self.failed(
                        state,
                        EngineError::ShortCommit {
                            direction: StreamDirection::Playback,
                            actual: frames,
                            required: self.config.period,
                        },
                    )
                },
                Err(error) => self.failed(state, error),
            },
            (CalibrationPhase::Timing { read_nanos }, CycleEvent::Clock { nanos }) =>
                self.measured(state, crate::arith::clamp_u64(nanos - read_nanos)),
            (CalibrationPhase::Recovering { .. }, CycleEvent::Recovered(recovered)) =>
                match recovered {
                    Ok(_) => (
                        self.retried(state),
                        state.with_timeline(
                            state.timeline.with_calibration(self.attempt as u64, 0, false),
                        ),
                    ),
                    Err(error) => (self.finished(Err(error)), state),
                },
            (CalibrationPhase::Rebasing, CycleEvent::Recovered(rebased)) => match rebased {
                Ok(_) => (self.retried(state), state),
                Err(error) => (self.finished(Err(error)), state),
            },
            _ => (self, state),
        }
    }

    /// What the phase asks for.
    pub open spec fn wants(self) -> CycleAction {
        match self.phase {
            CalibrationPhase::Reading => CycleAction::ReadCapture {
                offset: 0,
                samples: self.config.capture_period_samples,
            },
            CalibrationPhase::Stamping => CycleAction::ReadClock,
            CalibrationPhase::Measuring { .. } => CycleAction::ReadPlaybackDelay,
            CalibrationPhase::Targeting { .. } => CycleAction::ReadClock,
            CalibrationPhase::HandoffWaiting { target_nanos, .. } => CycleAction::WaitHandoff {
                target_nanos,
            },
            CalibrationPhase::Draining { .. } => CycleAction::WaitPlaybackTarget,
            CalibrationPhase::Writing { .. } => CycleAction::WriteSilence {
                samples: self.config.playback_period_samples,
            },
            CalibrationPhase::Timing { .. } => CycleAction::ReadClock,
            CalibrationPhase::Recovering { .. } => CycleAction::RecoverShifted {
                dither_frames: crate::timing::dither_frames(
                    self.attempt,
                    self.config.hardware_period,
                ),
            },
            CalibrationPhase::Rebasing => CycleAction::Rebase {
                dither_frames: crate::timing::dither_frames(
                    self.attempt,
                    self.config.hardware_period,
                ),
            },
            CalibrationPhase::Finished { .. } => CycleAction::Finish,
        }
    }

    /// What to do next.
    pub fn action(&self) -> (action: CycleAction)
        ensures
            action == self.wants(),
    {
        match self.phase {
            CalibrationPhase::Reading => CycleAction::ReadCapture {
                offset: 0,
                samples: self.config.capture_period_samples,
            },
            CalibrationPhase::Stamping => CycleAction::ReadClock,
            CalibrationPhase::Measuring { .. } => CycleAction::ReadPlaybackDelay,
            CalibrationPhase::Targeting { .. } => CycleAction::ReadClock,
            CalibrationPhase::HandoffWaiting { target_nanos, .. } => CycleAction::WaitHandoff {
                target_nanos,
            },
            CalibrationPhase::Draining { .. } => CycleAction::WaitPlaybackTarget,
            CalibrationPhase::Writing { .. } => CycleAction::WriteSilence {
                samples: self.config.playback_period_samples,
            },
            CalibrationPhase::Timing { .. } => CycleAction::ReadClock,
            CalibrationPhase::Recovering { .. } => CycleAction::RecoverShifted {
                dither_frames: linked_phase_dither_frames(
                    self.attempt,
                    self.config.hardware_period,
                ),
            },
            CalibrationPhase::Rebasing => CycleAction::Rebase {
                dither_frames: linked_phase_dither_frames(
                    self.attempt,
                    self.config.hardware_period,
                ),
            },
            CalibrationPhase::Finished { .. } => CycleAction::Finish,
        }
    }

    /// A calibration that is about to begin its first attempt; with no attempts allowed it is
    /// finished already.
    pub fn new(config: LinkedProConfig, state: &RunState) -> (calibration: Self)
        requires
            config.wf(),
        ensures
            calibration.wf(),
            calibration == ({
                let fresh = Calibration {
                    config,
                    attempt: 1,
                    cycles: 0,
                    minimum_write_nanos: u64::MAX,
                    phase: CalibrationPhase::Reading,
                };
                if config.phase_max_attempts == 0 {
                    fresh.finished(Ok(()))
                } else {
                    fresh.cycle(*state)
                }
            }),
    {
        proof {
            lemma_some_warmup(config.rate, config.period);
        }
        let mut calibration = Calibration {
            config,
            attempt: 1,
            cycles: 0,
            minimum_write_nanos: u64::MAX,
            phase: CalibrationPhase::Reading,
        };
        if config.phase_max_attempts == 0 {
            calibration.phase = CalibrationPhase::Finished { result: Ok(()) };
        } else {
            calibration.begin_cycle(state);
        }
        calibration
    }

    /// How the calibration ended, once it has.
    pub fn result(&self) -> (result: Option<Result<(), EngineError>>)
        ensures
            result == match self.phase {
                CalibrationPhase::Finished { result: ended } => Some(ended),
                _ => None,
            },
    {
        match &self.phase {
            CalibrationPhase::Finished { result } => Some(same_result(result)),
            _ => None,
        }
    }

    fn begin_cycle(&mut self, state: &RunState)
        ensures
            *final(self) == old(self).cycle(*state),
    {
        self.phase = if state.control.should_stop() {
            CalibrationPhase::Finished { result: Ok(()) }
        } else {
            CalibrationPhase::Reading
        };
    }

    fn retry(&mut self, state: &RunState)
        requires
            old(self).attempt < old(self).config.phase_max_attempts,
        ensures
            *final(self) == old(self).retried(*state),
    {
        self.attempt = self.attempt + 1;
        self.cycles = 0;
        self.minimum_write_nanos = u64::MAX;
        self.begin_cycle(state);
    }

    fn fail(&mut self, state: &mut RunState, error: EngineError)
        ensures
            (*final(self), *final(state)) == old(self).failed(*old(state), error),
    {
        if error.is_stopped() {
            self.phase = CalibrationPhase::Finished { result: Ok(()) };
        } else if !error.is_recoverable() {
            self.phase = CalibrationPhase::Finished { result: Err(error) };
        } else if self.attempt < self.config.phase_max_attempts {
            self.phase = CalibrationPhase::Recovering { error };
        } else {
            record_linked_hardware_xruns(&mut state.timeline, &error);
            state.timeline.record_linked_phase_calibration(self.attempt as u64, 0, false);
            self.phase = CalibrationPhase::Finished {
                result: Err(
                    EngineError::LinkedStartupUnstable {
                        attempts: self.attempt,
                        minimum_write_nanos: 0,
                    },
                ),
            };
        }
    }

    fn judge(&mut self, state: &mut RunState)
        requires
            old(self).config.wf(),
        ensures
            (*final(self), *final(state)) == old(self).judged(*old(state)),
    {
        let score_nanos: u64 = if self.minimum_write_nanos == u64::MAX {
            0
        } else {
            self.minimum_write_nanos
        };
        let target_met: bool = score_nanos >= linked_phase_target_nanos(
            self.config.hardware_period,
            self.config.rate,
            self.config.handoff_nanos,
        );
        state.timeline.record_linked_phase_calibration(
            self.attempt as u64,
            score_nanos,
            target_met,
        );
        self.phase = if target_met {
            CalibrationPhase::Finished { result: Ok(()) }
        } else if self.attempt < self.config.phase_max_attempts {
            CalibrationPhase::Rebasing
        } else {
            CalibrationPhase::Finished {
                result: Err(
                    EngineError::LinkedStartupUnstable {
                        attempts: self.attempt,
                        minimum_write_nanos: score_nanos,
                    },
                ),
            }
        };
    }

    fn measure(&mut self, state: &mut RunState, elapsed: u64)
        requires
            old(self).wf(),
            !(old(self).phase is Finished),
        ensures
            (*final(self), *final(state)) == old(self).measured(*old(state), elapsed),
    {
        let target_nanos: u64 = linked_phase_target_nanos(
            self.config.hardware_period,
            self.config.rate,
            self.config.handoff_nanos,
        );
        if elapsed < self.minimum_write_nanos {
            self.minimum_write_nanos = elapsed;
        }
        if elapsed < target_nanos || self.cycles + 1 >= linked_phase_warmup_cycles(
            self.config.rate,
            self.config.period,
        ) {
            self.judge(state);
        } else {
            self.cycles = self.cycles + 1;
            self.begin_cycle(state);
        }
    }

    /// Handles the outcome of the action that was asked for.
    pub fn step(&mut self, state: &mut RunState, event: CycleEvent)
        requires
            old(self).wf(),
        ensures
            final(self).wf(),
            (*final(self), *final(state)) == old(self).next(*old(state), event),
    {
        proof {
            calibration_stays_in_bounds(*self, *state, event);
        }
        match self.phase {
            CalibrationPhase::Reading => if let CycleEvent::Captured(read) = event {
                match read {
                    Ok(frames) => if frames != self.config.period {
                        self.fail(
                            state,
                            EngineError::ShortCommit {
                                direction: StreamDirection::Capture,
                                actual: frames,
                                required: self.config.period,
                            },
                        );
                    } else if state.control.should_stop() {
                        self.phase = CalibrationPhase::Finished { result: Ok(()) };
                    } else {
                        self.phase = CalibrationPhase::Stamping;
                    },
                    Err(error) => self.fail(state, error),
                }
            },
            CalibrationPhase::Stamping => if let CycleEvent::Clock { nanos } = event {
                self.phase = CalibrationPhase::Measuring { read_nanos: nanos };
            },
            CalibrationPhase::Measuring { read_nanos } => if let CycleEvent::Delay(delay) = event {
                match delay {
                    Ok(playback_delay) => {
                        self.phase = CalibrationPhase::Targeting { read_nanos, playback_delay };
                    },
                    Err(error) => self.fail(state, error),
                }
            },
            CalibrationPhase::Targeting { read_nanos, playback_delay } =>
                if let CycleEvent::Clock { nanos } = event {
                    let target_nanos: u64 = bounded_pro_handoff_target(
                        read_nanos,
                        nanos,
                        self.config.handoff_nanos,
                        playback_delay,
                        self.config.period,
                        self.config.rate,
                    );
                    self.phase = CalibrationPhase::HandoffWaiting { read_nanos, target_nanos };
                },
            CalibrationPhase::HandoffWaiting { read_nanos, .. } =>
                if let CycleEvent::Waited(waited) = event {
                    match waited {
                        Ok(_) => {
                            self.phase = CalibrationPhase::Draining { read_nanos };
                        },
                        Err(error) => self.fail(state, error),
                    }
                },
            CalibrationPhase::Draining { read_nanos } => if let CycleEvent::Waited(waited) = event {
                match waited {
                    Ok(_) => {
                        self.phase = CalibrationPhase::Writing { read_nanos };
                    },
                    Err(error) => self.fail(state, error),
                }
            },
            CalibrationPhase::Writing { read_nanos } =>
                if let CycleEvent::Written { result, .. } = event {
                    match result {
                        Ok(frames) => if frames == self.config.period {
                            self.phase = CalibrationPhase::Timing { read_nanos };
                        } else {
                            self.fail(
                                state,
                                EngineError::ShortCommit {
                                    direction: StreamDirection::Playback,
                                    actual: frames,
                                    required: self.config.period,
                                },
                            );
                        },
                        Err(error) => self.fail(state, error),
                    }
                },
            CalibrationPhase::Timing { read_nanos } => if let CycleEvent::Clock { nanos } = event {
                self.measure(state, nanos.saturating_sub(read_nanos));
            },
            CalibrationPhase::Recovering { .. } => if let CycleEvent::Recovered(recovered) = event {
                match recovered {
                    Ok(_) => {
                        let attempt: u64 = self.attempt as u64;
                        self.retry(state);
                        state.timeline.record_linked_phase_calibration(attempt, 0, false);
                    },
                    Err(error) => {
                        self.phase = CalibrationPhase::Finished { result: Err(error) };
                    },
                }
            },
            CalibrationPhase::Rebasing => if let CycleEvent::Recovered(rebased) = event {
                match rebased {
                    Ok(_) => self.retry(state),
                    Err(error) => {
                        self.phase = CalibrationPhase::Finished { result: Err(error) };
                    },
                }
            },
            _ => {},
        }
    }
}

proof fn lemma_some_warmup(rate: u32, period: i64)
    requires
        rate > 0,
    ensures
        crate::timing::warmup_cycles(rate, period) >= 1,
{
    let r = rate as int;
    let p = crate::timing::at_least_one(period) as int;
    let q = (r + p - 1) / p;
    assert(1 <= q <= r) by (nonlinear_arith)
        requires
            q == (r + p - 1) / p,
            r >= 1,
            p >= 1,
    ;
}

/// A calibration makes no more attempts and no more cycles than it is allowed.
pub proof fn calibration_stays_in_bounds(
    calibration: Calibration,
    state: RunState,
    event: CycleEvent,
)
    requires
        calibration.wf(),
    ensures
        calibration.next(state, event).0.wf(),
{
    lemma_some_warmup(calibration.config.rate, calibration.config.period);
}

/// A start is accepted only when its shortest interval reaches the target, and what is published
/// then says so.
pub proof fn accepted_starts_meet_the_target(
    calibration: Calibration,
    state: RunState,
    elapsed: u64,
)
    requires
        calibration.phase is Timing,
        !state.control.stopping(),
        calibration.measured(state, elapsed).0.phase == (CalibrationPhase::Finished {
            result: Ok(()),
        }),
    ensures
        elapsed >= calibration.target(),
        calibration.measured(state, elapsed).1.timeline.linked_phase_target_met,
        calibration.measured(state, elapsed).1.timeline.linked_phase_score_nanos
            >= calibration.target(),
{
}

/// A start that is too tight in its last attempt is given up with the score that was seen.
pub proof fn last_attempt_is_final(calibration: Calibration, state: RunState, elapsed: u64)
    requires
        calibration.wf(),
        calibration.phase is Timing,
        calibration.attempt == calibration.config.phase_max_attempts,
        elapsed < calibration.target(),
    ensures
        calibration.measured(state, elapsed).0.phase matches CalibrationPhase::Finished {
            result: Err(EngineError::LinkedStartupUnstable { attempts, .. }),
        } && attempts == calibration.attempt,
{
}

/// A silent cycle takes its course: a period is read whole, its time is taken, the client's time is
/// spent up to the handoff target, playback drains, silence is written, and the time is taken
/// again.
pub proof fn a_silent_cycle_takes_its_course(
    calibration: Calibration,
    state: RunState,
    event: CycleEvent,
)
    requires
        !state.control.stop,
        !state.control.done,
        crate::cycle::went_well(calibration.wants(), event, calibration.config.period),
    ensures
        ({
            let after = calibration.next(state, event).0;
            &&& calibration.phase is Reading ==> calibration.wants() == (
            CycleAction::ReadCapture {
                offset: 0,
                samples: calibration.config.capture_period_samples,
            }) && after.wants() == CycleAction::ReadClock && after.phase is Stamping
            &&& calibration.phase is Stamping ==> {
                &&& event matches CycleEvent::Clock { nanos }
                &&& after.wants() == CycleAction::ReadPlaybackDelay
                &&& after.phase == CalibrationPhase::Measuring { read_nanos: nanos }
            }
            &&& calibration.phase matches CalibrationPhase::Measuring { read_nanos } ==> {
                &&& event matches CycleEvent::Delay(Ok(playback_delay))
                &&& after.wants() == CycleAction::ReadClock
                &&& after.phase == CalibrationPhase::Targeting { read_nanos, playback_delay }
            }
            &&& calibration.phase is Targeting ==> after.wants() is WaitHandoff
            &&& calibration.phase matches CalibrationPhase::HandoffWaiting { read_nanos, .. }
                ==> after.wants() == CycleAction::WaitPlaybackTarget && after.phase == (
            CalibrationPhase::Draining { read_nanos })
            &&& calibration.phase matches CalibrationPhase::Draining { read_nanos }
                ==> after.wants() == (CycleAction::WriteSilence {
                samples: calibration.config.playback_period_samples,
            }) && after.phase == (CalibrationPhase::Writing { read_nanos })
            &&& calibration.phase matches CalibrationPhase::Writing { read_nanos } ==> after.wants()
                == CycleAction::ReadClock && after.phase == (CalibrationPhase::Timing {
                read_nanos,
            })
        }),
{
}

/// The handoff of a silent cycle is that of a real one: never past the handoff, nor past the time
/// that the queue above a period lasts.
pub proof fn a_silent_handoff_leaves_a_period_queued(
    calibration: Calibration,
    state: RunState,
    read_nanos: u64,
    playback_delay: i64,
    started: u64,
)
    requires
        calibration.wf(),
        0 <= playback_delay,
        calibration.phase == (CalibrationPhase::Targeting { read_nanos, playback_delay }),
    ensures
        ({
            let after = calibration.next(state, CycleEvent::Clock { nanos: started }).0;
            let margin = playback_delay - calibration.config.period;
            &&& after.phase matches CalibrationPhase::HandoffWaiting {
                read_nanos: read,
                target_nanos,
            }
            &&& read == read_nanos
            &&& target_nanos <= started + calibration.config.handoff_nanos
            &&& margin >= 0 ==> (target_nanos - read_nanos) * calibration.config.rate <= margin
                * 1_000_000_000
            &&& margin <= 0 ==> target_nanos <= read_nanos
        }),
{
    crate::timing::a_timed_wait_plays_the_margin_alone(
        read_nanos,
        started,
        calibration.config.handoff_nanos,
        playback_delay,
        calibration.config.period,
        calibration.config.rate,
    );
}

/// What an attempt comes to after a cycle that took some time from capture to write. The shortest
/// time seen is kept. A cycle that falls short of the handoff by more than an eighth of a hardware
/// period ends the attempt unaccepted. One that does not is followed by another until a second of
/// periods went through, and then the start is accepted. What is published names the attempt, its
/// shortest time, and whether that was enough.
pub proof fn an_attempt_is_judged_by_its_shortest_cycle(
    calibration: Calibration,
    state: RunState,
    read_nanos: u64,
    now: u64,
)
    requires
        calibration.wf(),
        calibration.phase == (CalibrationPhase::Timing { read_nanos }),
        read_nanos <= now,
        now < u64::MAX,
        !state.control.stop,
        !state.control.done,
        calibration.config.hardware_period * 1_000_000_000 <= u64::MAX,
    ensures
        ({
            let elapsed = now - read_nanos;
            let (after, found) = calibration.next(state, CycleEvent::Clock { nanos: now });
            let config = calibration.config;
            let kept = after.minimum_write_nanos;
            let accepted = after.phase == (CalibrationPhase::Finished { result: Ok(()) });
            &&& kept <= elapsed
            &&& kept <= calibration.minimum_write_nanos
            &&& kept == elapsed || kept == calibration.minimum_write_nanos
            &&& accepted ==> {
                &&& (config.handoff_nanos - kept) * 8 * config.rate <= config.hardware_period
                    * 1_000_000_000
                &&& (calibration.cycles + 1) * config.period >= config.rate
                &&& found.timeline.linked_phase_target_met
            }
            &&& after.phase is Reading ==> {
                &&& after.cycles == calibration.cycles + 1
                &&& after.attempt == calibration.attempt
                &&& (config.handoff_nanos - elapsed) * 8 * config.rate <= config.hardware_period
                    * 1_000_000_000
                &&& (calibration.cycles + 1) * config.period < config.rate
                &&& found == state
            }
            &&& after.phase is Rebasing ==> {
                &&& calibration.attempt < config.phase_max_attempts
                &&& !found.timeline.linked_phase_target_met
            }
            &&& after.phase matches CalibrationPhase::Finished { result: Err(error) } ==> {
                &&& calibration.attempt == config.phase_max_attempts
                &&& error == EngineError::LinkedStartupUnstable {
                    attempts: calibration.attempt,
                    minimum_write_nanos: kept,
                }
                &&& !found.timeline.linked_phase_target_met
            }
            &&& !(after.phase is Reading) ==> {
                &&& found.timeline.linked_phase_attempts == calibration.attempt
                &&& found.timeline.linked_phase_score_nanos == kept
            }
            &&& after.phase is Reading || after.phase is Rebasing || after.phase is Finished
            &&& elapsed >= config.handoff_nanos ==> !(after.phase is Rebasing)
                || calibration.minimum_write_nanos < config.handoff_nanos
            &&& crate::timeline::same_hardware_history(state.timeline, found.timeline)
        }),
{
    let config = calibration.config;
    let elapsed = (now - read_nanos) as u64;
    let (after, found) = calibration.next(state, CycleEvent::Clock { nanos: now });
    let kept = after.minimum_write_nanos as int;
    let target = calibration.target() as int;
    let overhead = config.handoff_nanos - target;
    let rate = config.rate as int;
    crate::timing::the_phase_target_leaves_an_eighth(
        config.hardware_period,
        config.rate,
        config.handoff_nanos,
    );
    crate::timing::a_warmup_lasts_a_second(config.rate, config.period);
    let warmup = crate::timing::warmup_cycles(config.rate, config.period) as int;
    let period = config.period as int;
    if calibration.cycles + 1 >= warmup {
        assert((calibration.cycles + 1) * period >= warmup * period) by (nonlinear_arith)
            requires
                calibration.cycles + 1 >= warmup,
                period > 0,
        ;
    } else {
        assert((calibration.cycles + 1) * period <= (warmup - 1) * period) by (nonlinear_arith)
            requires
                calibration.cycles + 1 <= warmup - 1,
                period > 0,
        ;
    }
    if kept >= target {
        assert((config.handoff_nanos - kept) * 8 * rate <= overhead * 8 * rate)
            by (nonlinear_arith)
            requires
                config.handoff_nanos - kept <= overhead,
                rate > 0,
        ;
    }
    if elapsed >= target {
        assert((config.handoff_nanos - elapsed) * 8 * rate <= overhead * 8 * rate)
            by (nonlinear_arith)
            requires
                config.handoff_nanos - elapsed <= overhead,
                rate > 0,
        ;
    }
}

/// A repeated attempt starts over one further, shifted to another part of the hardware period; it
/// keeps nothing of the attempt before.
pub proof fn an_attempt_starts_over_elsewhere(calibration: Calibration, state: RunState)
    requires
        calibration.wf(),
        calibration.phase is Rebasing || calibration.phase is Recovering,
        !state.control.stop,
        !state.control.done,
        calibration.config.hardware_period <= u32::MAX,
    ensures
        ({
            let after = calibration.next(state, CycleEvent::Recovered(Ok(()))).0;
            let shift = match calibration.wants() {
                CycleAction::Rebase { dither_frames } => dither_frames,
                CycleAction::RecoverShifted { dither_frames } => dither_frames,
                _ => i64::MIN,
            };
            &&& after.attempt == calibration.attempt + 1
            &&& after.cycles == 0
            &&& after.minimum_write_nanos == u64::MAX
            &&& after.phase is Reading
            &&& calibration.phase is Rebasing <==> calibration.wants() is Rebase
            &&& calibration.phase is Recovering <==> calibration.wants() is RecoverShifted
            &&& 0 <= shift < calibration.config.hardware_period
            &&& calibration.attempt < calibration.config.hardware_period ==> shift
                == calibration.attempt
        }),
{
    crate::timing::dither_covers_the_hardware_period(
        calibration.attempt,
        calibration.config.hardware_period,
    );
}

/// What a failure comes to: a request to stop ends the calibration quietly, one that the streams
/// can be restarted after does so while attempts are left and makes the start unstable otherwise,
/// with its XRUNs counted, and any other failure ends it.
pub proof fn a_failure_restarts_or_ends_the_calibration(
    calibration: Calibration,
    state: RunState,
    error: EngineError,
)
    requires
        calibration.phase is Reading,
        calibration.attempt <= calibration.config.phase_max_attempts,
        state.timeline.playback_xruns < u64::MAX,
        state.timeline.capture_xruns < u64::MAX,
    ensures
        ({
            let recoverable = error is Xrun || error is LinkedXrun || error is Suspended;
            let (after, found) = calibration.next(state, CycleEvent::Captured(Err(error)));
            let last = calibration.attempt == calibration.config.phase_max_attempts;
            &&& error is Stopped ==> after.phase == (CalibrationPhase::Finished {
                result: Ok(()),
            }) && found == state
            &&& !recoverable && !(error is Stopped) ==> after.phase == (
            CalibrationPhase::Finished { result: Err(error) }) && found == state
            &&& recoverable && !last ==> after.phase == (CalibrationPhase::Recovering { error })
                && found == state
            &&& recoverable && last ==> {
                &&& after.phase == CalibrationPhase::Finished {
                    result: Err(
                        EngineError::LinkedStartupUnstable {
                            attempts: calibration.attempt,
                            minimum_write_nanos: 0,
                        },
                    ),
                }
                &&& !found.timeline.linked_phase_target_met
                &&& found.timeline.linked_phase_attempts == calibration.attempt
                &&& error matches EngineError::LinkedXrun { playback, capture, .. } ==> {
                    &&& (found.timeline.playback_xruns == state.timeline.playback_xruns + 1)
                        == playback
                    &&& (found.timeline.capture_xruns == state.timeline.capture_xruns + 1)
                        == capture
                }
            }
        }),
{
}

} // verus!
