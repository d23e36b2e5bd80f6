//! Measuring the round trip of a device through a cable: pulses are played at known frames and
//! looked for in what is captured.
use vstd::prelude::*;
use crate::arith::{ceiling_div, ceiling_div_u64, clamp_u32, clamp_u64, mul_u32};
use crate::config::HardwareConfig;
use crate::routing::{fill_silence, silence};

verus! {

pub const PULSE_AMPLITUDE: i32 = 536_870_912;

/// A captured sample of this size is a pulse.
pub const PULSE_THRESHOLD: i32 = 268_435_456;

pub const FIRST_PULSE_OFFSET: u64 = 65;

pub const PULSE_INTERVAL_FRAMES: u64 = 4097;

/// What is asked for on top of the profile.
#[derive(Clone, Copy, Debug, PartialEq, Eq, Structural)]
pub struct MeasurementRequest {
    pub periods: u64,
    pub buffer_frames: Option<u32>,
    pub start_frames: Option<u32>,
    pub output_channel: usize,
    pub input_channel: usize,
}

/// Why a measurement is refused or has failed.
#[derive(Clone, Copy, Debug, PartialEq, Eq, Structural)]
pub enum MeasurementError {
    /// The logical and the hardware period differ.
    UnequalPeriods,
    /// The buffer does not hold two or more complete periods.
    BufferFrames,
    /// The start is not between one period and the buffer.
    StartFrames,
    /// A channel is outside its stream.
    ChannelOutside,
    /// A pulse has not come back.
    PulsePending,
    /// Some pulses were not measured, or there were too few of them.
    PulsesMissing { measured: u64, scheduled: u64 },
    PollTimeout,
    /// The poll of a stream reported a failure.
    PollFailed { playback: bool },
}

/// What a measurement works with.
#[derive(Clone, Copy, Debug, PartialEq, Eq, Structural)]
pub struct MeasurementPlan {
    pub period_frames: u32,
    pub buffer_frames: u32,
    pub start_frames: u32,
    pub playback_channels: usize,
    pub capture_channels: usize,
    pub output_channel: usize,
    pub input_channel: usize,
    /// Periods in which pulses are played.
    pub periods: u64,
    /// Periods in all: enough to see the last pulse come back.
    pub total_periods: u64,
}

/// The buffer that a measurement uses.
pub open spec fn buffer_of(config: HardwareConfig, request: MeasurementRequest) -> u32 {
    match request.buffer_frames {
        Some(frames) => frames,
        None => config.buffer_size,
    }
}

/// How many frames are queued at the start: what was asked for, the configured queue, or the whole
/// buffer.
pub open spec fn start_of(config: HardwareConfig, request: MeasurementRequest) -> u32 {
    match request.start_frames {
        Some(frames) => frames,
        None => match config.playback_queue_periods {
            Some(periods) => clamp_u32(config.period_size * periods),
            None => buffer_of(config, request),
        },
    }
}

/// Why a measurement cannot be made.
pub open spec fn measurement_refusal(
    config: HardwareConfig,
    request: MeasurementRequest,
) -> Option<MeasurementError> {
    let period = config.period_size;
    let buffer = buffer_of(config, request);
    let start = start_of(config, request);
    if period != config.hardware_period_size {
        Some(MeasurementError::UnequalPeriods)
    } else if buffer < clamp_u32(period * 2) || (period == 0 && buffer != 0) || (period != 0
        && buffer % period != 0) {
        Some(MeasurementError::BufferFrames)
    } else if start < period || start > buffer {
        Some(MeasurementError::StartFrames)
    } else if request.output_channel >= config.playback.channels || request.input_channel
        >= config.capture.channels {
        Some(MeasurementError::ChannelOutside)
    } else {
        None
    }
}

/// Settles what a measurement works with.
pub fn plan_measurement(config: &HardwareConfig, request: MeasurementRequest) -> (result: Result<
    MeasurementPlan,
    MeasurementError,
>)
    requires
        config.period_size != 0 || buffer_of(*config, request) != 0,
    ensures
        match measurement_refusal(*config, request) {
            Some(e) => result == Err::<MeasurementPlan, MeasurementError>(e),
            None => {
                &&& result matches Ok(plan)
                &&& plan.period_frames == config.period_size
                &&& plan.buffer_frames == buffer_of(*config, request)
                &&& plan.start_frames == start_of(*config, request)
                &&& plan.playback_channels == config.playback.channels
                &&& plan.capture_channels == config.capture.channels
                &&& plan.output_channel == request.output_channel
                &&& plan.input_channel == request.input_channel
                &&& plan.periods == request.periods
                &&& plan.total_periods == clamp_u64(
                    request.periods + ceiling_div(
                        PULSE_INTERVAL_FRAMES as int,
                        config.period_size as int,
                    ) + 2,
                )
                &&& plan.wf()
            },
        },
{
    let period: u32 = config.period_size;
    if period != config.hardware_period_size {
        return Err(MeasurementError::UnequalPeriods);
    }
    let buffer_frames: u32 = match request.buffer_frames {
        Some(frames) => frames,
        None => config.buffer_size,
    };
    if period == 0 || buffer_frames < mul_u32(period, 2) || buffer_frames % period != 0 {
        return Err(MeasurementError::BufferFrames);
    }
    let start_frames: u32 = match request.start_frames {
        Some(frames) => frames,
        None => match config.playback_queue_periods {
            Some(periods) => mul_u32(period, periods),
            None => buffer_frames,
        },
    };
    if start_frames < period || start_frames > buffer_frames {
        return Err(MeasurementError::StartFrames);
    }
    let playback_channels: usize = config.playback.channels as usize;
    let capture_channels: usize = config.capture.channels as usize;
    if request.output_channel >= playback_channels || request.input_channel >= capture_channels {
        return Err(MeasurementError::ChannelOutside);
    }
    let crossing: u64 = ceiling_div_u64(PULSE_INTERVAL_FRAMES, period as u64);
    proof {
        let p = period as int;
        assert((4097 + p - 1) / p <= 4097 + p - 1) by (nonlinear_arith)
            requires
                p >= 1,
        ;
        assert((4097 + p - 1) / p >= 0) by (nonlinear_arith)
            requires
                p >= 1,
        ;
    }
    Ok(
        MeasurementPlan {
            period_frames: period,
            buffer_frames,
            start_frames,
            playback_channels,
            capture_channels,
            output_channel: request.output_channel,
            input_channel: request.input_channel,
            periods: request.periods,
            total_periods: request.periods.saturating_add(crossing + 2),
        },
    )
}

impl MeasurementPlan {
    /// The channels are inside their streams, and a period has frames.
    pub open spec fn wf(self) -> bool {
        &&& self.period_frames > 0
        &&& self.output_channel < self.playback_channels
        &&& self.input_channel < self.capture_channels
    }
}

/// What was measured so far.
#[derive(Clone, Copy, Debug, PartialEq, Eq)]
pub struct Measurements {
    pub scheduled: u64,
    pub measured: u64,
    pub minimum: u64,
    pub maximum: u64,
    pub total: u128,
    pub physical_minimum: u64,
    pub physical_maximum: u64,
    pub physical_total: u128,
    /// The pulse that is on its way: its frame in the stream, and the one at which the device
    /// plays it.
    pub pending_output_frame: Option<(u64, u64)>,
}

/// A sample is as loud as a pulse.
pub open spec fn is_loud(sample: i32) -> bool {
    sample >= PULSE_THRESHOLD || sample <= -PULSE_THRESHOLD
}

/// The first frame from `from` on that holds a pulse which cannot be older than `physical`.
pub open spec fn first_pulse(
    block_start: u64,
    capture: Seq<i32>,
    channels: int,
    channel: int,
    physical: u64,
    from: int,
) -> Option<int>
    decreases capture.len() as int / channels - from,
{
    if from >= capture.len() as int / channels {
        None
    } else if is_loud(capture[from * channels + channel]) && clamp_u64(block_start + from)
        >= physical {
        Some(from)
    } else {
        first_pulse(block_start, capture, channels, channel, physical, from + 1)
    }
}

/// The nearest 128-bit sum.
pub open spec fn sum_u128(a: u128, b: u64) -> u128 {
    if a + b > u128::MAX {
        u128::MAX
    } else {
        (a + b) as u128
    }
}

/// The smallest of the latencies so far.
pub open spec fn smallest(measured: u64, minimum: u64, latency: u64) -> u64 {
    if measured == 1 || latency < minimum {
        latency
    } else {
        minimum
    }
}

fn smallest_so_far(measured: u64, minimum: u64, latency: u64) -> (result: u64)
    ensures
        result == smallest(measured, minimum, latency),
{
    if measured == 1 || latency < minimum {
        latency
    } else {
        minimum
    }
}

fn largest_so_far(maximum: u64, latency: u64) -> (result: u64)
    ensures
        result == crate::timeline::maximum(maximum, latency),
{
    if latency > maximum {
        latency
    } else {
        maximum
    }
}

impl Measurements {
    /// No pulse is measured that was not scheduled, and the extremes are in order.
    pub open spec fn wf(self) -> bool {
        &&& self.measured <= self.scheduled
        &&& self.pending_output_frame is Some && self.scheduled < u64::MAX ==> self.measured
            < self.scheduled
        &&& self.measured > 0 ==> self.minimum <= self.maximum && self.physical_minimum
            <= self.physical_maximum
        &&& self.pending_output_frame is Some ==> (self.pending_output_frame->0).0 <= (
        self.pending_output_frame->0).1
    }

    /// Nothing was scheduled or measured.
    pub open spec fn nothing() -> Measurements {
        Measurements {
            scheduled: 0,
            measured: 0,
            minimum: 0,
            maximum: 0,
            total: 0,
            physical_minimum: 0,
            physical_maximum: 0,
            physical_total: 0,
            pending_output_frame: None,
        }
    }

    /// The record after the pending pulse was captured at a frame.
    pub open spec fn with_pulse(self, capture_frame: u64) -> Measurements {
        let (logical, physical) = self.pending_output_frame->0;
        let latency = clamp_u64(capture_frame - logical);
        let physical_latency = (capture_frame - physical) as u64;
        let measured = clamp_u64(self.measured + 1);
        Measurements {
            measured,
            minimum: smallest(measured, self.minimum, latency),
            maximum: crate::timeline::maximum(self.maximum, latency),
            total: sum_u128(self.total, latency),
            physical_minimum: smallest(measured, self.physical_minimum, physical_latency),
            physical_maximum: crate::timeline::maximum(self.physical_maximum, physical_latency),
            physical_total: sum_u128(self.physical_total, physical_latency),
            pending_output_frame: None,
            ..self
        }
    }

    /// The record after a block was captured.
    pub open spec fn observed(
        self,
        block_start: u64,
        capture: Seq<i32>,
        channels: int,
        channel: int,
    ) -> Measurements {
        match self.pending_output_frame {
            None => self,
            Some((_, physical)) => match first_pulse(
                block_start,
                capture,
                channels,
                channel,
                physical,
                0,
            ) {
                Some(frame) => self.with_pulse(clamp_u64(block_start + frame)),
                None => self,
            },
        }
    }

    /// Whether the next pulse is played in a block.
    pub open spec fn plays_pulse(block_start: u64, frames: int, next_pulse_frame: u64) -> bool {
        block_start <= next_pulse_frame < clamp_u64(block_start + frames)
    }

    /// The record after the pulse at a frame was played.
    pub open spec fn with_scheduled(
        self,
        pulse_frame: u64,
        physical_frame_offset: u64,
    ) -> Measurements {
        Measurements {
            pending_output_frame: Some(
                (pulse_frame, clamp_u64(pulse_frame + physical_frame_offset)),
            ),
            scheduled: clamp_u64(self.scheduled + 1),
            ..self
        }
    }

    pub fn new() -> (measurements: Self)
        ensures
            measurements == Measurements::nothing(),
            measurements.wf(),
    {
        Measurements {
            scheduled: 0,
            measured: 0,
            minimum: 0,
            maximum: 0,
            total: 0,
            physical_minimum: 0,
            physical_maximum: 0,
            physical_total: 0,
            pending_output_frame: None,
        }
    }

    /// Looks for the pending pulse in a captured block.
    pub fn observe_capture(
        &mut self,
        block_start: u64,
        capture: &[i32],
        channels: usize,
        input_channel: usize,
    )
        requires
            old(self).wf(),
            input_channel < channels,
        ensures
            final(self).wf(),
            *final(self) == old(self).observed(
                block_start,
                capture@,
                channels as int,
                input_channel as int,
            ),
    {
        let (logical, physical) = match self.pending_output_frame {
            Some(pending) => pending,
            None => {
                return;
            },
        };
        let samples: usize = capture.len();
        let frames: usize = samples / channels;
        let mut frame: usize = 0;
        while frame < frames
            invariant
                frame <= frames,
                samples == capture@.len(),
                frames == samples / channels,
                input_channel < channels,
                *self == *old(self),
                self.wf(),
                self.pending_output_frame == Some((logical, physical)),
                self.observed(block_start, capture@, channels as int, input_channel as int)
                    == match first_pulse(
                    block_start,
                    capture@,
                    channels as int,
                    input_channel as int,
                    physical,
                    frame as int,
                ) {
                    Some(found) => self.with_pulse(clamp_u64(block_start + found)),
                    None => *self,
                },
            decreases frames - frame,
        {
            proof {
                let n = channels as int;
                vstd::arithmetic::div_mod::lemma_fundamental_div_mod(samples as int, n);
                assert(frame * n + n <= frames * n) by (nonlinear_arith)
                    requires
                        frame + 1 <= frames,
                        n > 0,
                ;
                assert(frames * n <= samples) by (nonlinear_arith)
                    requires
                        samples == n * frames + samples as int % n,
                        samples as int % n >= 0,
                ;
                assert(frame * n >= 0) by (nonlinear_arith)
                    requires
                        frame >= 0,
                        n > 0,
                ;
            }
            let sample: i32 = capture[frame * channels + input_channel];
            let capture_frame: u64 = block_start.saturating_add(frame as u64);
            if (sample >= PULSE_THRESHOLD || sample <= -PULSE_THRESHOLD) && capture_frame
                >= physical {
                let latency: u64 = capture_frame.saturating_sub(logical);
                let physical_latency: u64 = capture_frame - physical;
                self.pending_output_frame = None;
                self.measured = self.measured.saturating_add(1);
                self.minimum = smallest_so_far(self.measured, self.minimum, latency);
                self.maximum = largest_so_far(self.maximum, latency);
                self.total = self.total.saturating_add(latency as u128);
                self.physical_minimum = smallest_so_far(
                    self.measured,
                    self.physical_minimum,
                    physical_latency,
                );
                self.physical_maximum = largest_so_far(self.physical_maximum, physical_latency);
                self.physical_total = self.physical_total.saturating_add(physical_latency as u128);
                return;
            }
            frame = frame + 1;
        }
    }

    /// Plays the next pulse into a block, if its frame is there.
    pub fn emit_playback(
        &mut self,
        block_start: u64,
        playback: &mut [i32],
        channels: usize,
        output_channel: usize,
        physical_frame_offset: u64,
        next_pulse_frame: &mut u64,
    )
        requires
            old(self).wf(),
            output_channel < channels,
        ensures
            final(self).wf(),
            if Measurements::plays_pulse(
                block_start,
                old(playback)@.len() as int / channels as int,
                *old(next_pulse_frame),
            ) {
                &&& final(playback)@ == old(playback)@.update(
                    (*old(next_pulse_frame) - block_start) * channels + output_channel,
                    PULSE_AMPLITUDE,
                )
                &&& *final(self) == old(self).with_scheduled(
                    *old(next_pulse_frame),
                    physical_frame_offset,
                )
                &&& *final(next_pulse_frame) == clamp_u64(
                    *old(next_pulse_frame) + PULSE_INTERVAL_FRAMES,
                )
            } else {
                &&& final(playback)@ == old(playback)@
                &&& *final(self) == *old(self)
                &&& *final(next_pulse_frame) == *old(next_pulse_frame)
            },
    {
        let samples: usize = playback.len();
        let frames: usize = samples / channels;
        let block_end: u64 = block_start.saturating_add(frames as u64);
        if *next_pulse_frame < block_start || *next_pulse_frame >= block_end {
            return;
        }
        let frame: usize = (*next_pulse_frame - block_start) as usize;
        proof {
            let n = channels as int;
            vstd::arithmetic::div_mod::lemma_fundamental_div_mod(samples as int, n);
            assert(frame * n + n <= frames * n) by (nonlinear_arith)
                requires
                    frame + 1 <= frames,
                    n > 0,
            ;
            assert(frames * n <= samples) by (nonlinear_arith)
                requires
                    samples == n * frames + samples as int % n,
                    samples as int % n >= 0,
            ;
            assert(frame * n >= 0) by (nonlinear_arith)
                requires
                    frame >= 0,
                    n > 0,
            ;
        }
        playback[frame * channels + output_channel] = PULSE_AMPLITUDE;
        self.pending_output_frame = Some(
            (*next_pulse_frame, next_pulse_frame.saturating_add(physical_frame_offset)),
        );
        self.scheduled = self.scheduled.saturating_add(1);
        *next_pulse_frame = next_pulse_frame.saturating_add(PULSE_INTERVAL_FRAMES);
    }

    /// Why the measurement as a whole has failed, if it has.
    pub open spec fn failure(self) -> Option<MeasurementError> {
        if self.pending_output_frame is Some {
            Some(MeasurementError::PulsePending)
        } else if self.measured != self.scheduled || self.measured < 2 {
            Some(
                MeasurementError::PulsesMissing {
                    measured: self.measured,
                    scheduled: self.scheduled,
                },
            )
        } else {
            None
        }
    }

    /// Whether every pulse came back, and there were two or more.
    pub fn check(&self) -> (result: Result<(), MeasurementError>)
        ensures
            match self.failure() {
                Some(e) => result == Err::<(), MeasurementError>(e),
                None => result is Ok,
            },
    {
        if self.pending_output_frame.is_some() {
            return Err(MeasurementError::PulsePending);
        }
        if self.measured != self.scheduled || self.measured < 2 {
            return Err(
                MeasurementError::PulsesMissing {
                    measured: self.measured,
                    scheduled: self.scheduled,
                },
            );
        }
        Ok(())
    }
}

/// What a poll says of one stream.
#[derive(Clone, Copy, Debug, PartialEq, Eq, Structural)]
pub struct StreamEvents {
    pub ready: bool,
    pub failed: bool,
}

/// Which streams of a pair are ready.
#[derive(Clone, Copy, Debug, PartialEq, Eq, Structural)]
pub struct PairReadiness {
    pub playback_ready: bool,
    pub capture_ready: bool,
}

impl PairReadiness {
    pub fn new() -> (readiness: Self)
        ensures
            !readiness.playback_ready,
            !readiness.capture_ready,
    {
        PairReadiness { playback_ready: false, capture_ready: false }
    }

    /// Takes in a poll of the streams that are not ready yet; `polled` counts the descriptors with
    /// events. A stream that is ready is not polled again.
    pub fn polled(
        &mut self,
        polled: usize,
        playback: StreamEvents,
        capture: StreamEvents,
    ) -> (result: Result<bool, MeasurementError>)
        ensures
            if polled == 0 {
                &&& result == Err::<bool, MeasurementError>(MeasurementError::PollTimeout)
                &&& *final(self) == *old(self)
            } else if !old(self).playback_ready && playback.failed {
                &&& result == Err::<bool, MeasurementError>(
                    MeasurementError::PollFailed { playback: true },
                )
                &&& *final(self) == *old(self)
            } else if !old(self).capture_ready && capture.failed {
                &&& result == Err::<bool, MeasurementError>(
                    MeasurementError::PollFailed { playback: false },
                )
                &&& final(self).capture_ready == old(self).capture_ready
                &&& final(self).playback_ready == (old(self).playback_ready || playback.ready)
            } else {
                &&& result == Ok::<bool, MeasurementError>(
                    final(self).playback_ready && final(self).capture_ready,
                )
                &&& final(self).playback_ready == (old(self).playback_ready || playback.ready)
                &&& final(self).capture_ready == (old(self).capture_ready || capture.ready)
            },
    {
        if polled == 0 {
            return Err(MeasurementError::PollTimeout);
        }
        if !self.playback_ready {
            if playback.failed {
                return Err(MeasurementError::PollFailed { playback: true });
            }
            self.playback_ready = playback.ready;
        }
        if !self.capture_ready {
            if capture.failed {
                return Err(MeasurementError::PollFailed { playback: false });
            }
            self.capture_ready = capture.ready;
        }
        Ok(self.playback_ready && self.capture_ready)
    }
}

/// Where a measurement stands.
#[derive(Clone, Copy, Debug, PartialEq, Eq, Structural)]
pub enum MeasurementPhase {
    /// Wait until both streams have frames.
    Polling,
    /// Read one period.
    Reading,
    /// Write one period.
    Writing,
    Finished,
}

/// A running measurement.
#[derive(Clone, Copy, Debug, PartialEq, Eq)]
pub struct MeasurementRun {
    pub plan: MeasurementPlan,
    pub measurements: Measurements,
    pub playback_position: u64,
    pub capture_position: u64,
    pub next_pulse_frame: u64,
    pub processed_periods: u64,
    /// Frames that both streams are known to have.
    pub available: usize,
    pub phase: MeasurementPhase,
}

impl MeasurementRun {
    /// A period is moved only while both streams have its frames, and the measurement is finished
    /// exactly when every period was processed.
    pub open spec fn wf(self) -> bool {
        &&& self.plan.wf()
        &&& self.measurements.wf()
        &&& self.phase == MeasurementPhase::Finished <==> self.processed_periods
            >= self.plan.total_periods
        &&& self.phase == MeasurementPhase::Reading || self.phase == MeasurementPhase::Writing
            ==> self.available >= self.plan.period_frames && self.processed_periods
            < self.plan.total_periods
    }

    /// What follows when both streams have `available` frames.
    pub open spec fn phase_for(self, available: usize) -> MeasurementPhase {
        if self.processed_periods >= self.plan.total_periods {
            MeasurementPhase::Finished
        } else if available >= self.plan.period_frames {
            MeasurementPhase::Reading
        } else {
            MeasurementPhase::Polling
        }
    }

    fn next_phase(&self) -> (phase: MeasurementPhase)
        ensures
            phase == self.phase_for(self.available),
    {
        if self.processed_periods >= self.plan.total_periods {
            MeasurementPhase::Finished
        } else if self.available >= self.plan.period_frames as usize {
            MeasurementPhase::Reading
        } else {
            MeasurementPhase::Polling
        }
    }

    pub fn new(plan: MeasurementPlan) -> (run: Self)
        requires
            plan.wf(),
        ensures
            run.wf(),
            run.plan == plan,
            run.measurements == Measurements::nothing(),
            run.playback_position == 0,
            run.capture_position == 0,
            run.next_pulse_frame == FIRST_PULSE_OFFSET,
            run.processed_periods == 0,
            run.available == 0,
            run.phase == if plan.total_periods == 0 {
                MeasurementPhase::Finished
            } else {
                MeasurementPhase::Polling
            },
    {
        let mut run = MeasurementRun {
            plan,
            measurements: Measurements::new(),
            playback_position: 0,
            capture_position: 0,
            next_pulse_frame: FIRST_PULSE_OFFSET,
            processed_periods: 0,
            available: 0,
            phase: MeasurementPhase::Polling,
        };
        run.phase = run.next_phase();
        run
    }

    /// Both streams were found ready, with the given frames.
    pub fn streams_ready(&mut self, playback_available: usize, capture_available: usize)
        requires
            old(self).wf(),
            old(self).phase == MeasurementPhase::Polling,
        ensures
            final(self).wf(),
            final(self).available == if playback_available < capture_available {
                playback_available
            } else {
                capture_available
            },
            *final(self) == (MeasurementRun {
                available: final(self).available,
                phase: old(self).phase_for(final(self).available),
                ..*old(self)
            }),
    {
        self.available = if playback_available < capture_available {
            playback_available
        } else {
            capture_available
        };
        self.phase = self.next_phase();
    }

    /// One period was captured: looks for the pulse and prepares the period to be written.
    pub fn captured(&mut self, capture: &[i32], playback: &mut [i32])
        requires
            old(self).wf(),
            old(self).phase == MeasurementPhase::Reading,
        ensures
            final(self).wf(),
            ({
                let plan = old(self).plan;
                let seen = old(self).measurements.observed(
                    old(self).capture_position,
                    capture@,
                    plan.capture_channels as int,
                    plan.input_channel as int,
                );
                let silent = silence(old(playback)@.len());
                let plays = old(self).processed_periods < plan.periods && Measurements::plays_pulse(
                    old(self).playback_position,
                    old(playback)@.len() as int / plan.playback_channels as int,
                    old(self).next_pulse_frame,
                );
                &&& *final(self) == MeasurementRun {
                    measurements: if plays {
                        seen.with_scheduled(
                            old(self).next_pulse_frame,
                            plan.start_frames as u64,
                        )
                    } else {
                        seen
                    },
                    next_pulse_frame: if plays {
                        clamp_u64(old(self).next_pulse_frame + PULSE_INTERVAL_FRAMES)
                    } else {
                        old(self).next_pulse_frame
                    },
                    capture_position: clamp_u64(old(self).capture_position + plan.period_frames),
                    phase: MeasurementPhase::Writing,
                    ..*old(self)
                }
                &&& final(playback)@ == if plays {
                    silent.update(
                        (old(self).next_pulse_frame - old(self).playback_position)
                            * plan.playback_channels + plan.output_channel,
                        PULSE_AMPLITUDE,
                    )
                } else {
                    silent
                }
            }),
    {
        self.measurements.observe_capture(
            self.capture_position,
            capture,
            self.plan.capture_channels,
            self.plan.input_channel,
        );
        self.capture_position = self.capture_position.saturating_add(
            self.plan.period_frames as u64,
        );
        fill_silence(playback);
        if self.processed_periods < self.plan.periods {
            let mut next_pulse_frame: u64 = self.next_pulse_frame;
            self.measurements.emit_playback(
                self.playback_position,
                playback,
                self.plan.playback_channels,
                self.plan.output_channel,
                self.plan.start_frames as u64,
                &mut next_pulse_frame,
            );
            self.next_pulse_frame = next_pulse_frame;
        }
        self.phase = MeasurementPhase::Writing;
    }

    /// One period was written.
    pub fn written(&mut self)
        requires
            old(self).wf(),
            old(self).phase == MeasurementPhase::Writing,
        ensures
            final(self).wf(),
            final(self).processed_periods == old(self).processed_periods + 1,
            final(self).available == old(self).available - old(self).plan.period_frames,
            final(self).playback_position == clamp_u64(
                old(self).playback_position + old(self).plan.period_frames,
            ),
            final(self).phase == final(self).phase_for(final(self).available),
            *final(self) == (MeasurementRun {
                processed_periods: final(self).processed_periods,
                available: final(self).available,
                playback_position: final(self).playback_position,
                phase: final(self).phase,
                ..*old(self)
            }),
    {
        self.playback_position = self.playback_position.saturating_add(
            self.plan.period_frames as u64,
        );
        self.processed_periods = self.processed_periods + 1;
        self.available = self.available - self.plan.period_frames as usize;
        self.phase = self.next_phase();
    }
}

/// A pulse that is played comes back after exactly the frames between where it was put and where
/// it is seen, and never before the device has played it.
pub proof fn a_pulse_is_measured_where_it_is_seen(
    measurements: Measurements,
    pulse_frame: u64,
    offset: u64,
    capture_frame: u64,
)
    requires
        measurements.wf(),
        measurements.measured < u64::MAX,
        pulse_frame + offset <= capture_frame,
    ensures
        ({
            let after = measurements.with_scheduled(pulse_frame, offset).with_pulse(capture_frame);
            &&& after.pending_output_frame is None
            &&& after.measured == measurements.measured + 1
            &&& after.total == sum_u128(measurements.total, (capture_frame - pulse_frame) as u64)
            &&& after.physical_total == sum_u128(
                measurements.physical_total,
                (capture_frame - pulse_frame - offset) as u64,
            )
            &&& after.minimum <= capture_frame - pulse_frame <= after.maximum
        }),
{
}

/// A pulse that came back: the frame at which it was put into the stream, the frames that were
/// queued before it, and the frame at which it was captured.
pub struct Pulse {
    pub frame: u64,
    pub offset: u64,
    pub captured: u64,
}

impl Pulse {
    /// The pulse was captured no earlier than the device could play it.
    pub open spec fn possible(self) -> bool {
        self.frame + self.offset <= self.captured
    }
}

/// What is measured when pulses are played and come back, one after another.
pub open spec fn after_pulses(pulses: Seq<Pulse>) -> Measurements
    decreases pulses.len(),
{
    if pulses.len() == 0 {
        Measurements::nothing()
    } else {
        after_pulses(pulses.drop_last()).with_scheduled(
            pulses.last().frame,
            pulses.last().offset,
        ).with_pulse(pulses.last().captured)
    }
}

/// The round trips of some pulses together, in frames.
pub open spec fn total_round_trip(pulses: Seq<Pulse>) -> int
    decreases pulses.len(),
{
    if pulses.len() == 0 {
        0
    } else {
        total_round_trip(pulses.drop_last()) + (pulses.last().captured - pulses.last().frame)
    }
}

/// The frames that the device itself took for some pulses together.
pub open spec fn total_physical_trip(pulses: Seq<Pulse>) -> int
    decreases pulses.len(),
{
    if pulses.len() == 0 {
        0
    } else {
        total_physical_trip(pulses.drop_last()) + (pulses.last().captured - pulses.last().frame
            - pulses.last().offset)
    }
}

proof fn lemma_totals_are_bounded(pulses: Seq<Pulse>)
    requires
        forall|i: int| 0 <= i < pulses.len() ==> (#[trigger] pulses[i]).possible(),
    ensures
        0 <= total_physical_trip(pulses) <= total_round_trip(pulses) <= pulses.len()
            * 0x1_0000_0000_0000_0000,
    decreases pulses.len(),
{
    if pulses.len() > 0 {
        assert forall|i: int| 0 <= i < pulses.drop_last().len() implies (
        #[trigger] pulses.drop_last()[i]).possible() by {
            assert(pulses.drop_last()[i] == pulses[i]);
        }
        lemma_totals_are_bounded(pulses.drop_last());
        assert(pulses[pulses.len() - 1].possible());
    }
}

/// Over any number of pulses that came back, the reported minimum is the round trip of one of them
/// and not above that of any, the maximum is that of one of them and not below that of any, and
/// the total is their sum, so that total and count give the mean. The same holds of the frames
/// that the device itself took. Every pulse is counted once, and none is left pending.
pub proof fn extremes_and_total_are_those_of_the_pulses(pulses: Seq<Pulse>, i: int)
    requires
        0 <= i < pulses.len() < u64::MAX,
        forall|k: int| 0 <= k < pulses.len() ==> (#[trigger] pulses[k]).possible(),
    ensures
        ({
            let report = after_pulses(pulses);
            let trip = pulses[i].captured - pulses[i].frame;
            let physical = trip - pulses[i].offset;
            &&& report.measured == pulses.len()
            &&& report.scheduled == pulses.len()
            &&& report.pending_output_frame is None
            &&& report.minimum <= trip <= report.maximum
            &&& report.physical_minimum <= physical <= report.physical_maximum
            &&& report.total == total_round_trip(pulses)
            &&& report.physical_total == total_physical_trip(pulses)
        }),
        exists|k: int|
            0 <= k < pulses.len() && after_pulses(pulses).minimum == (#[trigger] pulses[k]).captured
                - pulses[k].frame,
        exists|k: int|
            0 <= k < pulses.len() && after_pulses(pulses).maximum == (#[trigger] pulses[k]).captured
                - pulses[k].frame,
        exists|k: int|
            0 <= k < pulses.len() && after_pulses(pulses).physical_minimum == (
            #[trigger] pulses[k]).captured - pulses[k].frame - pulses[k].offset,
        exists|k: int|
            0 <= k < pulses.len() && after_pulses(pulses).physical_maximum == (
            #[trigger] pulses[k]).captured - pulses[k].frame - pulses[k].offset,
    decreases pulses.len(),
{
    let earlier = pulses.drop_last();
    let last = pulses.len() - 1;
    let before = after_pulses(earlier);
    let report = after_pulses(pulses);
    assert(pulses[last].possible());
    assert forall|k: int| 0 <= k < earlier.len() implies (#[trigger] earlier[k]).possible() by {
        assert(earlier[k] == pulses[k]);
    }
    lemma_totals_are_bounded(pulses);
    lemma_totals_are_bounded(earlier);
    assert(pulses.len() * 0x1_0000_0000_0000_0000 <= u128::MAX) by (nonlinear_arith)
        requires
            pulses.len() < u64::MAX,
    ;
    if earlier.len() == 0 {
        assert(pulses[last] == pulses.last());
    } else {
        let j = if i < last {
            i
        } else {
            0
        };
        extremes_and_total_are_those_of_the_pulses(earlier, j);
        assert(earlier[j] == pulses[j]);
        let low = choose|k: int|
            0 <= k < earlier.len() && before.minimum == (#[trigger] earlier[k]).captured
                - earlier[k].frame;
        let high = choose|k: int|
            0 <= k < earlier.len() && before.maximum == (#[trigger] earlier[k]).captured
                - earlier[k].frame;
        let physical_low = choose|k: int|
            0 <= k < earlier.len() && before.physical_minimum == (#[trigger] earlier[k]).captured
                - earlier[k].frame - earlier[k].offset;
        let physical_high = choose|k: int|
            0 <= k < earlier.len() && before.physical_maximum == (#[trigger] earlier[k]).captured
                - earlier[k].frame - earlier[k].offset;
        assert(earlier[low] == pulses[low]);
        assert(earlier[high] == pulses[high]);
        assert(earlier[physical_low] == pulses[physical_low]);
        assert(earlier[physical_high] == pulses[physical_high]);
        assert(pulses[last] == pulses.last());
    }
}

/// A further pulse never raises a minimum and never lowers a maximum.
pub proof fn a_further_pulse_only_widens_the_extremes(measurements: Measurements, captured: u64)
    requires
        measurements.wf(),
        measurements.pending_output_frame is Some,
        0 < measurements.measured < u64::MAX,
        (measurements.pending_output_frame->0).1 <= captured,
    ensures
        ({
            let after = measurements.with_pulse(captured);
            &&& after.minimum <= measurements.minimum
            &&& after.maximum >= measurements.maximum
            &&& after.physical_minimum <= measurements.physical_minimum
            &&& after.physical_maximum >= measurements.physical_maximum
        }),
{
}

/// A pulse is seen in the first captured frame that is loud and not older than the frame at which
/// the device played it: that frame less the frame of the pulse is its round trip. Quiet frames
/// and frames before it are passed over, and a block without such a frame changes nothing.
pub proof fn the_first_loud_frame_ends_the_round_trip(
    measurements: Measurements,
    block_start: u64,
    capture: Seq<i32>,
    channels: usize,
    channel: usize,
    frame: int,
)
    requires
        measurements.wf(),
        measurements.measured < u64::MAX,
        channel < channels,
        measurements.pending_output_frame is Some,
        block_start + capture.len() <= u64::MAX,
        0 <= frame <= capture.len() as int / channels as int,
        forall|k: int|
            0 <= k < frame && block_start + k >= (measurements.pending_output_frame->0).1
                ==> -268_435_456 < #[trigger] capture[k * channels + channel] < 268_435_456,
        frame < capture.len() as int / channels as int ==> {
            &&& capture[frame * channels + channel] >= 268_435_456 || capture[frame * channels
                + channel] <= -268_435_456
            &&& block_start + frame >= (measurements.pending_output_frame->0).1
        },
    ensures
        ({
            let after = measurements.observed(
                block_start,
                capture,
                channels as int,
                channel as int,
            );
            let (logical, physical) = measurements.pending_output_frame->0;
            if frame < capture.len() as int / channels as int {
                &&& after.pending_output_frame is None
                &&& after.measured == measurements.measured + 1
                &&& after.scheduled == measurements.scheduled
                &&& measurements.measured == 0 ==> after.minimum == block_start + frame - logical
                    && after.physical_minimum == block_start + frame - physical
                &&& measurements.total + (block_start + frame) <= u128::MAX ==> after.total
                    == measurements.total + (block_start + frame - logical)
                &&& measurements.physical_total + (block_start + frame) <= u128::MAX
                    ==> after.physical_total == measurements.physical_total + (block_start + frame
                    - physical)
            } else {
                after == measurements
            }
        }),
{
    let n = channels as int;
    let physical = (measurements.pending_output_frame->0).1;
    assert(capture.len() as int / n <= capture.len()) by (nonlinear_arith)
        requires
            n >= 1,
    ;
    lemma_quiet_frames_are_passed_over(
        block_start,
        capture,
        n,
        channel as int,
        physical,
        0,
        frame,
    );
}

proof fn lemma_quiet_frames_are_passed_over(
    block_start: u64,
    capture: Seq<i32>,
    channels: int,
    channel: int,
    physical: u64,
    from: int,
    frame: int,
)
    requires
        0 <= from <= frame <= capture.len() as int / channels,
        block_start + capture.len() as int / channels <= u64::MAX,
        forall|k: int|
            0 <= k < frame && block_start + k >= physical ==> -268_435_456
                < #[trigger] capture[k * channels + channel] < 268_435_456,
        frame < capture.len() as int / channels ==> {
            &&& capture[frame * channels + channel] >= 268_435_456 || capture[frame * channels
                + channel] <= -268_435_456
            &&& block_start + frame >= physical
        },
    ensures
        first_pulse(block_start, capture, channels, channel, physical, from) == if frame
            < capture.len() as int / channels {
            Some(frame)
        } else {
            None
        },
    decreases frame - from,
{
    if from < frame {
        if block_start + from >= physical {
            assert(-268_435_456 < capture[from * channels + channel] < 268_435_456);
        }
        lemma_quiet_frames_are_passed_over(
            block_start,
            capture,
            channels,
            channel,
            physical,
            from + 1,
            frame,
        );
    }
}

/// A measurement is made exactly where the two periods are one, the buffer holds two or more whole
/// periods, the start lies between one period and the buffer, and both channels exist. Each refusal
/// names the first of these that fails.
pub proof fn a_measurement_is_refused_for_what_is_wrong(
    config: HardwareConfig,
    request: MeasurementRequest,
)
    requires
        config.period_size > 0,
        config.period_size * 2 <= u32::MAX,
    ensures
        ({
            let refusal = measurement_refusal(config, request);
            let period = config.period_size;
            let buffer = buffer_of(config, request);
            let start = start_of(config, request);
            let one_period = period == config.hardware_period_size;
            let whole = buffer >= period + period && buffer % period == 0;
            let deep = period <= start <= buffer;
            let channels = request.output_channel < config.playback.channels
                && request.input_channel < config.capture.channels;
            &&& refusal is None <==> one_period && whole && deep && channels
            &&& refusal == Some(MeasurementError::UnequalPeriods) <==> !one_period
            &&& refusal == Some(MeasurementError::BufferFrames) <==> one_period && !whole
            &&& refusal == Some(MeasurementError::StartFrames) <==> one_period && whole && !deep
            &&& refusal == Some(MeasurementError::ChannelOutside) <==> one_period && whole && deep
                && !channels
        }),
        request.buffer_frames matches Some(frames) ==> buffer_of(config, request) == frames,
        request.buffer_frames is None ==> buffer_of(config, request) == config.buffer_size,
        request.start_frames matches Some(frames) ==> start_of(config, request) == frames,
        request.start_frames is None && config.playback_queue_periods is None ==> start_of(
            config,
            request,
        ) == buffer_of(config, request),
        request.start_frames is None && config.playback_queue_periods is Some && config.period_size
            * config.playback_queue_periods->0 <= u32::MAX ==> start_of(config, request)
            == config.period_size * config.playback_queue_periods->0,
{
}

/// The pulse that is played is loud enough to be seen, silence is not, and a sample and its
/// opposite are as loud.
pub proof fn a_pulse_is_loud_and_silence_is_not(sample: i32)
    ensures
        is_loud(PULSE_AMPLITUDE),
        !is_loud(0),
        sample > i32::MIN ==> is_loud(sample) == is_loud((-sample) as i32),
        is_loud(sample) <==> sample >= 268_435_456 || sample <= -268_435_456,
{
}

/// A pulse is played in the block that its frame falls into and in no other.
pub proof fn a_pulse_is_played_where_its_frame_falls(
    block_start: u64,
    frames: int,
    pulse_frame: u64,
)
    requires
        frames >= 0,
        block_start + frames <= u64::MAX,
    ensures
        Measurements::plays_pulse(block_start, frames, pulse_frame) <==> 0 <= pulse_frame
            - block_start < frames,
{
}

/// A measurement has failed as long as a pulse is on its way, or where pulses were lost or were
/// fewer than two, and otherwise it has not.
pub proof fn a_measurement_needs_every_pulse_back(measurements: Measurements)
    ensures
        measurements.failure() is None <==> measurements.pending_output_frame is None
            && measurements.measured == measurements.scheduled && measurements.measured >= 2,
        measurements.pending_output_frame is Some ==> measurements.failure() == Some(
            MeasurementError::PulsePending,
        ),
        measurements.pending_output_frame is None && measurements.failure() is Some
            ==> measurements.failure() == Some(
            MeasurementError::PulsesMissing {
                measured: measurements.measured,
                scheduled: measurements.scheduled,
            },
        ),
{
}

} // verus!
