//! The duplex engine: what is set up, started, run and stopped.
//!
//! The engine decides; the device is in the hands of its driver. Everything that the driver needs
//! to know is computed from the profile when the engine is opened, and every change of the
//! engine's own state follows from what the driver reports.
use vstd::prelude::*;
use crate::arith::{min_i64, mul_i64};
use crate::config::{HardwareConfig, Profile, SampleFormat};
use crate::control::WorkerControl;
use crate::cycle::capture::CaptureWorkerConfig;
use crate::cycle::playback::PlaybackWorkerConfig;
use crate::cycle::restart::{StreamOp, StreamPlan, StreamStep};
use crate::cycle::{frame_samples, LinkedProConfig};
use crate::error::{alsa_failure, ConfigError, DeviceFailure, EngineError, StreamDirection};
use crate::routing::RoutingTable;
use crate::timeline::{HardwareStats, HardwareTimeline};
use crate::timing::{
    direct_linked_start_frames, linked_ahead_start_frames, linked_start_frames,
    linked_zero_lead_playback_floor,
};

verus! {

/// Sizes that follow from the configuration.
#[derive(Clone, Copy, Debug, PartialEq, Eq, Structural)]
pub struct EngineGeometry {
    pub period: i64,
    pub buffer: i64,
    pub hardware_period: i64,
    pub playback_channels: usize,
    pub capture_channels: usize,
    pub playback_period_samples: usize,
    pub capture_period_samples: usize,
    pub playback_buffer_samples: usize,
    pub playback_start_frames: i64,
    pub playback_start_samples: usize,
    pub playback_avail_min: i64,
    pub playback_start_threshold: i64,
    pub capture_avail_min: i64,
    pub capture_start_threshold: i64,
}

/// What a stream is asked for, or settled on.
#[derive(Clone, Copy, Debug, PartialEq, Eq, Structural)]
pub struct StreamParameters {
    pub rate: u32,
    pub period: i64,
    pub buffer: i64,
    pub channels: u32,
    /// The device's number for the sample format.
    pub format: i32,
    /// The device's number for the way samples are accessed.
    pub access: i32,
}

/// Signed 32-bit little-endian samples.
pub const FORMAT_S32_LE: i32 = 10;

/// Memory-mapped, interleaved samples.
pub const ACCESS_MMAP_INTERLEAVED: i32 = 0;

/// The samples of some frames, as far as they can be counted.
pub open spec fn counted_samples(frames: u32, channels: u32) -> Result<usize, EngineError> {
    if frames * channels <= usize::MAX {
        Ok((frames * channels) as usize)
    } else {
        Err(EngineError::InvalidConfig(ConfigError::Reason("sample count does not fit usize")))
    }
}

pub fn sample_count(frames: u32, channels: u32) -> (result: Result<usize, EngineError>)
    ensures
        result == counted_samples(frames, channels),
{
    match (frames as usize).checked_mul(channels as usize) {
        Some(samples) => Ok(samples),
        None => Err(
            EngineError::InvalidConfig(ConfigError::Reason("sample count does not fit usize")),
        ),
    }
}

pub fn ensure_supported_format(format: SampleFormat, direction: StreamDirection) -> (result: Result<
    (),
    EngineError,
>)
    ensures
        result == if format == SampleFormat::S32Le {
            Ok::<(), EngineError>(())
        } else {
            Err::<(), EngineError>(
                EngineError::InvalidConfig(ConfigError::UnsupportedFormat(direction)),
            )
        },
{
    match format {
        SampleFormat::S32Le => Ok(()),
        _ => Err(EngineError::InvalidConfig(ConfigError::UnsupportedFormat(direction))),
    }
}

/// Frames that are queued for playback, by the configuration.
pub open spec fn playback_queue(config: HardwareConfig) -> int {
    match config.playback_queue_periods {
        Some(periods) => crate::arith::least(
            config.period_size * periods,
            u32::MAX as int,
        ),
        None => config.buffer_size as int,
    }
}

/// Frames that playback is primed with before an unlinked start.
pub open spec fn prime_frames(config: HardwareConfig) -> int {
    if config.playback_timer_scheduling {
        crate::arith::least(config.buffer_size as int, config.period_size * 2)
    } else {
        config.buffer_size as int
    }
}

/// The geometry that a configuration gives, or why it gives none.
pub open spec fn geometry_of(config: HardwareConfig) -> Result<EngineGeometry, EngineError> {
    if config.playback.format != SampleFormat::S32Le {
        Err(
            EngineError::InvalidConfig(ConfigError::UnsupportedFormat(StreamDirection::Playback)),
        )
    } else if config.capture.format != SampleFormat::S32Le {
        Err(EngineError::InvalidConfig(ConfigError::UnsupportedFormat(StreamDirection::Capture)))
    } else if config.period_size * config.playback.channels > usize::MAX || config.period_size
        * config.capture.channels > usize::MAX || config.buffer_size * config.playback.channels
        > usize::MAX {
        Err(EngineError::InvalidConfig(ConfigError::Reason("sample count does not fit usize")))
    } else {
        Ok(
            EngineGeometry {
                period: config.period_size as i64,
                buffer: config.buffer_size as i64,
                hardware_period: config.hardware_period_size as i64,
                playback_channels: config.playback.channels as usize,
                capture_channels: config.capture.channels as usize,
                playback_period_samples: (config.period_size * config.playback.channels) as usize,
                capture_period_samples: (config.period_size * config.capture.channels) as usize,
                playback_buffer_samples: (config.buffer_size * config.playback.channels) as usize,
                playback_start_frames: prime_frames(config) as i64,
                playback_start_samples: (prime_frames(config) * config.playback.channels) as usize,
                playback_avail_min: if config.event_driven_linked_pro
                    || config.playback_timer_scheduling {
                    config.period_size as i64
                } else {
                    (config.buffer_size - playback_queue(config) + config.period_size) as i64
                },
                playback_start_threshold: if config.event_driven_linked_pro {
                    0
                } else if config.playback_timer_scheduling || config.duplex_link {
                    i64::MAX
                } else {
                    config.buffer_size as i64
                },
                capture_avail_min: if config.event_driven_linked_pro {
                    config.period_size as i64
                } else {
                    config.hardware_period_size as i64
                },
                capture_start_threshold: if config.event_driven_linked_pro {
                    0
                } else {
                    config.buffer_size as i64
                },
            },
        )
    }
}

fn engine_geometry(config: &HardwareConfig) -> (result: Result<EngineGeometry, EngineError>)
    ensures
        result == geometry_of(*config),
{
    if let Err(error) = ensure_supported_format(config.playback.format, StreamDirection::Playback) {
        return Err(error);
    }
    if let Err(error) = ensure_supported_format(config.capture.format, StreamDirection::Capture) {
        return Err(error);
    }
    let period: i64 = config.period_size as i64;
    let buffer: i64 = config.buffer_size as i64;
    let queue: i64 = match config.playback_queue_periods {
        Some(periods) => match config.period_size.checked_mul(periods) {
            Some(frames) => frames as i64,
            None => u32::MAX as i64,
        },
        None => buffer,
    };
    let playback_avail_min: i64 = if config.event_driven_linked_pro
        || config.playback_timer_scheduling {
        period
    } else {
        buffer - queue + period
    };
    let playback_period_samples: usize = match sample_count(
        config.period_size,
        config.playback.channels,
    ) {
        Ok(samples) => samples,
        Err(error) => {
            return Err(error);
        },
    };
    let capture_period_samples: usize = match sample_count(
        config.period_size,
        config.capture.channels,
    ) {
        Ok(samples) => samples,
        Err(error) => {
            return Err(error);
        },
    };
    let playback_buffer_samples: usize = match sample_count(
        config.buffer_size,
        config.playback.channels,
    ) {
        Ok(samples) => samples,
        Err(error) => {
            return Err(error);
        },
    };
    let playback_start_frames: i64 = if config.playback_timer_scheduling {
        min_i64(buffer, mul_i64(period, 2))
    } else {
        buffer
    };
    proof {
        let frames = playback_start_frames as int;
        let channels = config.playback.channels as int;
        assert(frames * channels <= config.buffer_size * channels) by (nonlinear_arith)
            requires
                frames <= config.buffer_size,
                channels >= 0,
        ;
        assert(frames * channels >= 0) by (nonlinear_arith)
            requires
                frames >= 0,
                channels >= 0,
        ;
    }
    let playback_start_samples: usize = (playback_start_frames as usize) * (
    config.playback.channels as usize);
    Ok(
        EngineGeometry {
            period,
            buffer,
            hardware_period: config.hardware_period_size as i64,
            playback_channels: config.playback.channels as usize,
            capture_channels: config.capture.channels as usize,
            playback_period_samples,
            capture_period_samples,
            playback_buffer_samples,
            playback_start_frames,
            playback_start_samples,
            playback_avail_min,
            playback_start_threshold: if config.event_driven_linked_pro {
                0
            } else if config.playback_timer_scheduling || config.duplex_link {
                i64::MAX
            } else {
                buffer
            },
            capture_avail_min: if config.event_driven_linked_pro {
                period
            } else {
                config.hardware_period_size as i64
            },
            capture_start_threshold: if config.event_driven_linked_pro {
                0
            } else {
                buffer
            },
        },
    )
}

/// What a direction of the device is asked for.
pub open spec fn wanted_parameters(config: HardwareConfig, direction: StreamDirection) ->
    StreamParameters {
    StreamParameters {
        rate: config.rate,
        period: config.hardware_period_size as i64,
        buffer: config.buffer_size as i64,
        channels: match direction {
            StreamDirection::Playback => config.playback.channels,
            StreamDirection::Capture => config.capture.channels,
        },
        format: FORMAT_S32_LE,
        access: ACCESS_MMAP_INTERLEAVED,
    }
}

pub fn requested_parameters(config: &HardwareConfig, direction: StreamDirection) -> (wanted:
    StreamParameters)
    ensures
        wanted == wanted_parameters(*config, direction),
{
    StreamParameters {
        rate: config.rate,
        period: config.hardware_period_size as i64,
        buffer: config.buffer_size as i64,
        channels: match direction {
            StreamDirection::Playback => config.playback.channels,
            StreamDirection::Capture => config.capture.channels,
        },
        format: FORMAT_S32_LE,
        access: ACCESS_MMAP_INTERLEAVED,
    }
}

/// Accepts a stream only if it settled on exactly what was asked for.
pub fn check_negotiated(
    config: &HardwareConfig,
    direction: StreamDirection,
    actual: StreamParameters,
) -> (result: Result<(), EngineError>)
    ensures
        result == if actual == wanted_parameters(*config, direction) {
            Ok::<(), EngineError>(())
        } else {
            Err::<(), EngineError>(
                EngineError::InvalidConfig(
                    ConfigError::Negotiated {
                        direction,
                        rate: actual.rate,
                        period: actual.period,
                        buffer: actual.buffer,
                        channels: actual.channels,
                        format: actual.format,
                        access: actual.access,
                    },
                ),
            )
        },
{
    let wanted = requested_parameters(config, direction);
    if actual.rate == wanted.rate && actual.period == wanted.period && actual.buffer
        == wanted.buffer && actual.channels == wanted.channels && actual.format
        == wanted.format && actual.access == wanted.access {
        Ok(())
    } else {
        Err(
            EngineError::InvalidConfig(
                ConfigError::Negotiated {
                    direction,
                    rate: actual.rate,
                    period: actual.period,
                    buffer: actual.buffer,
                    channels: actual.channels,
                    format: actual.format,
                    access: actual.access,
                },
            ),
        )
    }
}

/// Which streams the engine holds and what they are doing.
#[derive(Clone, Copy, Debug, PartialEq, Eq, Structural)]
pub struct EngineLifecycle {
    pub started: bool,
    pub streams_linked: bool,
    /// The playback stream is not in the hands of a worker.
    pub playback_held: bool,
    /// The capture stream is not in the hands of a worker.
    pub capture_held: bool,
}

/// What the streams came back with after a run of two workers.
#[derive(Debug)]
pub enum WorkersOutcome {
    /// A worker could not be started, or one panicked: the streams are lost.
    Lost(EngineError),
    /// Both workers ended and handed their streams back.
    Joined { playback: Result<(), EngineError>, capture: Result<(), EngineError> },
}

/// Where stopping the streams stands.
#[derive(Debug)]
pub enum StopPhase {
    /// Stopping both streams through their link.
    DropLinked,
    UnlinkRunning,
    UnlinkStopped,
    DropPlayback,
    DropCapture { playback: Result<(), EngineError> },
    Stopped { result: Result<(), EngineError> },
}

impl EngineLifecycle {
    /// The failure when a stream is in the hands of a worker.
    pub open spec fn busy(self) -> Option<EngineError> {
        if !self.playback_held {
            Some(EngineError::InvalidConfig(ConfigError::Reason("playback worker is active")))
        } else if !self.capture_held {
            Some(EngineError::InvalidConfig(ConfigError::Reason("capture worker is active")))
        } else {
            None
        }
    }

    /// The lifecycle after a failed start was cleaned up.
    pub open spec fn cleaned(self) -> EngineLifecycle {
        EngineLifecycle { started: false, streams_linked: false, ..self }
    }

    /// Where stopping begins: nowhere when nothing runs, and with a failure when a stream is not
    /// held.
    pub open spec fn stop_begins(self) -> StopPhase {
        if !self.started && !self.streams_linked {
            StopPhase::Stopped { result: Ok(()) }
        } else if !self.capture_held {
            StopPhase::Stopped {
                result: Err(
                    EngineError::InvalidConfig(ConfigError::Reason("capture worker is active")),
                ),
            }
        } else if !self.playback_held {
            StopPhase::Stopped {
                result: Err(
                    EngineError::InvalidConfig(ConfigError::Reason("playback worker is active")),
                ),
            }
        } else if !self.streams_linked {
            StopPhase::DropPlayback
        } else if self.started {
            StopPhase::DropLinked
        } else {
            StopPhase::UnlinkStopped
        }
    }

    /// What follows the step that `phase` asked for. Linked streams are stopped together and then
    /// unlinked; where that fails they are unlinked and stopped one by one.
    pub open spec fn stop_follows(self, phase: StopPhase, outcome: Result<(), DeviceFailure>) -> (
        EngineLifecycle,
        StopPhase,
    ) {
        match phase {
            StopPhase::DropLinked => match outcome {
                Ok(_) => (
                    EngineLifecycle { started: false, ..self },
                    StopPhase::UnlinkStopped,
                ),
                Err(_) => (self, StopPhase::UnlinkRunning),
            },
            StopPhase::UnlinkRunning => match outcome {
                Ok(_) => (
                    EngineLifecycle { streams_linked: false, ..self },
                    StopPhase::DropPlayback,
                ),
                Err(source) => (
                    self,
                    StopPhase::Stopped {
                        result: Err(
                            crate::error::device_error(
                                source,
                                "unlink running duplex streams",
                                StreamDirection::Playback,
                            ),
                        ),
                    },
                ),
            },
            StopPhase::UnlinkStopped => match outcome {
                Ok(_) => (
                    EngineLifecycle { streams_linked: false, ..self },
                    StopPhase::Stopped { result: Ok(()) },
                ),
                Err(source) => (
                    self,
                    StopPhase::Stopped {
                        result: Err(
                            crate::error::device_error(
                                source,
                                "unlink stopped duplex streams",
                                StreamDirection::Playback,
                            ),
                        ),
                    },
                ),
            },
            StopPhase::DropPlayback => (
                self,
                StopPhase::DropCapture {
                    playback: match outcome {
                        Ok(_) => Ok(()),
                        Err(source) => Err(
                            crate::error::device_error(
                                source,
                                "stop playback stream",
                                StreamDirection::Playback,
                            ),
                        ),
                    },
                },
            ),
            StopPhase::DropCapture { playback } => match (playback, outcome) {
                (Ok(_), Ok(_)) => (
                    EngineLifecycle { started: false, ..self },
                    StopPhase::Stopped { result: Ok(()) },
                ),
                (Ok(_), Err(source)) => (
                    self,
                    StopPhase::Stopped {
                        result: Err(
                            crate::error::device_error(
                                source,
                                "stop capture stream",
                                StreamDirection::Capture,
                            ),
                        ),
                    },
                ),
                (Err(error), _) => (self, StopPhase::Stopped { result: Err(error) }),
            },
            StopPhase::Stopped { .. } => (self, phase),
        }
    }

    pub fn begin_stop(&self) -> (phase: StopPhase)
        ensures
            phase == self.stop_begins(),
    {
        if !self.started && !self.streams_linked {
            StopPhase::Stopped { result: Ok(()) }
        } else if !self.capture_held {
            StopPhase::Stopped {
                result: Err(
                    EngineError::InvalidConfig(ConfigError::Reason("capture worker is active")),
                ),
            }
        } else if !self.playback_held {
            StopPhase::Stopped {
                result: Err(
                    EngineError::InvalidConfig(ConfigError::Reason("playback worker is active")),
                ),
            }
        } else if !self.streams_linked {
            StopPhase::DropPlayback
        } else if self.started {
            StopPhase::DropLinked
        } else {
            StopPhase::UnlinkStopped
        }
    }

    /// Accounts for the step that `phase` asked for and gives the next phase.
    pub fn continue_stop(&mut self, phase: StopPhase, outcome: Result<(), DeviceFailure>) -> (next:
        StopPhase)
        ensures
            (*final(self), next) == old(self).stop_follows(phase, outcome),
    {
        match phase {
            StopPhase::DropLinked => match outcome {
                Ok(_) => {
                    self.started = false;
                    StopPhase::UnlinkStopped
                },
                Err(_) => StopPhase::UnlinkRunning,
            },
            StopPhase::UnlinkRunning => match outcome {
                Ok(_) => {
                    self.streams_linked = false;
                    StopPhase::DropPlayback
                },
                Err(source) => StopPhase::Stopped {
                    result: Err(
                        alsa_failure(
                            source,
                            "unlink running duplex streams",
                            StreamDirection::Playback,
                        ),
                    ),
                },
            },
            StopPhase::UnlinkStopped => match outcome {
                Ok(_) => {
                    self.streams_linked = false;
                    StopPhase::Stopped { result: Ok(()) }
                },
                Err(source) => StopPhase::Stopped {
                    result: Err(
                        alsa_failure(
                            source,
                            "unlink stopped duplex streams",
                            StreamDirection::Playback,
                        ),
                    ),
                },
            },
            StopPhase::DropPlayback => StopPhase::DropCapture {
                playback: match outcome {
                    Ok(_) => Ok(()),
                    Err(source) => Err(
                        alsa_failure(source, "stop playback stream", StreamDirection::Playback),
                    ),
                },
            },
            StopPhase::DropCapture { playback } => match playback {
                Ok(_) => match outcome {
                    Ok(_) => {
                        self.started = false;
                        StopPhase::Stopped { result: Ok(()) }
                    },
                    Err(source) => StopPhase::Stopped {
                        result: Err(
                            alsa_failure(source, "stop capture stream", StreamDirection::Capture),
                        ),
                    },
                },
                Err(error) => StopPhase::Stopped { result: Err(error) },
            },
            StopPhase::Stopped { result } => StopPhase::Stopped { result },
        }
    }
}

/// Stopping that succeeds leaves nothing running and nothing linked, whichever way it went.
pub proof fn successful_stop_leaves_nothing_running(
    lifecycle: EngineLifecycle,
    phase: StopPhase,
    outcome: Result<(), DeviceFailure>,
)
    requires
        !(phase is Stopped),
        phase is DropPlayback || phase is DropCapture ==> !lifecycle.streams_linked,
        phase is UnlinkStopped ==> !lifecycle.started,
        lifecycle.stop_follows(phase, outcome).1 == (StopPhase::Stopped { result: Ok(()) }),
    ensures
        !lifecycle.stop_follows(phase, outcome).0.started,
        !lifecycle.stop_follows(phase, outcome).0.streams_linked,
{
}

/// The phases of stopping keep their meaning: single streams are stopped only once they are not
/// linked, and stopped streams are unlinked only once they do not run.
pub proof fn stop_phases_keep_their_meaning(
    lifecycle: EngineLifecycle,
    phase: StopPhase,
    outcome: Result<(), DeviceFailure>,
)
    requires
        phase is DropPlayback || phase is DropCapture ==> !lifecycle.streams_linked,
        phase is UnlinkStopped ==> !lifecycle.started,
    ensures
        ({
            let (after, next) = lifecycle.stop_follows(phase, outcome);
            &&& next is DropPlayback || next is DropCapture ==> !after.streams_linked
            &&& next is UnlinkStopped ==> !after.started
        }),
        ({
            let first = lifecycle.stop_begins();
            &&& first is DropPlayback || first is DropCapture ==> !lifecycle.streams_linked
            &&& first is UnlinkStopped ==> !lifecycle.started
        }),
{
}

/// The preparation of both streams and the filling of the playback queue.
pub open spec fn prepare_steps() -> Seq<StreamStep> {
    seq![
        crate::cycle::restart::on_capture(
            StreamOp::Prepare(StreamDirection::Capture),
            "prepare capture stream for startup",
        ),
        crate::cycle::restart::on_playback(
            StreamOp::Prepare(StreamDirection::Playback),
            "prepare playback stream for startup",
        ),
    ]
}

/// The steps before two workers start the streams themselves.
pub open spec fn worker_start_steps(duplex_link: bool) -> Seq<StreamStep> {
    prepare_steps() + seq![crate::cycle::restart::prime_playback()] + (if duplex_link {
        seq![crate::cycle::restart::on_playback(StreamOp::Link, "link duplex streams")]
    } else {
        Seq::empty()
    })
}

/// The start of a linked pair.
pub open spec fn linked_start_steps(event_driven: bool) -> Seq<StreamStep> {
    (if event_driven {
        seq![
            crate::cycle::restart::on_playback(StreamOp::Link, "link direct duplex streams"),
            crate::cycle::restart::on_playback(
                StreamOp::Prepare(StreamDirection::Playback),
                "prepare direct linked streams",
            ),
        ]
    } else {
        prepare_steps()
    }) + seq![crate::cycle::restart::prime_playback()] + (if event_driven {
        Seq::empty()
    } else {
        seq![crate::cycle::restart::on_playback(StreamOp::Link, "link duplex streams")]
    }) + seq![
        crate::cycle::restart::on_playback(
            StreamOp::Start(StreamDirection::Playback),
            "start linked duplex streams",
        ),
    ]
}

/// The start of both streams without workers. Linked streams are unlinked again by
/// `linked_start_result`.
pub open spec fn plain_start_steps(duplex_link: bool) -> Seq<StreamStep> {
    prepare_steps() + seq![crate::cycle::restart::prime_playback()] + (if duplex_link {
        seq![crate::cycle::restart::on_playback(StreamOp::Link, "link duplex streams")]
    } else {
        seq![
            crate::cycle::restart::on_capture(
                StreamOp::StartUnlessRunning(StreamDirection::Capture),
                "start capture stream",
            ),
            crate::cycle::restart::on_playback(
                StreamOp::StartUnlessRunning(StreamDirection::Playback),
                "start playback stream",
            ),
        ]
    })
}

/// What a failed start is undone with; what comes of these steps does not matter.
pub open spec fn cleanup_steps() -> Seq<StreamOp> {
    seq![
        StreamOp::Unlink,
        StreamOp::Drop(StreamDirection::Capture),
        StreamOp::Prepare(StreamDirection::Capture),
        StreamOp::Drop(StreamDirection::Playback),
        StreamOp::Prepare(StreamDirection::Playback),
    ]
}

/// The steps that undo a failed start, whatever comes of each.
pub fn cleanup_startup_failure() -> (ops: Vec<StreamOp>)
    ensures
        ops@ == cleanup_steps(),
{
    let mut ops: Vec<StreamOp> = Vec::new();
    ops.push(StreamOp::Unlink);
    ops.push(StreamOp::Drop(StreamDirection::Capture));
    ops.push(StreamOp::Prepare(StreamDirection::Capture));
    ops.push(StreamOp::Drop(StreamDirection::Playback));
    ops.push(StreamOp::Prepare(StreamDirection::Playback));
    assert(ops@ =~= cleanup_steps());
    ops
}

fn push_prepare(steps: &mut Vec<StreamStep>)
    ensures
        final(steps)@ == old(steps)@ + prepare_steps(),
{
    steps.push(
        StreamStep {
            op: StreamOp::Prepare(StreamDirection::Capture),
            operation: "prepare capture stream for startup",
            direction: StreamDirection::Capture,
        },
    );
    steps.push(
        StreamStep {
            op: StreamOp::Prepare(StreamDirection::Playback),
            operation: "prepare playback stream for startup",
            direction: StreamDirection::Playback,
        },
    );
    assert(steps@ =~= old(steps)@ + prepare_steps());
}

fn push_playback(steps: &mut Vec<StreamStep>, op: StreamOp, operation: &'static str)
    ensures
        final(steps)@ == old(steps)@.push(crate::cycle::restart::on_playback(op, operation)),
{
    steps.push(StreamStep { op, operation, direction: StreamDirection::Playback });
}

/// A linked start: how deep the queue is filled and what is done.
#[derive(Debug)]
pub struct LinkedStart {
    pub start_frames: i64,
    pub start_samples: usize,
    pub plan: StreamPlan,
}

/// Both results of two calls of which the second is made in any case: the first failure counts.
pub fn linked_start_result(
    start: Result<(), DeviceFailure>,
    unlink: Result<(), DeviceFailure>,
) -> (result: Result<(), EngineError>)
    ensures
        result == match start {
            Err(source) => Err::<(), EngineError>(
                crate::error::device_error(
                    source,
                    "start linked duplex streams",
                    StreamDirection::Playback,
                ),
            ),
            Ok(_) => match unlink {
                Err(source) => Err::<(), EngineError>(
                    crate::error::device_error(
                        source,
                        "unlink running duplex streams",
                        StreamDirection::Playback,
                    ),
                ),
                Ok(_) => Ok::<(), EngineError>(()),
            },
        },
{
    match start {
        Err(source) => Err(
            alsa_failure(source, "start linked duplex streams", StreamDirection::Playback),
        ),
        Ok(_) => match unlink {
            Err(source) => Err(
                alsa_failure(source, "unlink running duplex streams", StreamDirection::Playback),
            ),
            Ok(_) => Ok(()),
        },
    }
}

/// The duplex engine.
#[derive(Debug)]
pub struct DuplexEngine {
    pub config: HardwareConfig,
    pub routing: RoutingTable,
    pub timeline: HardwareTimeline,
    pub geometry: EngineGeometry,
    pub lifecycle: EngineLifecycle,
}

impl DuplexEngine {
    /// The geometry is that of the configuration, and the configuration can drive a stream.
    pub open spec fn wf(&self) -> bool {
        &&& geometry_of(self.config) == Ok::<EngineGeometry, EngineError>(self.geometry)
        &&& self.config.rate > 0
        &&& self.config.period_size > 0
        &&& self.config.hardware_period_size > 0
    }

    /// Opens an engine on a profile; `validation` is what came of the profile's own validation.
    /// The driver then opens the streams with what the engine computed.
    pub fn open(profile: Profile, validation: Result<(), String>) -> (result: Result<
        Self,
        EngineError,
    >)
        ensures
            match result {
                Ok(engine) => {
                    &&& validation is Ok
                    &&& engine.config == profile.device
                    &&& geometry_of(profile.device) == Ok::<EngineGeometry, EngineError>(
                        engine.geometry,
                    )
                    &&& engine.routing.playback_models() == crate::routing::configured_models(
                        profile.ports.playback@,
                    )
                    &&& engine.routing.capture_models() == crate::routing::configured_models(
                        profile.ports.capture@,
                    )
                    &&& engine.timeline.nothing_recorded()
                    &&& engine.lifecycle == (EngineLifecycle {
                        started: false,
                        streams_linked: false,
                        playback_held: true,
                        capture_held: true,
                    })
                },
                Err(error) => match validation {
                    Ok(_) => geometry_of(profile.device) == Err::<EngineGeometry, EngineError>(
                        error,
                    ),
                    Err(reason) => error == EngineError::InvalidConfig(
                        ConfigError::Profile(reason),
                    ),
                },
            },
    {
        if let Err(reason) = validation {
            return Err(EngineError::InvalidConfig(ConfigError::Profile(reason)));
        }
        let routing = match RoutingTable::compile(&profile, Ok(())) {
            Ok(routing) => routing,
            Err(error) => {
                return Err(EngineError::InvalidConfig(ConfigError::Routing(error)));
            },
        };
        let geometry = match engine_geometry(&profile.device) {
            Ok(geometry) => geometry,
            Err(error) => {
                return Err(error);
            },
        };
        Ok(
            DuplexEngine {
                config: profile.device,
                routing,
                timeline: HardwareTimeline::default(),
                geometry,
                lifecycle: EngineLifecycle {
                    started: false,
                    streams_linked: false,
                    playback_held: true,
                    capture_held: true,
                },
            },
        )
    }

    pub fn config(&self) -> (config: &HardwareConfig)
        ensures
            *config == self.config,
    {
        &self.config
    }

    pub fn timeline(&self) -> (timeline: &HardwareTimeline)
        ensures
            *timeline == self.timeline,
    {
        &self.timeline
    }

    pub fn routing(&self) -> (routing: &RoutingTable)
        ensures
            *routing == self.routing,
    {
        &self.routing
    }

    pub fn stats(&self) -> (stats: HardwareStats)
        ensures
            stats == self.timeline.stats(),
    {
        self.timeline.snapshot()
    }

    /// The realtime priority to run at, where one is configured.
    pub fn realtime_priority(&self) -> (priority: Option<i32>)
        ensures
            priority == if self.config.realtime {
                Some(self.config.realtime_priority as i32)
            } else {
                None
            },
    {
        if self.config.realtime {
            Some(self.config.realtime_priority as i32)
        } else {
            None
        }
    }

    /// By how many periods a linked pair answers later than it captures; none when the pair is not
    /// linked, or its buffer is too small for the configured latency.
    pub open spec fn sequence_lead(&self) -> Option<u64> {
        if !self.config.duplex_link {
            None
        } else if self.config.pro_latency_periods == 0 {
            Some(0)
        } else if self.config.pro_latency_periods == 1 && self.config.buffer_size
            >= self.config.period_size + self.config.hardware_period_size {
            Some(1)
        } else {
            None
        }
    }

    pub fn linked_pro_sequence_lead(&self) -> (lead: Option<u64>)
        ensures
            lead == self.sequence_lead(),
    {
        if !self.config.duplex_link {
            return None;
        }
        if self.config.pro_latency_periods == 0 {
            Some(0)
        } else if self.config.pro_latency_periods == 1 && self.config.buffer_size as u64
            >= self.config.period_size as u64 + self.config.hardware_period_size as u64 {
            Some(1)
        } else {
            None
        }
    }

    /// Queue depth below which a linked pair is refilled.
    pub open spec fn playback_floor(&self, sequence_lead: u64) -> i64 {
        if sequence_lead == 0 {
            crate::timing::zero_lead_floor(
                self.config.linked_playback_guard_frames as i64,
                self.geometry.hardware_period,
                self.geometry.buffer,
                self.geometry.period,
            )
        } else {
            self.config.linked_playback_guard_frames as i64
        }
    }

    fn linked_playback_floor(&self, sequence_lead: u64) -> (frames: i64)
        ensures
            frames == self.playback_floor(sequence_lead),
    {
        if sequence_lead == 0 {
            linked_zero_lead_playback_floor(
                self.config.linked_playback_guard_frames as i64,
                self.geometry.hardware_period,
                self.geometry.buffer,
                self.geometry.period,
            )
        } else {
            self.config.linked_playback_guard_frames as i64
        }
    }

    /// Frames that a linked pair is primed with.
    pub open spec fn linked_prime(&self, sequence_lead: u64) -> i64 {
        if self.config.event_driven_linked_pro {
            crate::timing::direct_start(
                self.geometry.period,
                self.geometry.buffer,
                self.config.playback_queue_periods,
            )
        } else if sequence_lead == 0 {
            crate::timing::linked_start(
                self.geometry.period,
                self.playback_floor(0),
                self.geometry.buffer,
                self.config.rate,
                self.config.pro_handoff_nanos,
            )
        } else {
            crate::timing::ahead_start(
                self.geometry.period,
                self.geometry.hardware_period,
                self.geometry.buffer,
            )
        }
    }

    /// Plans the start of a linked pair.
    pub fn prepare_linked_pro_start(&self, sequence_lead: u64) -> (result: Result<
        LinkedStart,
        EngineError,
    >)
        ensures
            ({
                let frames = self.linked_prime(sequence_lead);
                let samples = crate::cycle::samples_in(frames, self.geometry.playback_channels);
                match result {
                    Ok(start) => {
                        &&& !self.lifecycle.started
                        &&& self.lifecycle.busy() is None
                        &&& start.start_frames == frames
                        &&& samples == Some(start.start_samples)
                        &&& start.plan.steps() == linked_start_steps(
                            self.config.event_driven_linked_pro,
                        )
                        &&& start.plan.done() == 0
                        &&& start.plan.failure() is None
                        &&& start.plan.start_frames() == frames
                    },
                    Err(error) => if self.lifecycle.started {
                        error == EngineError::InvalidConfig(
                            ConfigError::Reason("linked PRO cycle is already active"),
                        )
                    } else if samples is None {
                        error == EngineError::InvalidConfig(
                            ConfigError::Reason("playback start size overflow"),
                        )
                    } else {
                        self.lifecycle.busy() == Some(error)
                    },
                }
            }),
    {
        if self.lifecycle.started {
            return Err(
                EngineError::InvalidConfig(
                    ConfigError::Reason("linked PRO cycle is already active"),
                ),
            );
        }
        let start_frames: i64 = if self.config.event_driven_linked_pro {
            direct_linked_start_frames(
                self.geometry.period,
                self.geometry.buffer,
                self.config.playback_queue_periods,
            )
        } else if sequence_lead == 0 {
            linked_start_frames(
                self.geometry.period,
                self.linked_playback_floor(0),
                self.geometry.buffer,
                self.config.rate,
                self.config.pro_handoff_nanos,
            )
        } else {
            linked_ahead_start_frames(
                self.geometry.period,
                self.geometry.hardware_period,
                self.geometry.buffer,
            )
        };
        let start_samples: usize = match frame_samples(
            start_frames,
            self.geometry.playback_channels,
        ) {
            Some(samples) => samples,
            None => {
                return Err(
                    EngineError::InvalidConfig(
                        ConfigError::Reason("playback start size overflow"),
                    ),
                );
            },
        };
        if let Err(error) = self.require_held() {
            return Err(error);
        }
        let mut steps: Vec<StreamStep> = Vec::new();
        if self.config.event_driven_linked_pro {
            push_playback(&mut steps, StreamOp::Link, "link direct duplex streams");
            push_playback(
                &mut steps,
                StreamOp::Prepare(StreamDirection::Playback),
                "prepare direct linked streams",
            );
        } else {
            push_prepare(&mut steps);
        }
        push_playback(&mut steps, StreamOp::Prime, "prime playback");
        if !self.config.event_driven_linked_pro {
            push_playback(&mut steps, StreamOp::Link, "link duplex streams");
        }
        push_playback(
            &mut steps,
            StreamOp::Start(StreamDirection::Playback),
            "start linked duplex streams",
        );
        assert(steps@ =~= linked_start_steps(self.config.event_driven_linked_pro));
        Ok(LinkedStart { start_frames, start_samples, plan: StreamPlan::new(steps, start_frames) })
    }

    fn require_held(&self) -> (result: Result<(), EngineError>)
        ensures
            match result {
                Ok(_) => self.lifecycle.busy() is None,
                Err(error) => self.lifecycle.busy() == Some(error),
            },
    {
        if !self.lifecycle.playback_held {
            Err(EngineError::InvalidConfig(ConfigError::Reason("playback worker is active")))
        } else if !self.lifecycle.capture_held {
            Err(EngineError::InvalidConfig(ConfigError::Reason("capture worker is active")))
        } else {
            Ok(())
        }
    }

    /// Accounts for a linked start: it runs and is linked, or was cleaned up.
    pub fn linked_start_finished(&mut self, result: Result<(), EngineError>)
        ensures
            *final(self) == (DuplexEngine {
                lifecycle: match result {
                    Ok(_) => EngineLifecycle {
                        started: true,
                        streams_linked: true,
                        ..old(self).lifecycle
                    },
                    Err(_) => old(self).lifecycle.cleaned(),
                },
                ..*old(self)
            }),
    {
        match result {
            Ok(_) => {
                self.lifecycle.started = true;
                self.lifecycle.streams_linked = true;
            },
            Err(_) => {
                self.lifecycle.started = false;
                self.lifecycle.streams_linked = false;
            },
        }
    }

    /// Plans what precedes a start by two workers; nothing when the streams run already.
    pub fn prepare_worker_start(&self) -> (result: Result<Option<StreamPlan>, EngineError>)
        ensures
            match result {
                Ok(None) => self.lifecycle.started,
                Ok(Some(plan)) => {
                    &&& !self.lifecycle.started
                    &&& self.lifecycle.busy() is None
                    &&& plan.steps() == worker_start_steps(self.config.duplex_link)
                    &&& plan.done() == 0
                    &&& plan.failure() is None
                    &&& plan.start_frames() == self.geometry.playback_start_frames
                },
                Err(error) => {
                    &&& !self.lifecycle.started
                    &&& if !self.lifecycle.capture_held {
                        error == EngineError::InvalidConfig(
                            ConfigError::Reason("capture worker is active"),
                        )
                    } else {
                        self.lifecycle.busy() == Some(error)
                    }
                },
            },
    {
        if self.lifecycle.started {
            return Ok(None);
        }
        if !self.lifecycle.capture_held {
            return Err(
                EngineError::InvalidConfig(ConfigError::Reason("capture worker is active")),
            );
        }
        if let Err(error) = self.require_held() {
            return Err(error);
        }
        let mut steps: Vec<StreamStep> = Vec::new();
        push_prepare(&mut steps);
        push_playback(&mut steps, StreamOp::Prime, "prime playback");
        if self.config.duplex_link {
            push_playback(&mut steps, StreamOp::Link, "link duplex streams");
        }
        assert(steps@ =~= worker_start_steps(self.config.duplex_link));
        Ok(Some(StreamPlan::new(steps, self.geometry.playback_start_frames)))
    }

    /// Plans a start without workers; nothing when the streams run already.
    pub fn start_plan(&self) -> (result: Result<Option<StreamPlan>, EngineError>)
        ensures
            match result {
                Ok(None) => self.lifecycle.started,
                Ok(Some(plan)) => {
                    &&& !self.lifecycle.started
                    &&& self.lifecycle.busy() is None
                    &&& plan.steps() == plain_start_steps(self.config.duplex_link)
                    &&& plan.done() == 0
                    &&& plan.failure() is None
                    &&& plan.start_frames() == self.geometry.playback_start_frames
                },
                Err(error) => {
                    &&& !self.lifecycle.started
                    &&& if !self.lifecycle.capture_held {
                        error == EngineError::InvalidConfig(
                            ConfigError::Reason("capture worker is active"),
                        )
                    } else {
                        self.lifecycle.busy() == Some(error)
                    }
                },
            },
    {
        if self.lifecycle.started {
            return Ok(None);
        }
        if !self.lifecycle.capture_held {
            return Err(
                EngineError::InvalidConfig(ConfigError::Reason("capture worker is active")),
            );
        }
        if let Err(error) = self.require_held() {
            return Err(error);
        }
        let mut steps: Vec<StreamStep> = Vec::new();
        push_prepare(&mut steps);
        push_playback(&mut steps, StreamOp::Prime, "prime playback");
        if self.config.duplex_link {
            push_playback(&mut steps, StreamOp::Link, "link duplex streams");
        } else {
            steps.push(
                StreamStep {
                    op: StreamOp::StartUnlessRunning(StreamDirection::Capture),
                    operation: "start capture stream",
                    direction: StreamDirection::Capture,
                },
            );
            push_playback(
                &mut steps,
                StreamOp::StartUnlessRunning(StreamDirection::Playback),
                "start playback stream",
            );
        }
        assert(steps@ =~= plain_start_steps(self.config.duplex_link));
        Ok(Some(StreamPlan::new(steps, self.geometry.playback_start_frames)))
    }

    /// Accounts for a start with or before workers: it runs, or was cleaned up.
    pub fn start_finished(&mut self, result: Result<(), EngineError>)
        ensures
            *final(self) == (DuplexEngine {
                lifecycle: match result {
                    Ok(_) => EngineLifecycle { started: true, ..old(self).lifecycle },
                    Err(_) => old(self).lifecycle.cleaned(),
                },
                ..*old(self)
            }),
    {
        match result {
            Ok(_) => {
                self.lifecycle.started = true;
            },
            Err(_) => {
                self.lifecycle.started = false;
                self.lifecycle.streams_linked = false;
            },
        }
    }

    /// Hands both streams to workers, unless one of them is out already.
    pub fn take_streams(&mut self) -> (result: Result<(), EngineError>)
        ensures
            match result {
                Ok(_) => {
                    &&& old(self).lifecycle.busy() is None
                    &&& *final(self) == DuplexEngine {
                        lifecycle: EngineLifecycle {
                            playback_held: false,
                            capture_held: false,
                            ..old(self).lifecycle
                        },
                        ..*old(self)
                    }
                },
                Err(error) => old(self).lifecycle.busy() == Some(error) && *final(self) == *old(self),
            },
    {
        if let Err(error) = self.require_held() {
            return Err(error);
        }
        self.lifecycle.playback_held = false;
        self.lifecycle.capture_held = false;
        Ok(())
    }

    /// How the capture worker is run: one realtime step below playback. A PRO run starts at the
    /// sequence that its first period is played at.
    pub fn capture_worker_config(&self, pro: bool) -> (config: CaptureWorkerConfig)
        ensures
            config == (CaptureWorkerConfig {
                channels: self.geometry.capture_channels,
                period_samples: self.geometry.capture_period_samples,
                period: self.geometry.period,
                initial_pro_sequence: if pro {
                    self.config.pro_latency_periods as u64
                } else {
                    0
                },
                realtime_priority: if self.config.realtime {
                    Some(
                        crate::arith::greatest(
                            (self.config.realtime_priority as i32) - 1,
                            1,
                        ) as i32,
                    )
                } else {
                    None
                },
                pro,
            }),
            !self.config.realtime ==> config.realtime_priority is None,
            self.config.realtime && 2 <= self.config.realtime_priority <= i32::MAX
                ==> config.realtime_priority == Some((self.config.realtime_priority - 1) as i32),
            self.config.realtime && self.config.realtime_priority < 2 ==> config.realtime_priority
                == Some(1i32),
    {
        CaptureWorkerConfig {
            channels: self.geometry.capture_channels,
            period_samples: self.geometry.capture_period_samples,
            period: self.geometry.period,
            initial_pro_sequence: if pro {
                self.config.pro_latency_periods as u64
            } else {
                0
            },
            realtime_priority: if self.config.realtime {
                let priority: i32 = self.config.realtime_priority as i32;
                if priority > 2 {
                    Some(priority - 1)
                } else {
                    Some(1)
                }
            } else {
                None
            },
            pro,
        }
    }

    /// How the playback worker is run.
    pub fn playback_worker_config(&self, pro: bool, max_periods: Option<u64>) -> (config:
        PlaybackWorkerConfig)
        ensures
            config == (PlaybackWorkerConfig {
                channels: self.geometry.playback_channels,
                period_samples: self.geometry.playback_period_samples,
                start_samples: self.geometry.playback_start_samples,
                start_frames: self.geometry.playback_start_frames,
                period: self.geometry.period,
                buffer: self.geometry.buffer,
                rate: self.config.rate,
                timer_scheduling: self.config.playback_timer_scheduling,
                sequence_lead: if pro {
                    self.config.pro_latency_periods as u64
                } else {
                    0
                },
                guard_frames: self.geometry.period,
                realtime_priority: if self.config.realtime {
                    Some(self.config.realtime_priority as i32)
                } else {
                    None
                },
                pro,
                max_periods,
            }),
    {
        PlaybackWorkerConfig {
            channels: self.geometry.playback_channels,
            period_samples: self.geometry.playback_period_samples,
            start_samples: self.geometry.playback_start_samples,
            start_frames: self.geometry.playback_start_frames,
            period: self.geometry.period,
            buffer: self.geometry.buffer,
            rate: self.config.rate,
            timer_scheduling: self.config.playback_timer_scheduling,
            sequence_lead: if pro {
                self.config.pro_latency_periods as u64
            } else {
                0
            },
            guard_frames: self.geometry.period,
            realtime_priority: self.realtime_priority(),
            pro,
            max_periods,
        }
    }

    /// How a linked cycle is run once it was started with `start_frames` queued.
    pub fn linked_pro_config(
        &self,
        sequence_lead: u64,
        start_frames: i64,
        start_samples: usize,
        max_periods: Option<u64>,
    ) -> (config: LinkedProConfig)
        requires
            self.wf(),
        ensures
            config.wf(),
            config == (LinkedProConfig {
                playback_channels: self.geometry.playback_channels,
                capture_channels: self.geometry.capture_channels,
                playback_period_samples: self.geometry.playback_period_samples,
                capture_period_samples: self.geometry.capture_period_samples,
                start_samples,
                start_frames,
                period: self.geometry.period,
                buffer: self.geometry.buffer,
                hardware_period: self.geometry.hardware_period,
                playback_floor: self.playback_floor(sequence_lead),
                phase_max_attempts: self.config.linked_phase_max_attempts,
                rate: self.config.rate,
                handoff_nanos: self.config.pro_handoff_nanos,
                sequence_lead,
                event_driven: self.config.event_driven_linked_pro,
                max_periods,
            }),
    {
        LinkedProConfig {
            playback_channels: self.geometry.playback_channels,
            capture_channels: self.geometry.capture_channels,
            playback_period_samples: self.geometry.playback_period_samples,
            capture_period_samples: self.geometry.capture_period_samples,
            start_samples,
            start_frames,
            period: self.geometry.period,
            buffer: self.geometry.buffer,
            hardware_period: self.geometry.hardware_period,
            playback_floor: self.linked_playback_floor(sequence_lead),
            phase_max_attempts: self.config.linked_phase_max_attempts,
            rate: self.config.rate,
            handoff_nanos: self.config.pro_handoff_nanos,
            sequence_lead,
            event_driven: self.config.event_driven_linked_pro,
            max_periods,
        }
    }

    /// The flags that the workers of a new run share.
    pub fn run_control(&self, tracks_readiness: bool, hardware_ready: Option<bool>) -> (control:
        WorkerControl)
        ensures
            control == (WorkerControl {
                stop: false,
                done: false,
                hardware_ready,
                capture_cycle_generation: if tracks_readiness {
                    Some(u64::MAX)
                } else {
                    None
                },
            }),
    {
        WorkerControl {
            stop: false,
            done: false,
            hardware_ready,
            capture_cycle_generation: if tracks_readiness {
                Some(u64::MAX)
            } else {
                None
            },
        }
    }

    /// Ends a run of two workers. The playback failure counts before the capture failure; a failed
    /// run is cleaned up; streams that were lost are not held any more.
    pub fn workers_finished(&mut self, outcome: WorkersOutcome) -> (result: Result<
        (),
        EngineError,
    >)
        ensures
            match outcome {
                WorkersOutcome::Lost(error) => {
                    &&& result == Err::<(), EngineError>(error)
                    &&& *final(self) == DuplexEngine {
                        lifecycle: EngineLifecycle { started: false, ..old(self).lifecycle },
                        ..*old(self)
                    }
                },
                WorkersOutcome::Joined { playback, capture } => {
                    &&& result == if playback is Err {
                        playback
                    } else {
                        capture
                    }
                    &&& *final(self) == DuplexEngine {
                        lifecycle: ({
                            let held = EngineLifecycle {
                                playback_held: true,
                                capture_held: true,
                                ..old(self).lifecycle
                            };
                            if result is Ok {
                                held
                            } else {
                                held.cleaned()
                            }
                        }),
                        ..*old(self)
                    }
                },
            },
    {
        match outcome {
            WorkersOutcome::Lost(error) => {
                self.lifecycle.started = false;
                Err(error)
            },
            WorkersOutcome::Joined { playback, capture } => {
                self.lifecycle.playback_held = true;
                self.lifecycle.capture_held = true;
                let result = match playback {
                    Ok(_) => capture,
                    Err(error) => Err(error),
                };
                if result.is_err() {
                    self.lifecycle.started = false;
                    self.lifecycle.streams_linked = false;
                }
                result
            },
        }
    }

    /// Ends a linked run, whose streams are held again. A run that was asked to stop in the middle
    /// is cleaned up like a failed one but reports no failure.
    pub fn linked_run_finished(&mut self, ended: Result<(), EngineError>) -> (result: Result<
        (),
        EngineError,
    >)
        ensures
            result == match ended {
                Err(EngineError::Stopped) => Ok::<(), EngineError>(()),
                other => other,
            },
            *final(self) == (DuplexEngine {
                lifecycle: ({
                    let held = EngineLifecycle {
                        playback_held: true,
                        capture_held: true,
                        ..old(self).lifecycle
                    };
                    match ended {
                        Ok(_) => held,
                        Err(_) => held.cleaned(),
                    }
                }),
                ..*old(self)
            }),
    {
        self.lifecycle.playback_held = true;
        self.lifecycle.capture_held = true;
        match ended {
            Ok(done) => Ok(done),
            Err(error) => {
                self.lifecycle.started = false;
                self.lifecycle.streams_linked = false;
                if error.is_stopped() {
                    Ok(())
                } else {
                    Err(error)
                }
            },
        }
    }
}

/// What an opened engine is primed with fits the buffer, and a linked pair's priming does too.
pub proof fn priming_fits_the_buffer(engine: DuplexEngine, sequence_lead: u64)
    requires
        engine.wf(),
    ensures
        engine.geometry.playback_start_frames <= engine.geometry.buffer,
        engine.linked_prime(sequence_lead) <= engine.geometry.buffer,
{
}

/// The geometry of a configuration is counted in frames and in samples of its own channels: what is
/// asked of a direction is its channels and the hardware period, blocks are periods of the client,
/// and the queue that keeps playback running is primed as deep as the start waits for: the buffer,
/// or two periods where a timer drives it, as far as the buffer goes.
pub proof fn a_geometry_counts_its_own_channels(config: HardwareConfig)
    ensures
        geometry_of(config) matches Ok(geometry) ==> {
            &&& config.playback.format == SampleFormat::S32Le
            &&& config.capture.format == SampleFormat::S32Le
            &&& geometry.period == config.period_size
            &&& geometry.buffer == config.buffer_size
            &&& geometry.hardware_period == config.hardware_period_size
            &&& geometry.playback_channels == config.playback.channels
            &&& geometry.capture_channels == config.capture.channels
            &&& geometry.playback_period_samples == geometry.period * geometry.playback_channels
            &&& geometry.capture_period_samples == geometry.period * geometry.capture_channels
            &&& geometry.playback_buffer_samples == geometry.buffer * geometry.playback_channels
            &&& geometry.playback_start_frames <= geometry.buffer
            &&& !config.playback_timer_scheduling ==> geometry.playback_start_frames
                == geometry.buffer
            &&& config.playback_timer_scheduling ==> geometry.playback_start_frames
                == geometry.period + geometry.period || (geometry.playback_start_frames
                == geometry.buffer && geometry.buffer <= geometry.period + geometry.period)
        },
        geometry_of(config) is Err <==> config.playback.format != SampleFormat::S32Le
            || config.capture.format != SampleFormat::S32Le || config.period_size
            * config.playback.channels > usize::MAX || config.period_size * config.capture.channels
            > usize::MAX || config.buffer_size * config.playback.channels > usize::MAX,
{
}

/// When the streams wake their workers and start by themselves: an event-driven pair at every
/// client period and at once; a playback that no timer drives when its queue has fallen a period
/// below what is configured, and then it starts with a full buffer, unless it is linked or driven
/// by a timer, where it never starts by itself.
pub proof fn thresholds_follow_the_way_a_pair_is_driven(config: HardwareConfig)
    ensures
        geometry_of(config) matches Ok(geometry) ==> {
            &&& config.event_driven_linked_pro ==> {
                &&& geometry.playback_avail_min == geometry.period
                &&& geometry.capture_avail_min == geometry.period
                &&& geometry.playback_start_threshold == 0
                &&& geometry.capture_start_threshold == 0
            }
            &&& !config.event_driven_linked_pro ==> {
                &&& geometry.capture_avail_min == geometry.hardware_period
                &&& geometry.capture_start_threshold == geometry.buffer
                &&& config.playback_timer_scheduling ==> geometry.playback_avail_min
                    == geometry.period
                &&& config.playback_timer_scheduling || config.duplex_link
                    ==> geometry.playback_start_threshold == i64::MAX
                &&& !config.playback_timer_scheduling && !config.duplex_link
                    ==> geometry.playback_start_threshold == geometry.buffer
                &&& !config.playback_timer_scheduling && config.playback_queue_periods is None
                    ==> geometry.playback_avail_min == geometry.period
                &&& !config.playback_timer_scheduling && config.playback_queue_periods is Some
                    && config.period_size * config.playback_queue_periods->0 <= u32::MAX
                    ==> geometry.playback_avail_min + config.period_size
                    * config.playback_queue_periods->0 == geometry.buffer + geometry.period
            }
        },
{
}

/// A stream is asked for what its own direction is configured with.
pub proof fn a_stream_is_asked_for_its_own_channels(config: HardwareConfig)
    ensures
        ({
            let playback = wanted_parameters(config, StreamDirection::Playback);
            let capture = wanted_parameters(config, StreamDirection::Capture);
            &&& playback.channels == config.playback.channels
            &&& capture.channels == config.capture.channels
            &&& playback.rate == config.rate && capture.rate == config.rate
            &&& playback.period == config.hardware_period_size && capture.period
                == config.hardware_period_size
            &&& playback.buffer == config.buffer_size && capture.buffer == config.buffer_size
            &&& playback.format == 10 && capture.format == 10
            &&& playback.access == 0 && capture.access == 0
        }),
{
}

/// A start prepares both streams, fills the playback queue before anything runs, and links the pair
/// where it is to be linked: a direct pair before it is prepared, any other after the queue is
/// filled. Only the last step starts anything.
pub proof fn starts_fill_the_queue_before_anything_runs(
    event_driven: bool,
    duplex_link: bool,
)
    ensures
        ({
            let steps = linked_start_steps(event_driven);
            let capture = StreamOp::Prepare(StreamDirection::Capture);
            let playback = StreamOp::Prepare(StreamDirection::Playback);
            let start = StreamOp::Start(StreamDirection::Playback);
            &&& event_driven ==> steps.len() == 4 && steps[0].op == StreamOp::Link && steps[1].op
                == playback && steps[2].op == StreamOp::Prime && steps[3].op == start
            &&& !event_driven ==> steps.len() == 5 && steps[0].op == capture && steps[1].op
                == playback && steps[2].op == StreamOp::Prime && steps[3].op == StreamOp::Link
                && steps[4].op == start
        }),
        ({
            let steps = worker_start_steps(duplex_link);
            &&& steps[0].op == StreamOp::Prepare(StreamDirection::Capture)
            &&& steps[1].op == StreamOp::Prepare(StreamDirection::Playback)
            &&& steps[2].op == StreamOp::Prime
            &&& duplex_link ==> steps.len() == 4 && steps[3].op == StreamOp::Link
            &&& !duplex_link ==> steps.len() == 3
        }),
        ({
            let steps = plain_start_steps(duplex_link);
            &&& steps[0].op == StreamOp::Prepare(StreamDirection::Capture)
            &&& steps[1].op == StreamOp::Prepare(StreamDirection::Playback)
            &&& steps[2].op == StreamOp::Prime
            &&& duplex_link ==> steps.len() == 4 && steps[3].op == StreamOp::Link
            &&& !duplex_link ==> steps.len() == 5 && steps[3].op == StreamOp::StartUnlessRunning(
                StreamDirection::Capture,
            ) && steps[4].op == StreamOp::StartUnlessRunning(StreamDirection::Playback)
        }),
        ({
            let ops = cleanup_steps();
            &&& ops.len() == 5
            &&& ops[0] == StreamOp::Unlink
            &&& ops[1] == StreamOp::Drop(StreamDirection::Capture)
            &&& ops[2] == StreamOp::Prepare(StreamDirection::Capture)
            &&& ops[3] == StreamOp::Drop(StreamDirection::Playback)
            &&& ops[4] == StreamOp::Prepare(StreamDirection::Playback)
        }),
{
}

/// Stopping goes the way that the streams are in: nothing is done where nothing runs, streams in
/// the hands of workers are not touched, linked streams are stopped through their link and then
/// unlinked, and where that fails, or there is no link, both are stopped one by one.
pub proof fn stopping_goes_the_way_the_streams_are_in(
    lifecycle: EngineLifecycle,
    failure: DeviceFailure,
)
    ensures
        ({
            let first = lifecycle.stop_begins();
            let held = lifecycle.playback_held && lifecycle.capture_held;
            let running = lifecycle.started || lifecycle.streams_linked;
            &&& !running ==> first == (StopPhase::Stopped { result: Ok(()) })
            &&& running && !held ==> (first matches StopPhase::Stopped { result: Err(_) })
            &&& running && held && !lifecycle.streams_linked ==> first is DropPlayback
            &&& running && held && lifecycle.streams_linked && lifecycle.started ==> first
                is DropLinked
            &&& running && held && lifecycle.streams_linked && !lifecycle.started ==> first
                is UnlinkStopped
        }),
        ({
            let (stopped, next) = lifecycle.stop_follows(StopPhase::DropLinked, Ok(()));
            &&& !stopped.started && stopped.streams_linked == lifecycle.streams_linked
            &&& next is UnlinkStopped
        }),
        lifecycle.stop_follows(StopPhase::DropLinked, Err(failure)) == (
            lifecycle,
            StopPhase::UnlinkRunning,
        ),
        ({
            let (unlinked, next) = lifecycle.stop_follows(StopPhase::UnlinkRunning, Ok(()));
            &&& !unlinked.streams_linked && unlinked.started == lifecycle.started
            &&& next is DropPlayback
        }),
        ({
            let (unlinked, next) = lifecycle.stop_follows(StopPhase::UnlinkStopped, Ok(()));
            &&& !unlinked.streams_linked
            &&& next == StopPhase::Stopped { result: Ok(()) }
        }),
        lifecycle.stop_follows(StopPhase::UnlinkRunning, Err(failure)).1
            matches StopPhase::Stopped { result: Err(_) },
        lifecycle.stop_follows(StopPhase::UnlinkStopped, Err(failure)).1
            matches StopPhase::Stopped { result: Err(_) },
        lifecycle.stop_follows(StopPhase::DropPlayback, Ok(())) == (
            lifecycle,
            StopPhase::DropCapture { playback: Ok(()) },
        ),
        ({
            let (same, next) = lifecycle.stop_follows(StopPhase::DropPlayback, Err(failure));
            &&& same == lifecycle
            &&& next matches StopPhase::DropCapture { playback: Err(error) }
            &&& lifecycle.stop_follows(next, Ok(())) == (
                lifecycle,
                StopPhase::Stopped { result: Err(error) },
            )
        }),
        ({
            let last = StopPhase::DropCapture { playback: Ok(()) };
            &&& !lifecycle.stop_follows(last, Ok(())).0.started
            &&& lifecycle.stop_follows(last, Ok(())).1 == StopPhase::Stopped { result: Ok(()) }
            &&& (lifecycle.stop_follows(last, Err(failure)).1 matches StopPhase::Stopped {
                result: Err(_),
            })
            &&& lifecycle.stop_follows(last, Err(failure)).0 == lifecycle
        }),
{
}

/// A stream that a worker has is named by the failure, playback first, and a start that failed
/// leaves nothing started or linked while the streams stay where they are.
pub proof fn busy_streams_are_named(lifecycle: EngineLifecycle)
    ensures
        lifecycle.busy() is None <==> lifecycle.playback_held && lifecycle.capture_held,
        !lifecycle.playback_held ==> lifecycle.busy() == Some(
            EngineError::InvalidConfig(ConfigError::Reason("playback worker is active")),
        ),
        lifecycle.playback_held && !lifecycle.capture_held ==> lifecycle.busy() == Some(
            EngineError::InvalidConfig(ConfigError::Reason("capture worker is active")),
        ),
        !lifecycle.cleaned().started,
        !lifecycle.cleaned().streams_linked,
        lifecycle.cleaned().playback_held == lifecycle.playback_held,
        lifecycle.cleaned().capture_held == lifecycle.capture_held,
{
}

/// A linked pair answers in its own period or one period later, as it is configured; one period
/// later only where the buffer holds a period of each kind. Any other pair has no lead.
pub proof fn the_lead_is_what_the_buffer_allows(engine: DuplexEngine)
    ensures
        ({
            let lead = engine.sequence_lead();
            let fits = engine.config.buffer_size >= engine.config.period_size
                + engine.config.hardware_period_size;
            &&& !engine.config.duplex_link ==> lead is None
            &&& engine.config.duplex_link && engine.config.pro_latency_periods == 0 ==> lead == Some(
                0u64,
            )
            &&& engine.config.duplex_link && engine.config.pro_latency_periods == 1 && fits
                ==> lead == Some(1u64)
            &&& engine.config.pro_latency_periods == 1 && !fits ==> lead is None
            &&& engine.config.pro_latency_periods > 1 ==> lead is None
        }),
{
}

/// How deep a linked pair is kept and started: with lead down to the guard, without it down to the
/// guard and three hardware periods as far as a period still fits; and it starts with the periods
/// of a direct pair, with both periods where it has lead, and otherwise with a period, the floor
/// and the frames of the handoff.
pub proof fn a_linked_pair_is_kept_and_started_deep_enough(engine: DuplexEngine)
    requires
        engine.wf(),
        engine.config.period_size <= engine.config.buffer_size,
        engine.config.pro_handoff_nanos * engine.config.rate <= u64::MAX,
    ensures
        ({
            let guard = engine.config.linked_playback_guard_frames;
            let hardware = engine.config.hardware_period_size;
            let period = engine.config.period_size;
            let buffer = engine.config.buffer_size;
            let floor = engine.playback_floor(0);
            &&& engine.playback_floor(1) == guard
            &&& floor == guard + hardware + hardware + hardware || floor + period == buffer
            &&& floor <= guard + hardware + hardware + hardware
            &&& floor + period <= buffer
            &&& engine.config.event_driven_linked_pro && engine.config.playback_queue_periods
                is None ==> {
                &&& engine.linked_prime(0) == period + period || engine.linked_prime(0) == buffer
                &&& engine.linked_prime(0) <= buffer && engine.linked_prime(0) <= period + period
            }
            &&& !engine.config.event_driven_linked_pro ==> {
                let ahead = engine.linked_prime(1);
                let spent = engine.linked_prime(0) - period - floor;
                &&& ahead == period + hardware || ahead == buffer
                &&& ahead <= buffer && ahead <= period + hardware
                &&& engine.linked_prime(0) <= buffer
                &&& engine.linked_prime(0) < buffer ==> engine.config.pro_handoff_nanos
                    * engine.config.rate <= spent * 1_000_000_000
                &&& (spent - 1) * 1_000_000_000 < engine.config.pro_handoff_nanos
                    * engine.config.rate
            }
        }),
{
    let config = engine.config;
    a_geometry_counts_its_own_channels(config);
    crate::timing::the_floor_is_three_hardware_periods(
        config.linked_playback_guard_frames as i64,
        config.hardware_period_size as i64,
        config.buffer_size as i64,
        config.period_size as i64,
    );
    let floor = engine.playback_floor(0);
    assert(0 <= floor <= config.buffer_size);
    crate::timing::starts_are_as_deep_as_the_buffer_allows(
        config.period_size as i64,
        floor,
        config.hardware_period_size as i64,
        config.buffer_size as i64,
        config.rate,
        config.pro_handoff_nanos,
        config.playback_queue_periods,
    );
}

/// Stopping names the stream that is missing, the capture stream first, and each failed step names
/// itself and its stream.
pub proof fn a_failed_stop_names_its_stream(lifecycle: EngineLifecycle, failure: DeviceFailure)
    ensures
        (lifecycle.started || lifecycle.streams_linked) && !lifecycle.capture_held
            ==> lifecycle.stop_begins() == (StopPhase::Stopped {
            result: Err(
                EngineError::InvalidConfig(ConfigError::Reason("capture worker is active")),
            ),
        }),
        (lifecycle.started || lifecycle.streams_linked) && lifecycle.capture_held
            && !lifecycle.playback_held ==> lifecycle.stop_begins() == (StopPhase::Stopped {
            result: Err(
                EngineError::InvalidConfig(ConfigError::Reason("playback worker is active")),
            ),
        }),
        lifecycle.stop_follows(StopPhase::UnlinkRunning, Err(failure)).1 == (StopPhase::Stopped {
            result: Err(
                crate::error::device_error(
                    failure,
                    "unlink running duplex streams",
                    StreamDirection::Playback,
                ),
            ),
        }),
        lifecycle.stop_follows(StopPhase::UnlinkStopped, Err(failure)).1 == (StopPhase::Stopped {
            result: Err(
                crate::error::device_error(
                    failure,
                    "unlink stopped duplex streams",
                    StreamDirection::Playback,
                ),
            ),
        }),
        lifecycle.stop_follows(StopPhase::DropPlayback, Err(failure)).1 == (
        StopPhase::DropCapture {
            playback: Err(
                crate::error::device_error(
                    failure,
                    "stop playback stream",
                    StreamDirection::Playback,
                ),
            ),
        }),
        lifecycle.stop_follows((StopPhase::DropCapture { playback: Ok(()) }), Err(failure)).1 == (
        StopPhase::Stopped {
            result: Err(
                crate::error::device_error(
                    failure,
                    "stop capture stream",
                    StreamDirection::Capture,
                ),
            ),
        }),
{
}

/// Every step of a start is one of the stream that it works on, and is named for it; what is done to
/// a linked pair is done through playback.
pub proof fn start_steps_name_their_streams(event_driven: bool, duplex_link: bool)
    ensures
        forall|k: int|
            0 <= k < linked_start_steps(event_driven).len() ==> ((
            #[trigger] linked_start_steps(event_driven)[k]).direction is Capture <==> linked_start_steps(
                event_driven,
            )[k].op == StreamOp::Prepare(StreamDirection::Capture)),
        forall|k: int|
            0 <= k < worker_start_steps(duplex_link).len() ==> ((
            #[trigger] worker_start_steps(duplex_link)[k]).direction is Capture <==> worker_start_steps(
                duplex_link,
            )[k].op == StreamOp::Prepare(StreamDirection::Capture)),
        forall|k: int|
            0 <= k < plain_start_steps(duplex_link).len() ==> ((
            #[trigger] plain_start_steps(duplex_link)[k]).direction is Capture <==> plain_start_steps(
                duplex_link,
            )[k].op == StreamOp::Prepare(StreamDirection::Capture) || plain_start_steps(
                duplex_link,
            )[k].op == StreamOp::StartUnlessRunning(StreamDirection::Capture)),
        worker_start_steps(duplex_link)[0].operation == "prepare capture stream for startup",
        worker_start_steps(duplex_link)[1].operation == "prepare playback stream for startup",
        plain_start_steps(duplex_link)[0].operation == "prepare capture stream for startup",
        plain_start_steps(duplex_link)[1].operation == "prepare playback stream for startup",
        !duplex_link ==> plain_start_steps(duplex_link)[3].operation == "start capture stream",
        !duplex_link ==> plain_start_steps(duplex_link)[4].operation == "start playback stream",
        duplex_link ==> worker_start_steps(duplex_link)[3].operation == "link duplex streams",
        duplex_link ==> plain_start_steps(duplex_link)[3].operation == "link duplex streams",
        event_driven ==> linked_start_steps(event_driven)[0].operation
            == "link direct duplex streams",
        event_driven ==> linked_start_steps(event_driven)[1].operation
            == "prepare direct linked streams",
        linked_start_steps(event_driven).last().operation == "start linked duplex streams",
{
}

/// Samples are counted as frames times channels wherever that fits.
pub proof fn samples_are_frames_times_channels(frames: u32, channels: u32)
    ensures
        frames * channels <= usize::MAX ==> counted_samples(frames, channels) == Ok::<
            usize,
            EngineError,
        >((frames * channels) as usize),
        frames * channels > usize::MAX ==> counted_samples(frames, channels) == Err::<
            usize,
            EngineError,
        >(EngineError::InvalidConfig(ConfigError::Reason("sample count does not fit usize"))),
{
}

} // verus!
