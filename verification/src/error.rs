//! Failures of the audio engine, and which of them the engine can live through.
use vstd::prelude::*;

verus! {

#[derive(Clone, Copy, Debug, PartialEq, Eq, Structural)]
pub enum StreamDirection {
    Playback,
    Capture,
}

/// What a device error number stands for.
#[derive(Clone, Copy, Debug, PartialEq, Eq, Structural)]
pub enum FailureKind {
    /// The stream over- or underran (`EPIPE`).
    BrokenPipe,
    /// The stream was suspended (`ESTRPIPE`).
    StreamPipe,
    /// The call was interrupted (`EINTR`).
    Interrupted,
    Other,
}

/// An error number that a device reported.
#[derive(Clone, Copy, Debug, PartialEq, Eq, Structural)]
pub struct DeviceFailure {
    pub errno: i32,
    pub kind: FailureKind,
}

/// A system call was interrupted by a signal.
pub const EINTR: i32 = 4;

/// A stream over- or underran.
pub const EPIPE: i32 = 32;

/// A stream was suspended.
pub const ESTRPIPE: i32 = 86;

/// What an error number stands for.
pub open spec fn failure_kind(errno: i32) -> FailureKind {
    if errno == EPIPE {
        FailureKind::BrokenPipe
    } else if errno == ESTRPIPE {
        FailureKind::StreamPipe
    } else if errno == EINTR {
        FailureKind::Interrupted
    } else {
        FailureKind::Other
    }
}

impl DeviceFailure {
    pub fn from_errno(errno: i32) -> (failure: Self)
        ensures
            failure == (DeviceFailure { errno, kind: failure_kind(errno) }),
    {
        let kind = if errno == EPIPE {
            FailureKind::BrokenPipe
        } else if errno == ESTRPIPE {
            FailureKind::StreamPipe
        } else if errno == EINTR {
            FailureKind::Interrupted
        } else {
            FailureKind::Other
        };
        DeviceFailure { errno, kind }
    }
}

/// Why a port table cannot be built or a block cannot be routed.
#[derive(Debug, PartialEq, Eq)]
pub enum RoutingError {
    /// The profile was rejected by its own validation, for this reason.
    Profile(String),
    ChannelIndex { channel: u32 },
    ZeroPhysicalChannels,
    PhysicalChannelOutOfRange { channel: usize, physical_channels: usize },
    PhysicalBufferTooSmall { actual: usize, required: usize },
    LogicalBufferTooSmall { actual: usize, required: usize },
    SampleCountOverflow,
}

/// Why a hardware configuration cannot be used.
#[derive(Debug, PartialEq, Eq)]
pub enum ConfigError {
    Reason(&'static str),
    /// The profile was rejected by its own validation, for this reason.
    Profile(String),
    Routing(RoutingError),
    UnsupportedFormat(StreamDirection),
    /// The device settled on other parameters than those asked for.
    Negotiated {
        direction: StreamDirection,
        rate: u32,
        period: i64,
        buffer: i64,
        channels: u32,
        /// The device's number for the sample format.
        format: i32,
        /// The device's number for the way samples are accessed.
        access: i32,
    },
}

#[derive(Debug, PartialEq, Eq)]
pub enum EngineError {
    InvalidConfig(ConfigError),
    RealtimeScheduling { operation: &'static str, errno: i32 },
    Alsa { operation: &'static str, direction: StreamDirection, source: DeviceFailure },
    Xrun { operation: &'static str, direction: StreamDirection, source: DeviceFailure },
    LinkedXrun { operation: &'static str, playback: bool, capture: bool, source: DeviceFailure },
    Suspended { operation: &'static str, direction: StreamDirection, source: DeviceFailure },
    WorkerPanic,
    WorkerSpawn { worker: &'static str, errno: i32 },
    ClockWait(i32),
    ShortCommit { direction: StreamDirection, actual: i64, required: i64 },
    Stopped,
    LinkedStartupUnstable { attempts: u32, minimum_write_nanos: u64 },
    LinkedStartupInterrupted,
    StartupLoopback(&'static str),
}

impl Clone for RoutingError {
    fn clone(&self) -> (same: Self)
        ensures
            same == *self,
    {
        match self {
            RoutingError::Profile(reason) => RoutingError::Profile(reason.clone()),
            RoutingError::ChannelIndex { channel } => RoutingError::ChannelIndex {
                channel: *channel,
            },
            RoutingError::ZeroPhysicalChannels => RoutingError::ZeroPhysicalChannels,
            RoutingError::PhysicalChannelOutOfRange { channel, physical_channels } =>
                RoutingError::PhysicalChannelOutOfRange {
                channel: *channel,
                physical_channels: *physical_channels,
            },
            RoutingError::PhysicalBufferTooSmall { actual, required } =>
                RoutingError::PhysicalBufferTooSmall { actual: *actual, required: *required },
            RoutingError::LogicalBufferTooSmall { actual, required } =>
                RoutingError::LogicalBufferTooSmall { actual: *actual, required: *required },
            RoutingError::SampleCountOverflow => RoutingError::SampleCountOverflow,
        }
    }
}

impl Clone for ConfigError {
    fn clone(&self) -> (same: Self)
        ensures
            same == *self,
    {
        match self {
            ConfigError::Reason(reason) => ConfigError::Reason(*reason),
            ConfigError::Profile(reason) => ConfigError::Profile(reason.clone()),
            ConfigError::Routing(error) => ConfigError::Routing(error.clone()),
            ConfigError::UnsupportedFormat(direction) => ConfigError::UnsupportedFormat(
                *direction,
            ),
            ConfigError::Negotiated {
                direction,
                rate,
                period,
                buffer,
                channels,
                format,
                access,
            } => ConfigError::Negotiated {
                direction: *direction,
                rate: *rate,
                period: *period,
                buffer: *buffer,
                channels: *channels,
                format: *format,
                access: *access,
            },
        }
    }
}

impl Clone for EngineError {
    fn clone(&self) -> (same: Self)
        ensures
            same == *self,
    {
        match self {
            EngineError::InvalidConfig(error) => EngineError::InvalidConfig(error.clone()),
            EngineError::RealtimeScheduling { operation, errno } =>
                EngineError::RealtimeScheduling { operation: *operation, errno: *errno },
            EngineError::Alsa { operation, direction, source } => EngineError::Alsa {
                operation: *operation,
                direction: *direction,
                source: *source,
            },
            EngineError::Xrun { operation, direction, source } => EngineError::Xrun {
                operation: *operation,
                direction: *direction,
                source: *source,
            },
            EngineError::LinkedXrun { operation, playback, capture, source } =>
                EngineError::LinkedXrun {
                operation: *operation,
                playback: *playback,
                capture: *capture,
                source: *source,
            },
            EngineError::Suspended { operation, direction, source } => EngineError::Suspended {
                operation: *operation,
                direction: *direction,
                source: *source,
            },
            EngineError::WorkerPanic => EngineError::WorkerPanic,
            EngineError::WorkerSpawn { worker, errno } => EngineError::WorkerSpawn {
                worker: *worker,
                errno: *errno,
            },
            EngineError::ClockWait(errno) => EngineError::ClockWait(*errno),
            EngineError::ShortCommit { direction, actual, required } =>
                EngineError::ShortCommit {
                direction: *direction,
                actual: *actual,
                required: *required,
            },
            EngineError::Stopped => EngineError::Stopped,
            EngineError::LinkedStartupUnstable { attempts, minimum_write_nanos } =>
                EngineError::LinkedStartupUnstable {
                attempts: *attempts,
                minimum_write_nanos: *minimum_write_nanos,
            },
            EngineError::LinkedStartupInterrupted => EngineError::LinkedStartupInterrupted,
            EngineError::StartupLoopback(reason) => EngineError::StartupLoopback(*reason),
        }
    }
}

impl EngineError {
    /// The hardware lost data.
    pub open spec fn xrun(self) -> bool {
        self is Xrun || self is LinkedXrun
    }

    /// Restarting the streams gets past the failure.
    pub open spec fn recoverable(self) -> bool {
        self is Xrun || self is LinkedXrun || self is Suspended
    }

    /// The device error number of a recoverable failure.
    pub open spec fn device_errno(self) -> Option<i32> {
        match self {
            EngineError::Xrun { source, .. } => Some(source.errno),
            EngineError::LinkedXrun { source, .. } => Some(source.errno),
            EngineError::Suspended { source, .. } => Some(source.errno),
            _ => None,
        }
    }

    pub fn is_xrun(&self) -> (is: bool)
        ensures
            is == self.xrun(),
    {
        match self {
            EngineError::Xrun { .. } | EngineError::LinkedXrun { .. } => true,
            _ => false,
        }
    }

    pub fn is_recoverable(&self) -> (is: bool)
        ensures
            is == self.recoverable(),
    {
        match self {
            EngineError::Xrun { .. } | EngineError::LinkedXrun { .. }
            | EngineError::Suspended { .. } => true,
            _ => false,
        }
    }

    pub fn is_stopped(&self) -> (is: bool)
        ensures
            is == (self is Stopped),
    {
        match self {
            EngineError::Stopped => true,
            _ => false,
        }
    }

    pub fn errno(&self) -> (errno: Option<i32>)
        ensures
            errno == self.device_errno(),
    {
        match self {
            EngineError::Xrun { source, .. } => Some(source.errno),
            EngineError::LinkedXrun { source, .. } => Some(source.errno),
            EngineError::Suspended { source, .. } => Some(source.errno),
            _ => None,
        }
    }
}

/// A second copy of how something ended.
pub fn same_result<T: Copy>(result: &Result<T, EngineError>) -> (same: Result<T, EngineError>)
    ensures
        same == *result,
{
    match result {
        Ok(value) => Ok(*value),
        Err(error) => Err(error.clone()),
    }
}

/// The engine failure that a device failure amounts to.
pub open spec fn device_error(
    source: DeviceFailure,
    operation: &'static str,
    direction: StreamDirection,
) -> EngineError {
    match source.kind {
        FailureKind::BrokenPipe => EngineError::Xrun { operation, direction, source },
        FailureKind::StreamPipe => EngineError::Suspended { operation, direction, source },
        _ => EngineError::Alsa { operation, direction, source },
    }
}

/// Names a failed device call: a broken pipe is an XRUN, a suspended stream is told apart, and
/// anything else is a plain device error.
pub fn alsa_failure(
    source: DeviceFailure,
    operation: &'static str,
    direction: StreamDirection,
) -> (error: EngineError)
    ensures
        error == device_error(source, operation, direction),
{
    match source.kind {
        FailureKind::BrokenPipe => EngineError::Xrun { operation, direction, source },
        FailureKind::StreamPipe => EngineError::Suspended { operation, direction, source },
        _ => EngineError::Alsa { operation, direction, source },
    }
}

/// Names the failure of a device call and hands its value on.
pub fn alsa_call<T>(
    result: Result<T, DeviceFailure>,
    operation: &'static str,
    direction: StreamDirection,
) -> (named: Result<T, EngineError>)
    ensures
        match result {
            Ok(value) => named == Ok::<T, EngineError>(value),
            Err(source) => named == Err::<T, EngineError>(
                device_error(source, operation, direction),
            ),
        },
{
    match result {
        Ok(value) => Ok(value),
        Err(source) => Err(alsa_failure(source, operation, direction)),
    }
}

/// Status with which the daemon leaves after a hardware failure: one that asks not to be restarted
/// when the loopback did not qualify, and an ordinary one otherwise.
pub fn hardware_error_exit_code(error: &EngineError) -> (code: i32)
    ensures
        code == if error is StartupLoopback {
            78i32
        } else {
            1i32
        },
{
    match error {
        EngineError::StartupLoopback(_) => 78,
        _ => 1,
    }
}

/// A suspended stream can be recovered but is no XRUN; every XRUN can be recovered; and a request
/// to stop is neither.
pub proof fn recoverable_failures(error: EngineError)
    ensures
        error.xrun() ==> error.recoverable(),
        error is Suspended ==> error.recoverable() && !error.xrun(),
        error is Stopped ==> !error.recoverable() && !error.xrun(),
        error.recoverable() <==> error.device_errno() is Some,
{
}

/// A device failure keeps what is known about it: the call, the stream and the number. The number
/// decides what it is: an over- or underrun is an XRUN, a suspended stream is told apart, and
/// every other number is neither and cannot be recovered from.
pub proof fn a_device_failure_is_told_by_its_number(
    errno: i32,
    operation: &'static str,
    direction: StreamDirection,
)
    ensures
        ({
            let source = DeviceFailure { errno, kind: failure_kind(errno) };
            let error = device_error(source, operation, direction);
            &&& errno == 32 ==> error.xrun() && error == (EngineError::Xrun {
                operation,
                direction,
                source,
            })
            &&& errno == 86 ==> !error.xrun() && error == (EngineError::Suspended {
                operation,
                direction,
                source,
            })
            &&& errno != 32 && errno != 86 ==> error == (EngineError::Alsa {
                operation,
                direction,
                source,
            })
            &&& error.recoverable() <==> errno == 32 || errno == 86
            &&& error.recoverable() ==> error.device_errno() == Some(errno)
            &&& failure_kind(errno) == FailureKind::Interrupted <==> errno == 4
        }),
{
}

/// The failures that streams are restarted after are the XRUNs of one stream or of a pair and the
/// suspension, and no others; the XRUNs alone are counted as such.
pub proof fn only_xruns_and_suspensions_are_recovered(error: EngineError)
    ensures
        error is Xrun || error is LinkedXrun <==> error.xrun(),
        error is Xrun || error is LinkedXrun || error is Suspended <==> error.recoverable(),
        error matches EngineError::LinkedXrun { source, .. } ==> error.device_errno() == Some(
            source.errno,
        ),
        error is WorkerPanic || error is ShortCommit || error is InvalidConfig
            || error is LinkedStartupInterrupted || error is StartupLoopback
            ==> !error.recoverable(),
{
}

} // verus!
