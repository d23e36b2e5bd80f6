//! Messages of the control protocol and the values they carry.
use vstd::prelude::*;

verus! {

pub const PROTOCOL_VERSION: u16 = 16;

/// The bytes `SALS`.
pub const PROTOCOL_MAGIC: [u8; 4] = [0x53, 0x41, 0x4c, 0x53];

pub const MAX_FRAME_PAYLOAD: usize = 65536;

pub const FEATURE_PRO: u32 = 1;

pub const FEATURE_SHARED: u32 = 2;

/// What a stream reported when it could not be read or written.
#[derive(Clone, Copy, Debug, PartialEq, Eq, Structural)]
pub enum IoErrorKind {
    UnexpectedEof,
    ConnectionReset,
    Other,
}

/// Why a message could not be written or read, or a layout not be built.
#[derive(Clone, Copy, Debug, PartialEq, Eq, Structural)]
pub enum ProtocolError {
    Io(IoErrorKind),
    InvalidMagic,
    UnsupportedVersion(u16),
    FrameTooLarge(usize),
    UnknownRequest(u16),
    UnknownResponse(u16),
    UnknownError(u16),
    UnknownDirection(u8),
    MalformedPayload,
    StringTooLong(usize),
    TooManyItems,
    LayoutOverflow,
}

#[derive(Clone, Debug, PartialEq, Eq)]
pub enum Request {
    Hello { version: u16 },
    GetInfo,
    OpenPro,
    OpenShared { port_id: String },
    Start { session_id: u64 },
    Stop { session_id: u64 },
    Close { session_id: u64 },
    GetStats,
}

#[derive(Clone, Debug, PartialEq, Eq)]
pub enum Response {
    Hello { version: u16, features: u32 },
    Info(DeviceInfo),
    OpenPro { session_id: u64, shared: SharedRegionInfo },
    OpenShared { session_id: u64, direction: PortDirection, shared: SharedRegionInfo },
    Ack,
    Busy,
    Unsupported,
    Stats(Box<Stats>),
    Error { code: ErrorCode, message: String },
}

#[derive(Clone, Debug, PartialEq, Eq)]
pub struct DeviceInfo {
    pub name: String,
    pub profile_fingerprint: u64,
    pub rate: u32,
    pub period_size: u32,
    pub hardware_period_size: u32,
    pub buffer_size: u32,
    pub shared_buffer_size: u32,
    pub pro_latency_periods: u32,
    pub pro_output_latency_frames: u32,
    pub pro_realtime_priority: u32,
    pub shared_latency_periods: u32,
    pub playback_channels: u32,
    pub capture_channels: u32,
    pub playback_ports: Vec<PortInfo>,
    pub capture_ports: Vec<PortInfo>,
}

#[derive(Clone, Debug, PartialEq, Eq)]
pub struct PortInfo {
    pub id: String,
    pub name: String,
    pub channels: Vec<u32>,
}

#[derive(Clone, Copy, Debug, PartialEq, Eq, Structural)]
pub enum PortDirection {
    Playback,
    Capture,
}

#[derive(Clone, Copy, Debug, PartialEq, Eq, Structural)]
pub enum ErrorCode {
    InvalidRequest,
    NotOwner,
    BadState,
    Internal,
}

#[derive(Clone, Copy, Debug, PartialEq, Eq, Structural)]
pub struct SharedRegionInfo {
    pub size: u64,
    pub period_frames: u32,
    pub playback_channels: u32,
    pub capture_channels: u32,
    pub slot_count: u32,
    pub slot_stride: u64,
    pub capture_offset: u64,
    pub playback_offset: u64,
}

#[derive(Clone, Debug, Default, PartialEq, Eq)]
pub struct Stats {
    pub generation: u64,
    pub sample_position: u64,
    pub playback_position: u64,
    pub capture_position: u64,
    pub hw_playback_xruns: u64,
    pub hw_capture_xruns: u64,
    pub playback_delay_frames: u64,
    pub capture_delay_frames: u64,
    pub playback_delay_min_frames: u64,
    pub playback_delay_max_frames: u64,
    pub playback_ring_delay_frames: u64,
    pub playback_ring_delay_min_frames: u64,
    pub playback_ring_delay_max_frames: u64,
    pub playback_driver_delay_frames: u64,
    pub playback_driver_delay_min_frames: u64,
    pub playback_driver_delay_max_frames: u64,
    pub capture_delay_min_frames: u64,
    pub capture_delay_max_frames: u64,
    pub playback_target_overshoot_max_frames: u64,
    pub capture_clock_wait_max_nanos: u64,
    pub pro_wait_budget_min_nanos: u64,
    pub pro_wait_budget_max_nanos: u64,
    pub pro_ready_wait_max_nanos: u64,
    pub playback_write_max_nanos: u64,
    pub capture_to_playback_write_nanos: u64,
    pub capture_to_playback_write_min_nanos: u64,
    pub capture_to_playback_write_max_nanos: u64,
    pub duplex_pointer_phase_nanos: i64,
    pub duplex_pointer_phase_min_nanos: i64,
    pub duplex_pointer_phase_max_nanos: i64,
    pub duplex_pointer_phase_samples: u64,
    pub linked_phase_attempts: u64,
    pub linked_phase_rebases: u64,
    pub linked_phase_score_nanos: u64,
    pub linked_phase_target_met: bool,
    pub playback_low_watermarks: u64,
    pub pro_deadline_misses: u64,
    pub pro_client_deadline_misses: u64,
    pub pro_core_deadline_misses: u64,
    pub pro_capture_overruns: u64,
    pub pro_expired_capture_blocks: u64,
    pub pro_playback_submit_failures: u64,
    pub pro_realtime_failures: u64,
    pub pro_callback_overruns: u64,
    pub pro_callback_max_nanos: u64,
    pub pro_playback_blocks: u64,
    pub pro_playback_nonzero_blocks: u64,
    pub shared_underruns: u64,
    pub shared_overruns: u64,
    pub timeline_resets: u64,
    pub periods_processed: u64,
    pub shared_playback_ports: Vec<SharedPlaybackPortStats>,
}

#[derive(Clone, Debug, Default, PartialEq, Eq)]
pub struct SharedPlaybackPortStats {
    pub port_id: String,
    pub underruns: u64,
    pub last_underrun_sequence: u64,
    pub last_underrun_nanos: u64,
    pub last_sequence_lag_periods: u64,
    pub max_sequence_lag_periods: u64,
    pub expired_playback_periods: u64,
    pub playback_submit_failures: u64,
    pub playback_xruns: u64,
}

/// What a port is: its texts and its channels.
#[verifier::ext_equal]
pub struct PortInfoModel {
    pub id: Seq<char>,
    pub name: Seq<char>,
    pub channels: Seq<u32>,
}

/// What a device description says.
#[verifier::ext_equal]
pub struct DeviceInfoModel {
    pub name: Seq<char>,
    pub profile_fingerprint: u64,
    /// The 32-bit fields, in declaration order.
    pub geometry: Seq<u32>,
    pub playback_ports: Seq<PortInfoModel>,
    pub capture_ports: Seq<PortInfoModel>,
}

/// Counters of one shared playback port.
#[verifier::ext_equal]
pub struct SharedPlaybackPortStatsModel {
    pub port_id: Seq<char>,
    /// The counters, in declaration order.
    pub words: Seq<u64>,
}

/// A statistics report: its counters, each as one 64-bit word, and its ports.
#[verifier::ext_equal]
pub struct StatsModel {
    /// The scalar fields, in declaration order.
    pub words: Seq<u64>,
    pub ports: Seq<SharedPlaybackPortStatsModel>,
}

#[verifier::ext_equal]
pub enum RequestModel {
    Hello { version: u16 },
    GetInfo,
    OpenPro,
    OpenShared { port_id: Seq<char> },
    Start { session_id: u64 },
    Stop { session_id: u64 },
    Close { session_id: u64 },
    GetStats,
}

#[verifier::ext_equal]
pub enum ResponseModel {
    Hello { version: u16, features: u32 },
    Info(DeviceInfoModel),
    OpenPro { session_id: u64, shared: SharedRegionInfo },
    OpenShared { session_id: u64, direction: PortDirection, shared: SharedRegionInfo },
    Ack,
    Busy,
    Unsupported,
    Stats(StatsModel),
    Error { code: ErrorCode, message: Seq<char> },
}

impl View for PortInfo {
    type V = PortInfoModel;

    open spec fn view(&self) -> PortInfoModel {
        PortInfoModel { id: self.id@, name: self.name@, channels: self.channels@ }
    }
}

/// The ports of a list, each by its model.
pub open spec fn port_models(ports: Seq<PortInfo>) -> Seq<PortInfoModel> {
    Seq::new(ports.len(), |i: int| ports[i]@)
}

/// Number of 32-bit fields of a device description.
pub const GEOMETRY_FIELDS: usize = 11;

/// The 32-bit fields of a device description, in declaration order.
pub open spec fn info_geometry(info: DeviceInfo) -> Seq<u32> {
    seq![
        info.rate,
        info.period_size,
        info.hardware_period_size,
        info.buffer_size,
        info.shared_buffer_size,
        info.pro_latency_periods,
        info.pro_output_latency_frames,
        info.pro_realtime_priority,
        info.shared_latency_periods,
        info.playback_channels,
        info.capture_channels,
    ]
}

impl View for DeviceInfo {
    type V = DeviceInfoModel;

    open spec fn view(&self) -> DeviceInfoModel {
        DeviceInfoModel {
            name: self.name@,
            profile_fingerprint: self.profile_fingerprint,
            geometry: info_geometry(*self),
            playback_ports: port_models(self.playback_ports@),
            capture_ports: port_models(self.capture_ports@),
        }
    }
}

/// Number of counters of one shared playback port.
pub const PORT_COUNTERS: usize = 8;

impl View for SharedPlaybackPortStats {
    type V = SharedPlaybackPortStatsModel;

    open spec fn view(&self) -> SharedPlaybackPortStatsModel {
        SharedPlaybackPortStatsModel {
            port_id: self.port_id@,
            words: seq![
                self.underruns,
                self.last_underrun_sequence,
                self.last_underrun_nanos,
                self.last_sequence_lag_periods,
                self.max_sequence_lag_periods,
                self.expired_playback_periods,
                self.playback_submit_failures,
                self.playback_xruns,
            ],
        }
    }
}

/// The shared ports of a report, each by its model.
pub open spec fn port_stats_models(ports: Seq<SharedPlaybackPortStats>) -> Seq<
    SharedPlaybackPortStatsModel,
> {
    Seq::new(ports.len(), |i: int| ports[i]@)
}

/// Number of scalar fields of a statistics report.
pub const STATS_WORDS: usize = 51;

/// Index of the word that holds the calibration flag.
pub const TARGET_MET_WORD: usize = 34;

/// The word that a flag is written as.
pub open spec fn flag_word(flag: bool) -> u64 {
    if flag {
        1
    } else {
        0
    }
}

/// The scalar fields of a report, in declaration order; signed values by their bit pattern.
pub open spec fn stats_words(stats: Stats) -> Seq<u64> {
    seq![
        stats.generation,
        stats.sample_position,
        stats.playback_position,
        stats.capture_position,
        stats.hw_playback_xruns,
        stats.hw_capture_xruns,
        stats.playback_delay_frames,
        stats.capture_delay_frames,
        stats.playback_delay_min_frames,
        stats.playback_delay_max_frames,
        stats.playback_ring_delay_frames,
        stats.playback_ring_delay_min_frames,
        stats.playback_ring_delay_max_frames,
        stats.playback_driver_delay_frames,
        stats.playback_driver_delay_min_frames,
        stats.playback_driver_delay_max_frames,
        stats.capture_delay_min_frames,
        stats.capture_delay_max_frames,
        stats.playback_target_overshoot_max_frames,
        stats.capture_clock_wait_max_nanos,
        stats.pro_wait_budget_min_nanos,
        stats.pro_wait_budget_max_nanos,
        stats.pro_ready_wait_max_nanos,
        stats.playback_write_max_nanos,
        stats.capture_to_playback_write_nanos,
        stats.capture_to_playback_write_min_nanos,
        stats.capture_to_playback_write_max_nanos,
        stats.duplex_pointer_phase_nanos as u64,
        stats.duplex_pointer_phase_min_nanos as u64,
        stats.duplex_pointer_phase_max_nanos as u64,
        stats.duplex_pointer_phase_samples,
        stats.linked_phase_attempts,
        stats.linked_phase_rebases,
        stats.linked_phase_score_nanos,
        flag_word(stats.linked_phase_target_met),
        stats.playback_low_watermarks,
        stats.pro_deadline_misses,
        stats.pro_client_deadline_misses,
        stats.pro_core_deadline_misses,
        stats.pro_capture_overruns,
        stats.pro_expired_capture_blocks,
        stats.pro_playback_submit_failures,
        stats.pro_realtime_failures,
        stats.pro_callback_overruns,
        stats.pro_callback_max_nanos,
        stats.pro_playback_blocks,
        stats.pro_playback_nonzero_blocks,
        stats.shared_underruns,
        stats.shared_overruns,
        stats.timeline_resets,
        stats.periods_processed,
    ]
}

impl View for Stats {
    type V = StatsModel;

    open spec fn view(&self) -> StatsModel {
        StatsModel {
            words: stats_words(*self),
            ports: port_stats_models(self.shared_playback_ports@),
        }
    }
}

impl View for Request {
    type V = RequestModel;

    open spec fn view(&self) -> RequestModel {
        match *self {
            Request::Hello { version } => RequestModel::Hello { version },
            Request::GetInfo => RequestModel::GetInfo,
            Request::OpenPro => RequestModel::OpenPro,
            Request::OpenShared { port_id } => RequestModel::OpenShared { port_id: port_id@ },
            Request::Start { session_id } => RequestModel::Start { session_id },
            Request::Stop { session_id } => RequestModel::Stop { session_id },
            Request::Close { session_id } => RequestModel::Close { session_id },
            Request::GetStats => RequestModel::GetStats,
        }
    }
}

impl View for Response {
    type V = ResponseModel;

    open spec fn view(&self) -> ResponseModel {
        match *self {
            Response::Hello { version, features } => ResponseModel::Hello { version, features },
            Response::Info(info) => ResponseModel::Info(info@),
            Response::OpenPro { session_id, shared } => ResponseModel::OpenPro {
                session_id,
                shared,
            },
            Response::OpenShared { session_id, direction, shared } => ResponseModel::OpenShared {
                session_id,
                direction,
                shared,
            },
            Response::Ack => ResponseModel::Ack,
            Response::Busy => ResponseModel::Busy,
            Response::Unsupported => ResponseModel::Unsupported,
            Response::Stats(stats) => ResponseModel::Stats(stats@),
            Response::Error { code, message } => ResponseModel::Error { code, message: message@ },
        }
    }
}

impl PortDirection {
    pub open spec fn value(self) -> u8 {
        match self {
            PortDirection::Playback => 1,
            PortDirection::Capture => 2,
        }
    }

    /// The byte that names the direction on the wire.
    pub fn code(self) -> (code: u8)
        ensures
            code == self.value(),
    {
        match self {
            PortDirection::Playback => 1,
            PortDirection::Capture => 2,
        }
    }

    /// The direction that a wire byte names.
    pub fn from_code(value: u8) -> (result: Result<Self, ProtocolError>)
        ensures
            match result {
                Ok(direction) => direction.value() == value,
                Err(e) => e == ProtocolError::UnknownDirection(value) && !(1 <= value <= 2),
            },
    {
        match value {
            1 => Ok(PortDirection::Playback),
            2 => Ok(PortDirection::Capture),
            _ => Err(ProtocolError::UnknownDirection(value)),
        }
    }
}

impl ErrorCode {
    pub open spec fn value(self) -> u16 {
        match self {
            ErrorCode::InvalidRequest => 1,
            ErrorCode::NotOwner => 2,
            ErrorCode::BadState => 3,
            ErrorCode::Internal => 4,
        }
    }

    /// The number that names the error on the wire.
    pub fn code(self) -> (code: u16)
        ensures
            code == self.value(),
    {
        match self {
            ErrorCode::InvalidRequest => 1,
            ErrorCode::NotOwner => 2,
            ErrorCode::BadState => 3,
            ErrorCode::Internal => 4,
        }
    }

    /// The error that a wire number names.
    pub fn from_code(value: u16) -> (result: Result<Self, ProtocolError>)
        ensures
            match result {
                Ok(code) => code.value() == value,
                Err(e) => e == ProtocolError::UnknownError(value) && !(1 <= value <= 4),
            },
    {
        match value {
            1 => Ok(ErrorCode::InvalidRequest),
            2 => Ok(ErrorCode::NotOwner),
            3 => Ok(ErrorCode::BadState),
            4 => Ok(ErrorCode::Internal),
            _ => Err(ProtocolError::UnknownError(value)),
        }
    }
}

/// Two reports agree in every scalar field.
pub open spec fn same_counters(a: Stats, b: Stats) -> bool {
    &&& a.generation == b.generation
    &&& a.sample_position == b.sample_position
    &&& a.playback_position == b.playback_position
    &&& a.capture_position == b.capture_position
    &&& a.hw_playback_xruns == b.hw_playback_xruns
    &&& a.hw_capture_xruns == b.hw_capture_xruns
    &&& a.playback_delay_frames == b.playback_delay_frames
    &&& a.capture_delay_frames == b.capture_delay_frames
    &&& a.playback_delay_min_frames == b.playback_delay_min_frames
    &&& a.playback_delay_max_frames == b.playback_delay_max_frames
    &&& a.playback_ring_delay_frames == b.playback_ring_delay_frames
    &&& a.playback_ring_delay_min_frames == b.playback_ring_delay_min_frames
    &&& a.playback_ring_delay_max_frames == b.playback_ring_delay_max_frames
    &&& a.playback_driver_delay_frames == b.playback_driver_delay_frames
    &&& a.playback_driver_delay_min_frames == b.playback_driver_delay_min_frames
    &&& a.playback_driver_delay_max_frames == b.playback_driver_delay_max_frames
    &&& a.capture_delay_min_frames == b.capture_delay_min_frames
    &&& a.capture_delay_max_frames == b.capture_delay_max_frames
    &&& a.playback_target_overshoot_max_frames == b.playback_target_overshoot_max_frames
    &&& a.capture_clock_wait_max_nanos == b.capture_clock_wait_max_nanos
    &&& a.pro_wait_budget_min_nanos == b.pro_wait_budget_min_nanos
    &&& a.pro_wait_budget_max_nanos == b.pro_wait_budget_max_nanos
    &&& a.pro_ready_wait_max_nanos == b.pro_ready_wait_max_nanos
    &&& a.playback_write_max_nanos == b.playback_write_max_nanos
    &&& a.capture_to_playback_write_nanos == b.capture_to_playback_write_nanos
    &&& a.capture_to_playback_write_min_nanos == b.capture_to_playback_write_min_nanos
    &&& a.capture_to_playback_write_max_nanos == b.capture_to_playback_write_max_nanos
    &&& a.duplex_pointer_phase_nanos == b.duplex_pointer_phase_nanos
    &&& a.duplex_pointer_phase_min_nanos == b.duplex_pointer_phase_min_nanos
    &&& a.duplex_pointer_phase_max_nanos == b.duplex_pointer_phase_max_nanos
    &&& a.duplex_pointer_phase_samples == b.duplex_pointer_phase_samples
    &&& a.linked_phase_attempts == b.linked_phase_attempts
    &&& a.linked_phase_rebases == b.linked_phase_rebases
    &&& a.linked_phase_score_nanos == b.linked_phase_score_nanos
    &&& a.linked_phase_target_met == b.linked_phase_target_met
    &&& a.playback_low_watermarks == b.playback_low_watermarks
    &&& a.pro_deadline_misses == b.pro_deadline_misses
    &&& a.pro_client_deadline_misses == b.pro_client_deadline_misses
    &&& a.pro_core_deadline_misses == b.pro_core_deadline_misses
    &&& a.pro_capture_overruns == b.pro_capture_overruns
    &&& a.pro_expired_capture_blocks == b.pro_expired_capture_blocks
    &&& a.pro_playback_submit_failures == b.pro_playback_submit_failures
    &&& a.pro_realtime_failures == b.pro_realtime_failures
    &&& a.pro_callback_overruns == b.pro_callback_overruns
    &&& a.pro_callback_max_nanos == b.pro_callback_max_nanos
    &&& a.pro_playback_blocks == b.pro_playback_blocks
    &&& a.pro_playback_nonzero_blocks == b.pro_playback_nonzero_blocks
    &&& a.shared_underruns == b.shared_underruns
    &&& a.shared_overruns == b.shared_overruns
    &&& a.timeline_resets == b.timeline_resets
    &&& a.periods_processed == b.periods_processed
}

/// A report is determined by its words: signed values and the flag are recovered exactly.
pub proof fn stats_words_determine_counters(a: Stats, b: Stats)
    requires
        stats_words(a) == stats_words(b),
    ensures
        same_counters(a, b),
{
    let x = stats_words(a);
    let y = stats_words(b);
    assert(x[0] == a.generation && y[0] == b.generation);
    assert(x[1] == a.sample_position && y[1] == b.sample_position);
    assert(x[2] == a.playback_position && y[2] == b.playback_position);
    assert(x[3] == a.capture_position && y[3] == b.capture_position);
    assert(x[4] == a.hw_playback_xruns && y[4] == b.hw_playback_xruns);
    assert(x[5] == a.hw_capture_xruns && y[5] == b.hw_capture_xruns);
    assert(x[6] == a.playback_delay_frames && y[6] == b.playback_delay_frames);
    assert(x[7] == a.capture_delay_frames && y[7] == b.capture_delay_frames);
    assert(x[8] == a.playback_delay_min_frames && y[8] == b.playback_delay_min_frames);
    assert(x[9] == a.playback_delay_max_frames && y[9] == b.playback_delay_max_frames);
    assert(x[10] == a.playback_ring_delay_frames && y[10] == b.playback_ring_delay_frames);
    assert(x[11] == a.playback_ring_delay_min_frames && y[11] == b.playback_ring_delay_min_frames);
    assert(x[12] == a.playback_ring_delay_max_frames && y[12] == b.playback_ring_delay_max_frames);
    assert(x[13] == a.playback_driver_delay_frames && y[13] == b.playback_driver_delay_frames);
    assert(x[14] == a.playback_driver_delay_min_frames && y[14] == b.playback_driver_delay_min_frames);
    assert(x[15] == a.playback_driver_delay_max_frames && y[15] == b.playback_driver_delay_max_frames);
    assert(x[16] == a.capture_delay_min_frames && y[16] == b.capture_delay_min_frames);
    assert(x[17] == a.capture_delay_max_frames && y[17] == b.capture_delay_max_frames);
    assert(x[18] == a.playback_target_overshoot_max_frames && y[18] == b.playback_target_overshoot_max_frames);
    assert(x[19] == a.capture_clock_wait_max_nanos && y[19] == b.capture_clock_wait_max_nanos);
    assert(x[20] == a.pro_wait_budget_min_nanos && y[20] == b.pro_wait_budget_min_nanos);
    assert(x[21] == a.pro_wait_budget_max_nanos && y[21] == b.pro_wait_budget_max_nanos);
    assert(x[22] == a.pro_ready_wait_max_nanos && y[22] == b.pro_ready_wait_max_nanos);
    assert(x[23] == a.playback_write_max_nanos && y[23] == b.playback_write_max_nanos);
    assert(x[24] == a.capture_to_playback_write_nanos && y[24] == b.capture_to_playback_write_nanos);
    assert(x[25] == a.capture_to_playback_write_min_nanos && y[25] == b.capture_to_playback_write_min_nanos);
    assert(x[26] == a.capture_to_playback_write_max_nanos && y[26] == b.capture_to_playback_write_max_nanos);
    assert(x[27] == a.duplex_pointer_phase_nanos as u64 && y[27] == b.duplex_pointer_phase_nanos as u64);
    assert(x[28] == a.duplex_pointer_phase_min_nanos as u64 && y[28] == b.duplex_pointer_phase_min_nanos as u64);
    assert(x[29] == a.duplex_pointer_phase_max_nanos as u64 && y[29] == b.duplex_pointer_phase_max_nanos as u64);
    assert(x[30] == a.duplex_pointer_phase_samples && y[30] == b.duplex_pointer_phase_samples);
    assert(x[31] == a.linked_phase_attempts && y[31] == b.linked_phase_attempts);
    assert(x[32] == a.linked_phase_rebases && y[32] == b.linked_phase_rebases);
    assert(x[33] == a.linked_phase_score_nanos && y[33] == b.linked_phase_score_nanos);
    assert(x[34] == flag_word(a.linked_phase_target_met) && y[34] == flag_word(b.linked_phase_target_met));
    assert(x[35] == a.playback_low_watermarks && y[35] == b.playback_low_watermarks);
    assert(x[36] == a.pro_deadline_misses && y[36] == b.pro_deadline_misses);
    assert(x[37] == a.pro_client_deadline_misses && y[37] == b.pro_client_deadline_misses);
    assert(x[38] == a.pro_core_deadline_misses && y[38] == b.pro_core_deadline_misses);
    assert(x[39] == a.pro_capture_overruns && y[39] == b.pro_capture_overruns);
    assert(x[40] == a.pro_expired_capture_blocks && y[40] == b.pro_expired_capture_blocks);
    assert(x[41] == a.pro_playback_submit_failures && y[41] == b.pro_playback_submit_failures);
    assert(x[42] == a.pro_realtime_failures && y[42] == b.pro_realtime_failures);
    assert(x[43] == a.pro_callback_overruns && y[43] == b.pro_callback_overruns);
    assert(x[44] == a.pro_callback_max_nanos && y[44] == b.pro_callback_max_nanos);
    assert(x[45] == a.pro_playback_blocks && y[45] == b.pro_playback_blocks);
    assert(x[46] == a.pro_playback_nonzero_blocks && y[46] == b.pro_playback_nonzero_blocks);
    assert(x[47] == a.shared_underruns && y[47] == b.shared_underruns);
    assert(x[48] == a.shared_overruns && y[48] == b.shared_overruns);
    assert(x[49] == a.timeline_resets && y[49] == b.timeline_resets);
    assert(x[50] == a.periods_processed && y[50] == b.periods_processed);
    lemma_signed_word(a.duplex_pointer_phase_nanos);
    lemma_signed_word(b.duplex_pointer_phase_nanos);
    lemma_signed_word(a.duplex_pointer_phase_min_nanos);
    lemma_signed_word(b.duplex_pointer_phase_min_nanos);
    lemma_signed_word(a.duplex_pointer_phase_max_nanos);
    lemma_signed_word(b.duplex_pointer_phase_max_nanos);
}

proof fn lemma_signed_word(value: i64)
    ensures
        (value as u64) as i64 == value,
{
    assert((value as u64) as i64 == value) by (bit_vector);
}

/// Every counter of a report has its own word, in declaration order.
pub proof fn every_counter_has_its_word(stats: Stats)
    ensures
        stats@.words.len() == 51,
        stats@.words[0] == stats.generation,
        stats@.words[1] == stats.sample_position,
        stats@.words[2] == stats.playback_position,
        stats@.words[3] == stats.capture_position,
        stats@.words[4] == stats.hw_playback_xruns,
        stats@.words[5] == stats.hw_capture_xruns,
        stats@.words[6] == stats.playback_delay_frames,
        stats@.words[7] == stats.capture_delay_frames,
        stats@.words[8] == stats.playback_delay_min_frames,
        stats@.words[9] == stats.playback_delay_max_frames,
        stats@.words[10] == stats.playback_ring_delay_frames,
        stats@.words[11] == stats.playback_ring_delay_min_frames,
        stats@.words[12] == stats.playback_ring_delay_max_frames,
        stats@.words[13] == stats.playback_driver_delay_frames,
        stats@.words[14] == stats.playback_driver_delay_min_frames,
        stats@.words[15] == stats.playback_driver_delay_max_frames,
        stats@.words[16] == stats.capture_delay_min_frames,
        stats@.words[17] == stats.capture_delay_max_frames,
        stats@.words[18] == stats.playback_target_overshoot_max_frames,
        stats@.words[19] == stats.capture_clock_wait_max_nanos,
        stats@.words[20] == stats.pro_wait_budget_min_nanos,
        stats@.words[21] == stats.pro_wait_budget_max_nanos,
        stats@.words[22] == stats.pro_ready_wait_max_nanos,
        stats@.words[23] == stats.playback_write_max_nanos,
        stats@.words[24] == stats.capture_to_playback_write_nanos,
        stats@.words[25] == stats.capture_to_playback_write_min_nanos,
        stats@.words[26] == stats.capture_to_playback_write_max_nanos,
        stats@.words[27] as i64 == stats.duplex_pointer_phase_nanos,
        stats@.words[28] as i64 == stats.duplex_pointer_phase_min_nanos,
        stats@.words[29] as i64 == stats.duplex_pointer_phase_max_nanos,
        stats@.words[30] == stats.duplex_pointer_phase_samples,
        stats@.words[31] == stats.linked_phase_attempts,
        stats@.words[32] == stats.linked_phase_rebases,
        stats@.words[33] == stats.linked_phase_score_nanos,
        stats.linked_phase_target_met ==> stats@.words[34] == 1,
        !stats.linked_phase_target_met ==> stats@.words[34] == 0,
        stats@.words[35] == stats.playback_low_watermarks,
        stats@.words[36] == stats.pro_deadline_misses,
        stats@.words[37] == stats.pro_client_deadline_misses,
        stats@.words[38] == stats.pro_core_deadline_misses,
        stats@.words[39] == stats.pro_capture_overruns,
        stats@.words[40] == stats.pro_expired_capture_blocks,
        stats@.words[41] == stats.pro_playback_submit_failures,
        stats@.words[42] == stats.pro_realtime_failures,
        stats@.words[43] == stats.pro_callback_overruns,
        stats@.words[44] == stats.pro_callback_max_nanos,
        stats@.words[45] == stats.pro_playback_blocks,
        stats@.words[46] == stats.pro_playback_nonzero_blocks,
        stats@.words[47] == stats.shared_underruns,
        stats@.words[48] == stats.shared_overruns,
        stats@.words[49] == stats.timeline_resets,
        stats@.words[50] == stats.periods_processed,
        stats@.ports.len() == stats.shared_playback_ports@.len(),
        forall|i: int|
            0 <= i < stats@.ports.len() ==> #[trigger] stats@.ports[i]
                == stats.shared_playback_ports@[i]@,
{
    lemma_signed_word(stats.duplex_pointer_phase_nanos);
    lemma_signed_word(stats.duplex_pointer_phase_min_nanos);
    lemma_signed_word(stats.duplex_pointer_phase_max_nanos);
}

/// Every counter of a shared port has its own word, in declaration order.
pub proof fn every_port_counter_has_its_word(port: SharedPlaybackPortStats)
    ensures
        port@.port_id == port.port_id@,
        port@.words.len() == 8,
        port@.words[0] == port.underruns,
        port@.words[1] == port.last_underrun_sequence,
        port@.words[2] == port.last_underrun_nanos,
        port@.words[3] == port.last_sequence_lag_periods,
        port@.words[4] == port.max_sequence_lag_periods,
        port@.words[5] == port.expired_playback_periods,
        port@.words[6] == port.playback_submit_failures,
        port@.words[7] == port.playback_xruns,
{
}

/// Every field of a description has its own place, in declaration order.
pub proof fn every_field_has_its_place(info: DeviceInfo, i: int)
    requires
        0 <= i,
    ensures
        info@.name == info.name@,
        info@.profile_fingerprint == info.profile_fingerprint,
        info@.geometry.len() == 11,
        info@.geometry[0] == info.rate,
        info@.geometry[1] == info.period_size,
        info@.geometry[2] == info.hardware_period_size,
        info@.geometry[3] == info.buffer_size,
        info@.geometry[4] == info.shared_buffer_size,
        info@.geometry[5] == info.pro_latency_periods,
        info@.geometry[6] == info.pro_output_latency_frames,
        info@.geometry[7] == info.pro_realtime_priority,
        info@.geometry[8] == info.shared_latency_periods,
        info@.geometry[9] == info.playback_channels,
        info@.geometry[10] == info.capture_channels,
        info@.playback_ports.len() == info.playback_ports@.len(),
        info@.capture_ports.len() == info.capture_ports@.len(),
        i < info@.playback_ports.len() ==> {
            &&& info@.playback_ports[i].id == info.playback_ports@[i].id@
            &&& info@.playback_ports[i].name == info.playback_ports@[i].name@
            &&& info@.playback_ports[i].channels == info.playback_ports@[i].channels@
        },
        i < info@.capture_ports.len() ==> {
            &&& info@.capture_ports[i].id == info.capture_ports@[i].id@
            &&& info@.capture_ports[i].name == info.capture_ports@[i].name@
            &&& info@.capture_ports[i].channels == info.capture_ports@[i].channels@
        },
{
}

/// Directions and errors go by fixed numbers.
pub proof fn directions_and_errors_are_numbered()
    ensures
        PortDirection::Playback.value() == 1,
        PortDirection::Capture.value() == 2,
        ErrorCode::InvalidRequest.value() == 1,
        ErrorCode::NotOwner.value() == 2,
        ErrorCode::BadState.value() == 3,
        ErrorCode::Internal.value() == 4,
        PROTOCOL_VERSION == 16,
        PROTOCOL_MAGIC@ == seq![0x53u8, 0x41u8, 0x4cu8, 0x53u8],
        MAX_FRAME_PAYLOAD == 65536,
        FEATURE_PRO == 1,
        FEATURE_SHARED == 2,
{
}

} // verus!
