//! What a profile says about the device and its ports, with every derived value settled.
use vstd::prelude::*;
use crate::loopback::StartupLoopbackConfig;

verus! {

#[derive(Clone, Copy, Debug, PartialEq, Eq, Structural)]
pub enum SampleFormat {
    S32Le,
    S24Le,
    S16Le,
}

/// One direction of the device.
#[derive(Clone, Debug, PartialEq, Eq)]
pub struct PcmConfig {
    pub device: String,
    pub channels: u32,
    pub format: SampleFormat,
}

/// The device and how it is driven.
#[derive(Clone, Debug, PartialEq, Eq)]
pub struct HardwareConfig {
    pub name: String,
    pub rate: u32,
    /// Frames of a client block.
    pub period_size: u32,
    /// Frames of a hardware period.
    pub hardware_period_size: u32,
    pub buffer_size: u32,
    pub shared_buffer_size: u32,
    pub playback_queue_periods: Option<u32>,
    pub playback_timer_scheduling: bool,
    /// Whether the two directions start together.
    pub duplex_link: bool,
    /// Whether linked cycles wait for the hardware instead of the clock.
    pub event_driven_linked_pro: bool,
    pub linked_playback_guard_frames: u32,
    pub linked_phase_max_attempts: u32,
    pub startup_loopback: Option<StartupLoopbackConfig>,
    pub shared_latency_periods: u32,
    pub shared_playback_repeat_on_underrun: bool,
    pub pro_latency_periods: u32,
    pub pro_output_latency_frames: u32,
    pub pro_handoff_nanos: u64,
    pub pro_realtime_priority: u32,
    pub realtime: bool,
    pub realtime_priority: u32,
    pub playback: PcmConfig,
    pub capture: PcmConfig,
}

/// A named group of physical channels.
#[derive(Clone, Debug, PartialEq, Eq)]
pub struct PortConfig {
    pub id: String,
    pub name: String,
    pub channels: Vec<u32>,
}

#[derive(Clone, Debug, PartialEq, Eq)]
pub struct PortsConfig {
    pub playback: Vec<PortConfig>,
    pub capture: Vec<PortConfig>,
}

#[derive(Clone, Debug, PartialEq, Eq)]
pub struct Profile {
    pub device: HardwareConfig,
    pub ports: PortsConfig,
}

} // verus!
