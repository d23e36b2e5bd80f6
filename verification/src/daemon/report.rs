//! What the daemon reports about the device, its sessions and its counters.
use vstd::prelude::*;
use crate::config::{PortConfig, Profile};
use crate::daemon::session::PlaybackDiagnostics;
use crate::protocol::messages::{DeviceInfo, PortInfo, SharedPlaybackPortStats, Stats};
use crate::timeline::HardwareStats;

verus! {

/// Counters that a PRO client keeps in its region.
#[derive(Clone, Copy, Debug, PartialEq, Eq, Structural)]
pub struct ProClientDiagnostics {
    pub expired_capture_blocks: u64,
    pub playback_submit_failures: u64,
    pub realtime_failures: u64,
    pub callback_overruns: u64,
    pub callback_max_nanos: u64,
}

/// The counters of two clients of one group: what both count is added, and the longest callback is
/// the longer of the two. Playback is submitted by the playback client alone.
pub open spec fn combined_clients(
    output: ProClientDiagnostics,
    input: ProClientDiagnostics,
) -> ProClientDiagnostics {
    ProClientDiagnostics {
        expired_capture_blocks: crate::arith::clamp_u64(
            output.expired_capture_blocks + input.expired_capture_blocks,
        ),
        playback_submit_failures: output.playback_submit_failures,
        realtime_failures: crate::arith::clamp_u64(
            output.realtime_failures + input.realtime_failures,
        ),
        callback_overruns: crate::arith::clamp_u64(
            output.callback_overruns + input.callback_overruns,
        ),
        callback_max_nanos: crate::timeline::maximum(
            output.callback_max_nanos,
            input.callback_max_nanos,
        ),
    }
}

pub fn combine_clients(
    output: ProClientDiagnostics,
    input: ProClientDiagnostics,
) -> (both: ProClientDiagnostics)
    ensures
        both == combined_clients(output, input),
{
    ProClientDiagnostics {
        expired_capture_blocks: output.expired_capture_blocks.saturating_add(
            input.expired_capture_blocks,
        ),
        playback_submit_failures: output.playback_submit_failures,
        realtime_failures: output.realtime_failures.saturating_add(input.realtime_failures),
        callback_overruns: output.callback_overruns.saturating_add(input.callback_overruns),
        callback_max_nanos: if input.callback_max_nanos > output.callback_max_nanos {
            input.callback_max_nanos
        } else {
            output.callback_max_nanos
        },
    }
}

/// The report of hardware counters, client counters and shared ports.
pub open spec fn report_of(
    stats: HardwareStats,
    client: ProClientDiagnostics,
    shared_playback_ports: Vec<SharedPlaybackPortStats>,
) -> Stats {
    Stats {
        generation: stats.generation,
        sample_position: stats.sample_position,
        playback_position: stats.playback_position,
        capture_position: stats.capture_position,
        hw_playback_xruns: stats.hw_playback_xruns,
        hw_capture_xruns: stats.hw_capture_xruns,
        playback_delay_frames: stats.playback_delay_frames,
        capture_delay_frames: stats.capture_delay_frames,
        playback_delay_min_frames: stats.playback_delay_min_frames,
        playback_delay_max_frames: stats.playback_delay_max_frames,
        playback_ring_delay_frames: stats.playback_ring_delay_frames,
        playback_ring_delay_min_frames: stats.playback_ring_delay_min_frames,
        playback_ring_delay_max_frames: stats.playback_ring_delay_max_frames,
        playback_driver_delay_frames: stats.playback_driver_delay_frames,
        playback_driver_delay_min_frames: stats.playback_driver_delay_min_frames,
        playback_driver_delay_max_frames: stats.playback_driver_delay_max_frames,
        capture_delay_min_frames: stats.capture_delay_min_frames,
        capture_delay_max_frames: stats.capture_delay_max_frames,
        playback_target_overshoot_max_frames: stats.playback_target_overshoot_max_frames,
        capture_clock_wait_max_nanos: stats.capture_clock_wait_max_nanos,
        pro_wait_budget_min_nanos: stats.pro_wait_budget_min_nanos,
        pro_wait_budget_max_nanos: stats.pro_wait_budget_max_nanos,
        pro_ready_wait_max_nanos: stats.pro_ready_wait_max_nanos,
        playback_write_max_nanos: stats.playback_write_max_nanos,
        capture_to_playback_write_nanos: stats.capture_to_playback_write_nanos,
        capture_to_playback_write_min_nanos: stats.capture_to_playback_write_min_nanos,
        capture_to_playback_write_max_nanos: stats.capture_to_playback_write_max_nanos,
        duplex_pointer_phase_nanos: stats.duplex_pointer_phase_nanos,
        duplex_pointer_phase_min_nanos: stats.duplex_pointer_phase_min_nanos,
        duplex_pointer_phase_max_nanos: stats.duplex_pointer_phase_max_nanos,
        duplex_pointer_phase_samples: stats.duplex_pointer_phase_samples,
        linked_phase_attempts: stats.linked_phase_attempts,
        linked_phase_rebases: stats.linked_phase_rebases,
        linked_phase_score_nanos: stats.linked_phase_score_nanos,
        linked_phase_target_met: stats.linked_phase_target_met,
        playback_low_watermarks: stats.playback_low_watermarks,
        pro_deadline_misses: stats.pro_deadline_misses,
        pro_client_deadline_misses: stats.pro_client_deadline_misses,
        pro_core_deadline_misses: stats.pro_core_deadline_misses,
        pro_capture_overruns: stats.pro_capture_overruns,
        pro_expired_capture_blocks: client.expired_capture_blocks,
        pro_playback_submit_failures: client.playback_submit_failures,
        pro_realtime_failures: client.realtime_failures,
        pro_callback_overruns: client.callback_overruns,
        pro_callback_max_nanos: client.callback_max_nanos,
        pro_playback_blocks: stats.pro_playback_blocks,
        pro_playback_nonzero_blocks: stats.pro_playback_nonzero_blocks,
        shared_underruns: stats.shared_underruns,
        shared_overruns: stats.shared_overruns,
        timeline_resets: stats.timeline_resets,
        periods_processed: stats.periods_processed,
        shared_playback_ports,
    }
}

pub fn stats_from_core(
    stats: HardwareStats,
    client: ProClientDiagnostics,
    shared_playback_ports: Vec<SharedPlaybackPortStats>,
) -> (report: Stats)
    ensures
        report == report_of(stats, client, shared_playback_ports),
        report.generation == stats.generation,
        report.sample_position == stats.sample_position,
        report.playback_position == stats.playback_position,
        report.capture_position == stats.capture_position,
        report.hw_playback_xruns == stats.hw_playback_xruns,
        report.hw_capture_xruns == stats.hw_capture_xruns,
        report.playback_delay_frames == stats.playback_delay_frames,
        report.capture_delay_frames == stats.capture_delay_frames,
        report.playback_delay_min_frames == stats.playback_delay_min_frames,
        report.playback_delay_max_frames == stats.playback_delay_max_frames,
        report.playback_ring_delay_frames == stats.playback_ring_delay_frames,
        report.playback_ring_delay_min_frames == stats.playback_ring_delay_min_frames,
        report.playback_ring_delay_max_frames == stats.playback_ring_delay_max_frames,
        report.playback_driver_delay_frames == stats.playback_driver_delay_frames,
        report.playback_driver_delay_min_frames == stats.playback_driver_delay_min_frames,
        report.playback_driver_delay_max_frames == stats.playback_driver_delay_max_frames,
        report.capture_delay_min_frames == stats.capture_delay_min_frames,
        report.capture_delay_max_frames == stats.capture_delay_max_frames,
        report.playback_target_overshoot_max_frames == stats.playback_target_overshoot_max_frames,
        report.capture_clock_wait_max_nanos == stats.capture_clock_wait_max_nanos,
        report.pro_wait_budget_min_nanos == stats.pro_wait_budget_min_nanos,
        report.pro_wait_budget_max_nanos == stats.pro_wait_budget_max_nanos,
        report.pro_ready_wait_max_nanos == stats.pro_ready_wait_max_nanos,
        report.playback_write_max_nanos == stats.playback_write_max_nanos,
        report.capture_to_playback_write_nanos == stats.capture_to_playback_write_nanos,
        report.capture_to_playback_write_min_nanos == stats.capture_to_playback_write_min_nanos,
        report.capture_to_playback_write_max_nanos == stats.capture_to_playback_write_max_nanos,
        report.duplex_pointer_phase_nanos == stats.duplex_pointer_phase_nanos,
        report.duplex_pointer_phase_min_nanos == stats.duplex_pointer_phase_min_nanos,
        report.duplex_pointer_phase_max_nanos == stats.duplex_pointer_phase_max_nanos,
        report.duplex_pointer_phase_samples == stats.duplex_pointer_phase_samples,
        report.linked_phase_attempts == stats.linked_phase_attempts,
        report.linked_phase_rebases == stats.linked_phase_rebases,
        report.linked_phase_score_nanos == stats.linked_phase_score_nanos,
        report.linked_phase_target_met == stats.linked_phase_target_met,
        report.playback_low_watermarks == stats.playback_low_watermarks,
        report.pro_deadline_misses == stats.pro_deadline_misses,
        report.pro_client_deadline_misses == stats.pro_client_deadline_misses,
        report.pro_core_deadline_misses == stats.pro_core_deadline_misses,
        report.pro_capture_overruns == stats.pro_capture_overruns,
        report.pro_playback_blocks == stats.pro_playback_blocks,
        report.pro_playback_nonzero_blocks == stats.pro_playback_nonzero_blocks,
        report.shared_underruns == stats.shared_underruns,
        report.shared_overruns == stats.shared_overruns,
        report.timeline_resets == stats.timeline_resets,
        report.periods_processed == stats.periods_processed,
        report.pro_expired_capture_blocks == client.expired_capture_blocks,
        report.pro_playback_submit_failures == client.playback_submit_failures,
        report.pro_realtime_failures == client.realtime_failures,
        report.pro_callback_overruns == client.callback_overruns,
        report.pro_callback_max_nanos == client.callback_max_nanos,
        report.shared_playback_ports == shared_playback_ports,
{
    Stats {
        generation: stats.generation,
        sample_position: stats.sample_position,
        playback_position: stats.playback_position,
        capture_position: stats.capture_position,
        hw_playback_xruns: stats.hw_playback_xruns,
        hw_capture_xruns: stats.hw_capture_xruns,
        playback_delay_frames: stats.playback_delay_frames,
        capture_delay_frames: stats.capture_delay_frames,
        playback_delay_min_frames: stats.playback_delay_min_frames,
        playback_delay_max_frames: stats.playback_delay_max_frames,
        playback_ring_delay_frames: stats.playback_ring_delay_frames,
        playback_ring_delay_min_frames: stats.playback_ring_delay_min_frames,
        playback_ring_delay_max_frames: stats.playback_ring_delay_max_frames,
        playback_driver_delay_frames: stats.playback_driver_delay_frames,
        playback_driver_delay_min_frames: stats.playback_driver_delay_min_frames,
        playback_driver_delay_max_frames: stats.playback_driver_delay_max_frames,
        capture_delay_min_frames: stats.capture_delay_min_frames,
        capture_delay_max_frames: stats.capture_delay_max_frames,
        playback_target_overshoot_max_frames: stats.playback_target_overshoot_max_frames,
        capture_clock_wait_max_nanos: stats.capture_clock_wait_max_nanos,
        pro_wait_budget_min_nanos: stats.pro_wait_budget_min_nanos,
        pro_wait_budget_max_nanos: stats.pro_wait_budget_max_nanos,
        pro_ready_wait_max_nanos: stats.pro_ready_wait_max_nanos,
        playback_write_max_nanos: stats.playback_write_max_nanos,
        capture_to_playback_write_nanos: stats.capture_to_playback_write_nanos,
        capture_to_playback_write_min_nanos: stats.capture_to_playback_write_min_nanos,
        capture_to_playback_write_max_nanos: stats.capture_to_playback_write_max_nanos,
        duplex_pointer_phase_nanos: stats.duplex_pointer_phase_nanos,
        duplex_pointer_phase_min_nanos: stats.duplex_pointer_phase_min_nanos,
        duplex_pointer_phase_max_nanos: stats.duplex_pointer_phase_max_nanos,
        duplex_pointer_phase_samples: stats.duplex_pointer_phase_samples,
        linked_phase_attempts: stats.linked_phase_attempts,
        linked_phase_rebases: stats.linked_phase_rebases,
        linked_phase_score_nanos: stats.linked_phase_score_nanos,
        linked_phase_target_met: stats.linked_phase_target_met,
        playback_low_watermarks: stats.playback_low_watermarks,
        pro_deadline_misses: stats.pro_deadline_misses,
        pro_client_deadline_misses: stats.pro_client_deadline_misses,
        pro_core_deadline_misses: stats.pro_core_deadline_misses,
        pro_capture_overruns: stats.pro_capture_overruns,
        pro_expired_capture_blocks: client.expired_capture_blocks,
        pro_playback_submit_failures: client.playback_submit_failures,
        pro_realtime_failures: client.realtime_failures,
        pro_callback_overruns: client.callback_overruns,
        pro_callback_max_nanos: client.callback_max_nanos,
        pro_playback_blocks: stats.pro_playback_blocks,
        pro_playback_nonzero_blocks: stats.pro_playback_nonzero_blocks,
        shared_underruns: stats.shared_underruns,
        shared_overruns: stats.shared_overruns,
        timeline_resets: stats.timeline_resets,
        periods_processed: stats.periods_processed,
        shared_playback_ports,
    }
}

/// What is reported about a shared playback port.
pub open spec fn port_report_of(
    port_id: String,
    diagnostics: PlaybackDiagnostics,
) -> SharedPlaybackPortStats {
    SharedPlaybackPortStats {
        port_id,
        underruns: diagnostics.underruns,
        last_underrun_sequence: diagnostics.last_underrun_sequence,
        last_underrun_nanos: diagnostics.last_underrun_nanos,
        last_sequence_lag_periods: diagnostics.last_sequence_lag_periods,
        max_sequence_lag_periods: diagnostics.max_sequence_lag_periods,
        expired_playback_periods: diagnostics.expired_playback_periods,
        playback_submit_failures: diagnostics.playback_submit_failures,
        playback_xruns: diagnostics.playback_xruns,
    }
}

pub fn port_report(port_id: String, diagnostics: PlaybackDiagnostics) -> (report:
    SharedPlaybackPortStats)
    ensures
        report == port_report_of(port_id, diagnostics),
        report.port_id == port_id,
        report.underruns == diagnostics.underruns,
        report.last_underrun_sequence == diagnostics.last_underrun_sequence,
        report.last_underrun_nanos == diagnostics.last_underrun_nanos,
        report.last_sequence_lag_periods == diagnostics.last_sequence_lag_periods,
        report.max_sequence_lag_periods == diagnostics.max_sequence_lag_periods,
        report.expired_playback_periods == diagnostics.expired_playback_periods,
        report.playback_submit_failures == diagnostics.playback_submit_failures,
        report.playback_xruns == diagnostics.playback_xruns,
{
    SharedPlaybackPortStats {
        port_id,
        underruns: diagnostics.underruns,
        last_underrun_sequence: diagnostics.last_underrun_sequence,
        last_underrun_nanos: diagnostics.last_underrun_nanos,
        last_sequence_lag_periods: diagnostics.last_sequence_lag_periods,
        max_sequence_lag_periods: diagnostics.max_sequence_lag_periods,
        expired_playback_periods: diagnostics.expired_playback_periods,
        playback_submit_failures: diagnostics.playback_submit_failures,
        playback_xruns: diagnostics.playback_xruns,
    }
}

/// The ports of a profile as they are described to clients.
pub open spec fn described_ports(ports: Seq<PortConfig>) -> Seq<
    crate::protocol::messages::PortInfoModel,
> {
    Seq::new(
        ports.len(),
        |i: int|
            crate::protocol::messages::PortInfoModel {
                id: ports[i].id@,
                name: ports[i].name@,
                channels: ports[i].channels@,
            },
    )
}

fn copy_channels(channels: &Vec<u32>) -> (copy: Vec<u32>)
    ensures
        copy@ == channels@,
{
    let mut copy: Vec<u32> = Vec::new();
    let mut i: usize = 0;
    while i < channels.len()
        invariant
            i <= channels@.len(),
            copy@ =~= channels@.take(i as int),
        decreases channels.len() - i,
    {
        copy.push(channels[i]);
        i = i + 1;
    }
    assert(channels@.take(i as int) =~= channels@);
    copy
}

fn describe_ports(ports: &Vec<PortConfig>) -> (described: Vec<PortInfo>)
    ensures
        crate::protocol::messages::port_models(described@) == described_ports(ports@),
{
    let mut described: Vec<PortInfo> = Vec::new();
    let mut i: usize = 0;
    while i < ports.len()
        invariant
            i <= ports@.len(),
            described@.len() == i,
            forall|k: int|
                0 <= k < i ==> #[trigger] described@[k]@ == described_ports(ports@)[k],
        decreases ports.len() - i,
    {
        let port = &ports[i];
        let info = PortInfo {
            id: port.id.clone(),
            name: port.name.clone(),
            channels: copy_channels(&port.channels),
        };
        assert(info@ =~= described_ports(ports@)[i as int]);
        described.push(info);
        i = i + 1;
    }
    assert(crate::protocol::messages::port_models(described@) =~= described_ports(ports@));
    described
}

/// The description of a profile, whose fingerprint is given.
pub open spec fn description_of(
    profile: Profile,
    fingerprint: u64,
) -> crate::protocol::messages::DeviceInfoModel {
    crate::protocol::messages::DeviceInfoModel {
        name: profile.device.name@,
        profile_fingerprint: fingerprint,
        geometry: seq![
            profile.device.rate,
            profile.device.period_size,
            profile.device.hardware_period_size,
            profile.device.buffer_size,
            profile.device.shared_buffer_size,
            profile.device.pro_latency_periods,
            profile.device.pro_output_latency_frames,
            profile.device.pro_realtime_priority,
            profile.device.shared_latency_periods,
            profile.device.playback.channels,
            profile.device.capture.channels,
        ],
        playback_ports: described_ports(profile.ports.playback@),
        capture_ports: described_ports(profile.ports.capture@),
    }
}

pub fn device_info(profile: &Profile, fingerprint: u64) -> (info: DeviceInfo)
    ensures
        info@ == description_of(*profile, fingerprint),
{
    let info = DeviceInfo {
        name: profile.device.name.clone(),
        profile_fingerprint: fingerprint,
        rate: profile.device.rate,
        period_size: profile.device.period_size,
        hardware_period_size: profile.device.hardware_period_size,
        buffer_size: profile.device.buffer_size,
        shared_buffer_size: profile.device.shared_buffer_size,
        pro_latency_periods: profile.device.pro_latency_periods,
        pro_output_latency_frames: profile.device.pro_output_latency_frames,
        pro_realtime_priority: profile.device.pro_realtime_priority,
        shared_latency_periods: profile.device.shared_latency_periods,
        playback_channels: profile.device.playback.channels,
        capture_channels: profile.device.capture.channels,
        playback_ports: describe_ports(&profile.ports.playback),
        capture_ports: describe_ports(&profile.ports.capture),
    };
    assert(info@ =~= description_of(*profile, fingerprint));
    info
}

fn copy_ports(ports: &Vec<PortInfo>) -> (copy: Vec<PortInfo>)
    ensures
        crate::protocol::messages::port_models(copy@) == crate::protocol::messages::port_models(
            ports@,
        ),
{
    let mut copy: Vec<PortInfo> = Vec::new();
    let mut i: usize = 0;
    while i < ports.len()
        invariant
            i <= ports@.len(),
            copy@.len() == i,
            forall|k: int| 0 <= k < i ==> #[trigger] copy@[k]@ == ports@[k]@,
        decreases ports.len() - i,
    {
        let port = &ports[i];
        let info = PortInfo {
            id: port.id.clone(),
            name: port.name.clone(),
            channels: copy_channels(&port.channels),
        };
        assert(info@ =~= ports@[i as int]@);
        copy.push(info);
        i = i + 1;
    }
    assert(crate::protocol::messages::port_models(copy@)
        =~= crate::protocol::messages::port_models(ports@));
    copy
}

/// A description that says the same.
pub fn copy_info(info: &DeviceInfo) -> (copy: DeviceInfo)
    ensures
        copy@ == info@,
{
    let copy = DeviceInfo {
        name: info.name.clone(),
        profile_fingerprint: info.profile_fingerprint,
        rate: info.rate,
        period_size: info.period_size,
        hardware_period_size: info.hardware_period_size,
        buffer_size: info.buffer_size,
        shared_buffer_size: info.shared_buffer_size,
        pro_latency_periods: info.pro_latency_periods,
        pro_output_latency_frames: info.pro_output_latency_frames,
        pro_realtime_priority: info.pro_realtime_priority,
        shared_latency_periods: info.shared_latency_periods,
        playback_channels: info.playback_channels,
        capture_channels: info.capture_channels,
        playback_ports: copy_ports(&info.playback_ports),
        capture_ports: copy_ports(&info.capture_ports),
    };
    assert(copy@ =~= info@);
    copy
}

/// A report shows every counter under its own name: each hardware counter as the hardware has it,
/// each client counter as the client has it, and the ports that were looked at.
pub proof fn a_report_shows_every_counter(
    stats: HardwareStats,
    client: ProClientDiagnostics,
    ports: Vec<SharedPlaybackPortStats>,
)
    ensures
        report_of(stats, client, ports).generation == stats.generation,
        report_of(stats, client, ports).sample_position == stats.sample_position,
        report_of(stats, client, ports).playback_position == stats.playback_position,
        report_of(stats, client, ports).capture_position == stats.capture_position,
        report_of(stats, client, ports).hw_playback_xruns == stats.hw_playback_xruns,
        report_of(stats, client, ports).hw_capture_xruns == stats.hw_capture_xruns,
        report_of(stats, client, ports).playback_delay_frames == stats.playback_delay_frames,
        report_of(stats, client, ports).capture_delay_frames == stats.capture_delay_frames,
        report_of(stats, client, ports).playback_delay_min_frames == stats.playback_delay_min_frames,
        report_of(stats, client, ports).playback_delay_max_frames == stats.playback_delay_max_frames,
        report_of(stats, client, ports).playback_ring_delay_frames == stats.playback_ring_delay_frames,
        report_of(stats, client, ports).playback_ring_delay_min_frames == stats.playback_ring_delay_min_frames,
        report_of(stats, client, ports).playback_ring_delay_max_frames == stats.playback_ring_delay_max_frames,
        report_of(stats, client, ports).playback_driver_delay_frames == stats.playback_driver_delay_frames,
        report_of(stats, client, ports).playback_driver_delay_min_frames == stats.playback_driver_delay_min_frames,
        report_of(stats, client, ports).playback_driver_delay_max_frames == stats.playback_driver_delay_max_frames,
        report_of(stats, client, ports).capture_delay_min_frames == stats.capture_delay_min_frames,
        report_of(stats, client, ports).capture_delay_max_frames == stats.capture_delay_max_frames,
        report_of(stats, client, ports).playback_target_overshoot_max_frames == stats.playback_target_overshoot_max_frames,
        report_of(stats, client, ports).capture_clock_wait_max_nanos == stats.capture_clock_wait_max_nanos,
        report_of(stats, client, ports).pro_wait_budget_min_nanos == stats.pro_wait_budget_min_nanos,
        report_of(stats, client, ports).pro_wait_budget_max_nanos == stats.pro_wait_budget_max_nanos,
        report_of(stats, client, ports).pro_ready_wait_max_nanos == stats.pro_ready_wait_max_nanos,
        report_of(stats, client, ports).playback_write_max_nanos == stats.playback_write_max_nanos,
        report_of(stats, client, ports).capture_to_playback_write_nanos == stats.capture_to_playback_write_nanos,
        report_of(stats, client, ports).capture_to_playback_write_min_nanos == stats.capture_to_playback_write_min_nanos,
        report_of(stats, client, ports).capture_to_playback_write_max_nanos == stats.capture_to_playback_write_max_nanos,
        report_of(stats, client, ports).duplex_pointer_phase_nanos == stats.duplex_pointer_phase_nanos,
        report_of(stats, client, ports).duplex_pointer_phase_min_nanos == stats.duplex_pointer_phase_min_nanos,
        report_of(stats, client, ports).duplex_pointer_phase_max_nanos == stats.duplex_pointer_phase_max_nanos,
        report_of(stats, client, ports).duplex_pointer_phase_samples == stats.duplex_pointer_phase_samples,
        report_of(stats, client, ports).linked_phase_attempts == stats.linked_phase_attempts,
        report_of(stats, client, ports).linked_phase_rebases == stats.linked_phase_rebases,
        report_of(stats, client, ports).linked_phase_score_nanos == stats.linked_phase_score_nanos,
        report_of(stats, client, ports).linked_phase_target_met == stats.linked_phase_target_met,
        report_of(stats, client, ports).playback_low_watermarks == stats.playback_low_watermarks,
        report_of(stats, client, ports).pro_deadline_misses == stats.pro_deadline_misses,
        report_of(stats, client, ports).pro_client_deadline_misses == stats.pro_client_deadline_misses,
        report_of(stats, client, ports).pro_core_deadline_misses == stats.pro_core_deadline_misses,
        report_of(stats, client, ports).pro_capture_overruns == stats.pro_capture_overruns,
        report_of(stats, client, ports).pro_playback_blocks == stats.pro_playback_blocks,
        report_of(stats, client, ports).pro_playback_nonzero_blocks == stats.pro_playback_nonzero_blocks,
        report_of(stats, client, ports).shared_underruns == stats.shared_underruns,
        report_of(stats, client, ports).shared_overruns == stats.shared_overruns,
        report_of(stats, client, ports).timeline_resets == stats.timeline_resets,
        report_of(stats, client, ports).periods_processed == stats.periods_processed,
        report_of(stats, client, ports).pro_expired_capture_blocks == client.expired_capture_blocks,
        report_of(stats, client, ports).pro_playback_submit_failures == client.playback_submit_failures,
        report_of(stats, client, ports).pro_realtime_failures == client.realtime_failures,
        report_of(stats, client, ports).pro_callback_overruns == client.callback_overruns,
        report_of(stats, client, ports).pro_callback_max_nanos == client.callback_max_nanos,
        report_of(stats, client, ports).shared_playback_ports == ports,
{
}

/// Two clients of a group are reported as one: what both count is the sum, whichever of the two
/// counted it, a callback is as long as the longer of the two, and playback is submitted by the
/// playback client alone.
pub proof fn a_group_is_reported_as_one(
    output: ProClientDiagnostics,
    input: ProClientDiagnostics,
)
    requires
        output.expired_capture_blocks + input.expired_capture_blocks <= u64::MAX,
        output.realtime_failures + input.realtime_failures <= u64::MAX,
        output.callback_overruns + input.callback_overruns <= u64::MAX,
    ensures
        ({
            let both = combined_clients(output, input);
            &&& both.expired_capture_blocks == output.expired_capture_blocks
                + input.expired_capture_blocks
            &&& both.realtime_failures == output.realtime_failures + input.realtime_failures
            &&& both.callback_overruns == output.callback_overruns + input.callback_overruns
            &&& both.callback_max_nanos >= output.callback_max_nanos
            &&& both.callback_max_nanos >= input.callback_max_nanos
            &&& both.callback_max_nanos == output.callback_max_nanos || both.callback_max_nanos
                == input.callback_max_nanos
            &&& both.playback_submit_failures == output.playback_submit_failures
        }),
{
}

/// A description names the device and its ports as the profile does.
pub proof fn a_description_is_that_of_the_profile(profile: Profile, fingerprint: u64, i: int)
    ensures
        ({
            let shown = description_of(profile, fingerprint);
            &&& shown.name == profile.device.name@
            &&& shown.profile_fingerprint == fingerprint
            &&& shown.geometry.len() == 11
            &&& shown.geometry[0] == profile.device.rate
            &&& shown.geometry[1] == profile.device.period_size
            &&& shown.geometry[2] == profile.device.hardware_period_size
            &&& shown.geometry[3] == profile.device.buffer_size
            &&& shown.geometry[4] == profile.device.shared_buffer_size
            &&& shown.geometry[5] == profile.device.pro_latency_periods
            &&& shown.geometry[6] == profile.device.pro_output_latency_frames
            &&& shown.geometry[7] == profile.device.pro_realtime_priority
            &&& shown.geometry[8] == profile.device.shared_latency_periods
            &&& shown.geometry[9] == profile.device.playback.channels
            &&& shown.geometry[10] == profile.device.capture.channels
            &&& shown.playback_ports.len() == profile.ports.playback@.len()
            &&& shown.capture_ports.len() == profile.ports.capture@.len()
            &&& 0 <= i < shown.playback_ports.len() ==> {
                &&& shown.playback_ports[i].id == profile.ports.playback@[i].id@
                &&& shown.playback_ports[i].name == profile.ports.playback@[i].name@
                &&& shown.playback_ports[i].channels == profile.ports.playback@[i].channels@
            }
            &&& 0 <= i < shown.capture_ports.len() ==> {
                &&& shown.capture_ports[i].id == profile.ports.capture@[i].id@
                &&& shown.capture_ports[i].name == profile.ports.capture@[i].name@
                &&& shown.capture_ports[i].channels == profile.ports.capture@[i].channels@
            }
        }),
{
}

} // verus!
