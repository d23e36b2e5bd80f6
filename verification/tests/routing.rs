use sidealsa::config::{
    HardwareConfig, PcmConfig, PortConfig, PortsConfig, Profile, SampleFormat,
};
use sidealsa::error::RoutingError;
use sidealsa::routing::RoutingTable;

fn profile() -> Profile {
    let stream = |channels| PcmConfig {
        device: "hw:Test,0".to_string(),
        channels,
        format: SampleFormat::S32Le,
    };
    Profile {
        device: HardwareConfig {
            name: "Test interface".to_string(),
            rate: 48_000,
            period_size: 32,
            hardware_period_size: 32,
            buffer_size: 64,
            shared_buffer_size: 64,
            playback_queue_periods: None,
            playback_timer_scheduling: false,
            duplex_link: false,
            event_driven_linked_pro: false,
            linked_playback_guard_frames: 0,
            linked_phase_max_attempts: 0,
            startup_loopback: None,
            shared_latency_periods: 0,
            shared_playback_repeat_on_underrun: false,
            pro_latency_periods: 0,
            pro_output_latency_frames: 0,
            pro_handoff_nanos: 0,
            pro_realtime_priority: 0,
            realtime: false,
            realtime_priority: 0,
            playback: stream(4),
            capture: stream(2),
        },
        ports: PortsConfig {
            playback: vec![PortConfig {
                id: "line1".to_string(),
                name: "Line 1".to_string(),
                channels: vec![1, 3],
            }],
            capture: vec![],
        },
    }
}

#[test]
fn compiles_immutable_port_channels() {
    let profile = profile();
    let routing = RoutingTable::compile(&profile, Ok(())).expect("routing should compile");
    let port = routing.find_playback("line1").expect("port should exist");

    assert_eq!(port.name(), "Line 1");
    assert_eq!(port.channels(), &[1, 3]);
}

#[test]
fn maps_physical_frames_to_logical_frames() {
    let profile = profile();
    let routing = RoutingTable::compile(&profile, Ok(())).expect("routing should compile");
    let port = routing.find_playback("line1").expect("port should exist");
    let physical = [10, 11, 12, 13, 20, 21, 22, 23];
    let mut logical = [0; 4];

    port.copy_from_physical(&physical, 4, 2, &mut logical)
        .expect("mapping should succeed");

    assert_eq!(logical, [11, 13, 21, 23]);
}

#[test]
fn maps_logical_frames_to_physical_frames() {
    let profile = profile();
    let routing = RoutingTable::compile(&profile, Ok(())).expect("routing should compile");
    let port = routing.find_playback("line1").expect("port should exist");
    let logical = [100, 101, 200, 201];
    let mut physical = [0; 8];

    port.copy_to_physical(&logical, 4, 2, &mut physical)
        .expect("mapping should succeed");

    assert_eq!(physical, [0, 100, 0, 101, 0, 200, 0, 201]);
}

#[test]
fn rejects_short_mapping_buffers() {
    let profile = profile();
    let routing = RoutingTable::compile(&profile, Ok(())).expect("routing should compile");
    let port = routing.find_playback("line1").expect("port should exist");
    let mut logical = [0; 2];

    let error = port
        .copy_from_physical(&[0; 8], 4, 2, &mut logical)
        .expect_err("mapping should fail");

    assert!(matches!(error, RoutingError::LogicalBufferTooSmall { .. }));
}

#[test]
fn mixes_logical_frames_with_saturation() {
    let profile = profile();
    let routing = RoutingTable::compile(&profile, Ok(())).expect("routing should compile");
    let port = routing.find_playback("line1").expect("port should exist");
    let logical = [i32::MAX, 2, -i32::MAX, -3];
    let mut physical = [0, i32::MAX - 1, 0, 0, 0, 0, 0, 0];

    port.add_to_physical_saturating(&logical, 4, 2, &mut physical)
        .expect("mix should succeed");

    assert_eq!(physical, [0, i32::MAX, 0, 2, 0, -i32::MAX, 0, -3]);
}

#[test]
fn a_block_longer_than_a_period_keeps_its_rest() {
    let profile = profile();
    let routing = RoutingTable::compile(&profile, Ok(())).expect("routing should compile");
    let port = routing.find_playback("line1").expect("port should exist");
    let mut physical = [0; 8];
    port.copy_to_physical(&[1, 2, 3, 4, 9, 9], 4, 2, &mut physical)
        .expect("mapping should succeed");
    let mut logical = [-1; 7];
    port.copy_from_physical(&physical, 4, 2, &mut logical).expect("mapping should succeed");
    assert_eq!(logical, [1, 2, 3, 4, -1, -1, -1]);
}
