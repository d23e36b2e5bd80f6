use sidealsa::protocol::{
    decode_request, decode_response, encode_request, encode_response, read_request, read_response,
    shared_slot_header_alignment, write_request, write_response, ByteReader, DeviceInfo, ErrorCode,
    IoErrorKind, PortDirection, PortInfo, ProtocolError, Request, Response,
    SharedPlaybackPortStats, SharedRegionLayout, Stats, SHARED_ALIGNMENT, SHARED_SLOT_COUNT,
};

#[test]
fn request_round_trip() {
    let request = Request::OpenShared {
        port_id: "line1".into(),
    };
    let bytes = encode_request(&request).expect("request should encode");
    let decoded = decode_request(&bytes).expect("request should decode");
    assert_eq!(decoded, request);
}

#[test]
fn response_round_trip() {
    let response = Response::Stats(Box::new(Stats {
        generation: 4,
        sample_position: 128,
        playback_position: 64,
        capture_position: 96,
        hw_playback_xruns: 1,
        hw_capture_xruns: 2,
        playback_delay_frames: 128,
        capture_delay_frames: 32,
        playback_delay_min_frames: 64,
        playback_delay_max_frames: 192,
        playback_ring_delay_frames: 63,
        playback_ring_delay_min_frames: 31,
        playback_ring_delay_max_frames: 95,
        playback_driver_delay_frames: 160,
        playback_driver_delay_min_frames: 128,
        playback_driver_delay_max_frames: 192,
        capture_delay_min_frames: 0,
        capture_delay_max_frames: 64,
        playback_target_overshoot_max_frames: 4,
        capture_clock_wait_max_nanos: 20,
        pro_wait_budget_min_nanos: 30,
        pro_wait_budget_max_nanos: 40,
        pro_ready_wait_max_nanos: 50,
        playback_write_max_nanos: 60,
        capture_to_playback_write_nanos: 70,
        capture_to_playback_write_min_nanos: 65,
        capture_to_playback_write_max_nanos: 75,
        duplex_pointer_phase_nanos: -500_000,
        duplex_pointer_phase_min_nanos: -600_000,
        duplex_pointer_phase_max_nanos: -400_000,
        duplex_pointer_phase_samples: 128,
        linked_phase_attempts: 3,
        linked_phase_rebases: 2,
        linked_phase_score_nanos: 333_333,
        linked_phase_target_met: true,
        playback_low_watermarks: 1,
        pro_deadline_misses: 3,
        pro_client_deadline_misses: 4,
        pro_core_deadline_misses: 5,
        pro_capture_overruns: 6,
        pro_expired_capture_blocks: 7,
        pro_playback_submit_failures: 8,
        pro_realtime_failures: 9,
        pro_callback_overruns: 10,
        pro_callback_max_nanos: 11,
        pro_playback_blocks: 12,
        pro_playback_nonzero_blocks: 13,
        shared_underruns: 14,
        shared_overruns: 15,
        timeline_resets: 16,
        periods_processed: 17,
        shared_playback_ports: vec![SharedPlaybackPortStats {
            port_id: "line1".into(),
            underruns: 18,
            last_underrun_sequence: 19,
            last_underrun_nanos: 20,
            last_sequence_lag_periods: 21,
            max_sequence_lag_periods: 22,
            expired_playback_periods: 23,
            playback_submit_failures: 24,
            playback_xruns: 25,
        }],
    }));
    let bytes = encode_response(&response).expect("response should encode");
    let decoded = decode_response(&bytes).expect("response should decode");
    assert_eq!(decoded, response);
}

#[test]
fn stream_helpers_read_and_write_frames() {
    let request = Request::GetInfo;
    let mut bytes = Vec::new();
    write_request(&mut bytes, &request).expect("request should write");
    let decoded = read_request(&mut ByteReader::new(bytes)).expect("request should read");
    assert_eq!(decoded, request);
}

#[test]
fn shared_response_round_trip() {
    let layout = SharedRegionLayout::new(32, 2, 0, SHARED_SLOT_COUNT)
        .expect("playback-only layout should compile");
    let response = Response::OpenShared {
        session_id: 7,
        direction: PortDirection::Playback,
        shared: layout.info(),
    };
    let bytes = encode_response(&response).expect("response should encode");
    let decoded = decode_response(&bytes).expect("response should decode");
    assert_eq!(decoded, response);
}

#[test]
fn shared_layout_is_aligned_and_non_overlapping() {
    let layout =
        SharedRegionLayout::new(32, 8, 10, SHARED_SLOT_COUNT).expect("layout should compile");
    let info = layout.info();
    assert_eq!(shared_slot_header_alignment(), SHARED_ALIGNMENT);
    assert_eq!(layout.capture_offset() % SHARED_ALIGNMENT, 0);
    assert_eq!(layout.playback_offset() % SHARED_ALIGNMENT, 0);
    assert!(layout.playback_offset() >= layout.capture_offset() + layout.slot_stride());
    assert_eq!(info.size as usize, layout.size());
}

#[test]
fn capture_only_layout_is_valid() {
    let layout = SharedRegionLayout::new(32, 0, 1, SHARED_SLOT_COUNT)
        .expect("capture-only layout should compile");
    assert_eq!(layout.info().playback_channels, 0);
    assert_eq!(layout.info().capture_channels, 1);
}

#[test]
fn malformed_payload_is_rejected() {
    let bytes = encode_request(&Request::GetInfo).expect("request should encode");
    let truncated = &bytes[..bytes.len() - 1];
    assert!(matches!(
        decode_request(truncated),
        Err(ProtocolError::MalformedPayload)
    ));
}

#[test]
fn texts_come_back_as_they_were_written() {
    let request = Request::OpenShared { port_id: "l\u{ed}nea \u{1d11e}".into() };
    let mut bytes = encode_request(&request).unwrap();
    assert_eq!(decode_request(&bytes), Ok(request));
    // Bytes that are no text are refused.
    let last = bytes.len() - 1;
    bytes[last] = 0xff;
    assert_eq!(decode_request(&bytes), Err(ProtocolError::MalformedPayload));
    let long = Request::OpenShared { port_id: "x".repeat(65_536) };
    assert_eq!(encode_request(&long), Err(ProtocolError::StringTooLong(65_536)));
}

#[test]
fn foreign_frames_are_refused() {
    let bytes = encode_request(&Request::Hello { version: 16 }).unwrap();
    let broken = |at: usize, value: u8| {
        let mut copy = bytes.clone();
        copy[at] = value;
        decode_request(&copy)
    };
    assert_eq!(broken(0, b'X'), Err(ProtocolError::InvalidMagic));
    assert_eq!(broken(4, 15), Err(ProtocolError::UnsupportedVersion(15)));
    assert_eq!(broken(6, 99), Err(ProtocolError::UnknownRequest(99)));
    assert!(matches!(broken(10, 2), Err(ProtocolError::FrameTooLarge(_))));
    let response = encode_response(&Response::Ack).unwrap();
    let mut unknown = response.clone();
    unknown[6] = 99;
    assert_eq!(decode_response(&unknown), Err(ProtocolError::UnknownResponse(99)));
}

#[test]
fn every_kind_of_message_survives_a_stream() {
    let info = DeviceInfo {
        name: "Test".into(),
        profile_fingerprint: 1,
        rate: 48_000,
        period_size: 64,
        hardware_period_size: 32,
        buffer_size: 256,
        shared_buffer_size: 256,
        pro_latency_periods: 1,
        pro_output_latency_frames: 128,
        pro_realtime_priority: 80,
        shared_latency_periods: 2,
        playback_channels: 8,
        capture_channels: 10,
        playback_ports: vec![PortInfo {
            id: "line1".into(),
            name: "Line 1".into(),
            channels: vec![0, 1],
        }],
        capture_ports: vec![],
    };
    let shared = SharedRegionLayout::new(32, 2, 2, SHARED_SLOT_COUNT).unwrap().info();
    let responses = vec![
        Response::Hello { version: 16, features: 3 },
        Response::Info(info),
        Response::OpenPro { session_id: 7, shared },
        Response::Ack,
        Response::Busy,
        Response::Unsupported,
        Response::Error { code: ErrorCode::NotOwner, message: "no".into() },
    ];
    let mut bytes = Vec::new();
    for response in &responses {
        write_response(&mut bytes, response).unwrap();
    }
    let mut reader = ByteReader::new(bytes);
    for response in responses {
        assert_eq!(read_response(&mut reader), Ok(response));
    }
    assert_eq!(
        read_response(&mut reader),
        Err(ProtocolError::Io(IoErrorKind::UnexpectedEof))
    );
}

#[test]
fn layouts_that_cannot_be_addressed_are_refused() {
    assert!(matches!(
        SharedRegionLayout::new(u32::MAX, u32::MAX, u32::MAX, u32::MAX),
        Err(ProtocolError::LayoutOverflow)
    ));
}
