use sidealsa::config::{
    HardwareConfig, PcmConfig, PortConfig, PortsConfig, Profile, SampleFormat,
};
use sidealsa::daemon::client::{
    region_effect, ClientConnection, DaemonReading, RegionEffect,
};
use sidealsa::daemon::report::ProClientDiagnostics;
use sidealsa::daemon::session::ClientPlaybackDiagnostics;
use sidealsa::daemon::state::{DaemonState, OpenSharedError, ProOwnership};
use sidealsa::protocol::{
    ErrorCode, PortDirection, Request, Response, SharedRegionInfo,
    SharedRegionLayout, FEATURE_PRO, FEATURE_SHARED, PROTOCOL_VERSION,
};
use sidealsa::timeline::HardwareTimeline;

fn profile() -> Profile {
    let stream = || PcmConfig {
        device: "hw:Test,0".to_string(),
        channels: 2,
        format: SampleFormat::S32Le,
    };
    Profile {
        device: HardwareConfig {
            name: "Test".to_string(),
            rate: 48_000,
            period_size: 32,
            hardware_period_size: 32,
            buffer_size: 64,
            shared_buffer_size: 64,
            playback_queue_periods: None,
            playback_timer_scheduling: false,
            duplex_link: false,
            event_driven_linked_pro: false,
            linked_playback_guard_frames: 0,
            linked_phase_max_attempts: 0,
            startup_loopback: None,
            shared_latency_periods: 0,
            shared_playback_repeat_on_underrun: false,
            pro_latency_periods: 0,
            pro_output_latency_frames: 0,
            pro_handoff_nanos: 0,
            pro_realtime_priority: 0,
            realtime: false,
            realtime_priority: 0,
            playback: stream(),
            capture: stream(),
        },
        ports: PortsConfig {
            playback: vec![PortConfig {
                id: "line1".to_string(),
                name: "Line 1".to_string(),
                channels: vec![0, 1],
            }],
            capture: vec![PortConfig {
                id: "mic1".to_string(),
                name: "Mic 1".to_string(),
                channels: vec![0],
            }],
        },
    }
}

fn counters(n: u64) -> ProClientDiagnostics {
    ProClientDiagnostics {
        expired_capture_blocks: n,
        playback_submit_failures: 10 * n,
        realtime_failures: 100 * n,
        callback_overruns: 1_000 * n,
        callback_max_nanos: 10_000 * n,
    }
}

fn reading(state: &DaemonState) -> DaemonReading {
    let mut timeline = HardwareTimeline::default();
    timeline.processed_frames(32, 1);
    DaemonReading {
        hardware: timeline.snapshot(),
        output: counters(1),
        input: counters(2),
        clients: state
            .shared
            .iter()
            .map(|_| ClientPlaybackDiagnostics {
                expired_playback_periods: 3,
                playback_submit_failures: 4,
                playback_xruns: 5,
            })
            .collect(),
    }
}

/// A daemon whose regions can always be made, unless told otherwise.
struct Server {
    state: DaemonState,
    failing: bool,
}

impl Server {
    fn new() -> Server {
        Server {
            state: DaemonState::new(&profile(), 0xfeed).expect("state should create"),
            failing: false,
        }
    }

    fn request(&mut self, client: &mut ClientConnection, request: Request) -> Response {
        let made: Result<SharedRegionInfo, String> =
            match client.open_request(&self.state, &request, 0) {
                Some(open) if !self.failing => {
                    let g = open.geometry;
                    SharedRegionLayout::new(
                        g.period_frames,
                        g.playback_channels,
                        g.capture_channels,
                        g.slot_count,
                    )
                    .map(|layout| layout.info())
                    .map_err(|error| format!("{error:?}"))
                }
                _ => Err("no memory".to_string()),
            };
        let reading = reading(&self.state);
        client.handle(&mut self.state, &request, &made, 0, &reading)
    }

    fn connect(&mut self) -> ClientConnection {
        let mut client = ClientConnection::new();
        let hello = self.request(&mut client, Request::Hello { version: PROTOCOL_VERSION });
        assert!(matches!(hello, Response::Hello { .. }));
        client
    }
}

fn refusal(response: Response) -> (ErrorCode, String) {
    match response {
        Response::Error { code, message } => (code, message),
        response => panic!("unexpected response: {response:?}"),
    }
}

#[test]
fn control_enforces_exclusive_pro_owner() {
    let mut server = Server::new();

    let mut first = ClientConnection::new();
    let hello = server.request(&mut first, Request::Hello { version: PROTOCOL_VERSION });
    assert!(matches!(hello, Response::Hello { features, .. } if features & FEATURE_SHARED != 0));
    let session_id = match server.request(&mut first, Request::OpenPro) {
        Response::OpenPro { session_id, .. } => session_id,
        response => panic!("unexpected response: {response:?}"),
    };

    let mut second = server.connect();
    assert!(matches!(server.request(&mut second, Request::OpenPro), Response::Busy));
    second.disconnect(&mut server.state);

    let mut shared = server.connect();
    let shared_session_id = match server
        .request(&mut shared, Request::OpenShared { port_id: "line1".into() })
    {
        Response::OpenShared { session_id, direction: PortDirection::Playback, .. } => session_id,
        response => panic!("unexpected response: {response:?}"),
    };
    assert!(matches!(
        server.request(&mut shared, Request::Start { session_id: shared_session_id }),
        Response::Ack
    ));
    assert!(matches!(
        server.request(&mut shared, Request::Close { session_id: shared_session_id }),
        Response::Ack
    ));
    shared.disconnect(&mut server.state);

    assert!(matches!(server.request(&mut first, Request::Start { session_id }), Response::Ack));
    assert!(matches!(server.request(&mut first, Request::Stop { session_id }), Response::Ack));
    assert!(matches!(server.request(&mut first, Request::Close { session_id }), Response::Ack));
    first.disconnect(&mut server.state);

    let mut third = server.connect();
    assert!(matches!(
        server.request(&mut third, Request::OpenPro),
        Response::OpenPro { .. }
    ));
}

#[test]
fn nothing_but_hello_is_answered_before_hello() {
    let mut server = Server::new();
    let mut client = ClientConnection::new();
    for request in [Request::GetInfo, Request::OpenPro, Request::Start { session_id: 1 }] {
        assert_eq!(
            refusal(server.request(&mut client, request)),
            (ErrorCode::BadState, "HELLO required".to_string())
        );
    }
    assert_eq!(
        refusal(server.request(&mut client, Request::Hello { version: 10_507 })),
        (ErrorCode::InvalidRequest, "unsupported client version 10507".to_string())
    );
    assert!(!client.hello);
    assert_eq!(
        server.request(&mut client, Request::Hello { version: PROTOCOL_VERSION }),
        Response::Hello { version: PROTOCOL_VERSION, features: FEATURE_PRO | FEATURE_SHARED }
    );
    assert!(client.hello);
}

#[test]
fn a_client_cannot_touch_the_session_of_another() {
    let mut server = Server::new();
    let mut owner = server.connect();
    server.request(&mut owner, Request::OpenPro);
    let session_id = owner.session.unwrap();
    let mut other = server.connect();
    for request in [
        Request::Start { session_id },
        Request::Stop { session_id },
        Request::Close { session_id },
    ] {
        assert_eq!(
            refusal(server.request(&mut other, request)),
            (ErrorCode::NotOwner, "session is not PRO owner".to_string())
        );
    }
    assert_eq!(server.state.ownership, ProOwnership::Classic(session_id));
    assert_eq!(
        refusal(server.request(&mut owner, Request::Stop { session_id })).0,
        ErrorCode::NotOwner
    );
    assert_eq!(
        refusal(server.request(&mut owner, Request::OpenPro)),
        (ErrorCode::BadState, "client already owns a session".to_string())
    );
}

#[test]
fn unknown_ports_and_missing_resources_are_reported() {
    let mut server = Server::new();
    let mut client = server.connect();
    assert_eq!(
        refusal(server.request(&mut client, Request::OpenShared { port_id: "line9".into() })),
        (ErrorCode::InvalidRequest, "unknown shared port 'line9'".to_string())
    );
    server.failing = true;
    assert_eq!(
        refusal(server.request(&mut client, Request::OpenShared { port_id: "mic1".into() })),
        (
            ErrorCode::InvalidRequest,
            "could not create shared session resources: no memory".to_string()
        )
    );
    assert_eq!(
        refusal(server.request(&mut client, Request::OpenPro)).0,
        ErrorCode::InvalidRequest
    );
    assert_eq!(client.session, None);
    server.failing = false;
    assert!(matches!(
        server.request(&mut client, Request::OpenShared { port_id: "mic1".into() }),
        Response::OpenShared { direction: PortDirection::Capture, session_id: 3, .. }
    ));
    let mut other = server.connect();
    assert!(matches!(
        server.request(&mut other, Request::OpenShared { port_id: "mic1".into() }),
        Response::Busy
    ));
}

#[test]
fn a_client_that_leaves_gives_up_its_session() {
    let mut server = Server::new();
    let mut client = server.connect();
    server.request(&mut client, Request::OpenPro);
    let session_id = client.session.unwrap();
    server.request(&mut client, Request::Start { session_id });
    client.disconnect(&mut server.state);
    assert!(!server.state.owns(session_id));
    assert_eq!(server.state.ownership, ProOwnership::Free);
    assert_eq!(server.state.playback_epoch, 1);
}

#[test]
fn info_and_stats_describe_the_daemon() {
    let mut server = Server::new();
    let mut client = server.connect();
    match server.request(&mut client, Request::GetInfo) {
        Response::Info(info) => {
            assert_eq!(info.name, "Test");
            assert_eq!(info.profile_fingerprint, 0xfeed);
            assert_eq!(info.period_size, 32);
            assert_eq!(info.playback_ports[0].id, "line1");
            assert_eq!(info.playback_ports[0].channels, vec![0, 1]);
            assert_eq!(info.capture_ports[0].name, "Mic 1");
        }
        response => panic!("unexpected response: {response:?}"),
    }
    match server.request(&mut client, Request::GetStats) {
        Response::Stats(stats) => {
            assert_eq!(stats.periods_processed, 1);
            assert_eq!(stats.pro_expired_capture_blocks, 1);
            assert_eq!(stats.shared_playback_ports.len(), 1);
            assert_eq!(stats.shared_playback_ports[0].port_id, "line1");
            assert_eq!(stats.shared_playback_ports[0].playback_xruns, 5);
        }
        response => panic!("unexpected response: {response:?}"),
    }
}

#[test]
fn the_counters_of_a_group_are_combined() {
    let mut state = DaemonState::new(&profile(), 0).unwrap();
    let read = reading(&state);
    let stats = |state: &DaemonState| {
        state.stats(read.hardware, read.output, read.input, &read.clients)
    };
    let capture =
        state.open_pro_direction(10, 20, (1, 2), PortDirection::Capture, true).unwrap();
    assert_eq!(stats(&state).pro_expired_capture_blocks, 2);
    assert_eq!(stats(&state).pro_playback_submit_failures, 20);
    state.open_pro_direction(10, 20, (1, 2), PortDirection::Playback, true).unwrap();
    let both = stats(&state);
    assert_eq!(both.pro_expired_capture_blocks, 3);
    assert_eq!(both.pro_playback_submit_failures, 10);
    assert_eq!(both.pro_realtime_failures, 300);
    assert_eq!(both.pro_callback_overruns, 3_000);
    assert_eq!(both.pro_callback_max_nanos, 20_000);
    assert!(state.close(capture));
    assert_eq!(stats(&state).pro_expired_capture_blocks, 1);
}

#[test]
fn session_ids_skip_the_reserved_ones() {
    let mut state = DaemonState::new(&profile(), 0).unwrap();
    state.next_session = u64::MAX - 1;
    assert_eq!(state.upcoming_session(), u64::MAX - 1);
    let last = state.open_pro(true).unwrap();
    assert_eq!(last, u64::MAX - 1);
    assert!(state.close(last));
    assert_eq!(state.open_pro(true), Some(1));
    assert!(!state.start(0, 0));
    assert!(!state.stop(u64::MAX));
    assert!(!state.close(0));
    assert!(!state.owns(u64::MAX));
}

#[test]
fn a_port_that_cannot_be_made_stays_free() {
    let mut state = DaemonState::new(&profile(), 0).unwrap();
    let clients = reading(&state).clients;
    assert_eq!(state.open_shared("line1", false, &clients), Err(OpenSharedError::Resources));
    assert_eq!(
        state.open_shared("line9", true, &clients),
        Err(OpenSharedError::UnknownPort("line9".to_string()))
    );
    assert_eq!(state.open_pro(false), None);
    let open = state.open_shared("line1", true, &clients).unwrap().unwrap();
    assert_eq!((open.session_id, open.port), (3, 0));
    assert_eq!(state.open_shared("line1", true, &clients), Ok(None));
}

#[test]
fn ports_outside_the_device_are_noticed() {
    let state = DaemonState::new(&profile(), 0).unwrap();
    assert_eq!(state.shared[0].logical_samples, 64);
    assert_eq!(state.shared[1].logical_samples, 32);
    assert_eq!(state.shared[1].session.geometry.slot_count, 4);
    assert!(state.ports_fit_device());

    let mut outside = profile();
    outside.ports.capture[0].channels = vec![2];
    assert!(!DaemonState::new(&outside, 0).unwrap().ports_fit_device());
}

#[test]
fn regions_follow_what_was_answered() {
    let start = Request::Start { session_id: 1 };
    let close = Request::Close { session_id: 1 };
    let refused = Response::Error { code: ErrorCode::NotOwner, message: String::new() };
    assert_eq!(region_effect(&start, &Response::Ack), RegionEffect::Restart);
    assert_eq!(region_effect(&close, &Response::Ack), RegionEffect::Retire);
    assert_eq!(region_effect(&close, &refused), RegionEffect::Keep);
    assert_eq!(region_effect(&Request::OpenPro, &Response::Busy), RegionEffect::Keep);
    let shared = SharedRegionLayout::new(32, 2, 2, 8).unwrap().info();
    assert_eq!(
        region_effect(&Request::OpenPro, &Response::OpenPro { session_id: 1, shared }),
        RegionEffect::Install
    );
}

#[test]
fn other_requests_do_not_need_a_free_id() {
    let mut server = Server::new();
    let mut client = server.connect();
    let opened = server.request(&mut client, Request::OpenPro);
    assert!(matches!(opened, Response::OpenPro { session_id: 1, .. }));
    server.state.next_session = 1;
    assert!(matches!(server.request(&mut client, Request::GetInfo), Response::Info(_)));
    let started = server.request(&mut client, Request::Start { session_id: 1 });
    assert!(matches!(started, Response::Ack));
    let closed = server.request(&mut client, Request::Close { session_id: 1 });
    assert!(matches!(closed, Response::Ack));
}
