use std::cell::RefCell;
use std::rc::Rc;

use sidealsa::config::{
    HardwareConfig, PcmConfig, PortConfig, PortsConfig, Profile, SampleFormat,
};
use sidealsa::daemon::capture::{
    begin_directional_capture, begin_pro_capture, continue_directional_capture,
    continue_pro_capture, finish_directional_capture, finish_pro_capture, process_capture,
    process_capture_for_playback, CaptureTask, DaemonCaptureBridge, PairStep, ProCaptureStep,
};
use sidealsa::daemon::playback::{synchronize, ClientView, DaemonPlaybackBridge, WaitTiming};
use sidealsa::daemon::port::{CaptureStep, PlaybackStep};
use sidealsa::daemon::report::ProClientDiagnostics;
use sidealsa::daemon::session::{
    ClientPlaybackDiagnostics, OpenRequest, PlaybackCommitBarrier, SessionGeometry, SessionState,
};
use sidealsa::daemon::state::{DaemonState, OpenSharedError};
use sidealsa::daemon::wait::{PlaybackReadyWait, WaitAction, WaitEvent};
use sidealsa::diagnostics::ProDiagnosticsSnapshot;
use sidealsa::protocol::{
    PortDirection, SharedRegionInfo, SharedRegionLayout, Stats, SHARED_CLIENT_IDLE,
    SHARED_CLIENT_RUNNING, SHARED_CLIENT_STARTING, SHARED_SLOT_COUNT,
};
use sidealsa::sequence::playback_sequence_lag;
use sidealsa::timeline::HardwareTimeline;

#[derive(Clone, Copy)]
struct Setup {
    period_size: u32,
    buffer_size: u32,
    shared_buffer_size: u32,
    shared_latency_periods: u32,
    repeat_on_underrun: bool,
}

const PROFILE: Setup = Setup {
    period_size: 4,
    buffer_size: 8,
    shared_buffer_size: 8,
    shared_latency_periods: 0,
    repeat_on_underrun: false,
};

fn profile(setup: Setup) -> Profile {
    let stream = || PcmConfig {
        device: "hw:Test,0".to_string(),
        channels: 2,
        format: SampleFormat::S32Le,
    };
    Profile {
        device: HardwareConfig {
            name: "Test".to_string(),
            rate: 48_000,
            period_size: setup.period_size,
            hardware_period_size: setup.period_size,
            buffer_size: setup.buffer_size,
            shared_buffer_size: setup.shared_buffer_size,
            playback_queue_periods: None,
            playback_timer_scheduling: false,
            duplex_link: false,
            event_driven_linked_pro: false,
            linked_playback_guard_frames: 0,
            linked_phase_max_attempts: 0,
            startup_loopback: None,
            shared_latency_periods: setup.shared_latency_periods,
            shared_playback_repeat_on_underrun: setup.repeat_on_underrun,
            pro_latency_periods: 0,
            pro_output_latency_frames: 0,
            pro_handoff_nanos: 10_000,
            pro_realtime_priority: 0,
            realtime: false,
            realtime_priority: 0,
            playback: stream(),
            capture: stream(),
        },
        ports: PortsConfig {
            playback: vec![PortConfig {
                id: "line1".to_string(),
                name: "Line 1".to_string(),
                channels: vec![0, 1],
            }],
            capture: vec![PortConfig {
                id: "mic1".to_string(),
                name: "Mic 1".to_string(),
                channels: vec![0],
            }],
        },
    }
}

/// A region as its client and the daemon see it.
#[derive(Clone)]
struct Region(Rc<RefCell<RegionData>>);

struct RegionData {
    info: SharedRegionInfo,
    playback: Vec<(u64, Vec<i32>, u64)>,
    capture: Vec<(u64, Vec<i32>)>,
    client_state: u32,
    activation_ready: bool,
    start_sequence: u64,
    cycle_sequence: u64,
    playback_sequence: u64,
    hardware_generation: u64,
    lifecycle_generation: u64,
    client_playback_sequence: u64,
    capture_discontinuities: u64,
    counters: ClientPlaybackDiagnostics,
    capture_event: u64,
    playback_event: u64,
    ready_event: u64,
}

impl Region {
    fn create(request: OpenRequest) -> Region {
        let g = request.geometry;
        let layout = SharedRegionLayout::new(
            g.period_frames,
            g.playback_channels,
            g.capture_channels,
            g.slot_count,
        )
        .expect("layout should compile");
        Region(Rc::new(RefCell::new(RegionData {
            info: layout.info(),
            playback: Vec::new(),
            capture: Vec::new(),
            client_state: SHARED_CLIENT_IDLE,
            activation_ready: false,
            start_sequence: 0,
            cycle_sequence: 0,
            playback_sequence: 0,
            hardware_generation: request.hardware_generation,
            lifecycle_generation: 0,
            client_playback_sequence: 0,
            capture_discontinuities: 0,
            counters: ClientPlaybackDiagnostics {
                expired_playback_periods: 0,
                playback_submit_failures: 0,
                playback_xruns: 0,
            },
            capture_event: 0,
            playback_event: 0,
            ready_event: 0,
        })))
    }

    fn for_slot(session: &SessionState) -> Region {
        Region::create(OpenRequest {
            session_id: 0,
            hardware_generation: 0,
            geometry: session.geometry,
        })
    }

    fn info(&self) -> SharedRegionInfo {
        self.0.borrow().info
    }

    fn client_state(&self) -> u32 {
        self.0.borrow().client_state
    }

    fn set_client_state(&self, state: u32) {
        self.0.borrow_mut().client_state = state;
    }

    fn activation_ready(&self) -> bool {
        self.0.borrow().activation_ready
    }

    fn start_sequence(&self) -> u64 {
        self.0.borrow().start_sequence
    }

    fn cycle_sequence(&self) -> u64 {
        self.0.borrow().cycle_sequence
    }

    fn set_cycle_sequence(&self, sequence: u64) {
        self.0.borrow_mut().cycle_sequence = sequence;
    }

    fn playback_sequence(&self) -> u64 {
        self.0.borrow().playback_sequence
    }

    fn hardware_generation(&self) -> u64 {
        self.0.borrow().hardware_generation
    }

    fn lifecycle_generation(&self) -> u64 {
        self.0.borrow().lifecycle_generation
    }

    fn capture_discontinuities(&self) -> u64 {
        self.0.borrow().capture_discontinuities
    }

    fn ready_capture_slots(&self) -> usize {
        self.0.borrow().capture.len()
    }

    /// True when the activation was still pending.
    fn establish_activation(&self, sequence: u64) -> bool {
        let mut data = self.0.borrow_mut();
        if data.activation_ready {
            return false;
        }
        data.activation_ready = true;
        data.start_sequence = sequence;
        true
    }

    fn reset(&self) {
        let mut data = self.0.borrow_mut();
        data.playback.clear();
        data.capture.clear();
        data.capture_event = 0;
        data.playback_event = 0;
        data.ready_event = 0;
    }

    fn restart(&self, session: &SessionState) {
        self.reset();
        let mut data = self.0.borrow_mut();
        data.lifecycle_generation = session.lifecycle_generation;
        data.hardware_generation = session.lifecycle_hardware_generation;
        data.activation_ready = false;
        data.client_state = SHARED_CLIENT_STARTING;
    }

    fn publish(&self, index: &mut usize, sequence: u64, samples: &[i32]) -> bool {
        self.publish_at(index, sequence, samples, 1_000)
    }

    /// The client publishes a block, and is running from then on.
    fn publish_at(&self, index: &mut usize, sequence: u64, samples: &[i32], nanos: u64) -> bool {
        let mut data = self.0.borrow_mut();
        if data.playback.len() >= data.info.slot_count as usize {
            data.counters.playback_submit_failures += 1;
            return false;
        }
        *index += 1;
        data.playback.push((sequence, samples.to_vec(), nanos));
        data.client_playback_sequence = sequence;
        if data.client_state == SHARED_CLIENT_STARTING {
            data.client_state = SHARED_CLIENT_RUNNING;
        }
        true
    }

    fn has_ready_playback(&self, sequence: u64) -> bool {
        self.0.borrow().playback.iter().any(|block| block.0 == sequence)
    }

    fn take(&self, sequence: u64) -> Option<(Vec<i32>, u64)> {
        let mut data = self.0.borrow_mut();
        let found = data.playback.iter().position(|block| block.0 == sequence)?;
        let (_, samples, nanos) = data.playback.remove(found);
        Some((samples, nanos))
    }

    fn consume(&self, sequence: u64, output: &mut [i32]) -> bool {
        match self.take(sequence) {
            Some((samples, _)) => {
                output.copy_from_slice(&samples);
                true
            }
            None => false,
        }
    }

    fn publish_capture(&self, sequence: u64, samples: &[i32]) -> bool {
        let mut data = self.0.borrow_mut();
        if data.capture.len() >= data.info.slot_count as usize {
            return false;
        }
        data.capture.push((sequence, samples.to_vec()));
        true
    }

    fn read_capture(&self, _index: &mut usize, samples: &mut [i32]) -> Option<u64> {
        let mut data = self.0.borrow_mut();
        if data.capture.is_empty() {
            return None;
        }
        let (sequence, block) = data.capture.remove(0);
        samples.copy_from_slice(&block);
        Some(sequence)
    }

    fn notify_capture(&self) {
        self.0.borrow_mut().capture_event += 1;
    }

    fn notify_playback(&self) {
        self.0.borrow_mut().playback_event += 1;
    }

    fn notify_ready(&self) {
        self.0.borrow_mut().ready_event += 1;
    }

    fn take_capture_event(&self) -> Option<u64> {
        let count = std::mem::take(&mut self.0.borrow_mut().capture_event);
        if count == 0 { None } else { Some(count) }
    }

    fn take_playback_event(&self) -> Option<u64> {
        let count = std::mem::take(&mut self.0.borrow_mut().playback_event);
        if count == 0 { None } else { Some(count) }
    }

    fn take_ready_event(&self) -> Option<u64> {
        let count = std::mem::take(&mut self.0.borrow_mut().ready_event);
        if count == 0 { None } else { Some(count) }
    }

    fn view(&self, sequence: u64) -> ClientView {
        ClientView {
            activation_ready: self.activation_ready(),
            client_state: self.client_state(),
            start_sequence: self.start_sequence(),
            block_ready: self.has_ready_playback(sequence),
        }
    }
}

/// A shared port that was opened.
struct Opened {
    session_id: u64,
    shared: SharedRegionInfo,
}

/// The daemon with its regions, driven one period at a time.
struct Daemon {
    state: DaemonState,
    timeline: HardwareTimeline,
    pro: Region,
    pro_capture: Region,
    shared: Vec<Region>,
    capture: DaemonCaptureBridge,
    playback: DaemonPlaybackBridge,
    now: u64,
    /// What happens while the client's signal is waited for.
    while_waiting: Option<fn(&mut Daemon) -> PlaybackReadyWait>,
    waits: usize,
}

impl Daemon {
    fn new(setup: Setup) -> Daemon {
        let mut state = DaemonState::new(&profile(setup), 0).expect("state should create");
        assert!(state.ports_fit_device());
        let (capture, playback) = state.bridges();
        let shared = state.shared.iter().map(|port| Region::for_slot(&port.session)).collect();
        Daemon {
            pro: Region::for_slot(&state.pro),
            pro_capture: Region::for_slot(&state.pro_capture),
            shared,
            state,
            timeline: HardwareTimeline::default(),
            capture,
            playback,
            now: 1_000,
            while_waiting: None,
            waits: 0,
        }
    }

    fn counters(&self) -> Vec<ClientPlaybackDiagnostics> {
        self.shared.iter().map(|region| region.0.borrow().counters).collect()
    }

    fn open_pro(&mut self) -> Option<(u64, SharedRegionInfo, Region)> {
        let request = self.state.pro_open_request(self.timeline.generation());
        let session = self.state.open_pro(true);
        assert_eq!(request.map(|r| r.session_id), session);
        self.pro = Region::create(request?);
        Some((session?, self.pro.info(), self.pro.clone()))
    }

    fn open_pro_direction(
        &mut self,
        pid: u32,
        uid: u32,
        token: (u64, u64),
        direction: PortDirection,
    ) -> Option<(u64, SharedRegionInfo, Region)> {
        let generation = self.timeline.generation();
        let request = self.state.pro_direction_request(pid, uid, token, direction, generation);
        let session = self.state.open_pro_direction(pid, uid, token, direction, true);
        assert_eq!(request.map(|r| r.session_id), session);
        let region = Region::create(request?);
        match direction {
            PortDirection::Playback => self.pro = region.clone(),
            PortDirection::Capture => self.pro_capture = region.clone(),
        }
        Some((session?, region.info(), region))
    }

    fn open_shared(&mut self, port: &str) -> Result<Option<Opened>, OpenSharedError> {
        let request = self.state.shared_open_request(port, self.timeline.generation());
        let counters = self.counters();
        let Some(open) = self.state.open_shared(port, true, &counters)? else {
            assert!(request.is_none());
            return Ok(None);
        };
        let region = Region::create(request.unwrap());
        let shared = region.info();
        self.shared[open.port] = region;
        Ok(Some(Opened { session_id: open.session_id, shared }))
    }

    fn region_of(&self, session_id: u64) -> Option<(SessionState, Region)> {
        if self.state.pro.owner == session_id {
            return Some((self.state.pro, self.pro.clone()));
        }
        if self.state.pro_capture.owner == session_id {
            return Some((self.state.pro_capture, self.pro_capture.clone()));
        }
        for (port, region) in self.state.shared.iter().zip(&self.shared) {
            if port.session.owner == session_id {
                return Some((port.session, region.clone()));
            }
        }
        None
    }

    fn start(&mut self, session_id: u64) -> bool {
        let started = self.state.start(session_id, self.timeline.generation());
        if started {
            let (session, region) = self.region_of(session_id).unwrap();
            region.restart(&session);
        }
        started
    }

    fn start_pro_aligned(&mut self, session_id: u64) -> bool {
        let started = self.state.start_pro_aligned(session_id, self.timeline.generation());
        if started {
            let (session, region) = self.region_of(session_id).unwrap();
            region.restart(&session);
        }
        started
    }

    fn stop(&mut self, session_id: u64) -> bool {
        let owned = self.region_of(session_id);
        let stopped = self.state.stop(session_id);
        if stopped {
            owned.unwrap().1.reset();
        }
        stopped
    }

    fn close(&mut self, session_id: u64) -> bool {
        let owned = self.region_of(session_id);
        let closed = self.state.close(session_id);
        if closed {
            owned.unwrap().1.reset();
        }
        closed
    }

    fn owns(&self, session_id: u64) -> bool {
        self.state.owns(session_id)
    }

    fn stats(&self) -> Stats {
        let none = ProClientDiagnostics {
            expired_capture_blocks: 0,
            playback_submit_failures: 0,
            realtime_failures: 0,
            callback_overruns: 0,
            callback_max_nanos: 0,
        };
        self.state.stats(self.timeline.snapshot(), none, none, &self.counters())
    }

    fn pro_diagnostics(&self) -> Option<ProDiagnosticsSnapshot> {
        self.state.pro_diagnostics()
    }

    fn activate_session(&mut self, session_id: u64, sequence: u64) {
        let (_, region) = self.region_of(session_id).expect("session should exist");
        region.set_cycle_sequence(sequence);
        assert!(region.establish_activation(sequence));
        if region.info().playback_channels == 0 {
            region.set_client_state(SHARED_CLIENT_RUNNING);
        }
    }

    fn activate_pair(&mut self, capture: u64, playback: u64) -> (PairStep, PairStep) {
        let generation = self.timeline.generation();
        let lifecycles =
            (self.pro.lifecycle_generation(), self.pro_capture.lifecycle_generation());
        let steps = self.state.activate_pair(
            &mut self.capture,
            generation,
            lifecycles,
            capture,
            playback,
        );
        match steps.0 {
            PairStep::Notify => self.pro.notify_playback(),
            PairStep::Activate(sequence) => {
                self.pro.set_cycle_sequence(sequence);
                self.pro.establish_activation(sequence);
                self.pro.notify_playback();
            }
            _ => {}
        }
        match steps.1 {
            PairStep::Notify => self.pro_capture.notify_capture(),
            PairStep::Activate(sequence) => {
                self.pro_capture.set_cycle_sequence(sequence);
                self.pro_capture.establish_activation(sequence);
                self.pro_capture.set_client_state(SHARED_CLIENT_RUNNING);
                self.pro_capture.notify_capture();
            }
            _ => {}
        }
        steps
    }

    fn publish_pro_capture(&mut self, sequence: u64, samples: &[i32]) {
        let region = self.pro.clone();
        region.set_cycle_sequence(sequence);
        match begin_pro_capture(
            self.state.pair_playback,
            &self.state.pro,
            self.timeline.generation(),
            region.info().capture_channels,
            region.client_state(),
        ) {
            ProCaptureStep::WakePlayback { activate } => {
                if activate {
                    region.establish_activation(sequence);
                }
                region.notify_playback();
            }
            ProCaptureStep::Activate => {
                let activated = region.establish_activation(sequence);
                if continue_pro_capture(activated, region.client_state()) == ProCaptureStep::Publish
                {
                    let published = region.publish_capture(sequence, samples);
                    if finish_pro_capture(&mut self.timeline, published) {
                        region.notify_capture();
                    }
                }
            }
            _ => {}
        }
    }

    fn publish_directional_capture(&mut self, sequence: u64, samples: &[i32]) {
        let region = self.pro_capture.clone();
        region.set_cycle_sequence(sequence);
        match begin_directional_capture(
            self.state.pair_capture,
            &self.state.pro_capture,
            self.timeline.generation(),
            region.client_state(),
        ) {
            ProCaptureStep::WakeCapture => region.notify_capture(),
            ProCaptureStep::Activate => {
                match continue_directional_capture(region.establish_activation(sequence)) {
                    ProCaptureStep::Run => region.set_client_state(SHARED_CLIENT_RUNNING),
                    _ => {
                        let published = region.publish_capture(sequence, samples);
                        if finish_directional_capture(&mut self.timeline, published) {
                            region.0.borrow_mut().capture_discontinuities += 1;
                        }
                    }
                }
                region.notify_capture();
            }
            _ => {}
        }
    }

    fn publish_shared_capture(&mut self, sequence: u64, samples: &[i32]) {
        for bridge in &mut self.capture.shared {
            let region = self.shared[bridge.index].clone();
            region.set_cycle_sequence(sequence);
            let session = &self.state.shared[bridge.index].session;
            if bridge.begin_capture(session, region.client_state()) != CaptureStep::Activate {
                continue;
            }
            let activated = region.establish_activation(sequence);
            match bridge.continue_capture(activated, samples) {
                CaptureStep::Run => region.set_client_state(SHARED_CLIENT_RUNNING),
                _ => {
                    let published = bridge.has_capture_room(region.ready_capture_slots())
                        && region.publish_capture(sequence, &bridge.scratch);
                    if bridge.finish_capture(&mut self.timeline, published) {
                        region.0.borrow_mut().capture_discontinuities += 1;
                    }
                    region.notify_capture();
                }
            }
        }
    }

    fn run_tasks(&mut self, tasks: Vec<CaptureTask>, samples: &[i32]) {
        for task in tasks {
            match task {
                CaptureTask::Pro(sequence) => self.publish_pro_capture(sequence, samples),
                CaptureTask::Directional(sequence) => {
                    self.publish_directional_capture(sequence, samples)
                }
                CaptureTask::Shared(sequence) => self.publish_shared_capture(sequence, samples),
            }
        }
    }

    fn process_capture(&mut self, sequence: u64, samples: &[i32]) {
        let steps = self.activate_pair(sequence, sequence);
        self.run_tasks(process_capture(steps, sequence), samples);
    }

    fn process_capture_for_playback(&mut self, hardware: u64, playback: u64, samples: &[i32]) {
        let steps = self.activate_pair(hardware, playback);
        self.run_tasks(process_capture_for_playback(steps, hardware, playback), samples);
    }

    fn process_deferred_capture(&mut self, hardware: u64, samples: &[i32]) {
        self.publish_shared_capture(hardware, samples);
    }

    fn prepare_playback(&mut self, sequence: u64) {
        self.pro.take_ready_event();
        self.pro.0.borrow_mut().playback_sequence = sequence;
        if synchronize(&mut self.state.pro, self.timeline.generation()) {
            self.pro.notify_playback();
        }
    }

    fn prepare_port(&mut self, i: usize, sequence: u64) {
        let bridge = &mut self.playback.shared[i];
        let port = &mut self.state.shared[bridge.index];
        let region = self.shared[bridge.index].clone();
        region.set_cycle_sequence(sequence);
        let identity =
            match bridge.begin_playback(&mut port.session, self.timeline.generation()) {
                PlaybackStep::Activate(identity) => identity,
                PlaybackStep::Notify => return region.notify_playback(),
                _ => return,
            };
        let activated = region.establish_activation(sequence);
        let expected =
            match bridge.continue_playback(sequence, activated, region.client_state()) {
                PlaybackStep::Consume(expected) => expected,
                PlaybackStep::Notify => return region.notify_playback(),
                _ => return,
            };
        let block = region.take(expected);
        let last_published = region.0.borrow().client_playback_sequence;
        bridge.finish_playback(
            &mut port.session,
            &mut port.diagnostics,
            &mut self.timeline,
            identity,
            sequence,
            block.as_ref().map(|b| b.0.as_slice()),
            last_published,
            self.now,
        );
        region.notify_playback();
    }

    fn commit_port(&mut self, i: usize, sequence: u64, output: &mut [i32]) {
        let bridge = &mut self.playback.shared[i];
        let region = &self.shared[bridge.index];
        bridge.commit_prepared(
            &mut self.state.shared[bridge.index].session,
            sequence,
            self.timeline.generation(),
            region.client_state(),
            output,
        );
    }

    fn prepare_playback_mix(&mut self, sequence: u64) {
        for i in 0..self.playback.shared.len() {
            self.prepare_port(i, sequence);
        }
        self.playback.mix_prepared(sequence);
    }

    fn commit_playback(&mut self, sequence: u64, output: &mut [i32]) {
        let prepared = self.playback.take_prepared_mix(sequence);
        for i in 0..self.playback.shared.len() {
            if !prepared {
                self.prepare_port(i, sequence);
            }
            self.commit_port(i, sequence, output);
        }
    }

    fn mark_playback_budget_exhausted(&mut self, sequence: u64) {
        self.playback.mark_playback_budget_exhausted(sequence);
    }

    fn wait_for_playback_before(&mut self, sequence: u64, cutoff: u64) {
        let now =
            if self.state.pro_diagnostics.is_enabled() { Some(self.now) } else { None };
        let view = self.pro.view(sequence);
        let generation = self.timeline.generation();
        let started = self.now;
        let Some(mut wait) = self.playback.begin_wait(
            &self.state.pro,
            sequence,
            cutoff,
            generation,
            now,
            view,
        ) else {
            return;
        };
        loop {
            let event = match wait.action() {
                WaitAction::Finish => break,
                WaitAction::Observe => WaitEvent::Observed {
                    session: self.state.pro,
                    hardware_generation: self.timeline.generation(),
                    client: self.pro.view(sequence),
                },
                WaitAction::Drain => {
                    self.pro.take_ready_event();
                    WaitEvent::Drained
                }
                WaitAction::ReadClock => WaitEvent::Now(self.now),
                WaitAction::Wait(cutoff) => {
                    self.waits += 1;
                    let outcome = match self.while_waiting.take() {
                        Some(act) => act(self),
                        None => {
                            self.now = cutoff;
                            PlaybackReadyWait::Timeout
                        }
                    };
                    WaitEvent::Waited(outcome)
                }
            };
            wait.step(event);
        }
        self.playback.finish_wait(wait, &mut self.timeline, self.now - started);
    }

    fn select(&mut self, sequence: u64, cutoff: Option<u64>, output: &mut [i32]) {
        let region = self.pro.clone();
        region.0.borrow_mut().playback_sequence = sequence;
        let view = region.view(sequence);
        let selection = self.playback.begin_selection(
            &mut self.state.pro,
            sequence,
            self.timeline.generation(),
            view,
        );
        if selection.blocked {
            region.notify_playback();
        }
        let mut block = None;
        let mut late = false;
        let mut published = None;
        if selection.selectable {
            region.take_ready_event();
            if selection.may_take(&self.state.pro, region.client_state()) {
                if let Some((samples, nanos)) = region.take(sequence) {
                    match cutoff {
                        Some(limit) => {
                            published = Some(nanos);
                            if nanos > limit {
                                late = true;
                            } else {
                                block = Some(samples);
                            }
                        }
                        None => block = Some(samples),
                    }
                }
            }
        }
        let started = if self.state.pro_diagnostics.is_enabled() { self.now } else { 0 };
        self.playback.finish_selection(
            selection,
            &mut self.state.pro,
            &mut self.timeline,
            &mut self.state.pro_diagnostics,
            cutoff,
            started,
            block.as_deref(),
            late,
            published,
            region.client_state(),
            output,
        );
        if selection.selectable {
            region.notify_playback();
        }
        region.0.borrow_mut().playback_sequence = sequence.wrapping_add(1);
    }

    fn process_playback(&mut self, sequence: u64, output: &mut [i32]) {
        self.select(sequence, None, output);
    }

    fn process_playback_before(&mut self, sequence: u64, cutoff: u64, output: &mut [i32]) {
        self.select(sequence, Some(cutoff), output);
    }

    fn process(&mut self, sequence: u64, capture: &[i32], output: &mut [i32]) {
        self.process_capture(sequence, capture);
        self.process_playback(sequence, output);
        self.commit_playback(sequence, output);
    }
}

#[test]
fn playback_lag_uses_wrapping_sequence_order() {
    assert_eq!(playback_sequence_lag(103, 102), 1);
    assert_eq!(playback_sequence_lag(0, u64::MAX), 1);
    assert_eq!(playback_sequence_lag(u64::MAX, 0), 0);
}

#[test]
fn aligned_pro_start_coalesces_both_orders_without_losing_capture() {
    for first_capture in [false, true] {
        let mut daemon = Daemon::new(PROFILE);
        let p = daemon.open_pro_direction(10, 20, (1, 2), PortDirection::Playback).unwrap().0;
        let c = daemon.open_pro_direction(10, 20, (1, 2), PortDirection::Capture).unwrap().0;

        assert!(daemon.start_pro_aligned(if first_capture { c } else { p }));
        daemon.process(100, &[1; 8], &mut [0; 8]);
        assert!(!daemon.pro.activation_ready());
        assert!(!daemon.pro_capture.activation_ready());
        assert!(daemon.start_pro_aligned(if first_capture { p } else { c }));
        daemon.process(101, &[2; 8], &mut [0; 8]);
        assert_eq!(daemon.pro.start_sequence(), 101);
        assert_eq!(daemon.pro_capture.start_sequence(), 101);
        assert_eq!(daemon.pro_capture.ready_capture_slots(), 0);
        daemon.process(102, &[3; 8], &mut [0; 8]);
        let mut samples = [0; 8];
        assert_eq!(
            daemon.pro_capture.read_capture(&mut 0, &mut samples),
            Some(102)
        );
        assert_eq!(samples, [3; 8]);
        assert!(!daemon.start_pro_aligned(p));
        assert!(daemon.stop(p));
        daemon.process(103, &[4; 8], &mut [0; 8]);
        assert_eq!(daemon.pro_capture.ready_capture_slots(), 1);
    }
}

#[test]
fn aligned_capture_starts_alone_after_one_cycle_and_peer_cannot_reset_it() {
    let mut daemon = Daemon::new(PROFILE);
    let p = daemon.open_pro_direction(10, 20, (1, 2), PortDirection::Playback).unwrap().0;
    let c = daemon.open_pro_direction(10, 20, (1, 2), PortDirection::Capture).unwrap().0;
    assert!(!daemon.start_pro_aligned(999));

    assert!(daemon.start_pro_aligned(c));
    daemon.process(10, &[1; 8], &mut [0; 8]);
    daemon.process(11, &[2; 8], &mut [0; 8]);
    assert_eq!(daemon.pro_capture.start_sequence(), 11);
    daemon.process(12, &[3; 8], &mut [0; 8]);
    assert!(daemon.start_pro_aligned(p));
    daemon.process(13, &[4; 8], &mut [0; 8]);
    assert_eq!(daemon.pro_capture.start_sequence(), 11);
    assert_eq!(daemon.pro.start_sequence(), 13);
    assert_eq!(daemon.pro_capture.ready_capture_slots(), 2);
    assert!(daemon.stop(c));
    assert!(daemon.stop(p));
    assert!(daemon.start_pro_aligned(c));
    daemon.process(20, &[0; 8], &mut [0; 8]);
    assert!(!daemon.pro_capture.activation_ready());
    daemon.process(21, &[0; 8], &mut [0; 8]);
    assert_eq!(daemon.pro_capture.start_sequence(), 21);
}

#[test]
fn pending_aligned_start_cancels_on_stop_close_and_requires_current_hardware() {
    let mut daemon = Daemon::new(PROFILE);
    let p = daemon.open_pro_direction(10, 20, (1, 2), PortDirection::Playback).unwrap().0;
    let c = daemon.open_pro_direction(10, 20, (1, 2), PortDirection::Capture).unwrap().0;

    assert!(daemon.start_pro_aligned(p));
    daemon.process(100, &[0; 8], &mut [0; 8]);
    assert!(!daemon.pro.activation_ready());
    assert!(daemon.stop(p));
    daemon.process(101, &[0; 8], &mut [0; 8]);
    assert!(!daemon.pro.activation_ready());
    // A normal start after cancellation must not inherit the pairing wait.
    assert!(daemon.start(p));
    daemon.process(102, &[0; 8], &mut [0; 8]);
    assert_eq!(daemon.pro.start_sequence(), 102);
    assert!(daemon.stop(p));

    assert!(daemon.start_pro_aligned(c));
    daemon.process(103, &[0; 8], &mut [0; 8]);
    assert!(!daemon.pro_capture.activation_ready());
    assert!(daemon.close(c));
    let new_c = daemon.open_pro_direction(10, 20, (1, 2), PortDirection::Capture).unwrap().0;
    daemon.process(104, &[0; 8], &mut [0; 8]);
    assert!(!daemon.pro_capture.activation_ready());
    assert!(!daemon.start_pro_aligned(c));
    assert!(daemon.start_pro_aligned(new_c));
    daemon.state.pro_capture.lifecycle_hardware_generation = u64::MAX;
    for sequence in [105, 106] {
        daemon.process(sequence, &[0; 8], &mut [0; 8]);
        assert!(!daemon.pro_capture.activation_ready());
        assert_eq!(daemon.pro_capture.ready_capture_slots(), 0);
    }
    assert!(daemon.stop(new_c));
    assert!(daemon.start_pro_aligned(new_c));
    daemon.process(107, &[0; 8], &mut [0; 8]);
    assert!(!daemon.pro_capture.activation_ready());
    daemon.process(108, &[0; 8], &mut [0; 8]);
    assert_eq!(daemon.pro_capture.start_sequence(), 108);
    daemon.process(109, &[42; 8], &mut [0; 8]);
    let mut samples = [0; 8];
    assert_eq!(
        daemon.pro_capture.read_capture(&mut 0, &mut samples),
        Some(109)
    );
    assert_eq!(samples, [42; 8]);
    let stats = daemon.timeline.snapshot();
    assert_eq!(stats.generation, 0);
    assert_eq!(stats.pro_deadline_misses, 0);
    assert_eq!(stats.hw_playback_xruns, 0);
    assert_eq!(stats.hw_capture_xruns, 0);
}

#[test]
fn directional_groups_require_pid_uid_capability_and_release_only_on_last_close() {
    for first in [PortDirection::Playback, PortDirection::Capture] {
        let mut daemon = Daemon::new(PROFILE);
        let second = if first == PortDirection::Playback {
            PortDirection::Capture
        } else {
            PortDirection::Playback
        };
        assert!(
            daemon.open_pro_direction(10, 20, (0, 0), first).is_none()
        );
        let a = daemon.open_pro_direction(10, 20, (1, 2), first).unwrap();
        assert_eq!(
            (a.1.playback_channels, a.1.capture_channels),
            if first == PortDirection::Playback {
                (2, 0)
            } else {
                (0, 2)
            }
        );
        assert!(daemon.open_pro().is_none());
        for (pid, uid, token, direction) in [
            (10, 20, (1, 2), first),
            (11, 20, (1, 2), second),
            (10, 21, (1, 2), second),
            (10, 20, (1, 3), second),
        ] {
            assert!(
                daemon.open_pro_direction(pid, uid, token, direction).is_none()
            );
        }
        let b = daemon.open_pro_direction(10, 20, (1, 2), second).unwrap();
        assert_ne!(a.0, b.0);
        assert!(!Rc::ptr_eq(&a.2.0, &b.2.0));
        assert!(daemon.close(a.0));
        assert!(daemon.owns(b.0));
        assert!(daemon.open_pro().is_none());
        assert!(daemon.close(b.0));
        let classic = daemon.open_pro().unwrap();
        assert_eq!(
            (classic.1.playback_channels, classic.1.capture_channels),
            (2, 2)
        );
        assert!(
            daemon.open_pro_direction(10, 20, (1, 2), first).is_none()
        );
        assert!(daemon.close(classic.0));
    }
}

#[test]
fn directional_lifecycles_capture_overflow_and_playback_close_are_independent() {
    let mut daemon = Daemon::new(PROFILE);
    let p = daemon.open_pro_direction(10, 20, (1, 2), PortDirection::Playback).unwrap();
    let c = daemon.open_pro_direction(10, 20, (1, 2), PortDirection::Capture).unwrap();
    assert!(daemon.start(c.0));
    assert!(daemon.start(p.0));

    daemon.process_capture_for_playback(10, 10, &[3; 8]);
    assert!(p.2.take_playback_event().is_some());
    assert!(p.2.take_capture_event().is_none());
    assert!(c.2.take_capture_event().is_some());
    assert_eq!(
        daemon.pro_capture.client_state(),
        SHARED_CLIENT_RUNNING
    );
    assert!(daemon.stop(p.0));
    assert!(daemon.start(p.0));
    daemon.process_capture_for_playback(11, 11, &[4; 8]);
    assert_eq!(daemon.pro_capture.ready_capture_slots(), 1);
    let c_generation = daemon.state.pro_capture.lifecycle_generation;
    assert!(daemon.close(p.0));
    let mut output = [99; 8];
    for sequence in 12..24 {
        daemon.process(sequence, &[5; 8], &mut output);
        assert_eq!(output, [0; 8]);
    }
    assert_eq!(
        daemon.state.pro_capture.lifecycle_generation,
        c_generation
    );
    assert_eq!(daemon.timeline.snapshot().pro_deadline_misses, 0);
    assert!(daemon.timeline.snapshot().pro_capture_overruns > 0);
    assert!(daemon.pro_capture.capture_discontinuities() > 0);
    c.2.take_capture_event().unwrap();
    daemon.process_capture(24, &[6; 8]);
    assert!(c.2.take_capture_event().is_some(), "overflow must wake capture");
    let epoch = daemon.state.playback_epoch;
    assert!(daemon.stop(c.0));
    assert!(daemon.start(c.0));
    assert_eq!(daemon.state.playback_epoch, epoch);
    assert_eq!(daemon.pro_capture.ready_capture_slots(), 0);
    daemon.process_capture(25, &[6; 8]);
    daemon.process_capture(26, &[6; 8]);
    assert_eq!(daemon.pro_capture.ready_capture_slots(), 1);
    assert_eq!(daemon.timeline.generation(), 0);
}

#[test]
fn directional_capture_close_does_not_reset_playback_and_stale_maps_are_isolated() {
    let mut daemon = Daemon::new(PROFILE);
    let p = daemon.open_pro_direction(10, 20, (1, 2), PortDirection::Playback).unwrap();
    let c = daemon.open_pro_direction(10, 20, (1, 2), PortDirection::Capture).unwrap();
    let stale_p = p.2.clone();
    let stale_c = c.2.clone();
    assert!(daemon.start(p.0));
    assert!(daemon.start(c.0));

    daemon.process_capture(10, &[0; 8]);
    let mut index = 0;
    let mut output = [0; 8];
    for sequence in [11, 12] {
        assert!(stale_p.publish(&mut index, sequence, &[7; 8]));
        daemon.process_playback(sequence, &mut output);
        assert_eq!(output, [7; 8]);
    }
    let epoch = daemon.state.playback_epoch;
    assert!(daemon.stop(c.0));
    assert!(daemon.start(c.0));
    assert!(daemon.close(c.0));
    assert_eq!(daemon.state.playback_epoch, epoch);
    assert!(stale_p.publish(&mut index, 13, &[8; 8]));
    daemon.process_playback(13, &mut output);
    assert_eq!(output, [8; 8]);
    assert!(daemon.close(p.0));
    let new_p = daemon.open_pro_direction(10, 20, (3, 4), PortDirection::Playback).unwrap();
    let new_c = daemon.open_pro_direction(10, 20, (3, 4), PortDirection::Capture).unwrap();
    assert!(daemon.start(new_p.0));
    assert!(daemon.start(new_c.0));
    stale_c.set_client_state(SHARED_CLIENT_IDLE);
    stale_p.set_client_state(SHARED_CLIENT_RUNNING);
    assert!(stale_p.publish(&mut index, 15, &[99; 8]));
    daemon.process(14, &[1; 8], &mut output);
    daemon.process(15, &[2; 8], &mut output);
    assert_eq!(output, [0; 8]);
    assert_eq!(daemon.pro_capture.ready_capture_slots(), 1);
    assert!(!daemon.stop(p.0));
    assert!(!daemon.close(c.0));
}

#[test]
fn directional_hardware_generation_mismatch_requires_independent_restart() {
    let mut daemon = Daemon::new(PROFILE);
    let p = daemon.open_pro_direction(10, 20, (1, 2), PortDirection::Playback).unwrap();
    let c = daemon.open_pro_direction(10, 20, (1, 2), PortDirection::Capture).unwrap();
    assert!(daemon.start(p.0));
    assert!(daemon.start(c.0));

    daemon.process_capture(10, &[1; 8]);
    daemon.state.pro.lifecycle_hardware_generation = u64::MAX;
    daemon.state.pro_capture.lifecycle_hardware_generation = u64::MAX;
    let mut output = [99; 8];
    daemon.process(11, &[2; 8], &mut output);
    assert_eq!(output, [0; 8]);
    assert_eq!(daemon.pro_capture.ready_capture_slots(), 0);
    assert!(c.2.take_capture_event().is_some());
    assert!(daemon.stop(c.0));
    assert!(daemon.start(c.0));
    daemon.process(12, &[3; 8], &mut output);
    daemon.process(13, &[4; 8], &mut output);
    assert_eq!(daemon.pro_capture.ready_capture_slots(), 1);
    assert_eq!(
        daemon.state.pro.lifecycle_hardware_generation,
        u64::MAX
    );
    assert!(daemon.stop(p.0));
    assert!(daemon.start(p.0));
    daemon.process_capture(14, &[5; 8]);
    let mut index = 0;
    assert!(
        daemon.pro.publish(&mut index, 15, &[8; 8])
    );
    daemon.process_playback(15, &mut output);
    assert_eq!(output, [8; 8]);
    assert_eq!(daemon.timeline.snapshot().pro_deadline_misses, 0);
}

#[test]
fn only_shared_capture_reserves_slots_and_reopen_preserves_geometry() {
    for (base_periods, capture_slots) in [(2, 4), (4, 8), (8, 16)] {
        let shared_buffer_size = PROFILE.period_size * base_periods;
        let mut daemon = Daemon::new(Setup { shared_buffer_size, ..PROFILE });
        assert_eq!(daemon.pro.info().slot_count, 8);
        assert_eq!(daemon.shared[0].info().slot_count, 8);
        assert_eq!(
            daemon.shared[1].info().slot_count,
            capture_slots
        );
        assert_eq!(
            daemon.capture.shared[0].capture_capacity_slots,
            capture_slots as usize
        );
        for _ in 0..2 {
            let (pro, info, _) = daemon.open_pro().unwrap();
            assert_eq!(info.slot_count, 8);
            assert!(daemon.close(pro));
            for (port, slots) in [("line1", 8), ("mic1", capture_slots)] {
                let opened = daemon.open_shared(port).unwrap().unwrap();
                assert_eq!(opened.shared.slot_count, slots);
                assert!(daemon.close(opened.session_id));
            }
        }
    }
}

#[test]
fn opening_session_seeds_current_hardware_generation() {
    let mut session = SessionState::new(
        false,
        SessionGeometry {
            period_frames: 4,
            playback_channels: 2,
            capture_channels: 2,
            slot_count: 8,
        },
    );

    let request = session.try_open(7, 23).expect("session should open");
    session.finish_open(7, true);

    assert_eq!(session.endpoint_session, 7);
    assert_eq!(Region::create(request).hardware_generation(), 23);
}

#[test]
fn playback_epoch_changes_only_when_active_output_is_removed() {
    let mut daemon = Daemon::new(PROFILE);
    let initial = daemon.state.playback_epoch;

    let pro = daemon.open_pro().unwrap().0;
    assert!(daemon.start(pro));
    assert_eq!(daemon.state.playback_epoch, initial);
    assert!(daemon.stop(pro));
    assert_eq!(
        daemon.state.playback_epoch,
        initial.wrapping_add(1)
    );
    assert!(daemon.close(pro));
    assert_eq!(
        daemon.state.playback_epoch,
        initial.wrapping_add(1)
    );

    let active_close = daemon.open_pro().unwrap().0;
    assert!(daemon.start(active_close));
    assert!(daemon.close(active_close));
    assert_eq!(
        daemon.state.playback_epoch,
        initial.wrapping_add(2)
    );

    let capture = daemon.open_shared("mic1").unwrap().expect("capture should open");
    assert!(daemon.start(capture.session_id));
    assert!(daemon.stop(capture.session_id));
    assert_eq!(
        daemon.state.playback_epoch,
        initial.wrapping_add(2)
    );

    let playback = daemon.open_shared("line1").unwrap().expect("playback should open");
    assert!(daemon.start(playback.session_id));
    assert!(daemon.stop(playback.session_id));
    assert_eq!(
        daemon.state.playback_epoch,
        initial.wrapping_add(3)
    );
}

#[test]
fn armed_pro_deadline_miss_keeps_hardware_running() {
    let mut daemon = Daemon::new(PROFILE);
    let session = daemon.open_pro().unwrap().0;
    assert!(daemon.start(session));
    daemon.activate_session(session, 9);

    let mut producer_index = 0;
    let mut output = [0; 8];
    for sequence in [10, 11] {
        assert!(daemon.pro.publish(
            &mut producer_index,
            sequence,
            &[sequence as i32; 8],
        ));
        daemon.process_playback(sequence, &mut output);
    }

    daemon.process_playback(12, &mut output);
    assert_eq!(output, [11; 8]);
    assert_eq!(daemon.timeline.snapshot().pro_deadline_misses, 1);
    assert_eq!(daemon.pro_diagnostics().unwrap().misses_recorded, 0);
}

#[test]
fn pro_diagnostics_distinguish_late_missing_and_unknown_wait_budget() {
    let mut daemon = Daemon::new(PROFILE);
    daemon.state.enable_pro_diagnostics();
    let session = daemon.open_pro().unwrap().0;
    assert!(daemon.start(session));
    daemon.activate_session(session, 9);

    let mut producer_index = 0;
    let mut output = [0; 8];
    daemon.prepare_playback(10);
    assert!(daemon.pro.publish(
        &mut producer_index,
        10,
        &[10; 8]
    ));
    daemon.process_playback_before(10, u64::MAX, &mut output);
    assert!(daemon.pro_diagnostics().unwrap().last_miss.is_none());

    daemon.wait_for_playback_before(11, 0);
    assert!(daemon.pro.publish(
        &mut producer_index,
        11,
        &[11; 8]
    ));
    daemon.mark_playback_budget_exhausted(11);
    daemon.process_playback_before(11, 0, &mut output);
    let late = daemon.pro_diagnostics().unwrap().last_miss.unwrap();
    assert_eq!(late.sequence, 11);
    assert_eq!(late.session_id, session);
    assert_eq!(late.wait_entry_budget_nanos, Some(0));
    assert!(late.late && late.core);
    assert!(late.published_nanos.is_some());
    assert_eq!(late.capture_to_publish_nanos, None);
    assert_eq!(output, [10; 8]);

    let cutoff = daemon.now.saturating_add(10_000);
    daemon.wait_for_playback_before(12, cutoff);
    daemon.process_playback_before(12, cutoff, &mut output);
    let missing = daemon.pro_diagnostics().unwrap().last_miss.unwrap();
    assert_eq!(missing.sequence, 12);
    assert!(missing.wait_entry_budget_nanos.is_some());
    assert!(!missing.late && !missing.core);
    assert_eq!(missing.published_nanos, None);

    daemon.process_playback_before(13, cutoff, &mut output);
    let snapshot = daemon.pro_diagnostics().unwrap();
    assert_eq!(snapshot.misses_recorded, 3);
    assert_eq!(snapshot.last_miss.unwrap().wait_entry_budget_nanos, None);
    let stats = daemon.timeline.snapshot();
    assert_eq!(stats.pro_core_deadline_misses, 1);
    assert_eq!(stats.pro_client_deadline_misses, 2);
    assert_eq!(stats.hw_playback_xruns, 0);
    assert_eq!(stats.generation, 0);

    for mismatch in 0..5 {
        let sequence = 14 + mismatch;
        let mut identity = daemon.playback.last_valid_pro_identity.unwrap();
        match mismatch {
            0 => identity.session_id += 1,
            1 => identity.lifecycle_generation += 1,
            2 => identity.hardware_generation += 1,
            _ => {}
        }
        let wait_sequence = sequence + u64::from(mismatch == 3);
        let wait_cutoff = cutoff + u64::from(mismatch == 4);
        daemon.playback.wait_timing = Some(WaitTiming {
            identity,
            sequence: wait_sequence,
            cutoff_nanos: wait_cutoff,
            budget_nanos: 123,
        });
        daemon.process_playback_before(sequence, cutoff, &mut output);
        let miss = daemon.pro_diagnostics().unwrap().last_miss.unwrap();
        assert_eq!(miss.wait_entry_budget_nanos, None);
        assert_eq!(miss.sequence, sequence);
    }
}

#[test]
fn exhausted_hardware_budget_is_not_charged_to_client() {
    let mut daemon = Daemon::new(PROFILE);
    let session = daemon.open_pro().unwrap().0;
    assert!(daemon.start(session));
    daemon.activate_session(session, 9);

    let mut producer_index = 0;
    assert!(daemon.pro.publish(
        &mut producer_index,
        10,
        &[10; 8],
    ));
    let mut output = [0; 8];
    daemon.process_playback(10, &mut output);

    daemon.mark_playback_budget_exhausted(11);
    daemon.process_playback(11, &mut output);

    assert_eq!(output, [10; 8]);
    let stats = daemon.timeline.snapshot();
    assert_eq!(stats.pro_deadline_misses, 1);
    assert_eq!(stats.pro_client_deadline_misses, 0);
    assert_eq!(stats.pro_core_deadline_misses, 1);
}

#[test]
fn starting_pro_does_not_wait_for_the_unpublishable_activation_block() {
    let mut daemon = Daemon::new(PROFILE);
    let session = daemon.open_pro().unwrap().0;
    assert!(daemon.start(session));
    daemon.activate_session(session, 9);

    let started = daemon.now;
    daemon.wait_for_playback_before(9, started.saturating_add(1_000_000_000));

    assert_eq!(daemon.waits, 0);
    assert!(daemon.now - started < 100_000_000);
}

#[test]
fn shared_start_publishes_activation_sequence() {
    let mut daemon = Daemon::new(PROFILE);
    let shared = daemon.open_shared("mic1").unwrap().expect("shared port should open");
    daemon.shared[1].set_cycle_sequence(42);

    assert!(daemon.start(shared.session_id));

    daemon.process_capture(43, &[0; 8]);
    assert_eq!(
        daemon.shared[1].start_sequence(),
        43
    );
    assert_eq!(
        daemon.shared[1].ready_capture_slots(),
        0
    );
}

#[test]
fn playback_commit_barrier_does_not_wait_for_later_cycles() {
    let mut barrier = PlaybackCommitBarrier::new();
    barrier.begin();
    let target = barrier.started;
    assert!(barrier.waits_for(target));
    barrier.end();
    barrier.begin();
    barrier.end();
    barrier.begin();

    assert!(!barrier.waits_for(target));
    assert_eq!(barrier.started, 3);
    assert_eq!(barrier.completed, 2);
    barrier.end();
}

#[test]
fn pro_and_shared_sessions_are_independent() {
    let mut daemon = Daemon::new(PROFILE);
    let (pro, _, _) = daemon.open_pro().unwrap();
    let shared = daemon.open_shared("line1").unwrap().expect("shared port should open");

    assert!(daemon.start(pro));
    assert!(daemon.start(shared.session_id));
    assert!(
        daemon.open_pro().is_none()
    );
    assert!(
        daemon.open_shared("line1").expect("port should exist").is_none()
    );
    assert!(
        daemon.open_shared("mic1").expect("port should exist").is_some()
    );
    assert!(daemon.close(pro));
    assert!(daemon.close(shared.session_id));
}

#[test]
fn shared_playback_client_diagnostics_survive_endpoint_replacement() {
    let mut daemon = Daemon::new(PROFILE);
    let first = daemon.open_shared("line1").unwrap().expect("shared port should open");
    {
        let endpoint = daemon.shared[0].clone();
        endpoint.0.borrow_mut().counters.expired_playback_periods += 3;
        endpoint.0.borrow_mut().counters.playback_xruns += 1;
        let mut producer_index = 0;
        for sequence in 0..u64::from(SHARED_SLOT_COUNT) {
            assert!(endpoint.publish(
                &mut producer_index,
                sequence,
                &[sequence as i32; 8],
            ));
        }
        assert!(!endpoint.publish(
            &mut producer_index,
            99,
            &[99; 8],
        ));
    }

    assert!(daemon.close(first.session_id));
    let second = daemon.open_shared("line1").unwrap().expect("shared port should reopen");
    let stats = daemon.stats();
    let port = &stats.shared_playback_ports[0];
    assert_eq!(port.port_id, "line1");
    assert_eq!(port.expired_playback_periods, 3);
    assert_eq!(port.playback_submit_failures, 1);
    assert_eq!(port.playback_xruns, 1);
    assert!(daemon.close(second.session_id));
}

#[test]
fn bridge_maps_shared_playback_and_capture() {
    let mut daemon = Daemon::new(PROFILE);
    let (pro_session, _, _) = daemon.open_pro().unwrap();
    let shared = daemon.open_shared("line1").unwrap().expect("shared port should open");
    let capture_session = daemon.open_shared("mic1").unwrap().expect("capture port should open");
    assert!(daemon.start(pro_session));
    assert!(daemon.start(shared.session_id));
    assert!(daemon.start(capture_session.session_id));
    daemon.activate_session(pro_session, u64::MAX);
    daemon.activate_session(shared.session_id, u64::MAX);
    daemon.activate_session(capture_session.session_id, u64::MAX);

    let mut pro_client_index = 0;
    let pro_playback = [100; 8];
    assert!(daemon.pro.publish(
        &mut pro_client_index,
        0,
        &pro_playback,
    ));
    let mut playback_client_index = 0;
    let playback = [10, 20, 30, 40, 50, 60, 70, 80];
    assert!(
        daemon.shared[0].publish(&mut playback_client_index, 0, &playback)
    );
    let capture = [1, 2, 3, 4, 5, 6, 7, 8];
    let mut output = [0; 8];
    daemon.process(0, &capture, &mut output);
    assert_eq!(output, [110, 120, 130, 140, 150, 160, 170, 180]);

    let mut capture_client_index = 0;
    let mut logical_capture = [0; 4];
    assert_eq!(
        daemon.shared[1].read_capture(&mut capture_client_index, &mut logical_capture),
        Some(0)
    );
    assert_eq!(logical_capture, [1, 3, 5, 7]);
    assert_eq!(daemon.timeline.snapshot().shared_underruns, 0);
    assert_eq!(daemon.timeline.snapshot().pro_deadline_misses, 0);
    assert_eq!(daemon.timeline.snapshot().hw_playback_xruns, 0);
}

#[test]
fn missing_pro_repeats_only_pro_then_mixes_current_shared() {
    let mut daemon = Daemon::new(PROFILE);
    let pro_session = daemon.open_pro().unwrap().0;
    let shared = daemon.open_shared("line1").unwrap().expect("shared port should open");
    assert!(daemon.start(pro_session));
    assert!(daemon.start(shared.session_id));
    daemon.activate_session(pro_session, 9);
    daemon.activate_session(shared.session_id, 9);

    let mut pro_index = 0;
    let mut shared_index = 0;
    assert!(daemon.pro.publish(
        &mut pro_index,
        10,
        &[100; 8],
    ));
    assert!(
        daemon.shared[0].publish(&mut shared_index, 10, &[10; 8])
    );
    let mut output = [0; 8];
    daemon.process_playback(10, &mut output);
    daemon.prepare_playback_mix(10);
    daemon.commit_playback(10, &mut output);
    assert_eq!(output, [110; 8]);

    assert!(
        daemon.shared[0].publish(&mut shared_index, 11, &[20; 8])
    );
    daemon.process_playback(11, &mut output);
    daemon.prepare_playback_mix(11);
    daemon.commit_playback(11, &mut output);

    assert_eq!(output, [120; 8]);
    assert_eq!(daemon.timeline.snapshot().pro_deadline_misses, 1);
    assert_eq!(daemon.timeline.snapshot().shared_underruns, 0);
}

#[test]
fn prepared_shared_mix_is_applied_once() {
    let mut daemon = Daemon::new(PROFILE);
    let shared = daemon.open_shared("line1").unwrap().expect("shared port should open");
    assert!(daemon.start(shared.session_id));
    daemon.activate_session(shared.session_id, u64::MAX);

    let mut producer_index = 0;
    let contribution = [10, 20, 30, 40, 50, 60, 70, 80];
    assert!(
        daemon.shared[0].publish(&mut producer_index, 0, &contribution)
    );

    let mut output = [0; 8];
    daemon.prepare_playback_mix(0);
    daemon.process_playback(0, &mut output);
    daemon.commit_playback(0, &mut output);

    assert_eq!(output, contribution);
}

#[test]
fn prepared_shared_mix_is_discarded_after_stop() {
    let mut daemon = Daemon::new(PROFILE);
    let shared = daemon.open_shared("line1").unwrap().expect("shared port should open");
    assert!(daemon.start(shared.session_id));
    daemon.activate_session(shared.session_id, u64::MAX);

    let mut producer_index = 0;
    assert!(
        daemon.shared[0].publish(
                &mut producer_index,
                0,
                &[10, 20, 30, 40, 50, 60, 70, 80],
            )
    );

    daemon.prepare_playback_mix(0);
    assert!(daemon.stop(shared.session_id));

    let mut output = [0; 8];
    daemon.process_playback(0, &mut output);
    daemon.commit_playback(0, &mut output);
    assert_eq!(output, [0; 8]);
    assert_eq!(daemon.state.shared[0].session.armed, 0);
    assert_eq!(daemon.state.shared[0].session.outage, 0);
}

#[test]
fn prepared_shared_path_repeats_cached_period_when_enabled() {
    let mut daemon = Daemon::new(Setup { repeat_on_underrun: true, ..PROFILE });
    let shared = daemon.open_shared("line1").unwrap().expect("shared port should open");
    assert!(daemon.start(shared.session_id));
    daemon.activate_session(shared.session_id, u64::MAX);

    let mut producer_index = 0;
    assert!(
        daemon.shared[0].publish(&mut producer_index, 0, &[12; 8])
    );

    let mut output = [0; 8];
    daemon.prepare_playback_mix(0);
    daemon.process_playback(0, &mut output);
    daemon.commit_playback(0, &mut output);
    assert_eq!(output, [12; 8]);

    daemon.prepare_playback_mix(1);
    daemon.process_playback(1, &mut output);
    daemon.commit_playback(1, &mut output);
    assert_eq!(output, [12; 8]);
}

#[test]
fn process_ahead_keeps_shared_capture_on_hardware_sequence() {
    let mut daemon = Daemon::new(PROFILE);
    let pro_session = daemon.open_pro().unwrap().0;
    let shared = daemon.open_shared("mic1").unwrap().expect("shared port should open");
    assert!(daemon.start(pro_session));
    assert!(daemon.start(shared.session_id));
    daemon.activate_session(pro_session, 9);
    daemon.activate_session(shared.session_id, 9);

    daemon.process_capture_for_playback(10, 11, &[1, 2, 3, 4, 5, 6, 7, 8]);

    let mut pro_index = 0;
    let mut pro_samples = [0; 8];
    assert_eq!(
        daemon.pro.read_capture(&mut pro_index, &mut pro_samples),
        Some(11)
    );
    let mut shared_index = 0;
    let mut shared_samples = [0; 4];
    assert_eq!(
        daemon.shared[1].read_capture(&mut shared_index, &mut shared_samples),
        None
    );
    daemon.process_deferred_capture(10, &[1, 2, 3, 4, 5, 6, 7, 8]);
    assert_eq!(
        daemon.shared[1].read_capture(&mut shared_index, &mut shared_samples),
        Some(10)
    );
}

#[test]
fn shared_playback_startup_notifies_before_first_block() {
    let mut daemon = Daemon::new(PROFILE);
    let shared = daemon.open_shared("line1").unwrap().expect("shared port should open");
    assert!(daemon.start(shared.session_id));
    assert_eq!(
        daemon.shared[0].client_state(),
        SHARED_CLIENT_STARTING
    );

    let mut output = [0; 8];
    daemon.process(0, &[0; 8], &mut output);

    assert!(daemon.shared[0].take_playback_event().is_some());
    assert_eq!(daemon.shared[0].cycle_sequence(), 0);

    let mut producer_index = 0;
    assert!(
        daemon.shared[0].publish(&mut producer_index, 1, &[11; 8])
    );
    daemon.process(1, &[0; 8], &mut output);
    assert_eq!(output, [11; 8]);
}

#[test]
fn restarting_shared_session_discards_old_slots_and_events() {
    let mut daemon = Daemon::new(PROFILE);
    let shared = daemon.open_shared("line1").unwrap().expect("shared port should open");
    assert!(daemon.start(shared.session_id));
    let first_generation = daemon.shared[0].lifecycle_generation();

    let mut output = [0; 8];
    daemon.process(10, &[0; 8], &mut output);
    let mut producer_index = 0;
    assert!(
        daemon.shared[0].publish(&mut producer_index, 11, &[11; 8])
    );

    assert!(daemon.stop(shared.session_id));
    assert!(
        !daemon.shared[0].consume(11, &mut output)
    );
    assert_eq!(daemon.shared[0].take_playback_event(), None);

    assert!(daemon.start(shared.session_id));
    let second_generation = daemon.shared[0].lifecycle_generation();
    assert!(second_generation > first_generation);
}

#[test]
fn shared_lifecycle_can_cut_a_waveform_without_an_underrun() {
    // Reproduce a sample discontinuity, not an acoustic hardware result.
    // Use the reference Q64 / five-period lookahead with a synthetic PCM.
    let mut daemon = Daemon::new(Setup {
        period_size: 64,
        buffer_size: 256,
        shared_buffer_size: 256,
        shared_latency_periods: 5,
        ..PROFILE
    });
    let shared = daemon.open_shared("line1").unwrap().unwrap();

    let mut output = [0; 128];
    daemon.process(0, &[0; 128], &mut output);
    assert_eq!(output, [0; 128]);
    assert!(daemon.start(shared.session_id));
    daemon.activate_session(shared.session_id, 1);

    // Continuous 1 kHz cosine at -12 dBFS, both channels identical.
    let block = |offset: usize| -> [i32; 128] {
        std::array::from_fn(|sample| {
            let phase = (offset + sample / 2) as f64 * std::f64::consts::TAU / 48.0;
            (phase.cos() * (i32::MAX as f64 / 4.0)) as i32
        })
    };
    let first = block(0);
    let second = block(64);
    let mut index = 0;
    for (sequence, samples) in [(1, &first), (2, &second)] {
        assert!(
            daemon.shared[0].publish(&mut index, sequence, samples)
        );
    }
    for sequence in 1..6 {
        daemon.process(sequence, &[0; 128], &mut output);
        assert_eq!(output, [0; 128]);
    }
    daemon.process(6, &[0; 128], &mut output);
    assert_eq!(output, first); // No fade-in at the silence-to-signal boundary.
    let last_sample = output[126];
    let natural_step = (i64::from(second[0]) - i64::from(last_sample)).abs();

    assert!(daemon.stop(shared.session_id));
    daemon.process(7, &[0; 128], &mut output);
    assert_eq!(output, [0; 128]); // Queued continuation was discarded.
    assert!(i64::from(last_sample).abs() > 2 * natural_step);
    let stats = daemon.timeline.snapshot();
    assert_eq!(stats.shared_underruns, 0);
    assert_eq!(stats.hw_playback_xruns, 0);
    assert_eq!(stats.hw_capture_xruns, 0);
    assert_eq!(stats.timeline_resets, 0);
}

#[test]
fn shared_playback_consumes_configured_lookahead() {
    let mut daemon = Daemon::new(Setup { shared_latency_periods: 2, ..PROFILE });
    let shared = daemon.open_shared("line1").unwrap().expect("shared port should open");
    assert!(daemon.start(shared.session_id));
    daemon.activate_session(shared.session_id, 0);

    let mut producer_index = 0;
    assert!(
        daemon.shared[0].publish(&mut producer_index, 0, &[11; 8])
    );

    let mut output = [0; 8];
    daemon.process(0, &[0; 8], &mut output);
    assert_eq!(output, [0; 8]);
    daemon.process(1, &[0; 8], &mut output);
    assert_eq!(output, [0; 8]);
    daemon.process(2, &[0; 8], &mut output);
    assert_eq!(output, [11; 8]);
    assert_eq!(daemon.timeline.snapshot().shared_underruns, 0);
}

#[test]
fn shared_playback_lookahead_wraps_sequence() {
    let mut daemon = Daemon::new(Setup { shared_latency_periods: 2, ..PROFILE });
    let shared = daemon.open_shared("line1").unwrap().expect("shared port should open");
    assert!(daemon.start(shared.session_id));
    daemon.activate_session(shared.session_id, 0);

    let mut producer_index = 0;
    assert!(
        daemon.shared[0].publish(&mut producer_index, u64::MAX, &[7; 8])
    );

    let mut output = [0; 8];
    daemon.process(1, &[0; 8], &mut output);
    assert_eq!(output, [7; 8]);
}

#[test]
fn shared_playback_recovers_after_one_missing_sequence() {
    let mut daemon = Daemon::new(Setup { shared_latency_periods: 3, ..PROFILE });
    let shared = daemon.open_shared("line1").unwrap().expect("shared port should open");
    assert!(daemon.start(shared.session_id));
    daemon.activate_session(shared.session_id, 104);

    let mut producer_index = 0;
    assert!(
        daemon.shared[0].publish(&mut producer_index, 102, &[102; 8])
    );

    let mut output = [0; 8];
    daemon.process(105, &[0; 8], &mut output);
    assert_eq!(output, [102; 8]);

    daemon.process(106, &[0; 8], &mut output);
    assert_eq!(output, [0; 8]);
    assert_eq!(daemon.timeline.snapshot().shared_underruns, 1);
    let stats = daemon.stats();
    let port = &stats.shared_playback_ports[0];
    assert_eq!(port.port_id, "line1");
    assert_eq!(port.underruns, 1);
    assert_eq!(port.last_underrun_sequence, 103);
    assert!(port.last_underrun_nanos > 0);
    assert_eq!(port.last_sequence_lag_periods, 1);
    assert_eq!(port.max_sequence_lag_periods, 1);

    daemon.process(107, &[0; 8], &mut output);
    assert_eq!(daemon.timeline.snapshot().shared_underruns, 1);
    let stats = daemon.stats();
    let port = &stats.shared_playback_ports[0];
    assert_eq!(port.underruns, 1);
    assert_eq!(port.last_underrun_sequence, 104);
    assert_eq!(port.last_sequence_lag_periods, 2);
    assert_eq!(port.max_sequence_lag_periods, 2);

    assert!(
        daemon.shared[0].publish(&mut producer_index, 105, &[105; 8])
    );
    daemon.process(108, &[0; 8], &mut output);
    assert_eq!(output, [105; 8]);
    assert_eq!(daemon.timeline.snapshot().shared_underruns, 1);

    daemon.process(109, &[0; 8], &mut output);
    assert_eq!(daemon.timeline.snapshot().shared_underruns, 2);
    let stats = daemon.stats();
    let port = &stats.shared_playback_ports[0];
    assert_eq!(port.underruns, 2);
    assert_eq!(port.last_underrun_sequence, 106);
    assert_eq!(port.last_sequence_lag_periods, 1);
    assert_eq!(port.max_sequence_lag_periods, 2);
}

#[test]
fn shared_playback_repeats_last_period_until_recovery_when_enabled() {
    let mut daemon = Daemon::new(Setup { repeat_on_underrun: true, ..PROFILE });
    let shared = daemon.open_shared("line1").unwrap().expect("shared port should open");
    assert!(daemon.start(shared.session_id));
    daemon.activate_session(shared.session_id, u64::MAX);

    let mut producer_index = 0;
    assert!(
        daemon.shared[0].publish(&mut producer_index, 0, &[10; 8])
    );

    let mut output = [0; 8];
    daemon.process(0, &[0; 8], &mut output);
    assert_eq!(output, [10; 8]);

    daemon.process(1, &[0; 8], &mut output);
    assert_eq!(output, [10; 8]);
    daemon.process(2, &[0; 8], &mut output);
    assert_eq!(output, [10; 8]);
    assert_eq!(daemon.timeline.snapshot().shared_underruns, 1);
    assert_eq!(daemon.stats().shared_playback_ports[0].underruns, 1);

    assert!(
        daemon.shared[0].publish(&mut producer_index, 3, &[20; 8])
    );
    daemon.process(3, &[0; 8], &mut output);
    assert_eq!(output, [20; 8]);
    daemon.process(4, &[0; 8], &mut output);
    assert_eq!(output, [20; 8]);
    assert_eq!(daemon.timeline.snapshot().shared_underruns, 2);

    assert!(daemon.stop(shared.session_id));
    assert!(daemon.start(shared.session_id));
    daemon.process(5, &[0; 8], &mut output);
    assert_eq!(output, [0; 8]);
}

#[test]
fn hardware_generation_change_blocks_cache_until_new_lifecycle() {
    let mut daemon = Daemon::new(Setup { repeat_on_underrun: true, ..PROFILE });
    let shared = daemon.open_shared("line1").unwrap().expect("shared port should open");
    assert!(daemon.start(shared.session_id));
    daemon.activate_session(shared.session_id, u64::MAX);

    let mut producer_index = 0;
    assert!(
        daemon.shared[0].publish(&mut producer_index, 0, &[10; 8])
    );

    let mut output = [0; 8];
    daemon.process_playback(0, &mut output);
    daemon.commit_playback(0, &mut output);
    assert_eq!(output, [10; 8]);

    daemon.playback.shared[0].observed_hardware_generation = Some(u64::MAX);
    daemon.state.shared[0].session.lifecycle_hardware_generation = u64::MAX;
    assert!(
        daemon.shared[0].publish(&mut producer_index, 1, &[99; 8])
    );
    daemon.process_playback(1, &mut output);
    daemon.commit_playback(1, &mut output);
    assert_eq!(output, [0; 8]);
    daemon.process_playback(2, &mut output);
    daemon.commit_playback(2, &mut output);
    assert_eq!(output, [0; 8]);
    assert_eq!(daemon.timeline.snapshot().shared_underruns, 0);

    assert!(daemon.stop(shared.session_id));
    assert!(daemon.start(shared.session_id));
    daemon.activate_session(shared.session_id, 2);
    producer_index = 0;
    assert!(
        daemon.shared[0].publish(&mut producer_index, 3, &[20; 8])
    );
    daemon.process_playback(3, &mut output);
    daemon.commit_playback(3, &mut output);
    assert_eq!(output, [20; 8]);
}

#[test]
fn shared_restart_before_generation_detection_is_not_blocked() {
    let mut daemon = Daemon::new(PROFILE);
    let shared = daemon.open_shared("line1").unwrap().expect("shared port should open");
    assert!(daemon.start(shared.session_id));
    daemon.activate_session(shared.session_id, u64::MAX);

    let mut producer_index = 0;
    let mut output = [0; 8];
    assert!(
        daemon.shared[0].publish(&mut producer_index, 0, &[10; 8])
    );
    daemon.process_playback(0, &mut output);
    daemon.commit_playback(0, &mut output);
    assert_eq!(output, [10; 8]);

    daemon.playback.shared[0].observed_hardware_generation = Some(u64::MAX);
    daemon.state.shared[0].session.lifecycle_hardware_generation = u64::MAX;
    assert!(daemon.stop(shared.session_id));
    assert!(daemon.start(shared.session_id));
    daemon.activate_session(shared.session_id, 0);
    producer_index = 0;
    assert!(
        daemon.shared[0].publish(&mut producer_index, 1, &[20; 8])
    );
    daemon.process_playback(1, &mut output);
    daemon.commit_playback(1, &mut output);

    assert_eq!(output, [20; 8]);
    assert_eq!(daemon.timeline.snapshot().shared_underruns, 0);
}

#[test]
fn hardware_generation_change_blocks_pro_until_new_lifecycle() {
    let mut daemon = Daemon::new(PROFILE);
    let session = daemon.open_pro().unwrap().0;
    assert!(daemon.start(session));
    daemon.activate_session(session, 9);

    let mut producer_index = 0;
    let mut output = [0; 8];
    for sequence in [10, 11] {
        assert!(daemon.pro.publish(
            &mut producer_index,
            sequence,
            &[sequence as i32; 8],
        ));
        daemon.process_playback(sequence, &mut output);
    }

    assert!(daemon.pro.publish(
        &mut producer_index,
        12,
        &[99; 8],
    ));
    daemon.state.pro.lifecycle_hardware_generation = u64::MAX;
    daemon.process_playback(12, &mut output);
    assert_eq!(output, [0; 8]);
    assert_eq!(daemon.timeline.snapshot().pro_deadline_misses, 0);
    assert_eq!(daemon.state.pro.armed, 0);

    let mut stale = [0; 8];
    assert!(
        daemon.pro.consume(12, &mut stale)
    );
    assert_eq!(stale, [99; 8]);
    daemon.process_playback(13, &mut output);
    assert_eq!(output, [0; 8]);
    assert_eq!(daemon.timeline.snapshot().pro_deadline_misses, 0);

    assert!(daemon.stop(session));
    assert!(daemon.start(session));
    daemon.activate_session(session, 13);
    producer_index = 0;
    assert!(daemon.pro.publish(
        &mut producer_index,
        14,
        &[14; 8],
    ));
    daemon.process_playback(14, &mut output);
    assert_eq!(output, [14; 8]);
}

#[test]
fn pro_restart_before_generation_detection_is_not_blocked() {
    let mut daemon = Daemon::new(PROFILE);
    let session = daemon.open_pro().unwrap().0;
    assert!(daemon.start(session));
    daemon.activate_session(session, 9);

    let mut producer_index = 0;
    let mut output = [0; 8];
    assert!(daemon.pro.publish(
        &mut producer_index,
        10,
        &[10; 8],
    ));
    daemon.process_playback(10, &mut output);
    daemon.state.pro.lifecycle_hardware_generation = u64::MAX;

    assert!(daemon.stop(session));
    assert!(daemon.start(session));
    daemon.activate_session(session, 10);
    producer_index = 0;
    assert!(daemon.pro.publish(
        &mut producer_index,
        11,
        &[11; 8],
    ));
    daemon.process_playback(11, &mut output);

    assert_eq!(output, [11; 8]);
    assert_eq!(
        daemon.state.pro.lifecycle_hardware_generation,
        daemon.timeline.generation()
    );
    assert_eq!(daemon.timeline.snapshot().pro_deadline_misses, 0);
}

#[test]
fn shared_startup_gap_does_not_count_until_first_block_is_consumed() {
    let mut daemon = Daemon::new(Setup { shared_latency_periods: 2, ..PROFILE });
    let shared = daemon.open_shared("line1").unwrap().expect("shared port should open");
    assert!(daemon.start(shared.session_id));

    let mut output = [0; 8];
    daemon.process(10, &[0; 8], &mut output);
    let stats = daemon.stats();
    assert_eq!(stats.shared_playback_ports[0].underruns, 0);
    assert_eq!(stats.shared_playback_ports[0].max_sequence_lag_periods, 0);
    let mut producer_index = 0;
    assert!(
        daemon.shared[0].publish(&mut producer_index, 11, &[11; 8])
    );
    daemon.process(11, &[0; 8], &mut output);
    daemon.process(12, &[0; 8], &mut output);
    assert_eq!(daemon.timeline.snapshot().shared_underruns, 0);

    daemon.process(13, &[0; 8], &mut output);
    assert_eq!(output, [11; 8]);
    daemon.process(14, &[0; 8], &mut output);
    assert_eq!(daemon.timeline.snapshot().shared_underruns, 1);
}

#[test]
fn first_valid_pro_block_arms_repeat_fallback() {
    let mut daemon = Daemon::new(PROFILE);
    let pro_session = daemon.open_pro().unwrap().0;
    assert!(daemon.start(pro_session));

    let mut output = [0; 8];
    daemon.process(10, &[0; 8], &mut output);
    assert_eq!(daemon.timeline.snapshot().pro_deadline_misses, 0);

    let mut producer_index = 0;
    assert!(daemon.pro.publish(
        &mut producer_index,
        11,
        &[11; 8],
    ));
    daemon.process(11, &[0; 8], &mut output);
    assert_eq!(output, [11; 8]);

    daemon.process(12, &[0; 8], &mut output);
    assert_eq!(output, [11; 8]);
    assert_eq!(daemon.timeline.snapshot().pro_deadline_misses, 1);

    assert!(daemon.pro.publish(
        &mut producer_index,
        13,
        &[13; 8],
    ));
    daemon.process(13, &[0; 8], &mut output);
    assert!(daemon.pro.publish(
        &mut producer_index,
        14,
        &[14; 8],
    ));
    daemon.process(14, &[0; 8], &mut output);

    daemon.process(15, &[0; 8], &mut output);
    let stats = daemon.timeline.snapshot();
    assert_eq!(output, [14; 8]);
    assert_eq!(stats.pro_deadline_misses, 2);
    assert_eq!(stats.pro_client_deadline_misses, 2);
    assert_eq!(stats.pro_core_deadline_misses, 0);
}

#[test]
fn full_pro_capture_ring_is_not_a_core_deadline_miss() {
    let mut daemon = Daemon::new(PROFILE);
    let pro_session = daemon.open_pro().unwrap().0;
    assert!(daemon.start(pro_session));
    daemon.activate_session(pro_session, u64::MAX);

    for sequence in 0..=u64::from(SHARED_SLOT_COUNT) {
        daemon.process_capture(sequence, &[sequence as i32; 8]);
    }

    let stats = daemon.timeline.snapshot();
    assert_eq!(stats.pro_deadline_misses, 0);
    assert_eq!(stats.pro_client_deadline_misses, 0);
    assert_eq!(stats.pro_core_deadline_misses, 0);
    assert_eq!(stats.pro_capture_overruns, 1);
}

#[test]
fn full_shared_capture_ring_keeps_timeline_and_notification_moving() {
    let mut daemon = Daemon::new(PROFILE);
    let shared = daemon.open_shared("mic1").unwrap().expect("shared port should open");
    assert!(daemon.start(shared.session_id));
    daemon.activate_session(shared.session_id, u64::MAX);

    let capacity = u64::from(shared.shared.slot_count);
    for sequence in 0..capacity {
        daemon.process_capture(sequence, &[sequence as i32; 8]);
    }
    assert_eq!(daemon.timeline.snapshot().shared_overruns, 0);
    daemon.shared[1].take_capture_event();
    let failed_sequence = capacity;
    daemon.process_capture(failed_sequence, &[0; 8]);

    assert_eq!(
        daemon.shared[1].cycle_sequence(),
        failed_sequence
    );
    assert_eq!(
        daemon.shared[1].capture_discontinuities(),
        1
    );
    assert_eq!(daemon.timeline.snapshot().shared_overruns, 1);
    assert_eq!(daemon.shared[1].take_capture_event(), Some(1));
}

#[test]
fn playback_cutoff_keeps_future_sequence() {
    let mut daemon = Daemon::new(PROFILE);
    let pro_session = daemon.open_pro().unwrap().0;
    assert!(daemon.start(pro_session));
    daemon.activate_session(pro_session, 9);

    let mut producer_index = 0;
    let mut output = [0; 8];
    for sequence in [10, 11] {
        assert!(daemon.pro.publish(
            &mut producer_index,
            sequence,
            &[sequence as i32; 8],
        ));
        daemon.process_playback(sequence, &mut output);
    }
    assert!(daemon.pro.publish(
        &mut producer_index,
        13,
        &[13; 8],
    ));

    daemon.process_playback(12, &mut output);
    assert_eq!(output, [11; 8]);
    assert_eq!(daemon.timeline.snapshot().pro_deadline_misses, 1);
    assert_eq!(daemon.pro.playback_sequence(), 13);

    daemon.process_playback(13, &mut output);
    assert_eq!(output, [13; 8]);
    assert_eq!(daemon.timeline.snapshot().pro_deadline_misses, 1);
    assert_eq!(daemon.pro.playback_sequence(), 14);
}

#[test]
fn late_pro_block_does_not_poison_next_sequence() {
    let mut daemon = Daemon::new(PROFILE);
    let pro_session = daemon.open_pro().unwrap().0;
    assert!(daemon.start(pro_session));
    daemon.activate_session(pro_session, 9);

    let mut producer_index = 0;
    let mut output = [0; 8];
    for sequence in [10, 11] {
        assert!(daemon.pro.publish(
            &mut producer_index,
            sequence,
            &[sequence as i32; 8],
        ));
        daemon.process_playback(sequence, &mut output);
    }

    daemon.process_playback(12, &mut output);
    assert_eq!(output, [11; 8]);
    assert_eq!(daemon.timeline.snapshot().pro_deadline_misses, 1);

    assert!(daemon.pro.publish(
        &mut producer_index,
        12,
        &[12; 8]
    ));
    assert!(daemon.pro.publish(
        &mut producer_index,
        13,
        &[13; 8]
    ));
    daemon.process_playback(13, &mut output);

    assert_eq!(output, [13; 8]);
    assert_eq!(daemon.timeline.snapshot().pro_deadline_misses, 1);
}

#[test]
fn inactive_pro_region_tracks_hardware_sequence() {
    let mut daemon = Daemon::new(PROFILE);

    let mut output = [0; 8];

    daemon.process(27, &[0; 8], &mut output);

    assert_eq!(daemon.pro.cycle_sequence(), 27);
}

#[test]
fn inactive_shared_regions_track_hardware_sequence() {
    let mut daemon = Daemon::new(PROFILE);

    let mut output = [0; 8];

    daemon.process(27, &[0; 8], &mut output);

    assert_eq!(
        daemon.shared[0].cycle_sequence(),
        27
    );
    assert_eq!(
        daemon.shared[1].cycle_sequence(),
        27
    );
}

#[test]
fn opening_new_pro_session_discards_old_slots() {
    let mut daemon = Daemon::new(PROFILE);
    let first = daemon.open_pro().unwrap().0;
    let mut producer_index = 0;
    assert!(daemon.pro.publish(
        &mut producer_index,
        9,
        &[9; 8],
    ));
    assert!(daemon.close(first));

    let second = daemon.open_pro().unwrap().0;
    assert_ne!(first, second);
    let mut output = [0; 8];
    assert!(
        !daemon.pro.consume(9, &mut output)
    );
}

#[test]
fn reopened_pro_isolated_from_stale_mapping_and_events() {
    let mut daemon = Daemon::new(PROFILE);

    let (first_session, _, old_region) = daemon.open_pro().unwrap();
    assert!(daemon.close(first_session));

    let (second_session, _, new_region) = daemon.open_pro().unwrap();
    old_region.notify_capture();
    old_region.notify_playback();
    old_region.notify_ready();
    assert_eq!(new_region.take_capture_event(), None);
    assert_eq!(new_region.take_playback_event(), None);
    assert_eq!(new_region.take_ready_event(), None);

    assert!(daemon.start(second_session));
    let mut output = [0; 8];
    daemon.process(10, &[0; 8], &mut output);

    let mut old_index = 0;
    assert!(old_region.publish(&mut old_index, 11, &[99; 8]));
    old_region.notify_ready();
    daemon.process(11, &[0; 8], &mut output);
    assert_eq!(output, [0; 8]);

    let mut new_index = 0;
    assert!(new_region.publish(&mut new_index, 12, &[12; 8]));
    new_region.notify_ready();
    daemon.process(12, &[0; 8], &mut output);
    assert_eq!(output, [12; 8]);
}

#[test]
fn missing_shared_output_does_not_count_as_pro_or_hardware_failure() {
    let mut daemon = Daemon::new(PROFILE);
    let shared = daemon.open_shared("line1").unwrap().expect("shared port should open");
    assert!(daemon.start(shared.session_id));
    daemon.activate_session(shared.session_id, u64::MAX);

    let mut output = [0; 8];
    let mut producer_index = 0;
    assert!(
        daemon.shared[0].publish(&mut producer_index, 0, &[1; 8])
    );
    daemon.process(0, &[0; 8], &mut output);
    daemon.process(1, &[0; 8], &mut output);

    let stats = daemon.timeline.snapshot();
    assert_eq!(stats.shared_underruns, 1);
    assert_eq!(stats.pro_deadline_misses, 0);
    assert_eq!(stats.hw_playback_xruns, 0);
    assert_eq!(stats.generation, 0);
}

#[test]
fn playback_ready_event_releases_direct_pro_wait() {
    let mut daemon = Daemon::new(PROFILE);
    let session = daemon.open_pro().unwrap().0;
    assert!(daemon.start(session));
    daemon.activate_session(session, 9);

    daemon.prepare_playback(10);
    let started = daemon.now;
    daemon.while_waiting = Some(|daemon| {
        daemon.now += 10_000_000;
        assert!(daemon.pro.publish(&mut 0, 10, &[10; 8]));
        daemon.pro.notify_ready();
        PlaybackReadyWait::Ready
    });
    daemon.wait_for_playback_before(10, started.saturating_add(1_000_000_000));
    assert_eq!(daemon.waits, 1);

    let mut output = [0; 8];
    daemon.process_playback(10, &mut output);
    assert_eq!(output, [10; 8]);
    assert!(daemon.now - started < 500_000_000);
    assert_eq!(daemon.timeline.snapshot().pro_ready_wait_max_nanos, 10_000_000);
}

#[test]
fn stopping_pro_wakes_direct_wait() {
    let mut daemon = Daemon::new(PROFILE);
    let session = daemon.open_pro().unwrap().0;
    assert!(daemon.start(session));
    daemon.activate_session(session, 9);
    daemon.pro.set_client_state(SHARED_CLIENT_RUNNING);

    daemon.prepare_playback(10);
    let started = daemon.now;
    daemon.while_waiting = Some(|daemon| {
        daemon.now += 10_000_000;
        let session = daemon.state.pro.owner;
        assert!(daemon.stop(session));
        PlaybackReadyWait::Ready
    });
    daemon.wait_for_playback_before(10, started.saturating_add(1_000_000_000));
    assert_eq!(daemon.waits, 1);
    assert!(daemon.now - started >= 5_000_000);
    assert!(daemon.now - started < 500_000_000);
}

#[test]
fn hardware_bridges_have_one_playback_owner() {
    let mut state = DaemonState::new(&profile(PROFILE), 0).expect("state should create");
    assert!(!state.bridges_created);
    let _ = state.bridges();

    assert!(state.bridges_created);
}

#[test]
fn capture_and_playback_keep_their_distinct_sequence_domains() {
    let mut daemon = Daemon::new(PROFILE);
    let input = daemon.open_pro_direction(10, 20, (1, 2), PortDirection::Capture).unwrap();
    let output = daemon.open_pro_direction(10, 20, (1, 2), PortDirection::Playback).unwrap();
    assert!(daemon.start(input.0));
    assert!(daemon.start(output.0));
    let mut rendered = [0; 8];
    daemon.prepare_playback(10);
    daemon.process_capture_for_playback(9, 10, &[0; 8]);
    daemon.process_playback(10, &mut rendered);
    daemon.prepare_playback(11);
    daemon.process_capture_for_playback(10, 11, &[23; 8]);
    assert_eq!(output.2.cycle_sequence(), 11);
    let mut samples = [0; 8];
    assert_eq!(input.2.read_capture(&mut 0, &mut samples), Some(10));
    assert_eq!(samples, [23; 8]);
    assert!(output.2.publish(&mut 0, 11, &[29; 8]));
    daemon.process_playback_before(11, u64::MAX, &mut rendered);
    assert_eq!(rendered, [29; 8]);
    assert!(daemon.close(input.0));
    assert!(daemon.close(output.0));
}

#[test]
fn every_missing_pro_block_of_a_run_repeats_the_last_one() {
    let mut daemon = Daemon::new(PROFILE);
    let session = daemon.open_pro().unwrap().0;
    assert!(daemon.start(session));
    daemon.activate_session(session, 9);
    let mut index = 0;
    let mut output = [1; 8];
    daemon.process_playback(10, &mut output);
    assert_eq!(output, [0; 8]);
    assert_eq!(daemon.timeline.snapshot().pro_deadline_misses, 0);

    assert!(daemon.pro.publish(&mut index, 11, &[40; 8]));
    daemon.process_playback(11, &mut output);
    assert!(daemon.pro.publish(&mut index, 12, &[50; 8]));
    daemon.process_playback(12, &mut output);
    assert_eq!(output, [50; 8]);
    for (missed, sequence) in (13..20).enumerate() {
        output = [1; 8];
        daemon.process_playback(sequence, &mut output);
        assert_eq!(output, [50; 8]);
        assert_eq!(daemon.state.pro.armed, session);
        assert_eq!(daemon.timeline.snapshot().pro_deadline_misses, missed as u64 + 1);
    }

    assert!(daemon.stop(session));
    daemon.process_playback(20, &mut output);
    assert_eq!(output, [0; 8]);
    assert!(daemon.start(session));
    daemon.activate_session(session, 20);
    daemon.process_playback(21, &mut output);
    assert_eq!(output, [0; 8]);
    assert_eq!(daemon.timeline.snapshot().pro_deadline_misses, 7);
}

fn shared_period(daemon: &mut Daemon, sequence: u64) -> [i32; 8] {
    let mut output = [0; 8];
    daemon.prepare_playback_mix(sequence);
    daemon.process_playback(sequence, &mut output);
    daemon.commit_playback(sequence, &mut output);
    output
}

#[test]
fn a_shared_outage_counts_once_and_repeats_only_when_asked() {
    for repeat_on_underrun in [false, true] {
        let mut daemon = Daemon::new(Setup { repeat_on_underrun, ..PROFILE });
        let shared = daemon.open_shared("line1").unwrap().expect("shared port should open");
        assert!(daemon.start(shared.session_id));
        daemon.activate_session(shared.session_id, u64::MAX);
        let before = daemon.timeline.snapshot();
        assert_eq!(shared_period(&mut daemon, 0), [0; 8]);
        assert_eq!(daemon.timeline.snapshot(), before);

        let filled = if repeat_on_underrun { [12; 8] } else { [0; 8] };
        let mut index = 0;
        for (block, sequence) in [(12, 1), (12, 5)] {
            assert!(daemon.shared[0].publish(&mut index, sequence, &[block; 8]));
            assert_eq!(shared_period(&mut daemon, sequence), [block; 8]);
            for missing in 1..4 {
                assert_eq!(shared_period(&mut daemon, sequence + missing), filled);
            }
        }
        let after = daemon.timeline.snapshot();
        assert_eq!(after.shared_underruns, 2);
        assert_eq!(after.pro_deadline_misses, before.pro_deadline_misses);
        assert_eq!(after.generation, before.generation);
        assert_eq!(after.timeline_resets, before.timeline_resets);
        assert_eq!(after.hw_playback_xruns, before.hw_playback_xruns);
    }
}

#[test]
fn a_sole_pro_owner_stays_until_it_is_closed_and_ids_are_new() {
    let mut daemon = Daemon::new(PROFILE);
    let owner = daemon.open_pro().unwrap().0;
    let mut given = vec![owner];
    for round in 0..6 {
        assert_eq!(daemon.state.open_pro(true), None);
        assert_eq!(
            daemon.state.open_pro_direction(7, 1, (3, 4), PortDirection::Capture, true),
            None
        );
        let shared = daemon.open_shared("line1").unwrap().expect("shared port should open");
        assert!(!daemon.state.owns(daemon.state.upcoming_session()));
        given.push(shared.session_id);
        if round % 2 == 0 {
            daemon.start(owner);
        } else {
            daemon.stop(owner);
        }
        assert!(daemon.close(shared.session_id));
        assert_eq!(daemon.state.pro.owner, owner);
    }
    assert!(daemon.close(owner));
    given.push(daemon.open_pro().unwrap().0);
    assert!(given.iter().all(|id| *id != 0 && *id != u64::MAX));
    assert!(given.windows(2).all(|pair| pair[0] < pair[1]));
}

#[test]
fn the_reserved_ids_are_never_given() {
    let mut state = DaemonState::new(&profile(PROFILE), 0).expect("state should create");
    state.next_session = u64::MAX - 1;
    assert_eq!(state.open_pro(true), Some(u64::MAX - 1));
    assert!(state.close(u64::MAX - 1));
    assert_eq!(state.open_pro(true), Some(1));
}

#[test]
fn a_new_daemon_has_counted_nothing() {
    let state = DaemonState::new(&profile(PROFILE), 0).expect("state should create");
    assert_eq!(
        state.pro_diagnostics(),
        Some(ProDiagnosticsSnapshot {
            misses_recorded: 0,
            accepted_roundtrip_samples: 0,
            accepted_roundtrip_max_nanos: 0,
            last_miss: None,
        })
    );
    assert!(state.shared.iter().all(|port| port.diagnostics.underruns == 0
        && port.diagnostics.playback_xruns == 0
        && port.diagnostics.max_sequence_lag_periods == 0));
    assert_eq!(state.pro_capture.geometry.playback_channels, 0);
}
