//! One client of the control socket: which requests it may make, and what they do.
use vstd::prelude::*;
use vstd::string::*;
use crate::daemon::report::{report_of, ProClientDiagnostics};
use crate::daemon::session::{ClientPlaybackDiagnostics, OpenRequest};
use crate::daemon::state::{
    issued, port_index, port_index_finds_the_first, port_reports, DaemonState, OpenSharedError, ProOwnership, SharedOpen,
};
use crate::protocol::messages::{
    port_stats_models, ErrorCode, ProtocolError, Request, RequestModel, Response, ResponseModel,
    SharedRegionInfo, FEATURE_PRO, FEATURE_SHARED, PROTOCOL_VERSION,
};
use crate::timeline::HardwareStats;

verus! {

/// Why a control connection or its listener ends.
#[derive(Clone, Copy, Debug, PartialEq, Eq)]
pub enum ControlError {
    /// The socket failed, with the system's error number where there is one.
    Io(Option<i32>),
    Protocol(ProtocolError),
}

/// What a client has done so far.
#[derive(Clone, Copy, Debug, PartialEq, Eq, Structural)]
pub struct ClientConnection {
    /// It has introduced itself.
    pub hello: bool,
    /// The session that it opened last.
    pub session: Option<u64>,
}

/// What happens to the region of a session once its request was answered.
#[derive(Clone, Copy, Debug, PartialEq, Eq, Structural)]
pub enum RegionEffect {
    Keep,
    /// The regions that were made replace those of the slot.
    Install,
    /// Empty it and hand it to the new run of its client.
    Restart,
    /// Wake whoever waits for it, wait for the commits that are under way, and empty it.
    Retire,
}

/// Counters that are read for a client's request.
#[derive(Clone, Debug)]
pub struct DaemonReading {
    pub hardware: HardwareStats,
    /// The client counters in the PRO playback region.
    pub output: ProClientDiagnostics,
    /// The client counters in the PRO capture region.
    pub input: ProClientDiagnostics,
    /// The client counters in the region of each port.
    pub clients: Vec<ClientPlaybackDiagnostics>,
}

/// The digit of a number below ten.
pub open spec fn digit(n: nat) -> char {
    (('0' as u8) + n) as u8 as char
}

/// A number in decimal.
pub open spec fn decimal(n: nat) -> Seq<char>
    decreases n,
{
    if n < 10 {
        seq![digit(n)]
    } else {
        decimal(n / 10).push(digit(n % 10))
    }
}

/// An error response.
pub open spec fn refusal(code: ErrorCode, message: Seq<char>) -> ResponseModel {
    ResponseModel::Error { code, message }
}

/// The response to a session request of somebody else.
pub open spec fn not_owner_model() -> ResponseModel {
    refusal(ErrorCode::NotOwner, "session is not PRO owner"@)
}

/// The response to a request for a port that does not exist.
pub open spec fn unknown_port_model(port_id: Seq<char>) -> ResponseModel {
    refusal(ErrorCode::InvalidRequest, "unknown shared port '"@ + port_id + "'"@)
}

/// The response when the regions of a port could not be made.
pub open spec fn no_resources_model(reason: Seq<char>) -> ResponseModel {
    refusal(
        ErrorCode::InvalidRequest,
        "could not create shared session resources: "@ + reason,
    )
}

fn append_digit(text: &mut String, n: u64)
    requires
        n < 10,
    ensures
        final(text)@ == old(text)@.push(digit(n as nat)),
{
    let ghost before = text@;
    proof {
        reveal_strlit("0");
        reveal_strlit("1");
        reveal_strlit("2");
        reveal_strlit("3");
        reveal_strlit("4");
        reveal_strlit("5");
        reveal_strlit("6");
        reveal_strlit("7");
        reveal_strlit("8");
        reveal_strlit("9");
    }
    let digit_text: &str = if n == 0 {
        "0"
    } else if n == 1 {
        "1"
    } else if n == 2 {
        "2"
    } else if n == 3 {
        "3"
    } else if n == 4 {
        "4"
    } else if n == 5 {
        "5"
    } else if n == 6 {
        "6"
    } else if n == 7 {
        "7"
    } else if n == 8 {
        "8"
    } else {
        "9"
    };
    text.append(digit_text);
    assert(text@ =~= before.push(digit(n as nat)));
}

/// Appends a number in decimal.
fn append_decimal(text: &mut String, n: u64)
    ensures
        final(text)@ == old(text)@ + decimal(n as nat),
    decreases n,
{
    let ghost before = text@;
    if n >= 10 {
        append_decimal(text, n / 10);
    }
    append_digit(text, n % 10);
    assert(text@ =~= before + decimal(n as nat));
}

fn refuse(code: ErrorCode, message: &str) -> (response: Response)
    ensures
        response@ == refusal(code, message@),
{
    Response::Error { code, message: message.to_owned() }
}

fn not_owner() -> (response: Response)
    ensures
        response@ == not_owner_model(),
{
    refuse(ErrorCode::NotOwner, "session is not PRO owner")
}

impl ClientConnection {
    pub fn new() -> (client: Self)
        ensures
            client == (ClientConnection { hello: false, session: None }),
    {
        ClientConnection { hello: false, session: None }
    }

    /// Whether a request is let through before anything else is looked at.
    pub open spec fn admits(self, request: Request) -> bool {
        self.hello || request is Hello
    }

    /// The regions that have to be made before a request is answered.
    pub fn open_request(
        &self,
        state: &DaemonState,
        request: &Request,
        hardware_generation: u64,
    ) -> (regions: Option<OpenRequest>)
        requires
            state.wf(),
        ensures
            regions == if !self.admits(*request) {
                None
            } else {
                match request@ {
                    RequestModel::OpenPro => if self.session is None && state.ownership
                        == ProOwnership::Free {
                        Some(
                            OpenRequest {
                                session_id: issued(state.next_session),
                                hardware_generation,
                                geometry: state.pro.geometry,
                            },
                        )
                    } else {
                        None
                    },
                    RequestModel::OpenShared { port_id } => match port_index(
                        state.shared@,
                        port_id,
                    ) {
                        Some(i) => if state.shared@[i].session.owner == 0 {
                            Some(
                                OpenRequest {
                                    session_id: issued(state.next_session),
                                    hardware_generation,
                                    geometry: state.shared@[i].session.geometry,
                                },
                            )
                        } else {
                            None
                        },
                        None => None,
                    },
                    _ => None,
                }
            },
    {
        if !self.hello {
            return None;
        }
        match request {
            Request::OpenPro => if self.session.is_none() {
                state.pro_open_request(hardware_generation)
            } else {
                None
            },
            Request::OpenShared { port_id } => state.shared_open_request(
                port_id.as_str(),
                hardware_generation,
            ),
            _ => None,
        }
    }

    /// What a request does, and what is answered. `made` are the regions that were made for it, or
    /// the reason why they could not be.
    pub open spec fn answers(
        self,
        after: ClientConnection,
        state: DaemonState,
        state_after: DaemonState,
        request: Request,
        made: Result<SharedRegionInfo, String>,
        hardware_generation: u64,
        reading: DaemonReading,
        response: Response,
    ) -> bool {
        if !self.admits(request) {
            &&& response@ == refusal(ErrorCode::BadState, "HELLO required"@)
            &&& after == self
            &&& state_after == state
        } else {
            match request@ {
                RequestModel::Hello { version } => {
                    &&& state_after == state
                    &&& if version == PROTOCOL_VERSION {
                        &&& response@ == ResponseModel::Hello {
                            version,
                            features: FEATURE_PRO | FEATURE_SHARED,
                        }
                        &&& after == ClientConnection { hello: true, ..self }
                    } else {
                        &&& response@ == refusal(
                            ErrorCode::InvalidRequest,
                            "unsupported client version "@ + decimal(version as nat),
                        )
                        &&& after == self
                    }
                },
                RequestModel::GetInfo => {
                    &&& response@ == ResponseModel::Info(state.info@)
                    &&& after == self
                    &&& state_after == state
                },
                RequestModel::OpenPro => {
                    if self.session is Some {
                        &&& response@ == refusal(
                            ErrorCode::BadState,
                            "client already owns a session"@,
                        )
                        &&& after == self
                        &&& state_after == state
                    } else {
                        let opened = if state.ownership == ProOwnership::Free && made is Ok {
                            Some(issued(state.next_session))
                        } else {
                            None
                        };
                        &&& state.opens_pro(state_after, made is Ok, opened)
                        &&& match opened {
                            Some(session_id) => {
                                &&& response@ == ResponseModel::OpenPro {
                                    session_id,
                                    shared: made->Ok_0,
                                }
                                &&& after == ClientConnection { session: opened, ..self }
                            },
                            None => {
                                &&& response@ == if state.ownership == ProOwnership::Free {
                                    no_resources_model(made->Err_0@)
                                } else {
                                    ResponseModel::Busy
                                }
                                &&& after == self
                            },
                        }
                    }
                },
                RequestModel::OpenShared { port_id } => {
                    &&& exists|result: Result<Option<SharedOpen>, OpenSharedError>| #[trigger]
                        state.opens_shared(
                        state_after,
                        port_id,
                        made is Ok,
                        reading.clients@,
                        result,
                    )
                    &&& match port_index(state.shared@, port_id) {
                        None => response@ == unknown_port_model(port_id) && after == self,
                        Some(i) => if state.shared@[i].session.owner != 0 {
                            response@ == ResponseModel::Busy && after == self
                        } else if made is Ok {
                            let session_id = issued(state.next_session);
                            &&& response@ == ResponseModel::OpenShared {
                                session_id,
                                direction: state.shared@[i].direction,
                                shared: made->Ok_0,
                            }
                            &&& after == ClientConnection { session: Some(session_id), ..self }
                        } else {
                            response@ == no_resources_model(made->Err_0@) && after == self
                        },
                    }
                },
                RequestModel::Start { session_id } => {
                    &&& after == self
                    &&& if self.session == Some(session_id) {
                        &&& state.starts(
                            state_after,
                            session_id,
                            hardware_generation,
                            response@ == ResponseModel::Ack,
                        )
                        &&& response@ == ResponseModel::Ack || response@ == not_owner_model()
                    } else {
                        response@ == not_owner_model() && state_after == state
                    }
                },
                RequestModel::Stop { session_id } => {
                    &&& after == self
                    &&& if self.session == Some(session_id) {
                        &&& state.stops(state_after, session_id, response@ == ResponseModel::Ack)
                        &&& response@ == ResponseModel::Ack || response@ == not_owner_model()
                    } else {
                        response@ == not_owner_model() && state_after == state
                    }
                },
                RequestModel::Close { session_id } => {
                    let closed = response@ == ResponseModel::Ack;
                    &&& if self.session == Some(session_id) {
                        &&& state.closes(state_after, session_id, closed)
                        &&& closed || response@ == not_owner_model()
                    } else {
                        response@ == not_owner_model() && state_after == state
                    }
                    &&& after == if closed {
                        ClientConnection { session: None, ..self }
                    } else {
                        self
                    }
                },
                RequestModel::GetStats => {
                    &&& after == self
                    &&& state_after == state
                    &&& response matches Response::Stats(stats)
                    &&& *stats == report_of(
                        reading.hardware,
                        state.reported_client(reading.output, reading.input),
                        stats.shared_playback_ports,
                    )
                    &&& port_stats_models(stats.shared_playback_ports@) == port_reports(
                        state.shared@,
                        reading.clients@,
                    )
                },
            }
        }
    }

    /// Answers a request.
    pub fn handle(
        &mut self,
        state: &mut DaemonState,
        request: &Request,
        made: &Result<SharedRegionInfo, String>,
        hardware_generation: u64,
        reading: &DaemonReading,
    ) -> (response: Response)
        requires
            old(state).wf(),
            request is OpenPro || request is OpenShared ==> !old(state).owned(
                issued(old(state).next_session),
            ),
            reading.clients@.len() == old(state).shared@.len(),
        ensures
            final(state).wf(),
            old(self).answers(
                *final(self),
                *old(state),
                *final(state),
                *request,
                *made,
                hardware_generation,
                *reading,
                response,
            ),
    {
        if !self.hello {
            match request {
                Request::Hello { .. } => {},
                _ => {
                    return refuse(ErrorCode::BadState, "HELLO required");
                },
            }
        }
        match request {
            Request::Hello { version } => self.hello(*version),
            Request::GetInfo => Response::Info(state.info()),
            Request::OpenPro => self.open_pro(state, made),
            Request::OpenShared { port_id } => self.open_shared(state, port_id, made, reading),
            Request::Start { session_id } => {
                if self.owns(*session_id) && state.start(*session_id, hardware_generation) {
                    Response::Ack
                } else {
                    not_owner()
                }
            },
            Request::Stop { session_id } => {
                if self.owns(*session_id) && state.stop(*session_id) {
                    Response::Ack
                } else {
                    not_owner()
                }
            },
            Request::Close { session_id } => {
                if self.owns(*session_id) && state.close(*session_id) {
                    self.session = None;
                    Response::Ack
                } else {
                    not_owner()
                }
            },
            Request::GetStats => {
                let stats = state.stats(
                    reading.hardware,
                    reading.output,
                    reading.input,
                    &reading.clients,
                );
                Response::Stats(Box::new(stats))
            },
        }
    }

    fn owns(&self, session_id: u64) -> (owns: bool)
        ensures
            owns == (self.session == Some(session_id)),
    {
        match self.session {
            Some(id) => id == session_id,
            None => false,
        }
    }

    fn hello(&mut self, version: u16) -> (response: Response)
        ensures
            if version == PROTOCOL_VERSION {
                &&& response@ == ResponseModel::Hello {
                    version,
                    features: FEATURE_PRO | FEATURE_SHARED,
                }
                &&& *final(self) == ClientConnection { hello: true, ..*old(self) }
            } else {
                &&& response@ == refusal(
                    ErrorCode::InvalidRequest,
                    "unsupported client version "@ + decimal(version as nat),
                )
                &&& *final(self) == *old(self)
            },
    {
        if version != PROTOCOL_VERSION {
            let mut message: String = "unsupported client version ".to_owned();
            append_decimal(&mut message, version as u64);
            Response::Error { code: ErrorCode::InvalidRequest, message }
        } else {
            self.hello = true;
            Response::Hello { version: PROTOCOL_VERSION, features: FEATURE_PRO | FEATURE_SHARED }
        }
    }

    fn open_pro(
        &mut self,
        state: &mut DaemonState,
        made: &Result<SharedRegionInfo, String>,
    ) -> (response: Response)
        requires
            old(state).wf(),
            old(self).hello,
            !old(state).owned(issued(old(state).next_session)),
        ensures
            final(state).wf(),
            forall|generation: u64, reading: DaemonReading| #[trigger]
                old(self).answers(
                    *final(self),
                    *old(state),
                    *final(state),
                    Request::OpenPro,
                    *made,
                    generation,
                    reading,
                    response,
                ),
    {
        if self.session.is_some() {
            return refuse(ErrorCode::BadState, "client already owns a session");
        }
        let free: bool = match state.ownership {
            ProOwnership::Free => true,
            _ => false,
        };
        match made {
            Ok(shared) => match state.open_pro(true) {
                Some(session_id) => {
                    self.session = Some(session_id);
                    Response::OpenPro { session_id, shared: *shared }
                },
                None => Response::Busy,
            },
            Err(reason) => {
                let opened = state.open_pro(false);
                if free {
                    no_resources(reason)
                } else {
                    Response::Busy
                }
            },
        }
    }

    fn open_shared(
        &mut self,
        state: &mut DaemonState,
        port_id: &String,
        made: &Result<SharedRegionInfo, String>,
        reading: &DaemonReading,
    ) -> (response: Response)
        requires
            old(state).wf(),
            old(self).hello,
            !old(state).owned(issued(old(state).next_session)),
            reading.clients@.len() == old(state).shared@.len(),
        ensures
            final(state).wf(),
            forall|generation: u64| #[trigger]
                old(self).answers(
                    *final(self),
                    *old(state),
                    *final(state),
                    Request::OpenShared { port_id: *port_id },
                    *made,
                    generation,
                    *reading,
                    response,
                ),
    {
        match made {
            Ok(shared) => {
                let result = state.open_shared(port_id.as_str(), true, &reading.clients);
                assert(old(state).opens_shared(
                    *state,
                    port_id@,
                    true,
                    reading.clients@,
                    result,
                ));
                match result {
                    Ok(Some(open)) => {
                        self.session = Some(open.session_id);
                        Response::OpenShared {
                            session_id: open.session_id,
                            direction: open.direction,
                            shared: *shared,
                        }
                    },
                    Ok(None) => Response::Busy,
                    Err(_) => unknown_port(port_id),
                }
            },
            Err(reason) => {
                let result = state.open_shared(port_id.as_str(), false, &reading.clients);
                assert(old(state).opens_shared(
                    *state,
                    port_id@,
                    false,
                    reading.clients@,
                    result,
                ));
                match result {
                    Ok(_) => Response::Busy,
                    Err(OpenSharedError::UnknownPort(_)) => unknown_port(port_id),
                    Err(OpenSharedError::Resources) => no_resources(reason),
                }
            },
        }
    }

    /// Lets the client's session go when the client has left.
    pub fn disconnect(&mut self, state: &mut DaemonState)
        requires
            old(state).wf(),
        ensures
            final(state).wf(),
            final(self).session is None,
            final(self).hello == old(self).hello,
            match old(self).session {
                Some(session_id) => exists|closed: bool| #[trigger]
                    old(state).closes(*final(state), session_id, closed),
                None => *final(state) == *old(state),
            },
    {
        if let Some(session_id) = self.session {
            let closed: bool = state.close(session_id);
            assert(old(state).closes(*state, session_id, closed));
        }
        self.session = None;
    }
}

/// What a request that was answered does to the region of its session.
pub fn region_effect(request: &Request, response: &Response) -> (effect: RegionEffect)
    ensures
        effect == match response@ {
            ResponseModel::OpenPro { .. } => RegionEffect::Install,
            ResponseModel::OpenShared { .. } => RegionEffect::Install,
            ResponseModel::Ack => match request@ {
                RequestModel::Start { .. } => RegionEffect::Restart,
                RequestModel::Stop { .. } => RegionEffect::Retire,
                RequestModel::Close { .. } => RegionEffect::Retire,
                _ => RegionEffect::Keep,
            },
            _ => RegionEffect::Keep,
        },
{
    match response {
        Response::OpenPro { .. } | Response::OpenShared { .. } => RegionEffect::Install,
        Response::Ack => match request {
            Request::Start { .. } => RegionEffect::Restart,
            Request::Stop { .. } | Request::Close { .. } => RegionEffect::Retire,
            _ => RegionEffect::Keep,
        },
        _ => RegionEffect::Keep,
    }
}

fn unknown_port(port_id: &String) -> (response: Response)
    ensures
        response@ == unknown_port_model(port_id@),
{
    let mut message: String = "unknown shared port '".to_owned();
    message.append(port_id.as_str());
    message.append("'");
    Response::Error { code: ErrorCode::InvalidRequest, message }
}

fn no_resources(reason: &String) -> (response: Response)
    ensures
        response@ == no_resources_model(reason@),
{
    let mut message: String = "could not create shared session resources: ".to_owned();
    message.append(reason.as_str());
    Response::Error { code: ErrorCode::InvalidRequest, message }
}

/// A client that has not introduced itself can do nothing but that.
pub proof fn nothing_is_done_before_hello(
    client: ClientConnection,
    after: ClientConnection,
    state: DaemonState,
    state_after: DaemonState,
    request: Request,
    made: Result<SharedRegionInfo, String>,
    hardware_generation: u64,
    reading: DaemonReading,
    response: Response,
)
    requires
        client.answers(
            after,
            state,
            state_after,
            request,
            made,
            hardware_generation,
            reading,
            response,
        ),
        !client.hello,
        !(request is Hello),
    ensures
        state_after == state,
        after == client,
        response@ == refusal(ErrorCode::BadState, "HELLO required"@),
{
}

/// A client starts, stops and closes no session but its own.
pub proof fn a_client_acts_on_its_own_session_only(
    client: ClientConnection,
    after: ClientConnection,
    state: DaemonState,
    state_after: DaemonState,
    request: Request,
    made: Result<SharedRegionInfo, String>,
    hardware_generation: u64,
    reading: DaemonReading,
    response: Response,
    session_id: u64,
)
    requires
        client.answers(
            after,
            state,
            state_after,
            request,
            made,
            hardware_generation,
            reading,
            response,
        ),
        client.hello,
        client.session != Some(session_id),
        request == (Request::Start { session_id }) || request == (Request::Stop { session_id })
            || request == (Request::Close { session_id }),
    ensures
        state_after == state,
        after == client,
        response@ == not_owner_model(),
{
}

/// While PRO has an owner it is not given to anybody else, and nothing changes for the owner.
pub proof fn an_owned_pro_is_busy(
    client: ClientConnection,
    after: ClientConnection,
    state: DaemonState,
    state_after: DaemonState,
    request: Request,
    made: Result<SharedRegionInfo, String>,
    hardware_generation: u64,
    reading: DaemonReading,
    response: Response,
)
    requires
        client.answers(
            after,
            state,
            state_after,
            request,
            made,
            hardware_generation,
            reading,
            response,
        ),
        client.hello,
        client.session is None,
        request is OpenPro,
        state.ownership != ProOwnership::Free,
    ensures
        state_after == state,
        after == client,
        response@ == ResponseModel::Busy,
{
}

/// A request for the counters is answered with each hardware counter under its own name, and
/// changes nothing.
pub proof fn a_stats_request_shows_every_counter(
    client: ClientConnection,
    after: ClientConnection,
    state: DaemonState,
    state_after: DaemonState,
    request: Request,
    made: Result<SharedRegionInfo, String>,
    hardware_generation: u64,
    reading: DaemonReading,
    response: Response,
)
    requires
        request is GetStats,
        client.hello,
        client.answers(
            after,
            state,
            state_after,
            request,
            made,
            hardware_generation,
            reading,
            response,
        ),
    ensures
        after == client,
        state_after == state,
        ({
            &&& response matches Response::Stats(stats)
            &&& stats.generation == reading.hardware.generation
            &&& stats.sample_position == reading.hardware.sample_position
            &&& stats.playback_position == reading.hardware.playback_position
            &&& stats.capture_position == reading.hardware.capture_position
            &&& stats.hw_playback_xruns == reading.hardware.hw_playback_xruns
            &&& stats.hw_capture_xruns == reading.hardware.hw_capture_xruns
            &&& stats.playback_delay_frames == reading.hardware.playback_delay_frames
            &&& stats.capture_delay_frames == reading.hardware.capture_delay_frames
            &&& stats.playback_delay_min_frames == reading.hardware.playback_delay_min_frames
            &&& stats.playback_delay_max_frames == reading.hardware.playback_delay_max_frames
            &&& stats.playback_ring_delay_frames == reading.hardware.playback_ring_delay_frames
            &&& stats.playback_ring_delay_min_frames == reading.hardware.playback_ring_delay_min_frames
            &&& stats.playback_ring_delay_max_frames == reading.hardware.playback_ring_delay_max_frames
            &&& stats.playback_driver_delay_frames == reading.hardware.playback_driver_delay_frames
            &&& stats.playback_driver_delay_min_frames == reading.hardware.playback_driver_delay_min_frames
            &&& stats.playback_driver_delay_max_frames == reading.hardware.playback_driver_delay_max_frames
            &&& stats.capture_delay_min_frames == reading.hardware.capture_delay_min_frames
            &&& stats.capture_delay_max_frames == reading.hardware.capture_delay_max_frames
            &&& stats.playback_target_overshoot_max_frames == reading.hardware.playback_target_overshoot_max_frames
            &&& stats.capture_clock_wait_max_nanos == reading.hardware.capture_clock_wait_max_nanos
            &&& stats.pro_wait_budget_min_nanos == reading.hardware.pro_wait_budget_min_nanos
            &&& stats.pro_wait_budget_max_nanos == reading.hardware.pro_wait_budget_max_nanos
            &&& stats.pro_ready_wait_max_nanos == reading.hardware.pro_ready_wait_max_nanos
            &&& stats.playback_write_max_nanos == reading.hardware.playback_write_max_nanos
            &&& stats.capture_to_playback_write_nanos == reading.hardware.capture_to_playback_write_nanos
            &&& stats.capture_to_playback_write_min_nanos == reading.hardware.capture_to_playback_write_min_nanos
            &&& stats.capture_to_playback_write_max_nanos == reading.hardware.capture_to_playback_write_max_nanos
            &&& stats.duplex_pointer_phase_nanos == reading.hardware.duplex_pointer_phase_nanos
            &&& stats.duplex_pointer_phase_min_nanos == reading.hardware.duplex_pointer_phase_min_nanos
            &&& stats.duplex_pointer_phase_max_nanos == reading.hardware.duplex_pointer_phase_max_nanos
            &&& stats.duplex_pointer_phase_samples == reading.hardware.duplex_pointer_phase_samples
            &&& stats.linked_phase_attempts == reading.hardware.linked_phase_attempts
            &&& stats.linked_phase_rebases == reading.hardware.linked_phase_rebases
            &&& stats.linked_phase_score_nanos == reading.hardware.linked_phase_score_nanos
            &&& stats.linked_phase_target_met == reading.hardware.linked_phase_target_met
            &&& stats.playback_low_watermarks == reading.hardware.playback_low_watermarks
            &&& stats.pro_deadline_misses == reading.hardware.pro_deadline_misses
            &&& stats.pro_client_deadline_misses == reading.hardware.pro_client_deadline_misses
            &&& stats.pro_core_deadline_misses == reading.hardware.pro_core_deadline_misses
            &&& stats.pro_capture_overruns == reading.hardware.pro_capture_overruns
            &&& stats.pro_playback_blocks == reading.hardware.pro_playback_blocks
            &&& stats.pro_playback_nonzero_blocks == reading.hardware.pro_playback_nonzero_blocks
            &&& stats.shared_underruns == reading.hardware.shared_underruns
            &&& stats.shared_overruns == reading.hardware.shared_overruns
            &&& stats.timeline_resets == reading.hardware.timeline_resets
            &&& stats.periods_processed == reading.hardware.periods_processed
        }),
{
}

/// The number that a run of decimal digits stands for.
pub open spec fn read_decimal(digits: Seq<char>) -> int
    decreases digits.len(),
{
    if digits.len() == 0 {
        0
    } else {
        read_decimal(digits.drop_last()) * 10 + (digits.last() as int - 48)
    }
}

/// A number in decimal reads back as the number, and has no zero in front of other digits.
pub proof fn decimal_reads_back(n: nat)
    ensures
        decimal(n).len() > 0,
        read_decimal(decimal(n)) == n,
        forall|i: int| 0 <= i < decimal(n).len() ==> 48 <= #[trigger] decimal(n)[i] as int <= 57,
        n > 0 ==> decimal(n)[0] as int > 48,
    decreases n,
{
    if n < 10 {
        assert(decimal(n).drop_last() =~= Seq::<char>::empty());
        assert(read_decimal(Seq::<char>::empty()) == 0);
        assert(decimal(n).last() == digit(n));
    } else {
        decimal_reads_back(n / 10);
        assert(decimal(n).drop_last() =~= decimal(n / 10));
        assert(decimal(n).last() == digit(n % 10));
        assert forall|i: int| 0 <= i < decimal(n).len() implies 48 <= #[trigger] decimal(
            n,
        )[i] as int <= 57 by {
            if i < decimal(n / 10).len() {
                assert(decimal(n)[i] == decimal(n / 10)[i]);
            }
        }
        assert(decimal(n)[0] == decimal(n / 10)[0]);
    }
}

/// A client of the daemon's own version is welcomed and told both features; any other version is
/// refused by number, and the client has not introduced itself.
pub proof fn only_its_own_version_is_welcomed(
    client: ClientConnection,
    after: ClientConnection,
    state: DaemonState,
    state_after: DaemonState,
    request: Request,
    made: Result<SharedRegionInfo, String>,
    hardware_generation: u64,
    reading: DaemonReading,
    response: Response,
    version: u16,
)
    requires
        request == (Request::Hello { version }),
        client.answers(
            after,
            state,
            state_after,
            request,
            made,
            hardware_generation,
            reading,
            response,
        ),
    ensures
        state_after == state,
        after.session == client.session,
        version == 16 ==> response@ == (ResponseModel::Hello { version: 16, features: 3 }) && after.hello,
        version != 16 ==> {
            &&& after == client
            &&& response@ matches ResponseModel::Error { code, message }
            &&& code == ErrorCode::InvalidRequest
            &&& message == "unsupported client version "@ + decimal(version as nat)
        },
{
    assert(1u32 | 2u32 == 3u32) by (bit_vector);
}

/// A request for the description is answered with the daemon's and changes nothing.
pub proof fn the_description_is_the_daemons(
    client: ClientConnection,
    after: ClientConnection,
    state: DaemonState,
    state_after: DaemonState,
    request: Request,
    made: Result<SharedRegionInfo, String>,
    hardware_generation: u64,
    reading: DaemonReading,
    response: Response,
)
    requires
        client.hello,
        request is GetInfo,
        client.answers(
            after,
            state,
            state_after,
            request,
            made,
            hardware_generation,
            reading,
            response,
        ),
    ensures
        response@ == ResponseModel::Info(state.info@),
        after == client,
        state_after == state,
{
}

/// A client that gets PRO gets the id that was due and the region that was made. One that has a
/// session already, or for which no region could be made, gets nothing and changes nothing.
pub proof fn pro_is_given_with_its_region(
    client: ClientConnection,
    after: ClientConnection,
    state: DaemonState,
    state_after: DaemonState,
    request: Request,
    made: Result<SharedRegionInfo, String>,
    hardware_generation: u64,
    reading: DaemonReading,
    response: Response,
)
    requires
        client.hello,
        request is OpenPro,
        0 < state.next_session < u64::MAX - 1,
        client.answers(
            after,
            state,
            state_after,
            request,
            made,
            hardware_generation,
            reading,
            response,
        ),
    ensures
        after.hello,
        client.session is Some ==> {
            &&& after == client
            &&& state_after == state
            &&& response@ == (ResponseModel::Error {
                code: ErrorCode::BadState,
                message: "client already owns a session"@,
            })
        },
        client.session is None && state.ownership == ProOwnership::Free ==> match made {
            Ok(shared) => {
                &&& response@ == ResponseModel::OpenPro { session_id: state.next_session, shared }
                &&& after.session == Some(state.next_session)
                &&& state_after.ownership == ProOwnership::Classic(state.next_session)
            },
            Err(reason) => {
                &&& after == client
                &&& state_after.ownership == ProOwnership::Free
                &&& response@ == ResponseModel::Error {
                    code: ErrorCode::InvalidRequest,
                    message: "could not create shared session resources: "@ + reason@,
                }
            },
        },
{
}

/// A client that gets a port gets the port's direction, the id that was due and the region that was
/// made. A port that has an owner is busy, and one that nobody knows is refused by its name.
pub proof fn a_port_is_given_with_its_region(
    client: ClientConnection,
    after: ClientConnection,
    state: DaemonState,
    state_after: DaemonState,
    request: Request,
    made: Result<SharedRegionInfo, String>,
    hardware_generation: u64,
    reading: DaemonReading,
    response: Response,
    port_id: String,
)
    requires
        client.hello,
        request == (Request::OpenShared { port_id }),
        0 < state.next_session < u64::MAX - 1,
        client.answers(
            after,
            state,
            state_after,
            request,
            made,
            hardware_generation,
            reading,
            response,
        ),
    ensures
        after.hello,
        (forall|i: int| 0 <= i < state.shared@.len() ==> (#[trigger] state.shared@[i]).id@ != port_id@)
            ==> {
            &&& after == client
            &&& response@ == (ResponseModel::Error {
                code: ErrorCode::InvalidRequest,
                message: "unknown shared port '"@ + port_id@ + "'"@,
            })
        },
        forall|i: int|
            0 <= i < state.shared@.len() && (#[trigger] state.shared@[i]).id@ == port_id@ && (
            forall|j: int| 0 <= j < i ==> (#[trigger] state.shared@[j]).id@ != port_id@) ==> {
                &&& state.shared@[i].session.owner != 0 ==> after == client && response@
                    == ResponseModel::Busy
                &&& state.shared@[i].session.owner == 0 ==> match made {
                    Ok(shared) => {
                        &&& response@ == ResponseModel::OpenShared {
                            session_id: state.next_session,
                            direction: state.shared@[i].direction,
                            shared,
                        }
                        &&& after.session == Some(state.next_session)
                    },
                    Err(reason) => {
                        &&& after == client
                        &&& response@ == ResponseModel::Error {
                            code: ErrorCode::InvalidRequest,
                            message: "could not create shared session resources: "@ + reason@,
                        }
                    },
                }
            },
{
    port_index_finds_the_first(state.shared@, port_id@);
}

/// A session request of somebody else is refused as such; one of the owner is acknowledged or
/// refused, and only a close that was acknowledged lets go of the session.
pub proof fn a_session_request_is_acknowledged_or_refused(
    client: ClientConnection,
    after: ClientConnection,
    state: DaemonState,
    state_after: DaemonState,
    request: Request,
    made: Result<SharedRegionInfo, String>,
    hardware_generation: u64,
    reading: DaemonReading,
    response: Response,
    session_id: u64,
)
    requires
        client.hello,
        request == (Request::Start { session_id }) || request == (Request::Stop { session_id })
            || request == (Request::Close { session_id }),
        client.answers(
            after,
            state,
            state_after,
            request,
            made,
            hardware_generation,
            reading,
            response,
        ),
    ensures
        response@ == ResponseModel::Ack || response@ == (ResponseModel::Error {
            code: ErrorCode::NotOwner,
            message: "session is not PRO owner"@,
        }),
        response@ == ResponseModel::Ack ==> client.session == Some(session_id),
        after.hello,
        request is Close && response@ == ResponseModel::Ack ==> after.session is None,
        !(request is Close && response@ == ResponseModel::Ack) ==> after == client,
        client.session == Some(session_id) && request is Start ==> state.starts(
            state_after,
            session_id,
            hardware_generation,
            response@ == ResponseModel::Ack,
        ),
        client.session == Some(session_id) && request is Stop ==> state.stops(
            state_after,
            session_id,
            response@ == ResponseModel::Ack,
        ),
        client.session == Some(session_id) && request is Close ==> state.closes(
            state_after,
            session_id,
            response@ == ResponseModel::Ack,
        ),
{
}

} // verus!
