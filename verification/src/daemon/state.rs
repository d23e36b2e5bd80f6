//! Who owns what: the PRO slots, the shared ports, and the sessions in them.
//!
//! PRO output has one owner. Either one client owns both directions, or two clients of the same
//! process and token each own one; the group lives until its last member leaves. Each shared port
//! has an owner of its own.
use vstd::prelude::*;
use crate::config::{PortConfig, Profile};
use crate::daemon::report::{
    combine_clients, combined_clients, copy_info, description_of, device_info, port_report,
    report_of, stats_from_core, ProClientDiagnostics,
};
use crate::daemon::session::{
    ClientPlaybackDiagnostics, OpenRequest, PlaybackCommitBarrier, PlaybackDiagnostics,
    SessionGeometry, SessionState, SESSION_CLOSING,
};
use crate::diagnostics::{ProDiagnostics, ProDiagnosticsSnapshot};
use crate::protocol::messages::{
    port_stats_models, DeviceInfo, PortDirection, ProtocolError, SharedPlaybackPortStats,
    SharedPlaybackPortStatsModel, Stats,
};
use crate::protocol::shared::SHARED_SLOT_COUNT;
use crate::timeline::HardwareStats;

verus! {

/// Who owns PRO output and input.
#[derive(Clone, Copy, Debug, PartialEq, Eq)]
pub enum ProOwnership {
    Free,
    /// One session owns both directions.
    Classic(u64),
    /// Two sessions of one process each own a direction.
    Split {
        peer_pid: u32,
        peer_uid: u32,
        token: (u64, u64),
        playback: Option<u64>,
        capture: Option<u64>,
    },
}

/// A port that clients can open one at a time.
#[derive(Debug)]
pub struct SharedPortState {
    pub id: String,
    pub direction: PortDirection,
    pub channels: Vec<usize>,
    pub logical_samples: usize,
    pub session: SessionState,
    pub diagnostics: PlaybackDiagnostics,
}

/// Why a shared port could not be opened.
#[derive(Clone, Debug, PartialEq, Eq)]
pub enum OpenSharedError {
    UnknownPort(String),
    /// The regions could not be made.
    Resources,
}

/// A shared port that was opened.
#[derive(Clone, Copy, Debug, PartialEq, Eq, Structural)]
pub struct SharedOpen {
    pub session_id: u64,
    pub direction: PortDirection,
    /// Which port, in the daemon's order.
    pub port: usize,
}

/// The daemon's sessions and what they share.
#[derive(Debug)]
pub struct DaemonState {
    /// A playback session waits to be activated together with capture.
    pub pair_playback: bool,
    /// A capture session waits to be activated together with playback.
    pub pair_capture: bool,
    pub pro_diagnostics: ProDiagnostics,
    pub info: DeviceInfo,
    pub hardware_ready: bool,
    pub pro: SessionState,
    pub pro_capture: SessionState,
    pub ownership: ProOwnership,
    pub shared: Vec<SharedPortState>,
    pub next_session: u64,
    pub period_frames: usize,
    pub playback_channels: usize,
    pub capture_channels: usize,
    pub shared_buffer_periods: usize,
    pub shared_latency_periods: u32,
    pub shared_playback_repeat_on_underrun: bool,
    /// Changes whenever active playback output is taken away.
    pub playback_epoch: u64,
    pub playback_commits: PlaybackCommitBarrier,
    pub bridges_created: bool,
}

/// A session id that can be issued.
pub open spec fn is_session(session_id: u64) -> bool {
    0 < session_id < SESSION_CLOSING
}

/// The id that is issued when `next` is due; the two reserved ids are skipped.
pub open spec fn issued(next: u64) -> u64 {
    if is_session(next) {
        next
    } else {
        1
    }
}

/// Slots of a capture port: twice the shared buffer, within bounds.
pub open spec fn capture_slots(shared_buffer_periods: int) -> u32 {
    let doubled = shared_buffer_periods * 2;
    if doubled < 4 {
        4
    } else if doubled > 16 {
        16
    } else {
        doubled as u32
    }
}

impl SharedPortState {
    /// The port that a configured port becomes.
    pub open spec fn made_from(
        &self,
        port: PortConfig,
        direction: PortDirection,
        period_frames: u32,
        slot_count: u32,
    ) -> bool {
        &&& self.id@ == port.id@
        &&& self.direction == direction
        &&& self.channels@ == Seq::new(port.channels@.len(), |i: int| port.channels@[i] as usize)
        &&& self.logical_samples == period_frames * port.channels@.len()
        &&& self.diagnostics == PlaybackDiagnostics::nothing()
        &&& self.session == SessionState::fresh(
            direction == PortDirection::Playback,
            SessionGeometry {
                period_frames,
                playback_channels: if direction == PortDirection::Playback {
                    port.channels@.len() as u32
                } else {
                    0
                },
                capture_channels: if direction == PortDirection::Playback {
                    0
                } else {
                    port.channels@.len() as u32
                },
                slot_count,
            },
        )
    }

    /// Whether a configured port can be counted.
    pub open spec fn countable(port: PortConfig, period_frames: u32) -> bool {
        port.channels@.len() <= u32::MAX && period_frames * port.channels@.len() <= usize::MAX
    }

    fn new(
        port: &PortConfig,
        direction: PortDirection,
        period_frames: u32,
        slot_count: u32,
    ) -> (result: Result<Self, ProtocolError>)
        ensures
            match result {
                Ok(state) => {
                    &&& SharedPortState::countable(*port, period_frames)
                    &&& state.made_from(*port, direction, period_frames, slot_count)
                },
                Err(e) => {
                    &&& !SharedPortState::countable(*port, period_frames)
                    &&& e == ProtocolError::LayoutOverflow
                },
            },
    {
        let count: usize = port.channels.len();
        if count as u128 > u32::MAX as u128 {
            return Err(ProtocolError::LayoutOverflow);
        }
        let logical_samples: usize = match (period_frames as usize).checked_mul(count) {
            Some(samples) => samples,
            None => {
                return Err(ProtocolError::LayoutOverflow);
            },
        };
        let mut channels: Vec<usize> = Vec::new();
        let mut i: usize = 0;
        while i < count
            invariant
                i <= count == port.channels@.len(),
                channels@.len() == i,
                forall|k: int| 0 <= k < i ==> #[trigger] channels@[k] == port.channels@[k],
            decreases count - i,
        {
            channels.push(port.channels[i] as usize);
            i = i + 1;
        }
        let plays: bool = match direction {
            PortDirection::Playback => true,
            PortDirection::Capture => false,
        };
        let state = SharedPortState {
            id: port.id.clone(),
            direction,
            channels,
            logical_samples,
            session: SessionState::new(
                plays,
                SessionGeometry {
                    period_frames,
                    playback_channels: if plays {
                        count as u32
                    } else {
                        0
                    },
                    capture_channels: if plays {
                        0
                    } else {
                        count as u32
                    },
                    slot_count,
                },
            ),
            diagnostics: PlaybackDiagnostics::new(),
        };
        assert(state.channels@ =~= Seq::new(
            port.channels@.len(),
            |i: int| port.channels@[i] as usize,
        ));
        Ok(state)
    }
}

/// Every port of a list is in order.
pub open spec fn ports_wf(ports: Seq<SharedPortState>) -> bool {
    forall|i: int| 0 <= i < ports.len() ==> (#[trigger] ports[i]).session.wf()
}

/// The first port with the given id.
pub open spec fn port_index(ports: Seq<SharedPortState>, id: Seq<char>) -> Option<int>
    decreases ports.len(),
{
    if ports.len() == 0 {
        None
    } else {
        match port_index(ports.drop_last(), id) {
            Some(i) => Some(i),
            None => if ports.last().id@ == id {
                Some(ports.len() - 1)
            } else {
                None
            },
        }
    }
}

/// [`port_index`] finds the first port with the id, where there is one.
pub proof fn port_index_finds_the_first(ports: Seq<SharedPortState>, id: Seq<char>)
    ensures
        match port_index(ports, id) {
            Some(i) => {
                &&& 0 <= i < ports.len()
                &&& ports[i].id@ == id
                &&& forall|j: int| 0 <= j < i ==> (#[trigger] ports[j]).id@ != id
            },
            None => forall|j: int| 0 <= j < ports.len() ==> (#[trigger] ports[j]).id@ != id,
        },
    decreases ports.len(),
{
    if ports.len() > 0 {
        let rest = ports.drop_last();
        port_index_finds_the_first(rest, id);
        assert forall|j: int| 0 <= j < rest.len() implies (#[trigger] ports[j]).id@
            == rest[j].id@ by {}
    }
}

proof fn lemma_port_index_stays(ports: Seq<SharedPortState>, id: Seq<char>, k: int)
    requires
        0 <= k <= ports.len(),
        port_index(ports.take(k), id) is Some,
    ensures
        port_index(ports, id) == port_index(ports.take(k), id),
    decreases ports.len(),
{
    if k < ports.len() {
        assert(ports.drop_last().take(k) =~= ports.take(k));
        lemma_port_index_stays(ports.drop_last(), id, k);
    } else {
        assert(ports.take(k) =~= ports);
    }
}

/// The port that the session owns.
pub open spec fn owned_index(ports: Seq<SharedPortState>, session_id: u64) -> Option<int>
    decreases ports.len(),
{
    if ports.len() == 0 {
        None
    } else {
        match owned_index(ports.drop_last(), session_id) {
            Some(i) => Some(i),
            None => if ports.last().session.owner == session_id {
                Some(ports.len() - 1)
            } else {
                None
            },
        }
    }
}

/// [`owned_index`] finds a port of the session, where there is one.
pub proof fn owned_index_finds_the_owner(ports: Seq<SharedPortState>, session_id: u64)
    ensures
        match owned_index(ports, session_id) {
            Some(i) => 0 <= i < ports.len() && ports[i].session.owner == session_id,
            None => forall|i: int|
                0 <= i < ports.len() ==> (#[trigger] ports[i]).session.owner != session_id,
        },
    decreases ports.len(),
{
    if ports.len() > 0 {
        let rest = ports.drop_last();
        owned_index_finds_the_owner(rest, session_id);
        if owned_index(ports, session_id) is None {
            assert forall|i: int| 0 <= i < ports.len() implies (
            #[trigger] ports[i]).session.owner != session_id by {
                if i < ports.len() - 1 {
                    assert(rest[i] == ports[i]);
                }
            }
        }
    }
}

proof fn lemma_owned_index_stays(ports: Seq<SharedPortState>, session_id: u64, k: int)
    requires
        0 <= k <= ports.len(),
        owned_index(ports.take(k), session_id) is Some,
    ensures
        owned_index(ports, session_id) == owned_index(ports.take(k), session_id),
    decreases ports.len(),
{
    if k < ports.len() {
        assert(ports.drop_last().take(k) =~= ports.take(k));
        lemma_owned_index_stays(ports.drop_last(), session_id, k);
    } else {
        assert(ports.take(k) =~= ports);
    }
}

/// A port list in which port `i` has another session state.
pub open spec fn with_session(
    before: Seq<SharedPortState>,
    after: Seq<SharedPortState>,
    i: int,
    session: SessionState,
) -> bool {
    &&& 0 <= i < before.len()
    &&& after == before.update(i, SharedPortState { session, ..before[i] })
}

impl ProOwnership {
    /// The ownership says who owns the two PRO slots.
    pub open spec fn describes(self, pro: u64, pro_capture: u64) -> bool {
        match self {
            ProOwnership::Free => pro == 0 && pro_capture == 0,
            ProOwnership::Classic(id) => is_session(id) && pro == id && pro_capture == 0,
            ProOwnership::Split { playback, capture, .. } => {
                &&& playback is Some || capture is Some
                &&& match playback {
                    Some(id) => is_session(id) && pro == id,
                    None => pro == 0,
                }
                &&& match capture {
                    Some(id) => is_session(id) && pro_capture == id,
                    None => pro_capture == 0,
                }
            },
        }
    }

    /// Whether a member with these credentials may take a direction.
    pub open spec fn admits(
        self,
        peer_pid: u32,
        peer_uid: u32,
        token: (u64, u64),
        direction: PortDirection,
    ) -> bool {
        &&& token != (0u64, 0u64)
        &&& peer_pid != 0
        &&& match self {
            ProOwnership::Free => true,
            ProOwnership::Classic(_) => false,
            ProOwnership::Split {
                peer_pid: pid,
                peer_uid: uid,
                token: capability,
                playback,
                capture,
            } => {
                &&& pid == peer_pid
                &&& uid == peer_uid
                &&& capability == token
                &&& match direction {
                    PortDirection::Playback => playback is None,
                    PortDirection::Capture => capture is None,
                }
            },
        }
    }

    /// The ownership after a member took a direction.
    pub open spec fn joined(
        self,
        peer_pid: u32,
        peer_uid: u32,
        token: (u64, u64),
        direction: PortDirection,
        session_id: u64,
    ) -> ProOwnership {
        let (playback, capture) = match self {
            ProOwnership::Split { playback, capture, .. } => (playback, capture),
            _ => (None, None),
        };
        ProOwnership::Split {
            peer_pid,
            peer_uid,
            token,
            playback: if direction == PortDirection::Playback {
                Some(session_id)
            } else {
                playback
            },
            capture: if direction == PortDirection::Capture {
                Some(session_id)
            } else {
                capture
            },
        }
    }

    /// The ownership after `session_id` left.
    pub open spec fn left(self, session_id: u64) -> ProOwnership {
        match self {
            ProOwnership::Free => self,
            ProOwnership::Classic(id) => if id == session_id {
                ProOwnership::Free
            } else {
                self
            },
            ProOwnership::Split { peer_pid, peer_uid, token, playback, capture } => {
                let playback_left = if playback == Some(session_id) {
                    None
                } else {
                    playback
                };
                let capture_left = if capture == Some(session_id) {
                    None
                } else {
                    capture
                };
                if playback_left is None && capture_left is None {
                    ProOwnership::Free
                } else {
                    ProOwnership::Split {
                        peer_pid,
                        peer_uid,
                        token,
                        playback: playback_left,
                        capture: capture_left,
                    }
                }
            },
        }
    }

    /// The session that owns a direction of a split group.
    pub open spec fn member(self, direction: PortDirection) -> Option<u64> {
        match self {
            ProOwnership::Split { playback, capture, .. } => match direction {
                PortDirection::Playback => playback,
                PortDirection::Capture => capture,
            },
            _ => None,
        }
    }

    fn admits_member(
        &self,
        peer_pid: u32,
        peer_uid: u32,
        token: (u64, u64),
        direction: PortDirection,
    ) -> (admits: bool)
        ensures
            admits == self.admits(peer_pid, peer_uid, token, direction),
    {
        if (token.0 == 0 && token.1 == 0) || peer_pid == 0 {
            return false;
        }
        match self {
            ProOwnership::Free => true,
            ProOwnership::Classic(_) => false,
            ProOwnership::Split {
                peer_pid: pid,
                peer_uid: uid,
                token: capability,
                playback,
                capture,
            } => *pid == peer_pid && *uid == peer_uid && capability.0 == token.0 && capability.1
                == token.1 && match direction {
                PortDirection::Playback => playback.is_none(),
                PortDirection::Capture => capture.is_none(),
            },
        }
    }

    fn join(
        self,
        peer_pid: u32,
        peer_uid: u32,
        token: (u64, u64),
        direction: PortDirection,
        session_id: u64,
    ) -> (joined: ProOwnership)
        ensures
            joined == self.joined(peer_pid, peer_uid, token, direction, session_id),
    {
        let (playback, capture) = match self {
            ProOwnership::Split { playback, capture, .. } => (playback, capture),
            _ => (None, None),
        };
        match direction {
            PortDirection::Playback => ProOwnership::Split {
                peer_pid,
                peer_uid,
                token,
                playback: Some(session_id),
                capture,
            },
            PortDirection::Capture => ProOwnership::Split {
                peer_pid,
                peer_uid,
                token,
                playback,
                capture: Some(session_id),
            },
        }
    }

    fn is_member(&self, direction: PortDirection, session_id: u64) -> (is: bool)
        ensures
            is == (self.member(direction) == Some(session_id)),
    {
        let member: Option<u64> = match self {
            ProOwnership::Split { playback, capture, .. } => match direction {
                PortDirection::Playback => *playback,
                PortDirection::Capture => *capture,
            },
            _ => None,
        };
        match member {
            Some(id) => id == session_id,
            None => false,
        }
    }

    fn leave(self, session_id: u64) -> (left: ProOwnership)
        ensures
            left == self.left(session_id),
    {
        match self {
            ProOwnership::Free => ProOwnership::Free,
            ProOwnership::Classic(id) => if id == session_id {
                ProOwnership::Free
            } else {
                ProOwnership::Classic(id)
            },
            ProOwnership::Split { peer_pid, peer_uid, token, playback, capture } => {
                let playback_left: Option<u64> = match playback {
                    Some(id) => if id == session_id {
                        None
                    } else {
                        Some(id)
                    },
                    None => None,
                };
                let capture_left: Option<u64> = match capture {
                    Some(id) => if id == session_id {
                        None
                    } else {
                        Some(id)
                    },
                    None => None,
                };
                if playback_left.is_none() && capture_left.is_none() {
                    ProOwnership::Free
                } else {
                    ProOwnership::Split {
                        peer_pid,
                        peer_uid,
                        token,
                        playback: playback_left,
                        capture: capture_left,
                    }
                }
            },
        }
    }
}

impl DaemonState {
    /// Every slot is in order, the ownership says who owns the PRO slots, and no session is in two
    /// slots.
    pub open spec fn wf(&self) -> bool {
        &&& self.pro.wf()
        &&& self.pro_capture.wf()
        &&& self.pro.plays
        &&& !self.pro_capture.plays
        &&& self.pro_capture.geometry.playback_channels == 0
        &&& ports_wf(self.shared@)
        &&& self.ownership.describes(self.pro.owner, self.pro_capture.owner)
        &&& self.one_slot_each()
    }

    /// No session owns two slots.
    pub open spec fn one_slot_each(&self) -> bool {
        &&& self.pro.owner != 0 ==> self.pro.owner != self.pro_capture.owner
        &&& forall|i: int|
            0 <= i < self.shared@.len() && (#[trigger] self.shared@[i]).session.owner != 0
                ==> self.shared@[i].session.owner != self.pro.owner
                && self.shared@[i].session.owner != self.pro_capture.owner
        &&& forall|i: int, j: int|
            0 <= i < j < self.shared@.len() && (#[trigger] self.shared@[i]).session.owner != 0
                ==> self.shared@[i].session.owner != (#[trigger] self.shared@[j]).session.owner
    }

    /// Sets up the slots of a profile whose fingerprint is given.
    pub fn new(profile: &Profile, fingerprint: u64) -> (result: Result<Self, ProtocolError>)
        requires
            profile.device.period_size > 0,
        ensures
            ({
                let device = profile.device;
                let playback = profile.ports.playback@;
                let capture = profile.ports.capture@;
                let periods = (device.shared_buffer_size / device.period_size) as int;
                let countable = (forall|i: int|
                    0 <= i < playback.len() ==> SharedPortState::countable(
                        #[trigger] playback[i],
                        device.period_size,
                    )) && (forall|i: int|
                    0 <= i < capture.len() ==> SharedPortState::countable(
                        #[trigger] capture[i],
                        device.period_size,
                    ));
                match result {
                    Ok(state) => {
                        &&& countable
                        &&& state.wf()
                        &&& state.info@ == description_of(
                            *profile,
                            fingerprint,
                        )
                        &&& state.shared@.len() == playback.len() + capture.len()
                        &&& forall|i: int|
                            0 <= i < playback.len() ==> (#[trigger] state.shared@[i]).made_from(
                                playback[i],
                                PortDirection::Playback,
                                device.period_size,
                                SHARED_SLOT_COUNT,
                            )
                        &&& forall|i: int|
                            playback.len() <= i < state.shared@.len() ==> (
                            #[trigger] state.shared@[i]).made_from(
                                capture[i - playback.len()],
                                PortDirection::Capture,
                                device.period_size,
                                capture_slots(periods),
                            )
                        &&& state.pro == SessionState::fresh(
                            true,
                            SessionGeometry {
                                period_frames: device.period_size,
                                playback_channels: device.playback.channels,
                                capture_channels: device.capture.channels,
                                slot_count: SHARED_SLOT_COUNT,
                            },
                        )
                        &&& state.pro_capture == SessionState::fresh(
                            false,
                            SessionGeometry {
                                period_frames: device.period_size,
                                playback_channels: 0,
                                capture_channels: device.capture.channels,
                                slot_count: SHARED_SLOT_COUNT,
                            },
                        )
                        &&& state.ownership == ProOwnership::Free
                        &&& state.next_session == 1
                        &&& state.shared_buffer_periods == periods
                        &&& state.shared_latency_periods == device.shared_latency_periods
                        &&& state.shared_playback_repeat_on_underrun
                            == device.shared_playback_repeat_on_underrun
                        &&& state.period_frames == device.period_size
                        &&& state.playback_channels == device.playback.channels
                        &&& state.capture_channels == device.capture.channels
                        &&& state.playback_epoch == 0
                        &&& state.playback_commits == (PlaybackCommitBarrier {
                            started: 0,
                            completed: 0,
                        })
                        &&& !state.pro_diagnostics.active()
                        &&& state.pro_diagnostics.misses() == 0
                        &&& state.pro_diagnostics.last_miss() is None
                        &&& state.pro_diagnostics.accepted() == (0u64, 0u64)
                        &&& !state.bridges_created
                        &&& !state.hardware_ready
                        &&& !state.pair_playback
                        &&& !state.pair_capture
                    },
                    Err(e) => !countable && e == ProtocolError::LayoutOverflow,
                }
            }),
    {
        let period_size: u32 = profile.device.period_size;
        let shared_buffer_periods: usize = (profile.device.shared_buffer_size
            / period_size) as usize;
        let mut shared: Vec<SharedPortState> = Vec::new();
        let mut i: usize = 0;
        while i < profile.ports.playback.len()
            invariant
                i <= profile.ports.playback@.len(),
                period_size == profile.device.period_size,
                shared@.len() == i,
                forall|k: int|
                    0 <= k < i ==> SharedPortState::countable(
                        #[trigger] profile.ports.playback@[k],
                        period_size,
                    ),
                forall|k: int|
                    0 <= k < i ==> (#[trigger] shared@[k]).made_from(
                        profile.ports.playback@[k],
                        PortDirection::Playback,
                        period_size,
                        SHARED_SLOT_COUNT,
                    ),
            decreases profile.ports.playback.len() - i,
        {
            match SharedPortState::new(
                &profile.ports.playback[i],
                PortDirection::Playback,
                period_size,
                SHARED_SLOT_COUNT,
            ) {
                Ok(port) => shared.push(port),
                Err(e) => {
                    return Err(e);
                },
            }
            i = i + 1;
        }
        let slot_count: u32 = if shared_buffer_periods < 2 {
            4
        } else if shared_buffer_periods > 8 {
            16
        } else {
            (shared_buffer_periods * 2) as u32
        };
        let first: usize = shared.len();
        let mut c: usize = 0;
        while c < profile.ports.capture.len()
            invariant
                c <= profile.ports.capture@.len(),
                period_size == profile.device.period_size,
                first == profile.ports.playback@.len(),
                shared@.len() == first + c,
                forall|k: int|
                    0 <= k < first ==> (#[trigger] shared@[k]).made_from(
                        profile.ports.playback@[k],
                        PortDirection::Playback,
                        period_size,
                        SHARED_SLOT_COUNT,
                    ),
                forall|k: int|
                    0 <= k < c ==> SharedPortState::countable(
                        #[trigger] profile.ports.capture@[k],
                        period_size,
                    ),
                forall|k: int|
                    first <= k < first + c ==> (#[trigger] shared@[k]).made_from(
                        profile.ports.capture@[k - first],
                        PortDirection::Capture,
                        period_size,
                        slot_count,
                    ),
            decreases profile.ports.capture.len() - c,
        {
            match SharedPortState::new(
                &profile.ports.capture[c],
                PortDirection::Capture,
                period_size,
                slot_count,
            ) {
                Ok(port) => shared.push(port),
                Err(e) => {
                    return Err(e);
                },
            }
            c = c + 1;
        }
        assert forall|k: int| 0 <= k < shared@.len() implies (#[trigger] shared@[k]).session.wf() by {
            if k < first {
                assert(shared@[k].made_from(
                    profile.ports.playback@[k],
                    PortDirection::Playback,
                    period_size,
                    SHARED_SLOT_COUNT,
                ));
            } else {
                assert(shared@[k].made_from(
                    profile.ports.capture@[k - first],
                    PortDirection::Capture,
                    period_size,
                    slot_count,
                ));
            }
        }
        Ok(
            DaemonState {
                pair_playback: false,
                pair_capture: false,
                pro_diagnostics: ProDiagnostics::default(),
                info: device_info(profile, fingerprint),
                hardware_ready: false,
                pro: SessionState::new(
                    true,
                    SessionGeometry {
                        period_frames: period_size,
                        playback_channels: profile.device.playback.channels,
                        capture_channels: profile.device.capture.channels,
                        slot_count: SHARED_SLOT_COUNT,
                    },
                ),
                pro_capture: SessionState::new(
                    false,
                    SessionGeometry {
                        period_frames: period_size,
                        playback_channels: 0,
                        capture_channels: profile.device.capture.channels,
                        slot_count: SHARED_SLOT_COUNT,
                    },
                ),
                ownership: ProOwnership::Free,
                shared,
                next_session: 1,
                period_frames: period_size as usize,
                playback_channels: profile.device.playback.channels as usize,
                capture_channels: profile.device.capture.channels as usize,
                shared_buffer_periods,
                shared_latency_periods: profile.device.shared_latency_periods,
                shared_playback_repeat_on_underrun:
                    profile.device.shared_playback_repeat_on_underrun,
                playback_epoch: 0,
                playback_commits: PlaybackCommitBarrier::new(),
                bridges_created: false,
            },
        )
    }

    pub fn info(&self) -> (info: DeviceInfo)
        ensures
            info@ == self.info@,
    {
        copy_info(&self.info)
    }

    /// Enables the PRO diagnostics; to be done before the hardware loop starts.
    pub fn enable_pro_diagnostics(&mut self)
        ensures
            final(self).pro_diagnostics.active(),
            final(self).pro_diagnostics.accepted() == old(self).pro_diagnostics.accepted(),
            final(self).pro_diagnostics.misses() == old(self).pro_diagnostics.misses(),
            final(self).pro_diagnostics.last_miss() == old(self).pro_diagnostics.last_miss(),
            *final(self) == (DaemonState {
                pro_diagnostics: final(self).pro_diagnostics,
                ..*old(self)
            }),
    {
        self.pro_diagnostics.enable();
    }

    pub fn pro_diagnostics(&self) -> (snapshot: Option<ProDiagnosticsSnapshot>)
        ensures
            snapshot == Some(
                ProDiagnosticsSnapshot {
                    misses_recorded: self.pro_diagnostics.misses(),
                    accepted_roundtrip_samples: self.pro_diagnostics.accepted().0,
                    accepted_roundtrip_max_nanos: self.pro_diagnostics.accepted().1,
                    last_miss: self.pro_diagnostics.last_miss(),
                },
            ),
    {
        self.pro_diagnostics.snapshot()
    }

    pub fn hardware_ready(&self) -> (ready: bool)
        ensures
            ready == self.hardware_ready,
    {
        self.hardware_ready
    }

    /// Issues a session id.
    fn next_session_id(&mut self) -> (session_id: u64)
        ensures
            session_id == issued(old(self).next_session),
            is_session(session_id),
            old(self).wf() ==> final(self).wf(),
            *final(self) == (DaemonState {
                next_session: (session_id + 1) as u64,
                ..*old(self)
            }),
    {
        let mut session_id: u64 = self.next_session;
        if session_id == 0 || session_id == SESSION_CLOSING {
            session_id = 1;
        }
        self.next_session = session_id + 1;
        session_id
    }

    /// What to make before PRO output can be opened; nothing when it has an owner.
    pub fn pro_open_request(&self, hardware_generation: u64) -> (request: Option<OpenRequest>)
        requires
            self.wf(),
        ensures
            request == if self.ownership == ProOwnership::Free {
                Some(
                    OpenRequest {
                        session_id: issued(self.next_session),
                        hardware_generation,
                        geometry: self.pro.geometry,
                    },
                )
            } else {
                None
            },
    {
        match self.ownership {
            ProOwnership::Free => {
                let mut session = self.pro;
                session.try_open(self.upcoming_session(), hardware_generation)
            },
            _ => None,
        }
    }

    /// The id that the next open will be given.
    pub fn upcoming_session(&self) -> (session_id: u64)
        ensures
            session_id == issued(self.next_session),
            is_session(session_id),
    {
        if self.next_session == 0 || self.next_session == SESSION_CLOSING {
            1
        } else {
            self.next_session
        }
    }

    /// What opening PRO does: a free PRO goes to the session of the next id.
    pub open spec fn opens_pro(self, after: DaemonState, created: bool, opened: Option<u64>) -> bool {
        if self.ownership == ProOwnership::Free {
            let id = issued(self.next_session);
            &&& opened == if created {
                Some(id)
            } else {
                None
            }
            &&& after == DaemonState {
                next_session: (id + 1) as u64,
                pro: if created {
                    SessionState { owner: id, endpoint_session: id, ..self.pro }
                } else {
                    self.pro
                },
                ownership: if created {
                    ProOwnership::Classic(id)
                } else {
                    ProOwnership::Free
                },
                ..self
            }
        } else {
            opened is None && after == self
        }
    }

    /// Opens PRO for one client; `created` tells whether its regions could be made. The id is used
    /// up either way.
    pub fn open_pro(&mut self, created: bool) -> (opened: Option<u64>)
        requires
            old(self).wf(),
            !old(self).owned(issued(old(self).next_session)),
        ensures
            final(self).wf(),
            old(self).opens_pro(*final(self), created, opened),
    {
        match self.ownership {
            ProOwnership::Free => {},
            _ => {
                return None;
            },
        }
        let session_id: u64 = self.next_session_id();
        if !self.pro.claim(session_id) {
            return None;
        }
        self.pro.finish_open(session_id, created);
        if created {
            self.ownership = ProOwnership::Classic(session_id);
            Some(session_id)
        } else {
            None
        }
    }

    /// What to make before a PRO direction can be opened; nothing when its group does not admit
    /// the peer.
    pub fn pro_direction_request(
        &self,
        peer_pid: u32,
        peer_uid: u32,
        token: (u64, u64),
        direction: PortDirection,
        hardware_generation: u64,
    ) -> (request: Option<OpenRequest>)
        requires
            self.wf(),
        ensures
            request == if self.ownership.admits(peer_pid, peer_uid, token, direction) {
                Some(
                    OpenRequest {
                        session_id: issued(self.next_session),
                        hardware_generation,
                        geometry: match direction {
                            PortDirection::Playback => SessionGeometry {
                                capture_channels: 0,
                                ..self.pro.geometry
                            },
                            PortDirection::Capture => self.pro_capture.geometry,
                        },
                    },
                )
            } else {
                None
            },
    {
        if !self.ownership.admits_member(peer_pid, peer_uid, token, direction) {
            return None;
        }
        let session_id: u64 = self.upcoming_session();
        match direction {
            PortDirection::Playback => {
                let mut session = self.pro;
                session.try_open_layout(
                    session_id,
                    hardware_generation,
                    self.pro.geometry.playback_channels,
                    0,
                )
            },
            PortDirection::Capture => {
                let mut session = self.pro_capture;
                session.try_open(session_id, hardware_generation)
            },
        }
    }

    /// What opening a PRO direction does: a direction that the group admits the peer to goes to the
    /// session of the next id.
    pub open spec fn opens_direction(
        self,
        after: DaemonState,
        peer_pid: u32,
        peer_uid: u32,
        token: (u64, u64),
        direction: PortDirection,
        created: bool,
        opened: Option<u64>,
    ) -> bool {
        if self.ownership.admits(peer_pid, peer_uid, token, direction) {
            let id = issued(self.next_session);
            &&& opened == if created {
                Some(id)
            } else {
                None
            }
            &&& after == DaemonState {
                next_session: (id + 1) as u64,
                pro: if created && direction == PortDirection::Playback {
                    SessionState { owner: id, endpoint_session: id, ..self.pro }
                } else {
                    self.pro
                },
                pro_capture: if created && direction == PortDirection::Capture {
                    SessionState { owner: id, endpoint_session: id, ..self.pro_capture }
                } else {
                    self.pro_capture
                },
                ownership: if created {
                    self.ownership.joined(peer_pid, peer_uid, token, direction, id)
                } else {
                    self.ownership
                },
                ..self
            }
        } else {
            opened is None && after == self
        }
    }

    /// Opens one PRO direction for a member of a group. The credentials are those of the peer of
    /// the control connection.
    pub fn open_pro_direction(
        &mut self,
        peer_pid: u32,
        peer_uid: u32,
        token: (u64, u64),
        direction: PortDirection,
        created: bool,
    ) -> (opened: Option<u64>)
        requires
            old(self).wf(),
            !old(self).owned(issued(old(self).next_session)),
        ensures
            final(self).wf(),
            old(self).opens_direction(
                *final(self),
                peer_pid,
                peer_uid,
                token,
                direction,
                created,
                opened,
            ),
    {
        if !self.ownership.admits_member(peer_pid, peer_uid, token, direction) {
            return None;
        }
        let session_id: u64 = self.next_session_id();
        match direction {
            PortDirection::Playback => {
                if !self.pro.claim(session_id) {
                    return None;
                }
                self.pro.finish_open(session_id, created);
            },
            PortDirection::Capture => {
                if !self.pro_capture.claim(session_id) {
                    return None;
                }
                self.pro_capture.finish_open(session_id, created);
            },
        }
        if created {
            self.ownership = self.ownership.join(
                peer_pid,
                peer_uid,
                token,
                direction,
                session_id,
            );
            Some(session_id)
        } else {
            None
        }
    }

    fn find_port(&self, port_id: &str) -> (found: Option<usize>)
        ensures
            match port_index(self.shared@, port_id@) {
                Some(i) => found matches Some(k) && k == i && k < self.shared@.len(),
                None => found is None,
            },
    {
        let wanted: String = port_id.to_owned();
        let mut i: usize = 0;
        while i < self.shared.len()
            invariant
                i <= self.shared@.len(),
                wanted@ == port_id@,
                port_index(self.shared@.take(i as int), port_id@) is None,
            decreases self.shared.len() - i,
        {
            assert(self.shared@.take(i + 1).drop_last() =~= self.shared@.take(i as int));
            if self.shared[i].id == wanted {
                proof {
                    lemma_port_index_stays(self.shared@, port_id@, i + 1);
                }
                return Some(i);
            }
            i = i + 1;
        }
        assert(self.shared@.take(i as int) =~= self.shared@);
        None
    }

    /// What to make before a shared port can be opened; nothing when it is not free.
    pub fn shared_open_request(&self, port_id: &str, hardware_generation: u64) -> (request: Option<
        OpenRequest,
    >)
        requires
            self.wf(),
        ensures
            request == match port_index(self.shared@, port_id@) {
                Some(i) => if self.shared@[i].session.owner == 0 {
                    Some(
                        OpenRequest {
                            session_id: issued(self.next_session),
                            hardware_generation,
                            geometry: self.shared@[i].session.geometry,
                        },
                    )
                } else {
                    None
                },
                None => None,
            },
    {
        match self.find_port(port_id) {
            Some(i) => {
                assert(self.shared@[i as int].session.wf());
                let mut session = self.shared[i].session;
                session.try_open(self.upcoming_session(), hardware_generation)
            },
            None => None,
        }
    }

    /// What opening a port does: a free port goes to the session of the next id.
    pub open spec fn opens_shared(
        self,
        after: DaemonState,
        port_id: Seq<char>,
        created: bool,
        clients: Seq<ClientPlaybackDiagnostics>,
        result: Result<Option<SharedOpen>, OpenSharedError>,
    ) -> bool {
        match port_index(self.shared@, port_id) {
            None => {
                &&& after == self
                &&& result matches Err(OpenSharedError::UnknownPort(name))
                &&& name@ == port_id
            },
            Some(i) => {
                let id = issued(self.next_session);
                let session = self.shared@[i].session;
                let free = session.owner == 0;
                &&& after == DaemonState {
                    next_session: (id + 1) as u64,
                    shared: after.shared,
                    ..self
                }
                &&& if free && created {
                    &&& after.shared@ == self.shared@.update(
                        i,
                        SharedPortState {
                            session: SessionState { owner: id, endpoint_session: id, ..session },
                            diagnostics: self.shared@[i].diagnostics.with_client(clients[i]),
                            ..self.shared@[i]
                        },
                    )
                    &&& result == Ok::<Option<SharedOpen>, OpenSharedError>(
                        Some(
                            SharedOpen {
                                session_id: id,
                                direction: self.shared@[i].direction,
                                port: i as usize,
                            },
                        ),
                    )
                } else {
                    &&& after.shared@ == self.shared@
                    &&& result == if free {
                        Err::<Option<SharedOpen>, OpenSharedError>(OpenSharedError::Resources)
                    } else {
                        Ok::<Option<SharedOpen>, OpenSharedError>(None)
                    }
                }
            },
        }
    }

    /// Opens a shared port; `created` tells whether its regions could be made. `clients` are the
    /// counters in the region of each port: those of the region that is replaced are kept.
    pub fn open_shared(
        &mut self,
        port_id: &str,
        created: bool,
        clients: &Vec<ClientPlaybackDiagnostics>,
    ) -> (result: Result<Option<SharedOpen>, OpenSharedError>)
        requires
            old(self).wf(),
            clients@.len() == old(self).shared@.len(),
            !old(self).owned(issued(old(self).next_session)),
        ensures
            final(self).wf(),
            old(self).opens_shared(*final(self), port_id@, created, clients@, result),
    {
        let i: usize = match self.find_port(port_id) {
            Some(i) => i,
            None => {
                return Err(OpenSharedError::UnknownPort(port_id.to_owned()));
            },
        };
        let session_id: u64 = self.next_session_id();
        assert(self.shared@[i as int].session.wf());
        let ghost before = self.shared@;
        let mut session = self.shared[i].session;
        let direction = self.shared[i].direction;
        if !session.claim(session_id) {
            return Ok(None);
        }
        session.finish_open(session_id, created);
        if !created {
            return Err(OpenSharedError::Resources);
        }
        self.put_session(i, session);
        let ghost opened = self.shared@;
        self.shared[i].diagnostics.retire(clients[i]);
        proof {
            assert(self.shared@ =~= opened.update(
                i as int,
                SharedPortState {
                    diagnostics: before[i as int].diagnostics.with_client(clients@[i as int]),
                    ..opened[i as int]
                },
            ));
            assert(self.shared@ =~= before.update(
                i as int,
                SharedPortState {
                    session,
                    diagnostics: before[i as int].diagnostics.with_client(clients@[i as int]),
                    ..before[i as int]
                },
            ));
            assert forall|k: int| 0 <= k < self.shared@.len() implies (
            #[trigger] self.shared@[k]).session == opened[k].session by {}
            assert(ports_wf(self.shared@)) by {
                assert forall|k: int| 0 <= k < self.shared@.len() implies (
                #[trigger] self.shared@[k]).session.wf() by {
                    assert(opened[k].session.wf());
                }
            }
        }
        Ok(Some(SharedOpen { session_id, direction, port: i }))
    }

    /// Replaces the session state of a port. The owner stays, leaves, or is new to the daemon.
    fn put_session(&mut self, i: usize, session: SessionState)
        requires
            i < old(self).shared@.len(),
            old(self).wf(),
            session.wf(),
            session.owner == 0 || session.owner == old(self).shared@[i as int].session.owner
                || !old(self).owned(session.owner),
        ensures
            with_session(old(self).shared@, final(self).shared@, i as int, session),
            final(self).wf(),
            *final(self) == (DaemonState { shared: final(self).shared, ..*old(self) }),
    {
        let ghost before = self.shared@;
        self.shared[i].session = session;
        assert(self.shared@ =~= before.update(
            i as int,
            SharedPortState { session, ..before[i as int] },
        ));
        assert forall|k: int| 0 <= k < self.shared@.len() implies (
        #[trigger] self.shared@[k]).session.wf() by {
            if k != i {
                assert(before[k].session.wf());
            }
        }
        proof {
            assert forall|k: int|
                0 <= k < self.shared@.len() && (#[trigger] self.shared@[k]).session.owner
                    != 0 implies self.shared@[k].session.owner != self.pro.owner
                && self.shared@[k].session.owner != self.pro_capture.owner by {
                assert(before[k].session.owner != 0 ==> before[k].session.owner != self.pro.owner);
            }
            assert forall|k: int, j: int|
                0 <= k < j < self.shared@.len() && (#[trigger] self.shared@[k]).session.owner
                    != 0 implies self.shared@[k].session.owner != (
            #[trigger] self.shared@[j]).session.owner by {
                let first = before[k].session.owner;
                let second = before[j].session.owner;
                assert(first != 0 ==> first != second);
            }
        }
    }

    /// What starting a session does.
    pub open spec fn starts(
        self,
        after: DaemonState,
        session_id: u64,
        hardware_generation: u64,
        started: bool,
    ) -> bool {
        if !is_session(session_id) {
            !started && after == self
        } else if self.pro_capture.owner == session_id {
            &&& started == self.pro_capture.startable(session_id)
            &&& after == DaemonState {
                pro_capture: if started {
                    self.pro_capture.started(session_id, hardware_generation)
                } else {
                    self.pro_capture
                },
                ..self
            }
        } else if self.pro.owner == session_id {
            &&& started == self.pro.startable(session_id)
            &&& after == DaemonState {
                pro: if started {
                    self.pro.started(session_id, hardware_generation)
                } else {
                    self.pro
                },
                ..self
            }
        } else {
            &&& after == DaemonState { shared: after.shared, ..self }
            &&& match owned_index(self.shared@, session_id) {
                Some(i) => {
                    let session = self.shared@[i].session;
                    &&& started == session.startable(session_id)
                    &&& with_session(
                        self.shared@,
                        after.shared@,
                        i,
                        if started {
                            session.started(session_id, hardware_generation)
                        } else {
                            session
                        },
                    )
                },
                None => !started && after.shared@ == self.shared@,
            }
        }
    }

    /// Starts the session, in whichever slot it owns.
    pub fn start(&mut self, session_id: u64, hardware_generation: u64) -> (started: bool)
        requires
            old(self).wf(),
        ensures
            final(self).wf(),
            old(self).starts(*final(self), session_id, hardware_generation, started),
    {
        if session_id == 0 || session_id == SESSION_CLOSING {
            return false;
        }
        if self.pro_capture.owner == session_id {
            return self.pro_capture.start(session_id, hardware_generation);
        }
        if self.pro.owner == session_id {
            return self.pro.start(session_id, hardware_generation);
        }
        let i: usize = match self.owned_port(session_id) {
            Some(i) => i,
            None => {
                return false;
            },
        };
        assert(old(self).shared@[i as int].session.wf());
        let mut session = self.shared[i].session;
        let started: bool = session.start(session_id, hardware_generation);
        self.put_session(i, session);
        started
    }

    /// What starting a session together with the other member of its group does.
    pub open spec fn starts_aligned(
        self,
        after: DaemonState,
        session_id: u64,
        hardware_generation: u64,
        started: bool,
    ) -> bool {
        if self.ownership.member(PortDirection::Playback) == Some(session_id) {
            &&& started == self.pro.startable(session_id)
            &&& after == if started {
                DaemonState {
                    pair_playback: true,
                    pro: self.pro.started(session_id, hardware_generation),
                    ..self
                }
            } else if self.pro.active == 0 {
                DaemonState { pair_playback: false, ..self }
            } else {
                self
            }
        } else if self.ownership.member(PortDirection::Capture) == Some(session_id) {
            &&& started == self.pro_capture.startable(session_id)
            &&& after == if started {
                DaemonState {
                    pair_capture: true,
                    pro_capture: self.pro_capture.started(
                        session_id,
                        hardware_generation,
                    ),
                    ..self
                }
            } else if self.pro_capture.active == 0 {
                DaemonState { pair_capture: false, ..self }
            } else {
                self
            }
        } else {
            !started && after == self
        }
    }

    /// Starts a member of a split group together with the other one: it is activated in the same
    /// cycle.
    pub fn start_pro_aligned(&mut self, session_id: u64, hardware_generation: u64) -> (started:
        bool)
        requires
            old(self).wf(),
        ensures
            final(self).wf(),
            old(self).starts_aligned(*final(self), session_id, hardware_generation, started),
    {
        if self.ownership.is_member(PortDirection::Playback, session_id) {
            if self.pro.active != 0 {
                return false;
            }
            let started: bool = self.pro.start(session_id, hardware_generation);
            self.pair_playback = started;
            return started;
        }
        if self.ownership.is_member(PortDirection::Capture, session_id) {
            if self.pro_capture.active != 0 {
                return false;
            }
            let started: bool = self.pro_capture.start(session_id, hardware_generation);
            self.pair_capture = started;
            return started;
        }
        false
    }

    /// What stopping a session does.
    pub open spec fn stops(self, after: DaemonState, session_id: u64, stopped: bool) -> bool {
        if !is_session(session_id) {
            !stopped && after == self
        } else if self.pro_capture.active == session_id {
            &&& stopped
            &&& after == DaemonState {
                pro_capture: self.pro_capture.stopped(),
                pair_capture: false,
                ..self
            }
        } else if self.pro.active == session_id {
            &&& stopped
            &&& after == DaemonState {
                pro: self.pro.stopped(),
                pair_playback: false,
                playback_epoch: self.playback_epoch.wrapping_add(1),
                ..self
            }
        } else {
            match owned_index(self.shared@, session_id) {
                Some(i) => {
                    let session = self.shared@[i].session;
                    &&& stopped == (session.active == session_id)
                    &&& with_session(
                        self.shared@,
                        after.shared@,
                        i,
                        if stopped {
                            session.stopped()
                        } else {
                            session
                        },
                    )
                    &&& after == DaemonState {
                        shared: after.shared,
                        playback_epoch: if stopped {
                            session.bumped(self.playback_epoch)
                        } else {
                            self.playback_epoch
                        },
                        ..self
                    }
                },
                None => !stopped && after == self,
            }
        }
    }

    /// Stops the session, in whichever slot it is active.
    pub fn stop(&mut self, session_id: u64) -> (stopped: bool)
        requires
            old(self).wf(),
        ensures
            final(self).wf(),
            old(self).stops(*final(self), session_id, stopped),
    {
        if session_id == 0 || session_id == SESSION_CLOSING {
            return false;
        }
        let mut epoch: u64 = self.playback_epoch;
        if self.pro_capture.stop(session_id, &mut epoch) {
            self.pair_capture = false;
            return true;
        }
        if self.pro.stop(session_id, &mut epoch) {
            self.playback_epoch = epoch;
            self.pair_playback = false;
            return true;
        }
        let i: usize = match self.owned_port(session_id) {
            Some(i) => i,
            None => {
                return false;
            },
        };
        assert(old(self).shared@[i as int].session.wf());
        let mut session = self.shared[i].session;
        let stopped: bool = session.stop(session_id, &mut epoch);
        self.playback_epoch = epoch;
        self.put_session(i, session);
        stopped
    }

    /// What closing a session does.
    pub open spec fn closes(self, after: DaemonState, session_id: u64, closed: bool) -> bool {
        if !is_session(session_id) {
            !closed && after == self
        } else if self.pro.owner == session_id {
            &&& closed
            &&& after == DaemonState {
                pro: self.pro.closed(),
                playback_epoch: if self.pro.active == session_id {
                    self.playback_epoch.wrapping_add(1)
                } else {
                    self.playback_epoch
                },
                ownership: self.ownership.left(session_id),
                pair_playback: self.pair_playback && self.ownership.member(
                    PortDirection::Playback,
                ) != Some(session_id),
                ..self
            }
        } else if self.pro_capture.owner == session_id {
            &&& closed
            &&& after == DaemonState {
                pro_capture: self.pro_capture.closed(),
                ownership: self.ownership.left(session_id),
                pair_capture: false,
                ..self
            }
        } else {
            match owned_index(self.shared@, session_id) {
                Some(i) => {
                    let session = self.shared@[i].session;
                    &&& closed
                    &&& with_session(
                        self.shared@,
                        after.shared@,
                        i,
                        session.closed(),
                    )
                    &&& after == DaemonState {
                        shared: after.shared,
                        playback_epoch: if session.active == session_id {
                            session.bumped(self.playback_epoch)
                        } else {
                            self.playback_epoch
                        },
                        ..self
                    }
                },
                None => !closed && after == self,
            }
        }
    }

    /// Lets the session go, from whichever slot it owns. The PRO group lives on until its last
    /// member has left.
    pub fn close(&mut self, session_id: u64) -> (closed: bool)
        requires
            old(self).wf(),
        ensures
            final(self).wf(),
            old(self).closes(*final(self), session_id, closed),
    {
        if session_id == 0 || session_id == SESSION_CLOSING {
            return false;
        }
        if self.pro.owner == session_id || self.pro_capture.owner == session_id {
            self.close_pro(session_id);
            true
        } else {
            self.close_shared(session_id)
        }
    }

    /// Lets a PRO session go.
    fn close_pro(&mut self, session_id: u64)
        requires
            old(self).wf(),
            is_session(session_id),
            old(self).pro.owner == session_id || old(self).pro_capture.owner == session_id,
        ensures
            final(self).wf(),
            if old(self).pro.owner == session_id {
                *final(self) == DaemonState {
                    pro: old(self).pro.closed(),
                    playback_epoch: if old(self).pro.active == session_id {
                        old(self).playback_epoch.wrapping_add(1)
                    } else {
                        old(self).playback_epoch
                    },
                    ownership: old(self).ownership.left(session_id),
                    pair_playback: old(self).pair_playback && old(self).ownership.member(
                        PortDirection::Playback,
                    ) != Some(session_id),
                    ..*old(self)
                }
            } else {
                *final(self) == DaemonState {
                    pro_capture: old(self).pro_capture.closed(),
                    ownership: old(self).ownership.left(session_id),
                    pair_capture: false,
                    ..*old(self)
                }
            },
    {
        let mut epoch: u64 = self.playback_epoch;
        if !self.pro.close(session_id, &mut epoch) {
            self.pro_capture.close(session_id, &mut epoch);
        }
        self.playback_epoch = epoch;
        if self.ownership.is_member(PortDirection::Playback, session_id) {
            self.pair_playback = false;
        }
        if self.ownership.is_member(PortDirection::Capture, session_id) {
            self.pair_capture = false;
        }
        self.ownership = self.ownership.leave(session_id);
    }

    /// Lets the session go from the first port it owns.
    fn close_shared(&mut self, session_id: u64) -> (closed: bool)
        requires
            old(self).wf(),
            is_session(session_id),
        ensures
            final(self).wf(),
            match owned_index(old(self).shared@, session_id) {
                Some(i) => {
                    let session = old(self).shared@[i].session;
                    &&& closed
                    &&& with_session(
                        old(self).shared@,
                        final(self).shared@,
                        i,
                        session.closed(),
                    )
                    &&& *final(self) == DaemonState {
                        shared: final(self).shared,
                        playback_epoch: if session.active == session_id {
                            session.bumped(old(self).playback_epoch)
                        } else {
                            old(self).playback_epoch
                        },
                        ..*old(self)
                    }
                },
                None => !closed && *final(self) == *old(self),
            },
    {
        let mut epoch: u64 = self.playback_epoch;
        let i: usize = match self.owned_port(session_id) {
            Some(i) => i,
            None => {
                return false;
            },
        };
        assert(old(self).shared@[i as int].session.wf());
        let mut session = self.shared[i].session;
        let released: bool = session.close(session_id, &mut epoch);
        self.playback_epoch = epoch;
        self.put_session(i, session);
        released
    }

    /// Whether any slot is owned by the session.
    pub open spec fn owned(&self, session_id: u64) -> bool {
        is_session(session_id) && (self.pro.owner == session_id || self.pro_capture.owner
            == session_id || exists|i: int|
            0 <= i < self.shared@.len() && (#[trigger] self.shared@[i]).session.owner
                == session_id)
    }

    pub fn owns(&self, session_id: u64) -> (owns: bool)
        ensures
            owns == self.owned(session_id),
    {
        if session_id == 0 || session_id == SESSION_CLOSING {
            return false;
        }
        if self.pro.owner == session_id || self.pro_capture.owner == session_id {
            return true;
        }
        self.owned_port(session_id).is_some()
    }

    /// The port that the session owns.
    fn owned_port(&self, session_id: u64) -> (found: Option<usize>)
        ensures
            match owned_index(self.shared@, session_id) {
                Some(i) => {
                    &&& found matches Some(k)
                    &&& k == i
                    &&& k < self.shared@.len()
                    &&& self.shared@[i].session.owner == session_id
                },
                None => {
                    &&& found is None
                    &&& forall|j: int|
                        0 <= j < self.shared@.len() ==> (#[trigger] self.shared@[j]).session.owner
                            != session_id
                },
            },
    {
        let mut i: usize = 0;
        while i < self.shared.len()
            invariant
                i <= self.shared@.len(),
                owned_index(self.shared@.take(i as int), session_id) is None,
            decreases self.shared.len() - i,
        {
            assert(self.shared@.take(i + 1).drop_last() =~= self.shared@.take(i as int));
            if self.shared[i].session.owner == session_id {
                proof {
                    lemma_owned_index_stays(self.shared@, session_id, i + 1);
                }
                return Some(i);
            }
            i = i + 1;
        }
        assert(self.shared@.take(i as int) =~= self.shared@);
        proof {
            owned_index_finds_the_owner(self.shared@, session_id);
        }
        None
    }

    /// Whether the capture region of a split group counts beside the playback region.
    pub open spec fn capture_counts(&self) -> bool {
        self.ownership.member(PortDirection::Capture) == Some(self.pro_capture.endpoint_session)
    }

    /// The PRO client counters that a report shows: those of the playback region, with those of
    /// the capture region where a group has one, or those alone where it has no playback member.
    pub open spec fn reported_client(
        &self,
        output: ProClientDiagnostics,
        input: ProClientDiagnostics,
    ) -> ProClientDiagnostics {
        if !self.capture_counts() {
            output
        } else if self.ownership.member(PortDirection::Playback) is None {
            input
        } else {
            combined_clients(output, input)
        }
    }

    /// Reports the counters. `output` and `input` are the client counters in the playback and the
    /// capture region of PRO, and `clients` those in the region of each port.
    pub fn stats(
        &self,
        hardware: HardwareStats,
        output: ProClientDiagnostics,
        input: ProClientDiagnostics,
        clients: &Vec<ClientPlaybackDiagnostics>,
    ) -> (stats: Stats)
        requires
            clients@.len() == self.shared@.len(),
        ensures
            stats == report_of(
                hardware,
                self.reported_client(output, input),
                stats.shared_playback_ports,
            ),
            port_stats_models(stats.shared_playback_ports@) == port_reports(
                self.shared@,
                clients@,
            ),
            stats.generation == hardware.generation,
            stats.sample_position == hardware.sample_position,
            stats.playback_position == hardware.playback_position,
            stats.capture_position == hardware.capture_position,
            stats.hw_playback_xruns == hardware.hw_playback_xruns,
            stats.hw_capture_xruns == hardware.hw_capture_xruns,
            stats.playback_delay_frames == hardware.playback_delay_frames,
            stats.capture_delay_frames == hardware.capture_delay_frames,
            stats.playback_delay_min_frames == hardware.playback_delay_min_frames,
            stats.playback_delay_max_frames == hardware.playback_delay_max_frames,
            stats.playback_ring_delay_frames == hardware.playback_ring_delay_frames,
            stats.playback_ring_delay_min_frames == hardware.playback_ring_delay_min_frames,
            stats.playback_ring_delay_max_frames == hardware.playback_ring_delay_max_frames,
            stats.playback_driver_delay_frames == hardware.playback_driver_delay_frames,
            stats.playback_driver_delay_min_frames == hardware.playback_driver_delay_min_frames,
            stats.playback_driver_delay_max_frames == hardware.playback_driver_delay_max_frames,
            stats.capture_delay_min_frames == hardware.capture_delay_min_frames,
            stats.capture_delay_max_frames == hardware.capture_delay_max_frames,
            stats.playback_target_overshoot_max_frames == hardware.playback_target_overshoot_max_frames,
            stats.capture_clock_wait_max_nanos == hardware.capture_clock_wait_max_nanos,
            stats.pro_wait_budget_min_nanos == hardware.pro_wait_budget_min_nanos,
            stats.pro_wait_budget_max_nanos == hardware.pro_wait_budget_max_nanos,
            stats.pro_ready_wait_max_nanos == hardware.pro_ready_wait_max_nanos,
            stats.playback_write_max_nanos == hardware.playback_write_max_nanos,
            stats.capture_to_playback_write_nanos == hardware.capture_to_playback_write_nanos,
            stats.capture_to_playback_write_min_nanos == hardware.capture_to_playback_write_min_nanos,
            stats.capture_to_playback_write_max_nanos == hardware.capture_to_playback_write_max_nanos,
            stats.duplex_pointer_phase_nanos == hardware.duplex_pointer_phase_nanos,
            stats.duplex_pointer_phase_min_nanos == hardware.duplex_pointer_phase_min_nanos,
            stats.duplex_pointer_phase_max_nanos == hardware.duplex_pointer_phase_max_nanos,
            stats.duplex_pointer_phase_samples == hardware.duplex_pointer_phase_samples,
            stats.linked_phase_attempts == hardware.linked_phase_attempts,
            stats.linked_phase_rebases == hardware.linked_phase_rebases,
            stats.linked_phase_score_nanos == hardware.linked_phase_score_nanos,
            stats.linked_phase_target_met == hardware.linked_phase_target_met,
            stats.playback_low_watermarks == hardware.playback_low_watermarks,
            stats.pro_deadline_misses == hardware.pro_deadline_misses,
            stats.pro_client_deadline_misses == hardware.pro_client_deadline_misses,
            stats.pro_core_deadline_misses == hardware.pro_core_deadline_misses,
            stats.pro_capture_overruns == hardware.pro_capture_overruns,
            stats.pro_playback_blocks == hardware.pro_playback_blocks,
            stats.pro_playback_nonzero_blocks == hardware.pro_playback_nonzero_blocks,
            stats.shared_underruns == hardware.shared_underruns,
            stats.shared_overruns == hardware.shared_overruns,
            stats.timeline_resets == hardware.timeline_resets,
            stats.periods_processed == hardware.periods_processed,
    {
        let mut ports: Vec<SharedPlaybackPortStats> = Vec::new();
        let mut i: usize = 0;
        while i < self.shared.len()
            invariant
                i <= self.shared@.len() == clients@.len(),
                port_stats_models(ports@) == port_reports(
                    self.shared@.take(i as int),
                    clients@.take(i as int),
                ),
            decreases self.shared.len() - i,
        {
            let ghost before = ports@;
            match self.shared[i].direction {
                PortDirection::Playback => {
                    let report = port_report(
                        self.shared[i].id.clone(),
                        self.shared[i].diagnostics.playback_diagnostics(clients[i]),
                    );
                    assert(report@ =~= port_model(
                        self.shared@[i as int],
                        clients@[i as int],
                    ));
                    ports.push(report);
                    assert(port_stats_models(ports@) =~= port_stats_models(before).push(report@));
                },
                PortDirection::Capture => {},
            }
            assert(self.shared@.take(i + 1).drop_last() =~= self.shared@.take(i as int));
            assert(clients@.take(i + 1).drop_last() =~= clients@.take(i as int));
            i = i + 1;
        }
        assert(self.shared@.take(i as int) =~= self.shared@);
        assert(clients@.take(i as int) =~= clients@);
        let client = if !self.ownership.is_member(
            PortDirection::Capture,
            self.pro_capture.endpoint_session,
        ) {
            output
        } else {
            match self.ownership {
                ProOwnership::Split { playback: None, .. } => input,
                _ => combine_clients(output, input),
            }
        };
        stats_from_core(hardware, client, ports)
    }
}

/// What is reported of a playback port whose client has the given counters.
pub open spec fn port_model(
    port: SharedPortState,
    client: ClientPlaybackDiagnostics,
) -> SharedPlaybackPortStatsModel {
    let diagnostics = port.diagnostics.with_client(client);
    SharedPlaybackPortStatsModel {
        port_id: port.id@,
        words: seq![
            diagnostics.underruns,
            diagnostics.last_underrun_sequence,
            diagnostics.last_underrun_nanos,
            diagnostics.last_sequence_lag_periods,
            diagnostics.max_sequence_lag_periods,
            diagnostics.expired_playback_periods,
            diagnostics.playback_submit_failures,
            diagnostics.playback_xruns,
        ],
    }
}

/// What is reported of the playback ports, in order.
pub open spec fn port_reports(
    ports: Seq<SharedPortState>,
    clients: Seq<ClientPlaybackDiagnostics>,
) -> Seq<SharedPlaybackPortStatsModel>
    decreases ports.len(),
{
    if ports.len() == 0 {
        Seq::empty()
    } else {
        let rest = port_reports(ports.drop_last(), clients.drop_last());
        if ports.last().direction == PortDirection::Playback {
            rest.push(port_model(ports.last(), clients.last()))
        } else {
            rest
        }
    }
}

/// While one client owns both PRO directions nobody else is admitted to either.
pub proof fn a_sole_pro_owner_excludes_others(
    owner: u64,
    peer_pid: u32,
    peer_uid: u32,
    token: (u64, u64),
    direction: PortDirection,
)
    ensures
        !ProOwnership::Classic(owner).admits(peer_pid, peer_uid, token, direction),
{
}

/// A direction of a group that has an owner is given to nobody else, and the group admits only
/// the process, user and token that founded it.
pub proof fn a_group_admits_its_founder_to_a_free_direction(
    group: ProOwnership,
    peer_pid: u32,
    peer_uid: u32,
    token: (u64, u64),
    direction: PortDirection,
)
    requires
        group is Split,
    ensures
        group.admits(peer_pid, peer_uid, token, direction) ==> group.member(direction) is None
            && group->peer_pid == peer_pid && group->peer_uid == peer_uid && group->token == token,
{
}

/// A group outlives its first member to leave, with the same credentials, and is given up by the
/// last one.
pub proof fn a_group_lives_until_its_last_member_leaves(
    peer_pid: u32,
    peer_uid: u32,
    token: (u64, u64),
    playback: u64,
    capture: u64,
)
    requires
        playback != capture,
    ensures
        ({
            let group = ProOwnership::Free.joined(
                peer_pid,
                peer_uid,
                token,
                PortDirection::Playback,
                playback,
            ).joined(peer_pid, peer_uid, token, PortDirection::Capture, capture);
            &&& group.left(playback) == ProOwnership::Split {
                peer_pid,
                peer_uid,
                token,
                playback: None,
                capture: Some(capture),
            }
            &&& group.left(capture) == ProOwnership::Split {
                peer_pid,
                peer_uid,
                token,
                playback: Some(playback),
                capture: None,
            }
            &&& group.left(playback).left(capture) == ProOwnership::Free
            &&& group.left(capture).left(playback) == ProOwnership::Free
        }),
{
}

/// A member that leaves makes room for the next one of the same group.
pub proof fn a_direction_can_be_taken_again(
    group: ProOwnership,
    peer_pid: u32,
    peer_uid: u32,
    token: (u64, u64),
    direction: PortDirection,
    session_id: u64,
)
    requires
        group.admits(peer_pid, peer_uid, token, direction),
        group.member(PortDirection::Playback) != Some(session_id),
        group.member(PortDirection::Capture) != Some(session_id),
        group is Split ==> group.member(PortDirection::Playback) is Some || group.member(
            PortDirection::Capture,
        ) is Some,
    ensures
        group.joined(peer_pid, peer_uid, token, direction, session_id).left(session_id) == group,
        !group.joined(peer_pid, peer_uid, token, direction, session_id).admits(
            peer_pid,
            peer_uid,
            token,
            direction,
        ),
{
}

/// A session is found in at most one slot, so starting, stopping or closing it touches no other
/// client's.
pub proof fn a_session_has_one_slot(state: DaemonState, session_id: u64)
    requires
        state.wf(),
        is_session(session_id),
        state.pro.owner == session_id || state.pro_capture.owner == session_id,
    ensures
        owned_index(state.shared@, session_id) is None,
        !(state.pro.owner == session_id && state.pro_capture.owner == session_id),
{
    owned_index_finds_the_owner(state.shared@, session_id);
}

/// A port that has an owner is given to nobody else, and nothing changes for the owner.
pub proof fn an_owned_port_is_busy(
    state: DaemonState,
    after: DaemonState,
    port_id: Seq<char>,
    created: bool,
    clients: Seq<ClientPlaybackDiagnostics>,
    result: Result<Option<SharedOpen>, OpenSharedError>,
    port: int,
)
    requires
        state.opens_shared(after, port_id, created, clients, result),
        port_index(state.shared@, port_id) == Some(port),
        state.shared@[port].session.owner != 0,
    ensures
        result == Ok::<Option<SharedOpen>, OpenSharedError>(None),
        after.shared@ == state.shared@,
        after.pro == state.pro,
        after.pro_capture == state.pro_capture,
{
}

/// A session outlives the others: closing one leaves every other where it was, active or not.
pub proof fn closing_one_session_keeps_the_others(
    state: DaemonState,
    after: DaemonState,
    closing: u64,
    closed: bool,
    other: u64,
)
    requires
        state.wf(),
        state.closes(after, closing, closed),
        state.owned(other),
        other != closing,
    ensures
        after.owned(other),
        state.pro.owner == other ==> after.pro == state.pro,
        state.pro_capture.owner == other ==> after.pro_capture == state.pro_capture,
        forall|i: int|
            0 <= i < state.shared@.len() && (#[trigger] state.shared@[i]).session.owner == other
                ==> after.shared@[i] == state.shared@[i],
{
    owned_index_finds_the_owner(state.shared@, closing);
    if state.pro.owner != other && state.pro_capture.owner != other {
        let i = choose|i: int|
            0 <= i < state.shared@.len() && (#[trigger] state.shared@[i]).session.owner == other;
        assert(after.shared@[i] == state.shared@[i]);
    }
}

/// The playback epoch changes exactly when active output is taken away: when the session that is
/// stopped or closed was playing.
pub proof fn the_epoch_follows_removed_output(
    state: DaemonState,
    after: DaemonState,
    session_id: u64,
    done: bool,
)
    requires
        state.wf(),
        is_session(session_id),
        state.stops(after, session_id, done) || state.closes(after, session_id, done),
    ensures
        after.playback_epoch != state.playback_epoch <==> state.pro.active == session_id || exists|
            i: int,
        |
            0 <= i < state.shared@.len() && (#[trigger] state.shared@[i]).session.active
                == session_id && state.shared@[i].session.plays,
{
    owned_index_finds_the_owner(state.shared@, session_id);
    assert(forall|i: int|
        0 <= i < state.shared@.len() ==> (#[trigger] state.shared@[i]).session.wf());
    match owned_index(state.shared@, session_id) {
        Some(port) => {
            assert(state.shared@[port].session.owner == session_id);
            assert forall|i: int|
                0 <= i < state.shared@.len() && (#[trigger] state.shared@[i]).session.active
                    == session_id implies i == port by {
                assert(state.shared@[i].session.wf());
            }
        },
        None => {},
    }
}

/// Opening and starting take nothing away.
pub proof fn opening_and_starting_keep_the_epoch(
    state: DaemonState,
    after: DaemonState,
    port_id: Seq<char>,
    created: bool,
    clients: Seq<ClientPlaybackDiagnostics>,
    result: Result<Option<SharedOpen>, OpenSharedError>,
    opened: Option<u64>,
    session_id: u64,
    hardware_generation: u64,
    started: bool,
)
    requires
        state.opens_pro(after, created, opened) || state.opens_shared(
            after,
            port_id,
            created,
            clients,
            result,
        ) || state.starts(after, session_id, hardware_generation, started),
    ensures
        after.playback_epoch == state.playback_epoch,
{
}

/// A session id is never one of the two reserved values, and it is the next one where that is not
/// reserved.
pub proof fn reserved_ids_are_never_issued(next: u64)
    ensures
        0 < issued(next) < 0xffff_ffff_ffff_ffff,
        0 < next < 0xffff_ffff_ffff_ffff ==> issued(next) == next,
        is_session(next) <==> next != 0 && next != 0xffff_ffff_ffff_ffff,
{
}

/// Opening a free PRO gives both of its directions to one new session, which alone owns the
/// playback slot with a region of its own; where the regions could not be made nobody gets it, and
/// a PRO that is taken stays with whoever has it. No port is touched.
pub proof fn opening_pro_gives_it_to_one_session(
    state: DaemonState,
    after: DaemonState,
    created: bool,
    opened: Option<u64>,
)
    requires
        state.wf(),
        state.opens_pro(after, created, opened),
    ensures
        opened is Some <==> state.ownership is Free && created,
        opened matches Some(id) ==> {
            &&& after.ownership == ProOwnership::Classic(id)
            &&& after.pro.owner == id
            &&& after.pro.endpoint_session == id
            &&& after.pro.active == state.pro.active
            &&& after.next_session == id + 1
            &&& state.next_session != 0 && state.next_session != u64::MAX ==> id
                == state.next_session
        },
        opened is None ==> after.ownership == state.ownership && after.pro == state.pro,
        after.pro_capture == state.pro_capture,
        after.shared == state.shared,
{
}

/// A direction is given only to a peer with a process and a token, and only where nobody has it:
/// PRO is free, or belongs to a group of the very same process, user and token that lacks this
/// direction. Whoever meets this is admitted.
pub proof fn a_direction_is_given_to_its_group_alone(
    ownership: ProOwnership,
    peer_pid: u32,
    peer_uid: u32,
    token: (u64, u64),
    direction: PortDirection,
)
    ensures
        ownership.admits(peer_pid, peer_uid, token, direction) <==> {
            &&& peer_pid != 0
            &&& token.0 != 0 || token.1 != 0
            &&& match ownership {
                ProOwnership::Free => true,
                ProOwnership::Classic(_) => false,
                ProOwnership::Split { peer_pid: pid, peer_uid: uid, token: key, playback, capture } => {
                    &&& pid == peer_pid
                    &&& uid == peer_uid
                    &&& key.0 == token.0
                    &&& key.1 == token.1
                    &&& direction == PortDirection::Playback ==> playback is None
                    &&& direction == PortDirection::Capture ==> capture is None
                },
            }
        },
{
}

/// Opening a direction gives this direction, and no other, to one new session: the slot of the
/// direction gets its owner and its region, and the group remembers the peer. The other direction
/// stays with its member.
pub proof fn opening_a_direction_gives_it_to_one_session(
    state: DaemonState,
    after: DaemonState,
    peer_pid: u32,
    peer_uid: u32,
    token: (u64, u64),
    direction: PortDirection,
    created: bool,
    opened: Option<u64>,
)
    requires
        state.wf(),
        state.opens_direction(after, peer_pid, peer_uid, token, direction, created, opened),
    ensures
        opened is Some <==> created && state.ownership.admits(
            peer_pid,
            peer_uid,
            token,
            direction,
        ),
        opened matches Some(id) ==> {
            &&& after.ownership matches ProOwnership::Split {
                peer_pid: pid,
                peer_uid: uid,
                token: key,
                playback,
                capture,
            }
            &&& pid == peer_pid
            &&& uid == peer_uid
            &&& key == token
            &&& direction == PortDirection::Playback ==> {
                &&& playback == Some(id)
                &&& capture == state.ownership.member(PortDirection::Capture)
                &&& after.pro.owner == id
                &&& after.pro.endpoint_session == id
                &&& after.pro_capture == state.pro_capture
            }
            &&& direction == PortDirection::Capture ==> {
                &&& capture == Some(id)
                &&& playback == state.ownership.member(PortDirection::Playback)
                &&& after.pro_capture.owner == id
                &&& after.pro_capture.endpoint_session == id
                &&& after.pro == state.pro
            }
            &&& after.next_session == id + 1
        },
        opened is None ==> after.ownership == state.ownership && after.pro == state.pro
            && after.pro_capture == state.pro_capture,
        after.shared == state.shared,
{
}

/// Opening a port gives this port, and no other, to one new session, under the port's direction;
/// what its earlier clients counted is kept. A port that is taken, unknown or cannot be made is
/// given to nobody.
pub proof fn opening_a_port_gives_it_to_one_session(
    state: DaemonState,
    after: DaemonState,
    port_id: Seq<char>,
    created: bool,
    clients: Seq<ClientPlaybackDiagnostics>,
    result: Result<Option<SharedOpen>, OpenSharedError>,
    other: int,
)
    requires
        state.opens_shared(after, port_id, created, clients, result),
        0 <= other < state.shared@.len() <= usize::MAX,
    ensures
        result matches Ok(Some(open)) ==> {
            let port = open.port as int;
            &&& 0 <= port < state.shared@.len()
            &&& state.shared@[port].id@ == port_id
            &&& state.shared@[port].session.owner == 0
            &&& created
            &&& after.shared@[port].session.owner == open.session_id
            &&& after.shared@[port].session.endpoint_session == open.session_id
            &&& after.shared@[port].id == state.shared@[port].id
            &&& after.shared@[port].channels == state.shared@[port].channels
            &&& open.direction == state.shared@[port].direction
            &&& open.session_id != 0
            &&& after.next_session == open.session_id + 1
            &&& other != port ==> after.shared@[other] == state.shared@[other]
        },
        !(result matches Ok(Some(_))) ==> after.shared@ == state.shared@,
        (result matches Ok(None)) ==> exists|i: int|
            0 <= i < state.shared@.len() && (#[trigger] state.shared@[i]).id@ == port_id
                && state.shared@[i].session.owner != 0,
        (result matches Err(OpenSharedError::UnknownPort(_))) <==> forall|i: int|
            0 <= i < state.shared@.len() ==> (#[trigger] state.shared@[i]).id@ != port_id,
        (result matches Err(OpenSharedError::Resources)) ==> !created,
        after.pro == state.pro,
        after.pro_capture == state.pro_capture,
        after.ownership == state.ownership,
{
    port_index_finds_the_first(state.shared@, port_id);
    if port_index(state.shared@, port_id) is Some {
        let i = port_index(state.shared@, port_id)->0;
        assert(state.shared@[i].id@ == port_id);
    }
}

/// Starting makes exactly the session active that asked for it: where it owns a slot with its own
/// region and does not run yet, its slot runs in the given hardware generation; no other slot
/// changes, and nobody else becomes active.
pub proof fn starting_makes_its_own_session_active(
    state: DaemonState,
    after: DaemonState,
    session_id: u64,
    hardware_generation: u64,
    started: bool,
    i: int,
)
    requires
        state.wf(),
        state.starts(after, session_id, hardware_generation, started),
        0 <= i < state.shared@.len(),
    ensures
        ({
            let idle = |session: SessionState|
                session.owner == session_id && session.active == 0 && session.endpoint_session
                    == session_id;
            let runs = |session: SessionState|
                session.active == session_id && session.lifecycle_hardware_generation
                    == hardware_generation && session.armed == 0 && session.outage == 0;
            let issued_id = session_id != 0 && session_id != u64::MAX;
            &&& issued_id && idle(state.pro) ==> started && runs(after.pro)
            &&& issued_id && idle(state.pro_capture) ==> started && runs(after.pro_capture)
            &&& issued_id && idle(state.shared@[i].session) ==> started && runs(
                after.shared@[i].session,
            )
            &&& state.pro.owner != session_id ==> after.pro == state.pro
            &&& state.pro_capture.owner != session_id ==> after.pro_capture == state.pro_capture
            &&& state.shared@[i].session.owner != session_id ==> after.shared@[i]
                == state.shared@[i]
            &&& !started ==> after.pro == state.pro && after.pro_capture == state.pro_capture
                && after.shared@[i].session == state.shared@[i].session
            &&& after.ownership == state.ownership
            &&& after.next_session == state.next_session
            &&& after.shared@.len() == state.shared@.len()
        }),
{
    owned_index_finds_the_owner(state.shared@, session_id);
    if session_id != 0 && state.shared@[i].session.owner == session_id {
        assert(state.shared@[i].session.owner != state.pro.owner);
        assert(state.shared@[i].session.owner != state.pro_capture.owner);
        if owned_index(state.shared@, session_id) is Some {
            let k = owned_index(state.shared@, session_id)->0;
            assert(state.shared@[k].session.owner == session_id);
            if k < i {
                assert(state.shared@[k].session.owner != state.shared@[i].session.owner);
            } else if i < k {
                assert(state.shared@[i].session.owner != state.shared@[k].session.owner);
            }
        }
    }
}

/// Stopping makes exactly the session inactive that asked for it: afterwards no slot runs it, its
/// owner keeps its slot, and no slot of another session changes.
pub proof fn stopping_makes_its_own_session_inactive(
    state: DaemonState,
    after: DaemonState,
    session_id: u64,
    stopped: bool,
    i: int,
)
    requires
        state.wf(),
        state.stops(after, session_id, stopped),
        session_id != 0,
        session_id != u64::MAX,
        0 <= i < state.shared@.len(),
    ensures
        stopped <==> state.pro.active == session_id || state.pro_capture.active == session_id
            || exists|k: int|
            0 <= k < state.shared@.len() && (#[trigger] state.shared@[k]).session.active
                == session_id,
        after.pro.active != session_id,
        after.pro_capture.active != session_id,
        after.shared@[i].session.active != session_id,
        after.pro.owner == state.pro.owner,
        after.pro_capture.owner == state.pro_capture.owner,
        after.shared@[i].session.owner == state.shared@[i].session.owner,
        state.pro.active != session_id ==> after.pro == state.pro,
        state.pro_capture.active != session_id ==> after.pro_capture == state.pro_capture,
        state.shared@[i].session.active != session_id ==> after.shared@[i].session
            == state.shared@[i].session,
        after.ownership == state.ownership,
        after.shared@.len() == state.shared@.len(),
{
    owned_index_finds_the_owner(state.shared@, session_id);
    assert forall|k: int|
        0 <= k < state.shared@.len() && (#[trigger] state.shared@[k]).session.active
            == session_id implies state.shared@[k].session.owner == session_id by {
        assert(state.shared@[k].session.wf());
    }
    assert(state.shared@[i].session.wf());
    if owned_index(state.shared@, session_id) is Some {
        let k = owned_index(state.shared@, session_id)->0;
        assert(state.shared@[k].session.owner == session_id);
        assert(state.shared@[k].session.wf());
        assert(state.shared@[k].session.owner != state.pro.owner);
        assert(state.shared@[k].session.owner != state.pro_capture.owner);
        if k < i {
            assert(state.shared@[k].session.owner != state.shared@[i].session.owner);
        } else if i < k {
            assert(state.shared@[i].session.owner == 0 || state.shared@[i].session.owner
                != state.shared@[k].session.owner);
        }
        assert forall|j: int|
            0 <= j < state.shared@.len() && (#[trigger] state.shared@[j]).session.active
                == session_id implies j == k by {
            if j < k {
                assert(state.shared@[j].session.owner != state.shared@[k].session.owner);
            } else if k < j {
                assert(state.shared@[k].session.owner != state.shared@[j].session.owner);
            }
        }
    }
}

/// Closing lets exactly the session go that asked for it: afterwards it owns no slot and runs in
/// none, and a session that owned nothing is told so.
pub proof fn closing_lets_its_own_session_go(
    state: DaemonState,
    after: DaemonState,
    session_id: u64,
    closed: bool,
)
    requires
        state.wf(),
        state.closes(after, session_id, closed),
        session_id != 0,
        session_id != u64::MAX,
    ensures
        closed <==> state.owned(session_id),
        !after.owned(session_id),
        after.pro.active != session_id,
        after.pro_capture.active != session_id,
        forall|i: int|
            0 <= i < after.shared@.len() ==> (#[trigger] after.shared@[i]).session.active
                != session_id,
        state.ownership == ProOwnership::Classic(session_id) ==> after.ownership is Free,
        after.ownership.member(PortDirection::Playback) != Some(session_id),
        after.ownership.member(PortDirection::Capture) != Some(session_id),
        state.pro.owner != session_id && state.pro_capture.owner != session_id ==> after.ownership
            == state.ownership,
        after.next_session == state.next_session,
{
    owned_index_finds_the_owner(state.shared@, session_id);
    assert forall|k: int| 0 <= k < state.shared@.len() implies (
    #[trigger] state.shared@[k]).session.wf() by {}
    if owned_index(state.shared@, session_id) is Some {
        let k = owned_index(state.shared@, session_id)->0;
        assert(state.shared@[k].session.owner == session_id);
        assert forall|j: int|
            0 <= j < state.shared@.len() && (#[trigger] state.shared@[j]).session.owner
                == session_id implies j == k by {
            if j < k {
                assert(state.shared@[j].session.owner != state.shared@[k].session.owner);
            } else if k < j {
                assert(state.shared@[k].session.owner != state.shared@[j].session.owner);
            }
        }
        assert(state.shared@[k].session.owner != state.pro.owner);
        assert(state.shared@[k].session.owner != state.pro_capture.owner);
        assert forall|j: int| 0 <= j < after.shared@.len() implies (
        #[trigger] after.shared@[j]).session.owner != session_id
            && after.shared@[j].session.active != session_id by {
            assert(state.shared@[j].session.wf());
        }
    } else if state.pro.owner == session_id || state.pro_capture.owner == session_id {
        assert forall|j: int| 0 <= j < after.shared@.len() implies (
        #[trigger] after.shared@[j]).session.owner != session_id
            && after.shared@[j].session.active != session_id by {
            assert(state.shared@[j].session.wf());
        }
    } else {
        assert forall|j: int| 0 <= j < after.shared@.len() implies (
        #[trigger] after.shared@[j]).session.owner != session_id
            && after.shared@[j].session.active != session_id by {
            assert(state.shared@[j].session.wf());
        }
    }
}

/// An aligned start concerns members of a group alone: the member's own slot runs and waits to be
/// activated with the other one, and nothing else changes.
pub proof fn an_aligned_start_waits_for_the_pair(
    state: DaemonState,
    after: DaemonState,
    session_id: u64,
    hardware_generation: u64,
    started: bool,
)
    requires
        state.wf(),
        state.starts_aligned(after, session_id, hardware_generation, started),
    ensures
        started ==> state.ownership is Split,
        started && state.pro.owner == session_id ==> after.pair_playback && after.pro.active
            == session_id && after.pro.lifecycle_hardware_generation == hardware_generation
            && after.pro_capture == state.pro_capture && after.pair_capture == state.pair_capture,
        started && state.pro_capture.owner == session_id ==> after.pair_capture
            && after.pro_capture.active == session_id
            && after.pro_capture.lifecycle_hardware_generation == hardware_generation && after.pro
            == state.pro && after.pair_playback == state.pair_playback,
        !started ==> after.pro == state.pro && after.pro_capture == state.pro_capture,
        after.shared == state.shared,
        after.ownership == state.ownership,
        state.ownership is Split && session_id != 0 && state.pro.owner == session_id
            && state.pro.active == 0 && state.pro.endpoint_session == session_id ==> started,
        state.ownership is Split && session_id != 0 && state.pro_capture.owner == session_id
            && state.pro_capture.active == 0 && state.pro_capture.endpoint_session == session_id
            ==> started,
{
}

/// A capture port has twice as many slots as the shared buffer has periods, but never fewer than
/// four or more than sixteen.
pub proof fn capture_slots_are_within_bounds(periods: int)
    ensures
        4 <= capture_slots(periods) <= 16,
        2 <= periods <= 8 ==> capture_slots(periods) == periods + periods,
        periods <= 2 ==> capture_slots(periods) == 4,
        periods >= 8 ==> capture_slots(periods) == 16,
{
}

/// Whose counters a report shows: the playback client's where no capture member counts, the capture
/// client's where it is alone, and both together otherwise.
pub proof fn a_report_shows_the_clients_that_count(
    state: DaemonState,
    output: ProClientDiagnostics,
    input: ProClientDiagnostics,
)
    requires
        output.realtime_failures + input.realtime_failures <= u64::MAX,
    ensures
        ({
            let shown = state.reported_client(output, input);
            &&& state.ownership !is Split ==> shown == output
            &&& state.ownership matches ProOwnership::Split { playback, capture, .. } ==> {
                let counts = capture == Some(state.pro_capture.endpoint_session);
                &&& !counts ==> shown == output
                &&& counts && playback is None ==> shown == input
                &&& counts && playback is Some ==> shown.realtime_failures
                    == output.realtime_failures + input.realtime_failures
                    && shown.playback_submit_failures == output.playback_submit_failures
            }
        }),
{
}

/// Every playback port is reported, under its own id, with its own misses and with what its clients
/// counted; capture ports are not.
pub proof fn every_playback_port_is_reported(
    ports: Seq<SharedPortState>,
    clients: Seq<ClientPlaybackDiagnostics>,
    i: int,
)
    requires
        clients.len() == ports.len(),
        0 <= i < ports.len(),
        ports[i].direction == PortDirection::Playback,
    ensures
        exists|k: int|
            0 <= k < port_reports(ports, clients).len() && (#[trigger] port_reports(
                ports,
                clients,
            )[k]).port_id == ports[i].id@ && reports_port(
                port_reports(ports, clients)[k],
                ports[i],
                clients[i],
            ),
        port_reports(ports, clients).len() <= ports.len(),
    decreases ports.len(),
{
    let last = ports.len() - 1;
    let rest = port_reports(ports.drop_last(), clients.drop_last());
    lemma_reports_are_bounded(ports, clients);
    if i < last {
        assert(ports.drop_last()[i] == ports[i]);
        assert(clients.drop_last()[i] == clients[i]);
        every_playback_port_is_reported(ports.drop_last(), clients.drop_last(), i);
        let k = choose|k: int|
            0 <= k < rest.len() && (#[trigger] rest[k]).port_id == ports[i].id@ && reports_port(
                rest[k],
                ports[i],
                clients[i],
            );
        assert(port_reports(ports, clients)[k] == rest[k]);
    } else {
        assert(ports.last() == ports[i]);
        assert(clients.last() == clients[i]);
        assert(port_reports(ports, clients)[rest.len() as int] == port_model(ports[i], clients[i]));
    }
}

/// A report has the counters of a port, in their order, with those of its client added.
pub open spec fn reports_port(
    report: SharedPlaybackPortStatsModel,
    port: SharedPortState,
    client: ClientPlaybackDiagnostics,
) -> bool {
    &&& report.words.len() == 8
    &&& report.words[0] == port.diagnostics.underruns
    &&& report.words[1] == port.diagnostics.last_underrun_sequence
    &&& report.words[2] == port.diagnostics.last_underrun_nanos
    &&& report.words[3] == port.diagnostics.last_sequence_lag_periods
    &&& report.words[4] == port.diagnostics.max_sequence_lag_periods
    &&& report.words[5] == port.diagnostics.expired_playback_periods.wrapping_add(
        client.expired_playback_periods,
    )
    &&& report.words[6] == port.diagnostics.playback_submit_failures.wrapping_add(
        client.playback_submit_failures,
    )
    &&& report.words[7] == port.diagnostics.playback_xruns.wrapping_add(client.playback_xruns)
}

proof fn lemma_reports_are_bounded(
    ports: Seq<SharedPortState>,
    clients: Seq<ClientPlaybackDiagnostics>,
)
    ensures
        port_reports(ports, clients).len() <= ports.len(),
    decreases ports.len(),
{
    if ports.len() > 0 {
        lemma_reports_are_bounded(ports.drop_last(), clients.drop_last());
    }
}

/// The ids that nobody is given are zero and the largest one.
pub proof fn zero_and_the_largest_id_are_reserved(session_id: u64)
    ensures
        is_session(session_id) <==> session_id != 0 && session_id != 0xffff_ffff_ffff_ffff,
        session_id != 0 && session_id != 0xffff_ffff_ffff_ffff ==> issued(session_id) == session_id,
        session_id == 0 || session_id == 0xffff_ffff_ffff_ffff ==> issued(session_id) == 1,
{
}

} // verus!
