//! One shared port in the audio cycle.
//!
//! A playback port takes one block per period out of its client's region. What it took is
//! prepared first and mixed later, when the period is committed, and only if the session is still
//! the one it was taken from. A missed block may be filled by the last one of the same session.
use vstd::prelude::*;
use crate::daemon::session::{PlaybackDiagnostics, SessionState};
use crate::daemon::state::SharedPortState;
use crate::protocol::messages::PortDirection;
use crate::protocol::shared::{SHARED_CLIENT_IDLE, SHARED_CLIENT_RUNNING, SHARED_CLIENT_STARTING};
use crate::routing::{first_outside, mixed_block, read_block, CompiledPort};
use crate::sequence::{playback_sequence_lag, published_lag};
use crate::timeline::HardwareTimeline;

verus! {

/// Which run of which session a block comes from.
#[derive(Clone, Copy, Debug, PartialEq, Eq, Structural)]
pub struct PlaybackIdentity {
    pub session_id: u64,
    pub lifecycle_generation: u64,
    pub hardware_generation: u64,
}

impl PlaybackIdentity {
    /// The identity still holds.
    pub open spec fn current(self, session: SessionState, hardware_generation: u64) -> bool {
        &&& session.active == self.session_id
        &&& session.lifecycle_generation == self.lifecycle_generation
        &&& hardware_generation == self.hardware_generation
    }

    pub fn is_current(&self, session: &SessionState, hardware_generation: u64) -> (current: bool)
        ensures
            current == self.current(*session, hardware_generation),
    {
        session.active == self.session_id && session.lifecycle_generation
            == self.lifecycle_generation && hardware_generation == self.hardware_generation
    }
}

/// A block that waits to be mixed.
#[derive(Clone, Copy, Debug, PartialEq, Eq, Structural)]
pub struct PreparedPlayback {
    pub sequence: u64,
    pub identity: PlaybackIdentity,
    /// Whether the block was taken for this period, and not repeated.
    pub fresh: bool,
}

/// What to do with the region of a playback port.
#[derive(Clone, Copy, Debug, PartialEq, Eq, Structural)]
pub enum PlaybackStep {
    /// Nothing more in this period.
    Idle,
    /// Wake the client; nothing more in this period.
    Notify,
    /// Establish the activation at this period.
    Activate(PlaybackIdentity),
    /// Take the block of the given sequence.
    Consume(u64),
}

/// What to do with the region of a capture port.
#[derive(Clone, Copy, Debug, PartialEq, Eq, Structural)]
pub enum CaptureStep {
    Idle,
    /// Establish the activation at this period.
    Activate,
    /// Mark the client as running; nothing more in this period.
    Run,
    /// Publish the captured block, if there is room, and wake the client.
    Publish,
}

/// What the ports of a device have in common.
#[derive(Clone, Copy, Debug, PartialEq, Eq, Structural)]
pub struct DeviceShape {
    pub period_frames: usize,
    pub playback_channels: usize,
    pub capture_channels: usize,
    pub latency_periods: u32,
    pub repeat_on_underrun: bool,
}

impl DeviceShape {
    pub open spec fn channels(self, direction: PortDirection) -> usize {
        match direction {
            PortDirection::Playback => self.playback_channels,
            PortDirection::Capture => self.capture_channels,
        }
    }

    /// The port uses channels that the device has, and a period of it can be counted.
    pub open spec fn holds(self, port: SharedPortState) -> bool {
        let physical = self.channels(port.direction);
        &&& physical > 0
        &&& first_outside(port.channels@, physical) is None
        &&& self.period_frames * physical <= usize::MAX
        &&& port.logical_samples == self.period_frames * port.channels@.len()
    }
}

/// The cycle's view of a shared port.
#[derive(Debug)]
pub struct SharedPortBridge {
    /// Which port, in the daemon's order.
    pub index: usize,
    pub port: CompiledPort,
    pub period_frames: usize,
    pub physical_channels: usize,
    pub capture_capacity_slots: usize,
    pub latency_periods: u64,
    pub repeat_on_underrun: bool,
    /// The block that was taken last, or captured.
    pub scratch: Vec<i32>,
    /// Where the block in `scratch` comes from, if it may be repeated.
    pub last_valid_playback: Option<PlaybackIdentity>,
    pub observed_hardware_generation: Option<u64>,
    pub prepared: Option<PreparedPlayback>,
}

/// The slot with neither arming nor outage of `session_id`.
pub open spec fn without_marks(session: SessionState, session_id: u64) -> SessionState {
    SessionState {
        armed: if session.armed == session_id {
            0
        } else {
            session.armed
        },
        outage: if session.outage == session_id {
            0
        } else {
            session.outage
        },
        ..session
    }
}

/// The slot after a block was missed: an armed session goes into an outage.
pub open spec fn after_miss(session: SessionState, session_id: u64) -> SessionState {
    if session.armed == session_id {
        SessionState { armed: 0, outage: session_id, ..session }
    } else {
        session
    }
}

/// The slot after a fresh block was mixed: the outage is over and the session is armed.
pub open spec fn after_fresh(session: SessionState, session_id: u64) -> SessionState {
    SessionState {
        outage: if session.outage == session_id {
            0
        } else {
            session.outage
        },
        armed: if session.armed == 0 {
            session_id
        } else {
            session.armed
        },
        ..session
    }
}

impl SharedPortBridge {
    /// The channels are those of the device, the block has one sample for each, and what is
    /// prepared comes from a session.
    pub open spec fn wf(&self) -> bool {
        &&& self.physical_channels > 0
        &&& first_outside(self.port.model().channels, self.physical_channels) is None
        &&& self.period_frames * self.physical_channels <= usize::MAX
        &&& self.period_frames * self.port.model().channels.len() == self.scratch@.len()
        &&& self.prepared is Some ==> self.prepared->0.identity.session_id != 0
    }

    /// The first half of taking a block: what was prepared and not mixed is given up, and the
    /// session is looked at.
    pub open spec fn begun(
        self,
        session: SessionState,
        hardware_generation: u64,
    ) -> (SharedPortBridge, SessionState, PlaybackStep) {
        let forgets = (self.prepared is Some && self.prepared->0.fresh) || (
        self.observed_hardware_generation is Some && self.observed_hardware_generation
            != Some(hardware_generation));
        let ready = SharedPortBridge {
            prepared: None,
            observed_hardware_generation: Some(hardware_generation),
            last_valid_playback: if forgets {
                None
            } else {
                self.last_valid_playback
            },
            ..self
        };
        let forgotten = SharedPortBridge { last_valid_playback: None, ..ready };
        let id = session.active;
        if id == 0 || session.endpoint_session != id {
            (forgotten, session, PlaybackStep::Idle)
        } else if session.lifecycle_hardware_generation != hardware_generation {
            (forgotten, without_marks(session, id), PlaybackStep::Notify)
        } else {
            (
                ready,
                session,
                PlaybackStep::Activate(
                    PlaybackIdentity {
                        session_id: id,
                        lifecycle_generation: session.lifecycle_generation,
                        hardware_generation,
                    },
                ),
            )
        }
    }

    /// What follows once the activation was tried.
    pub open spec fn activated(
        self,
        sequence: u64,
        activated: bool,
        client_state: u32,
    ) -> (SharedPortBridge, PlaybackStep) {
        let forgotten = SharedPortBridge { last_valid_playback: None, ..self };
        if activated || client_state == SHARED_CLIENT_STARTING {
            (forgotten, PlaybackStep::Notify)
        } else if client_state != SHARED_CLIENT_RUNNING {
            (forgotten, PlaybackStep::Idle)
        } else {
            (self, PlaybackStep::Consume(sequence.wrapping_sub(self.latency_periods)))
        }
    }

    /// What is prepared for a period, and whether the last block may be repeated later.
    pub open spec fn preparation(
        self,
        session: SessionState,
        identity: PlaybackIdentity,
        sequence: u64,
        hardware_generation: u64,
        consumed: bool,
    ) -> (Option<PreparedPlayback>, Option<PlaybackIdentity>) {
        let missed = session.armed == identity.session_id || session.outage
            == identity.session_id;
        if !identity.current(session, hardware_generation) {
            (self.prepared, None)
        } else if consumed {
            (
                Some(PreparedPlayback { sequence, identity, fresh: true }),
                self.last_valid_playback,
            )
        } else if !missed {
            (self.prepared, self.last_valid_playback)
        } else if self.last_valid_playback != Some(identity) {
            (self.prepared, None)
        } else if self.repeat_on_underrun {
            (
                Some(PreparedPlayback { sequence, identity, fresh: false }),
                self.last_valid_playback,
            )
        } else {
            (self.prepared, self.last_valid_playback)
        }
    }

    /// Whether a period without a block counts as missed.
    pub open spec fn counts_as_missed(
        session: SessionState,
        identity: PlaybackIdentity,
        hardware_generation: u64,
        consumed: bool,
    ) -> bool {
        &&& !consumed
        &&& identity.current(session, hardware_generation)
        &&& session.armed == identity.session_id || session.outage == identity.session_id
    }

    /// Whether what is prepared may be mixed into a period.
    pub open spec fn mixes(
        self,
        session: SessionState,
        sequence: u64,
        hardware_generation: u64,
        client_state: u32,
    ) -> bool {
        &&& self.prepared is Some
        &&& self.prepared->0.sequence == sequence
        &&& session.endpoint_session == self.prepared->0.identity.session_id
        &&& self.prepared->0.identity.current(session, hardware_generation)
        &&& client_state == SHARED_CLIENT_RUNNING
    }

    /// `later` is the bridge once the taking of a block has ended.
    pub open spec fn finished(
        self,
        later: SharedPortBridge,
        session: SessionState,
        identity: PlaybackIdentity,
        sequence: u64,
        hardware_generation: u64,
        block: Option<Seq<i32>>,
    ) -> bool {
        let (prepared, last_valid_playback) = self.preparation(
            session,
            identity,
            sequence,
            hardware_generation,
            block is Some,
        );
        &&& later == SharedPortBridge {
            prepared,
            last_valid_playback,
            scratch: later.scratch,
            ..self
        }
        &&& later.scratch@ == match block {
            Some(samples) => samples,
            None => self.scratch@,
        }
    }

    /// The bridge and the slot once a period was committed: what was prepared is used up, and a
    /// fresh block that was mixed may be repeated later.
    pub open spec fn committed(
        self,
        session: SessionState,
        sequence: u64,
        hardware_generation: u64,
        client_state: u32,
    ) -> (SharedPortBridge, SessionState) {
        let fresh = self.prepared->0.fresh;
        let identity = self.prepared->0.identity;
        if self.mixes(session, sequence, hardware_generation, client_state) {
            (
                SharedPortBridge {
                    prepared: None,
                    last_valid_playback: if fresh {
                        Some(identity)
                    } else {
                        self.last_valid_playback
                    },
                    ..self
                },
                if fresh {
                    after_fresh(session, identity.session_id)
                } else {
                    session
                },
            )
        } else {
            (
                SharedPortBridge {
                    prepared: None,
                    last_valid_playback: if self.prepared is Some {
                        None
                    } else {
                        self.last_valid_playback
                    },
                    ..self
                },
                session,
            )
        }
    }

    /// The device frames once a period was committed.
    pub open spec fn mixed(
        self,
        session: SessionState,
        sequence: u64,
        hardware_generation: u64,
        client_state: u32,
        physical: Seq<i32>,
    ) -> Seq<i32> {
        if self.mixes(session, sequence, hardware_generation, client_state) {
            mixed_block(
                self.port.model().channels,
                self.scratch@,
                self.physical_channels as int,
                self.period_frames as int,
                physical,
            )
        } else {
            physical
        }
    }

    /// The bridge is a new one of the given port.
    pub open spec fn fresh_for(
        &self,
        port: SharedPortState,
        index: int,
        device: DeviceShape,
        capture_capacity_slots: usize,
    ) -> bool {
        &&& self.wf()
        &&& self.index == index
        &&& self.port.model().id == port.id@
        &&& self.port.model().channels == port.channels@
        &&& self.period_frames == device.period_frames
        &&& self.physical_channels == device.channels(port.direction)
        &&& self.capture_capacity_slots == capture_capacity_slots
        &&& self.latency_periods == device.latency_periods
        &&& self.repeat_on_underrun == device.repeat_on_underrun
        &&& self.last_valid_playback is None
        &&& self.observed_hardware_generation is None
        &&& self.prepared is None
    }

    /// The cycle's view of a port whose channels the device has.
    pub fn new(
        port: &SharedPortState,
        index: usize,
        device: DeviceShape,
        capture_capacity_slots: usize,
    ) -> (bridge: Self)
        requires
            device.holds(*port),
        ensures
            bridge.fresh_for(*port, index as int, device, capture_capacity_slots),
    {
        let mut channels: Vec<usize> = Vec::new();
        let mut i: usize = 0;
        while i < port.channels.len()
            invariant
                i <= port.channels@.len(),
                channels@ == port.channels@.take(i as int),
            decreases port.channels.len() - i,
        {
            channels.push(port.channels[i]);
            assert(channels@ =~= port.channels@.take(i + 1));
            i = i + 1;
        }
        assert(port.channels@.take(i as int) =~= port.channels@);
        SharedPortBridge {
            index,
            port: CompiledPort::new(port.id.clone(), port.id.clone(), channels),
            period_frames: device.period_frames,
            physical_channels: match port.direction {
                PortDirection::Playback => device.playback_channels,
                PortDirection::Capture => device.capture_channels,
            },
            capture_capacity_slots,
            latency_periods: device.latency_periods as u64,
            repeat_on_underrun: device.repeat_on_underrun,
            scratch: vec![0; port.logical_samples],
            last_valid_playback: None,
            observed_hardware_generation: None,
            prepared: None,
        }
    }

    /// Begins to take the block of a period.
    pub fn begin_playback(
        &mut self,
        session: &mut SessionState,
        hardware_generation: u64,
    ) -> (step: PlaybackStep)
        requires
            old(self).wf(),
            old(session).wf(),
        ensures
            final(self).wf(),
            final(session).wf(),
            (*final(self), *final(session), step) == old(self).begun(
                *old(session),
                hardware_generation,
            ),
    {
        if let Some(prepared) = self.prepared {
            if prepared.fresh {
                self.last_valid_playback = None;
            }
        }
        self.prepared = None;
        if let Some(previous) = self.observed_hardware_generation {
            if previous != hardware_generation {
                self.last_valid_playback = None;
            }
        }
        self.observed_hardware_generation = Some(hardware_generation);
        let session_id: u64 = session.active;
        if session_id == 0 || session.endpoint_session != session_id {
            self.last_valid_playback = None;
            return PlaybackStep::Idle;
        }
        if session.lifecycle_hardware_generation != hardware_generation {
            self.last_valid_playback = None;
            if session.armed == session_id {
                session.armed = 0;
            }
            if session.outage == session_id {
                session.outage = 0;
            }
            return PlaybackStep::Notify;
        }
        PlaybackStep::Activate(
            PlaybackIdentity {
                session_id,
                lifecycle_generation: session.lifecycle_generation,
                hardware_generation,
            },
        )
    }

    /// Goes on after the activation was tried; `activated` tells whether this period is the one
    /// that was activated.
    pub fn continue_playback(
        &mut self,
        sequence: u64,
        activated: bool,
        client_state: u32,
    ) -> (step: PlaybackStep)
        requires
            old(self).wf(),
        ensures
            final(self).wf(),
            (*final(self), step) == old(self).activated(sequence, activated, client_state),
    {
        if activated || client_state == SHARED_CLIENT_STARTING {
            self.last_valid_playback = None;
            return PlaybackStep::Notify;
        }
        if client_state != SHARED_CLIENT_RUNNING {
            self.last_valid_playback = None;
            return PlaybackStep::Idle;
        }
        PlaybackStep::Consume(sequence.wrapping_sub(self.latency_periods))
    }

    /// Ends the taking of a block. `block` is what the region held for the period, if anything,
    /// and `last_published` the last sequence that its client published. The client is woken
    /// afterwards.
    pub fn finish_playback(
        &mut self,
        session: &mut SessionState,
        diagnostics: &mut PlaybackDiagnostics,
        timeline: &mut HardwareTimeline,
        identity: PlaybackIdentity,
        sequence: u64,
        block: Option<&[i32]>,
        last_published: u64,
        nanos: u64,
    )
        requires
            old(self).wf(),
            old(session).wf(),
            identity.session_id != 0,
            block is Some ==> block->0@.len() == old(self).scratch@.len(),
        ensures
            final(self).wf(),
            final(session).wf(),
            old(self).finished(
                *final(self),
                *old(session),
                identity,
                sequence,
                old(timeline).generation,
                match block {
                    Some(samples) => Some(samples@),
                    None => None,
                },
            ),
            if SharedPortBridge::counts_as_missed(
                *old(session),
                identity,
                old(timeline).generation,
                block is Some,
            ) {
                let expected = sequence.wrapping_sub(old(self).latency_periods);
                let armed = old(session).armed == identity.session_id;
                &&& *final(session) == after_miss(*old(session), identity.session_id)
                &&& *final(diagnostics) == old(diagnostics).with_miss(
                    expected,
                    published_lag(expected, last_published) as u64,
                    armed,
                    nanos,
                )
                &&& *final(timeline) == if armed {
                    old(timeline).with_shared_underrun()
                } else {
                    *old(timeline)
                }
            } else {
                &&& *final(session) == *old(session)
                &&& *final(diagnostics) == *old(diagnostics)
                &&& *final(timeline) == *old(timeline)
            },
    {
        let current: bool = identity.is_current(session, timeline.generation());
        let remembered: bool = match self.last_valid_playback {
            Some(last) => last == identity,
            None => false,
        };
        match block {
            Some(samples) => {
                copy_block(samples, &mut self.scratch);
                if current {
                    self.prepared = Some(PreparedPlayback { sequence, identity, fresh: true });
                } else {
                    self.last_valid_playback = None;
                }
            },
            None => {
                if !current {
                    self.last_valid_playback = None;
                    return;
                }
                let armed: bool = session.armed == identity.session_id;
                let outage: bool = session.outage == identity.session_id;
                if !armed && !outage {
                    return;
                }
                let expected: u64 = sequence.wrapping_sub(self.latency_periods);
                diagnostics.record_playback_miss(
                    expected,
                    playback_sequence_lag(expected, last_published),
                    armed,
                    nanos,
                );
                if armed {
                    timeline.record_shared_underrun();
                    session.armed = 0;
                    session.outage = identity.session_id;
                }
                if self.repeat_on_underrun && remembered {
                    self.prepared = Some(PreparedPlayback { sequence, identity, fresh: false });
                } else if !remembered {
                    self.last_valid_playback = None;
                }
            },
        }
    }

    /// Mixes what was prepared for the period into the device frames.
    pub fn commit_prepared(
        &mut self,
        session: &mut SessionState,
        sequence: u64,
        hardware_generation: u64,
        client_state: u32,
        physical: &mut [i32],
    )
        requires
            old(self).wf(),
            old(session).wf(),
            old(physical)@.len() >= old(self).period_frames * old(self).physical_channels,
        ensures
            final(self).wf(),
            final(session).wf(),
            (*final(self), *final(session)) == old(self).committed(
                *old(session),
                sequence,
                hardware_generation,
                client_state,
            ),
            final(physical)@ == old(self).mixed(
                *old(session),
                sequence,
                hardware_generation,
                client_state,
                old(physical)@,
            ),
    {
        let prepared = match self.prepared {
            Some(prepared) => prepared,
            None => {
                return;
            },
        };
        self.prepared = None;
        if prepared.sequence != sequence || session.endpoint_session
            != prepared.identity.session_id || !prepared.identity.is_current(
            session,
            hardware_generation,
        ) || client_state != SHARED_CLIENT_RUNNING {
            self.last_valid_playback = None;
            return;
        }
        if prepared.fresh {
            if session.outage == prepared.identity.session_id {
                session.outage = 0;
            }
            if session.armed == 0 {
                session.armed = prepared.identity.session_id;
            }
            self.last_valid_playback = Some(prepared.identity);
        }
        let samples: usize = self.scratch.len();
        assert(samples == self.scratch@.len());
        let mixed = self.port.add_to_physical_saturating(
            self.scratch.as_slice(),
            self.physical_channels,
            self.period_frames,
            physical,
        );
        assert(mixed is Ok);
    }

    /// Begins to hand a captured period to the client.
    pub fn begin_capture(&self, session: &SessionState, client_state: u32) -> (step: CaptureStep)
        ensures
            step == if session.active == 0 || session.endpoint_session != session.active
                || client_state == SHARED_CLIENT_IDLE {
                CaptureStep::Idle
            } else {
                CaptureStep::Activate
            },
    {
        if session.active == 0 || session.endpoint_session != session.active || client_state
            == SHARED_CLIENT_IDLE {
            CaptureStep::Idle
        } else {
            CaptureStep::Activate
        }
    }

    /// Goes on after the activation was tried: the period in which a session is activated is not
    /// handed out.
    pub fn continue_capture(&mut self, activated: bool, physical: &[i32]) -> (step: CaptureStep)
        requires
            old(self).wf(),
            physical@.len() >= old(self).period_frames * old(self).physical_channels,
        ensures
            final(self).wf(),
            *final(self) == (SharedPortBridge { scratch: final(self).scratch, ..*old(self) }),
            step == if activated {
                CaptureStep::Run
            } else {
                CaptureStep::Publish
            },
            final(self).scratch@ == if activated {
                old(self).scratch@
            } else {
                read_block(
                    old(self).port.model().channels,
                    physical@,
                    old(self).physical_channels as int,
                    old(self).period_frames as int,
                    old(self).scratch@,
                )
            },
    {
        if activated {
            return CaptureStep::Run;
        }
        let samples: usize = self.scratch.len();
        assert(samples == self.scratch@.len());
        let copied = self.port.copy_from_physical(
            physical,
            self.physical_channels,
            self.period_frames,
            self.scratch.as_mut_slice(),
        );
        assert(copied is Ok);
        CaptureStep::Publish
    }

    /// Whether another block may be published while `ready_slots` wait for the client.
    pub fn has_capture_room(&self, ready_slots: usize) -> (room: bool)
        ensures
            room == (ready_slots < self.capture_capacity_slots),
    {
        ready_slots < self.capture_capacity_slots
    }

    /// Ends the handing out of a captured period; a block that was not published is an overrun.
    /// Tells whether the client must be told of the gap.
    pub fn finish_capture(&self, timeline: &mut HardwareTimeline, published: bool) -> (gap: bool)
        ensures
            gap == !published,
            *final(timeline) == if published {
                *old(timeline)
            } else {
                old(timeline).with_shared_overrun()
            },
    {
        if !published {
            timeline.record_shared_overrun();
        }
        !published
    }
}

/// Copies one block over another of the same length.
pub fn copy_block(source: &[i32], target: &mut Vec<i32>)
    requires
        source@.len() == old(target)@.len(),
    ensures
        final(target)@ == source@,
{
    let room: usize = target.len();
    let mut i: usize = 0;
    while i < source.len()
        invariant
            i <= source@.len() == target@.len() == room,
            forall|k: int| 0 <= k < i ==> #[trigger] target@[k] == source@[k],
        decreases source.len() - i,
    {
        target[i] = source[i];
        i = i + 1;
    }
    assert(target@ =~= source@);
}

/// An outage is counted once: after its first missed block the session is no longer armed, and a
/// fresh block arms it again.
pub proof fn an_outage_is_counted_once(session: SessionState)
    requires
        session.wf(),
        session.active != 0,
        session.armed == session.active,
    ensures
        after_miss(session, session.active).armed == 0,
        after_miss(session, session.active).outage == session.active,
        after_miss(after_miss(session, session.active), session.active) == after_miss(
            session,
            session.active,
        ),
        after_fresh(after_miss(session, session.active), session.active).armed == session.active,
        after_fresh(after_miss(session, session.active), session.active).outage == 0,
{
}

/// Only a block of the same run of the same session is ever repeated.
pub proof fn a_repeated_block_belongs_to_the_same_run(
    bridge: SharedPortBridge,
    session: SessionState,
    identity: PlaybackIdentity,
    sequence: u64,
    hardware_generation: u64,
    consumed: bool,
)
    requires
        bridge.prepared is None,
    ensures
        ({
            let prepared = bridge.preparation(
                session,
                identity,
                sequence,
                hardware_generation,
                consumed,
            ).0;
            prepared is Some && !prepared->0.fresh ==> bridge.repeat_on_underrun
                && bridge.last_valid_playback == Some(identity) && prepared->0.identity == identity
                && identity.current(session, hardware_generation) && !consumed
        }),
{
}

/// A block that was prepared is not mixed once its session was stopped, closed or started anew, or
/// the hardware was restarted.
pub proof fn a_block_of_an_ended_run_is_not_mixed(
    bridge: SharedPortBridge,
    session: SessionState,
    sequence: u64,
    session_id: u64,
    hardware_generation: u64,
    other_generation: u64,
    client_state: u32,
)
    requires
        bridge.prepared is Some,
        bridge.prepared->0.identity.session_id != 0,
        bridge.prepared->0.identity.current(session, hardware_generation),
        other_generation != hardware_generation,
    ensures
        !bridge.mixes(session.stopped(), sequence, hardware_generation, client_state),
        !bridge.mixes(session.closed(), sequence, hardware_generation, client_state),
        !bridge.mixes(
            session.stopped().started(session_id, hardware_generation),
            sequence,
            hardware_generation,
            client_state,
        ),
        !bridge.mixes(session, sequence, other_generation, client_state),
{
}

/// A committed period adds the port's block to the device frames: where what was prepared is for
/// this period, comes from the session and the run that are still active and the client is running,
/// every device sample of the port becomes the sum of what it was and of the port's sample, limited
/// to the range of a sample; otherwise no device sample changes.
pub proof fn a_committed_block_is_added_to_the_device(
    bridge: SharedPortBridge,
    session: SessionState,
    sequence: u64,
    hardware_generation: u64,
    client_state: u32,
    physical: Seq<i32>,
    frame: int,
    c: int,
)
    requires
        bridge.wf(),
        bridge.port.model().channels.no_duplicates(),
        bridge.period_frames * bridge.physical_channels <= physical.len() <= usize::MAX,
        0 <= frame < bridge.period_frames,
        0 <= c < bridge.port.model().channels.len(),
    ensures
        ({
            let channels = bridge.port.model().channels;
            let out = bridge.mixed(
                session,
                sequence,
                hardware_generation,
                client_state,
                physical,
            );
            let at = frame * bridge.physical_channels + channels[c];
            let sum = physical[at] + bridge.scratch@[frame * channels.len() + c];
            let due = bridge.prepared is Some && bridge.prepared->0.sequence == sequence
                && bridge.prepared->0.identity.session_id == session.active
                && session.endpoint_session == session.active
                && bridge.prepared->0.identity.lifecycle_generation == session.lifecycle_generation
                && bridge.prepared->0.identity.hardware_generation == hardware_generation
                && client_state == 2;
            &&& !due ==> out == physical
            &&& due && -0x8000_0000 <= sum <= 0x7fff_ffff ==> out[at] == sum
            &&& due && sum > 0x7fff_ffff ==> out[at] == 0x7fff_ffff
            &&& due && sum < -0x8000_0000 ==> out[at] == -0x8000_0000
            &&& out.len() == physical.len()
        }),
{
    let channels = bridge.port.model().channels;
    assert(bridge.scratch.len() == bridge.scratch@.len());
    crate::routing::a_block_is_refused_for_what_is_missing(
        channels,
        physical.len() as usize,
        bridge.physical_channels,
        bridge.period_frames,
        bridge.scratch@.len() as usize,
    );
    crate::routing::mixing_adds_the_port_to_the_device(
        channels,
        bridge.scratch@,
        bridge.physical_channels,
        bridge.period_frames,
        physical,
        frame,
        c,
    );
}

/// A port takes a block only from a session that is active, has its own region and was started in
/// the current hardware generation: one of an earlier generation is only woken, and loses its
/// arming and its outage.
pub proof fn a_block_is_taken_from_a_current_session(
    bridge: SharedPortBridge,
    session: SessionState,
    hardware_generation: u64,
)
    ensures
        ({
            let (after, slot, step) = bridge.begun(session, hardware_generation);
            &&& step matches PlaybackStep::Activate(identity) ==> {
                &&& session.active != 0
                &&& session.endpoint_session == session.active
                &&& session.lifecycle_hardware_generation == hardware_generation
                &&& identity.session_id == session.active
                &&& identity.lifecycle_generation == session.lifecycle_generation
                &&& identity.hardware_generation == hardware_generation
                &&& slot == session
            }
            &&& step == PlaybackStep::Idle <==> session.active == 0 || session.endpoint_session
                != session.active
            &&& step == PlaybackStep::Notify ==> {
                &&& session.lifecycle_hardware_generation != hardware_generation
                &&& slot.armed != session.active
                &&& slot.outage != session.active
                &&& slot.active == session.active
                &&& slot.owner == session.owner
            }
            &&& !(step is Consume)
            &&& after.prepared is None
            &&& after.observed_hardware_generation == Some(hardware_generation)
            &&& !(step is Activate) ==> after.last_valid_playback is None
            &&& step is Activate && after.last_valid_playback is Some ==> {
                &&& after.last_valid_playback == bridge.last_valid_playback
                &&& bridge.observed_hardware_generation is None
                    || bridge.observed_hardware_generation == Some(hardware_generation)
                &&& bridge.prepared is None || !bridge.prepared->0.fresh
            }
            &&& after.scratch == bridge.scratch
        }),
{
}

/// Once its session runs, a port takes the block that its latency asks for: that many periods
/// before the period being played. In the period of its activation, and while the client is still
/// starting, it is only woken.
pub proof fn the_latency_decides_which_block_is_taken(
    bridge: SharedPortBridge,
    sequence: u64,
    activated: bool,
    client_state: u32,
)
    ensures
        ({
            let (after, step) = bridge.activated(sequence, activated, client_state);
            &&& step matches PlaybackStep::Consume(wanted) ==> {
                &&& !activated
                &&& client_state == 2
                &&& wanted.wrapping_add(bridge.latency_periods) == sequence
                &&& bridge.latency_periods <= sequence ==> wanted + bridge.latency_periods
                    == sequence
                &&& after == bridge
            }
            &&& !activated && client_state == 2 ==> step is Consume
            &&& activated || client_state == 1 ==> step == PlaybackStep::Notify
            &&& !activated && client_state != 1 && client_state != 2 ==> step == PlaybackStep::Idle
            &&& !(step is Consume) ==> after.last_valid_playback is None
        }),
{
}

/// What is prepared for a period: the block that was taken, where the run is still the same; in
/// place of a missing one the last block of the same run, where the port repeats and the session
/// has delivered before; and nothing otherwise.
pub proof fn a_taken_block_is_prepared_for_its_period(
    bridge: SharedPortBridge,
    session: SessionState,
    identity: PlaybackIdentity,
    sequence: u64,
    hardware_generation: u64,
    consumed: bool,
)
    requires
        bridge.prepared is None,
    ensures
        ({
            let (prepared, last) = bridge.preparation(
                session,
                identity,
                sequence,
                hardware_generation,
                consumed,
            );
            let same = session.active == identity.session_id && session.lifecycle_generation
                == identity.lifecycle_generation && hardware_generation
                == identity.hardware_generation;
            let delivered = session.armed == identity.session_id || session.outage
                == identity.session_id;
            &&& !same ==> prepared is None && last is None
            &&& same && consumed ==> prepared == Some(
                PreparedPlayback { sequence, identity, fresh: true },
            )
            &&& same && !consumed && delivered && bridge.repeat_on_underrun
                && bridge.last_valid_playback == Some(identity) ==> prepared == Some(
                PreparedPlayback { sequence, identity, fresh: false },
            )
            &&& same && !consumed && (!delivered || !bridge.repeat_on_underrun
                || bridge.last_valid_playback != Some(identity)) ==> prepared is None
            &&& SharedPortBridge::counts_as_missed(
                session,
                identity,
                hardware_generation,
                consumed,
            ) <==> same && !consumed && delivered
        }),
{
}

/// A fresh block that was mixed can be repeated, arms its session and ends its outage; a repeated
/// one changes nothing of that; and a block that was not mixed leaves nothing to repeat.
pub proof fn only_a_mixed_block_arms_its_session(
    bridge: SharedPortBridge,
    session: SessionState,
    sequence: u64,
    hardware_generation: u64,
    client_state: u32,
)
    requires
        session.wf(),
        bridge.prepared is Some,
        bridge.prepared->0.identity.session_id != 0,
    ensures
        ({
            let (after, slot) = bridge.committed(
                session,
                sequence,
                hardware_generation,
                client_state,
            );
            let mixed = bridge.mixes(session, sequence, hardware_generation, client_state);
            let prepared = bridge.prepared->0;
            &&& after.prepared is None
            &&& mixed && prepared.fresh ==> after.last_valid_playback == Some(prepared.identity)
                && slot.armed == session.active && slot.outage == 0
            &&& mixed && !prepared.fresh ==> after.last_valid_playback == bridge.last_valid_playback
                && slot == session
            &&& !mixed ==> after.last_valid_playback is None && slot == session
            &&& slot.active == session.active && slot.owner == session.owner
        }),
{
}

} // verus!
