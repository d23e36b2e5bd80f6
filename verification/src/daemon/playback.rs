//! PRO output in the audio cycle.
//!
//! Every period the block of the active PRO client is selected. A period without one is filled by
//! the last block of the same run, or by silence, and counts as a miss once the client has
//! delivered a first block.
use vstd::prelude::*;
use crate::daemon::port::{copy_block, PlaybackIdentity, SharedPortBridge};
use crate::daemon::session::SessionState;
use crate::diagnostics::{ProDiagnostics, ProMiss};
use crate::protocol::shared::{SHARED_CLIENT_IDLE, SHARED_CLIENT_RUNNING, SHARED_CLIENT_STARTING};
use crate::routing::{fill_silence, silence};
use crate::timeline::HardwareTimeline;

verus! {

/// What was known when the wait for a block began.
#[derive(Clone, Copy, Debug, PartialEq, Eq, Structural)]
pub struct WaitTiming {
    pub identity: PlaybackIdentity,
    pub sequence: u64,
    pub cutoff_nanos: u64,
    pub budget_nanos: u64,
}

/// What the region of a PRO client shows.
#[derive(Clone, Copy, Debug, PartialEq, Eq, Structural)]
pub struct ClientView {
    pub activation_ready: bool,
    pub client_state: u32,
    /// The sequence at which the client was activated.
    pub start_sequence: u64,
    /// Whether the block of the period waits in the region.
    pub block_ready: bool,
}

/// What was found when the block of a period was looked for.
#[derive(Clone, Copy, Debug, PartialEq, Eq, Structural)]
pub struct Selection {
    pub sequence: u64,
    pub identity: PlaybackIdentity,
    /// The client belongs to an earlier hardware generation and must be woken.
    pub blocked: bool,
    /// A block may be taken.
    pub selectable: bool,
    /// The daemon itself ran out of time for this period.
    pub core_miss: bool,
    pub wait_timing: Option<WaitTiming>,
}

/// The cycle's view of PRO output.
#[derive(Debug)]
pub struct DaemonPlaybackBridge {
    pub wait_timing: Option<WaitTiming>,
    pub shared: Vec<SharedPortBridge>,
    pub prepared_shared_sequence: Option<u64>,
    pub last_valid_pro: Vec<i32>,
    pub last_valid_pro_identity: Option<PlaybackIdentity>,
    pub core_miss_sequence: Option<u64>,
}

/// Whether the session was started in another hardware generation.
pub open spec fn gate_blocked(session: SessionState, hardware_generation: u64) -> bool {
    &&& session.active != 0
    &&& session.endpoint_session == session.active
    &&& session.lifecycle_hardware_generation != hardware_generation
}

/// The slot after a period was synchronised: a blocked session is no longer armed.
pub open spec fn gated(session: SessionState, hardware_generation: u64) -> SessionState {
    if gate_blocked(session, hardware_generation) {
        SessionState {
            armed: if session.armed == session.active {
                0
            } else {
                session.armed
            },
            warmup_blocks: 0,
            ..session
        }
    } else {
        session
    }
}

/// Synchronises a session with a period; a blocked client must be woken.
pub fn synchronize(session: &mut SessionState, hardware_generation: u64) -> (blocked: bool)
    ensures
        blocked == gate_blocked(*old(session), hardware_generation),
        *final(session) == gated(*old(session), hardware_generation),
        old(session).wf() ==> final(session).wf(),
{
    let blocked: bool = session.active != 0 && session.endpoint_session == session.active
        && session.lifecycle_hardware_generation != hardware_generation;
    if blocked {
        if session.armed == session.active {
            session.armed = 0;
        }
        session.warmup_blocks = 0;
    }
    blocked
}

/// The run that the slot is in.
pub open spec fn identity_of(session: SessionState, hardware_generation: u64) -> PlaybackIdentity {
    PlaybackIdentity {
        session_id: session.active,
        lifecycle_generation: session.lifecycle_generation,
        hardware_generation,
    }
}

fn current_identity(session: &SessionState, hardware_generation: u64) -> (identity:
    PlaybackIdentity)
    ensures
        identity == identity_of(*session, hardware_generation),
{
    PlaybackIdentity {
        session_id: session.active,
        lifecycle_generation: session.lifecycle_generation,
        hardware_generation,
    }
}

/// Whether any sample sounds.
pub open spec fn sounds(block: Seq<i32>) -> bool {
    exists|i: int| 0 <= i < block.len() && #[trigger] block[i] != 0
}

fn copy_samples(source: &[i32], target: &mut [i32])
    requires
        source@.len() == old(target)@.len(),
    ensures
        final(target)@ == source@,
{
    let room: usize = target.len();
    let mut i: usize = 0;
    while i < room
        invariant
            i <= room == target@.len(),
            source@.len() == room,
            forall|k: int| 0 <= k < i ==> #[trigger] target@[k] == source@[k],
        decreases room - i,
    {
        target[i] = source[i];
        i = i + 1;
    }
    assert(target@ =~= source@);
}

fn has_sound(block: &[i32]) -> (sound: bool)
    ensures
        sound == sounds(block@),
{
    let mut i: usize = 0;
    while i < block.len()
        invariant
            i <= block@.len(),
            forall|k: int| 0 <= k < i ==> #[trigger] block@[k] == 0,
        decreases block.len() - i,
    {
        if block[i] != 0 {
            return true;
        }
        i = i + 1;
    }
    false
}

impl Selection {
    /// The block that was taken belongs to the run that was selected.
    pub open spec fn accepts(
        self,
        session: SessionState,
        hardware_generation: u64,
        taken: bool,
    ) -> bool {
        &&& self.selectable
        &&& taken
        &&& self.identity.current(session, hardware_generation)
    }

    /// The period counts as missed: nothing was there, though the client is running and has
    /// delivered before.
    pub open spec fn misses(
        self,
        session: SessionState,
        hardware_generation: u64,
        taken: bool,
        client_state: u32,
    ) -> bool {
        &&& self.selectable
        &&& !taken
        &&& self.identity.current(session, hardware_generation)
        &&& client_state == SHARED_CLIENT_RUNNING
        &&& session.armed == self.identity.session_id
    }

    /// What was recorded at the wait for this very period.
    pub open spec fn wait_budget(self, cutoff_nanos: Option<u64>) -> Option<u64> {
        match self.wait_timing {
            Some(timing) => if timing.identity == self.identity && timing.sequence == self.sequence
                && Some(timing.cutoff_nanos) == cutoff_nanos {
                Some(timing.budget_nanos)
            } else {
                None
            },
            None => None,
        }
    }

    fn recorded_budget(&self, cutoff_nanos: Option<u64>) -> (budget: Option<u64>)
        ensures
            budget == self.wait_budget(cutoff_nanos),
    {
        match (self.wait_timing, cutoff_nanos) {
            (Some(timing), Some(cutoff)) => if timing.identity == self.identity && timing.sequence
                == self.sequence && timing.cutoff_nanos == cutoff {
                Some(timing.budget_nanos)
            } else {
                None
            },
            _ => None,
        }
    }

    /// Whether the region may be asked for the block now.
    pub fn may_take(&self, session: &SessionState, client_state: u32) -> (may: bool)
        ensures
            may == (self.selectable && session.active == self.identity.session_id && client_state
                == SHARED_CLIENT_RUNNING),
    {
        self.selectable && session.active == self.identity.session_id && client_state
            == SHARED_CLIENT_RUNNING
    }
}

impl DaemonPlaybackBridge {
    /// The last block is one period of output.
    pub open spec fn wf(&self, samples: nat) -> bool {
        self.last_valid_pro@.len() == samples
    }

    pub fn new(shared: Vec<SharedPortBridge>, samples: usize) -> (bridge: Self)
        ensures
            bridge.wf(samples as nat),
            bridge.shared == shared,
            bridge.last_valid_pro@ == silence(samples as nat),
            bridge.last_valid_pro_identity is None,
            bridge.prepared_shared_sequence is None,
            bridge.core_miss_sequence is None,
            bridge.wait_timing is None,
    {
        let bridge = DaemonPlaybackBridge {
            wait_timing: None,
            shared,
            prepared_shared_sequence: None,
            last_valid_pro: vec![0; samples],
            last_valid_pro_identity: None,
            core_miss_sequence: None,
        };
        assert(bridge.last_valid_pro@ =~= silence(samples as nat));
        bridge
    }

    /// Notes that the daemon ran out of time for a period.
    pub fn mark_playback_budget_exhausted(&mut self, sequence: u64)
        ensures
            *final(self) == (DaemonPlaybackBridge {
                core_miss_sequence: Some(sequence),
                ..*old(self)
            }),
    {
        self.core_miss_sequence = Some(sequence);
    }

    /// Notes that the shared ports have been prepared for a period.
    pub fn mix_prepared(&mut self, sequence: u64)
        ensures
            *final(self) == (DaemonPlaybackBridge {
                prepared_shared_sequence: Some(sequence),
                ..*old(self)
            }),
    {
        self.prepared_shared_sequence = Some(sequence);
    }

    /// Whether the shared ports are prepared for the period that is committed; if not, they have
    /// to be prepared first.
    pub fn take_prepared_mix(&mut self, sequence: u64) -> (prepared: bool)
        ensures
            prepared == (old(self).prepared_shared_sequence == Some(sequence)),
            *final(self) == if prepared {
                DaemonPlaybackBridge { prepared_shared_sequence: None, ..*old(self) }
            } else {
                *old(self)
            },
    {
        match self.prepared_shared_sequence {
            Some(prepared) => {
                if prepared == sequence {
                    self.prepared_shared_sequence = None;
                    true
                } else {
                    false
                }
            },
            None => false,
        }
    }

    /// The selection of a period, and whether the last block may still be repeated.
    pub open spec fn selected(
        self,
        session: SessionState,
        sequence: u64,
        hardware_generation: u64,
        client: ClientView,
    ) -> Selection {
        let blocked = gate_blocked(session, hardware_generation);
        Selection {
            sequence,
            identity: identity_of(session, hardware_generation),
            blocked,
            selectable: !blocked && session.active != 0 && session.endpoint_session
                == session.active && client.activation_ready && client.client_state
                != SHARED_CLIENT_IDLE,
            core_miss: self.core_miss_sequence == Some(sequence),
            wait_timing: self.wait_timing,
        }
    }

    /// The bridge once a selection has begun: a block of another run is not repeated.
    pub open spec fn begun(
        self,
        session: SessionState,
        hardware_generation: u64,
    ) -> DaemonPlaybackBridge {
        DaemonPlaybackBridge {
            wait_timing: None,
            core_miss_sequence: None,
            last_valid_pro_identity: if self.last_valid_pro_identity == Some(
                identity_of(session, hardware_generation),
            ) {
                self.last_valid_pro_identity
            } else {
                None
            },
            ..self
        }
    }

    /// Begins the selection of the block of a period.
    pub fn begin_selection(
        &mut self,
        session: &mut SessionState,
        sequence: u64,
        hardware_generation: u64,
        client: ClientView,
    ) -> (selection: Selection)
        requires
            old(session).wf(),
        ensures
            final(session).wf(),
            selection == old(self).selected(*old(session), sequence, hardware_generation, client),
            *final(session) == gated(*old(session), hardware_generation),
            *final(self) == old(self).begun(*old(session), hardware_generation),
    {
        let wait_timing = self.wait_timing;
        self.wait_timing = None;
        let blocked: bool = synchronize(session, hardware_generation);
        let core_miss: bool = match self.core_miss_sequence {
            Some(missed) => missed == sequence,
            None => false,
        };
        self.core_miss_sequence = None;
        let identity = current_identity(session, hardware_generation);
        match self.last_valid_pro_identity {
            Some(last) => {
                if last != identity {
                    self.last_valid_pro_identity = None;
                }
            },
            None => {},
        }
        Selection {
            sequence,
            identity,
            blocked,
            selectable: !blocked && session.active != 0 && session.endpoint_session
                == session.active && client.activation_ready && client.client_state
                != SHARED_CLIENT_IDLE,
            core_miss,
            wait_timing,
        }
    }

    /// What is played in a period.
    pub open spec fn output(
        self,
        selection: Selection,
        session: SessionState,
        hardware_generation: u64,
        block: Option<Seq<i32>>,
        client_state: u32,
        samples: nat,
    ) -> Seq<i32> {
        let taken = block is Some;
        if selection.accepts(session, hardware_generation, taken) {
            block->0
        } else if selection.misses(session, hardware_generation, taken, client_state)
            && self.last_valid_pro_identity == Some(selection.identity) {
            self.last_valid_pro@
        } else {
            silence(samples)
        }
    }

    /// The run whose block may be repeated after a period.
    pub open spec fn repeatable(
        self,
        selection: Selection,
        session: SessionState,
        hardware_generation: u64,
        taken: bool,
        client_state: u32,
    ) -> Option<PlaybackIdentity> {
        if !selection.selectable {
            None
        } else if taken {
            if selection.identity.current(session, hardware_generation) {
                Some(selection.identity)
            } else {
                None
            }
        } else if !selection.misses(session, hardware_generation, taken, client_state)
            && client_state == SHARED_CLIENT_STARTING {
            None
        } else {
            self.last_valid_pro_identity
        }
    }

    /// `later` is the bridge once the selection has ended.
    pub open spec fn finished(
        self,
        later: DaemonPlaybackBridge,
        selection: Selection,
        session: SessionState,
        hardware_generation: u64,
        block: Option<Seq<i32>>,
        client_state: u32,
    ) -> bool {
        let taken = block is Some;
        &&& later == DaemonPlaybackBridge {
            last_valid_pro: later.last_valid_pro,
            last_valid_pro_identity: self.repeatable(
                selection,
                session,
                hardware_generation,
                taken,
                client_state,
            ),
            ..self
        }
        &&& later.last_valid_pro@ == if selection.accepts(session, hardware_generation, taken) {
            block->0
        } else {
            self.last_valid_pro@
        }
    }

    /// The slot after a period.
    pub open spec fn session_after(
        selection: Selection,
        session: SessionState,
        hardware_generation: u64,
        taken: bool,
        client_state: u32,
    ) -> SessionState {
        let id = selection.identity.session_id;
        if selection.accepts(session, hardware_generation, taken) {
            if session.armed == id {
                session
            } else {
                SessionState {
                    warmup_blocks: 1,
                    armed: if session.armed == 0 {
                        id
                    } else {
                        session.armed
                    },
                    ..session
                }
            }
        } else if selection.selectable && !taken && !selection.misses(
            session,
            hardware_generation,
            taken,
            client_state,
        ) && client_state == SHARED_CLIENT_STARTING {
            SessionState { warmup_blocks: 0, ..session }
        } else {
            session
        }
    }

    /// The timeline after a period.
    pub open spec fn timeline_after(
        selection: Selection,
        session: SessionState,
        timeline: HardwareTimeline,
        block: Option<Seq<i32>>,
        client_state: u32,
    ) -> HardwareTimeline {
        let taken = block is Some;
        if selection.accepts(session, timeline.generation, taken) {
            timeline.with_playback_block(sounds(block->0))
        } else if selection.misses(session, timeline.generation, taken, client_state) {
            if selection.core_miss {
                timeline.with_core_miss()
            } else {
                timeline.with_client_miss()
            }
        } else {
            timeline
        }
    }

    /// Ends the selection of a period. `block` is what was taken, if anything; `late` tells that a
    /// block was there but past the cutoff; `client_state` is read after the block was looked for.
    /// The client is woken afterwards where the selection was possible.
    pub fn finish_selection(
        &mut self,
        selection: Selection,
        session: &mut SessionState,
        timeline: &mut HardwareTimeline,
        diagnostics: &mut ProDiagnostics,
        cutoff_nanos: Option<u64>,
        selection_started_nanos: u64,
        block: Option<&[i32]>,
        late: bool,
        published_nanos: Option<u64>,
        client_state: u32,
        playback: &mut [i32],
    )
        requires
            old(self).wf(old(playback)@.len()),
            old(session).wf(),
            selection.selectable ==> selection.identity.session_id != 0,
            block is Some ==> block->0@.len() == old(playback)@.len(),
            old(diagnostics).misses() < u64::MAX / 2,
        ensures
            ({
                let generation = old(timeline).generation;
                let before = *old(session);
                let taken = block is Some;
                let samples = match block {
                    Some(b) => Some(b@),
                    None => None,
                };
                let accepted = selection.accepts(before, generation, taken);
                let missed = selection.misses(before, generation, taken, client_state);
                let elapsed = if old(diagnostics).active() && published_nanos is Some {
                    old(timeline).elapsed_since_capture(selection.sequence, published_nanos->0)
                } else {
                    None
                };
                &&& final(self).wf(final(playback)@.len())
                &&& final(session).wf()
                &&& final(playback)@ == old(self).output(
                    selection,
                    before,
                    generation,
                    samples,
                    client_state,
                    old(playback)@.len(),
                )
                &&& *final(session) == DaemonPlaybackBridge::session_after(
                    selection,
                    before,
                    generation,
                    taken,
                    client_state,
                )
                &&& *final(timeline) == DaemonPlaybackBridge::timeline_after(
                    selection,
                    before,
                    *old(timeline),
                    samples,
                    client_state,
                )
                &&& old(self).finished(
                    *final(self),
                    selection,
                    before,
                    generation,
                    samples,
                    client_state,
                )
                &&& final(diagnostics).active() == old(diagnostics).active()
                &&& final(diagnostics).accepted() == if accepted && elapsed is Some {
                    (
                        old(diagnostics).accepted().0.wrapping_add(1),
                        crate::timeline::maximum(old(diagnostics).accepted().1, elapsed->0),
                    )
                } else {
                    old(diagnostics).accepted()
                }
                &&& if missed && old(diagnostics).active() {
                    &&& final(diagnostics).misses() == old(diagnostics).misses() + 1
                    &&& final(diagnostics).last_miss() == Some(
                        ProMiss {
                            generation: selection.identity.hardware_generation,
                            session_id: selection.identity.session_id,
                            sequence: selection.sequence,
                            wait_entry_budget_nanos: selection.wait_budget(cutoff_nanos),
                            cutoff_nanos,
                            selection_started_nanos,
                            published_nanos,
                            capture_to_publish_nanos: elapsed,
                            core: selection.core_miss,
                            late,
                        },
                    )
                } else {
                    &&& final(diagnostics).misses() == old(diagnostics).misses()
                    &&& final(diagnostics).last_miss() == old(diagnostics).last_miss()
                }
            }),
    {
        fill_silence(playback);
        if !selection.selectable {
            self.last_valid_pro_identity = None;
            return;
        }
        let enabled: bool = diagnostics.is_enabled();
        let elapsed: Option<u64> = match published_nanos {
            Some(published) => if enabled {
                timeline.pro_capture_elapsed_nanos(selection.sequence, published)
            } else {
                None
            },
            None => None,
        };
        let identity = selection.identity;
        let session_id: u64 = identity.session_id;
        let current: bool = identity.is_current(session, timeline.generation());
        match block {
            Some(samples) => {
                if !current {
                    self.last_valid_pro_identity = None;
                    return;
                }
                if let Some(nanos) = elapsed {
                    diagnostics.record_accepted(nanos);
                }
                timeline.record_pro_playback_block(has_sound(samples));
                copy_samples(samples, playback);
                copy_block(samples, &mut self.last_valid_pro);
                self.last_valid_pro_identity = Some(identity);
                if session.armed != session_id {
                    session.warmup_blocks = 1;
                    if session.armed == 0 {
                        session.armed = session_id;
                    }
                }
            },
            None => {
                if current && client_state == SHARED_CLIENT_RUNNING && session.armed
                    == session_id {
                    if selection.core_miss {
                        timeline.record_pro_core_deadline_miss();
                    } else {
                        timeline.record_pro_deadline_miss();
                    }
                    if enabled {
                        diagnostics.record_miss(
                            ProMiss {
                                generation: identity.hardware_generation,
                                session_id,
                                sequence: selection.sequence,
                                wait_entry_budget_nanos: selection.recorded_budget(cutoff_nanos),
                                cutoff_nanos,
                                selection_started_nanos,
                                published_nanos,
                                capture_to_publish_nanos: elapsed,
                                core: selection.core_miss,
                                late,
                            },
                        );
                    }
                    if let Some(last) = self.last_valid_pro_identity {
                        if last == identity {
                            copy_samples(self.last_valid_pro.as_slice(), playback);
                        }
                    }
                } else if client_state == SHARED_CLIENT_STARTING {
                    session.warmup_blocks = 0;
                    self.last_valid_pro_identity = None;
                }
            },
        }
    }
}

/// Nothing but a block of the selected run is ever played: the one taken for the period, or the
/// last one before it. Otherwise the period is silent.
pub proof fn output_belongs_to_the_selected_run(
    bridge: DaemonPlaybackBridge,
    selection: Selection,
    session: SessionState,
    hardware_generation: u64,
    block: Option<Seq<i32>>,
    client_state: u32,
    samples: nat,
)
    ensures
        ({
            let output = bridge.output(
                selection,
                session,
                hardware_generation,
                block,
                client_state,
                samples,
            );
            output != silence(samples) ==> {
                &&& selection.selectable
                &&& selection.identity.current(session, hardware_generation)
                &&& block == Some(output) || (block is None && output == bridge.last_valid_pro@
                    && bridge.last_valid_pro_identity == Some(selection.identity))
            }
        }),
{
}

/// A period without an active PRO session is silent, leaves nothing to be repeated and counts as
/// nothing.
pub proof fn nothing_is_played_without_a_session(
    bridge: DaemonPlaybackBridge,
    session: SessionState,
    timeline: HardwareTimeline,
    sequence: u64,
    client: ClientView,
    block: Option<Seq<i32>>,
    client_state: u32,
    samples: nat,
)
    requires
        session.active == 0,
    ensures
        ({
            let selection = bridge.selected(session, sequence, timeline.generation, client);
            &&& bridge.output(
                selection,
                session,
                timeline.generation,
                block,
                client_state,
                samples,
            ) == silence(samples)
            &&& bridge.repeatable(
                selection,
                session,
                timeline.generation,
                block is Some,
                client_state,
            ) is None
            &&& DaemonPlaybackBridge::timeline_after(
                selection,
                session,
                timeline,
                block,
                client_state,
            ) == timeline
        }),
{
}

/// A session that was just started is not armed, so no miss is counted before its first block; the
/// first block arms it.
pub proof fn misses_count_from_the_first_block(
    session: SessionState,
    session_id: u64,
    selection: Selection,
    hardware_generation: u64,
    client_state: u32,
)
    requires
        session_id != 0,
        selection.identity == identity_of(
            session.started(session_id, hardware_generation),
            hardware_generation,
        ),
        selection.selectable,
    ensures
        ({
            let started = session.started(session_id, hardware_generation);
            &&& !selection.misses(started, hardware_generation, false, client_state)
            &&& DaemonPlaybackBridge::session_after(
                selection,
                started,
                hardware_generation,
                true,
                client_state,
            ).armed == session_id
        }),
{
}

/// A client that is late or gone is no hardware event: whatever a selection finds, neither the
/// generation of the hardware nor any XRUN count changes.
pub proof fn a_missed_block_is_no_hardware_event(
    selection: Selection,
    session: SessionState,
    timeline: HardwareTimeline,
    block: Option<Seq<i32>>,
    client_state: u32,
)
    ensures
        crate::timeline::same_hardware_history(
            timeline,
            DaemonPlaybackBridge::timeline_after(
                selection,
                session,
                timeline,
                block,
                client_state,
            ),
        ),
{
}

/// Nothing is repeated across runs: before the first block of a run, and after a restart of the
/// session or of the hardware, a missing block is silence.
pub proof fn nothing_is_repeated_across_runs(
    bridge: DaemonPlaybackBridge,
    selection: Selection,
    session: SessionState,
    hardware_generation: u64,
    client_state: u32,
    samples: nat,
)
    requires
        bridge.last_valid_pro_identity != Some(selection.identity),
    ensures
        bridge.output(
            selection,
            session,
            hardware_generation,
            None,
            client_state,
            samples,
        ) == silence(samples),
{
}

/// A block that comes in time is played as it is, can be repeated, and is counted as a played block
/// and, where any of its samples is not zero, as one with sound. It arms its session.
pub proof fn a_block_in_time_is_played(
    bridge: DaemonPlaybackBridge,
    selection: Selection,
    session: SessionState,
    timeline: HardwareTimeline,
    block: Seq<i32>,
    client_state: u32,
    samples: nat,
    i: int,
)
    requires
        selection.selectable,
        session.active == selection.identity.session_id,
        session.active != 0,
        session.lifecycle_generation == selection.identity.lifecycle_generation,
        timeline.generation == selection.identity.hardware_generation,
        session.wf(),
        timeline.pro_playback_blocks < u64::MAX,
        timeline.pro_playback_nonzero_blocks < u64::MAX,
    ensures
        bridge.output(
            selection,
            session,
            timeline.generation,
            Some(block),
            client_state,
            samples,
        ) == block,
        bridge.repeatable(
            selection,
            session,
            timeline.generation,
            true,
            client_state,
        ) == Some(selection.identity),
        ({
            let after = DaemonPlaybackBridge::timeline_after(
                selection,
                session,
                timeline,
                Some(block),
                client_state,
            );
            &&& after.pro_playback_blocks == timeline.pro_playback_blocks + 1
            &&& 0 <= i < block.len() && block[i] != 0 ==> after.pro_playback_nonzero_blocks
                == timeline.pro_playback_nonzero_blocks + 1
            &&& block == silence(samples) ==> after.pro_playback_nonzero_blocks
                == timeline.pro_playback_nonzero_blocks
            &&& after.pro_deadline_misses == timeline.pro_deadline_misses
        }),
        ({
            let after = DaemonPlaybackBridge::session_after(
                selection,
                session,
                timeline.generation,
                true,
                client_state,
            );
            &&& after.armed == session.active
            &&& after.active == session.active
            &&& after.owner == session.owner
        }),
{
}

/// A block that does not come is a miss only of a client that is running and has delivered before:
/// the miss is the engine's where the engine ran out of time and the client's otherwise, it is
/// counted once, and the last block of the same run is played in its place, or silence where there
/// is none.
pub proof fn a_missing_block_is_counted_once(
    bridge: DaemonPlaybackBridge,
    selection: Selection,
    session: SessionState,
    timeline: HardwareTimeline,
    client_state: u32,
    samples: nat,
)
    requires
        timeline.pro_deadline_misses < u64::MAX,
        timeline.pro_client_deadline_misses < u64::MAX,
        timeline.pro_core_deadline_misses < u64::MAX,
    ensures
        ({
            let after = DaemonPlaybackBridge::timeline_after(
                selection,
                session,
                timeline,
                None,
                client_state,
            );
            let output = bridge.output(
                selection,
                session,
                timeline.generation,
                None,
                client_state,
                samples,
            );
            let missed = selection.selectable && session.active == selection.identity.session_id
                && session.lifecycle_generation == selection.identity.lifecycle_generation
                && timeline.generation == selection.identity.hardware_generation && client_state
                == 2 && session.armed == selection.identity.session_id;
            &&& !missed ==> after == timeline && output == silence(samples)
            &&& missed ==> {
                &&& after.pro_deadline_misses == timeline.pro_deadline_misses + 1
                &&& after.pro_core_deadline_misses == timeline.pro_core_deadline_misses + if
                    selection.core_miss {
                    1int
                } else {
                    0
                }
                &&& after.pro_client_deadline_misses == timeline.pro_client_deadline_misses + if
                    selection.core_miss {
                    0int
                } else {
                    1
                }
                &&& bridge.last_valid_pro_identity == Some(selection.identity) ==> output
                    == bridge.last_valid_pro@
                &&& bridge.last_valid_pro_identity != Some(selection.identity) ==> output
                    == silence(samples)
            }
            &&& after.pro_playback_blocks == timeline.pro_playback_blocks
        }),
{
}

/// A block is looked for only where a session is active with its own region, was started in the
/// current hardware generation, is activated and not idle. A session of an earlier generation is
/// blocked and loses its arming. A miss of the engine's counts for the period that it was noted
/// for alone, and nothing of another run may be repeated.
pub proof fn a_selection_belongs_to_the_current_run(
    bridge: DaemonPlaybackBridge,
    session: SessionState,
    sequence: u64,
    hardware_generation: u64,
    client: ClientView,
)
    ensures
        ({
            let selection = bridge.selected(session, sequence, hardware_generation, client);
            let after = bridge.begun(session, hardware_generation);
            let running = session.active != 0 && session.endpoint_session == session.active;
            &&& selection.selectable <==> running && session.lifecycle_hardware_generation
                == hardware_generation && client.activation_ready && client.client_state != 0
            &&& selection.blocked <==> running && session.lifecycle_hardware_generation
                != hardware_generation
            &&& selection.identity.session_id == session.active
            &&& selection.identity.lifecycle_generation == session.lifecycle_generation
            &&& selection.identity.hardware_generation == hardware_generation
            &&& selection.sequence == sequence
            &&& selection.core_miss <==> bridge.core_miss_sequence == Some(sequence)
            &&& after.core_miss_sequence is None
            &&& after.last_valid_pro_identity is Some ==> after.last_valid_pro_identity == Some(
                selection.identity,
            ) && bridge.last_valid_pro_identity == Some(selection.identity)
            &&& bridge.last_valid_pro_identity == Some(selection.identity)
                ==> after.last_valid_pro_identity == Some(selection.identity)
            &&& after.last_valid_pro == bridge.last_valid_pro
            &&& selection.blocked ==> gated(session, hardware_generation).armed != session.active
            &&& !selection.blocked ==> gated(session, hardware_generation) == session
            &&& gated(session, hardware_generation).active == session.active
            &&& gated(session, hardware_generation).owner == session.owner
        }),
{
}

/// The budget that a miss is reported with is that of the wait for this very block: the same run,
/// the same period and the same cutoff.
pub proof fn a_budget_belongs_to_its_wait(selection: Selection, cutoff_nanos: u64)
    ensures
        selection.wait_budget(None) is None,
        selection.wait_timing is None ==> selection.wait_budget(Some(cutoff_nanos)) is None,
        selection.wait_timing matches Some(timing) ==> {
            let same = timing.identity == selection.identity && timing.sequence
                == selection.sequence && timing.cutoff_nanos == cutoff_nanos;
            &&& same ==> selection.wait_budget(Some(cutoff_nanos)) == Some(timing.budget_nanos)
            &&& !same ==> selection.wait_budget(Some(cutoff_nanos)) is None
        },
{
}

/// What may be repeated is kept through a period without a block, unless a client that is still
/// starting missed nothing by it; a block that came for a run that has ended leaves nothing.
pub proof fn what_may_be_repeated_is_kept(
    bridge: DaemonPlaybackBridge,
    selection: Selection,
    session: SessionState,
    hardware_generation: u64,
    client_state: u32,
)
    requires
        selection.selectable,
    ensures
        ({
            let missed = selection.misses(session, hardware_generation, false, client_state);
            let kept = bridge.repeatable(
                selection,
                session,
                hardware_generation,
                false,
                client_state,
            );
            &&& missed || client_state != 1 ==> kept == bridge.last_valid_pro_identity
            &&& !missed && client_state == 1 ==> kept is None
        }),
        !selection.identity.current(session, hardware_generation) ==> bridge.repeatable(
            selection,
            session,
            hardware_generation,
            true,
            client_state,
        ) is None,
{
}

/// What is kept to be repeated is the block that was played last, and ending a selection touches
/// nothing else.
pub proof fn the_block_that_was_played_is_kept(
    bridge: DaemonPlaybackBridge,
    later: DaemonPlaybackBridge,
    selection: Selection,
    session: SessionState,
    hardware_generation: u64,
    block: Option<Seq<i32>>,
    client_state: u32,
)
    requires
        bridge.finished(later, selection, session, hardware_generation, block, client_state),
    ensures
        later.shared == bridge.shared,
        later.prepared_shared_sequence == bridge.prepared_shared_sequence,
        later.core_miss_sequence == bridge.core_miss_sequence,
        later.wait_timing == bridge.wait_timing,
        block is Some && selection.selectable && session.active != 0 && session.active
            == selection.identity.session_id && session.lifecycle_generation
            == selection.identity.lifecycle_generation && hardware_generation
            == selection.identity.hardware_generation ==> {
            &&& later.last_valid_pro@ == block->0
            &&& later.last_valid_pro_identity == Some(selection.identity)
        },
        block is None ==> later.last_valid_pro@ == bridge.last_valid_pro@,
{
}

} // verus!
