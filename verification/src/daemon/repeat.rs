//! What is repeated in place of a missing block, over any course of events.
//!
//! Between two periods sessions come and go and the hardware may be restarted. The laws here speak
//! of all orders of these events: a block is repeated only within the run it came from, and within
//! that run every missing block is filled by the last one.
use vstd::prelude::*;
use crate::daemon::playback::{
    gate_blocked, gated, identity_of, ClientView, DaemonPlaybackBridge, Selection,
};
use crate::daemon::port::{
    after_miss, PlaybackIdentity, PlaybackStep, SharedPortBridge,
};
use crate::daemon::session::SessionState;
use crate::protocol::shared::{SHARED_CLIENT_RUNNING, SHARED_CLIENT_STARTING};
use crate::routing::{mixed_block, silence};
use crate::timeline::HardwareTimeline;

verus! {

/// PRO output between two events.
pub struct ProRun {
    pub bridge: DaemonPlaybackBridge,
    pub session: SessionState,
    pub hardware_generation: u64,
    /// The selection that has begun and not ended.
    pub selection: Option<Selection>,
}

/// An event of PRO output.
pub enum ProEvent {
    /// A selection begins.
    Begin { sequence: u64, client: ClientView },
    /// A selection ends.
    Finish { block: Option<Seq<i32>>, client_state: u32 },
    /// The session is synchronised with a period.
    Synchronize,
    /// A wait or the shared ports are noted.
    Note,
    /// A free slot is given to a session.
    Open { session_id: u64 },
    Start { session_id: u64 },
    Stop,
    Close,
    /// The hardware is restarted any number of times.
    Restart,
}

impl ProRun {
    /// `later` is what an event leads to. Neither generation wraps.
    pub open spec fn leads_to(self, later: ProRun, event: ProEvent) -> bool {
        match event {
            ProEvent::Begin { sequence, client } => later == (ProRun {
                bridge: self.bridge.begun(self.session, self.hardware_generation),
                session: gated(self.session, self.hardware_generation),
                selection: Some(
                    self.bridge.selected(
                        self.session,
                        sequence,
                        self.hardware_generation,
                        client,
                    ),
                ),
                ..self
            }),
            ProEvent::Finish { block, client_state } => {
                &&& self.selection is Some
                &&& self.bridge.finished(
                    later.bridge,
                    self.selection->0,
                    self.session,
                    self.hardware_generation,
                    block,
                    client_state,
                )
                &&& later == ProRun {
                    bridge: later.bridge,
                    session: DaemonPlaybackBridge::session_after(
                        self.selection->0,
                        self.session,
                        self.hardware_generation,
                        block is Some,
                        client_state,
                    ),
                    selection: None,
                    ..self
                }
            },
            ProEvent::Synchronize => later == (ProRun {
                session: gated(self.session, self.hardware_generation),
                ..self
            }),
            ProEvent::Note => {
                &&& later.bridge.last_valid_pro@ == self.bridge.last_valid_pro@
                &&& later.bridge.last_valid_pro_identity == self.bridge.last_valid_pro_identity
                &&& later == ProRun { bridge: later.bridge, ..self }
            },
            ProEvent::Open { session_id } => {
                &&& session_id != 0
                &&& self.session.owner == 0
                &&& later == ProRun {
                    session: SessionState {
                        owner: session_id,
                        endpoint_session: session_id,
                        ..self.session
                    },
                    ..self
                }
                &&& later.session.wf()
            },
            ProEvent::Start { session_id } => {
                &&& session_id != 0
                &&& self.session.startable(session_id)
                &&& self.session.lifecycle_generation < u64::MAX
                &&& later == ProRun {
                    session: self.session.started(session_id, self.hardware_generation),
                    ..self
                }
            },
            ProEvent::Stop => later == (ProRun { session: self.session.stopped(), ..self }),
            ProEvent::Close => later == (ProRun { session: self.session.closed(), ..self }),
            ProEvent::Restart => {
                &&& later.hardware_generation >= self.hardware_generation
                &&& later == ProRun { hardware_generation: later.hardware_generation, ..self }
            },
        }
    }

    /// Whether ending the selection with `block` plays that block.
    pub open spec fn accepts(self, block: Option<Seq<i32>>) -> bool {
        self.selection is Some && self.selection->0.accepts(
            self.session,
            self.hardware_generation,
            block is Some,
        )
    }

    /// What ending the selection plays.
    pub open spec fn plays(
        self,
        block: Option<Seq<i32>>,
        client_state: u32,
        samples: nat,
    ) -> Seq<i32> {
        self.bridge.output(
            self.selection->0,
            self.session,
            self.hardware_generation,
            block,
            client_state,
            samples,
        )
    }

    /// The run `id` goes on.
    pub open spec fn in_run(self, id: PlaybackIdentity) -> bool {
        id.current(self.session, self.hardware_generation)
    }

    /// A run whose block may be repeated is armed.
    pub open spec fn armed_if_repeatable(self) -> bool {
        self.bridge.last_valid_pro_identity matches Some(id) ==> (self.in_run(id)
            ==> self.session.armed == id.session_id)
    }
}

/// `runs` are the states of PRO output before, between and after `events`, from a bridge that has
/// played nothing yet.
pub open spec fn pro_history(runs: Seq<ProRun>, events: Seq<ProEvent>) -> bool {
    &&& runs.len() == events.len() + 1
    &&& runs[0].session.wf()
    &&& runs[0].bridge.last_valid_pro_identity is None
    &&& runs[0].selection is None
    &&& forall|i: int|
        #![trigger events[i]]
        0 <= i < events.len() ==> runs[i].leads_to(runs[i + 1], events[i])
}

/// The block that was played last out of a client's region, and the run it came from.
pub open spec fn last_accepted(
    runs: Seq<ProRun>,
    events: Seq<ProEvent>,
    k: int,
) -> Option<(PlaybackIdentity, Seq<i32>)>
    decreases k,
{
    if k <= 0 {
        None
    } else {
        match events[k - 1] {
            ProEvent::Finish { block, .. } => if runs[k - 1].accepts(block) {
                Some((runs[k - 1].selection->0.identity, block->0))
            } else {
                last_accepted(runs, events, k - 1)
            },
            _ => last_accepted(runs, events, k - 1),
        }
    }
}

/// What is known of a run that was seen earlier: it did not begin later than now, and while it
/// goes on, its hardware generation is the one in which the session was started.
spec fn seen(id: PlaybackIdentity, run: ProRun) -> bool {
    &&& id.session_id != 0
    &&& id.lifecycle_generation <= run.session.lifecycle_generation
    &&& id.hardware_generation <= run.hardware_generation
    &&& id.lifecycle_generation == run.session.lifecycle_generation && run.session.active
        == id.session_id ==> id.hardware_generation == run.session.lifecycle_hardware_generation
}

spec fn pro_sound(run: ProRun) -> bool {
    &&& run.session.wf()
    &&& run.selection is Some && run.selection->0.selectable ==> seen(
        run.selection->0.identity,
        run,
    )
    &&& run.bridge.last_valid_pro_identity is Some ==> seen(
        run.bridge.last_valid_pro_identity->0,
        run,
    )
    &&& run.armed_if_repeatable()
}

proof fn lemma_pro_event_keeps_soundness(run: ProRun, later: ProRun, event: ProEvent)
    requires
        pro_sound(run),
        run.leads_to(later, event),
    ensures
        pro_sound(later),
{
}

proof fn lemma_pro_history_is_sound(runs: Seq<ProRun>, events: Seq<ProEvent>, k: int)
    requires
        pro_history(runs, events),
        0 <= k <= events.len(),
    ensures
        pro_sound(runs[k]),
        runs[k].bridge.last_valid_pro_identity matches Some(id) ==> last_accepted(
            runs,
            events,
            k,
        ) == Some((id, runs[k].bridge.last_valid_pro@)),
    decreases k,
{
    if k > 0 {
        lemma_pro_history_is_sound(runs, events, k - 1);
        assert(runs[k - 1].leads_to(runs[k], events[k - 1]));
        lemma_pro_event_keeps_soundness(runs[k - 1], runs[k], events[k - 1]);
    }
}

/// Whatever happened before, a run whose block may be repeated is armed, and that block is the
/// last one that was played out of its client's region.
pub proof fn a_repeatable_run_is_armed(runs: Seq<ProRun>, events: Seq<ProEvent>, k: int)
    requires
        pro_history(runs, events),
        0 <= k <= events.len(),
    ensures
        runs[k].armed_if_repeatable(),
        runs[k].bridge.last_valid_pro_identity matches Some(id) ==> last_accepted(
            runs,
            events,
            k,
        ) == Some((id, runs[k].bridge.last_valid_pro@)),
{
    lemma_pro_history_is_sound(runs, events, k);
}

/// From event `j` on the run `id` goes on up to event `k`: neither its session nor the hardware is
/// started anew, every selection is possible, and no period without a block finds the client
/// starting.
pub open spec fn goes_on(
    runs: Seq<ProRun>,
    events: Seq<ProEvent>,
    id: PlaybackIdentity,
    j: int,
    k: int,
) -> bool {
    &&& forall|i: int| j < i <= k ==> (#[trigger] runs[i]).in_run(id)
    &&& forall|i: int|
        #![trigger events[i]]
        j < i < k ==> (events[i] matches ProEvent::Finish { block, client_state }
            ==> runs[i].selection->0.selectable && (block is None ==> client_state
            != SHARED_CLIENT_STARTING))
}

proof fn lemma_run_stays_repeatable(
    runs: Seq<ProRun>,
    events: Seq<ProEvent>,
    id: PlaybackIdentity,
    block: Option<Seq<i32>>,
    client_state: u32,
    j: int,
    k: int,
)
    requires
        pro_history(runs, events),
        0 <= j < k <= events.len(),
        events[j] == (ProEvent::Finish { block, client_state }),
        runs[j].accepts(block),
        runs[j].selection->0.identity == id,
        goes_on(runs, events, id, j, k),
    ensures
        runs[k].bridge.last_valid_pro_identity == Some(id),
        runs[k].selection is Some ==> runs[k].selection->0.identity == id,
    decreases k,
{
    assert(runs[k].in_run(id));
    assert(runs[k - 1].leads_to(runs[k], events[k - 1]));
    if k > j + 1 {
        assert(goes_on(runs, events, id, j, k - 1));
        lemma_run_stays_repeatable(runs, events, id, block, client_state, j, k - 1);
        assert(runs[k - 1].in_run(id));
    }
}

/// A missing PRO block repeats the last one: once a block of a run was played, and as long as the
/// run goes on, every period in which the running client has no block plays the last block again,
/// and counts as missed, however many periods in a row that are.
pub proof fn every_missing_block_repeats_the_last_one(
    runs: Seq<ProRun>,
    events: Seq<ProEvent>,
    id: PlaybackIdentity,
    block: Option<Seq<i32>>,
    client_state: u32,
    j: int,
    k: int,
    samples: nat,
)
    requires
        pro_history(runs, events),
        0 <= j < k < events.len(),
        events[j] == (ProEvent::Finish { block, client_state }),
        runs[j].accepts(block),
        runs[j].selection->0.identity == id,
        goes_on(runs, events, id, j, k),
        events[k] == (ProEvent::Finish { block: None, client_state: SHARED_CLIENT_RUNNING }),
        runs[k].selection->0.selectable,
    ensures
        last_accepted(runs, events, k) == Some(
            (id, runs[k].plays(None, SHARED_CLIENT_RUNNING, samples)),
        ),
        runs[k].selection->0.misses(
            runs[k].session,
            runs[k].hardware_generation,
            false,
            SHARED_CLIENT_RUNNING,
        ),
        runs[k + 1].bridge.last_valid_pro_identity == Some(id),
{
    assert(runs[k].leads_to(runs[k + 1], events[k]));
    lemma_run_stays_repeatable(runs, events, id, block, client_state, j, k);
    lemma_pro_history_is_sound(runs, events, k);
    assert(runs[k].in_run(id));
}

/// Otherwise a missing PRO block is silence: where the last block that was played comes from
/// another run, or none was played, nothing is repeated.
pub proof fn no_other_block_is_repeated(
    runs: Seq<ProRun>,
    events: Seq<ProEvent>,
    k: int,
    client_state: u32,
    samples: nat,
)
    requires
        pro_history(runs, events),
        0 <= k < events.len(),
        events[k] == (ProEvent::Finish { block: None, client_state }),
        last_accepted(runs, events, k) matches Some(last) ==> last.0
            != runs[k].selection->0.identity,
    ensures
        runs[k].plays(None, client_state, samples) == silence(samples),
{
    lemma_pro_history_is_sound(runs, events, k);
}

/// A shared playback port between two events.
pub struct PortRun {
    pub bridge: SharedPortBridge,
    pub session: SessionState,
    pub timeline: HardwareTimeline,
    /// The run whose block is being looked for.
    pub taking: Option<PlaybackIdentity>,
}

/// An event of a shared playback port.
pub enum PortEvent {
    /// The port is asked for the block of a period.
    Begin,
    /// The activation was tried.
    Continue { sequence: u64, activated: bool, client_state: u32 },
    /// The region was looked at.
    Finish { sequence: u64, block: Option<Seq<i32>> },
    /// The period is committed.
    Commit { sequence: u64, client_state: u32 },
    /// A free port is given to a session.
    Open { session_id: u64 },
    Start { session_id: u64 },
    Stop,
    Close,
    /// Something else is recorded, and the hardware may be restarted.
    Elsewhere,
}

impl PortRun {
    /// `later` is what an event leads to. Neither generation wraps.
    pub open spec fn leads_to(self, later: PortRun, event: PortEvent) -> bool {
        let generation = self.timeline.generation;
        match event {
            PortEvent::Begin => {
                let (bridge, session, step) = self.bridge.begun(self.session, generation);
                later == PortRun {
                    bridge,
                    session,
                    taking: match step {
                        PlaybackStep::Activate(identity) => Some(identity),
                        _ => None,
                    },
                    ..self
                }
            },
            PortEvent::Continue { sequence, activated, client_state } => {
                let (bridge, step) = self.bridge.activated(sequence, activated, client_state);
                &&& self.taking is Some
                &&& later == PortRun {
                    bridge,
                    taking: if step is Consume {
                        self.taking
                    } else {
                        None
                    },
                    ..self
                }
            },
            PortEvent::Finish { sequence, block } => {
                &&& self.taking is Some
                &&& self.bridge.finished(
                    later.bridge,
                    self.session,
                    self.taking->0,
                    sequence,
                    generation,
                    block,
                )
                &&& later == PortRun {
                    bridge: later.bridge,
                    session: if self.counts_as_missed(block) {
                        after_miss(self.session, self.taking->0.session_id)
                    } else {
                        self.session
                    },
                    timeline: if self.counts_as_missed(block) && self.session.armed
                        == self.taking->0.session_id {
                        self.timeline.with_shared_underrun()
                    } else {
                        self.timeline
                    },
                    taking: None,
                }
            },
            PortEvent::Commit { sequence, client_state } => {
                let (bridge, session) = self.bridge.committed(
                    self.session,
                    sequence,
                    generation,
                    client_state,
                );
                later == PortRun { bridge, session, ..self }
            },
            PortEvent::Open { session_id } => {
                &&& session_id != 0
                &&& self.session.owner == 0
                &&& later == PortRun {
                    session: SessionState {
                        owner: session_id,
                        endpoint_session: session_id,
                        ..self.session
                    },
                    ..self
                }
                &&& later.session.wf()
            },
            PortEvent::Start { session_id } => {
                &&& session_id != 0
                &&& self.session.startable(session_id)
                &&& self.session.lifecycle_generation < u64::MAX
                &&& later == PortRun {
                    session: self.session.started(session_id, generation),
                    ..self
                }
            },
            PortEvent::Stop => later == (PortRun { session: self.session.stopped(), ..self }),
            PortEvent::Close => later == (PortRun { session: self.session.closed(), ..self }),
            PortEvent::Elsewhere => {
                &&& later.timeline.generation >= generation
                &&& later == PortRun { timeline: later.timeline, ..self }
            },
        }
    }

    /// Whether ending with `block` counts as a missed block.
    pub open spec fn counts_as_missed(self, block: Option<Seq<i32>>) -> bool {
        SharedPortBridge::counts_as_missed(
            self.session,
            self.taking->0,
            self.timeline.generation,
            block is Some,
        )
    }

    /// Whether committing a period mixes what is prepared.
    pub open spec fn mixes(self, sequence: u64, client_state: u32) -> bool {
        self.bridge.mixes(self.session, sequence, self.timeline.generation, client_state)
    }

    /// The device frames after a period was committed.
    pub open spec fn mixed(
        self,
        sequence: u64,
        client_state: u32,
        physical: Seq<i32>,
    ) -> Seq<i32> {
        self.bridge.mixed(
            self.session,
            sequence,
            self.timeline.generation,
            client_state,
            physical,
        )
    }

    /// A run whose block may be repeated is armed, or in an outage.
    pub open spec fn marked_if_repeatable(self) -> bool {
        self.bridge.last_valid_playback matches Some(id) ==> (id.current(
            self.session,
            self.timeline.generation,
        ) ==> self.session.armed == id.session_id || self.session.outage == id.session_id)
    }
}

/// `runs` are the states of a shared playback port before, between and after `events`, from a
/// bridge and a slot that are new.
pub open spec fn port_history(runs: Seq<PortRun>, events: Seq<PortEvent>) -> bool {
    &&& runs.len() == events.len() + 1
    &&& runs[0].session.wf()
    &&& runs[0].session.armed == 0
    &&& runs[0].bridge.last_valid_playback is None
    &&& runs[0].bridge.prepared is None
    &&& runs[0].taking is None
    &&& forall|i: int|
        #![trigger events[i]]
        0 <= i < events.len() ==> runs[i].leads_to(runs[i + 1], events[i])
}

/// The block that was taken out of the client's region and mixed last, and the run it came from.
pub open spec fn last_mixed(
    runs: Seq<PortRun>,
    events: Seq<PortEvent>,
    k: int,
) -> Option<(PlaybackIdentity, Seq<i32>)>
    decreases k,
{
    if k <= 0 {
        None
    } else {
        let run = runs[k - 1];
        match events[k - 1] {
            PortEvent::Commit { sequence, client_state } => if run.mixes(sequence, client_state)
                && run.bridge.prepared->0.fresh {
                Some((run.bridge.prepared->0.identity, run.bridge.scratch@))
            } else {
                last_mixed(runs, events, k - 1)
            },
            _ => last_mixed(runs, events, k - 1),
        }
    }
}

/// Whether a block was taken and mixed since the last one that was missed, the last start or stop
/// of the session, and the last period that found the session in an older hardware generation.
pub open spec fn delivered(runs: Seq<PortRun>, events: Seq<PortEvent>, k: int) -> bool
    decreases k,
{
    if k <= 0 {
        false
    } else {
        let run = runs[k - 1];
        let before = delivered(runs, events, k - 1);
        match events[k - 1] {
            PortEvent::Begin => before && !gate_blocked(run.session, run.timeline.generation),
            PortEvent::Finish { block, .. } => before && !run.counts_as_missed(block),
            PortEvent::Commit { sequence, client_state } => before || (run.mixes(
                sequence,
                client_state,
            ) && run.bridge.prepared->0.fresh),
            PortEvent::Start { .. } => false,
            PortEvent::Stop => false,
            PortEvent::Close => false,
            _ => before,
        }
    }
}

spec fn port_seen(id: PlaybackIdentity, run: PortRun) -> bool {
    &&& id.session_id != 0
    &&& id.lifecycle_generation <= run.session.lifecycle_generation
    &&& id.hardware_generation <= run.timeline.generation
    &&& run.bridge.observed_hardware_generation == Some(id.hardware_generation)
    &&& id.lifecycle_generation == run.session.lifecycle_generation && run.session.active
        == id.session_id ==> id.hardware_generation == run.session.lifecycle_hardware_generation
}

spec fn port_sound(run: PortRun) -> bool {
    &&& run.session.wf()
    &&& run.taking is Some ==> port_seen(run.taking->0, run) && run.bridge.prepared is None
    &&& run.bridge.prepared is Some ==> port_seen(run.bridge.prepared->0.identity, run)
    &&& run.bridge.prepared is Some && !run.bridge.prepared->0.fresh
        ==> run.bridge.last_valid_playback == Some(run.bridge.prepared->0.identity)
    &&& run.bridge.last_valid_playback matches Some(id) ==> {
        &&& port_seen(id, run)
        &&& id.lifecycle_generation == run.session.lifecycle_generation && run.session.active
            == id.session_id ==> run.session.armed == id.session_id || run.session.outage
            == id.session_id
    }
}

proof fn lemma_port_event_keeps_soundness(run: PortRun, later: PortRun, event: PortEvent)
    requires
        port_sound(run),
        run.leads_to(later, event),
    ensures
        port_sound(later),
{
}

proof fn lemma_port_history_is_sound(runs: Seq<PortRun>, events: Seq<PortEvent>, k: int)
    requires
        port_history(runs, events),
        0 <= k <= events.len(),
    ensures
        port_sound(runs[k]),
        runs[k].session.armed != 0 <==> delivered(runs, events, k),
        runs[k].bridge.last_valid_playback is Some && !(runs[k].bridge.prepared is Some
            && runs[k].bridge.prepared->0.fresh) ==> last_mixed(runs, events, k) == Some(
            (runs[k].bridge.last_valid_playback->0, runs[k].bridge.scratch@),
        ),
    decreases k,
{
    if k > 0 {
        lemma_port_history_is_sound(runs, events, k - 1);
        assert(runs[k - 1].leads_to(runs[k], events[k - 1]));
        lemma_port_event_keeps_soundness(runs[k - 1], runs[k], events[k - 1]);
    }
}

/// Whatever happened before, a shared run whose block may be repeated is armed or in an outage.
pub proof fn a_repeatable_shared_run_is_marked(
    runs: Seq<PortRun>,
    events: Seq<PortEvent>,
    k: int,
)
    requires
        port_history(runs, events),
        0 <= k <= events.len(),
    ensures
        runs[k].marked_if_repeatable(),
{
    lemma_port_history_is_sound(runs, events, k);
}

/// Where the client of a port has no block for a period, the commit of that period adds the last
/// block that was taken and mixed, if repeating is asked for and that block comes from the same
/// run and may be repeated, and nothing otherwise.
pub proof fn a_missing_shared_block_is_repeated_or_left_out(
    runs: Seq<PortRun>,
    events: Seq<PortEvent>,
    k: int,
    sequence: u64,
    physical: Seq<i32>,
)
    requires
        port_history(runs, events),
        0 <= k < events.len() - 1,
        events[k] == (PortEvent::Finish { sequence, block: None }),
        events[k + 1] == (PortEvent::Commit { sequence, client_state: SHARED_CLIENT_RUNNING }),
        runs[k].taking->0.current(runs[k].session, runs[k].timeline.generation),
    ensures
        ({
            let run = runs[k];
            let id = run.taking->0;
            let frames = runs[k + 1].mixed(sequence, SHARED_CLIENT_RUNNING, physical);
            if run.bridge.repeat_on_underrun && run.bridge.last_valid_playback == Some(id) {
                &&& last_mixed(runs, events, k) is Some
                &&& (last_mixed(runs, events, k)->0).0 == id
                &&& frames == mixed_block(
                    run.bridge.port.model().channels,
                    (last_mixed(runs, events, k)->0).1,
                    run.bridge.physical_channels as int,
                    run.bridge.period_frames as int,
                    physical,
                )
                &&& runs[k + 2].bridge.last_valid_playback == Some(id)
            } else {
                frames == physical
            }
        }),
{
    lemma_port_history_is_sound(runs, events, k);
    assert(runs[k].leads_to(runs[k + 1], events[k]));
    assert(runs[k + 1].leads_to(runs[k + 2], events[k + 1]));
}

/// From event `j` on the run `id` of a port goes on up to event `k`: neither its session nor the
/// hardware is started anew, its client runs whenever it is asked, and what is prepared is mixed.
pub open spec fn port_goes_on(
    runs: Seq<PortRun>,
    events: Seq<PortEvent>,
    id: PlaybackIdentity,
    j: int,
    k: int,
) -> bool {
    &&& forall|i: int|
        j < i <= k ==> id.current(#[trigger] runs[i].session, runs[i].timeline.generation)
    &&& forall|i: int|
        #![trigger events[i]]
        j < i < k ==> match events[i] {
            PortEvent::Begin => runs[i].bridge.prepared is None,
            PortEvent::Continue { sequence, activated, client_state } => runs[i].bridge.activated(
                sequence,
                activated,
                client_state,
            ).1 is Consume,
            PortEvent::Commit { sequence, client_state } => runs[i].bridge.prepared is Some
                ==> runs[i].mixes(sequence, client_state),
            _ => true,
        }
}

proof fn lemma_shared_run_stays_repeatable(
    runs: Seq<PortRun>,
    events: Seq<PortEvent>,
    id: PlaybackIdentity,
    sequence: u64,
    client_state: u32,
    j: int,
    k: int,
)
    requires
        port_history(runs, events),
        0 <= j < k <= events.len(),
        events[j] == (PortEvent::Commit { sequence, client_state }),
        runs[j].mixes(sequence, client_state),
        runs[j].bridge.prepared->0.fresh,
        runs[j].bridge.prepared->0.identity == id,
        port_goes_on(runs, events, id, j, k),
    ensures
        runs[k].bridge.last_valid_playback == Some(id),
        runs[k].taking is Some ==> runs[k].taking->0 == id,
        runs[k].bridge.prepared is Some ==> runs[k].bridge.prepared->0.identity == id,
    decreases k,
{
    lemma_port_history_is_sound(runs, events, k - 1);
    lemma_port_history_is_sound(runs, events, k);
    assert(runs[k - 1].leads_to(runs[k], events[k - 1]));
    assert(id.current(runs[k].session, runs[k].timeline.generation));
    if k > j + 1 {
        assert(port_goes_on(runs, events, id, j, k - 1));
        lemma_shared_run_stays_repeatable(runs, events, id, sequence, client_state, j, k - 1);
        assert(id.current(runs[k - 1].session, runs[k - 1].timeline.generation));
    }
}

/// Once a block of a shared run was taken and mixed, and as long as the run goes on, a period in
/// which its client has no block adds the last block that was taken and mixed, where repeating is
/// asked for, however many periods in a row that are; without repeating it adds nothing.
pub proof fn every_missing_shared_block_repeats_the_last_one(
    runs: Seq<PortRun>,
    events: Seq<PortEvent>,
    id: PlaybackIdentity,
    mixed_sequence: u64,
    client_state: u32,
    j: int,
    k: int,
    sequence: u64,
    physical: Seq<i32>,
)
    requires
        port_history(runs, events),
        0 <= j < k < events.len() - 1,
        events[j] == (PortEvent::Commit { sequence: mixed_sequence, client_state }),
        runs[j].mixes(mixed_sequence, client_state),
        runs[j].bridge.prepared->0.fresh,
        runs[j].bridge.prepared->0.identity == id,
        port_goes_on(runs, events, id, j, k),
        events[k] == (PortEvent::Finish { sequence, block: None }),
        events[k + 1] == (PortEvent::Commit { sequence, client_state: SHARED_CLIENT_RUNNING }),
    ensures
        last_mixed(runs, events, k) is Some,
        (last_mixed(runs, events, k)->0).0 == id,
        runs[k + 1].mixed(sequence, SHARED_CLIENT_RUNNING, physical)
            == if runs[k].bridge.repeat_on_underrun {
            mixed_block(
                runs[k].bridge.port.model().channels,
                (last_mixed(runs, events, k)->0).1,
                runs[k].bridge.physical_channels as int,
                runs[k].bridge.period_frames as int,
                physical,
            )
        } else {
            physical
        },
        runs[k + 2].bridge.last_valid_playback == Some(id),
{
    lemma_port_history_is_sound(runs, events, k);
    assert(runs[k].leads_to(runs[k + 1], events[k]));
    assert(runs[k + 1].leads_to(runs[k + 2], events[k + 1]));
    lemma_shared_run_stays_repeatable(runs, events, id, mixed_sequence, client_state, j, k);
    assert(id.current(runs[k].session, runs[k].timeline.generation));
}

/// A period without a block is one more shared underrun if and only if a block was taken and mixed
/// since the last missed block or start, so that an outage counts once. Nothing else is counted:
/// no PRO miss, no XRUN, no reset.
pub proof fn a_shared_underrun_follows_a_delivered_block(
    runs: Seq<PortRun>,
    events: Seq<PortEvent>,
    k: int,
    sequence: u64,
    block: Option<Seq<i32>>,
)
    requires
        port_history(runs, events),
        0 <= k < events.len(),
        events[k] == (PortEvent::Finish { sequence, block }),
    ensures
        runs[k + 1].timeline == if block is None && runs[k].taking->0.current(
            runs[k].session,
            runs[k].timeline.generation,
        ) && delivered(runs, events, k) {
            runs[k].timeline.with_shared_underrun()
        } else {
            runs[k].timeline
        },
        crate::timeline::same_hardware_history(runs[k].timeline, runs[k + 1].timeline),
        runs[k + 1].timeline.pro_deadline_misses == runs[k].timeline.pro_deadline_misses,
        runs[k + 1].timeline.pro_client_deadline_misses
            == runs[k].timeline.pro_client_deadline_misses,
        runs[k + 1].timeline.pro_core_deadline_misses
            == runs[k].timeline.pro_core_deadline_misses,
{
    lemma_port_history_is_sound(runs, events, k);
    assert(runs[k].leads_to(runs[k + 1], events[k]));
}

} // verus!
