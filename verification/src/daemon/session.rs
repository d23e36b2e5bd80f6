//! One client session slot of the daemon.
//!
//! A slot has at most one owner. An owner may start and stop; while it is active its output counts.
//! The epoch of the playback output changes exactly when active output is taken away.
use vstd::prelude::*;
use crate::sequence::sequence_before;

verus! {

/// The owner of a slot that is being closed.
pub const SESSION_CLOSING: u64 = 0xffff_ffff_ffff_ffff;

/// What a session's regions are made for.
#[derive(Clone, Copy, Debug, PartialEq, Eq, Structural)]
pub struct SessionGeometry {
    pub period_frames: u32,
    pub playback_channels: u32,
    pub capture_channels: u32,
    pub slot_count: u32,
}

/// A session slot.
#[derive(Clone, Copy, Debug, PartialEq, Eq, Structural)]
pub struct SessionState {
    /// The session that holds the slot; zero when nobody does.
    pub owner: u64,
    /// The session whose audio counts; zero when none does.
    pub active: u64,
    /// Counts the starts.
    pub lifecycle_generation: u64,
    /// The hardware generation in which the session was started.
    pub lifecycle_hardware_generation: u64,
    /// The session whose misses count.
    pub armed: u64,
    /// The session that is missing its output at the moment.
    pub outage: u64,
    pub warmup_blocks: u64,
    /// The session that the current region was made for.
    pub endpoint_session: u64,
    /// Whether the slot has playback output.
    pub plays: bool,
    pub geometry: SessionGeometry,
}

/// Regions to be made for a session that was admitted.
#[derive(Clone, Copy, Debug, PartialEq, Eq, Structural)]
pub struct OpenRequest {
    pub session_id: u64,
    /// The hardware generation that the region starts with.
    pub hardware_generation: u64,
    pub geometry: SessionGeometry,
}

impl SessionState {
    /// A free slot.
    pub open spec fn fresh(plays: bool, geometry: SessionGeometry) -> SessionState {
        SessionState {
            owner: 0,
            active: 0,
            lifecycle_generation: 0,
            lifecycle_hardware_generation: 0,
            armed: 0,
            outage: 0,
            warmup_blocks: 0,
            endpoint_session: 0,
            plays,
            geometry,
        }
    }

    /// Nobody is active in a slot that nobody owns, the owner alone can be active and only with a
    /// region of its own, and only the active session is armed or in an outage.
    pub open spec fn wf(self) -> bool {
        &&& self.owner != SESSION_CLOSING
        &&& self.active == 0 || (self.active == self.owner && self.endpoint_session
            == self.active)
        &&& self.armed == 0 || self.armed == self.active
        &&& self.outage == 0 || self.outage == self.active
    }

    /// The slot with nothing armed and no outage.
    pub open spec fn disarmed(self) -> SessionState {
        SessionState { armed: 0, outage: 0, warmup_blocks: 0, ..self }
    }

    /// The epoch after output of this slot was taken away.
    pub open spec fn bumped(self, epoch: u64) -> u64 {
        if self.plays {
            epoch.wrapping_add(1)
        } else {
            epoch
        }
    }

    /// Whether `session_id` can be started now.
    pub open spec fn startable(self, session_id: u64) -> bool {
        self.owner == session_id && self.active == 0 && self.endpoint_session == session_id
    }

    /// The slot after `session_id` was started in `hardware_generation`.
    pub open spec fn started(self, session_id: u64, hardware_generation: u64) -> SessionState {
        SessionState {
            active: session_id,
            lifecycle_generation: self.lifecycle_generation.wrapping_add(1),
            lifecycle_hardware_generation: hardware_generation,
            ..self.disarmed()
        }
    }

    /// The slot after the active session was stopped.
    pub open spec fn stopped(self) -> SessionState {
        SessionState { active: 0, ..self.disarmed() }
    }

    /// The slot after its owner left.
    pub open spec fn closed(self) -> SessionState {
        SessionState { owner: 0, ..self.stopped() }
    }

    pub fn new(plays: bool, geometry: SessionGeometry) -> (session: Self)
        ensures
            session == SessionState::fresh(plays, geometry),
            session.wf(),
    {
        SessionState {
            owner: 0,
            active: 0,
            lifecycle_generation: 0,
            lifecycle_hardware_generation: 0,
            armed: 0,
            outage: 0,
            warmup_blocks: 0,
            endpoint_session: 0,
            plays,
            geometry,
        }
    }

    /// Admits `session_id` to a free slot.
    pub fn claim(&mut self, session_id: u64) -> (admitted: bool)
        requires
            old(self).wf(),
            0 < session_id < SESSION_CLOSING,
        ensures
            final(self).wf(),
            admitted == (old(self).owner == 0),
            *final(self) == if admitted {
                SessionState { owner: session_id, ..*old(self) }
            } else {
                *old(self)
            },
    {
        if self.owner != 0 {
            return false;
        }
        self.owner = session_id;
        true
    }

    /// Admits `session_id` to a free slot and says which regions to make, with its own channel
    /// counts.
    pub fn try_open_layout(
        &mut self,
        session_id: u64,
        hardware_generation: u64,
        playback_channels: u32,
        capture_channels: u32,
    ) -> (request: Option<OpenRequest>)
        requires
            old(self).wf(),
            0 < session_id < SESSION_CLOSING,
        ensures
            final(self).wf(),
            match request {
                Some(opening) => {
                    &&& old(self).owner == 0
                    &&& *final(self) == SessionState { owner: session_id, ..*old(self) }
                    &&& opening == OpenRequest {
                        session_id,
                        hardware_generation,
                        geometry: SessionGeometry {
                            playback_channels,
                            capture_channels,
                            ..old(self).geometry
                        },
                    }
                },
                None => old(self).owner != 0 && *final(self) == *old(self),
            },
    {
        if !self.claim(session_id) {
            return None;
        }
        Some(
            OpenRequest {
                session_id,
                hardware_generation,
                geometry: SessionGeometry {
                    playback_channels,
                    capture_channels,
                    ..self.geometry
                },
            },
        )
    }

    /// Admits `session_id` with the channel counts of the slot.
    pub fn try_open(&mut self, session_id: u64, hardware_generation: u64) -> (request: Option<
        OpenRequest,
    >)
        requires
            old(self).wf(),
            0 < session_id < SESSION_CLOSING,
        ensures
            final(self).wf(),
            match request {
                Some(opening) => {
                    &&& old(self).owner == 0
                    &&& *final(self) == SessionState { owner: session_id, ..*old(self) }
                    &&& opening == OpenRequest {
                        session_id,
                        hardware_generation,
                        geometry: old(self).geometry,
                    }
                },
                None => old(self).owner != 0 && *final(self) == *old(self),
            },
    {
        self.try_open_layout(
            session_id,
            hardware_generation,
            self.geometry.playback_channels,
            self.geometry.capture_channels,
        )
    }

    /// Ends an admission: the regions stand, or the slot is free again.
    pub fn finish_open(&mut self, session_id: u64, created: bool)
        requires
            old(self).wf(),
            old(self).owner == session_id,
            old(self).active == 0,
        ensures
            final(self).wf(),
            *final(self) == if created {
                SessionState { endpoint_session: session_id, ..*old(self) }
            } else {
                SessionState { owner: 0, ..*old(self) }
            },
    {
        if created {
            self.endpoint_session = session_id;
        } else {
            self.owner = 0;
        }
    }

    /// Starts the owner. Its region is to be reset, and to carry the new lifecycle generation and
    /// the hardware generation.
    pub fn start(&mut self, session_id: u64, hardware_generation: u64) -> (started: bool)
        requires
            old(self).wf(),
            session_id != 0,
        ensures
            final(self).wf(),
            started == old(self).startable(session_id),
            *final(self) == if started {
                old(self).started(session_id, hardware_generation)
            } else {
                *old(self)
            },
    {
        if self.owner != session_id || self.active != 0 || self.endpoint_session != session_id {
            return false;
        }
        self.lifecycle_generation = self.lifecycle_generation.wrapping_add(1);
        self.lifecycle_hardware_generation = hardware_generation;
        self.active = session_id;
        self.disarm();
        true
    }

    fn disarm(&mut self)
        ensures
            *final(self) == old(self).disarmed(),
    {
        self.armed = 0;
        self.outage = 0;
        self.warmup_blocks = 0;
    }

    fn bump_playback_epoch(&self, epoch: &mut u64)
        ensures
            *final(epoch) == self.bumped(*old(epoch)),
    {
        if self.plays {
            *epoch = epoch.wrapping_add(1);
        }
    }

    /// Stops the active session.
    pub fn stop(&mut self, session_id: u64, epoch: &mut u64) -> (stopped: bool)
        requires
            old(self).wf(),
            session_id != 0,
        ensures
            final(self).wf(),
            stopped == (old(self).active == session_id),
            *final(self) == if stopped {
                old(self).stopped()
            } else {
                *old(self)
            },
            *final(epoch) == if stopped {
                old(self).bumped(*old(epoch))
            } else {
                *old(epoch)
            },
    {
        if self.active != session_id {
            return false;
        }
        self.disarm();
        self.active = 0;
        self.bump_playback_epoch(epoch);
        true
    }

    /// Lets the owner go, stopping it first.
    pub fn close(&mut self, session_id: u64, epoch: &mut u64) -> (closed: bool)
        requires
            old(self).wf(),
            0 < session_id < SESSION_CLOSING,
        ensures
            final(self).wf(),
            closed == (old(self).owner == session_id),
            *final(self) == if closed {
                old(self).closed()
            } else {
                *old(self)
            },
            *final(epoch) == if closed && old(self).active == session_id {
                old(self).bumped(*old(epoch))
            } else {
                *old(epoch)
            },
    {
        if self.owner != session_id {
            return false;
        }
        if self.active == session_id {
            self.active = 0;
            self.bump_playback_epoch(epoch);
        }
        self.disarm();
        self.owner = 0;
        true
    }
}

/// Commits of playback, as counts of those begun and those ended.
#[derive(Clone, Copy, Debug, PartialEq, Eq, Structural)]
pub struct PlaybackCommitBarrier {
    pub started: u64,
    pub completed: u64,
}

impl PlaybackCommitBarrier {
    pub fn new() -> (barrier: Self)
        ensures
            barrier == (PlaybackCommitBarrier { started: 0, completed: 0 }),
    {
        PlaybackCommitBarrier { started: 0, completed: 0 }
    }

    pub fn begin(&mut self)
        ensures
            *final(self) == (PlaybackCommitBarrier {
                started: old(self).started.wrapping_add(1),
                ..*old(self)
            }),
    {
        self.started = self.started.wrapping_add(1);
    }

    pub fn end(&mut self)
        ensures
            *final(self) == (PlaybackCommitBarrier {
                completed: old(self).completed.wrapping_add(1),
                ..*old(self)
            }),
    {
        self.completed = self.completed.wrapping_add(1);
    }

    /// The count that has to be reached before every commit begun by now has ended.
    pub fn preexisting(&self) -> (target: u64)
        ensures
            target == self.started,
    {
        self.started
    }

    /// Whether commits up to `target` are still under way.
    pub fn waits_for(&self, target: u64) -> (waits: bool)
        ensures
            waits == crate::sequence::precedes(self.completed, target),
    {
        sequence_before(self.completed, target)
    }
}

/// Teardown waits for the commit that is under way and for no later one: once that commit has
/// ended, commits begun since do not extend the wait.
pub proof fn later_commits_do_not_extend_the_wait(barrier: PlaybackCommitBarrier)
    requires
        barrier.started == barrier.completed.wrapping_add(1),
    ensures
        crate::sequence::precedes(barrier.completed, barrier.started),
        !crate::sequence::precedes(barrier.completed.wrapping_add(1), barrier.started),
{
}

/// What a slot has missed, and what its earlier clients reported.
#[derive(Clone, Copy, Debug, PartialEq, Eq, Structural)]
pub struct PlaybackDiagnostics {
    pub underruns: u64,
    pub last_underrun_sequence: u64,
    pub last_underrun_nanos: u64,
    pub last_sequence_lag_periods: u64,
    pub max_sequence_lag_periods: u64,
    pub expired_playback_periods: u64,
    pub playback_submit_failures: u64,
    pub playback_xruns: u64,
}

/// Counters that a client keeps in its region.
#[derive(Clone, Copy, Debug, PartialEq, Eq, Structural)]
pub struct ClientPlaybackDiagnostics {
    pub expired_playback_periods: u64,
    pub playback_submit_failures: u64,
    pub playback_xruns: u64,
}

impl PlaybackDiagnostics {
    /// Nothing was counted.
    pub open spec fn nothing() -> PlaybackDiagnostics {
        PlaybackDiagnostics {
            underruns: 0,
            last_underrun_sequence: 0,
            last_underrun_nanos: 0,
            last_sequence_lag_periods: 0,
            max_sequence_lag_periods: 0,
            expired_playback_periods: 0,
            playback_submit_failures: 0,
            playback_xruns: 0,
        }
    }

    /// The record after the counters of a client were added.
    pub open spec fn with_client(self, client: ClientPlaybackDiagnostics) -> PlaybackDiagnostics {
        PlaybackDiagnostics {
            expired_playback_periods: self.expired_playback_periods.wrapping_add(
                client.expired_playback_periods,
            ),
            playback_submit_failures: self.playback_submit_failures.wrapping_add(
                client.playback_submit_failures,
            ),
            playback_xruns: self.playback_xruns.wrapping_add(client.playback_xruns),
            ..self
        }
    }

    /// The record after a miss at `nanos`.
    pub open spec fn with_miss(
        self,
        sequence: u64,
        sequence_lag_periods: u64,
        starts_outage: bool,
        nanos: u64,
    ) -> PlaybackDiagnostics {
        PlaybackDiagnostics {
            underruns: if starts_outage {
                self.underruns.wrapping_add(1)
            } else {
                self.underruns
            },
            last_underrun_sequence: sequence,
            last_underrun_nanos: nanos,
            last_sequence_lag_periods: sequence_lag_periods,
            max_sequence_lag_periods: crate::timeline::maximum(
                self.max_sequence_lag_periods,
                sequence_lag_periods,
            ),
            ..self
        }
    }

    pub fn new() -> (diagnostics: Self)
        ensures
            diagnostics == PlaybackDiagnostics::nothing(),
    {
        PlaybackDiagnostics {
            underruns: 0,
            last_underrun_sequence: 0,
            last_underrun_nanos: 0,
            last_sequence_lag_periods: 0,
            max_sequence_lag_periods: 0,
            expired_playback_periods: 0,
            playback_submit_failures: 0,
            playback_xruns: 0,
        }
    }

    /// Keeps the counters of a client whose region is replaced.
    pub fn retire(&mut self, client: ClientPlaybackDiagnostics)
        ensures
            *final(self) == old(self).with_client(client),
    {
        self.expired_playback_periods =
        self.expired_playback_periods.wrapping_add(client.expired_playback_periods);
        self.playback_submit_failures =
        self.playback_submit_failures.wrapping_add(client.playback_submit_failures);
        self.playback_xruns = self.playback_xruns.wrapping_add(client.playback_xruns);
    }

    /// What is reported while a client has the given counters.
    pub fn playback_diagnostics(&self, current: ClientPlaybackDiagnostics) -> (report: Self)
        ensures
            report == self.with_client(current),
    {
        let mut report = *self;
        report.retire(current);
        report
    }

    /// Notes a missed period. Only the first miss of an outage counts as an underrun.
    pub fn record_playback_miss(
        &mut self,
        sequence: u64,
        sequence_lag_periods: u64,
        starts_outage: bool,
        nanos: u64,
    )
        ensures
            *final(self) == old(self).with_miss(
                sequence,
                sequence_lag_periods,
                starts_outage,
                nanos,
            ),
    {
        self.last_underrun_sequence = sequence;
        self.last_underrun_nanos = nanos;
        self.last_sequence_lag_periods = sequence_lag_periods;
        if sequence_lag_periods > self.max_sequence_lag_periods {
            self.max_sequence_lag_periods = sequence_lag_periods;
        }
        if starts_outage {
            self.underruns = self.underruns.wrapping_add(1);
        }
    }
}

/// Stopping and closing leave nothing armed, no outage and nobody active, and closing leaves
/// nobody owning.
pub proof fn stopping_clears_everything(session: SessionState)
    ensures
        session.stopped().active == 0,
        session.stopped().armed == 0,
        session.stopped().outage == 0,
        session.stopped().warmup_blocks == 0,
        session.closed() == (SessionState { owner: 0, ..session.stopped() }),
        session.stopped().lifecycle_generation == session.lifecycle_generation,
{
}

/// A session that is started again is a new one to everybody who remembers the old: its lifecycle
/// generation differs.
pub proof fn every_start_is_a_new_lifecycle(
    session: SessionState,
    session_id: u64,
    hardware_generation: u64,
)
    ensures
        session.started(session_id, hardware_generation).lifecycle_generation
            != session.lifecycle_generation,
        session.started(session_id, hardware_generation).armed == 0,
        session.started(session_id, hardware_generation).outage == 0,
{
}

/// A session runs from its start to its stop: only the owner of a free slot with a region of its
/// own can be started, a started session is the active one in the hardware generation that it was
/// started in, and stopping it brings back the slot as it was, so that its owner can be started
/// again and nobody else can.
pub proof fn a_session_runs_from_start_to_stop(
    session: SessionState,
    session_id: u64,
    other: u64,
    hardware_generation: u64,
)
    requires
        session.wf(),
        session_id != 0,
        other != session_id,
        session.startable(session_id),
    ensures
        session.owner == session_id,
        session.active == 0,
        session.endpoint_session == session_id,
        !session.startable(other),
        ({
            let running = session.started(session_id, hardware_generation);
            &&& running.active == session_id
            &&& running.owner == session_id
            &&& running.endpoint_session == session_id
            &&& running.lifecycle_hardware_generation == hardware_generation
            &&& running.warmup_blocks == 0
            &&& running.plays == session.plays
            &&& running.geometry == session.geometry
            &&& session.lifecycle_generation < u64::MAX ==> running.lifecycle_generation
                == session.lifecycle_generation + 1
            &&& !running.startable(session_id)
            &&& !running.startable(other)
            &&& running.stopped().startable(session_id)
            &&& !running.stopped().startable(other)
            &&& running.stopped() == SessionState {
                lifecycle_generation: running.lifecycle_generation,
                lifecycle_hardware_generation: hardware_generation,
                armed: 0,
                outage: 0,
                warmup_blocks: 0,
                ..session
            }
            &&& running.closed().owner == 0
            &&& !running.closed().startable(session_id)
            &&& !running.closed().startable(other) || other == 0
        }),
{
}

/// An owner with a region of its own whose session does not run can always be started.
pub proof fn an_idle_owner_can_be_started(session: SessionState)
    requires
        session.owner != 0,
        session.active == 0,
        session.endpoint_session == session.owner,
    ensures
        session.startable(session.owner),
{
}

/// Output that is taken away is told to everybody by a new epoch, and a slot without output tells
/// nothing.
pub proof fn only_lost_output_moves_the_epoch(session: SessionState, epoch: u64)
    ensures
        session.plays ==> session.bumped(epoch) != epoch,
        session.plays && epoch < u64::MAX ==> session.bumped(epoch) == epoch + 1,
        !session.plays ==> session.bumped(epoch) == epoch,
{
}

/// The commit barrier waits for exactly the commits that were under way: as long as fewer have
/// ended than had begun, and no longer.
pub proof fn the_barrier_waits_for_those_begun(completed: u64, target: u64)
    requires
        target - completed < 0x8000_0000_0000_0000,
        completed - target < 0x8000_0000_0000_0000,
    ensures
        crate::sequence::precedes(completed, target) <==> completed < target,
{
}

/// A miss is noted where it happened: the sequence, the time and the lag are those of the last
/// miss, the largest lag is the largest of all, and an underrun is counted for the first miss of an
/// outage alone. Nothing that clients count is touched.
pub proof fn a_miss_is_noted_once_for_an_outage(
    diagnostics: PlaybackDiagnostics,
    sequence: u64,
    lag: u64,
    starts_outage: bool,
    nanos: u64,
)
    ensures
        ({
            let after = diagnostics.with_miss(sequence, lag, starts_outage, nanos);
            &&& after.last_underrun_sequence == sequence
            &&& after.last_underrun_nanos == nanos
            &&& after.last_sequence_lag_periods == lag
            &&& after.max_sequence_lag_periods >= lag
            &&& after.max_sequence_lag_periods >= diagnostics.max_sequence_lag_periods
            &&& after.max_sequence_lag_periods == lag || after.max_sequence_lag_periods
                == diagnostics.max_sequence_lag_periods
            &&& starts_outage && diagnostics.underruns < u64::MAX ==> after.underruns
                == diagnostics.underruns + 1
            &&& !starts_outage ==> after.underruns == diagnostics.underruns
            &&& after.expired_playback_periods == diagnostics.expired_playback_periods
            &&& after.playback_submit_failures == diagnostics.playback_submit_failures
            &&& after.playback_xruns == diagnostics.playback_xruns
        }),
{
}

/// What a client counted is added to what its predecessors counted, each counter to its own, and
/// no miss is touched. The order in which clients leave does not matter.
pub proof fn clients_are_added_up(
    diagnostics: PlaybackDiagnostics,
    client: ClientPlaybackDiagnostics,
    next: ClientPlaybackDiagnostics,
)
    requires
        diagnostics.expired_playback_periods + client.expired_playback_periods
            + next.expired_playback_periods <= u64::MAX,
        diagnostics.playback_submit_failures + client.playback_submit_failures
            + next.playback_submit_failures <= u64::MAX,
        diagnostics.playback_xruns + client.playback_xruns + next.playback_xruns <= u64::MAX,
    ensures
        ({
            let after = diagnostics.with_client(client).with_client(next);
            &&& after.expired_playback_periods == diagnostics.expired_playback_periods
                + client.expired_playback_periods + next.expired_playback_periods
            &&& after.playback_submit_failures == diagnostics.playback_submit_failures
                + client.playback_submit_failures + next.playback_submit_failures
            &&& after.playback_xruns == diagnostics.playback_xruns + client.playback_xruns
                + next.playback_xruns
            &&& after == diagnostics.with_client(next).with_client(client)
            &&& after.underruns == diagnostics.underruns
            &&& after.last_underrun_sequence == diagnostics.last_underrun_sequence
            &&& after.last_underrun_nanos == diagnostics.last_underrun_nanos
            &&& after.last_sequence_lag_periods == diagnostics.last_sequence_lag_periods
            &&& after.max_sequence_lag_periods == diagnostics.max_sequence_lag_periods
        }),
{
}

/// A free slot has no owner and no active session, and nothing has happened in it.
pub proof fn a_free_slot_is_empty(plays: bool, geometry: SessionGeometry)
    ensures
        ({
            let slot = SessionState::fresh(plays, geometry);
            &&& slot.owner == 0
            &&& slot.active == 0
            &&& slot.lifecycle_generation == 0
            &&& slot.lifecycle_hardware_generation == 0
            &&& slot.armed == 0
            &&& slot.outage == 0
            &&& slot.warmup_blocks == 0
            &&& slot.endpoint_session == 0
            &&& slot.plays == plays
            &&& slot.geometry == geometry
        }),
{
}

} // verus!
