//! Waiting for the PRO client's block, up to the cutoff of a period.
use vstd::prelude::*;
use crate::daemon::playback::{ClientView, DaemonPlaybackBridge, WaitTiming};
use crate::daemon::port::PlaybackIdentity;
use crate::daemon::session::SessionState;
use crate::error::EINTR;
use crate::protocol::shared::{SHARED_CLIENT_IDLE, SHARED_CLIENT_STARTING};
use crate::timeline::HardwareTimeline;

verus! {

/// How often an event descriptor is tried when a signal interrupts it.
pub const EVENTFD_IO_ATTEMPTS: usize = 2;

const NANOS_PER_SECOND: u64 = 1_000_000_000;

/// How a wait for the client's signal ended.
#[derive(Clone, Copy, Debug, PartialEq, Eq, Structural)]
pub enum PlaybackReadyWait {
    Ready,
    Timeout,
    Interrupted,
    Failed,
}

/// What a poll says of one descriptor.
#[derive(Clone, Copy, Debug, PartialEq, Eq, Structural)]
pub struct DescriptorEvents {
    pub readable: bool,
    /// It is in error, hung up or invalid.
    pub failed: bool,
}

/// Whether an event descriptor is tried again after `attempts` tries, the last of which failed with
/// `errno`.
pub fn retries_event_io(attempts: usize, errno: Option<i32>) -> (again: bool)
    ensures
        again == (attempts < EVENTFD_IO_ATTEMPTS && errno == Some(EINTR)),
{
    match errno {
        Some(code) => attempts < EVENTFD_IO_ATTEMPTS && code == EINTR,
        None => false,
    }
}

/// The deadline of the timer, in seconds and nanoseconds. A deadline of zero would disarm the
/// timer, so it is the first nanosecond at the earliest.
pub fn playback_deadline(cutoff_nanos: u64) -> (deadline: (i64, i64))
    ensures
        deadline.0 * 1_000_000_000 + deadline.1 == if cutoff_nanos == 0 {
            1
        } else {
            cutoff_nanos as int
        },
        0 <= deadline.0,
        0 <= deadline.1 < 1_000_000_000,
{
    let nanos: u64 = if cutoff_nanos == 0 {
        1
    } else {
        cutoff_nanos
    };
    ((nanos / NANOS_PER_SECOND) as i64, (nanos % NANOS_PER_SECOND) as i64)
}

/// How a poll of the client's signal and of the deadline ended; `polled` is what the poll said of
/// the two, or the error it failed with.
pub fn ready_wait_outcome(
    polled: Result<(DescriptorEvents, DescriptorEvents), Option<i32>>,
) -> (outcome: PlaybackReadyWait)
    ensures
        outcome == match polled {
            Err(errno) => if errno == Some(EINTR) {
                PlaybackReadyWait::Interrupted
            } else {
                PlaybackReadyWait::Failed
            },
            Ok((signal, deadline)) => if signal.failed || deadline.failed {
                PlaybackReadyWait::Failed
            } else if signal.readable {
                PlaybackReadyWait::Ready
            } else if deadline.readable {
                PlaybackReadyWait::Timeout
            } else {
                PlaybackReadyWait::Failed
            },
        },
{
    match polled {
        Err(Some(code)) => if code == EINTR {
            PlaybackReadyWait::Interrupted
        } else {
            PlaybackReadyWait::Failed
        },
        Err(None) => PlaybackReadyWait::Failed,
        Ok((signal, deadline)) => if signal.failed || deadline.failed {
            PlaybackReadyWait::Failed
        } else if signal.readable {
            PlaybackReadyWait::Ready
        } else if deadline.readable {
            PlaybackReadyWait::Timeout
        } else {
            PlaybackReadyWait::Failed
        },
    }
}

/// Where a wait stands.
#[derive(Clone, Copy, Debug, PartialEq, Eq, Structural)]
pub enum WaitPhase {
    Checking,
    Draining,
    Rechecking,
    Budgeting,
    Waiting,
    Finished,
}

/// What a wait asks for.
#[derive(Clone, Copy, Debug, PartialEq, Eq, Structural)]
pub enum WaitAction {
    /// Look at the session and at the region.
    Observe,
    /// Take back earlier signals of the client.
    Drain,
    ReadClock,
    /// Wait for the client's signal up to the cutoff.
    Wait(u64),
    Finish,
}

/// What has happened.
#[derive(Clone, Copy, Debug, PartialEq, Eq, Structural)]
pub enum WaitEvent {
    Observed { session: SessionState, hardware_generation: u64, client: ClientView },
    Drained,
    Now(u64),
    Waited(PlaybackReadyWait),
}

/// A wait for the block of a period.
#[derive(Clone, Copy, Debug, PartialEq, Eq, Structural)]
pub struct PlaybackWait {
    pub session_id: u64,
    pub hardware_generation: u64,
    pub sequence: u64,
    pub cutoff_nanos: u64,
    pub phase: WaitPhase,
    /// The wait itself failed.
    pub core_miss: bool,
}

/// Whether a client that is starting has been activated at the period itself, so that no block can
/// be due yet.
pub open spec fn starts_at(client: ClientView, sequence: u64) -> bool {
    client.client_state == SHARED_CLIENT_STARTING && client.start_sequence == sequence
}

/// Whether a block may come for the period at all.
pub open spec fn worth_waiting(
    session: SessionState,
    hardware_generation: u64,
    client: ClientView,
    sequence: u64,
) -> bool {
    &&& session.active != 0
    &&& session.endpoint_session == session.active
    &&& client.activation_ready
    &&& client.client_state != SHARED_CLIENT_IDLE
    &&& !starts_at(client, sequence)
    &&& session.lifecycle_hardware_generation == hardware_generation
}

impl PlaybackWait {
    /// Whether what was seen ends the wait.
    pub open spec fn settled(
        self,
        session: SessionState,
        hardware_generation: u64,
        client: ClientView,
    ) -> bool {
        ||| session.active != self.session_id
        ||| client.client_state == SHARED_CLIENT_IDLE
        ||| starts_at(client, self.sequence)
        ||| hardware_generation != self.hardware_generation
        ||| session.lifecycle_hardware_generation != self.hardware_generation
        ||| client.block_ready
    }

    pub open spec fn at(self, phase: WaitPhase) -> PlaybackWait {
        PlaybackWait { phase, ..self }
    }

    /// The wait after an event; an event that was not asked for changes nothing.
    pub open spec fn next(self, event: WaitEvent) -> PlaybackWait {
        match (self.phase, event) {
            (
                WaitPhase::Checking,
                WaitEvent::Observed { session, hardware_generation, client },
            ) => if self.settled(session, hardware_generation, client) {
                self.at(WaitPhase::Finished)
            } else {
                self.at(WaitPhase::Draining)
            },
            (WaitPhase::Draining, WaitEvent::Drained) => self.at(WaitPhase::Rechecking),
            (
                WaitPhase::Rechecking,
                WaitEvent::Observed { session, hardware_generation, client },
            ) => if self.settled(session, hardware_generation, client) {
                self.at(WaitPhase::Finished)
            } else {
                self.at(WaitPhase::Budgeting)
            },
            (WaitPhase::Budgeting, WaitEvent::Now(now)) => if now >= self.cutoff_nanos {
                self.at(WaitPhase::Finished)
            } else {
                self.at(WaitPhase::Waiting)
            },
            (WaitPhase::Waiting, WaitEvent::Waited(outcome)) => match outcome {
                PlaybackReadyWait::Ready => self.at(WaitPhase::Checking),
                PlaybackReadyWait::Interrupted => self.at(WaitPhase::Checking),
                PlaybackReadyWait::Timeout => self.at(WaitPhase::Finished),
                PlaybackReadyWait::Failed => PlaybackWait {
                    phase: WaitPhase::Finished,
                    core_miss: true,
                    ..self
                },
            },
            _ => self,
        }
    }

    /// What is to be done next.
    pub fn action(&self) -> (action: WaitAction)
        ensures
            action == match self.phase {
                WaitPhase::Checking => WaitAction::Observe,
                WaitPhase::Draining => WaitAction::Drain,
                WaitPhase::Rechecking => WaitAction::Observe,
                WaitPhase::Budgeting => WaitAction::ReadClock,
                WaitPhase::Waiting => WaitAction::Wait(self.cutoff_nanos),
                WaitPhase::Finished => WaitAction::Finish,
            },
    {
        match self.phase {
            WaitPhase::Checking => WaitAction::Observe,
            WaitPhase::Draining => WaitAction::Drain,
            WaitPhase::Rechecking => WaitAction::Observe,
            WaitPhase::Budgeting => WaitAction::ReadClock,
            WaitPhase::Waiting => WaitAction::Wait(self.cutoff_nanos),
            WaitPhase::Finished => WaitAction::Finish,
        }
    }

    fn is_settled(
        &self,
        session: &SessionState,
        hardware_generation: u64,
        client: &ClientView,
    ) -> (settled: bool)
        ensures
            settled == self.settled(*session, hardware_generation, *client),
    {
        session.active != self.session_id || client.client_state == SHARED_CLIENT_IDLE || (
        client.client_state == SHARED_CLIENT_STARTING && client.start_sequence == self.sequence)
            || hardware_generation != self.hardware_generation
            || session.lifecycle_hardware_generation != self.hardware_generation
            || client.block_ready
    }

    /// Goes on after an event.
    pub fn step(&mut self, event: WaitEvent)
        ensures
            *final(self) == old(self).next(event),
    {
        match (self.phase, event) {
            (
                WaitPhase::Checking,
                WaitEvent::Observed { session, hardware_generation, client },
            ) => {
                self.phase = if self.is_settled(&session, hardware_generation, &client) {
                    WaitPhase::Finished
                } else {
                    WaitPhase::Draining
                };
            },
            (WaitPhase::Draining, WaitEvent::Drained) => {
                self.phase = WaitPhase::Rechecking;
            },
            (
                WaitPhase::Rechecking,
                WaitEvent::Observed { session, hardware_generation, client },
            ) => {
                self.phase = if self.is_settled(&session, hardware_generation, &client) {
                    WaitPhase::Finished
                } else {
                    WaitPhase::Budgeting
                };
            },
            (WaitPhase::Budgeting, WaitEvent::Now(now)) => {
                self.phase = if now >= self.cutoff_nanos {
                    WaitPhase::Finished
                } else {
                    WaitPhase::Waiting
                };
            },
            (WaitPhase::Waiting, WaitEvent::Waited(outcome)) => {
                match outcome {
                    PlaybackReadyWait::Ready | PlaybackReadyWait::Interrupted => {
                        self.phase = WaitPhase::Checking;
                    },
                    PlaybackReadyWait::Timeout => {
                        self.phase = WaitPhase::Finished;
                    },
                    PlaybackReadyWait::Failed => {
                        self.phase = WaitPhase::Finished;
                        self.core_miss = true;
                    },
                }
            },
            _ => {},
        }
    }
}

impl DaemonPlaybackBridge {
    /// Begins to wait for the block of a period, where one may come. `now` is the time, where
    /// waits are recorded.
    pub fn begin_wait(
        &mut self,
        session: &SessionState,
        sequence: u64,
        cutoff_nanos: u64,
        hardware_generation: u64,
        now: Option<u64>,
        client: ClientView,
    ) -> (wait: Option<PlaybackWait>)
        ensures
            *final(self) == (DaemonPlaybackBridge {
                wait_timing: match now {
                    Some(nanos) => Some(
                        WaitTiming {
                            identity: crate::daemon::playback::identity_of(
                                *session,
                                hardware_generation,
                            ),
                            sequence,
                            cutoff_nanos,
                            budget_nanos: if cutoff_nanos > nanos {
                                (cutoff_nanos - nanos) as u64
                            } else {
                                0
                            },
                        },
                    ),
                    None => None,
                },
                ..*old(self)
            }),
            wait == if worth_waiting(*session, hardware_generation, client, sequence) {
                Some(
                    PlaybackWait {
                        session_id: session.active,
                        hardware_generation,
                        sequence,
                        cutoff_nanos,
                        phase: WaitPhase::Checking,
                        core_miss: false,
                    },
                )
            } else {
                None
            },
    {
        self.wait_timing = match now {
            Some(nanos) => Some(
                WaitTiming {
                    identity: PlaybackIdentity {
                        session_id: session.active,
                        lifecycle_generation: session.lifecycle_generation,
                        hardware_generation,
                    },
                    sequence,
                    cutoff_nanos,
                    budget_nanos: if cutoff_nanos > nanos {
                        cutoff_nanos - nanos
                    } else {
                        0
                    },
                },
            ),
            None => None,
        };
        if session.active == 0 || session.endpoint_session != session.active
            || !client.activation_ready || client.client_state == SHARED_CLIENT_IDLE || (
        client.client_state == SHARED_CLIENT_STARTING && client.start_sequence == sequence)
            || session.lifecycle_hardware_generation != hardware_generation {
            return None;
        }
        Some(
            PlaybackWait {
                session_id: session.active,
                hardware_generation,
                sequence,
                cutoff_nanos,
                phase: WaitPhase::Checking,
                core_miss: false,
            },
        )
    }

    /// Ends a wait that took `elapsed_nanos`.
    pub fn finish_wait(
        &mut self,
        wait: PlaybackWait,
        timeline: &mut HardwareTimeline,
        elapsed_nanos: u64,
    )
        ensures
            *final(self) == (DaemonPlaybackBridge {
                core_miss_sequence: if wait.core_miss {
                    Some(wait.sequence)
                } else {
                    old(self).core_miss_sequence
                },
                ..*old(self)
            }),
            *final(timeline) == old(timeline).with_ready_wait(elapsed_nanos),
    {
        if wait.core_miss {
            self.core_miss_sequence = Some(wait.sequence);
        }
        timeline.record_pro_ready_wait(elapsed_nanos);
    }
}

/// A wait ends as soon as the block is seen, the session is gone or replaced, or the hardware was
/// restarted; that is never the daemon's miss.
pub proof fn a_settled_wait_ends(
    wait: PlaybackWait,
    session: SessionState,
    hardware_generation: u64,
    client: ClientView,
)
    requires
        wait.phase == WaitPhase::Checking || wait.phase == WaitPhase::Rechecking,
    ensures
        ({
            let after = wait.next(WaitEvent::Observed { session, hardware_generation, client });
            &&& wait.settled(session, hardware_generation, client) <==> after.phase
                == WaitPhase::Finished
            &&& after.core_miss == wait.core_miss
        }),
{
}

/// The client's signal is waited for only before the cutoff, and only after its earlier signals
/// were taken back and the region was looked at once more: a signal that comes in between is not
/// lost.
pub proof fn a_wait_is_entered_before_the_cutoff(wait: PlaybackWait, event: WaitEvent)
    requires
        wait.phase != WaitPhase::Waiting,
        wait.next(event).phase == WaitPhase::Waiting,
    ensures
        event is Now,
        event->Now_0 < wait.cutoff_nanos,
        wait.phase == WaitPhase::Budgeting,
        forall|before: PlaybackWait, earlier: WaitEvent|
            before.phase != WaitPhase::Budgeting && (#[trigger] before.next(earlier)).phase
                == WaitPhase::Budgeting ==> before.phase == WaitPhase::Rechecking
                && earlier is Observed,
{
}

/// Only a wait that fails is counted as the daemon's own miss.
pub proof fn only_a_failed_wait_is_a_core_miss(wait: PlaybackWait, event: WaitEvent)
    requires
        !wait.core_miss,
    ensures
        wait.next(event).core_miss <==> wait.phase == WaitPhase::Waiting && event
            == WaitEvent::Waited(PlaybackReadyWait::Failed),
{
}

/// A block is waited for only where one may come: from an active session with its own region that
/// was started in the current hardware generation, is activated and not idle, and not in the very
/// period in which its client starts.
pub proof fn a_wait_is_worth_it_for_a_running_client(
    session: SessionState,
    hardware_generation: u64,
    client: ClientView,
    sequence: u64,
)
    ensures
        worth_waiting(session, hardware_generation, client, sequence) <==> {
            &&& session.active != 0
            &&& session.endpoint_session == session.active
            &&& session.lifecycle_hardware_generation == hardware_generation
            &&& client.activation_ready
            &&& client.client_state != 0
            &&& client.client_state != 1 || client.start_sequence != sequence
        },
{
}

/// A wait goes on only for a block that is not there yet, of the session and the hardware generation
/// that it was begun for; it is never entered at or after the cutoff; a signal or an interruption
/// only makes it look again, and the deadline ends it.
pub proof fn a_wait_ends_with_its_cause(
    wait: PlaybackWait,
    session: SessionState,
    hardware_generation: u64,
    client: ClientView,
    now: u64,
)
    ensures
        ({
            let seen = WaitEvent::Observed { session, hardware_generation, client };
            let over = session.active != wait.session_id || client.client_state == 0 || (
            client.client_state == 1 && client.start_sequence == wait.sequence)
                || hardware_generation != wait.hardware_generation
                || session.lifecycle_hardware_generation != wait.hardware_generation
                || client.block_ready;
            &&& wait.phase == WaitPhase::Checking ==> wait.next(seen).phase == if over {
                WaitPhase::Finished
            } else {
                WaitPhase::Draining
            }
            &&& wait.phase == WaitPhase::Rechecking ==> wait.next(seen).phase == if over {
                WaitPhase::Finished
            } else {
                WaitPhase::Budgeting
            }
            &&& wait.phase == WaitPhase::Draining ==> wait.next(WaitEvent::Drained).phase
                == WaitPhase::Rechecking
            &&& wait.phase == WaitPhase::Budgeting ==> wait.next(WaitEvent::Now(now)).phase == if now
                < wait.cutoff_nanos {
                WaitPhase::Waiting
            } else {
                WaitPhase::Finished
            }
            &&& wait.phase == WaitPhase::Waiting ==> {
                &&& wait.next(WaitEvent::Waited(PlaybackReadyWait::Ready)).phase
                    == WaitPhase::Checking
                &&& wait.next(WaitEvent::Waited(PlaybackReadyWait::Interrupted)).phase
                    == WaitPhase::Checking
                &&& wait.next(WaitEvent::Waited(PlaybackReadyWait::Timeout)).phase
                    == WaitPhase::Finished
                &&& wait.next(WaitEvent::Waited(PlaybackReadyWait::Failed)).phase
                    == WaitPhase::Finished
            }
            &&& wait.next(seen).cutoff_nanos == wait.cutoff_nanos
            &&& wait.next(seen).sequence == wait.sequence
            &&& wait.next(seen).session_id == wait.session_id
        }),
{
}

} // verus!
