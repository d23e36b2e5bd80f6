//! Captured periods on their way to the clients, and the joint start of a split PRO group.
use vstd::prelude::*;
use crate::daemon::port::SharedPortBridge;
use crate::daemon::session::{SessionState, SESSION_CLOSING};
use crate::daemon::state::DaemonState;
use crate::protocol::shared::SHARED_CLIENT_IDLE;
use crate::timeline::HardwareTimeline;

verus! {

/// A member of a group that waits for the other one.
#[derive(Clone, Copy, Debug, PartialEq, Eq, Structural)]
pub struct PairWait {
    pub session_id: u64,
    pub lifecycle_generation: u64,
    /// The period in which it began to wait.
    pub first_sequence: u64,
}

/// What to do with a member of a group in a period.
#[derive(Clone, Copy, Debug, PartialEq, Eq, Structural)]
pub enum PairStep {
    /// It is not waiting to be activated.
    Settled,
    /// It cannot be activated as it is: wake it.
    Notify,
    /// It waits for the other one for now.
    Hold,
    /// Activate it at the given sequence, and wake it.
    Activate(u64),
}

/// One member of a group.
#[derive(Clone, Copy, Debug, PartialEq, Eq, Structural)]
pub struct PairSide {
    /// It waits to be activated.
    pub pending: bool,
    pub session: SessionState,
    /// How often the region was started.
    pub region_lifecycle: u64,
    /// The sequence at which it would be activated.
    pub sequence: u64,
}

/// What to do with the PRO region in a period.
#[derive(Clone, Copy, Debug, PartialEq, Eq, Structural)]
pub enum ProCaptureStep {
    Idle,
    /// The client has no input: wake it, after establishing its activation where asked to.
    WakePlayback { activate: bool },
    /// Wake the capture client; nothing more in this period.
    WakeCapture,
    /// Establish the activation.
    Activate,
    /// Mark the client as running and wake it.
    Run,
    /// Publish the captured block.
    Publish,
}

/// What a captured period is handed to.
#[derive(Clone, Copy, Debug, PartialEq, Eq, Structural)]
pub enum CaptureTask {
    /// The PRO client, at its playback sequence.
    Pro(u64),
    /// The capture member of a group.
    Directional(u64),
    /// The shared ports.
    Shared(u64),
}

/// The cycle's view of capture.
#[derive(Debug)]
pub struct DaemonCaptureBridge {
    pub playback_wait: Option<PairWait>,
    pub capture_wait: Option<PairWait>,
    pub shared: Vec<SharedPortBridge>,
}

impl PairSide {
    /// The member can be activated.
    pub open spec fn eligible(self, hardware_generation: u64) -> bool {
        &&& self.pending
        &&& self.session.active != 0
        &&& self.session.active == self.session.endpoint_session
        &&& self.session.lifecycle_hardware_generation == hardware_generation
    }

    /// The member is open and has not been started.
    pub open spec fn expected(self) -> bool {
        &&& self.session.active == 0
        &&& self.session.owner != 0
        &&& self.session.owner != SESSION_CLOSING
    }

    /// Whether a wait is that of this run and began in an earlier period.
    pub open spec fn waited_long_enough(
        self,
        wait: Option<PairWait>,
        capture_sequence: u64,
    ) -> bool {
        wait matches Some(w) && w.session_id == self.session.active && w.lifecycle_generation
            == self.region_lifecycle && w.first_sequence != capture_sequence
    }

    /// What is done with the member, and how it waits afterwards.
    pub open spec fn decided(
        self,
        peer: PairSide,
        wait: Option<PairWait>,
        hardware_generation: u64,
        capture_sequence: u64,
    ) -> (PairStep, Option<PairWait>) {
        if !self.pending {
            (PairStep::Settled, None)
        } else if !self.eligible(hardware_generation) {
            (PairStep::Notify, wait)
        } else if peer.expected() && !self.waited_long_enough(wait, capture_sequence) {
            (
                PairStep::Hold,
                Some(
                    PairWait {
                        session_id: self.session.active,
                        lifecycle_generation: self.region_lifecycle,
                        first_sequence: capture_sequence,
                    },
                ),
            )
        } else {
            (PairStep::Activate(self.sequence), None)
        }
    }

    fn decide(
        &self,
        peer: &PairSide,
        wait: Option<PairWait>,
        hardware_generation: u64,
        capture_sequence: u64,
    ) -> (decision: (PairStep, Option<PairWait>))
        ensures
            decision == self.decided(*peer, wait, hardware_generation, capture_sequence),
    {
        if !self.pending {
            return (PairStep::Settled, None);
        }
        if self.session.active == 0 || self.session.active != self.session.endpoint_session
            || self.session.lifecycle_hardware_generation != hardware_generation {
            return (PairStep::Notify, wait);
        }
        if peer.session.active == 0 && peer.session.owner != 0 && peer.session.owner
            != SESSION_CLOSING {
            let waited: bool = match wait {
                Some(w) => w.session_id == self.session.active && w.lifecycle_generation
                    == self.region_lifecycle && w.first_sequence != capture_sequence,
                None => false,
            };
            if !waited {
                return (
                    PairStep::Hold,
                    Some(
                        PairWait {
                            session_id: self.session.active,
                            lifecycle_generation: self.region_lifecycle,
                            first_sequence: capture_sequence,
                        },
                    ),
                );
            }
        }
        (PairStep::Activate(self.sequence), None)
    }
}

/// Whether a period is the first of a member.
pub fn is_activation(step: PairStep) -> (activation: bool)
    ensures
        activation == (step is Activate),
{
    match step {
        PairStep::Activate(_) => true,
        _ => false,
    }
}

impl DaemonCaptureBridge {
    pub fn new(shared: Vec<SharedPortBridge>) -> (bridge: Self)
        ensures
            bridge.playback_wait is None,
            bridge.capture_wait is None,
            bridge.shared == shared,
    {
        DaemonCaptureBridge { playback_wait: None, capture_wait: None, shared }
    }

    /// Decides which members of a group are activated in a period: both together, or one alone
    /// once the other has been given a period to follow.
    pub fn activate_pair(
        &mut self,
        playback: PairSide,
        capture: PairSide,
        hardware_generation: u64,
        capture_sequence: u64,
    ) -> (steps: (PairStep, PairStep))
        ensures
            if !playback.pending && !capture.pending {
                steps == (PairStep::Settled, PairStep::Settled) && *final(self) == *old(self)
            } else {
                let first = playback.decided(
                    capture,
                    old(self).playback_wait,
                    hardware_generation,
                    capture_sequence,
                );
                let second = capture.decided(
                    playback,
                    old(self).capture_wait,
                    hardware_generation,
                    capture_sequence,
                );
                &&& steps == (first.0, second.0)
                &&& *final(self) == DaemonCaptureBridge {
                    playback_wait: first.1,
                    capture_wait: second.1,
                    ..*old(self)
                }
            },
    {
        if !playback.pending && !capture.pending {
            return (PairStep::Settled, PairStep::Settled);
        }
        let (first, playback_wait) = playback.decide(
            &capture,
            self.playback_wait,
            hardware_generation,
            capture_sequence,
        );
        let (second, capture_wait) = capture.decide(
            &playback,
            self.capture_wait,
            hardware_generation,
            capture_sequence,
        );
        self.playback_wait = playback_wait;
        self.capture_wait = capture_wait;
        (first, second)
    }
}

impl DaemonState {
    /// Activates the members of the group that are due in a period. `region_lifecycles` tells how
    /// often the playback and the capture region were started.
    pub fn activate_pair(
        &mut self,
        bridge: &mut DaemonCaptureBridge,
        hardware_generation: u64,
        region_lifecycles: (u64, u64),
        capture_sequence: u64,
        playback_sequence: u64,
    ) -> (steps: (PairStep, PairStep))
        requires
            old(self).wf(),
        ensures
            final(self).wf(),
            ({
                let playback = PairSide {
                    pending: old(self).pair_playback,
                    session: old(self).pro,
                    region_lifecycle: region_lifecycles.0,
                    sequence: playback_sequence,
                };
                let capture = PairSide {
                    pending: old(self).pair_capture,
                    session: old(self).pro_capture,
                    region_lifecycle: region_lifecycles.1,
                    sequence: capture_sequence,
                };
                let first = playback.decided(
                    capture,
                    old(bridge).playback_wait,
                    hardware_generation,
                    capture_sequence,
                );
                let second = capture.decided(
                    playback,
                    old(bridge).capture_wait,
                    hardware_generation,
                    capture_sequence,
                );
                &&& steps == (first.0, second.0)
                &&& *final(bridge) == if playback.pending || capture.pending {
                    DaemonCaptureBridge {
                        playback_wait: first.1,
                        capture_wait: second.1,
                        ..*old(bridge)
                    }
                } else {
                    *old(bridge)
                }
                &&& *final(self) == DaemonState {
                    pair_playback: old(self).pair_playback && !(steps.0 is Activate),
                    pair_capture: old(self).pair_capture && !(steps.1 is Activate),
                    ..*old(self)
                }
            }),
    {
        let playback = PairSide {
            pending: self.pair_playback,
            session: self.pro,
            region_lifecycle: region_lifecycles.0,
            sequence: playback_sequence,
        };
        let capture = PairSide {
            pending: self.pair_capture,
            session: self.pro_capture,
            region_lifecycle: region_lifecycles.1,
            sequence: capture_sequence,
        };
        let steps = bridge.activate_pair(
            playback,
            capture,
            hardware_generation,
            capture_sequence,
        );
        if is_activation(steps.0) {
            self.pair_playback = false;
        }
        if is_activation(steps.1) {
            self.pair_capture = false;
        }
        steps
    }
}

/// Where a captured period goes. A member that is activated in a period gets nothing of it.
pub open spec fn capture_tasks(steps: (PairStep, PairStep), sequence: u64) -> Seq<CaptureTask> {
    let pro = if steps.0 is Activate {
        seq![]
    } else {
        seq![CaptureTask::Pro(sequence)]
    };
    let directional = if steps.1 is Activate {
        seq![]
    } else {
        seq![CaptureTask::Directional(sequence)]
    };
    pro + directional + seq![CaptureTask::Shared(sequence)]
}

/// Where a captured period goes that answers to another playback sequence; the shared ports get
/// it later.
pub open spec fn direct_capture_tasks(
    steps: (PairStep, PairStep),
    hardware_sequence: u64,
    playback_sequence: u64,
) -> Seq<CaptureTask> {
    let directional = if steps.1 is Activate {
        seq![]
    } else {
        seq![CaptureTask::Directional(hardware_sequence)]
    };
    let pro = if steps.0 is Activate {
        seq![]
    } else {
        seq![CaptureTask::Pro(playback_sequence)]
    };
    directional + pro
}

/// Where a captured period goes, in order.
pub fn process_capture(steps: (PairStep, PairStep), sequence: u64) -> (tasks: Vec<CaptureTask>)
    ensures
        tasks@ == capture_tasks(steps, sequence),
{
    let mut tasks: Vec<CaptureTask> = Vec::new();
    if !is_activation(steps.0) {
        tasks.push(CaptureTask::Pro(sequence));
    }
    if !is_activation(steps.1) {
        tasks.push(CaptureTask::Directional(sequence));
    }
    tasks.push(CaptureTask::Shared(sequence));
    assert(tasks@ =~= capture_tasks(steps, sequence));
    tasks
}

/// Where a captured period goes before its playback, in order.
pub fn process_capture_for_playback(
    steps: (PairStep, PairStep),
    hardware_sequence: u64,
    playback_sequence: u64,
) -> (tasks: Vec<CaptureTask>)
    ensures
        tasks@ == direct_capture_tasks(steps, hardware_sequence, playback_sequence),
{
    let mut tasks: Vec<CaptureTask> = Vec::new();
    if !is_activation(steps.1) {
        tasks.push(CaptureTask::Directional(hardware_sequence));
    }
    if !is_activation(steps.0) {
        tasks.push(CaptureTask::Pro(playback_sequence));
    }
    assert(tasks@ =~= direct_capture_tasks(steps, hardware_sequence, playback_sequence));
    tasks
}

/// Begins to hand a period to the PRO client. `capture_channels` is what its region was made for;
/// a client that is still waiting for its group gets nothing.
pub fn begin_pro_capture(
    pending: bool,
    session: &SessionState,
    hardware_generation: u64,
    capture_channels: u32,
    client_state: u32,
) -> (step: ProCaptureStep)
    ensures
        step == if pending || session.active == 0 || session.endpoint_session != session.active {
            ProCaptureStep::Idle
        } else if capture_channels == 0 {
            ProCaptureStep::WakePlayback {
                activate: session.lifecycle_hardware_generation == hardware_generation
                    && client_state != SHARED_CLIENT_IDLE,
            }
        } else {
            ProCaptureStep::Activate
        },
{
    if pending || session.active == 0 || session.endpoint_session != session.active {
        ProCaptureStep::Idle
    } else if capture_channels == 0 {
        ProCaptureStep::WakePlayback {
            activate: session.lifecycle_hardware_generation == hardware_generation && client_state
                != SHARED_CLIENT_IDLE,
        }
    } else {
        ProCaptureStep::Activate
    }
}

/// Goes on after the activation was tried: the period of the activation is not published.
pub fn continue_pro_capture(activated: bool, client_state: u32) -> (step: ProCaptureStep)
    ensures
        step == if !activated && client_state != SHARED_CLIENT_IDLE {
            ProCaptureStep::Publish
        } else {
            ProCaptureStep::Idle
        },
{
    if !activated && client_state != SHARED_CLIENT_IDLE {
        ProCaptureStep::Publish
    } else {
        ProCaptureStep::Idle
    }
}

/// Ends the handing over of a period to the PRO client, and tells whether it is to be woken.
pub fn finish_pro_capture(timeline: &mut HardwareTimeline, published: bool) -> (wakes: bool)
    ensures
        wakes == published,
        *final(timeline) == if published {
            *old(timeline)
        } else {
            old(timeline).with_capture_overrun()
        },
{
    if !published {
        timeline.record_pro_capture_overrun();
    }
    published
}

/// Begins to hand a period to the capture member of a group.
pub fn begin_directional_capture(
    pending: bool,
    session: &SessionState,
    hardware_generation: u64,
    client_state: u32,
) -> (step: ProCaptureStep)
    ensures
        step == if pending || session.active == 0 || session.endpoint_session != session.active
            || client_state == SHARED_CLIENT_IDLE {
            ProCaptureStep::Idle
        } else if session.lifecycle_hardware_generation != hardware_generation {
            ProCaptureStep::WakeCapture
        } else {
            ProCaptureStep::Activate
        },
{
    if pending || session.active == 0 || session.endpoint_session != session.active
        || client_state == SHARED_CLIENT_IDLE {
        ProCaptureStep::Idle
    } else if session.lifecycle_hardware_generation != hardware_generation {
        ProCaptureStep::WakeCapture
    } else {
        ProCaptureStep::Activate
    }
}

/// Goes on after the activation was tried.
pub fn continue_directional_capture(activated: bool) -> (step: ProCaptureStep)
    ensures
        step == if activated {
            ProCaptureStep::Run
        } else {
            ProCaptureStep::Publish
        },
{
    if activated {
        ProCaptureStep::Run
    } else {
        ProCaptureStep::Publish
    }
}

/// Ends the handing over of a period to the capture member, who is woken in any case. Tells
/// whether it must be told of a gap.
pub fn finish_directional_capture(timeline: &mut HardwareTimeline, published: bool) -> (gap: bool)
    ensures
        gap == !published,
        *final(timeline) == if published {
            *old(timeline)
        } else {
            old(timeline).with_capture_overrun()
        },
{
    if !published {
        timeline.record_pro_capture_overrun();
    }
    !published
}

/// Two members that are both ready are activated in one period, each at its own sequence.
pub proof fn a_ready_pair_is_activated_together(
    playback: PairSide,
    capture: PairSide,
    playback_wait: Option<PairWait>,
    capture_wait: Option<PairWait>,
    hardware_generation: u64,
    capture_sequence: u64,
)
    requires
        playback.eligible(hardware_generation),
        capture.eligible(hardware_generation),
    ensures
        playback.decided(capture, playback_wait, hardware_generation, capture_sequence).0
            == PairStep::Activate(playback.sequence),
        capture.decided(playback, capture_wait, hardware_generation, capture_sequence).0
            == PairStep::Activate(capture.sequence),
{
}

/// A member whose partner is open but not started is held for the rest of the period in which it
/// is first seen, and activated alone in the next one.
pub proof fn a_member_is_held_for_one_period(
    side: PairSide,
    peer: PairSide,
    wait: Option<PairWait>,
    hardware_generation: u64,
    first: u64,
    second: u64,
)
    requires
        side.eligible(hardware_generation),
        peer.expected(),
        first != second,
        wait is None || wait->0.session_id != side.session.active,
    ensures
        ({
            let held = side.decided(peer, wait, hardware_generation, first);
            &&& held.0 == PairStep::Hold
            &&& side.decided(peer, held.1, hardware_generation, first) == held
            &&& side.decided(peer, held.1, hardware_generation, second) == (
                PairStep::Activate(side.sequence),
                None::<PairWait>,
            )
        }),
{
}

/// A member without a partner is activated at once.
pub proof fn a_lone_member_is_activated_at_once(
    side: PairSide,
    peer: PairSide,
    wait: Option<PairWait>,
    hardware_generation: u64,
    capture_sequence: u64,
)
    requires
        side.eligible(hardware_generation),
        peer.session.owner == 0,
    ensures
        side.decided(peer, wait, hardware_generation, capture_sequence) == (
            PairStep::Activate(side.sequence),
            None::<PairWait>,
        ),
{
}

/// Nothing is activated that was not asked for, or that belongs to another hardware generation.
pub proof fn only_an_eligible_member_is_activated(
    side: PairSide,
    peer: PairSide,
    wait: Option<PairWait>,
    hardware_generation: u64,
    capture_sequence: u64,
)
    ensures
        side.decided(peer, wait, hardware_generation, capture_sequence).0 is Activate
            ==> side.eligible(hardware_generation),
{
}

/// A member of a group is activated only where it waits for that, is active with its own region and
/// was started in the current hardware generation, and then at its own sequence; it is held back
/// only for a partner that is open and has not been started, and never twice.
pub proof fn a_member_waits_for_an_open_partner_alone(
    side: PairSide,
    peer: PairSide,
    wait: Option<PairWait>,
    hardware_generation: u64,
    capture_sequence: u64,
)
    ensures
        ({
            let (step, after) = side.decided(peer, wait, hardware_generation, capture_sequence);
            let ready = side.session.active != 0 && side.session.active
                == side.session.endpoint_session && side.session.lifecycle_hardware_generation
                == hardware_generation;
            let open = peer.session.active == 0 && peer.session.owner != 0 && peer.session.owner
                != u64::MAX;
            &&& !side.pending <==> step == PairStep::Settled
            &&& side.pending && !ready <==> step == PairStep::Notify
            &&& step matches PairStep::Activate(sequence) ==> side.pending && ready && sequence
                == side.sequence && after is None
            &&& side.pending && ready && !open ==> step == PairStep::Activate(side.sequence)
            &&& step == PairStep::Hold ==> {
                &&& side.pending && ready && open
                &&& after == Some(
                    PairWait {
                        session_id: side.session.active,
                        lifecycle_generation: side.region_lifecycle,
                        first_sequence: capture_sequence,
                    },
                )
            }
            &&& side.pending && ready && open && wait is Some && wait->0.session_id
                == side.session.active && wait->0.lifecycle_generation == side.region_lifecycle
                && wait->0.first_sequence != capture_sequence ==> step == PairStep::Activate(
                side.sequence,
            )
        }),
{
}

/// A captured period goes to everybody once: to PRO at the playback's number, to the capture member
/// at the hardware's, and to the shared ports, but to no member that is activated in it. The shared
/// ports are not served before the handoff.
pub proof fn a_captured_period_goes_to_everybody_once(
    steps: (PairStep, PairStep),
    hardware_sequence: u64,
    playback_sequence: u64,
)
    ensures
        ({
            let tasks = capture_tasks(steps, hardware_sequence);
            let direct = direct_capture_tasks(steps, hardware_sequence, playback_sequence);
            let pro = !(steps.0 is Activate);
            let directional = !(steps.1 is Activate);
            &&& tasks.contains(CaptureTask::Pro(hardware_sequence)) <==> pro
            &&& tasks.contains(CaptureTask::Directional(hardware_sequence)) <==> directional
            &&& tasks.contains(CaptureTask::Shared(hardware_sequence))
            &&& tasks.no_duplicates()
            &&& tasks.len() == 1 + (if pro {
                1int
            } else {
                0
            }) + if directional {
                1int
            } else {
                0
            }
            &&& direct.contains(CaptureTask::Pro(playback_sequence)) <==> pro
            &&& direct.contains(CaptureTask::Directional(hardware_sequence)) <==> directional
            &&& !direct.contains(CaptureTask::Shared(hardware_sequence))
            &&& direct.no_duplicates()
            &&& direct.len() == (if pro {
                1int
            } else {
                0
            }) + if directional {
                1int
            } else {
                0
            }
        }),
{
    let tasks = capture_tasks(steps, hardware_sequence);
    let direct = direct_capture_tasks(steps, hardware_sequence, playback_sequence);
    assert(tasks[tasks.len() - 1] == CaptureTask::Shared(hardware_sequence));
    if !(steps.0 is Activate) {
        assert(tasks[0] == CaptureTask::Pro(hardware_sequence));
        assert(direct[direct.len() - 1] == CaptureTask::Pro(playback_sequence));
    }
    if !(steps.1 is Activate) {
        assert(tasks[tasks.len() - 2] == CaptureTask::Directional(hardware_sequence));
        assert(direct[0] == CaptureTask::Directional(hardware_sequence));
    }
}

} // verus!
