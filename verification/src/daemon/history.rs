//! Who owns what, over any course of calls.
//!
//! Clients open, start, stop and close in any order while the audio cycle runs. The laws here
//! speak of all such orders: a slot keeps its owner until that owner leaves, and no session id is
//! given out twice.
use vstd::prelude::*;
use crate::daemon::session::ClientPlaybackDiagnostics;
use crate::daemon::state::{
    is_session, issued, owned_index_finds_the_owner, port_index_finds_the_first, DaemonState,
    OpenSharedError, ProOwnership, SharedOpen,
};
use crate::protocol::messages::PortDirection;

verus! {

/// A call on the daemon's sessions, with its answer.
pub enum SessionCall {
    OpenPro { created: bool, opened: Option<u64> },
    OpenDirection {
        peer_pid: u32,
        peer_uid: u32,
        token: (u64, u64),
        direction: PortDirection,
        created: bool,
        opened: Option<u64>,
    },
    OpenShared {
        port_id: Seq<char>,
        created: bool,
        clients: Seq<ClientPlaybackDiagnostics>,
        result: Result<Option<SharedOpen>, OpenSharedError>,
    },
    Start { session_id: u64, hardware_generation: u64, started: bool },
    StartAligned { session_id: u64, hardware_generation: u64, started: bool },
    Stop { session_id: u64, stopped: bool },
    Close { session_id: u64, closed: bool },
    /// The audio cycle, a report, or anything else that gives and takes no slot.
    Cycle,
}

impl SessionCall {
    /// The PRO session that was opened.
    pub open spec fn opened_pro(self) -> Option<u64> {
        match self {
            SessionCall::OpenPro { opened, .. } => opened,
            SessionCall::OpenDirection { opened, .. } => opened,
            _ => None,
        }
    }

    /// The session that was opened.
    pub open spec fn opened(self) -> Option<u64> {
        match self {
            SessionCall::OpenShared { result, .. } => match result {
                Ok(Some(open)) => Some(open.session_id),
                _ => None,
            },
            _ => self.opened_pro(),
        }
    }

    /// Whether the session is closed by this call.
    pub open spec fn leaves(self, id: u64) -> bool {
        self matches SessionCall::Close { session_id, .. } && session_id == id
    }
}

/// Two states whose slots have the same owners.
pub open spec fn same_owners(a: DaemonState, b: DaemonState) -> bool {
    &&& a.ownership == b.ownership
    &&& a.next_session == b.next_session
    &&& a.pro.owner == b.pro.owner
    &&& a.pro_capture.owner == b.pro_capture.owner
    &&& a.shared@.len() == b.shared@.len()
    &&& forall|i: int|
        0 <= i < a.shared@.len() ==> (#[trigger] a.shared@[i]).session.owner
            == b.shared@[i].session.owner
}

/// `after` is what a call on `before` leads to.
pub open spec fn call_leads_to(before: DaemonState, after: DaemonState, call: SessionCall) -> bool {
    match call {
        SessionCall::OpenPro { created, opened } => before.opens_pro(after, created, opened),
        SessionCall::OpenDirection { peer_pid, peer_uid, token, direction, created, opened } =>
            before.opens_direction(
                after,
                peer_pid,
                peer_uid,
                token,
                direction,
                created,
                opened,
            ),
        SessionCall::OpenShared { port_id, created, clients, result } => before.opens_shared(
            after,
            port_id,
            created,
            clients,
            result,
        ),
        SessionCall::Start { session_id, hardware_generation, started } => before.starts(
            after,
            session_id,
            hardware_generation,
            started,
        ),
        SessionCall::StartAligned { session_id, hardware_generation, started } =>
            before.starts_aligned(after, session_id, hardware_generation, started),
        SessionCall::Stop { session_id, stopped } => before.stops(after, session_id, stopped),
        SessionCall::Close { session_id, closed } => before.closes(after, session_id, closed),
        SessionCall::Cycle => same_owners(before, after),
    }
}

/// `states` are the states of the daemon before, between and after `calls`, from one that nobody
/// has opened anything in.
pub open spec fn session_history(states: Seq<DaemonState>, calls: Seq<SessionCall>) -> bool {
    &&& states.len() == calls.len() + 1
    &&& states[0].ownership == ProOwnership::Free
    &&& states[0].next_session == 1
    &&& forall|i: int|
        0 <= i < states[0].shared@.len() ==> (
        #[trigger] states[0].shared@[i]).session.owner == 0
    &&& forall|i: int| 0 <= i < states.len() ==> (#[trigger] states[i]).wf()
    &&& forall|i: int|
        #![trigger calls[i]]
        0 <= i < calls.len() ==> call_leads_to(states[i], states[i + 1], calls[i])
}

/// A slot that sessions can own.
pub enum Slot {
    Pro,
    ProCapture,
    /// A shared port, in the daemon's order.
    Shared(int),
}

impl Slot {
    /// Whether the slot exists.
    pub open spec fn exists_in(self, state: DaemonState) -> bool {
        match self {
            Slot::Shared(i) => 0 <= i < state.shared@.len(),
            _ => true,
        }
    }

    /// The session that owns the slot; zero when nobody does.
    pub open spec fn owner(self, state: DaemonState) -> u64 {
        match self {
            Slot::Pro => state.pro.owner,
            Slot::ProCapture => state.pro_capture.owner,
            Slot::Shared(i) => state.shared@[i].session.owner,
        }
    }
}

/// One call: no slot comes or goes, an owner stays unless it leaves, and a slot is given only to
/// the session that was opened.
proof fn lemma_call_keeps_owners(
    before: DaemonState,
    after: DaemonState,
    call: SessionCall,
    slot: Slot,
)
    requires
        before.wf(),
        after.wf(),
        call_leads_to(before, after, call),
        slot.exists_in(before),
    ensures
        after.shared@.len() == before.shared@.len(),
        ({
            let owner = slot.owner(before);
            let later = slot.owner(after);
            &&& owner != 0 && !call.leaves(owner) ==> later == owner
            &&& later == owner || later == 0 || call.opened() == Some(later)
        }),
{
    match call {
        SessionCall::Start { session_id, .. } => {
            owned_index_finds_the_owner(before.shared@, session_id);
        },
        SessionCall::Stop { session_id, .. } => {
            owned_index_finds_the_owner(before.shared@, session_id);
        },
        SessionCall::Close { session_id, .. } => {
            owned_index_finds_the_owner(before.shared@, session_id);
        },
        SessionCall::OpenShared { port_id, .. } => {
            port_index_finds_the_first(before.shared@, port_id);
        },
        _ => {},
    }
}

/// One call: the id that is due only grows, and a session that was opened was given it.
proof fn lemma_call_issues_in_order(before: DaemonState, after: DaemonState, call: SessionCall)
    requires
        call_leads_to(before, after, call),
        0 < before.next_session < u64::MAX,
    ensures
        before.next_session <= after.next_session,
        call.opened() matches Some(id) ==> id == before.next_session && after.next_session
            == id + 1,
{
}

/// A slot keeps its owner until the owner is closed, whatever else is called and whoever else
/// calls: from state `i` to state `k`, if no call between them closes the owner.
pub proof fn an_owner_stays_until_it_leaves(
    states: Seq<DaemonState>,
    calls: Seq<SessionCall>,
    slot: Slot,
    owner: u64,
    i: int,
    k: int,
)
    requires
        session_history(states, calls),
        0 <= i <= k <= calls.len(),
        slot.exists_in(states[i]),
        slot.owner(states[i]) == owner,
        owner != 0,
        forall|j: int| i <= j < k ==> !(#[trigger] calls[j]).leaves(owner),
    ensures
        slot.exists_in(states[k]),
        slot.owner(states[k]) == owner,
    decreases k,
{
    if k > i {
        an_owner_stays_until_it_leaves(states, calls, slot, owner, i, k - 1);
        assert(call_leads_to(states[k - 1], states[k], calls[k - 1]));
        assert(!calls[k - 1].leaves(owner));
        assert(states[k - 1].wf() && states[k].wf());
        lemma_call_keeps_owners(states[k - 1], states[k], calls[k - 1], slot);
    }
}

/// A client that owns both PRO directions is the only one until it is closed: whatever is called
/// before that, it stays the owner, and every other PRO open is refused.
pub proof fn a_sole_pro_owner_stays_until_it_leaves(
    states: Seq<DaemonState>,
    calls: Seq<SessionCall>,
    owner: u64,
    i: int,
    k: int,
)
    requires
        session_history(states, calls),
        0 <= i <= k <= calls.len(),
        states[i].ownership == ProOwnership::Classic(owner),
        forall|j: int| i <= j < k ==> !(#[trigger] calls[j]).leaves(owner),
    ensures
        states[k].ownership == ProOwnership::Classic(owner),
        forall|j: int| i <= j < k ==> (#[trigger] calls[j]).opened_pro() is None,
    decreases k,
{
    if k > i {
        a_sole_pro_owner_stays_until_it_leaves(states, calls, owner, i, k - 1);
        assert(call_leads_to(states[k - 1], states[k], calls[k - 1]));
        assert(!calls[k - 1].leaves(owner));
        assert(states[k - 1].wf());
    }
}

proof fn lemma_ids_are_issued_in_order(
    states: Seq<DaemonState>,
    calls: Seq<SessionCall>,
    i: int,
    k: int,
)
    requires
        session_history(states, calls),
        0 <= i <= k <= calls.len(),
        forall|j: int| 0 <= j < k ==> (#[trigger] states[j]).next_session < u64::MAX,
    ensures
        0 < states[i].next_session <= states[k].next_session,
    decreases k,
{
    if k > 0 {
        assert(call_leads_to(states[k - 1], states[k], calls[k - 1]));
        assert(states[k - 1].next_session < u64::MAX);
        if k > i {
            lemma_ids_are_issued_in_order(states, calls, i, k - 1);
        } else {
            lemma_ids_are_issued_in_order(states, calls, k - 1, k - 1);
        }
        lemma_call_issues_in_order(states[k - 1], states[k], calls[k - 1]);
    }
}

/// Until the ids have run out, every session that is opened gets an id that is neither zero nor
/// the reserved one and differs from every id that was given before it.
pub proof fn every_id_is_new(
    states: Seq<DaemonState>,
    calls: Seq<SessionCall>,
    j: int,
    k: int,
    earlier: u64,
    later: u64,
)
    requires
        session_history(states, calls),
        0 <= j < k < calls.len(),
        calls[j].opened() == Some(earlier),
        calls[k].opened() == Some(later),
        forall|i: int| 0 <= i <= k ==> (#[trigger] states[i]).next_session < u64::MAX,
    ensures
        is_session(earlier),
        is_session(later),
        earlier < later,
{
    assert(call_leads_to(states[j], states[j + 1], calls[j]));
    assert(call_leads_to(states[k], states[k + 1], calls[k]));
    assert(states[j].next_session < u64::MAX && states[k].next_session < u64::MAX);
    lemma_ids_are_issued_in_order(states, calls, j, k);
    lemma_ids_are_issued_in_order(states, calls, j + 1, k);
    lemma_call_issues_in_order(states[j], states[j + 1], calls[j]);
    lemma_call_issues_in_order(states[k], states[k + 1], calls[k]);
}

/// Until the ids have run out, the id that is due belongs to nobody: every owner was given a
/// smaller one. So a session can always be opened as far as its id is concerned.
pub proof fn the_next_id_belongs_to_nobody(
    states: Seq<DaemonState>,
    calls: Seq<SessionCall>,
    k: int,
)
    requires
        session_history(states, calls),
        0 <= k <= calls.len(),
        forall|j: int| 0 <= j <= k ==> (#[trigger] states[j]).next_session < u64::MAX,
    ensures
        !states[k].owned(issued(states[k].next_session)),
        forall|slot: Slot|
            slot.exists_in(states[k]) ==> #[trigger] slot.owner(states[k])
                < states[k].next_session,
    decreases k,
{
    lemma_ids_are_issued_in_order(states, calls, 0, k);
    assert(states[k].next_session < u64::MAX);
    assert forall|slot: Slot| slot.exists_in(states[k]) implies #[trigger] slot.owner(
        states[k],
    ) < states[k].next_session by {
        if k == 0 {
            assert(states[0].wf());
            if let Slot::Shared(i) = slot {
                assert(states[0].shared@[i].session.owner == 0);
            }
        } else {
            the_next_id_belongs_to_nobody(states, calls, k - 1);
            assert(call_leads_to(states[k - 1], states[k], calls[k - 1]));
            assert(states[k - 1].wf() && states[k].wf());
            assert(states[k - 1].next_session < u64::MAX);
            lemma_ids_are_issued_in_order(states, calls, k - 1, k);
            lemma_call_keeps_owners(states[k - 1], states[k], calls[k - 1], Slot::Pro);
            lemma_call_keeps_owners(states[k - 1], states[k], calls[k - 1], slot);
            lemma_call_issues_in_order(states[k - 1], states[k], calls[k - 1]);
            assert(slot.owner(states[k - 1]) < states[k - 1].next_session);
        }
    }
    let due = issued(states[k].next_session);
    if states[k].owned(due) {
        assert(Slot::Pro.owner(states[k]) < due);
        assert(Slot::ProCapture.owner(states[k]) < due);
        let i = choose|i: int|
            0 <= i < states[k].shared@.len() && (
            #[trigger] states[k].shared@[i]).session.owner == due;
        if states[k].pro.owner != due && states[k].pro_capture.owner != due {
            assert(Slot::Shared(i).owner(states[k]) < due);
        }
    }
}

} // verus!
