//! What holds of every run of a sync session.
//!
//! A run is a start state and the events reported to it, in order. The laws
//! speak of the beacons that were accepted along the run: those that the
//! store confirmed, or that the resync pipeline took.

use crate::error::SyncErrorModel;
use crate::model::{
    follow_start, resync_start, ActionModel, EventModel, Phase, SessionKind, SessionModel,
};
use crate::packet::{BeaconModel, PacketModel, SignatureCheck};
use vstd::prelude::*;

verus! {

/// The state after the first `n` events of a run.
pub open spec fn state_after(s: SessionModel, events: Seq<EventModel>, n: nat) -> SessionModel
    decreases n,
{
    if n == 0 {
        s
    } else {
        state_after(s, events, (n - 1) as nat).step(events[n - 1]).0
    }
}

/// The action with which the session answers event number `n` of a run.
pub open spec fn action_at(s: SessionModel, events: Seq<EventModel>, n: nat) -> ActionModel {
    state_after(s, events, n).step(events[n as int]).1
}

/// The event confirms that the pending beacon was delivered: the store
/// appended it, or the pipeline took it.
pub open spec fn delivers(s: SessionModel, e: EventModel) -> bool {
    ||| s.phase == Phase::Storing && e matches EventModel::Stored(Ok(_))
    ||| s.phase == Phase::Forwarding && e == EventModel::Forwarded(true)
}

/// The event makes the session give up its current peer: the stream could
/// not be opened, it ended, or a packet failed a check.
pub open spec fn rejects(s: SessionModel, e: EventModel) -> bool {
    ||| s.phase == Phase::Connecting && e == EventModel::StreamOpened(false)
    ||| s.phase == Phase::Streaming && e == EventModel::Message(None)
    ||| s.phase == Phase::Streaming && (e matches EventModel::Message(Some(p)) && !s.accepts(p))
    ||| s.phase == Phase::Verifying && (e matches EventModel::SignatureChecked(c) && c
        != SignatureCheck::Valid)
}

/// The beacons accepted within the first `n` events of a run, in order.
pub open spec fn accepted(s: SessionModel, events: Seq<EventModel>, n: nat) -> Seq<BeaconModel>
    decreases n,
{
    if n == 0 {
        Seq::empty()
    } else {
        let before = state_after(s, events, (n - 1) as nat);
        let earlier = accepted(s, events, (n - 1) as nat);
        if delivers(before, events[n - 1]) {
            earlier.push(before.pending.beacon())
        } else {
            earlier
        }
    }
}

/// A session starts in a valid state.
pub proof fn lemma_start_wf(
    beacon_id: Seq<char>,
    peers: nat,
    target: u64,
    last: BeaconModel,
    start_from: u64,
    previous_signature: Seq<u8>,
)
    ensures
        follow_start(beacon_id, peers, target, last).0.wf(),
        start_from >= 1 ==> resync_start(
            beacon_id,
            peers,
            start_from,
            target,
            previous_signature,
        ).0.wf(),
{
}

/// Every transition keeps the state valid and the session's parameters fixed.
pub proof fn lemma_step_wf(s: SessionModel, e: EventModel)
    requires
        s.wf(),
    ensures
        s.step(e).0.wf(),
        s.step(e).0.kind == s.kind,
        s.step(e).0.beacon_id == s.beacon_id,
        s.step(e).0.peers == s.peers,
        s.step(e).0.target == s.target,
{
}

/// The last accepted beacon changes only when a delivery is confirmed, and
/// then it becomes the pending beacon, whose round is the next one.
pub proof fn lemma_tail_moves_by_one(s: SessionModel, e: EventModel)
    requires
        s.wf(),
    ensures
        delivers(s, e) ==> s.step(e).0.tail == s.pending.beacon() && s.pending.round
            == s.tail.round + 1 && s.pending.round <= s.target,
        !delivers(s, e) ==> s.step(e).0.tail == s.tail,
{
}

/// The accepted beacons are exactly the rounds after the start's last
/// beacon, one by one, without gap or repetition, and none beyond the
/// target; the last of them is the session's last accepted beacon.
pub proof fn lemma_accepted_rounds_contiguous(s: SessionModel, events: Seq<EventModel>, n: nat)
    requires
        s.wf(),
        n <= events.len(),
    ensures
        state_after(s, events, n).wf(),
        state_after(s, events, n).kind == s.kind,
        state_after(s, events, n).beacon_id == s.beacon_id,
        state_after(s, events, n).peers == s.peers,
        state_after(s, events, n).target == s.target,
        state_after(s, events, n).tail.round == s.tail.round + accepted(s, events, n).len(),
        forall|k: int|
            0 <= k < accepted(s, events, n).len() ==> #[trigger] accepted(s, events, n)[k].round
                == s.tail.round + 1 + k,
        forall|k: int|
            0 <= k < accepted(s, events, n).len() ==> #[trigger] accepted(s, events, n)[k].round
                <= s.target,
        accepted(s, events, n).len() > 0 ==> state_after(s, events, n).tail == accepted(
            s,
            events,
            n,
        ).last(),
        accepted(s, events, n).len() == 0 ==> state_after(s, events, n).tail == s.tail,
    decreases n,
{
    if n > 0 {
        let m = (n - 1) as nat;
        lemma_accepted_rounds_contiguous(s, events, m);
        let before = state_after(s, events, m);
        lemma_step_wf(before, events[n - 1]);
        lemma_tail_moves_by_one(before, events[n - 1]);
    }
}

/// The index of the current peer never goes back.
pub proof fn lemma_peer_never_returns(s: SessionModel, events: Seq<EventModel>, i: nat, j: nat)
    requires
        s.wf(),
        i <= j <= events.len(),
    ensures
        state_after(s, events, i).peer <= state_after(s, events, j).peer,
    decreases j,
{
    if i < j {
        let m = (j - 1) as nat;
        lemma_peer_never_returns(s, events, i, m);
        lemma_accepted_rounds_contiguous(s, events, m);
    }
}

/// A rejection keeps the last accepted beacon and moves to the next peer,
/// whose stream is asked for from the round after that beacon.
pub proof fn lemma_rejection_fails_over(s: SessionModel, e: EventModel)
    requires
        s.wf(),
        rejects(s, e),
    ensures
        s.step(e) == s.try_peer(s.peer + 1),
        s.step(e).0.tail == s.tail,
        s.step(e).0.peer == s.peer + 1,
        s.peer + 1 < s.peers ==> s.step(e).1 == (ActionModel::OpenStream {
            peer: s.peer + 1,
            from: (s.tail.round + 1) as u64,
        }),
        s.peer + 1 >= s.peers ==> s.step(e).1 == match s.kind {
            SessionKind::Follow => ActionModel::NotifyFailure(
                SyncErrorModel::TriedAllPeers { last: s.tail.round },
            ),
            SessionKind::Resync => ActionModel::Finish(
                Err(SyncErrorModel::TriedAllPeers { last: s.tail.round }),
            ),
        },
{
}

/// A beacon is handed to the store or to the pipeline only in answer to a
/// signature check that came back valid, and it is the beacon that was
/// checked. A check that fails is a rejection.
pub proof fn lemma_delivery_needs_valid_signature(s: SessionModel, e: EventModel)
    requires
        s.wf(),
    ensures
        (s.step(e).1 is Store || s.step(e).1 is Forward) ==> s.phase == Phase::Verifying && e
            == EventModel::SignatureChecked(SignatureCheck::Valid),
        s.step(e).1 matches ActionModel::Store(b) ==> b == s.pending.beacon(),
        s.step(e).1 matches ActionModel::Forward(p) ==> p == s.pending,
        s.phase == Phase::Verifying && e != EventModel::SignatureChecked(SignatureCheck::Valid)
            ==> rejects(s, e) || s.step(e).1 == ActionModel::Finish(
            Err(SyncErrorModel::Internal),
        ),
{
}

/// A session at its start (it asks for a stream, reports that no peer is
/// left, or is over) accepts a beacon
/// only at the end of three events in a row: the beacon arrives as a message
/// on the current peer's stream and passes the structural checks, its
/// signature check comes back valid, and the delivery is confirmed. The
/// check that was asked for names this beacon's round and signature and the
/// signature of the beacon before it.
pub proof fn lemma_accepted_beacon_was_verified(
    s: SessionModel,
    events: Seq<EventModel>,
    n: nat,
)
    requires
        s.wf(),
        s.phase == Phase::Connecting || s.phase == Phase::Notifying || s.phase == Phase::Done,
        n < events.len(),
        delivers(state_after(s, events, n), events[n as int]),
    ensures
        n >= 2,
        events[n - 2] == EventModel::Message(Some(state_after(s, events, n).pending)),
        events[n - 1] == EventModel::SignatureChecked(SignatureCheck::Valid),
        state_after(s, events, (n - 2) as nat).phase == Phase::Streaming,
        state_after(s, events, (n - 2) as nat).accepts(state_after(s, events, n).pending),
        state_after(s, events, (n - 2) as nat).peer == state_after(s, events, n).peer,
        state_after(s, events, (n - 2) as nat).tail == state_after(s, events, n).tail,
        action_at(s, events, (n - 2) as nat) == (ActionModel::CheckSignature {
            previous_signature: state_after(s, events, n).tail.signature,
            round: state_after(s, events, n).pending.round,
            signature: state_after(s, events, n).pending.signature,
        }),
        action_at(s, events, (n - 1) as nat) == match s.kind {
            SessionKind::Follow => ActionModel::Store(state_after(s, events, n).pending.beacon()),
            SessionKind::Resync => ActionModel::Forward(state_after(s, events, n).pending),
        },
{
    lemma_accepted_rounds_contiguous(s, events, n);
    let at_n = state_after(s, events, n);
    assert(at_n.phase == Phase::Storing || at_n.phase == Phase::Forwarding);
    assert(n >= 1);
    let n1 = (n - 1) as nat;
    lemma_accepted_rounds_contiguous(s, events, n1);
    let at_n1 = state_after(s, events, n1);
    lemma_step_wf(at_n1, events[n - 1]);
    assert(at_n == at_n1.step(events[n - 1]).0);
    assert(at_n1.phase == Phase::Verifying);
    assert(n1 >= 1);
    let n2 = (n - 2) as nat;
    lemma_accepted_rounds_contiguous(s, events, n2);
    let at_n2 = state_after(s, events, n2);
    lemma_step_wf(at_n2, events[n - 2]);
    assert(at_n1 == at_n2.step(events[n - 2]).0);
    assert(at_n2.phase == Phase::Streaming);
}

/// Once a peer was given up, every beacon accepted later was read from the
/// stream of a later peer: the peer that failed contributes nothing from the
/// round of its failure onward.
pub proof fn lemma_accepted_after_failover_comes_from_later_peer(
    s: SessionModel,
    events: Seq<EventModel>,
    m: nat,
    n: nat,
)
    requires
        s.wf(),
        s.phase == Phase::Connecting || s.phase == Phase::Notifying || s.phase == Phase::Done,
        m < n < events.len(),
        rejects(state_after(s, events, m), events[m as int]),
        delivers(state_after(s, events, n), events[n as int]),
    ensures
        n >= m + 3,
        events[n - 2] == EventModel::Message(Some(state_after(s, events, n).pending)),
        state_after(s, events, (n - 2) as nat).peer > state_after(s, events, m).peer,
        state_after(s, events, n).pending.round > state_after(s, events, m).tail.round,
{
    lemma_accepted_beacon_was_verified(s, events, n);
    lemma_accepted_rounds_contiguous(s, events, m);
    let at_m = state_after(s, events, m);
    lemma_rejection_fails_over(at_m, events[m as int]);
    let m1 = m + 1;
    assert(state_after(s, events, m1) == at_m.step(events[m as int]).0);
    let n1 = (n - 1) as nat;
    let n2 = (n - 2) as nat;
    lemma_accepted_rounds_contiguous(s, events, n1);
    lemma_accepted_rounds_contiguous(s, events, n2);
    assert(state_after(s, events, n) == state_after(s, events, n1).step(events[n - 1]).0);
    assert(state_after(s, events, n1) == state_after(s, events, n2).step(events[n - 2]).0);
    lemma_step_wf(state_after(s, events, n1), events[n - 1]);
    lemma_step_wf(state_after(s, events, n2), events[n - 2]);
    assert(m != n1);
    assert(m != n2);
    lemma_peer_never_returns(s, events, m1, n2);
    lemma_tail_never_returns(s, events, m1, n2);
}

/// The round of the last accepted beacon never goes back.
pub proof fn lemma_tail_never_returns(s: SessionModel, events: Seq<EventModel>, i: nat, j: nat)
    requires
        s.wf(),
        i <= j <= events.len(),
    ensures
        state_after(s, events, i).tail.round <= state_after(s, events, j).tail.round,
    decreases j,
{
    if i < j {
        let m = (j - 1) as nat;
        lemma_tail_never_returns(s, events, i, m);
        lemma_accepted_rounds_contiguous(s, events, m);
        lemma_tail_moves_by_one(state_after(s, events, m), events[j - 1]);
    }
}

/// With the target at or behind the store's last beacon, a follow session
/// ends at once with success and asks for nothing.
pub proof fn lemma_follow_target_already_stored(
    beacon_id: Seq<char>,
    peers: nat,
    target: u64,
    last: BeaconModel,
)
    requires
        target <= last.round,
    ensures
        follow_start(beacon_id, peers, target, last).1 == ActionModel::Finish(Ok(())),
        follow_start(beacon_id, peers, target, last).0.phase == Phase::Done,
        follow_start(beacon_id, peers, target, last).0.tail == last,
{
}

/// When a session turns to a peer while the target lies behind the next
/// round to fetch, it fails with that round and the target.
pub proof fn lemma_target_behind_next_round(s: SessionModel, peer: nat)
    requires
        peer < s.peers,
        s.target < s.tail.round + 1,
        s.tail.round < u64::MAX,
    ensures
        s.try_peer(peer).1 == ActionModel::Finish(
            Err(
                SyncErrorModel::InvalidTarget {
                    from: (s.tail.round + 1) as u64,
                    target: s.target,
                },
            ),
        ),
        s.try_peer(peer).0.phase == Phase::Done,
{
}

/// A resync whose window is empty fails at its first peer.
pub proof fn lemma_resync_empty_window(
    beacon_id: Seq<char>,
    peers: nat,
    start_from: u64,
    up_to: u64,
    previous_signature: Seq<u8>,
)
    requires
        peers > 0,
        1 <= start_from,
        up_to < start_from,
    ensures
        resync_start(beacon_id, peers, start_from, up_to, previous_signature).1
            == ActionModel::Finish(
            Err(SyncErrorModel::InvalidTarget { from: start_from, target: up_to }),
        ),
{
}

} // verus!
