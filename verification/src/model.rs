//! The sync session as a mathematical state machine.
//!
//! A session reads beacons from one peer at a time. Each beacon is checked
//! against the chain (identifier, round, signature) before it is handed to
//! the store or to the resync pipeline; any failed check abandons the peer
//! and the session goes on with the next one, from the round after the last
//! accepted beacon.

use crate::error::SyncErrorModel;
use crate::packet::{BeaconModel, PacketModel, ProgressModel, SignatureCheck};
use vstd::prelude::*;

verus! {

/// What a session does with a beacon that passed every check.
#[derive(Debug, Clone, Copy, PartialEq, Eq, Structural)]
pub enum SessionKind {
    /// One-shot follow: store the beacon, then report progress.
    Follow,
    /// Continuous resync: forward the packet to the update pipeline.
    Resync,
}

/// Which answer a session is waiting for.
#[derive(Debug, Clone, Copy, PartialEq, Eq, Structural)]
pub enum Phase {
    /// A stream to the current peer was asked for.
    Connecting,
    /// The next message of the open stream was asked for.
    Streaming,
    /// A signature check of the pending packet was asked for.
    Verifying,
    /// The store was asked to append the pending beacon.
    Storing,
    /// A progress report was sent.
    Reporting,
    /// The pending packet was sent to the pipeline.
    Forwarding,
    /// The final failure was sent to the progress channel.
    Notifying,
    /// The session has ended.
    Done,
}

/// State of a session.
pub struct SessionModel {
    pub kind: SessionKind,
    /// Identifier of the chain that is synced.
    pub beacon_id: Seq<char>,
    /// Number of peers; they are tried in order, each at most once.
    pub peers: nat,
    /// Round at which the session stops.
    pub target: u64,
    pub phase: Phase,
    /// Index of the current peer.
    pub peer: nat,
    /// Last accepted beacon: the next one must follow it.
    pub tail: BeaconModel,
    /// Packet under validation or delivery.
    pub pending: PacketModel,
}

/// What the outside reports to a session.
pub enum EventModel {
    /// Whether a stream to the current peer could be opened.
    StreamOpened(bool),
    /// The next message of the stream; `None` when the stream has ended or failed.
    Message(Option<PacketModel>),
    /// Result of the signature check that was asked for.
    SignatureChecked(SignatureCheck),
    /// Result of the append that was asked for.
    Stored(Result<(), Seq<char>>),
    /// Whether the progress report reached its receiver.
    Reported(bool),
    /// Whether the pipeline took the packet.
    Forwarded(bool),
    /// The final failure was handed to the progress channel, or dropped by it.
    FailureNotified,
}

/// What a session asks the outside to do next.
pub enum ActionModel {
    /// Open a stream of beacons to peer `peer`, starting at round `from`.
    OpenStream { peer: nat, from: u64 },
    /// Read the next message of the open stream.
    NextMessage,
    /// Check `signature` for `round` against the chain's public key and `previous_signature`.
    CheckSignature { previous_signature: Seq<u8>, round: u64, signature: Seq<u8> },
    /// Append the beacon to the store.
    Store(BeaconModel),
    /// Send the progress to the requester.
    Report(ProgressModel),
    /// Send the packet to the update pipeline.
    Forward(PacketModel),
    /// Send the failure to the requester, if it still listens.
    NotifyFailure(SyncErrorModel),
    /// The session is over, with this result.
    Finish(Result<(), SyncErrorModel>),
}

/// The pending packet of a session that has none.
pub open spec fn no_packet() -> PacketModel {
    PacketModel { round: 0, signature: Seq::empty(), metadata: None }
}

impl SessionModel {
    /// The session ends with `result`.
    pub open spec fn finish(self, result: Result<(), SyncErrorModel>) -> (SessionModel, ActionModel) {
        (SessionModel { phase: Phase::Done, ..self }, ActionModel::Finish(result))
    }

    /// No peer is left.
    pub open spec fn exhausted(self) -> (SessionModel, ActionModel) {
        let err = SyncErrorModel::TriedAllPeers { last: self.tail.round };
        match self.kind {
            SessionKind::Follow => if self.tail.round != self.target {
                (SessionModel { phase: Phase::Notifying, ..self }, ActionModel::NotifyFailure(err))
            } else {
                self.finish(Ok(()))
            },
            SessionKind::Resync => self.finish(Err(err)),
        }
    }

    /// The session turns to peer `peer`, resuming after the last accepted beacon.
    pub open spec fn try_peer(self, peer: nat) -> (SessionModel, ActionModel) {
        let s = SessionModel { peer, ..self };
        let from = (self.tail.round + 1) as u64;
        if peer >= self.peers {
            s.exhausted()
        } else if self.target < self.tail.round + 1 {
            s.finish(Err(SyncErrorModel::InvalidTarget { from, target: self.target }))
        } else {
            (SessionModel { phase: Phase::Connecting, ..s }, ActionModel::OpenStream { peer, from })
        }
    }

    /// The structural checks on a packet: its metadata names this chain, and
    /// its round is the one after the last accepted beacon.
    pub open spec fn accepts(self, p: PacketModel) -> bool {
        &&& p.metadata matches Some(m) && m.beacon_id == self.beacon_id
        &&& p.round == self.tail.round + 1
    }

    /// The pending beacon becomes the last accepted one.
    pub open spec fn advance(self) -> SessionModel {
        SessionModel { tail: self.pending.beacon(), ..self }
    }

    /// The session goes on reading, unless the target is reached.
    pub open spec fn resume(self) -> (SessionModel, ActionModel) {
        if self.tail.round == self.target {
            self.finish(Ok(()))
        } else {
            (SessionModel { phase: Phase::Streaming, ..self }, ActionModel::NextMessage)
        }
    }

    /// The transition: the state after `event`, and what to do next.
    ///
    /// An event that does not answer what the session asked for ends it with
    /// `Internal`.
    pub open spec fn step(self, event: EventModel) -> (SessionModel, ActionModel) {
        match (self.phase, event) {
            (Phase::Connecting, EventModel::StreamOpened(true)) => (
                SessionModel { phase: Phase::Streaming, ..self },
                ActionModel::NextMessage,
            ),
            (Phase::Connecting, EventModel::StreamOpened(false)) => self.try_peer(self.peer + 1),
            (Phase::Streaming, EventModel::Message(Some(p))) => if self.accepts(p) {
                (
                    SessionModel { phase: Phase::Verifying, pending: p, ..self },
                    ActionModel::CheckSignature {
                        previous_signature: self.tail.signature,
                        round: p.round,
                        signature: p.signature,
                    },
                )
            } else {
                self.try_peer(self.peer + 1)
            },
            (Phase::Streaming, EventModel::Message(None)) => self.try_peer(self.peer + 1),
            (Phase::Verifying, EventModel::SignatureChecked(SignatureCheck::Valid)) => match self.kind {
                SessionKind::Follow => (
                    SessionModel { phase: Phase::Storing, ..self },
                    ActionModel::Store(self.pending.beacon()),
                ),
                SessionKind::Resync => (
                    SessionModel { phase: Phase::Forwarding, ..self },
                    ActionModel::Forward(self.pending),
                ),
            },
            (Phase::Verifying, EventModel::SignatureChecked(_)) => self.try_peer(self.peer + 1),
            (Phase::Storing, EventModel::Stored(Ok(()))) => (
                SessionModel { phase: Phase::Reporting, ..self.advance() },
                ActionModel::Report(
                    ProgressModel {
                        current: self.pending.round,
                        target: self.target,
                        metadata: None,
                    },
                ),
            ),
            (Phase::Storing, EventModel::Stored(Err(reason))) => self.finish(
                Err(SyncErrorModel::ChainStore(reason)),
            ),
            (Phase::Reporting, EventModel::Reported(true)) => self.resume(),
            (Phase::Reporting, EventModel::Reported(false)) => self.finish(Ok(())),
            (Phase::Forwarding, EventModel::Forwarded(true)) => self.advance().resume(),
            (Phase::Forwarding, EventModel::Forwarded(false)) => self.finish(
                Err(SyncErrorModel::SyncClosedTx),
            ),
            (Phase::Notifying, EventModel::FailureNotified) => self.finish(
                Err(SyncErrorModel::TriedAllPeers { last: self.tail.round }),
            ),
            _ => self.finish(Err(SyncErrorModel::Internal)),
        }
    }

    /// What holds of every state that a session reaches.
    pub open spec fn wf(self) -> bool {
        &&& self.peer <= self.peers
        &&& match self.phase {
            Phase::Connecting | Phase::Streaming => {
                &&& self.peer < self.peers
                &&& self.tail.round < self.target
            },
            Phase::Verifying => {
                &&& self.peer < self.peers
                &&& self.tail.round < self.target
                &&& self.accepts(self.pending)
            },
            Phase::Storing => {
                &&& self.kind == SessionKind::Follow
                &&& self.peer < self.peers
                &&& self.tail.round < self.target
                &&& self.accepts(self.pending)
            },
            Phase::Forwarding => {
                &&& self.kind == SessionKind::Resync
                &&& self.peer < self.peers
                &&& self.tail.round < self.target
                &&& self.accepts(self.pending)
            },
            Phase::Reporting => {
                &&& self.kind == SessionKind::Follow
                &&& self.peer < self.peers
                &&& self.tail.round <= self.target
            },
            Phase::Notifying => self.kind == SessionKind::Follow,
            Phase::Done => true,
        }
    }
}

/// Start of a follow session: `last` is the store's latest beacon.
///
/// With the target at or behind `last` there is nothing to do, and the
/// session ends at once without asking for anything.
pub open spec fn follow_start(
    beacon_id: Seq<char>,
    peers: nat,
    target: u64,
    last: BeaconModel,
) -> (SessionModel, ActionModel) {
    let s = SessionModel {
        kind: SessionKind::Follow,
        beacon_id,
        peers,
        target,
        phase: Phase::Done,
        peer: 0,
        tail: last,
        pending: no_packet(),
    };
    if last.round >= target {
        s.finish(Ok(()))
    } else {
        s.try_peer(0)
    }
}

/// Start of a resync of the rounds `start_from ..= up_to`;
/// `previous_signature` is the signature of round `start_from - 1`.
pub open spec fn resync_start(
    beacon_id: Seq<char>,
    peers: nat,
    start_from: u64,
    up_to: u64,
    previous_signature: Seq<u8>,
) -> (SessionModel, ActionModel) {
    let s = SessionModel {
        kind: SessionKind::Resync,
        beacon_id,
        peers,
        target: up_to,
        phase: Phase::Done,
        peer: 0,
        tail: BeaconModel { round: (start_from - 1) as u64, signature: previous_signature },
        pending: no_packet(),
    };
    s.try_peer(0)
}

} // verus!
