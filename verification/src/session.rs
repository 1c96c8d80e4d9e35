//! The executable sync session.

use crate::error::{outcome_model, StoreError, SyncError};
use crate::model::{
    follow_start, no_packet, resync_start, ActionModel, EventModel, Phase, SessionKind,
    SessionModel,
};
use crate::packet::{
    clone_bytes, Beacon, BeaconPacket, SignatureCheck, SyncProgress,
};
use vstd::prelude::*;

verus! {

/// What the caller reports to a session. See [`EventModel`].
#[derive(Debug, PartialEq, Eq)]
pub enum SyncEvent {
    StreamOpened(bool),
    Message(Option<BeaconPacket>),
    SignatureChecked(SignatureCheck),
    Stored(Result<(), StoreError>),
    Reported(bool),
    Forwarded(bool),
    FailureNotified,
}

impl View for SyncEvent {
    type V = EventModel;

    open spec fn view(&self) -> EventModel {
        match *self {
            SyncEvent::StreamOpened(opened) => EventModel::StreamOpened(opened),
            SyncEvent::Message(Some(p)) => EventModel::Message(Some(p@)),
            SyncEvent::Message(None) => EventModel::Message(None),
            SyncEvent::SignatureChecked(check) => EventModel::SignatureChecked(check),
            SyncEvent::Stored(Ok(())) => EventModel::Stored(Ok(())),
            SyncEvent::Stored(Err(err)) => EventModel::Stored(Err(err@)),
            SyncEvent::Reported(delivered) => EventModel::Reported(delivered),
            SyncEvent::Forwarded(delivered) => EventModel::Forwarded(delivered),
            SyncEvent::FailureNotified => EventModel::FailureNotified,
        }
    }
}

/// What a session asks the caller to do next. See [`ActionModel`].
#[derive(Debug, PartialEq, Eq)]
pub enum SyncAction {
    OpenStream { peer: usize, from: u64 },
    NextMessage,
    CheckSignature { previous_signature: Vec<u8>, round: u64, signature: Vec<u8> },
    Store(Beacon),
    Report(SyncProgress),
    Forward(BeaconPacket),
    NotifyFailure(SyncError),
    Finish(Result<(), SyncError>),
}

impl View for SyncAction {
    type V = ActionModel;

    open spec fn view(&self) -> ActionModel {
        match *self {
            SyncAction::OpenStream { peer, from } => ActionModel::OpenStream {
                peer: peer as nat,
                from,
            },
            SyncAction::NextMessage => ActionModel::NextMessage,
            SyncAction::CheckSignature {
                previous_signature,
                round,
                signature,
            } => ActionModel::CheckSignature {
                previous_signature: previous_signature@,
                round,
                signature: signature@,
            },
            SyncAction::Store(beacon) => ActionModel::Store(beacon@),
            SyncAction::Report(progress) => ActionModel::Report(progress@),
            SyncAction::Forward(packet) => ActionModel::Forward(packet@),
            SyncAction::NotifyFailure(err) => ActionModel::NotifyFailure(err@),
            SyncAction::Finish(result) => ActionModel::Finish(outcome_model(result)),
        }
    }
}

/// A running follow or resync session.
///
/// The caller carries out the action that the session returned, then calls
/// [`SyncSession::step`] with what happened, until the action is `Finish`.
pub struct SyncSession {
    kind: SessionKind,
    beacon_id: String,
    peers: usize,
    target: u64,
    phase: Phase,
    peer: usize,
    tail: Beacon,
    pending: BeaconPacket,
}

impl View for SyncSession {
    type V = SessionModel;

    closed spec fn view(&self) -> SessionModel {
        SessionModel {
            kind: self.kind,
            beacon_id: self.beacon_id@,
            peers: self.peers as nat,
            target: self.target,
            phase: self.phase,
            peer: self.peer as nat,
            tail: self.tail@,
            pending: self.pending@,
        }
    }
}

impl SyncSession {
    #[verifier::type_invariant]
    spec fn valid(self) -> bool {
        self@.wf()
    }

    /// The last accepted beacon: the store's tail in a follow session, the last
    /// forwarded beacon in a resync.
    pub fn tail(&self) -> (res: &Beacon)
        ensures
            res@ == self@.tail,
    {
        &self.tail
    }

    /// The round at which the session stops.
    pub fn target(&self) -> (res: u64)
        ensures
            res == self@.target,
    {
        self.target
    }

    /// Index of the current peer.
    pub fn peer(&self) -> (res: usize)
        ensures
            res == self@.peer,
    {
        self.peer
    }

    /// Which answer the session is waiting for.
    pub fn phase(&self) -> (res: Phase)
        ensures
            res == self@.phase,
    {
        self.phase
    }

    /// A follow session for the chain `beacon_id` over `peers` peers, up to
    /// round `target`, where `last_stored` is the store's latest beacon.
    pub(crate) fn follow(beacon_id: String, peers: usize, target: u64, last_stored: Beacon) -> (res: (
        SyncSession,
        SyncAction,
    ))
        ensures
            (res.0@, res.1@) == follow_start(beacon_id@, peers as nat, target, last_stored@),
            res.0@.wf(),
    {
        let done = last_stored.round >= target;
        let s = SyncSession {
            kind: SessionKind::Follow,
            beacon_id,
            peers,
            target,
            phase: Phase::Done,
            peer: 0,
            tail: last_stored,
            pending: BeaconPacket { round: 0, signature: Vec::new(), metadata: None },
        };
        assert(s.pending@ == no_packet());
        if done {
            s.finish(Ok(()))
        } else {
            s.try_peer(0)
        }
    }

    /// A resync session for the rounds `start_from ..= up_to`.
    pub(crate) fn resync(
        beacon_id: String,
        peers: usize,
        start_from: u64,
        up_to: u64,
        previous_signature: Vec<u8>,
    ) -> (res: (SyncSession, SyncAction))
        requires
            start_from >= 1,
        ensures
            (res.0@, res.1@) == resync_start(
                beacon_id@,
                peers as nat,
                start_from,
                up_to,
                previous_signature@,
            ),
            res.0@.wf(),
    {
        let s = SyncSession {
            kind: SessionKind::Resync,
            beacon_id,
            peers,
            target: up_to,
            phase: Phase::Done,
            peer: 0,
            tail: Beacon { round: start_from - 1, signature: previous_signature },
            pending: BeaconPacket { round: 0, signature: Vec::new(), metadata: None },
        };
        assert(s.pending@ == no_packet());
        s.try_peer(0)
    }

    fn finish(self, result: Result<(), SyncError>) -> (res: (SyncSession, SyncAction))
        ensures
            (res.0@, res.1@) == self@.finish(outcome_model(result)),
            res.0@.wf(),
    {
        proof {
            use_type_invariant(&self);
        }
        let s = SyncSession { phase: Phase::Done, ..self };
        (s, SyncAction::Finish(result))
    }

    fn try_peer(self, peer: usize) -> (res: (SyncSession, SyncAction))
        requires
            peer <= self@.peers,
            self@.tail.round < u64::MAX,
        ensures
            (res.0@, res.1@) == self@.try_peer(peer as nat),
            res.0@.wf(),
    {
        proof {
            use_type_invariant(&self);
        }
        if peer >= self.peers {
            let last = self.tail.round;
            let err = SyncError::TriedAllPeers { last };
            match self.kind {
                SessionKind::Follow => {
                    if last != self.target {
                        let s = SyncSession { phase: Phase::Notifying, peer, ..self };
                        (s, SyncAction::NotifyFailure(err))
                    } else {
                        let s = SyncSession { phase: Phase::Done, peer, ..self };
                        (s, SyncAction::Finish(Ok(())))
                    }
                },
                SessionKind::Resync => {
                    let s = SyncSession { phase: Phase::Done, peer, ..self };
                    (s, SyncAction::Finish(Err(err)))
                },
            }
        } else if self.target <= self.tail.round {
            let from = self.tail.round + 1;
            let target = self.target;
            let s = SyncSession { phase: Phase::Done, peer, ..self };
            (s, SyncAction::Finish(Err(SyncError::InvalidTarget { from, target })))
        } else {
            let from = self.tail.round + 1;
            let s = SyncSession { phase: Phase::Connecting, peer, ..self };
            (s, SyncAction::OpenStream { peer, from })
        }
    }

    fn next_peer(self) -> (res: (SyncSession, SyncAction))
        requires
            self@.peer < self@.peers,
            self@.tail.round < u64::MAX,
        ensures
            (res.0@, res.1@) == self@.try_peer(self@.peer + 1),
            res.0@.wf(),
    {
        let peer = self.peer + 1;
        self.try_peer(peer)
    }

    fn accepts(&self, p: &BeaconPacket) -> (res: bool)
        requires
            self@.tail.round < self@.target,
        ensures
            res == self@.accepts(p@),
    {
        match &p.metadata {
            Some(m) => m.beacon_id == self.beacon_id && p.round == self.tail.round + 1,
            None => false,
        }
    }

    fn resume(self) -> (res: (SyncSession, SyncAction))
        requires
            self@.peer < self@.peers,
            self@.tail.round <= self@.target,
        ensures
            (res.0@, res.1@) == self@.resume(),
            res.0@.wf(),
    {
        proof {
            use_type_invariant(&self);
        }
        if self.tail.round == self.target {
            self.finish(Ok(()))
        } else {
            let s = SyncSession { phase: Phase::Streaming, ..self };
            (s, SyncAction::NextMessage)
        }
    }

    /// The state after `event`, and what to do next.
    pub fn step(self, event: SyncEvent) -> (res: (SyncSession, SyncAction))
        ensures
            (res.0@, res.1@) == self@.step(event@),
            res.0@.wf(),
    {
        proof {
            use_type_invariant(&self);
        }
        match (self.phase, event) {
            (Phase::Connecting, SyncEvent::StreamOpened(true)) => {
                let s = SyncSession { phase: Phase::Streaming, ..self };
                (s, SyncAction::NextMessage)
            },
            (Phase::Connecting, SyncEvent::StreamOpened(false)) => self.next_peer(),
            (Phase::Streaming, SyncEvent::Message(Some(p))) => {
                if self.accepts(&p) {
                    let previous_signature = clone_bytes(&self.tail.signature);
                    let round = p.round;
                    let signature = clone_bytes(&p.signature);
                    let s = SyncSession { phase: Phase::Verifying, pending: p, ..self };
                    (s, SyncAction::CheckSignature { previous_signature, round, signature })
                } else {
                    self.next_peer()
                }
            },
            (Phase::Streaming, SyncEvent::Message(None)) => self.next_peer(),
            (Phase::Verifying, SyncEvent::SignatureChecked(SignatureCheck::Valid)) => {
                match self.kind {
                    SessionKind::Follow => {
                        let beacon = self.pending.beacon();
                        let s = SyncSession { phase: Phase::Storing, ..self };
                        (s, SyncAction::Store(beacon))
                    },
                    SessionKind::Resync => {
                        let packet = self.pending.duplicate();
                        let s = SyncSession { phase: Phase::Forwarding, ..self };
                        (s, SyncAction::Forward(packet))
                    },
                }
            },
            (Phase::Verifying, SyncEvent::SignatureChecked(_)) => self.next_peer(),
            (Phase::Storing, SyncEvent::Stored(Ok(()))) => {
                let current = self.pending.round;
                let target = self.target;
                let tail = self.pending.beacon();
                let s = SyncSession { phase: Phase::Reporting, tail, ..self };
                (s, SyncAction::Report(SyncProgress { current, target, metadata: None }))
            },
            (Phase::Storing, SyncEvent::Stored(Err(err))) => self.finish(
                Err(SyncError::ChainStore(err)),
            ),
            (Phase::Reporting, SyncEvent::Reported(true)) => self.resume(),
            (Phase::Reporting, SyncEvent::Reported(false)) => self.finish(Ok(())),
            (Phase::Forwarding, SyncEvent::Forwarded(true)) => {
                let tail = self.pending.beacon();
                if tail.round == self.target {
                    let s = SyncSession { phase: Phase::Done, tail, ..self };
                    (s, SyncAction::Finish(Ok(())))
                } else {
                    let s = SyncSession { phase: Phase::Streaming, tail, ..self };
                    (s, SyncAction::NextMessage)
                }
            },
            (Phase::Forwarding, SyncEvent::Forwarded(false)) => self.finish(
                Err(SyncError::SyncClosedTx),
            ),
            (Phase::Notifying, SyncEvent::FailureNotified) => {
                let last = self.tail.round;
                self.finish(Err(SyncError::TriedAllPeers { last }))
            },
            _ => self.finish(Err(SyncError::Internal)),
        }
    }
}

} // verus!
