//! Chain parameters: how they are obtained from peers and validated.

use crate::error::{SyncError, SyncErrorModel};
use crate::packet::{clone_bytes, ChainInfoPacket, InfoPacketModel};
use vstd::prelude::*;

verus! {

/// Parameters of a chain: the trust anchor of a sync session. Every beacon
/// must verify under `public_key`.
#[derive(Debug, Clone, PartialEq, Eq)]
pub struct ChainInfo {
    pub beacon_id: String,
    pub public_key: Vec<u8>,
    pub genesis_time: i64,
    pub period: u32,
    pub chain_hash: Vec<u8>,
}

/// Mathematical value of a [`ChainInfo`].
pub struct ChainInfoModel {
    pub beacon_id: Seq<char>,
    pub public_key: Seq<u8>,
    pub genesis_time: i64,
    pub period: u32,
    pub chain_hash: Seq<u8>,
}

impl View for ChainInfo {
    type V = ChainInfoModel;

    open spec fn view(&self) -> ChainInfoModel {
        ChainInfoModel {
            beacon_id: self.beacon_id@,
            public_key: self.public_key@,
            genesis_time: self.genesis_time,
            period: self.period,
            chain_hash: self.chain_hash@,
        }
    }
}

/// The chain info that a packet gives for `beacon_id`, if it gives one: its
/// public key must be a valid key of the scheme, and its metadata must be
/// present, which names the chain hash.
pub open spec fn info_of_packet(
    packet: InfoPacketModel,
    beacon_id: Seq<char>,
    public_key_valid: bool,
) -> Option<ChainInfoModel> {
    match packet.metadata {
        Some(m) if public_key_valid => Some(
            ChainInfoModel {
                beacon_id,
                public_key: packet.public_key,
                genesis_time: packet.genesis_time,
                period: packet.period,
                chain_hash: m.chain_hash,
            },
        ),
        _ => None,
    }
}

impl ChainInfo {
    /// Builds the chain info from an info packet. `public_key_valid` says
    /// whether the packet's public key decodes to a key of the scheme.
    pub fn from_packet(packet: &ChainInfoPacket, beacon_id: String, public_key_valid: bool) -> (res:
        Option<ChainInfo>)
        ensures
            match res {
                Some(info) => Some(info@) == info_of_packet(packet@, beacon_id@, public_key_valid),
                None => info_of_packet(packet@, beacon_id@, public_key_valid) is None,
            },
    {
        if !public_key_valid {
            return None;
        }
        match &packet.metadata {
            Some(m) => Some(
                ChainInfo {
                    beacon_id,
                    public_key: clone_bytes(&packet.public_key),
                    genesis_time: packet.genesis_time,
                    period: packet.period,
                    chain_hash: clone_bytes(&m.chain_hash),
                },
            ),
            None => None,
        }
    }
}

/// Whether a peer's answer to an info request can be used: it is a packet
/// whose metadata names the requested chain.
pub open spec fn info_acceptable(reply: Option<InfoPacketModel>, beacon_id: Seq<char>) -> bool {
    reply matches Some(p) && (p.metadata matches Some(m) && m.beacon_id == beacon_id)
}

/// Mathematical value of an optional info packet.
pub open spec fn reply_model(reply: Option<ChainInfoPacket>) -> Option<InfoPacketModel> {
    match reply {
        Some(p) => Some(p@),
        None => None,
    }
}

/// State of the search for chain info among the peers.
pub struct NegotiationModel {
    /// Identifier of the chain that is asked for.
    pub beacon_id: Seq<char>,
    /// Number of peers; they are asked in order.
    pub peers: nat,
    /// Index of the peer that was asked last.
    pub peer: nat,
    /// Whether the search has ended.
    pub done: bool,
}

/// What the search asks for next.
pub enum NegotiationStep {
    /// Ask peer `peer` for its chain info.
    Ask { peer: nat },
    /// This packet is the chain info.
    Accepted(InfoPacketModel),
    /// The search failed.
    Failed(SyncErrorModel),
}

impl NegotiationModel {
    /// The search turns to peer `peer`.
    pub open spec fn ask(self, peer: nat) -> (NegotiationModel, NegotiationStep) {
        if peer >= self.peers {
            (
                NegotiationModel { peer, done: true, ..self },
                NegotiationStep::Failed(SyncErrorModel::FailedInfoFromAllPeers),
            )
        } else {
            (NegotiationModel { peer, ..self }, NegotiationStep::Ask { peer })
        }
    }

    /// The transition on a peer's answer; `None` stands for a peer that
    /// could not be reached or did not answer. The first acceptable answer
    /// is taken; any other answer moves the search to the next peer. An
    /// answer after the end of the search fails with `Internal`.
    pub open spec fn on_reply(self, reply: Option<InfoPacketModel>) -> (
        NegotiationModel,
        NegotiationStep,
    ) {
        if self.done {
            (self, NegotiationStep::Failed(SyncErrorModel::Internal))
        } else if info_acceptable(reply, self.beacon_id) {
            (NegotiationModel { done: true, ..self }, NegotiationStep::Accepted(reply.unwrap()))
        } else {
            self.ask(self.peer + 1)
        }
    }

    /// What holds of every state of a search.
    pub open spec fn wf(self) -> bool {
        &&& self.peer <= self.peers
        &&& !self.done ==> self.peer < self.peers
    }
}

/// Start of a search for the chain info of `beacon_id` among `peers` peers.
pub open spec fn negotiation_start(beacon_id: Seq<char>, peers: nat) -> (
    NegotiationModel,
    NegotiationStep,
) {
    NegotiationModel { beacon_id, peers, peer: 0, done: false }.ask(0)
}

/// What the search asks for next. See [`NegotiationStep`].
#[derive(Debug, PartialEq, Eq)]
pub enum InfoAction {
    Ask { peer: usize },
    Accepted(ChainInfoPacket),
    Failed(SyncError),
}

impl View for InfoAction {
    type V = NegotiationStep;

    open spec fn view(&self) -> NegotiationStep {
        match *self {
            InfoAction::Ask { peer } => NegotiationStep::Ask { peer: peer as nat },
            InfoAction::Accepted(packet) => NegotiationStep::Accepted(packet@),
            InfoAction::Failed(err) => NegotiationStep::Failed(err@),
        }
    }
}

/// A running search for chain info: peers are asked in order until one
/// answers with a packet for the requested chain.
pub struct InfoNegotiator {
    beacon_id: String,
    peers: usize,
    peer: usize,
    done: bool,
}

impl View for InfoNegotiator {
    type V = NegotiationModel;

    closed spec fn view(&self) -> NegotiationModel {
        NegotiationModel {
            beacon_id: self.beacon_id@,
            peers: self.peers as nat,
            peer: self.peer as nat,
            done: self.done,
        }
    }
}

impl InfoNegotiator {
    #[verifier::type_invariant]
    spec fn valid(self) -> bool {
        self@.wf()
    }

    fn ask(self, peer: usize) -> (res: (InfoNegotiator, InfoAction))
        requires
            peer <= self@.peers,
        ensures
            (res.0@, res.1@) == self@.ask(peer as nat),
            res.0@.wf(),
    {
        if peer >= self.peers {
            let s = InfoNegotiator { peer, done: true, ..self };
            (s, InfoAction::Failed(SyncError::FailedInfoFromAllPeers))
        } else {
            let s = InfoNegotiator { peer, ..self };
            (s, InfoAction::Ask { peer })
        }
    }

    /// The state after a peer's answer, and what to do next.
    pub fn on_reply(self, reply: Option<ChainInfoPacket>) -> (res: (InfoNegotiator, InfoAction))
        ensures
            (res.0@, res.1@) == self@.on_reply(reply_model(reply)),
            res.0@.wf(),
    {
        proof {
            use_type_invariant(&self);
        }
        if self.done {
            return (self, InfoAction::Failed(SyncError::Internal));
        }
        let acceptable = match &reply {
            Some(p) => match &p.metadata {
                Some(m) => m.beacon_id == self.beacon_id,
                None => false,
            },
            None => false,
        };
        if acceptable {
            let s = InfoNegotiator { done: true, ..self };
            match reply {
                Some(p) => (s, InfoAction::Accepted(p)),
                None => (s, InfoAction::Failed(SyncError::Internal)),
            }
        } else {
            let peer = self.peer + 1;
            self.ask(peer)
        }
    }
}

/// Starts the search for the chain info of `beacon_id` among `peers` peers.
///
/// The caller asks the peer that the action names, and reports its answer to
/// [`InfoNegotiator::on_reply`], until the action is `Accepted` or `Failed`.
pub fn chain_info_from_peers(peers: usize, beacon_id: &str) -> (res: (InfoNegotiator, InfoAction))
    ensures
        (res.0@, res.1@) == negotiation_start(beacon_id@, peers as nat),
        res.0@.wf(),
{
    let s = InfoNegotiator { beacon_id: beacon_id.to_owned(), peers, peer: 0, done: peers == 0 };
    if peers == 0 {
        (s, InfoAction::Failed(SyncError::FailedInfoFromAllPeers))
    } else {
        (s, InfoAction::Ask { peer: 0 })
    }
}

/// The state of a search after the first `n` answers.
pub open spec fn negotiation_after(
    beacon_id: Seq<char>,
    replies: Seq<Option<InfoPacketModel>>,
    n: nat,
) -> (NegotiationModel, NegotiationStep)
    decreases n,
{
    if n == 0 {
        negotiation_start(beacon_id, replies.len())
    } else {
        negotiation_after(beacon_id, replies, (n - 1) as nat).0.on_reply(replies[n - 1])
    }
}

/// Where each peer gives one answer, the search ends with the first answer
/// that is acceptable, after asking the peers before it and no peer behind
/// it; where no answer is acceptable, it fails after the last one.
pub proof fn lemma_first_acceptable_reply_wins(
    beacon_id: Seq<char>,
    replies: Seq<Option<InfoPacketModel>>,
    n: nat,
)
    requires
        n <= replies.len(),
        forall|k: int| 0 <= k < n ==> !info_acceptable(#[trigger] replies[k], beacon_id),
    ensures
        negotiation_after(beacon_id, replies, n).0.wf(),
        negotiation_after(beacon_id, replies, n).0.beacon_id == beacon_id,
        negotiation_after(beacon_id, replies, n).0.peers == replies.len(),
        n < replies.len() ==> negotiation_after(beacon_id, replies, n).1 == (NegotiationStep::Ask {
            peer: n,
        }) && !negotiation_after(beacon_id, replies, n).0.done && negotiation_after(
            beacon_id,
            replies,
            n,
        ).0.peer == n,
        n < replies.len() && info_acceptable(replies[n as int], beacon_id) ==> negotiation_after(
            beacon_id,
            replies,
            n + 1,
        ).1 == NegotiationStep::Accepted(replies[n as int].unwrap()),
        n == replies.len() ==> negotiation_after(beacon_id, replies, n).1
            == NegotiationStep::Failed(SyncErrorModel::FailedInfoFromAllPeers),
    decreases n,
{
    if n > 0 {
        lemma_first_acceptable_reply_wins(beacon_id, replies, (n - 1) as nat);
    }
}

} // verus!
