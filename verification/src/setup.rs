//! Setting up a follow session: from the requested nodes to a configuration.
//!
//! The setup picks the peers, asks them for the chain info, has the chain
//! hash of the accepted packet derived and compares it with the expected
//! one, and only then has the store check the genesis. Each of these can end
//! the setup, and nothing that comes later is then asked for.

use crate::encoding::mismatch_details;
use crate::error::{StoreError, SyncError, SyncErrorModel};
use crate::follow::{
    address_texts, select_peers, valid_addresses, verify_chain_hash, ConfigModel,
    DefaultSyncerConfig,
};
use crate::info::{
    chain_info_from_peers, info_acceptable, negotiation_start, reply_model, InfoAction,
    InfoNegotiator, NegotiationModel, NegotiationStep,
};
use crate::packet::{clone_bytes, Address, ChainInfoPacket, InfoPacketModel, StartSyncRequest};
use vstd::prelude::*;

verus! {

/// Which answer a setup is waiting for.
#[derive(Debug, Clone, Copy, PartialEq, Eq, Structural)]
pub enum SetupPhase {
    /// A peer was asked for its chain info.
    Asking,
    /// The chain hash of the accepted packet was asked for.
    Hashing,
    /// The store was asked to check the genesis.
    CheckingGenesis,
    /// The setup has ended.
    Done,
}

/// State of a setup.
pub struct SetupModel {
    /// Identifier of the chain to follow.
    pub beacon_id: Seq<char>,
    /// The peers of the session, in the order in which they are tried.
    pub peers: Seq<Address>,
    /// The chain hash that the request expects, if it names one.
    pub expected_hash: Option<Seq<u8>>,
    /// The search for chain info among the peers.
    pub negotiation: NegotiationModel,
    pub phase: SetupPhase,
    /// The chain info packet that was accepted.
    pub packet: InfoPacketModel,
}

/// What the outside reports to a setup.
pub enum SetupEventModel {
    /// A peer's answer to the info request; `None` for a peer that could not
    /// be reached or did not answer.
    InfoReply(Option<InfoPacketModel>),
    /// The chain hash derived from the accepted packet.
    Hashed(Seq<u8>),
    /// The store's answer to the genesis check.
    GenesisChecked(Result<(), Seq<char>>),
}

/// What a setup asks the outside to do next.
pub enum SetupActionModel {
    /// Ask peer `peer` for its chain info.
    AskInfo { peer: nat },
    /// Derive the chain hash of this packet.
    HashPacket(InfoPacketModel),
    /// Have the store check this group hash against its recorded genesis.
    CheckGenesis { group_hash: Seq<u8> },
    /// The setup is over, with this result.
    Finish(Result<ConfigModel, SyncErrorModel>),
}

/// The accepted packet of a setup that has none yet.
pub open spec fn no_info() -> InfoPacketModel {
    InfoPacketModel {
        public_key: Seq::empty(),
        period: 0,
        genesis_time: 0,
        group_hash: Seq::empty(),
        scheme_id: Seq::empty(),
        metadata: None,
    }
}

/// The chain hash that a request expects.
pub open spec fn expected_hash(req: StartSyncRequest) -> Option<Seq<u8>> {
    match req.metadata {
        Some(m) => Some(m.chain_hash@),
        None => None,
    }
}

/// Position of a phase in the course of a setup.
pub open spec fn phase_rank(phase: SetupPhase) -> nat {
    match phase {
        SetupPhase::Asking => 0,
        SetupPhase::Hashing => 1,
        SetupPhase::CheckingGenesis => 2,
        SetupPhase::Done => 3,
    }
}

impl SetupModel {
    /// The setup ends with `result`.
    pub open spec fn finish(self, result: Result<ConfigModel, SyncErrorModel>) -> (
        SetupModel,
        SetupActionModel,
    ) {
        (SetupModel { phase: SetupPhase::Done, ..self }, SetupActionModel::Finish(result))
    }

    /// The configuration that a setup gives when it goes through.
    pub open spec fn config(self) -> ConfigModel {
        ConfigModel {
            packet: self.packet,
            beacon_id: self.beacon_id,
            peers: address_texts(self.peers),
        }
    }

    /// The transition: the state after `event`, and what to do next.
    ///
    /// A peer's answer goes to the search for chain info: the first
    /// acceptable packet is taken and its hash asked for; when the last peer
    /// gave none, the setup fails. A derived hash that is not the expected
    /// one ends the setup; only a matching one lets the genesis be checked.
    /// An event that does not answer what the setup asked for ends it with
    /// `Internal`.
    pub open spec fn step(self, event: SetupEventModel) -> (SetupModel, SetupActionModel) {
        match (self.phase, event) {
            (SetupPhase::Asking, SetupEventModel::InfoReply(reply)) => {
                let (negotiation, next) = self.negotiation.on_reply(reply);
                let s = SetupModel { negotiation, ..self };
                match next {
                    NegotiationStep::Ask { peer } => (s, SetupActionModel::AskInfo { peer }),
                    NegotiationStep::Accepted(packet) => (
                        SetupModel { phase: SetupPhase::Hashing, packet, ..s },
                        SetupActionModel::HashPacket(packet),
                    ),
                    NegotiationStep::Failed(err) => s.finish(Err(err)),
                }
            },
            (SetupPhase::Hashing, SetupEventModel::Hashed(hash)) => if Some(hash)
                == self.expected_hash {
                (
                    SetupModel { phase: SetupPhase::CheckingGenesis, ..self },
                    SetupActionModel::CheckGenesis { group_hash: self.packet.group_hash },
                )
            } else {
                self.finish(
                    Err(
                        SyncErrorModel::ChainHashMismatch(
                            mismatch_details(hash, self.expected_hash.unwrap()),
                        ),
                    ),
                )
            },
            (SetupPhase::CheckingGenesis, SetupEventModel::GenesisChecked(Ok(_))) => self.finish(
                Ok(self.config()),
            ),
            (
                SetupPhase::CheckingGenesis,
                SetupEventModel::GenesisChecked(Err(reason)),
            ) => self.finish(Err(SyncErrorModel::ChainStore(reason))),
            _ => self.finish(Err(SyncErrorModel::Internal)),
        }
    }

    /// What holds of every state that a setup reaches.
    pub open spec fn wf(self) -> bool {
        &&& self.negotiation.wf()
        &&& self.negotiation.beacon_id == self.beacon_id
        &&& self.negotiation.peers == self.peers.len()
        &&& self.phase == SetupPhase::Asking ==> !self.negotiation.done
        &&& self.phase == SetupPhase::Hashing || self.phase == SetupPhase::CheckingGenesis
            ==> info_acceptable(Some(self.packet), self.beacon_id)
    }
}

/// Start of a setup for the chain `beacon_id` with the chosen peers. Without
/// a peer the setup fails at once; else the first peer is asked.
pub open spec fn setup_start(
    beacon_id: Seq<char>,
    peers: Seq<Address>,
    expected_hash: Option<Seq<u8>>,
) -> (SetupModel, SetupActionModel) {
    let s = SetupModel {
        beacon_id,
        peers,
        expected_hash,
        negotiation: negotiation_start(beacon_id, peers.len()).0,
        phase: SetupPhase::Done,
        packet: no_info(),
    };
    if peers.len() == 0 {
        s.finish(Err(SyncErrorModel::PeersInvalidFormat))
    } else {
        (SetupModel { phase: SetupPhase::Asking, ..s }, SetupActionModel::AskInfo { peer: 0 })
    }
}

/// What the caller reports to a setup. See [`SetupEventModel`].
#[derive(Debug, PartialEq, Eq)]
pub enum SetupEvent {
    InfoReply(Option<ChainInfoPacket>),
    Hashed(Vec<u8>),
    GenesisChecked(Result<(), StoreError>),
}

impl View for SetupEvent {
    type V = SetupEventModel;

    open spec fn view(&self) -> SetupEventModel {
        match *self {
            SetupEvent::InfoReply(reply) => SetupEventModel::InfoReply(reply_model(reply)),
            SetupEvent::Hashed(hash) => SetupEventModel::Hashed(hash@),
            SetupEvent::GenesisChecked(Ok(_)) => SetupEventModel::GenesisChecked(Ok(())),
            SetupEvent::GenesisChecked(Err(err)) => SetupEventModel::GenesisChecked(Err(err@)),
        }
    }
}

/// What a setup asks the caller to do next. See [`SetupActionModel`].
#[derive(Debug, PartialEq, Eq)]
pub enum SetupAction {
    AskInfo { peer: usize },
    HashPacket(ChainInfoPacket),
    CheckGenesis { group_hash: Vec<u8> },
    Finish(Result<DefaultSyncerConfig, SyncError>),
}

impl View for SetupAction {
    type V = SetupActionModel;

    open spec fn view(&self) -> SetupActionModel {
        match *self {
            SetupAction::AskInfo { peer } => SetupActionModel::AskInfo { peer: peer as nat },
            SetupAction::HashPacket(packet) => SetupActionModel::HashPacket(packet@),
            SetupAction::CheckGenesis { group_hash } => SetupActionModel::CheckGenesis {
                group_hash: group_hash@,
            },
            SetupAction::Finish(Ok(config)) => SetupActionModel::Finish(Ok(config@)),
            SetupAction::Finish(Err(err)) => SetupActionModel::Finish(Err(err@)),
        }
    }
}

/// A running setup of a follow session.
///
/// The caller carries out the action that the setup returned, then calls
/// [`FollowSetup::step`] with what happened, until the action is `Finish`.
pub struct FollowSetup {
    beacon_id: String,
    peers: Vec<Address>,
    expected_hash: Option<Vec<u8>>,
    negotiator: InfoNegotiator,
    phase: SetupPhase,
    packet: ChainInfoPacket,
}

impl View for FollowSetup {
    type V = SetupModel;

    closed spec fn view(&self) -> SetupModel {
        SetupModel {
            beacon_id: self.beacon_id@,
            peers: self.peers@,
            expected_hash: match self.expected_hash {
                Some(hash) => Some(hash@),
                None => None,
            },
            negotiation: self.negotiator@,
            phase: self.phase,
            packet: self.packet@,
        }
    }
}

impl FollowSetup {
    #[verifier::type_invariant]
    spec fn valid(self) -> bool {
        self@.wf()
    }

    /// The peers of the session, in the order in which they are tried.
    pub fn peers(&self) -> (res: &Vec<Address>)
        ensures
            res@ == self@.peers,
    {
        &self.peers
    }

    /// Which answer the setup is waiting for.
    pub fn phase(&self) -> (res: SetupPhase)
        ensures
            res == self@.phase,
    {
        self.phase
    }

    /// Whether the request named the chain hash that it expects.
    pub fn expects_hash(&self) -> (res: bool)
        ensures
            res == (self@.expected_hash is Some),
    {
        self.expected_hash.is_some()
    }

    fn finish(self, result: Result<DefaultSyncerConfig, SyncError>) -> (res: (
        FollowSetup,
        SetupAction,
    ))
        ensures
            (res.0@, res.1@) == self@.finish(
                match result {
                    Ok(config) => Ok(config@),
                    Err(err) => Err(err@),
                },
            ),
            res.0@.wf(),
    {
        proof {
            use_type_invariant(&self);
        }
        let s = FollowSetup { phase: SetupPhase::Done, ..self };
        (s, SetupAction::Finish(result))
    }

    /// The state after `event`, and what to do next.
    ///
    /// A setup that waits for the derived hash compares it with the hash
    /// that the request expects, so the request must have named one.
    pub fn step(self, event: SetupEvent) -> (res: (FollowSetup, SetupAction))
        requires
            self@.phase == SetupPhase::Hashing ==> self@.expected_hash is Some,
        ensures
            (res.0@, res.1@) == self@.step(event@),
            res.0@.wf(),
    {
        proof {
            use_type_invariant(&self);
        }
        match (self.phase, event) {
            (SetupPhase::Asking, SetupEvent::InfoReply(reply)) => {
                let FollowSetup { beacon_id, peers, expected_hash, negotiator, phase: _, packet } =
                    self;
                let (negotiator, next) = negotiator.on_reply(reply);
                match next {
                    InfoAction::Ask { peer } => {
                        let s = FollowSetup {
                            beacon_id,
                            peers,
                            expected_hash,
                            negotiator,
                            phase: SetupPhase::Asking,
                            packet,
                        };
                        (s, SetupAction::AskInfo { peer })
                    },
                    InfoAction::Accepted(accepted) => {
                        let copy = accepted.duplicate();
                        let s = FollowSetup {
                            beacon_id,
                            peers,
                            expected_hash,
                            negotiator,
                            phase: SetupPhase::Hashing,
                            packet: accepted,
                        };
                        (s, SetupAction::HashPacket(copy))
                    },
                    InfoAction::Failed(err) => {
                        let s = FollowSetup {
                            beacon_id,
                            peers,
                            expected_hash,
                            negotiator,
                            phase: SetupPhase::Done,
                            packet,
                        };
                        (s, SetupAction::Finish(Err(err)))
                    },
                }
            },
            (SetupPhase::Hashing, SetupEvent::Hashed(hash)) => {
                let checked = verify_chain_hash(
                    hash.as_slice(),
                    self.expected_hash.as_ref().unwrap().as_slice(),
                );
                match checked {
                    Ok(()) => {
                        let group_hash = clone_bytes(&self.packet.group_hash);
                        let s = FollowSetup { phase: SetupPhase::CheckingGenesis, ..self };
                        (s, SetupAction::CheckGenesis { group_hash })
                    },
                    Err(err) => self.finish(Err(err)),
                }
            },
            (SetupPhase::CheckingGenesis, SetupEvent::GenesisChecked(Ok(()))) => {
                let FollowSetup { beacon_id, peers, expected_hash, negotiator, phase: _, packet } =
                    self;
                let config = DefaultSyncerConfig::new(
                    packet.duplicate(),
                    beacon_id.clone(),
                    clone_addresses(&peers),
                );
                let s = FollowSetup {
                    beacon_id,
                    peers,
                    expected_hash,
                    negotiator,
                    phase: SetupPhase::Done,
                    packet,
                };
                (s, SetupAction::Finish(Ok(config)))
            },
            (SetupPhase::CheckingGenesis, SetupEvent::GenesisChecked(Err(err))) => self.finish(
                Err(SyncError::ChainStore(err)),
            ),
            _ => self.finish(Err(SyncError::Internal)),
        }
    }
}

/// Copies a list of addresses.
fn clone_addresses(peers: &Vec<Address>) -> (res: Vec<Address>)
    ensures
        res@ == peers@,
{
    let mut res: Vec<Address> = Vec::new();
    let mut i: usize = 0;
    while i < peers.len()
        invariant
            i <= peers.len(),
            res@ == peers@.take(i as int),
        decreases peers.len() - i,
    {
        res.push(Address { host: peers[i].host.clone() });
        assert(peers@.take(i + 1) =~= peers@.take(i as int).push(peers@[i as int]));
        i += 1;
    }
    assert(peers@.take(i as int) =~= peers@);
    res
}

/// Starts the setup of a follow session for the chain `beacon_id`.
///
/// `prechecked` holds for each node of the request its validated address, or
/// `None` where validation refused it. The peers of the session are the
/// valid ones, in random order. Where no node is valid, the setup fails at
/// once with `PeersInvalidFormat`: no peer is asked, and the request's
/// metadata is not looked at.
pub fn start_follow_chain(
    req: &StartSyncRequest,
    beacon_id: &str,
    prechecked: &Vec<Option<Address>>,
) -> (res: (FollowSetup, SetupAction))
    ensures
        (res.0@, res.1@) == setup_start(beacon_id@, res.0@.peers, expected_hash(*req)),
        res.0@.peers.to_multiset() == valid_addresses(prechecked@).to_multiset(),
        res.0@.peers.len() == valid_addresses(prechecked@).len(),
        res.0@.wf(),
        valid_addresses(prechecked@).len() == 0 ==> res.1@ == SetupActionModel::Finish(
            Err(SyncErrorModel::PeersInvalidFormat),
        ),
{
    let expected_hash = match &req.metadata {
        Some(m) => Some(clone_bytes(&m.chain_hash)),
        None => None,
    };
    let packet = ChainInfoPacket {
        public_key: Vec::new(),
        period: 0,
        genesis_time: 0,
        group_hash: Vec::new(),
        scheme_id: String::new(),
        metadata: None,
    };
    assert(packet@ == no_info());
    match select_peers(prechecked) {
        Ok(peers) => {
            let (negotiator, _) = chain_info_from_peers(peers.len(), beacon_id);
            let s = FollowSetup {
                beacon_id: beacon_id.to_owned(),
                peers,
                expected_hash,
                negotiator,
                phase: SetupPhase::Asking,
                packet,
            };
            (s, SetupAction::AskInfo { peer: 0 })
        },
        Err(err) => {
            let (negotiator, _) = chain_info_from_peers(0, beacon_id);
            let s = FollowSetup {
                beacon_id: beacon_id.to_owned(),
                peers: Vec::new(),
                expected_hash,
                negotiator,
                phase: SetupPhase::Done,
                packet,
            };
            proof {
                valid_addresses(prechecked@).to_multiset_ensures();
                s.peers@.to_multiset_ensures();
                assert(s.peers@.to_multiset() =~= valid_addresses(prechecked@).to_multiset());
            }
            (s, SetupAction::Finish(Err(err)))
        },
    }
}

/// The state of a setup after the first `n` events of a run.
pub open spec fn setup_after(s: SetupModel, events: Seq<SetupEventModel>, n: nat) -> SetupModel
    decreases n,
{
    if n == 0 {
        s
    } else {
        setup_after(s, events, (n - 1) as nat).step(events[n - 1]).0
    }
}

/// The action with which a setup answers event number `n` of a run.
pub open spec fn setup_action_at(
    s: SetupModel,
    events: Seq<SetupEventModel>,
    n: nat,
) -> SetupActionModel {
    setup_after(s, events, n).step(events[n as int]).1
}

/// A setup starts in a valid state.
pub proof fn lemma_setup_start_wf(
    beacon_id: Seq<char>,
    peers: Seq<Address>,
    expected: Option<Seq<u8>>,
)
    ensures
        setup_start(beacon_id, peers, expected).0.wf(),
{
}

/// Every transition keeps the state valid, keeps the chain, the peers and
/// the expected hash, and never goes back to an earlier phase.
pub proof fn lemma_setup_step_wf(s: SetupModel, e: SetupEventModel)
    requires
        s.wf(),
    ensures
        s.step(e).0.wf(),
        s.step(e).0.beacon_id == s.beacon_id,
        s.step(e).0.peers == s.peers,
        s.step(e).0.expected_hash == s.expected_hash,
        phase_rank(s.phase) <= phase_rank(s.step(e).0.phase),
{
}

/// Each thing a setup asks for has one cause.
///
/// The hash of a packet is asked for only when a peer answered with that
/// packet and it names the requested chain. The genesis check is asked for
/// only when the derived hash is the expected one, and the setup then waits
/// for the store. A configuration is given only when the store confirmed the
/// genesis, and it holds the accepted packet, which names the requested
/// chain, and the setup's peers.
pub proof fn lemma_setup_causes(s: SetupModel, e: SetupEventModel)
    requires
        s.wf(),
    ensures
        s.step(e).1 matches SetupActionModel::HashPacket(p) ==> s.phase == SetupPhase::Asking && e
            == SetupEventModel::InfoReply(Some(p)) && info_acceptable(Some(p), s.beacon_id),
        s.step(e).1 matches SetupActionModel::CheckGenesis { group_hash } ==> {
            &&& s.phase == SetupPhase::Hashing
            &&& e matches SetupEventModel::Hashed(h) && Some(h) == s.expected_hash
            &&& group_hash == s.packet.group_hash
            &&& s.step(e).0.phase == SetupPhase::CheckingGenesis
        },
        s.step(e).1 matches SetupActionModel::Finish(Ok(config)) ==> {
            &&& s.phase == SetupPhase::CheckingGenesis
            &&& e matches SetupEventModel::GenesisChecked(Ok(_))
            &&& config == s.config()
            &&& info_acceptable(Some(config.packet), config.beacon_id)
        },
{
}

/// Each failure of a setup comes exactly where it is due.
///
/// When the last peer gave no acceptable answer, the setup fails with
/// `FailedInfoFromAllPeers` and asks for nothing more. A derived hash that
/// is not the expected one fails with both hashes, and the store is not
/// asked. A genesis that the store refuses fails with the store's error.
pub proof fn lemma_setup_failures(s: SetupModel, e: SetupEventModel)
    requires
        s.wf(),
    ensures
        s.phase == SetupPhase::Asking && (e matches SetupEventModel::InfoReply(reply)
            && !info_acceptable(reply, s.beacon_id)) && s.negotiation.peer + 1 >= s.peers.len()
            ==> s.step(e).1 == SetupActionModel::Finish(
            Err(SyncErrorModel::FailedInfoFromAllPeers),
        ),
        s.phase == SetupPhase::Asking && (e matches SetupEventModel::InfoReply(reply)
            && !info_acceptable(reply, s.beacon_id)) && s.negotiation.peer + 1 < s.peers.len()
            ==> s.step(e).1 == (SetupActionModel::AskInfo { peer: s.negotiation.peer + 1 }),
        s.phase == SetupPhase::Hashing && (e matches SetupEventModel::Hashed(h)
            && s.expected_hash matches Some(x) && h != x) ==> s.step(e).1
            == SetupActionModel::Finish(
            Err(
                SyncErrorModel::ChainHashMismatch(
                    mismatch_details(e->Hashed_0, s.expected_hash.unwrap()),
                ),
            ),
        ),
        s.phase == SetupPhase::CheckingGenesis && (e matches SetupEventModel::GenesisChecked(
            Err(reason),
        )) ==> s.step(e).1 == SetupActionModel::Finish(
            Err(SyncErrorModel::ChainStore(e->GenesisChecked_0->Err_0)),
        ),
        s.step(e).1 is Finish ==> s.step(e).0.phase == SetupPhase::Done,
{
}

/// Along a run, the phases of a setup come in order.
pub proof fn lemma_setup_phases_in_order(
    s: SetupModel,
    events: Seq<SetupEventModel>,
    i: nat,
    j: nat,
)
    requires
        s.wf(),
        i <= j <= events.len(),
    ensures
        setup_after(s, events, j).wf(),
        setup_after(s, events, j).beacon_id == s.beacon_id,
        setup_after(s, events, j).peers == s.peers,
        setup_after(s, events, j).expected_hash == s.expected_hash,
        phase_rank(setup_after(s, events, i).phase) <= phase_rank(setup_after(s, events, j).phase),
    decreases j,
{
    if j > 0 {
        let m = (j - 1) as nat;
        if i < j {
            lemma_setup_phases_in_order(s, events, i, m);
        } else {
            lemma_setup_phases_in_order(s, events, m, m);
        }
        lemma_setup_step_wf(setup_after(s, events, m), events[j - 1]);
    }
}

/// Along a run, the store is asked to check the genesis at most once, and
/// never before the derived hash was found to be the expected one; once the
/// setup has ended, nothing more is asked for.
pub proof fn lemma_genesis_checked_once_after_hash_match(
    s: SetupModel,
    events: Seq<SetupEventModel>,
    i: nat,
    j: nat,
)
    requires
        s.wf(),
        i < j < events.len(),
    ensures
        setup_action_at(s, events, i) is CheckGenesis ==> !(setup_action_at(
            s,
            events,
            j,
        ) is CheckGenesis),
        setup_action_at(s, events, j) matches SetupActionModel::CheckGenesis { group_hash } ==> {
            &&& events[j as int] matches SetupEventModel::Hashed(h) && Some(h) == s.expected_hash
            &&& setup_after(s, events, j).phase == SetupPhase::Hashing
        },
        setup_action_at(s, events, i) is Finish ==> setup_action_at(s, events, j) is Finish,
{
    lemma_setup_phases_in_order(s, events, i, i);
    lemma_setup_phases_in_order(s, events, i + 1, j);
    let at_i = setup_after(s, events, i);
    let at_j = setup_after(s, events, j);
    assert(setup_after(s, events, i + 1) == at_i.step(events[i as int]).0);
    lemma_setup_step_wf(at_i, events[i as int]);
    lemma_setup_causes(at_i, events[i as int]);
    lemma_setup_causes(at_j, events[j as int]);
    lemma_setup_failures(at_i, events[i as int]);
}

/// A setup gives a configuration only at the end of the whole course: there
/// was a peer, the configuration holds the requested chain, the chosen peers
/// and a packet that names that chain, the request named the hash that it
/// expects, and the last two events were the derived hash, equal to the
/// expected one, and the store's confirmation of the genesis.
pub proof fn lemma_setup_success(
    beacon_id: Seq<char>,
    peers: Seq<Address>,
    expected: Option<Seq<u8>>,
    events: Seq<SetupEventModel>,
    n: nat,
)
    requires
        n < events.len(),
        setup_action_at(setup_start(beacon_id, peers, expected).0, events, n) is Finish,
        setup_action_at(setup_start(beacon_id, peers, expected).0, events, n)->Finish_0 is Ok,
    ensures
        ({
            let config = setup_action_at(
                setup_start(beacon_id, peers, expected).0,
                events,
                n,
            )->Finish_0->Ok_0;
            &&& peers.len() > 0
            &&& config.beacon_id == beacon_id
            &&& config.peers == address_texts(peers)
            &&& info_acceptable(Some(config.packet), beacon_id)
            &&& n >= 2
            &&& events[n - 1] matches SetupEventModel::Hashed(h) && Some(h) == expected
            &&& events[n as int] matches SetupEventModel::GenesisChecked(Ok(_))
        }),
{
    let start = setup_start(beacon_id, peers, expected).0;
    lemma_setup_start_wf(beacon_id, peers, expected);
    lemma_setup_phases_in_order(start, events, 0, n);
    let at_n = setup_after(start, events, n);
    lemma_setup_causes(at_n, events[n as int]);
    assert(at_n.phase == SetupPhase::CheckingGenesis);
    assert(n >= 1);
    let n1 = (n - 1) as nat;
    lemma_setup_phases_in_order(start, events, 0, n1);
    let at_n1 = setup_after(start, events, n1);
    assert(at_n == at_n1.step(events[n - 1]).0);
    lemma_setup_step_wf(at_n1, events[n - 1]);
    assert(at_n1.phase == SetupPhase::Hashing);
    assert(n1 >= 1);
}

} // verus!
