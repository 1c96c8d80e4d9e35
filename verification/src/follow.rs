//! Manual catch-up: preparing and starting a follow session.

use crate::encoding::{bytes_equal, chain_hash_mismatch_details, mismatch_details};
use crate::error::{SyncError, SyncErrorModel};
use crate::info::{info_of_packet, ChainInfo, ChainInfoModel};
use crate::model::{follow_start, ActionModel};
use crate::packet::{Address, Beacon, ChainInfoPacket, InfoPacketModel};
use crate::session::{SyncAction, SyncSession};
use rand::seq::SliceRandom;
use vstd::prelude::*;

verus! {

/// With more rounds than this between the start and the target of a session,
/// its per-round log entries are thinned out.
pub const LOGS_TO_SKIP: u64 = 300;

/// Whether a session from `started_from` to `target` thins out its log.
pub fn uses_rate_limited_logging(started_from: u64, target: u64) -> (res: bool)
    requires
        started_from <= target,
    ensures
        res == (target - started_from > LOGS_TO_SKIP),
{
    target - started_from > LOGS_TO_SKIP
}

/// Whether the fetching of `round` is logged by a session with this target:
/// the last rounds before the target are, and every round that is a multiple
/// of [`LOGS_TO_SKIP`].
pub fn logs_round(round: u64, target: u64) -> (res: bool)
    requires
        round <= target,
    ensures
        res == (target - round < LOGS_TO_SKIP || round % LOGS_TO_SKIP == 0),
{
    target - round < LOGS_TO_SKIP || round % LOGS_TO_SKIP == 0
}

/// The addresses that passed validation, in the order of the request.
pub open spec fn valid_addresses(prechecked: Seq<Option<Address>>) -> Seq<Address>
    decreases prechecked.len(),
{
    if prechecked.len() == 0 {
        Seq::empty()
    } else {
        let earlier = valid_addresses(prechecked.drop_last());
        match prechecked.last() {
            Some(a) => earlier.push(a),
            None => earlier,
        }
    }
}

/// The texts of a list of addresses.
pub open spec fn address_texts(peers: Seq<Address>) -> Seq<Seq<char>> {
    peers.map_values(|a: Address| a@)
}

/// Calls `rand::seq::SliceRandom::shuffle` on the peers, with the thread's
/// generator from `rand::rng`. Trusted: the shuffle reorders the list in
/// place by swapping its elements, so the list holds the same addresses, each
/// as often as before. The order depends on chance and nothing is said of it.
#[verifier::external_body]
fn shuffle_peers(peers: &mut Vec<Address>)
    ensures
        final(peers)@.to_multiset() == old(peers)@.to_multiset(),
{
    peers.shuffle(&mut rand::rng());
}

/// Picks the peers of a session: the requested nodes whose address passed
/// validation, in random order. `prechecked` holds for each requested node
/// its validated address, or `None` where validation refused it.
///
/// Fails with `PeersInvalidFormat` exactly when no address is valid.
pub fn select_peers(prechecked: &Vec<Option<Address>>) -> (res: Result<Vec<Address>, SyncError>)
    ensures
        match res {
            Ok(peers) => {
                &&& peers@.to_multiset() == valid_addresses(prechecked@).to_multiset()
                &&& peers@.len() == valid_addresses(prechecked@).len()
                &&& peers@.len() > 0
            },
            Err(e) => e@ == SyncErrorModel::PeersInvalidFormat && valid_addresses(
                prechecked@,
            ).len() == 0,
        },
{
    let mut peers: Vec<Address> = Vec::new();
    let mut i: usize = 0;
    assert(prechecked@.take(0) =~= Seq::empty());
    while i < prechecked.len()
        invariant
            i <= prechecked.len(),
            peers@ == valid_addresses(prechecked@.take(i as int)),
        decreases prechecked.len() - i,
    {
        proof {
            let next = prechecked@.take(i + 1);
            assert(next.drop_last() =~= prechecked@.take(i as int));
            assert(next.last() == prechecked@[i as int]);
        }
        match &prechecked[i] {
            Some(a) => {
                peers.push(Address { host: a.host.clone() });
            },
            None => {},
        }
        i += 1;
    }
    assert(prechecked@.take(i as int) =~= prechecked@);
    if peers.len() == 0 {
        return Err(SyncError::PeersInvalidFormat);
    }
    let ghost before = peers@;
    shuffle_peers(&mut peers);
    proof {
        before.to_multiset_ensures();
        peers@.to_multiset_ensures();
    }
    Ok(peers)
}

/// Checks the chain hash derived from an info packet against the expected
/// one. A mismatch is reported with both hashes, the derived one first.
pub fn verify_chain_hash(packet_hash: &[u8], expected: &[u8]) -> (res: Result<(), SyncError>)
    ensures
        match res {
            Ok(()) => packet_hash@ == expected@,
            Err(e) => packet_hash@ != expected@ && e@ == SyncErrorModel::ChainHashMismatch(
                mismatch_details(packet_hash@, expected@),
            ),
        },
{
    if bytes_equal(packet_hash, expected) {
        Ok(())
    } else {
        Err(SyncError::ChainHashMismatch(chain_hash_mismatch_details(packet_hash, expected)))
    }
}

/// Initial configuration of a follow session: the chain info packet that the
/// peers gave, cross-checked against the request and the store. It is the
/// result of a setup that went through (see [`crate::setup`]).
#[derive(Debug, PartialEq, Eq)]
pub struct DefaultSyncerConfig {
    packet: ChainInfoPacket,
    beacon_id: String,
    peers: Vec<Address>,
}

/// Mathematical value of a [`DefaultSyncerConfig`].
pub struct ConfigModel {
    pub packet: InfoPacketModel,
    pub beacon_id: Seq<char>,
    pub peers: Seq<Seq<char>>,
}

impl View for DefaultSyncerConfig {
    type V = ConfigModel;

    closed spec fn view(&self) -> ConfigModel {
        ConfigModel {
            packet: self.packet@,
            beacon_id: self.beacon_id@,
            peers: address_texts(self.peers@),
        }
    }
}

impl DefaultSyncerConfig {
    /// The configuration of a session for `beacon_id` with these peers and
    /// this chain info packet.
    pub(crate) fn new(packet: ChainInfoPacket, beacon_id: String, peers: Vec<Address>) -> (res:
        DefaultSyncerConfig)
        ensures
            res@ == (ConfigModel {
                packet: packet@,
                beacon_id: beacon_id@,
                peers: address_texts(peers@),
            }),
    {
        DefaultSyncerConfig { packet, beacon_id, peers }
    }

    /// The chain info packet of this configuration.
    pub fn packet(&self) -> (res: &ChainInfoPacket)
        ensures
            res@ == self@.packet,
    {
        &self.packet
    }

    /// The identifier of the chain to follow.
    pub fn beacon_id(&self) -> (res: &String)
        ensures
            res@ == self@.beacon_id,
    {
        &self.beacon_id
    }

    /// The peers to follow, in the order in which they will be tried.
    pub fn peers(&self) -> (res: &Vec<Address>)
        ensures
            address_texts(res@) == self@.peers,
    {
        &self.peers
    }

    /// The chain info of this configuration. `public_key_valid` says whether
    /// the packet's public key decodes to a key of the scheme.
    ///
    /// Fails with `InvalidInfoPacket` exactly when the packet gives no chain
    /// info.
    pub fn chain_info_from_packet(&self, public_key_valid: bool) -> (res: Result<
        ChainInfo,
        SyncError,
    >)
        ensures
            match res {
                Ok(info) => Some(info@) == info_of_packet(
                    self@.packet,
                    self@.beacon_id,
                    public_key_valid,
                ),
                Err(e) => e@ == SyncErrorModel::InvalidInfoPacket && info_of_packet(
                    self@.packet,
                    self@.beacon_id,
                    public_key_valid,
                ) is None,
            },
    {
        match ChainInfo::from_packet(&self.packet, self.beacon_id.clone(), public_key_valid) {
            Some(info) => Ok(info),
            None => Err(SyncError::InvalidInfoPacket),
        }
    }
}

/// Syncer of a node without a DKG setup: the validated chain info and the
/// peers to follow.
pub struct DefaultSyncer {
    info: ChainInfo,
    peers: Vec<Address>,
}

/// Mathematical value of a [`DefaultSyncer`].
pub struct SyncerModel {
    pub info: ChainInfoModel,
    pub peers: Seq<Seq<char>>,
}

impl View for DefaultSyncer {
    type V = SyncerModel;

    closed spec fn view(&self) -> SyncerModel {
        SyncerModel { info: self.info@, peers: address_texts(self.peers@) }
    }
}

impl DefaultSyncer {
    /// The chain info that beacons are verified against.
    pub fn info(&self) -> (res: &ChainInfo)
        ensures
            res@ == self@.info,
    {
        &self.info
    }

    /// The peers, in the order in which a session tries them.
    pub fn peers(&self) -> (res: &Vec<Address>)
        ensures
            address_texts(res@) == self@.peers,
    {
        &self.peers
    }

    /// Builds the syncer from a configuration, for the scheme `scheme_id`.
    /// `public_key_valid` says whether the packet's public key decodes to a
    /// key of that scheme.
    ///
    /// Fails with `InvalidInfoPacket` exactly when the packet names another
    /// scheme or gives no chain info.
    pub fn from_config(c: DefaultSyncerConfig, scheme_id: &str, public_key_valid: bool) -> (res:
        Result<DefaultSyncer, SyncError>)
        ensures
            match res {
                Ok(syncer) => {
                    &&& c@.packet.scheme_id == scheme_id@
                    &&& Some(syncer@.info) == info_of_packet(
                        c@.packet,
                        c@.beacon_id,
                        public_key_valid,
                    )
                    &&& syncer@.peers == c@.peers
                },
                Err(e) => {
                    &&& e@ == SyncErrorModel::InvalidInfoPacket
                    &&& c@.packet.scheme_id != scheme_id@ || info_of_packet(
                        c@.packet,
                        c@.beacon_id,
                        public_key_valid,
                    ) is None
                },
            },
    {
        let DefaultSyncerConfig { packet, beacon_id, peers } = c;
        if packet.scheme_id != scheme_id.to_owned() {
            return Err(SyncError::InvalidInfoPacket);
        }
        match ChainInfo::from_packet(&packet, beacon_id, public_key_valid) {
            Some(info) => Ok(DefaultSyncer { info, peers }),
            None => Err(SyncError::InvalidInfoPacket),
        }
    }

    /// Starts a follow session up to round `target`, where `last_stored` is
    /// the store's latest beacon.
    ///
    /// With the target at or behind `last_stored` the session is over at
    /// once, with success, and nothing is asked of any peer.
    pub fn process_follow_request(&self, target: u64, last_stored: Beacon) -> (res: (
        SyncSession,
        SyncAction,
    ))
        ensures
            (res.0@, res.1@) == follow_start(
                self@.info.beacon_id,
                self@.peers.len(),
                target,
                last_stored@,
            ),
            res.0@.wf(),
            target <= last_stored.round ==> res.1@ == ActionModel::Finish(Ok(())),
    {
        SyncSession::follow(self.info.beacon_id.clone(), self.peers.len(), target, last_stored)
    }
}

} // verus!
