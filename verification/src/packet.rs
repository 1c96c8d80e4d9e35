//! Plain values of the wire packets and of stored beacons.

use vstd::prelude::*;

verus! {

/// Metadata attached to packets: the chain they belong to.
#[derive(Debug, Clone, PartialEq, Eq)]
pub struct Metadata {
    pub beacon_id: String,
    pub chain_hash: Vec<u8>,
}

/// Mathematical value of a [`Metadata`].
pub struct MetadataModel {
    pub beacon_id: Seq<char>,
    pub chain_hash: Seq<u8>,
}

impl View for Metadata {
    type V = MetadataModel;

    open spec fn view(&self) -> MetadataModel {
        MetadataModel { beacon_id: self.beacon_id@, chain_hash: self.chain_hash@ }
    }
}

/// Mathematical value of an optional [`Metadata`].
pub open spec fn metadata_model(m: Option<Metadata>) -> Option<MetadataModel> {
    match m {
        Some(m) => Some(m@),
        None => None,
    }
}

/// One round's randomness as kept by the store: a round and its signature.
/// The beacon of round `r` is linked to the beacon of round `r - 1`.
#[derive(Debug, Clone, PartialEq, Eq)]
pub struct Beacon {
    pub round: u64,
    pub signature: Vec<u8>,
}

/// Mathematical value of a [`Beacon`].
pub struct BeaconModel {
    pub round: u64,
    pub signature: Seq<u8>,
}

impl View for Beacon {
    type V = BeaconModel;

    open spec fn view(&self) -> BeaconModel {
        BeaconModel { round: self.round, signature: self.signature@ }
    }
}

/// A beacon as a peer sends it on a sync stream.
#[derive(Debug, Clone, PartialEq, Eq)]
pub struct BeaconPacket {
    pub round: u64,
    pub signature: Vec<u8>,
    pub metadata: Option<Metadata>,
}

/// Mathematical value of a [`BeaconPacket`].
pub struct PacketModel {
    pub round: u64,
    pub signature: Seq<u8>,
    pub metadata: Option<MetadataModel>,
}

impl PacketModel {
    /// The beacon that this packet carries.
    pub open spec fn beacon(self) -> BeaconModel {
        BeaconModel { round: self.round, signature: self.signature }
    }
}

impl View for BeaconPacket {
    type V = PacketModel;

    open spec fn view(&self) -> PacketModel {
        PacketModel {
            round: self.round,
            signature: self.signature@,
            metadata: metadata_model(self.metadata),
        }
    }
}

/// Chain parameters as a peer reports them.
#[derive(Debug, Clone, PartialEq, Eq)]
pub struct ChainInfoPacket {
    pub public_key: Vec<u8>,
    pub period: u32,
    pub genesis_time: i64,
    pub group_hash: Vec<u8>,
    pub scheme_id: String,
    pub metadata: Option<Metadata>,
}

/// Mathematical value of a [`ChainInfoPacket`].
pub struct InfoPacketModel {
    pub public_key: Seq<u8>,
    pub period: u32,
    pub genesis_time: i64,
    pub group_hash: Seq<u8>,
    pub scheme_id: Seq<char>,
    pub metadata: Option<MetadataModel>,
}

impl View for ChainInfoPacket {
    type V = InfoPacketModel;

    open spec fn view(&self) -> InfoPacketModel {
        InfoPacketModel {
            public_key: self.public_key@,
            period: self.period,
            genesis_time: self.genesis_time,
            group_hash: self.group_hash@,
            scheme_id: self.scheme_id@,
            metadata: metadata_model(self.metadata),
        }
    }
}

/// Request to follow a chain up to a round, from the given nodes.
#[derive(Debug, Clone, PartialEq, Eq)]
pub struct StartSyncRequest {
    pub nodes: Vec<String>,
    pub up_to: u64,
    pub metadata: Option<Metadata>,
}

/// Progress of a follow session, sent to whoever asked for it.
#[derive(Debug, Clone, PartialEq, Eq)]
pub struct SyncProgress {
    pub current: u64,
    pub target: u64,
    pub metadata: Option<Metadata>,
}

/// Mathematical value of a [`SyncProgress`].
pub struct ProgressModel {
    pub current: u64,
    pub target: u64,
    pub metadata: Option<MetadataModel>,
}

impl View for SyncProgress {
    type V = ProgressModel;

    open spec fn view(&self) -> ProgressModel {
        ProgressModel {
            current: self.current,
            target: self.target,
            metadata: metadata_model(self.metadata),
        }
    }
}

/// Address of a peer, in the form that the transport has validated.
#[derive(Debug, Clone, PartialEq, Eq)]
pub struct Address {
    pub host: String,
}

impl View for Address {
    type V = Seq<char>;

    open spec fn view(&self) -> Seq<char> {
        self.host@
    }
}

/// Outcome of checking a candidate signature against the chain's public key,
/// the previous signature and the round.
#[derive(Debug, Clone, Copy, PartialEq, Eq, Structural)]
pub enum SignatureCheck {
    /// The bytes do not encode a point of the scheme's signature group.
    Malformed,
    /// The bytes encode a point, and the signature does not verify.
    Invalid,
    /// The signature verifies.
    Valid,
}

/// Copies a byte string.
pub fn clone_bytes(bytes: &Vec<u8>) -> (res: Vec<u8>)
    ensures
        res@ == bytes@,
{
    let res = bytes.clone();
    assert(res@ =~= bytes@);
    res
}

impl Beacon {
    /// The beacon that a packet carries.
    pub fn from_packet(packet: BeaconPacket) -> (res: Beacon)
        ensures
            res@ == packet@.beacon(),
    {
        Beacon { round: packet.round, signature: packet.signature }
    }
}

impl Metadata {
    /// A copy of this metadata.
    pub fn duplicate(&self) -> (res: Metadata)
        ensures
            res@ == self@,
    {
        Metadata { beacon_id: self.beacon_id.clone(), chain_hash: clone_bytes(&self.chain_hash) }
    }
}

impl ChainInfoPacket {
    /// A copy of this packet.
    pub fn duplicate(&self) -> (res: ChainInfoPacket)
        ensures
            res@ == self@,
    {
        let metadata = match &self.metadata {
            Some(m) => Some(m.duplicate()),
            None => None,
        };
        ChainInfoPacket {
            public_key: clone_bytes(&self.public_key),
            period: self.period,
            genesis_time: self.genesis_time,
            group_hash: clone_bytes(&self.group_hash),
            scheme_id: self.scheme_id.clone(),
            metadata,
        }
    }
}

impl BeaconPacket {
    /// The beacon that this packet carries.
    pub fn beacon(&self) -> (res: Beacon)
        ensures
            res@ == self@.beacon(),
    {
        Beacon { round: self.round, signature: clone_bytes(&self.signature) }
    }

    /// A copy of this packet.
    pub fn duplicate(&self) -> (res: BeaconPacket)
        ensures
            res@ == self@,
    {
        let metadata = match &self.metadata {
            Some(m) => Some(m.duplicate()),
            None => None,
        };
        BeaconPacket { round: self.round, signature: clone_bytes(&self.signature), metadata }
    }
}

} // verus!
