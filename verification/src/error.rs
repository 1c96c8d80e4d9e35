//! Errors of the synchronization subsystem.

use vstd::prelude::*;
use vstd::std_specs::convert::FromSpecImpl;

verus! {

/// A failure reported by the chain store, carried through unchanged.
#[derive(Debug, Clone, PartialEq, Eq)]
pub struct StoreError {
    /// The store's own description of the failure.
    pub message: String,
}

impl View for StoreError {
    type V = Seq<char>;

    open spec fn view(&self) -> Seq<char> {
        self.message@
    }
}

/// Why a synchronization request or session failed.
#[derive(Debug, Clone, PartialEq, Eq)]
pub enum SyncError {
    /// The info packet cannot be used with the configured scheme.
    InvalidInfoPacket,
    /// The info packet contradicts the existing configuration.
    InfoPacketMismatch,
    /// A sync session is already running.
    AlreadySyncing,
    /// None of the requested peer addresses is well formed.
    PeersInvalidFormat,
    /// No peer returned chain info for the requested beacon id.
    FailedInfoFromAllPeers,
    /// The chain hash derived from the info packet is not the expected one.
    ChainHashMismatch(String),
    /// The chain module is in a failed state.
    Internal,
    /// The chain store reported a failure.
    ChainStore(StoreError),
    /// The target lies behind the next round to fetch.
    InvalidTarget { from: u64, target: u64 },
    /// The consumer of resynced beacons has gone away.
    SyncClosedTx,
    /// Every peer was tried and the target was not reached.
    TriedAllPeers { last: u64 },
    /// Following is allowed only for nodes without a DKG setup.
    ForbiddenToFollow,
}

/// Mathematical value of a [`SyncError`].
pub enum SyncErrorModel {
    InvalidInfoPacket,
    InfoPacketMismatch,
    AlreadySyncing,
    PeersInvalidFormat,
    FailedInfoFromAllPeers,
    ChainHashMismatch(Seq<char>),
    Internal,
    ChainStore(Seq<char>),
    InvalidTarget { from: u64, target: u64 },
    SyncClosedTx,
    TriedAllPeers { last: u64 },
    ForbiddenToFollow,
}

impl View for SyncError {
    type V = SyncErrorModel;

    open spec fn view(&self) -> SyncErrorModel {
        match *self {
            SyncError::InvalidInfoPacket => SyncErrorModel::InvalidInfoPacket,
            SyncError::InfoPacketMismatch => SyncErrorModel::InfoPacketMismatch,
            SyncError::AlreadySyncing => SyncErrorModel::AlreadySyncing,
            SyncError::PeersInvalidFormat => SyncErrorModel::PeersInvalidFormat,
            SyncError::FailedInfoFromAllPeers => SyncErrorModel::FailedInfoFromAllPeers,
            SyncError::ChainHashMismatch(details) => SyncErrorModel::ChainHashMismatch(details@),
            SyncError::Internal => SyncErrorModel::Internal,
            SyncError::ChainStore(err) => SyncErrorModel::ChainStore(err@),
            SyncError::InvalidTarget { from, target } => SyncErrorModel::InvalidTarget {
                from,
                target,
            },
            SyncError::SyncClosedTx => SyncErrorModel::SyncClosedTx,
            SyncError::TriedAllPeers { last } => SyncErrorModel::TriedAllPeers { last },
            SyncError::ForbiddenToFollow => SyncErrorModel::ForbiddenToFollow,
        }
    }
}

impl From<StoreError> for SyncError {
    fn from(err: StoreError) -> (res: SyncError) {
        SyncError::ChainStore(err)
    }
}

impl FromSpecImpl<StoreError> for SyncError {
    open spec fn obeys_from_spec() -> bool {
        true
    }

    open spec fn from_spec(err: StoreError) -> SyncError {
        SyncError::ChainStore(err)
    }
}

/// Mathematical value of the outcome of a session or of a setup step.
pub open spec fn outcome_model(r: Result<(), SyncError>) -> Result<(), SyncErrorModel> {
    match r {
        Ok(()) => Ok(()),
        Err(e) => Err(e@),
    }
}

} // verus!
