//! Automatic catch-up: starting a resync, and watching over a running one.

use crate::error::SyncErrorModel;
use crate::model::{resync_start, ActionModel};
use crate::packet::Address;
use crate::session::{SyncAction, SyncSession};
use vstd::prelude::*;

verus! {

/// A resync is renewed when no beacon was received for this many periods.
pub const RESYNC_EXPIRY_FACTOR: u8 = 2;

/// Nanoseconds in a second.
pub const NANOS_PER_SECOND: u128 = 1_000_000_000;

/// Starts a resync of the rounds `start_from ..= up_to` of the chain `id`
/// from `peers`; `previous_signature` is the signature of the beacon of round
/// `start_from - 1`, which the first beacon is verified against.
///
/// With an empty window the session fails at its first peer, with
/// `InvalidTarget`.
pub fn resync(
    start_from: u64,
    up_to: u64,
    peers: &Vec<Address>,
    id: String,
    previous_signature: Vec<u8>,
) -> (res: (SyncSession, SyncAction))
    requires
        start_from >= 1,
    ensures
        (res.0@, res.1@) == resync_start(
            id@,
            peers@.len(),
            start_from,
            up_to,
            previous_signature@,
        ),
        res.0@.wf(),
        peers@.len() > 0 && up_to < start_from ==> res.1@ == ActionModel::Finish(
            Err(SyncErrorModel::InvalidTarget { from: start_from, target: up_to }),
        ),
{
    SyncSession::resync(id, peers.len(), start_from, up_to, previous_signature)
}

/// Whether a resync task counts as running: it has not finished, and the
/// last beacon came less than `expiry` ago. Times are in nanoseconds on a
/// clock that does not go back; a reading before the last beacon counts as
/// no time passed.
pub open spec fn resync_alive(
    task_finished: bool,
    latest_received: nat,
    expiry: nat,
    now: nat,
) -> bool {
    let elapsed = if now >= latest_received {
        now - latest_received
    } else {
        0
    };
    !task_finished && elapsed < expiry
}

/// State of a running resync task: when its last beacon came, and after how
/// long without a beacon it counts as stalled.
pub struct HandleReSync {
    latest_received: u128,
    factor: u128,
}

impl HandleReSync {
    /// Time of the latest beacon, in nanoseconds.
    pub closed spec fn latest_received(&self) -> nat {
        self.latest_received as nat
    }

    /// Time without a beacon after which the task counts as stalled, in
    /// nanoseconds.
    pub closed spec fn expiry(&self) -> nat {
        self.factor as nat
    }

    /// Registers a resync task that starts at `now`, for a chain with the
    /// given period in seconds.
    pub fn new(period: u32, now: u128) -> (res: HandleReSync)
        ensures
            res.latest_received() == now,
            res.expiry() == period * RESYNC_EXPIRY_FACTOR * NANOS_PER_SECOND,
    {
        let factor: u128 = RESYNC_EXPIRY_FACTOR as u128;
        let seconds: u128 = period as u128;
        assert(seconds * factor <= 0x2_0000_0000) by (nonlinear_arith)
            requires
                factor == 2,
                seconds <= 0xffff_ffff,
        ;
        let periods: u128 = seconds * factor;
        assert(periods * NANOS_PER_SECOND <= 0x2_0000_0000 * 1_000_000_000) by (nonlinear_arith)
            requires
                periods <= 0x2_0000_0000,
                NANOS_PER_SECOND == 1_000_000_000,
        ;
        HandleReSync { latest_received: now, factor: periods * NANOS_PER_SECOND }
    }

    /// Whether the resync is running and making progress at `now`, where
    /// `task_finished` says whether its task has ended.
    ///
    /// A task that received no beacon for the expiry time or longer is not
    /// running, though it has not finished.
    pub fn is_running(&self, task_finished: bool, now: u128) -> (res: bool)
        ensures
            res == resync_alive(task_finished, self.latest_received(), self.expiry(), now as nat),
            now - self.latest_received() >= self.expiry() ==> !res,
    {
        if task_finished {
            false
        } else {
            let elapsed = if now >= self.latest_received {
                now - self.latest_received
            } else {
                0
            };
            elapsed < self.factor
        }
    }

    /// Records that a beacon was received at `now`.
    pub fn update_last_received_time(&mut self, now: u128)
        ensures
            final(self).latest_received() == now,
            final(self).expiry() == old(self).expiry(),
    {
        self.latest_received = now;
    }
}

} // verus!
