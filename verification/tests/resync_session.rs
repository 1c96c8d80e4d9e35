use chain_sync::error::SyncError;
use chain_sync::model::Phase;
use chain_sync::packet::{Address, BeaconPacket, Metadata, SignatureCheck};
use chain_sync::resync::{resync, HandleReSync, NANOS_PER_SECOND, RESYNC_EXPIRY_FACTOR};
use chain_sync::session::{SyncAction, SyncEvent};

fn peers(n: usize) -> Vec<Address> {
    (0..n).map(|i| Address { host: format!("node{i}:4444") }).collect()
}

fn resync_packet(round: u64) -> BeaconPacket {
    BeaconPacket {
        round,
        signature: vec![round as u8],
        metadata: Some(Metadata { beacon_id: "default".to_string(), chain_hash: vec![1] }),
    }
}

/// Feeds the events to a resync started with the arguments, and returns the
/// actions that answered them, the start's action first.
fn run_resync(
    start_from: u64,
    up_to: u64,
    peer_count: usize,
    events: Vec<SyncEvent>,
) -> (Vec<SyncAction>, u64, Phase) {
    let (mut session, action) =
        resync(start_from, up_to, &peers(peer_count), "default".to_string(), vec![0xee]);
    let mut actions = vec![action];
    for event in events {
        let next = session.step(event);
        session = next.0;
        actions.push(next.1);
    }
    (actions, session.tail().round, session.phase())
}

#[test]
fn resync_forwards_each_verified_packet() {
    let events = vec![
        SyncEvent::StreamOpened(true),
        SyncEvent::Message(Some(resync_packet(5))),
        SyncEvent::SignatureChecked(SignatureCheck::Valid),
        SyncEvent::Forwarded(true),
        SyncEvent::Message(Some(resync_packet(6))),
        SyncEvent::SignatureChecked(SignatureCheck::Valid),
        SyncEvent::Forwarded(true),
    ];
    let (actions, tail, phase) = run_resync(5, 6, 1, events);
    assert_eq!(
        actions,
        vec![
            SyncAction::OpenStream { peer: 0, from: 5 },
            SyncAction::NextMessage,
            SyncAction::CheckSignature {
                previous_signature: vec![0xee],
                round: 5,
                signature: vec![5],
            },
            SyncAction::Forward(resync_packet(5)),
            SyncAction::NextMessage,
            SyncAction::CheckSignature {
                previous_signature: vec![5],
                round: 6,
                signature: vec![6],
            },
            SyncAction::Forward(resync_packet(6)),
            SyncAction::Finish(Ok(())),
        ]
    );
    assert_eq!(tail, 6);
    assert_eq!(phase, Phase::Done);
}

#[test]
fn resync_closed_pipeline_is_an_error() {
    let events = vec![
        SyncEvent::StreamOpened(true),
        SyncEvent::Message(Some(resync_packet(5))),
        SyncEvent::SignatureChecked(SignatureCheck::Valid),
        SyncEvent::Forwarded(false),
    ];
    let (actions, tail, _) = run_resync(5, 9, 2, events);
    assert_eq!(actions.last(), Some(&SyncAction::Finish(Err(SyncError::SyncClosedTx))));
    assert_eq!(tail, 4);
}

#[test]
fn resync_empty_window_is_an_invalid_target() {
    let (actions, _, phase) = run_resync(5, 3, 1, vec![]);
    assert_eq!(
        actions,
        vec![SyncAction::Finish(Err(SyncError::InvalidTarget { from: 5, target: 3 }))]
    );
    assert_eq!(phase, Phase::Done);
}

#[test]
fn resync_target_just_behind_start_is_an_invalid_target() {
    let (actions, _, _) = run_resync(5, 4, 3, vec![]);
    assert_eq!(
        actions,
        vec![SyncAction::Finish(Err(SyncError::InvalidTarget { from: 5, target: 4 }))]
    );
}

#[test]
fn resync_single_round_window_is_valid() {
    let (actions, _, _) = run_resync(5, 5, 1, vec![]);
    assert_eq!(actions, vec![SyncAction::OpenStream { peer: 0, from: 5 }]);
}

#[test]
fn resync_without_peers_fails_with_tried_all_peers() {
    let (actions, _, _) = run_resync(5, 3, 0, vec![]);
    assert_eq!(actions, vec![SyncAction::Finish(Err(SyncError::TriedAllPeers { last: 4 }))]);
}

#[test]
fn resync_exhaustion_reports_last_forwarded_round() {
    let events = vec![
        SyncEvent::StreamOpened(true),
        SyncEvent::Message(Some(resync_packet(5))),
        SyncEvent::SignatureChecked(SignatureCheck::Valid),
        SyncEvent::Forwarded(true),
        SyncEvent::Message(None),
        SyncEvent::StreamOpened(false),
    ];
    let (actions, tail, _) = run_resync(5, 9, 2, events);
    assert_eq!(actions[5], SyncAction::OpenStream { peer: 1, from: 6 });
    assert_eq!(
        actions.last(),
        Some(&SyncAction::Finish(Err(SyncError::TriedAllPeers { last: 5 })))
    );
    assert_eq!(tail, 5);
}

#[test]
fn resync_invalid_signature_is_not_forwarded() {
    let events = vec![
        SyncEvent::StreamOpened(true),
        SyncEvent::Message(Some(resync_packet(5))),
        SyncEvent::SignatureChecked(SignatureCheck::Invalid),
    ];
    let (actions, tail, _) = run_resync(5, 9, 2, events);
    assert_eq!(actions.last(), Some(&SyncAction::OpenStream { peer: 1, from: 5 }));
    assert!(!actions.iter().any(|a| matches!(a, SyncAction::Forward(_))));
    assert_eq!(tail, 4);
}

#[test]
fn resync_wrong_round_moves_to_next_peer() {
    let events = vec![SyncEvent::StreamOpened(true), SyncEvent::Message(Some(resync_packet(7)))];
    let (actions, _, _) = run_resync(5, 9, 2, events);
    assert_eq!(actions.last(), Some(&SyncAction::OpenStream { peer: 1, from: 5 }));
}

#[test]
fn monitor_expires_after_two_periods() {
    let start = 1_000u128;
    let handle = HandleReSync::new(3, start);
    let expiry = 3 * 2 * NANOS_PER_SECOND;
    assert_eq!(RESYNC_EXPIRY_FACTOR, 2);
    assert!(handle.is_running(false, start));
    assert!(handle.is_running(false, start + expiry - 1));
    assert!(!handle.is_running(false, start + expiry));
    assert!(!handle.is_running(false, start + expiry + 1));
}

#[test]
fn monitor_reports_finished_task_as_not_running() {
    let handle = HandleReSync::new(3, 0);
    assert!(!handle.is_running(true, 0));
    assert!(!handle.is_running(true, 1));
}

#[test]
fn monitor_is_refreshed_by_each_beacon() {
    let mut handle = HandleReSync::new(1, 0);
    let expiry = 2 * NANOS_PER_SECOND;
    assert!(!handle.is_running(false, expiry));
    handle.update_last_received_time(expiry);
    assert!(handle.is_running(false, expiry));
    assert!(handle.is_running(false, 2 * expiry - 1));
    assert!(!handle.is_running(false, 2 * expiry));
}

#[test]
fn monitor_with_zero_period_is_never_running() {
    let handle = HandleReSync::new(0, 5);
    assert!(!handle.is_running(false, 5));
}

#[test]
fn monitor_counts_a_clock_reading_before_the_last_beacon_as_no_time() {
    let handle = HandleReSync::new(1, 100);
    assert!(handle.is_running(false, 50));
}

#[test]
fn monitor_takes_the_longest_period() {
    let handle = HandleReSync::new(u32::MAX, 0);
    let expiry = u128::from(u32::MAX) * 2 * NANOS_PER_SECOND;
    assert!(handle.is_running(false, expiry - 1));
    assert!(!handle.is_running(false, expiry));
}
