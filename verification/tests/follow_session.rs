use chain_sync::error::{StoreError, SyncError};
use chain_sync::follow::DefaultSyncer;
use chain_sync::model::Phase;
use chain_sync::packet::{
    Address, Beacon, BeaconPacket, ChainInfoPacket, Metadata, SignatureCheck, StartSyncRequest,
    SyncProgress,
};
use chain_sync::session::{SyncAction, SyncEvent, SyncSession};
use chain_sync::setup::{start_follow_chain, SetupAction, SetupEvent};

const CHAIN: &str = "default";

/// A peer as the session sees it: it cannot be reached, or it serves packets.
enum Peer {
    Unreachable,
    Serves(Vec<BeaconPacket>),
}

/// Everything that a run of a session did to its surroundings.
struct Outcome {
    result: Result<(), SyncError>,
    stored: Vec<Beacon>,
    reports: Vec<SyncProgress>,
    notified: Vec<SyncError>,
    opened: Vec<(usize, u64)>,
    checks: usize,
    tail: u64,
}

fn signature(round: u64) -> Vec<u8> {
    vec![0x5a, round as u8]
}

fn packet(round: u64) -> BeaconPacket {
    packet_for(round, CHAIN)
}

fn packet_for(round: u64, id: &str) -> BeaconPacket {
    BeaconPacket {
        round,
        signature: signature(round),
        metadata: Some(Metadata { beacon_id: id.to_string(), chain_hash: vec![] }),
    }
}

fn forged(round: u64) -> BeaconPacket {
    BeaconPacket { signature: vec![0x5a, 0xff, round as u8], ..packet(round) }
}

fn undecodable(round: u64) -> BeaconPacket {
    BeaconPacket { signature: vec![], ..packet(round) }
}

fn rounds(from: u64, to: u64) -> Vec<BeaconPacket> {
    (from..=to).map(packet).collect()
}

/// Stand-in for the scheme: a signature is valid when it is the one that
/// `signature` gives for the round, chained to the signature before it.
fn check(previous: &[u8], round: u64, candidate: &[u8]) -> SignatureCheck {
    if candidate.is_empty() {
        SignatureCheck::Malformed
    } else if candidate == signature(round).as_slice()
        && previous == signature(round - 1).as_slice()
    {
        SignatureCheck::Valid
    } else {
        SignatureCheck::Invalid
    }
}

fn syncer(peers: usize) -> DefaultSyncer {
    let packet = ChainInfoPacket {
        public_key: vec![1, 2, 3],
        period: 3,
        genesis_time: 1_700_000_000,
        group_hash: vec![9, 9],
        scheme_id: "pedersen-bls-chained".to_string(),
        metadata: Some(Metadata { beacon_id: CHAIN.to_string(), chain_hash: vec![7, 7] }),
    };
    let req = StartSyncRequest {
        nodes: vec![],
        up_to: 0,
        metadata: Some(Metadata { beacon_id: CHAIN.to_string(), chain_hash: vec![7, 7] }),
    };
    let prechecked: Vec<Option<Address>> =
        (0..peers).map(|i| Some(Address { host: format!("node{i}:4444") })).collect();
    let (setup, action) = start_follow_chain(&req, CHAIN, &prechecked);
    assert_eq!(action, SetupAction::AskInfo { peer: 0 });
    let (setup, action) = setup.step(SetupEvent::InfoReply(Some(packet.clone())));
    assert_eq!(action, SetupAction::HashPacket(packet));
    let (setup, action) = setup.step(SetupEvent::Hashed(vec![7, 7]));
    assert_eq!(action, SetupAction::CheckGenesis { group_hash: vec![9, 9] });
    let (_, action) = setup.step(SetupEvent::GenesisChecked(Ok(())));
    let SetupAction::Finish(Ok(config)) = action else {
        panic!("the setup did not go through");
    };
    assert_eq!(config.peers().len(), peers);
    DefaultSyncer::from_config(config, "pedersen-bls-chained", true).unwrap()
}

/// Drives a session as the node would: `store_fails_at` makes the store
/// refuse that round, `receiver_gone_after` drops the progress receiver once
/// that round was reported.
fn drive(
    start: (SyncSession, SyncAction),
    peers: Vec<Peer>,
    store_fails_at: Option<u64>,
    receiver_gone_after: Option<u64>,
) -> Outcome {
    let (mut session, mut action) = start;
    let mut out = Outcome {
        result: Ok(()),
        stored: vec![],
        reports: vec![],
        notified: vec![],
        opened: vec![],
        checks: 0,
        tail: 0,
    };
    let mut stream: Vec<BeaconPacket> = vec![];
    let mut receiver_open = true;
    for _ in 0..10_000 {
        let event = match action {
            SyncAction::OpenStream { peer, from } => {
                out.opened.push((peer, from));
                match &peers[peer] {
                    Peer::Unreachable => SyncEvent::StreamOpened(false),
                    Peer::Serves(packets) => {
                        stream = packets.iter().filter(|p| p.round >= from).cloned().collect();
                        stream.reverse();
                        SyncEvent::StreamOpened(true)
                    }
                }
            }
            SyncAction::NextMessage => SyncEvent::Message(stream.pop()),
            SyncAction::CheckSignature { previous_signature, round, signature } => {
                out.checks += 1;
                SyncEvent::SignatureChecked(check(&previous_signature, round, &signature))
            }
            SyncAction::Store(beacon) => {
                if store_fails_at == Some(beacon.round) {
                    SyncEvent::Stored(Err(StoreError { message: "disk full".to_string() }))
                } else {
                    out.stored.push(beacon);
                    SyncEvent::Stored(Ok(()))
                }
            }
            SyncAction::Report(progress) => {
                if receiver_open {
                    let current = progress.current;
                    out.reports.push(progress);
                    if receiver_gone_after == Some(current) {
                        receiver_open = false;
                    }
                    SyncEvent::Reported(true)
                } else {
                    SyncEvent::Reported(false)
                }
            }
            SyncAction::Forward(_) => panic!("a follow session forwards nothing"),
            SyncAction::NotifyFailure(err) => {
                out.notified.push(err);
                SyncEvent::FailureNotified
            }
            SyncAction::Finish(result) => {
                assert_eq!(session.phase(), Phase::Done);
                out.result = result;
                out.tail = session.tail().round;
                return out;
            }
        };
        let next = session.step(event);
        session = next.0;
        action = next.1;
    }
    panic!("the session did not end");
}

fn follow(
    tail: u64,
    target: u64,
    peers: Vec<Peer>,
    store_fails_at: Option<u64>,
    receiver_gone_after: Option<u64>,
) -> Outcome {
    let last = Beacon { round: tail, signature: signature(tail) };
    let start = syncer(peers.len()).process_follow_request(target, last);
    drive(start, peers, store_fails_at, receiver_gone_after)
}

fn stored_rounds(out: &Outcome) -> Vec<u64> {
    out.stored.iter().map(|b| b.round).collect()
}

#[test]
fn failover_resumes_from_store_tail() {
    let peers = vec![Peer::Serves(rounds(11, 12)), Peer::Serves(rounds(11, 15))];
    let out = follow(10, 15, peers, None, None);
    assert_eq!(out.result, Ok(()));
    assert_eq!(out.tail, 15);
    assert_eq!(stored_rounds(&out), vec![11, 12, 13, 14, 15]);
    assert_eq!(out.opened, vec![(0, 11), (1, 13)]);
    assert!(out.notified.is_empty());
}

#[test]
fn stored_beacons_carry_the_packets_signatures() {
    let out = follow(10, 12, vec![Peer::Serves(rounds(11, 12))], None, None);
    assert_eq!(
        out.stored,
        vec![
            Beacon { round: 11, signature: signature(11) },
            Beacon { round: 12, signature: signature(12) },
        ]
    );
}

#[test]
fn progress_is_reported_after_each_store() {
    let out = follow(10, 13, vec![Peer::Serves(rounds(11, 13))], None, None);
    let expected: Vec<SyncProgress> = (11..=13)
        .map(|current| SyncProgress { current, target: 13, metadata: None })
        .collect();
    assert_eq!(out.reports, expected);
}

#[test]
fn target_at_tail_does_nothing() {
    let out = follow(10, 10, vec![Peer::Serves(rounds(1, 20))], None, None);
    assert_eq!(out.result, Ok(()));
    assert!(out.opened.is_empty());
    assert!(out.stored.is_empty());
    assert_eq!(out.tail, 10);
}

#[test]
fn target_behind_tail_does_nothing() {
    let last = Beacon { round: 10, signature: signature(10) };
    let (session, action) = syncer(1).process_follow_request(5, last);
    assert_eq!(action, SyncAction::Finish(Ok(())));
    assert_eq!(session.phase(), Phase::Done);
    assert_eq!(session.tail().round, 10);
}

#[test]
fn forged_signature_is_never_stored() {
    let mut bad = rounds(11, 12);
    bad.push(forged(13));
    bad.push(packet(14));
    let peers = vec![Peer::Serves(bad), Peer::Serves(rounds(11, 15))];
    let out = follow(10, 15, peers, None, None);
    assert_eq!(out.result, Ok(()));
    assert_eq!(stored_rounds(&out), vec![11, 12, 13, 14, 15]);
    assert!(out.stored.iter().all(|b| b.signature == signature(b.round)));
    assert_eq!(out.opened, vec![(0, 11), (1, 13)]);
}

#[test]
fn forged_signature_from_the_only_peer_ends_the_session() {
    let out = follow(10, 15, vec![Peer::Serves(vec![packet(11), forged(12)])], None, None);
    assert_eq!(out.result, Err(SyncError::TriedAllPeers { last: 11 }));
    assert_eq!(stored_rounds(&out), vec![11]);
    assert_eq!(out.notified, vec![SyncError::TriedAllPeers { last: 11 }]);
}

#[test]
fn undecodable_signature_abandons_the_peer() {
    let peers = vec![Peer::Serves(vec![undecodable(11)]), Peer::Serves(rounds(11, 11))];
    let out = follow(10, 11, peers, None, None);
    assert_eq!(out.result, Ok(()));
    assert_eq!(out.stored, vec![Beacon { round: 11, signature: signature(11) }]);
    assert_eq!(out.opened, vec![(0, 11), (1, 11)]);
}

#[test]
fn gap_in_rounds_abandons_the_peer_before_any_check() {
    let peers = vec![Peer::Serves(vec![packet(11), packet(13)])];
    let out = follow(10, 15, peers, None, None);
    assert_eq!(out.result, Err(SyncError::TriedAllPeers { last: 11 }));
    assert_eq!(out.checks, 1);
    assert_eq!(stored_rounds(&out), vec![11]);
}

#[test]
fn repeated_round_abandons_the_peer() {
    let peers = vec![Peer::Serves(vec![packet(11), packet(11)]), Peer::Serves(rounds(12, 12))];
    let out = follow(10, 12, peers, None, None);
    assert_eq!(out.result, Ok(()));
    assert_eq!(stored_rounds(&out), vec![11, 12]);
    assert_eq!(out.opened, vec![(0, 11), (1, 12)]);
}

#[test]
fn foreign_beacon_id_abandons_the_peer() {
    let peers = vec![Peer::Serves(vec![packet_for(11, "other")]), Peer::Serves(rounds(11, 11))];
    let out = follow(10, 11, peers, None, None);
    assert_eq!(out.result, Ok(()));
    assert_eq!(out.checks, 1);
    assert_eq!(out.opened, vec![(0, 11), (1, 11)]);
}

#[test]
fn missing_metadata_abandons_the_peer() {
    let bare = BeaconPacket { metadata: None, ..packet(11) };
    let out = follow(10, 11, vec![Peer::Serves(vec![bare])], None, None);
    assert_eq!(out.result, Err(SyncError::TriedAllPeers { last: 10 }));
    assert_eq!(out.checks, 0);
    assert!(out.stored.is_empty());
}

#[test]
fn unreachable_peers_are_skipped() {
    let peers = vec![Peer::Unreachable, Peer::Unreachable, Peer::Serves(rounds(11, 12))];
    let out = follow(10, 12, peers, None, None);
    assert_eq!(out.result, Ok(()));
    assert_eq!(out.opened, vec![(0, 11), (1, 11), (2, 11)]);
    assert_eq!(stored_rounds(&out), vec![11, 12]);
}

#[test]
fn exhausted_peers_fail_with_last_round_and_notify() {
    let peers = vec![Peer::Serves(rounds(11, 12)), Peer::Unreachable];
    let out = follow(10, 15, peers, None, None);
    assert_eq!(out.result, Err(SyncError::TriedAllPeers { last: 12 }));
    assert_eq!(out.notified, vec![SyncError::TriedAllPeers { last: 12 }]);
    assert_eq!(out.tail, 12);
}

#[test]
fn unreachable_peers_fail_with_the_store_tail() {
    let out = follow(10, 15, vec![Peer::Unreachable, Peer::Unreachable], None, None);
    assert_eq!(out.result, Err(SyncError::TriedAllPeers { last: 10 }));
    assert_eq!(out.notified, vec![SyncError::TriedAllPeers { last: 10 }]);
    assert_eq!(out.opened, vec![(0, 11), (1, 11)]);
    assert!(out.stored.is_empty());
}

#[test]
fn dropped_receiver_stops_with_success() {
    let out = follow(10, 15, vec![Peer::Serves(rounds(11, 15))], None, Some(12));
    assert_eq!(out.result, Ok(()));
    assert_eq!(out.tail, 13);
    assert!(out.notified.is_empty());
}

#[test]
fn receiver_dropped_after_round_12_leaves_tail_12() {
    let last = Beacon { round: 10, signature: signature(10) };
    let (mut session, mut action) = syncer(1).process_follow_request(15, last);
    assert_eq!(action, SyncAction::OpenStream { peer: 0, from: 11 });
    let mut events = vec![SyncEvent::StreamOpened(true)];
    for round in 11..=12 {
        events.push(SyncEvent::Message(Some(packet(round))));
        events.push(SyncEvent::SignatureChecked(SignatureCheck::Valid));
        events.push(SyncEvent::Stored(Ok(())));
        events.push(SyncEvent::Reported(round < 12));
    }
    for event in events {
        let next = session.step(event);
        session = next.0;
        action = next.1;
    }
    assert_eq!(action, SyncAction::Finish(Ok(())));
    assert_eq!(session.tail().round, 12);
    assert_eq!(session.phase(), Phase::Done);
}

#[test]
fn store_failure_ends_the_session() {
    let out = follow(10, 15, vec![Peer::Serves(rounds(11, 15)), Peer::Serves(rounds(11, 15))], Some(13), None);
    assert_eq!(
        out.result,
        Err(SyncError::ChainStore(StoreError { message: "disk full".to_string() }))
    );
    assert_eq!(stored_rounds(&out), vec![11, 12]);
    assert_eq!(out.tail, 12);
    assert_eq!(out.opened, vec![(0, 11)]);
}

#[test]
fn signature_check_names_the_previous_signature() {
    let last = Beacon { round: 10, signature: vec![0xaa, 0xbb] };
    let (session, _) = syncer(1).process_follow_request(12, last);
    let (session, action) = session.step(SyncEvent::StreamOpened(true));
    assert_eq!(action, SyncAction::NextMessage);
    let (session, action) = session.step(SyncEvent::Message(Some(packet(11))));
    assert_eq!(
        action,
        SyncAction::CheckSignature {
            previous_signature: vec![0xaa, 0xbb],
            round: 11,
            signature: signature(11),
        }
    );
    assert_eq!(session.phase(), Phase::Verifying);
    assert_eq!(session.peer(), 0);
    assert_eq!(session.target(), 12);
}

#[test]
fn event_out_of_turn_fails_as_internal() {
    let last = Beacon { round: 10, signature: signature(10) };
    let (session, _) = syncer(1).process_follow_request(12, last);
    let (session, action) = session.step(SyncEvent::Stored(Ok(())));
    assert_eq!(action, SyncAction::Finish(Err(SyncError::Internal)));
    let (_, action) = session.step(SyncEvent::StreamOpened(true));
    assert_eq!(action, SyncAction::Finish(Err(SyncError::Internal)));
}

#[test]
fn stops_at_target_though_the_stream_goes_on() {
    let out = follow(10, 12, vec![Peer::Serves(rounds(11, 20))], None, None);
    assert_eq!(out.result, Ok(()));
    assert_eq!(stored_rounds(&out), vec![11, 12]);
    assert_eq!(out.tail, 12);
}
