use unsafe_recovery::messages::{DispatchError, PeerMessage, PeerReport, ReplyChannel, StoreMessage};
use unsafe_recovery::router::RaftRouter;
use unsafe_recovery::syncer::{
    start_unsafe_recovery_report, SnapshotRecoveryWaitApplySyncer, UnsafeRecoveryExecutePlanSyncer,
    UnsafeRecoveryFillOutReportSyncer, UnsafeRecoveryForceLeaderSyncer,
    UnsafeRecoveryWaitApplySyncer,
};

fn router_with_peers(peers: &[u64]) -> RaftRouter {
    RaftRouter::new(peers.to_vec())
}

// Three peer shares of a wait-apply syncer built for report 7 with the
// exit-force-leader flag; releases come in the order second, first, third.
// Expected effects, in order: one exit-force-leader broadcast, then exactly
// one fill-out-report broadcast carrying a syncer tagged with report 7.
#[test]
fn wait_apply_exit_then_fill_out_in_order() {
    let mut router = router_with_peers(&[1, 2, 3]);
    let (mut wa, p1) = UnsafeRecoveryWaitApplySyncer::new(7, true);
    let p2 = wa.add_share();
    let p3 = wa.add_share();

    assert!(wa.release(p2, &mut router).is_none());
    assert!(wa.release(p1, &mut router).is_none());
    assert!(router.sent_messages().is_empty());

    let fill_out = wa.release(p3, &mut router).expect("last release hands out the next round");
    assert_eq!(fill_out.get_report_id(), 7);
    assert_eq!(fill_out.outstanding(), 3);

    let sent = router.sent_messages();
    assert_eq!(sent.len(), 6);
    for i in 0..3 {
        assert_eq!(sent[i].0, (i + 1) as u64);
        assert!(matches!(sent[i].1, PeerMessage::ExitForceLeaderState));
    }
    for i in 3..6 {
        assert_eq!(sent[i].0, (i - 2) as u64);
        assert!(matches!(sent[i].1, PeerMessage::UnsafeRecoveryFillOutReport { .. }));
    }
    assert!(router.control_messages().is_empty());
}

// Without the exit-force-leader flag, the last release only hands out the
// fill-out round.
#[test]
fn wait_apply_without_exit_flag_skips_exit_broadcast() {
    let mut router = router_with_peers(&[10, 20]);
    let (mut wa, p1) = UnsafeRecoveryWaitApplySyncer::new(3, false);
    let p2 = wa.add_share();
    wa.release(p1, &mut router);
    let fill_out = wa.release(p2, &mut router).expect("next round");
    assert_eq!(fill_out.get_report_id(), 3);
    let sent = router.sent_messages();
    assert_eq!(sent.len(), 2);
    assert!(matches!(sent[0].1, PeerMessage::UnsafeRecoveryFillOutReport { .. }));
    assert!(matches!(sent[1].1, PeerMessage::UnsafeRecoveryFillOutReport { .. }));
}

// An execute-plan syncer for report 9 with two shares; abort is called,
// then both shares are released: the next report round is never started.
#[test]
fn execute_plan_abort_suppresses_report() {
    let mut router = router_with_peers(&[1, 2]);
    let (mut ep, s1) = UnsafeRecoveryExecutePlanSyncer::new(9);
    let s2 = ep.add_share();
    ep.abort();
    assert!(ep.release(s1, &mut router).is_none());
    assert!(ep.release(s2, &mut router).is_none());
    assert!(router.sent_messages().is_empty());
    assert!(router.control_messages().is_empty());
}

// Without an abort, the execute-plan syncer's last release starts the next
// report round, asking the peers to exit force leader inside it.
#[test]
fn execute_plan_fires_next_report_round() {
    let mut router = router_with_peers(&[1, 2]);
    let (mut ep, s1) = UnsafeRecoveryExecutePlanSyncer::new(9);
    let s2 = ep.add_share();
    assert!(ep.release(s1, &mut router).is_none());
    let wa = ep.release(s2, &mut router).expect("the report round's syncer");
    assert_eq!(wa.get_report_id(), 9);
    assert!(wa.get_exit_force_leader());
    assert_eq!(wa.outstanding(), 2);
    let sent = router.sent_messages();
    assert_eq!(sent.len(), 2);
    assert!(matches!(sent[0].1, PeerMessage::UnsafeRecoveryWaitApply { .. }));
    assert!(matches!(sent[1].1, PeerMessage::UnsafeRecoveryWaitApply { .. }));
}

// Aborting after the continuation already ran does not roll anything back.
#[test]
fn abort_after_fire_leaves_effects_standing() {
    let mut router = router_with_peers(&[1]);
    let (mut ep, s1) = UnsafeRecoveryExecutePlanSyncer::new(4);
    let wa = ep.release(s1, &mut router);
    assert!(wa.is_some());
    assert_eq!(router.sent_messages().len(), 1);
    ep.abort();
    assert_eq!(router.sent_messages().len(), 1);
}

// The force-leader syncer's last release starts the report round without
// asking anyone to exit force leader.
#[test]
fn force_leader_syncer_starts_report_round() {
    let mut router = router_with_peers(&[5]);
    let (mut fl, s1) = UnsafeRecoveryForceLeaderSyncer::new(8);
    let wa = fl.release(s1, &mut router).expect("the report round's syncer");
    assert_eq!(wa.get_report_id(), 8);
    assert!(!wa.get_exit_force_leader());
    let sent = router.sent_messages();
    assert_eq!(sent.len(), 1);
    assert!(matches!(sent[0].1, PeerMessage::UnsafeRecoveryWaitApply { .. }));
}

// Peers each contribute their own record before releasing; the aggregated
// store report holds exactly that set of records, whatever the order, and
// its step is the round's report id.
#[test]
fn fill_out_report_aggregates_all_records() {
    let mut router = router_with_peers(&[]);
    let (mut fill, s1) = UnsafeRecoveryFillOutReportSyncer::new(12);
    let s2 = fill.add_share();
    let s3 = fill.add_share();

    fill.report_for_self(PeerReport { region_id: 2, applied_index: 20 });
    fill.release(s2, &mut router);
    fill.report_for_self(PeerReport { region_id: 3, applied_index: 30 });
    fill.release(s3, &mut router);
    fill.report_for_self(PeerReport { region_id: 1, applied_index: 10 });
    fill.release(s1, &mut router);

    let control = router.drain_control_sent();
    assert_eq!(control.len(), 1);
    match &control[0] {
        StoreMessage::UnsafeRecoveryReport { report } => {
            assert_eq!(report.step, 12);
            let mut records = report.peer_reports.clone();
            records.sort_by(|a, b| a.region_id.cmp(&b.region_id));
            assert_eq!(
                records,
                vec![
                    PeerReport { region_id: 1, applied_index: 10 },
                    PeerReport { region_id: 2, applied_index: 20 },
                    PeerReport { region_id: 3, applied_index: 30 },
                ]
            );
        }
        other => panic!("expected a store report, got {:?}", other),
    }
}

// A report round started on a store with no live peers completes on the
// spot: the store report goes out immediately, with no peer records.
#[test]
fn zero_peer_round_sends_empty_report() {
    let mut router = router_with_peers(&[]);
    let wa = start_unsafe_recovery_report(&mut router, 6, false);
    assert!(wa.is_none());
    assert!(router.sent_messages().is_empty());
    let control = router.drain_control_sent();
    assert_eq!(control.len(), 1);
    match &control[0] {
        StoreMessage::UnsafeRecoveryReport { report } => {
            assert_eq!(report.step, 6);
            assert!(report.peer_reports.is_empty());
        }
        _ => panic!("expected a store report"),
    }
}

// A report round started while the control queue is closed loses the empty
// report silently: the barrier has fired and nobody is left to answer.
#[test]
fn zero_peer_round_with_closed_control_loses_report() {
    let mut router = router_with_peers(&[]);
    router.close_control_queue();
    let wa = start_unsafe_recovery_report(&mut router, 6, false);
    assert!(wa.is_none());
    assert!(router.control_messages().is_empty());
}

// Destroying a peer of a region this store does not carry is a success:
// the peer may already be gone, which is what the plan wanted.
#[test]
fn send_destroy_peer_missing_region_is_success() {
    let mut router = router_with_peers(&[1, 2]);
    let (mut ep, s1) = UnsafeRecoveryExecutePlanSyncer::new(1);
    let r = router.send_destroy_peer(42, &mut ep);
    assert!(r.is_ok());
    assert!(router.sent_messages().is_empty());
    assert_eq!(ep.outstanding(), 1);
    // the live region still receives its command
    let r2 = router.send_destroy_peer(2, &mut ep);
    assert!(r2.is_ok());
    assert_eq!(router.sent_messages().len(), 1);
    assert_eq!(ep.outstanding(), 2);
    let _ = s1;
}

// A region whose queue is closed reports the failure instead.
#[test]
fn send_destroy_peer_closed_queue_is_error() {
    let mut router = router_with_peers(&[2]);
    router.close_region_queue(2);
    let (mut ep, _s1) = UnsafeRecoveryExecutePlanSyncer::new(1);
    let r = router.send_destroy_peer(2, &mut ep);
    assert_eq!(r, Err(DispatchError::QueueClosed));
    assert!(router.sent_messages().is_empty());
    assert_eq!(ep.outstanding(), 1);
}

// Entering force leader needs the region's queue: a missing region and a
// closed queue are the two reportable failures.
#[test]
fn send_enter_force_leader_failures_and_success() {
    let mut router = router_with_peers(&[7]);
    let (mut fl, _s1) = UnsafeRecoveryForceLeaderSyncer::new(2);

    let missing = router.send_enter_force_leader(8, &mut fl, vec![100]);
    assert_eq!(missing, Err(DispatchError::RegionNotFound { region_id: 8 }));
    assert_eq!(fl.outstanding(), 1);

    let ok = router.send_enter_force_leader(7, &mut fl, vec![100, 200]);
    assert!(ok.is_ok());
    assert_eq!(fl.outstanding(), 2);
    let sent = router.drain_sent();
    assert_eq!(sent.len(), 1);
    assert_eq!(sent[0].0, 7);
    match &sent[0].1 {
        PeerMessage::EnterForceLeaderState { failed_stores, .. } => {
            assert_eq!(failed_stores, &vec![100, 200]);
        }
        _ => panic!("expected an enter-force-leader command"),
    }

    router.close_region_queue(7);
    let closed = router.send_enter_force_leader(7, &mut fl, vec![100]);
    assert_eq!(closed, Err(DispatchError::QueueClosed));
    assert_eq!(fl.outstanding(), 2);
}

// A closed control queue turns both control-bound sends into errors.
#[test]
fn control_queue_failures_are_reported() {
    let mut router = router_with_peers(&[1]);
    router.close_control_queue();
    let (mut ep, _s1) = UnsafeRecoveryExecutePlanSyncer::new(1);
    let create = router.send_create_peer(
        unsafe_recovery::messages::RegionDescriptor { id: 9 },
        &mut ep,
    );
    assert!(create.is_err());
    assert_eq!(ep.outstanding(), 1);
    let report = router.send_report(unsafe_recovery::messages::StoreReport {
        step: 1,
        peer_reports: vec![],
    });
    assert!(report.is_err());
}

// The snapshot variant replies with its region id on the point-to-point
// channel, once, at the last release.
#[test]
fn snapshot_syncer_replies_with_region_id() {
    let mut channel = ReplyChannel::new();
    let (mut sn, s1) = SnapshotRecoveryWaitApplySyncer::new(77);
    let s2 = sn.add_share();
    sn.release(s2, &mut channel);
    assert!(channel.delivered().is_empty());
    sn.release(s1, &mut channel);
    assert_eq!(channel.delivered(), &vec![77]);
}

// An aborted snapshot syncer never replies; a closed channel loses the
// reply silently instead of failing.
#[test]
fn snapshot_syncer_abort_and_closed_channel() {
    let mut channel = ReplyChannel::new();
    let (mut sn, s1) = SnapshotRecoveryWaitApplySyncer::new(5);
    sn.abort();
    sn.release(s1, &mut channel);
    assert!(channel.delivered().is_empty());

    let mut closed = ReplyChannel::new();
    closed.close();
    let (mut sn2, s2) = SnapshotRecoveryWaitApplySyncer::new(6);
    sn2.release(s2, &mut closed);
    assert!(closed.delivered().is_empty());
}
