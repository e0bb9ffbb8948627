use unsafe_recovery::messages::{PeerDescriptor, PeerMessage};
use unsafe_recovery::router::RaftRouter;
use unsafe_recovery::state::{ForceLeaderState, SnapshotRecoveryState, UnsafeRecoveryState};
use unsafe_recovery::syncer::UnsafeRecoveryForceLeaderSyncer;

// The force-leader sequence for region 42: the state starts waiting three
// ticks, three tick events advance it to the pre-force-leader stage, the
// vote grants advance it to forced leadership, and the exit command
// removes the state entirely.
#[test]
fn force_leader_state_walks_the_sequence() {
    let mut router = RaftRouter::new(vec![42]);
    let (mut fl, own_share) = UnsafeRecoveryForceLeaderSyncer::new(30);
    router
        .send_enter_force_leader(42, &mut fl, vec![900])
        .expect("region 42 is live");

    let mut sent = router.drain_sent();
    assert_eq!(sent.len(), 1);
    assert_eq!(sent[0].0, 42);
    let (syncer, failed_stores) = match sent.remove(0).1 {
        PeerMessage::EnterForceLeaderState { syncer, failed_stores } => (syncer, failed_stores),
        _ => panic!("expected an enter-force-leader command"),
    };

    let mut state = Some(ForceLeaderState::WaitTicks { syncer, failed_stores, ticks: 3 });

    for _ in 0..3 {
        assert!(matches!(state, Some(ForceLeaderState::WaitTicks { .. })));
        state = Some(state.take().unwrap().on_tick());
    }
    assert!(matches!(state, Some(ForceLeaderState::PreForceLeader { .. })));

    let (next, released) = state.take().unwrap().on_votes_granted(12345);
    match &next {
        ForceLeaderState::ForceLeader { since, failed_stores } => {
            assert_eq!(*since, 12345);
            assert_eq!(failed_stores, &vec![900]);
        }
        _ => panic!("expected forced leadership"),
    }
    // the peer observed its forced leadership established: its share goes back
    fl.release(released.expect("the early stages hold the share"), &mut router);
    // the exit command removes the state entirely; nothing is left to release
    state = Some(next);
    let leftover = state.take().unwrap().on_exit();
    assert!(leftover.is_none());
    assert!(state.is_none());

    // the workflow's own share is still pending, so the report round has
    // not started yet; releasing it fires the continuation
    assert!(router.sent_messages().is_empty());
    let wa = fl.release(own_share, &mut router).expect("the report round's syncer");
    assert_eq!(wa.get_report_id(), 30);
    assert_eq!(router.sent_messages().len(), 1);
}

// A peer that exits force leader while still waiting for ticks hands its
// share back, so the phase is not stalled by the early exit.
#[test]
fn force_leader_early_exit_recovers_share() {
    let mut router = RaftRouter::new(vec![1]);
    let (mut fl, own_share) = UnsafeRecoveryForceLeaderSyncer::new(2);
    let peer_share = {
        router.send_enter_force_leader(1, &mut fl, vec![]).unwrap();
        match router.drain_sent().remove(0).1 {
            PeerMessage::EnterForceLeaderState { syncer, .. } => syncer,
            _ => panic!("expected an enter-force-leader command"),
        }
    };
    let state = ForceLeaderState::WaitTicks { syncer: peer_share, failed_stores: vec![], ticks: 5 };
    let recovered = state.on_exit().expect("the waiting stage holds the share");
    assert!(fl.release(recovered, &mut router).is_none());
    assert!(fl.release(own_share, &mut router).is_some());
}

// A wait-apply state clears itself — releasing its share — exactly when
// the apply index reaches its target.
#[test]
fn wait_apply_state_clears_at_target_index() {
    let mut router = RaftRouter::new(vec![]);
    let (mut wa_syncer, share) =
        unsafe_recovery::syncer::UnsafeRecoveryWaitApplySyncer::new(1, false);

    let state = UnsafeRecoveryState::WaitApply { target_index: 10, syncer: share };
    let (kept, none) = state.on_applied(9);
    assert!(none.is_none());
    let state = kept.expect("the target is not reached yet");

    let (cleared, released) = state.on_applied(10);
    assert!(cleared.is_none());
    wa_syncer.release(released.expect("reaching the target hands the share back"), &mut router);
    assert_eq!(wa_syncer.outstanding(), 0);
}

// Any other recovery state hands its share back when it is cleared.
#[test]
fn recovery_states_hand_back_their_share() {
    let mut router = RaftRouter::new(vec![1]);
    let (mut ep, s1) = unsafe_recovery::syncer::UnsafeRecoveryExecutePlanSyncer::new(3);
    let s2 = ep.add_share();
    let s3 = ep.add_share();
    let destroy = UnsafeRecoveryState::Destroy(s1);
    let demote = UnsafeRecoveryState::DemoteFailedVoters {
        syncer: s2,
        failed_voters: vec![PeerDescriptor { id: 4, store_id: 900 }],
        target_index: 17,
        demote_after_exit: true,
    };
    let wait_init = UnsafeRecoveryState::WaitInitialize(s3);
    assert!(ep.release(destroy.take_syncer(), &mut router).is_none());
    // an apply milestone means nothing to a demotion state; clearing it
    // after the demotion was applied hands the share back
    let (kept, none) = demote.on_applied(17);
    assert!(none.is_none());
    assert!(ep.release(kept.unwrap().take_syncer(), &mut router).is_none());
    assert!(ep.release(wait_init.take_syncer(), &mut router).is_some());
}

// The snapshot recovery state behaves like wait-apply: cleared exactly at
// the target index.
#[test]
fn snapshot_state_clears_at_last_index() {
    let mut channel = unsafe_recovery::messages::ReplyChannel::new();
    let (mut sn, share) = unsafe_recovery::syncer::SnapshotRecoveryWaitApplySyncer::new(9);
    let state = SnapshotRecoveryState::WaitLogApplyToLast { target_index: 100, syncer: share };
    let (kept, _) = state.on_applied(99);
    let (cleared, released) = kept.expect("still waiting").on_applied(100);
    assert!(cleared.is_none());
    sn.release(released.expect("the share comes back"), &mut channel);
    assert_eq!(channel.delivered(), &vec![9]);
}
