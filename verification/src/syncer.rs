//! The syncers: completion trackers specialized to the phases of the
//! recovery workflow.
//!
//! Every phase fans a command out to an unknown number of peers and must
//! fan back in exactly once: each peer receives one share of the phase's
//! syncer and releases it when its local work is done, and the release
//! that consumes the last share runs the phase's continuation against the
//! router. The plan-execution and wait-apply syncers carry an advisory
//! abort flag that turns their continuation into a no-op; the
//! fill-out-report syncer carries the growing collection of per-peer
//! records it will aggregate.

use vstd::prelude::*;

use crate::messages::{PeerMessage, PeerReport, ReplyChannel, StoreMessage, StoreReport};
use crate::router::{appends_broadcast, RaftRouter};
use crate::tracker::{CompletionTracker, Continuation, Share};

verus! {

/// The effect of starting one report round for `report_id` against a
/// router in state `pre`, leaving it in state `post` and handing back `r`:
/// with at least one live peer, exactly one wait-apply command per peer
/// goes out and the round's syncer comes back; with no peers at all the
/// round completes on the spot, sending an empty store report if the
/// control queue accepts it.
pub open spec fn started_report(
    pre: RaftRouter,
    post: RaftRouter,
    r: Option<UnsafeRecoveryWaitApplySyncer>,
    report_id: u64,
    exit_force_leader: bool,
) -> bool {
    &&& RaftRouter::same_membership(pre, post)
    &&& pre.peers().len() > 0 ==> {
        &&& appends_broadcast(
            pre.sent(),
            post.sent(),
            pre.peers(),
            (|m: PeerMessage| m is UnsafeRecoveryWaitApply),
        )
        &&& post.control_sent() == pre.control_sent()
        &&& (r matches Some(wa) && wa.wf() && wa.shares() == pre.peers().len() && wa.report_id()
            == report_id && wa.exit_force_leader() == exit_force_leader && !wa.aborted())
    }
    &&& pre.peers().len() == 0 ==> {
        &&& r is None
        &&& post.sent() == pre.sent()
        &&& (pre.control_open() ==> post.control_sent().len() == pre.control_sent().len() + 1
            && post.control_sent().drop_last() == pre.control_sent() && (post.control_sent().last()
            matches StoreMessage::UnsafeRecoveryReport { report } && report.step == report_id
            && report.peer_reports@ == Seq::<PeerReport>::empty()))
        &&& (!pre.control_open() ==> post.control_sent() == pre.control_sent())
    }
}

/// How many exit-force-leader commands precede the fill-out round: one per
/// live peer when the syncer was built to exit force leader, none
/// otherwise.
pub open spec fn exit_segment_len(exit_force_leader: bool, peer_count: int) -> int {
    if exit_force_leader {
        peer_count
    } else {
        0
    }
}

/// Start one report round: build a wait-apply syncer and hand one share of
/// it to every live peer. Every phase of the workflow ends by re-entering
/// here, which keeps the three phases structurally uniform. The caller's
/// own conceptual share is released immediately, so with no live peers the
/// round completes before this function returns.
pub fn start_unsafe_recovery_report(
    router: &mut RaftRouter,
    report_id: u64,
    exit_force_leader: bool,
) -> (r: Option<UnsafeRecoveryWaitApplySyncer>)
    requires
        old(router).peers().len() + 1 <= u64::MAX,
    ensures
        started_report(*old(router), *final(router), r, report_id, exit_force_leader),
{
    let ghost pre = *old(router);
    let (mut wait_apply, first) = UnsafeRecoveryWaitApplySyncer::new(report_id, exit_force_leader);
    router.broadcast_wait_apply(&mut wait_apply);
    let inner = wait_apply.release(first, router);
    proof {
        assert(inner is None);
        if pre.peers().len() == 0 {
            assert(router.sent() =~= pre.sent());
        }
    }
    if wait_apply.outstanding() == 0 {
        None
    } else {
        Some(wait_apply)
    }
}

/// The syncer of the force-leader phase. One share travels with each
/// enter-force-leader command; when the last peer reports its forced
/// leadership established, the release starts the next report round
/// (without asking the peers to exit force leader — that happens later,
/// inside the wait-apply phase of plan execution).
#[derive(Debug)]
pub struct UnsafeRecoveryForceLeaderSyncer {
    tracker: CompletionTracker,
    report_id: u64,
}

impl UnsafeRecoveryForceLeaderSyncer {
    /// The underlying completion tracker.
    pub closed spec fn barrier(self) -> CompletionTracker {
        self.tracker
    }

    /// The report id this syncer answers for.
    pub closed spec fn report_id(self) -> u64 {
        self.report_id
    }

    /// The report id this syncer answers for.
    pub fn get_report_id(&self) -> (r: u64)
        ensures
            r == self.report_id(),
    {
        self.report_id
    }

    pub open spec fn shares(self) -> int {
        self.barrier().shares()
    }

    pub open spec fn wf(self) -> bool {
        &&& self.barrier().wf()
        &&& self.barrier().shares() >= 1 ==> self.barrier().stored() == Some(
            Continuation::StartReport { report_id: self.report_id(), exit_force_leader: false },
        )
    }

    pub fn new(report_id: u64) -> (r: (Self, Share))
        ensures
            r.0.wf(),
            r.0.shares() == 1,
            r.0.report_id() == report_id,
    {
        let (tracker, share) = CompletionTracker::new(
            Continuation::StartReport { report_id, exit_force_leader: false },
        );
        (UnsafeRecoveryForceLeaderSyncer { tracker, report_id }, share)
    }

    /// Issue one more share, as handing a clone of the syncer to one more
    /// peer would.
    pub fn add_share(&mut self) -> (s: Share)
        requires
            old(self).wf(),
            old(self).shares() >= 1,
            old(self).shares() < u64::MAX,
        ensures
            final(self).wf(),
            final(self).shares() == old(self).shares() + 1,
            final(self).report_id() == old(self).report_id(),
    {
        self.tracker.add_share()
    }

    /// How many shares are still outstanding.
    pub fn outstanding(&self) -> (n: u64)
        ensures
            n as int == self.shares(),
    {
        self.tracker.outstanding_shares()
    }

    /// Consume one share. The last release starts the report round for
    /// this syncer's report id, keeping the peers in force leader.
    pub fn release(&mut self, share: Share, router: &mut RaftRouter) -> (r: Option<
        UnsafeRecoveryWaitApplySyncer,
    >)
        requires
            old(self).wf(),
            old(self).shares() >= 1,
            old(router).peers().len() + 1 <= u64::MAX,
        ensures
            final(self).wf(),
            final(self).shares() == old(self).shares() - 1,
            final(self).report_id() == old(self).report_id(),
            RaftRouter::same_membership(*old(router), *final(router)),
            old(self).shares() > 1 ==> r is None && *final(router) == *old(router),
            old(self).shares() == 1 ==> started_report(
                *old(router),
                *final(router),
                r,
                old(self).report_id(),
                false,
            ),
    {
        let fired = self.tracker.release(share);
        match fired {
            None => None,
            Some(c) => match c {
                Continuation::StartReport { report_id, exit_force_leader } => {
                    start_unsafe_recovery_report(router, report_id, exit_force_leader)
                },
                _ => unreached(),
            },
        }
    }
}

/// The syncer of the plan-execution phase. One share travels with each
/// create-peer, destroy-peer or demote command; when the last of them is
/// done, the release starts the next report round, this time asking the
/// peers to exit force leader first. `abort` suppresses that continuation
/// when the plan is known to have failed or been superseded.
#[derive(Debug)]
pub struct UnsafeRecoveryExecutePlanSyncer {
    tracker: CompletionTracker,
    abort: bool,
    report_id: u64,
}

impl UnsafeRecoveryExecutePlanSyncer {
    /// The underlying completion tracker.
    pub closed spec fn barrier(self) -> CompletionTracker {
        self.tracker
    }

    /// The report id this syncer answers for.
    pub closed spec fn report_id(self) -> u64 {
        self.report_id
    }

    /// The report id this syncer answers for.
    pub fn get_report_id(&self) -> (r: u64)
        ensures
            r == self.report_id(),
    {
        self.report_id
    }

    pub open spec fn shares(self) -> int {
        self.barrier().shares()
    }

    /// Whether the continuation has been advised not to run.
    pub closed spec fn aborted(self) -> bool {
        self.abort
    }

    pub open spec fn wf(self) -> bool {
        &&& self.barrier().wf()
        &&& self.barrier().shares() >= 1 ==> self.barrier().stored() == Some(
            Continuation::StartReport { report_id: self.report_id(), exit_force_leader: true },
        )
    }

    pub fn new(report_id: u64) -> (r: (Self, Share))
        ensures
            r.0.wf(),
            r.0.shares() == 1,
            r.0.report_id() == report_id,
            !r.0.aborted(),
    {
        let (tracker, share) = CompletionTracker::new(
            Continuation::StartReport { report_id, exit_force_leader: true },
        );
        (UnsafeRecoveryExecutePlanSyncer { tracker, abort: false, report_id }, share)
    }

    /// Issue one more share.
    pub fn add_share(&mut self) -> (s: Share)
        requires
            old(self).wf(),
            old(self).shares() >= 1,
            old(self).shares() < u64::MAX,
        ensures
            final(self).wf(),
            final(self).shares() == old(self).shares() + 1,
            final(self).report_id() == old(self).report_id(),
            final(self).aborted() == old(self).aborted(),
    {
        self.tracker.add_share()
    }

    /// How many shares are still outstanding.
    pub fn outstanding(&self) -> (n: u64)
        ensures
            n as int == self.shares(),
    {
        self.tracker.outstanding_shares()
    }

    /// Advise the continuation not to run. Best effort: a release that
    /// already ran the continuation is not rolled back — nothing beyond
    /// this flag is touched.
    pub fn abort(&mut self)
        ensures
            final(self).aborted(),
            final(self).barrier() == old(self).barrier(),
            final(self).report_id() == old(self).report_id(),
    {
        self.abort = true;
    }

    /// Consume one share. The last release starts the report round with
    /// `exit_force_leader` set — unless the syncer was aborted first, in
    /// which case nothing at all is dispatched.
    pub fn release(&mut self, share: Share, router: &mut RaftRouter) -> (r: Option<
        UnsafeRecoveryWaitApplySyncer,
    >)
        requires
            old(self).wf(),
            old(self).shares() >= 1,
            old(router).peers().len() + 1 <= u64::MAX,
        ensures
            final(self).wf(),
            final(self).shares() == old(self).shares() - 1,
            final(self).report_id() == old(self).report_id(),
            final(self).aborted() == old(self).aborted(),
            RaftRouter::same_membership(*old(router), *final(router)),
            old(self).shares() > 1 ==> r is None && *final(router) == *old(router),
            old(self).shares() == 1 && old(self).aborted() ==> r is None && *final(router) == *old(
                router,
            ),
            old(self).shares() == 1 && !old(self).aborted() ==> started_report(
                *old(router),
                *final(router),
                r,
                old(self).report_id(),
                true,
            ),
    {
        let fired = self.tracker.release(share);
        match fired {
            None => None,
            Some(c) => match c {
                Continuation::StartReport { report_id, exit_force_leader } => {
                    if self.abort {
                        None
                    } else {
                        start_unsafe_recovery_report(router, report_id, exit_force_leader)
                    }
                },
                _ => unreached(),
            },
        }
    }
}

/// The syncer of the wait-apply phase. One share travels with each
/// wait-apply command; when the last peer's apply index reaches its
/// target, the release optionally broadcasts exit-force-leader and then
/// hands a fresh fill-out-report round to every live peer. `abort`
/// suppresses the continuation.
#[derive(Debug)]
pub struct UnsafeRecoveryWaitApplySyncer {
    tracker: CompletionTracker,
    abort: bool,
    report_id: u64,
    exit_force_leader: bool,
}

impl UnsafeRecoveryWaitApplySyncer {
    /// The underlying completion tracker.
    pub closed spec fn barrier(self) -> CompletionTracker {
        self.tracker
    }

    /// The report id this syncer answers for.
    pub closed spec fn report_id(self) -> u64 {
        self.report_id
    }

    /// The report id this syncer answers for.
    pub fn get_report_id(&self) -> (r: u64)
        ensures
            r == self.report_id(),
    {
        self.report_id
    }

    /// Whether the last release should first ask every peer to exit force
    /// leader.
    pub closed spec fn exit_force_leader(self) -> bool {
        self.exit_force_leader
    }

    /// Whether the last release should first ask every peer to exit force
    /// leader.
    pub fn get_exit_force_leader(&self) -> (r: bool)
        ensures
            r == self.exit_force_leader(),
    {
        self.exit_force_leader
    }

    pub open spec fn shares(self) -> int {
        self.barrier().shares()
    }

    /// Whether the continuation has been advised not to run.
    pub closed spec fn aborted(self) -> bool {
        self.abort
    }

    pub open spec fn wf(self) -> bool {
        &&& self.barrier().wf()
        &&& self.barrier().shares() >= 1 ==> self.barrier().stored() == Some(
            Continuation::ExitThenFillOutReport {
                report_id: self.report_id(),
                exit_force_leader: self.exit_force_leader(),
            },
        )
    }

    pub fn new(report_id: u64, exit_force_leader: bool) -> (r: (Self, Share))
        ensures
            r.0.wf(),
            r.0.shares() == 1,
            r.0.report_id() == report_id,
            r.0.exit_force_leader() == exit_force_leader,
            !r.0.aborted(),
    {
        let (tracker, share) = CompletionTracker::new(
            Continuation::ExitThenFillOutReport { report_id, exit_force_leader },
        );
        (
            UnsafeRecoveryWaitApplySyncer { tracker, abort: false, report_id, exit_force_leader },
            share,
        )
    }

    /// Issue one more share.
    pub fn add_share(&mut self) -> (s: Share)
        requires
            old(self).wf(),
            old(self).shares() >= 1,
            old(self).shares() < u64::MAX,
        ensures
            final(self).wf(),
            final(self).shares() == old(self).shares() + 1,
            final(self).report_id() == old(self).report_id(),
            final(self).exit_force_leader() == old(self).exit_force_leader(),
            final(self).aborted() == old(self).aborted(),
    {
        self.tracker.add_share()
    }

    /// How many shares are still outstanding.
    pub fn outstanding(&self) -> (n: u64)
        ensures
            n as int == self.shares(),
    {
        self.tracker.outstanding_shares()
    }

    /// Advise the continuation not to run. Best effort: nothing beyond
    /// this flag is touched, and effects that already happened stand.
    pub fn abort(&mut self)
        ensures
            final(self).aborted(),
            final(self).barrier() == old(self).barrier(),
            final(self).report_id() == old(self).report_id(),
            final(self).exit_force_leader() == old(self).exit_force_leader(),
    {
        self.abort = true;
    }

    /// Consume one share. The last release — unless the syncer was
    /// aborted first — broadcasts exit-force-leader to every live peer if
    /// this syncer was built to do so, and then hands one share of a fresh
    /// fill-out-report syncer for the same report id to every live peer.
    /// The fill-out-report syncer is returned while any of its shares are
    /// outstanding; with no live peers it completes on the spot instead,
    /// sending an empty store report if the control queue accepts it.
    pub fn release(&mut self, share: Share, router: &mut RaftRouter) -> (r: Option<
        UnsafeRecoveryFillOutReportSyncer,
    >)
        requires
            old(self).wf(),
            old(self).shares() >= 1,
            old(router).peers().len() + 1 <= u64::MAX,
        ensures
            final(self).wf(),
            final(self).shares() == old(self).shares() - 1,
            final(self).report_id() == old(self).report_id(),
            final(self).exit_force_leader() == old(self).exit_force_leader(),
            final(self).aborted() == old(self).aborted(),
            RaftRouter::same_membership(*old(router), *final(router)),
            old(self).shares() > 1 ==> r is None && *final(router) == *old(router),
            old(self).shares() == 1 && old(self).aborted() ==> r is None && *final(router) == *old(
                router,
            ),
            old(self).shares() == 1 && !old(self).aborted() ==> ({
                let peers = old(router).peers();
                let base = old(router).sent().len() as int;
                let exit_len = exit_segment_len(old(self).exit_force_leader(), peers.len() as int);
                &&& final(router).sent().len() == base + exit_len + peers.len()
                &&& (forall|j: int|
                    0 <= j < base ==> final(router).sent()[j] == old(router).sent()[j])
                &&& (old(self).exit_force_leader() ==> forall|j: int|
                    base <= j < base + exit_len ==> (#[trigger] final(router).sent()[j]).0
                        == peers[j - base] && final(router).sent()[j].1
                        == PeerMessage::ExitForceLeaderState)
                &&& (forall|j: int|
                    base + exit_len <= j < base + exit_len + peers.len()
                        ==> (#[trigger] final(router).sent()[j]).0 == peers[j - base - exit_len]
                        && final(router).sent()[j].1 is UnsafeRecoveryFillOutReport)
                &&& peers.len() > 0 ==> {
                    &&& (r matches Some(f) && f.wf() && f.shares() == peers.len() && f.report_id()
                        == old(self).report_id() && f.reports() == Seq::<PeerReport>::empty())
                    &&& final(router).control_sent() == old(router).control_sent()
                }
                &&& peers.len() == 0 ==> {
                    &&& r is None
                    &&& (old(router).control_open() ==> final(router).control_sent().len() == old(
                        router,
                    ).control_sent().len() + 1 && final(router).control_sent().drop_last() == old(
                        router,
                    ).control_sent() && (final(router).control_sent().last()
                        matches StoreMessage::UnsafeRecoveryReport { report } && report.step == old(
                        self,
                    ).report_id() && report.peer_reports@ == Seq::<PeerReport>::empty()))
                    &&& (!old(router).control_open() ==> final(router).control_sent() == old(
                        router,
                    ).control_sent())
                }
            }),
    {
        let fired = self.tracker.release(share);
        match fired {
            None => None,
            Some(c) => match c {
                Continuation::ExitThenFillOutReport { report_id, exit_force_leader } => {
                    if self.abort {
                        None
                    } else {
                        if exit_force_leader {
                            router.broadcast_exit_force_leader();
                        }
                        let (mut fill_out, first) = UnsafeRecoveryFillOutReportSyncer::new(
                            report_id,
                        );
                        router.broadcast_fill_out_report(&mut fill_out);
                        fill_out.release(first, router);
                        if fill_out.outstanding() == 0 {
                            None
                        } else {
                            Some(fill_out)
                        }
                    }
                },
                _ => unreached(),
            },
        }
    }
}

/// The syncer of the fill-out-report phase. One share travels with each
/// fill-out-report command; each peer appends its own record through
/// `report_for_self` before releasing. The last release drains the
/// collection into one store report tagged with the report id and sends it
/// toward the control plane; a send failure there is swallowed, since the
/// barrier has already fired and nobody is left to answer.
#[derive(Debug)]
pub struct UnsafeRecoveryFillOutReportSyncer {
    tracker: CompletionTracker,
    reports: Vec<PeerReport>,
    report_id: u64,
}

impl UnsafeRecoveryFillOutReportSyncer {
    /// The underlying completion tracker.
    pub closed spec fn barrier(self) -> CompletionTracker {
        self.tracker
    }

    /// The report id this syncer answers for.
    pub closed spec fn report_id(self) -> u64 {
        self.report_id
    }

    /// The report id this syncer answers for.
    pub fn get_report_id(&self) -> (r: u64)
        ensures
            r == self.report_id(),
    {
        self.report_id
    }

    pub open spec fn shares(self) -> int {
        self.barrier().shares()
    }

    /// The records contributed so far, in arrival order.
    pub closed spec fn reports(self) -> Seq<PeerReport> {
        self.reports@
    }

    pub open spec fn wf(self) -> bool {
        &&& self.barrier().wf()
        &&& self.barrier().shares() >= 1 ==> self.barrier().stored() == Some(
            Continuation::SendStoreReport { report_id: self.report_id() },
        )
    }

    pub fn new(report_id: u64) -> (r: (Self, Share))
        ensures
            r.0.wf(),
            r.0.shares() == 1,
            r.0.report_id() == report_id,
            r.0.reports() == Seq::<PeerReport>::empty(),
    {
        let (tracker, share) = CompletionTracker::new(
            Continuation::SendStoreReport { report_id },
        );
        (UnsafeRecoveryFillOutReportSyncer { tracker, reports: Vec::new(), report_id }, share)
    }

    /// Issue one more share.
    pub fn add_share(&mut self) -> (s: Share)
        requires
            old(self).wf(),
            old(self).shares() >= 1,
            old(self).shares() < u64::MAX,
        ensures
            final(self).wf(),
            final(self).shares() == old(self).shares() + 1,
            final(self).report_id() == old(self).report_id(),
            final(self).reports() == old(self).reports(),
    {
        self.tracker.add_share()
    }

    /// How many shares are still outstanding.
    pub fn outstanding(&self) -> (n: u64)
        ensures
            n as int == self.shares(),
    {
        self.tracker.outstanding_shares()
    }

    /// Contribute this peer's own record to the report under construction.
    pub fn report_for_self(&mut self, report: PeerReport)
        ensures
            final(self).barrier() == old(self).barrier(),
            final(self).report_id() == old(self).report_id(),
            final(self).reports() == old(self).reports().push(report),
    {
        self.reports.push(report);
    }

    /// Consume one share. The last release aggregates every contributed
    /// record, in arrival order, into one store report whose step is this
    /// syncer's report id, and sends it toward the control plane; if the
    /// control queue is closed the report is lost, not escalated.
    pub fn release(&mut self, share: Share, router: &mut RaftRouter)
        requires
            old(self).wf(),
            old(self).shares() >= 1,
        ensures
            final(self).wf(),
            final(self).shares() == old(self).shares() - 1,
            final(self).report_id() == old(self).report_id(),
            RaftRouter::same_membership(*old(router), *final(router)),
            final(router).sent() == old(router).sent(),
            old(self).shares() > 1 ==> *final(router) == *old(router) && final(self).reports()
                == old(self).reports(),
            old(self).shares() == 1 ==> {
                &&& final(self).reports() == Seq::<PeerReport>::empty()
                &&& (old(router).control_open() ==> final(router).control_sent().len() == old(
                    router,
                ).control_sent().len() + 1 && final(router).control_sent().drop_last() == old(
                    router,
                ).control_sent() && (final(router).control_sent().last()
                    matches StoreMessage::UnsafeRecoveryReport { report } && report.step == old(
                    self,
                ).report_id() && report.peer_reports@ == old(self).reports()
                    && report.peer_reports@.to_multiset() == old(self).reports().to_multiset()))
                &&& (!old(router).control_open() ==> final(router).control_sent() == old(
                    router,
                ).control_sent())
            },
    {
        let fired = self.tracker.release(share);
        match fired {
            None => {},
            Some(c) => match c {
                Continuation::SendStoreReport { report_id } => {
                    let mut collected: Vec<PeerReport> = Vec::new();
                    std::mem::swap(&mut collected, &mut self.reports);
                    let report = StoreReport { step: report_id, peer_reports: collected };
                    let _ = router.send_report(report);
                },
                _ => unreached(),
            },
        }
    }
}

/// The restore-path variant of the wait-apply syncer. It answers through a
/// point-to-point channel instead of the report pipeline: the last release
/// — unless aborted — sends the region id to the invoker, and a closed
/// channel loses the reply silently.
#[derive(Debug)]
pub struct SnapshotRecoveryWaitApplySyncer {
    tracker: CompletionTracker,
    abort: bool,
    region_id: u64,
}

impl SnapshotRecoveryWaitApplySyncer {
    /// The underlying completion tracker.
    pub closed spec fn barrier(self) -> CompletionTracker {
        self.tracker
    }

    /// The region this syncer replies for.
    pub closed spec fn region_id(self) -> u64 {
        self.region_id
    }

    /// The region this syncer replies for.
    pub fn get_region_id(&self) -> (r: u64)
        ensures
            r == self.region_id(),
    {
        self.region_id
    }

    pub open spec fn shares(self) -> int {
        self.barrier().shares()
    }

    /// Whether the reply has been advised not to be sent.
    pub closed spec fn aborted(self) -> bool {
        self.abort
    }

    pub open spec fn wf(self) -> bool {
        &&& self.barrier().wf()
        &&& self.barrier().shares() >= 1 ==> self.barrier().stored() == Some(
            Continuation::ReplyRegion { region_id: self.region_id() },
        )
    }

    pub fn new(region_id: u64) -> (r: (Self, Share))
        ensures
            r.0.wf(),
            r.0.shares() == 1,
            r.0.region_id() == region_id,
            !r.0.aborted(),
    {
        let (tracker, share) = CompletionTracker::new(Continuation::ReplyRegion { region_id });
        (SnapshotRecoveryWaitApplySyncer { tracker, abort: false, region_id }, share)
    }

    /// Issue one more share.
    pub fn add_share(&mut self) -> (s: Share)
        requires
            old(self).wf(),
            old(self).shares() >= 1,
            old(self).shares() < u64::MAX,
        ensures
            final(self).wf(),
            final(self).shares() == old(self).shares() + 1,
            final(self).region_id() == old(self).region_id(),
            final(self).aborted() == old(self).aborted(),
    {
        self.tracker.add_share()
    }

    /// How many shares are still outstanding.
    pub fn outstanding(&self) -> (n: u64)
        ensures
            n as int == self.shares(),
    {
        self.tracker.outstanding_shares()
    }

    /// Advise the reply not to be sent. Best effort, as for the other
    /// abortable syncers.
    pub fn abort(&mut self)
        ensures
            final(self).aborted(),
            final(self).barrier() == old(self).barrier(),
            final(self).region_id() == old(self).region_id(),
    {
        self.abort = true;
    }

    /// Consume one share. The last release — unless aborted — sends this
    /// syncer's region id on the reply channel.
    pub fn release(&mut self, share: Share, channel: &mut ReplyChannel)
        requires
            old(self).wf(),
            old(self).shares() >= 1,
        ensures
            final(self).wf(),
            final(self).shares() == old(self).shares() - 1,
            final(self).region_id() == old(self).region_id(),
            final(self).aborted() == old(self).aborted(),
            final(channel).is_open() == old(channel).is_open(),
            old(self).shares() > 1 ==> *final(channel) == *old(channel),
            old(self).shares() == 1 && old(self).aborted() ==> *final(channel) == *old(channel),
            old(self).shares() == 1 && !old(self).aborted() ==> {
                &&& old(channel).is_open() ==> final(channel).sent() == old(channel).sent().push(
                    old(self).region_id(),
                )
                &&& !old(channel).is_open() ==> final(channel).sent() == old(channel).sent()
            },
    {
        let fired = self.tracker.release(share);
        match fired {
            None => {},
            Some(c) => match c {
                Continuation::ReplyRegion { region_id } => {
                    if !self.abort {
                        channel.send(region_id);
                    }
                },
                _ => unreached(),
            },
        }
    }
}

/// Specification-level mirror of successive `report_for_self` calls: the
/// collection after the peers have contributed the records `rs`, in that
/// order, starting from an empty collection.
pub open spec fn collected_reports(rs: Seq<PeerReport>) -> Seq<PeerReport>
    decreases rs.len(),
{
    if rs.len() == 0 {
        Seq::empty()
    } else {
        collected_reports(rs.drop_last()).push(rs.last())
    }
}

/// Law: when peers contribute the records `rs` one by one before releasing
/// their shares, the collection the last release aggregates is exactly
/// those records — and, as a multiset, it does not depend on the order in
/// which the peers came.
pub proof fn lemma_fill_out_aggregation(rs: Seq<PeerReport>)
    ensures
        collected_reports(rs) == rs,
        collected_reports(rs).to_multiset() == rs.to_multiset(),
    decreases rs.len(),
{
    if rs.len() == 0 {
        assert(collected_reports(rs) =~= rs);
    } else {
        lemma_fill_out_aggregation(rs.drop_last());
        assert(collected_reports(rs) =~= rs);
    }
}

} // verus!
