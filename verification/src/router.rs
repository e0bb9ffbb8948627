//! A model of the store's router, the dispatch surface the recovery
//! workflow sends its commands through.
//!
//! The router knows which regions have a live peer on this store, which of
//! their queues still accept point-to-point sends, and whether the store's
//! own control queue is open. Every command it accepts is appended to a
//! log, in dispatch order, so that callers can state — and tests can check
//! — exactly what a phase transition sent and in which order.

use vstd::prelude::*;

use crate::messages::{DispatchError, PeerMessage, RegionDescriptor, StoreMessage, StoreReport};
use crate::syncer::{
    UnsafeRecoveryExecutePlanSyncer, UnsafeRecoveryFillOutReportSyncer,
    UnsafeRecoveryForceLeaderSyncer, UnsafeRecoveryWaitApplySyncer,
};

verus! {

/// `post` extends `pre` by one message per peer, in peer order, each
/// satisfying `kind`.
pub open spec fn appends_broadcast(
    pre: Seq<(u64, PeerMessage)>,
    post: Seq<(u64, PeerMessage)>,
    peers: Seq<u64>,
    kind: spec_fn(PeerMessage) -> bool,
) -> bool {
    &&& post.len() == pre.len() + peers.len()
    &&& (forall|j: int| 0 <= j < pre.len() ==> post[j] == pre[j])
    &&& (forall|j: int|
        pre.len() <= j < post.len() ==> (#[trigger] post[j]).0 == peers[j - pre.len()] && kind(
            post[j].1,
        ))
}

/// The dispatch surface toward this store's peers and control queue.
pub struct RaftRouter {
    peers: Vec<u64>,
    closed: Vec<u64>,
    control_open: bool,
    sent: Vec<(u64, PeerMessage)>,
    control_sent: Vec<StoreMessage>,
}

impl RaftRouter {
    /// The regions with a live peer on this store, in store order.
    pub closed spec fn peers(self) -> Seq<u64> {
        self.peers@
    }

    /// The regions whose message queue no longer accepts point sends.
    pub closed spec fn closed_queues(self) -> Seq<u64> {
        self.closed@
    }

    /// Whether the store's control queue accepts commands.
    pub closed spec fn control_open(self) -> bool {
        self.control_open
    }

    /// Every command dispatched to a region so far, in order.
    pub closed spec fn sent(self) -> Seq<(u64, PeerMessage)> {
        self.sent@
    }

    /// Every command dispatched to the control queue so far, in order.
    pub closed spec fn control_sent(self) -> Seq<StoreMessage> {
        self.control_sent@
    }

    /// A point send to `region_id` goes through.
    pub open spec fn delivers_to(self, region_id: u64) -> bool {
        self.peers().contains(region_id) && !self.closed_queues().contains(region_id)
    }

    /// Membership and queue state are untouched; only the logs may differ.
    pub open spec fn same_membership(pre: RaftRouter, post: RaftRouter) -> bool {
        &&& post.peers() == pre.peers()
        &&& post.closed_queues() == pre.closed_queues()
        &&& post.control_open() == pre.control_open()
    }

    pub fn new(peers: Vec<u64>) -> (r: RaftRouter)
        ensures
            r.peers() == peers@,
            r.closed_queues() == Seq::<u64>::empty(),
            r.control_open(),
            r.sent() == Seq::<(u64, PeerMessage)>::empty(),
            r.control_sent() == Seq::<StoreMessage>::empty(),
    {
        RaftRouter {
            peers,
            closed: Vec::new(),
            control_open: true,
            sent: Vec::new(),
            control_sent: Vec::new(),
        }
    }

    /// Stop the given region's queue from accepting point sends.
    pub fn close_region_queue(&mut self, region_id: u64)
        ensures
            final(self).peers() == old(self).peers(),
            final(self).closed_queues() == old(self).closed_queues().push(region_id),
            final(self).control_open() == old(self).control_open(),
            final(self).sent() == old(self).sent(),
            final(self).control_sent() == old(self).control_sent(),
    {
        self.closed.push(region_id);
    }

    /// Close the store's control queue.
    pub fn close_control_queue(&mut self)
        ensures
            final(self).peers() == old(self).peers(),
            final(self).closed_queues() == old(self).closed_queues(),
            !final(self).control_open(),
            final(self).sent() == old(self).sent(),
            final(self).control_sent() == old(self).control_sent(),
    {
        self.control_open = false;
    }

    /// The number of live peers.
    pub fn peer_count(&self) -> (n: usize)
        ensures
            n == self.peers().len(),
    {
        self.peers.len()
    }

    /// The region commands dispatched so far, for the store runtime to
    /// drain and deliver.
    pub fn sent_messages(&self) -> (r: &Vec<(u64, PeerMessage)>)
        ensures
            r@ == self.sent(),
    {
        &self.sent
    }

    /// The control commands dispatched so far.
    pub fn control_messages(&self) -> (r: &Vec<StoreMessage>)
        ensures
            r@ == self.control_sent(),
    {
        &self.control_sent
    }

    /// Take every pending region command out of the log, in dispatch
    /// order, for the store runtime to deliver.
    pub fn drain_sent(&mut self) -> (r: Vec<(u64, PeerMessage)>)
        ensures
            r@ == old(self).sent(),
            final(self).sent() == Seq::<(u64, PeerMessage)>::empty(),
            final(self).control_sent() == old(self).control_sent(),
            RaftRouter::same_membership(*old(self), *final(self)),
    {
        let mut out: Vec<(u64, PeerMessage)> = Vec::new();
        std::mem::swap(&mut out, &mut self.sent);
        out
    }

    /// Take every pending control command out of the log, in dispatch
    /// order, for the store runtime to deliver.
    pub fn drain_control_sent(&mut self) -> (r: Vec<StoreMessage>)
        ensures
            r@ == old(self).control_sent(),
            final(self).control_sent() == Seq::<StoreMessage>::empty(),
            final(self).sent() == old(self).sent(),
            RaftRouter::same_membership(*old(self), *final(self)),
    {
        let mut out: Vec<StoreMessage> = Vec::new();
        std::mem::swap(&mut out, &mut self.control_sent);
        out
    }

    fn has_peer(&self, region_id: u64) -> (b: bool)
        ensures
            b == self.peers().contains(region_id),
    {
        contains_id(&self.peers, region_id)
    }

    fn queue_closed(&self, region_id: u64) -> (b: bool)
        ensures
            b == self.closed_queues().contains(region_id),
    {
        contains_id(&self.closed, region_id)
    }

    /// Ask one region's peer to enter force leader, handing it a share of
    /// the force-leader syncer. The share is issued only if the command is
    /// accepted.
    pub fn send_enter_force_leader(
        &mut self,
        region_id: u64,
        syncer: &mut UnsafeRecoveryForceLeaderSyncer,
        failed_stores: Vec<u64>,
    ) -> (r: Result<(), DispatchError>)
        requires
            old(syncer).wf(),
            old(syncer).shares() >= 1,
            old(syncer).shares() < u64::MAX,
        ensures
            RaftRouter::same_membership(*old(self), *final(self)),
            final(self).control_sent() == old(self).control_sent(),
            final(syncer).wf(),
            final(syncer).report_id() == old(syncer).report_id(),
            old(self).delivers_to(region_id) ==> {
                &&& r is Ok
                &&& final(syncer).shares() == old(syncer).shares() + 1
                &&& final(self).sent().len() == old(self).sent().len() + 1
                &&& final(self).sent().drop_last() == old(self).sent()
                &&& final(self).sent().last().0 == region_id
                &&& (final(self).sent().last().1 matches PeerMessage::EnterForceLeaderState {
                    failed_stores: fs,
                    ..
                } && fs@ == failed_stores@)
            },
            !old(self).peers().contains(region_id) ==> {
                &&& r == Result::<(), DispatchError>::Err(DispatchError::RegionNotFound { region_id })
                &&& final(self).sent() == old(self).sent()
                &&& final(syncer).shares() == old(syncer).shares()
            },
            old(self).peers().contains(region_id) && old(self).closed_queues().contains(region_id)
                ==> {
                &&& r == Result::<(), DispatchError>::Err(DispatchError::QueueClosed)
                &&& final(self).sent() == old(self).sent()
                &&& final(syncer).shares() == old(syncer).shares()
            },
    {
        if !self.has_peer(region_id) {
            Err(DispatchError::RegionNotFound { region_id })
        } else if self.queue_closed(region_id) {
            Err(DispatchError::QueueClosed)
        } else {
            let share = syncer.add_share();
            self.sent.push(
                (region_id, PeerMessage::EnterForceLeaderState { syncer: share, failed_stores }),
            );
            proof {
                assert(self.sent@.drop_last() =~= old(self).sent@);
            }
            Ok(())
        }
    }

    /// Best-effort fan-out: ask every live peer to leave force leader.
    /// No per-peer failure is observable to the caller.
    pub fn broadcast_exit_force_leader(&mut self)
        ensures
            RaftRouter::same_membership(*old(self), *final(self)),
            final(self).control_sent() == old(self).control_sent(),
            appends_broadcast(
                old(self).sent(),
                final(self).sent(),
                old(self).peers(),
                (|m: PeerMessage| m == PeerMessage::ExitForceLeaderState),
            ),
    {
        let ghost pre = self.sent@;
        let mut i: usize = 0;
        while i < self.peers.len()
            invariant
                0 <= i <= self.peers@.len(),
                self.peers@ == old(self).peers(),
                self.closed@ == old(self).closed_queues(),
                self.control_open == old(self).control_open(),
                self.control_sent@ == old(self).control_sent(),
                pre == old(self).sent(),
                self.sent@.len() == pre.len() + i,
                forall|j: int| 0 <= j < pre.len() ==> self.sent@[j] == pre[j],
                forall|j: int|
                    pre.len() <= j < self.sent@.len() ==> (#[trigger] self.sent@[j]).0
                        == self.peers@[j - pre.len()] && self.sent@[j].1
                        == PeerMessage::ExitForceLeaderState,
            decreases self.peers@.len() - i,
        {
            let region_id = self.peers[i];
            self.sent.push((region_id, PeerMessage::ExitForceLeaderState));
            i = i + 1;
        }
    }

    /// Ask the store's control loop to create a peer for `region`, handing
    /// it a share of the plan-execution syncer.
    pub fn send_create_peer(
        &mut self,
        region: RegionDescriptor,
        syncer: &mut UnsafeRecoveryExecutePlanSyncer,
    ) -> (r: Result<(), DispatchError>)
        requires
            old(syncer).wf(),
            old(syncer).shares() >= 1,
            old(syncer).shares() < u64::MAX,
        ensures
            RaftRouter::same_membership(*old(self), *final(self)),
            final(self).sent() == old(self).sent(),
            final(syncer).wf(),
            final(syncer).report_id() == old(syncer).report_id(),
            final(syncer).aborted() == old(syncer).aborted(),
            old(self).control_open() ==> {
                &&& r is Ok
                &&& final(syncer).shares() == old(syncer).shares() + 1
                &&& final(self).control_sent().len() == old(self).control_sent().len() + 1
                &&& final(self).control_sent().drop_last() == old(self).control_sent()
                &&& (final(self).control_sent().last() matches StoreMessage::UnsafeRecoveryCreatePeer {
                    create,
                    ..
                } && create == region)
            },
            !old(self).control_open() ==> {
                &&& r == Result::<(), DispatchError>::Err(DispatchError::QueueClosed)
                &&& final(self).control_sent() == old(self).control_sent()
                &&& final(syncer).shares() == old(syncer).shares()
            },
    {
        if self.control_open {
            let share = syncer.add_share();
            self.control_sent.push(StoreMessage::UnsafeRecoveryCreatePeer {
                syncer: share,
                create: region,
            });
            proof {
                assert(self.control_sent@.drop_last() =~= old(self).control_sent@);
            }
            Ok(())
        } else {
            Err(DispatchError::QueueClosed)
        }
    }

    /// Ask one region's peer to destroy itself, handing it a share of the
    /// plan-execution syncer. A missing region counts as success: the peer
    /// may already be gone, which is the outcome the plan wanted.
    pub fn send_destroy_peer(
        &mut self,
        region_id: u64,
        syncer: &mut UnsafeRecoveryExecutePlanSyncer,
    ) -> (r: Result<(), DispatchError>)
        requires
            old(syncer).wf(),
            old(syncer).shares() >= 1,
            old(syncer).shares() < u64::MAX,
        ensures
            RaftRouter::same_membership(*old(self), *final(self)),
            final(self).control_sent() == old(self).control_sent(),
            final(syncer).wf(),
            final(syncer).report_id() == old(syncer).report_id(),
            final(syncer).aborted() == old(syncer).aborted(),
            !old(self).peers().contains(region_id) ==> {
                &&& r is Ok
                &&& final(self).sent() == old(self).sent()
                &&& final(syncer).shares() == old(syncer).shares()
            },
            old(self).delivers_to(region_id) ==> {
                &&& r is Ok
                &&& final(syncer).shares() == old(syncer).shares() + 1
                &&& final(self).sent().len() == old(self).sent().len() + 1
                &&& final(self).sent().drop_last() == old(self).sent()
                &&& final(self).sent().last().0 == region_id
                &&& final(self).sent().last().1 is UnsafeRecoveryDestroy
            },
            old(self).peers().contains(region_id) && old(self).closed_queues().contains(region_id)
                ==> {
                &&& r == Result::<(), DispatchError>::Err(DispatchError::QueueClosed)
                &&& final(self).sent() == old(self).sent()
                &&& final(syncer).shares() == old(syncer).shares()
            },
    {
        if !self.has_peer(region_id) {
            // The peer may be destroyed already.
            Ok(())
        } else if self.queue_closed(region_id) {
            Err(DispatchError::QueueClosed)
        } else {
            let share = syncer.add_share();
            self.sent.push((region_id, PeerMessage::UnsafeRecoveryDestroy { syncer: share }));
            proof {
                assert(self.sent@.drop_last() =~= old(self).sent@);
            }
            Ok(())
        }
    }

    /// Best-effort fan-out: hand every live peer a share of the wait-apply
    /// syncer.
    pub fn broadcast_wait_apply(&mut self, syncer: &mut UnsafeRecoveryWaitApplySyncer)
        requires
            old(syncer).wf(),
            old(syncer).shares() >= 1,
            old(syncer).shares() + old(self).peers().len() <= u64::MAX,
        ensures
            RaftRouter::same_membership(*old(self), *final(self)),
            final(self).control_sent() == old(self).control_sent(),
            final(syncer).wf(),
            final(syncer).shares() == old(syncer).shares() + old(self).peers().len(),
            final(syncer).report_id() == old(syncer).report_id(),
            final(syncer).exit_force_leader() == old(syncer).exit_force_leader(),
            final(syncer).aborted() == old(syncer).aborted(),
            appends_broadcast(
                old(self).sent(),
                final(self).sent(),
                old(self).peers(),
                (|m: PeerMessage| m is UnsafeRecoveryWaitApply),
            ),
    {
        let ghost pre = self.sent@;
        let mut i: usize = 0;
        while i < self.peers.len()
            invariant
                0 <= i <= self.peers@.len(),
                self.peers@ == old(self).peers(),
                self.closed@ == old(self).closed_queues(),
                self.control_open == old(self).control_open(),
                self.control_sent@ == old(self).control_sent(),
                pre == old(self).sent(),
                syncer.wf(),
                syncer.shares() >= 1,
                syncer.shares() == old(syncer).shares() + i,
                syncer.shares() + self.peers@.len() - i <= u64::MAX,
                syncer.report_id() == old(syncer).report_id(),
                syncer.exit_force_leader() == old(syncer).exit_force_leader(),
                syncer.aborted() == old(syncer).aborted(),
                self.sent@.len() == pre.len() + i,
                forall|j: int| 0 <= j < pre.len() ==> self.sent@[j] == pre[j],
                forall|j: int|
                    pre.len() <= j < self.sent@.len() ==> (#[trigger] self.sent@[j]).0
                        == self.peers@[j - pre.len()] && self.sent@[j].1 is UnsafeRecoveryWaitApply,
            decreases self.peers@.len() - i,
        {
            let region_id = self.peers[i];
            let share = syncer.add_share();
            self.sent.push((region_id, PeerMessage::UnsafeRecoveryWaitApply { syncer: share }));
            i = i + 1;
        }
    }

    /// Best-effort fan-out: hand every live peer a share of the
    /// fill-out-report syncer.
    pub fn broadcast_fill_out_report(&mut self, syncer: &mut UnsafeRecoveryFillOutReportSyncer)
        requires
            old(syncer).wf(),
            old(syncer).shares() >= 1,
            old(syncer).shares() + old(self).peers().len() <= u64::MAX,
        ensures
            RaftRouter::same_membership(*old(self), *final(self)),
            final(self).control_sent() == old(self).control_sent(),
            final(syncer).wf(),
            final(syncer).shares() == old(syncer).shares() + old(self).peers().len(),
            final(syncer).report_id() == old(syncer).report_id(),
            final(syncer).reports() == old(syncer).reports(),
            appends_broadcast(
                old(self).sent(),
                final(self).sent(),
                old(self).peers(),
                (|m: PeerMessage| m is UnsafeRecoveryFillOutReport),
            ),
    {
        let ghost pre = self.sent@;
        let mut i: usize = 0;
        while i < self.peers.len()
            invariant
                0 <= i <= self.peers@.len(),
                self.peers@ == old(self).peers(),
                self.closed@ == old(self).closed_queues(),
                self.control_open == old(self).control_open(),
                self.control_sent@ == old(self).control_sent(),
                pre == old(self).sent(),
                syncer.wf(),
                syncer.shares() >= 1,
                syncer.shares() == old(syncer).shares() + i,
                syncer.shares() + self.peers@.len() - i <= u64::MAX,
                syncer.report_id() == old(syncer).report_id(),
                syncer.reports() == old(syncer).reports(),
                self.sent@.len() == pre.len() + i,
                forall|j: int| 0 <= j < pre.len() ==> self.sent@[j] == pre[j],
                forall|j: int|
                    pre.len() <= j < self.sent@.len() ==> (#[trigger] self.sent@[j]).0
                        == self.peers@[j - pre.len()] && self.sent@[j].1
                        is UnsafeRecoveryFillOutReport,
            decreases self.peers@.len() - i,
        {
            let region_id = self.peers[i];
            let share = syncer.add_share();
            self.sent.push(
                (region_id, PeerMessage::UnsafeRecoveryFillOutReport { syncer: share }),
            );
            i = i + 1;
        }
    }

    /// Deliver the aggregated store report toward the control plane.
    pub fn send_report(&mut self, report: StoreReport) -> (r: Result<(), DispatchError>)
        ensures
            RaftRouter::same_membership(*old(self), *final(self)),
            final(self).sent() == old(self).sent(),
            old(self).control_open() ==> {
                &&& r is Ok
                &&& final(self).control_sent().len() == old(self).control_sent().len() + 1
                &&& final(self).control_sent().drop_last() == old(self).control_sent()
                &&& (final(self).control_sent().last() matches StoreMessage::UnsafeRecoveryReport {
                    report: sent,
                } && sent.step == report.step && sent.peer_reports@ == report.peer_reports@)
            },
            !old(self).control_open() ==> {
                &&& r == Result::<(), DispatchError>::Err(DispatchError::QueueClosed)
                &&& final(self).control_sent() == old(self).control_sent()
            },
    {
        if self.control_open {
            self.control_sent.push(StoreMessage::UnsafeRecoveryReport { report });
            proof {
                assert(self.control_sent@.drop_last() =~= old(self).control_sent@);
            }
            Ok(())
        } else {
            Err(DispatchError::QueueClosed)
        }
    }
}

fn contains_id(v: &Vec<u64>, x: u64) -> (b: bool)
    ensures
        b == v@.contains(x),
{
    let mut i: usize = 0;
    while i < v.len()
        invariant
            0 <= i <= v@.len(),
            forall|j: int| 0 <= j < i ==> v@[j] != x,
        decreases v@.len() - i,
    {
        if v[i] == x {
            proof {
                assert(v@.contains(x)) by {
                    assert(v@[i as int] == x);
                }
            }
            return true;
        }
        i = i + 1;
    }
    false
}

} // verus!
