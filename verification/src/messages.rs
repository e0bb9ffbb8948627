//! The message vocabulary of the recovery workflow, and the plain data it
//! carries.
//!
//! Regions, peers and reports are addressed by plain identifiers here; the
//! store runtime that owns the real descriptors converts at the boundary.

use vstd::prelude::*;

use crate::tracker::Share;

verus! {

/// A region to be (re-)created during plan execution.
#[derive(Clone, Copy, PartialEq, Eq, Structural, Debug)]
pub struct RegionDescriptor {
    pub id: u64,
}

/// A peer replica, identified by its own id and the id of the store that
/// carries it.
#[derive(Clone, Copy, PartialEq, Eq, Structural, Debug)]
pub struct PeerDescriptor {
    pub id: u64,
    pub store_id: u64,
}

/// The status record one peer contributes to a store report.
#[derive(Clone, Copy, PartialEq, Eq, Structural, Debug)]
pub struct PeerReport {
    pub region_id: u64,
    pub applied_index: u64,
}

/// The aggregated report one store sends toward the control plane:
/// the step (report id) the store is answering, and one record per peer.
#[derive(Debug)]
pub struct StoreReport {
    pub step: u64,
    pub peer_reports: Vec<PeerReport>,
}

/// A command addressed to one region's peer.
#[derive(Debug)]
pub enum PeerMessage {
    EnterForceLeaderState { syncer: Share, failed_stores: Vec<u64> },
    ExitForceLeaderState,
    UnsafeRecoveryDestroy { syncer: Share },
    UnsafeRecoveryWaitApply { syncer: Share },
    UnsafeRecoveryFillOutReport { syncer: Share },
}

/// A command addressed to the store's own control queue.
#[derive(Debug)]
pub enum StoreMessage {
    UnsafeRecoveryCreatePeer { syncer: Share, create: RegionDescriptor },
    UnsafeRecoveryReport { report: StoreReport },
}

/// Why a dispatch through the router failed.
#[derive(Clone, Copy, PartialEq, Eq, Structural, Debug)]
pub enum DispatchError {
    /// No peer of that region runs on this store.
    RegionNotFound { region_id: u64 },
    /// The destination's message queue no longer accepts commands.
    QueueClosed,
}

/// A point-to-point reply channel carrying region ids, as the snapshot
/// recovery path uses to answer its invoker. Sending on a closed channel
/// is a silent no-op: the reply is lost, never escalated.
pub struct ReplyChannel {
    open: bool,
    sent: Vec<u64>,
}

impl ReplyChannel {
    /// Whether the receiving end still listens.
    pub closed spec fn is_open(self) -> bool {
        self.open
    }

    /// Every value sent so far, oldest first.
    pub closed spec fn sent(self) -> Seq<u64> {
        self.sent@
    }

    pub fn new() -> (r: ReplyChannel)
        ensures
            r.is_open(),
            r.sent() == Seq::<u64>::empty(),
    {
        ReplyChannel { open: true, sent: Vec::new() }
    }

    /// Drop the receiving end: later sends are lost.
    pub fn close(&mut self)
        ensures
            !final(self).is_open(),
            final(self).sent() == old(self).sent(),
    {
        self.open = false;
    }

    /// Best-effort send: delivered while the channel is open, lost once it
    /// is closed.
    pub fn send(&mut self, value: u64)
        ensures
            final(self).is_open() == old(self).is_open(),
            old(self).is_open() ==> final(self).sent() == old(self).sent().push(value),
            !old(self).is_open() ==> final(self).sent() == old(self).sent(),
    {
        if self.open {
            self.sent.push(value);
        }
    }

    /// The values delivered so far, for the receiving end to drain.
    pub fn delivered(&self) -> (r: &Vec<u64>)
        ensures
            r@ == self.sent(),
    {
        &self.sent
    }
}

} // verus!
