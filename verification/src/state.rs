//! The per-peer recovery states and their transitions.
//!
//! These values are held by each peer's processing loop and advanced by
//! the external events the loop observes: local ticks, vote grants, apply
//! milestones. Every state that parks a peer carries one share of the
//! phase's syncer; clearing the state hands the share back so that the
//! loop can release it — on success, on destruction, on any exit path.

use vstd::prelude::*;

use crate::messages::PeerDescriptor;
use crate::tracker::Share;

verus! {

/// Where a peer stands in the forced-leadership sequence. A hibernating
/// peer first counts down wake-up ticks; it then becomes a candidate and
/// asks every known peer of the region for a vote, deliberately bypassing
/// the usual "can I safely become leader" precondition; once the live
/// peers have granted their votes it leads without a leader lease, an
/// explicit safety relaxation. Leaving forced leadership removes the state
/// entirely.
#[derive(Debug)]
pub enum ForceLeaderState {
    WaitTicks { syncer: Share, failed_stores: Vec<u64>, ticks: usize },
    PreForceLeader { syncer: Share, failed_stores: Vec<u64> },
    ForceLeader { since: u64, failed_stores: Vec<u64> },
}

impl ForceLeaderState {
    /// What one local tick does: a waiting peer counts down and wakes
    /// into the pre-force-leader stage when the count runs out; ticks
    /// mean nothing in the later stages.
    pub open spec fn spec_on_tick(self) -> ForceLeaderState {
        match self {
            ForceLeaderState::WaitTicks { syncer, failed_stores, ticks } => {
                if ticks <= 1 {
                    ForceLeaderState::PreForceLeader { syncer, failed_stores }
                } else {
                    ForceLeaderState::WaitTicks {
                        syncer,
                        failed_stores,
                        ticks: (ticks - 1) as usize,
                    }
                }
            },
            other => other,
        }
    }

    /// One local tick.
    pub fn on_tick(self) -> (r: ForceLeaderState)
        ensures
            r == self.spec_on_tick(),
    {
        match self {
            ForceLeaderState::WaitTicks { syncer, failed_stores, ticks } => {
                if ticks <= 1 {
                    ForceLeaderState::PreForceLeader { syncer, failed_stores }
                } else {
                    ForceLeaderState::WaitTicks { syncer, failed_stores, ticks: ticks - 1 }
                }
            },
            other => other,
        }
    }

    /// What the arrival of every vote grant does: the candidate becomes
    /// leader, recording the transition time and keeping the failed-store
    /// set it was built with, and its syncer share is handed back; in any
    /// other stage the event means nothing.
    pub open spec fn spec_on_votes_granted(self, since: u64) -> (ForceLeaderState, Option<Share>) {
        match self {
            ForceLeaderState::PreForceLeader { syncer, failed_stores } => {
                (ForceLeaderState::ForceLeader { since, failed_stores }, Some(syncer))
            },
            other => (other, None),
        }
    }

    /// Every vote grant from the non-failed peers has arrived: the
    /// candidate becomes leader without acquiring a leader lease — an
    /// explicit safety relaxation. The syncer share is handed back, to be
    /// released once the peer observes its forced leadership established.
    pub fn on_votes_granted(self, since: u64) -> (r: (ForceLeaderState, Option<Share>))
        ensures
            r == self.spec_on_votes_granted(since),
    {
        match self {
            ForceLeaderState::PreForceLeader { syncer, failed_stores } => {
                (ForceLeaderState::ForceLeader { since, failed_stores }, Some(syncer))
            },
            other => (other, None),
        }
    }

    /// Leaving forced leadership — an explicit exit command, or the peer
    /// being destroyed — removes the state entirely. A share still held
    /// by one of the early stages is handed back so that its owner can
    /// release it: a leaked share would stall the whole phase.
    pub fn on_exit(self) -> (r: Option<Share>)
        ensures
            r is Some <==> (self is WaitTicks || self is PreForceLeader),
    {
        match self {
            ForceLeaderState::WaitTicks { syncer, .. } => Some(syncer),
            ForceLeaderState::PreForceLeader { syncer, .. } => Some(syncer),
            ForceLeaderState::ForceLeader { .. } => None,
        }
    }
}

/// What a peer is parked on during the report and plan-execution phases.
/// Each variant carries the share whose release tells the phase's syncer
/// that this peer is done.
#[derive(Debug)]
pub enum UnsafeRecoveryState {
    /// Wait until the peer's apply index reaches `target_index`; checked
    /// every time the peer applies an entry or a snapshot.
    WaitApply { target_index: u64, syncer: Share },
    /// Demote the failed voters once the apply index is reached; a region
    /// stuck in a joint state must first be asked to leave it before the
    /// demotion is proposed.
    DemoteFailedVoters {
        syncer: Share,
        failed_voters: Vec<PeerDescriptor>,
        target_index: u64,
        demote_after_exit: bool,
    },
    /// The peer is to destroy itself.
    Destroy(Share),
    /// The peer was just created and waits for its initialization.
    WaitInitialize(Share),
}

impl UnsafeRecoveryState {
    /// What an apply milestone does: a wait-apply state whose target is
    /// reached is cleared and its share handed back; every other state
    /// stays as it is.
    pub open spec fn spec_on_applied(self, applied_index: u64) -> (
        Option<UnsafeRecoveryState>,
        Option<Share>,
    ) {
        match self {
            UnsafeRecoveryState::WaitApply { target_index, syncer } => {
                if applied_index >= target_index {
                    (None, Some(syncer))
                } else {
                    (Some(UnsafeRecoveryState::WaitApply { target_index, syncer }), None)
                }
            },
            other => (Some(other), None),
        }
    }

    /// The peer applied up to `applied_index`. A wait-apply state whose
    /// target is reached is cleared, handing the share back for the peer
    /// loop to release.
    pub fn on_applied(self, applied_index: u64) -> (r: (
        Option<UnsafeRecoveryState>,
        Option<Share>,
    ))
        ensures
            r == self.spec_on_applied(applied_index),
    {
        match self {
            UnsafeRecoveryState::WaitApply { target_index, syncer } => {
                if applied_index >= target_index {
                    (None, Some(syncer))
                } else {
                    (Some(UnsafeRecoveryState::WaitApply { target_index, syncer }), None)
                }
            },
            other => (Some(other), None),
        }
    }

    /// Clearing the state for any other reason — the destruction finished,
    /// the demotion was applied, the initialization was observed — hands
    /// the share back so that the loop can release it.
    pub fn take_syncer(self) -> (r: Share) {
        match self {
            UnsafeRecoveryState::WaitApply { syncer, .. } => syncer,
            UnsafeRecoveryState::DemoteFailedVoters { syncer, .. } => syncer,
            UnsafeRecoveryState::Destroy(syncer) => syncer,
            UnsafeRecoveryState::WaitInitialize(syncer) => syncer,
        }
    }
}

/// The restore-path counterpart of the wait-apply state: the leader peer
/// forces its log forward and waits until the last index is applied, then
/// answers through a point-to-point channel instead of the report
/// pipeline.
#[derive(Debug)]
pub enum SnapshotRecoveryState {
    WaitLogApplyToLast { target_index: u64, syncer: Share },
}

impl SnapshotRecoveryState {
    /// What an apply milestone does: once the last index is reached the
    /// state is cleared and its share handed back.
    pub open spec fn spec_on_applied(self, applied_index: u64) -> (
        Option<SnapshotRecoveryState>,
        Option<Share>,
    ) {
        match self {
            SnapshotRecoveryState::WaitLogApplyToLast { target_index, syncer } => {
                if applied_index >= target_index {
                    (None, Some(syncer))
                } else {
                    (
                        Some(SnapshotRecoveryState::WaitLogApplyToLast { target_index, syncer }),
                        None,
                    )
                }
            },
        }
    }

    /// The peer applied up to `applied_index`. Once the last index is
    /// reached the state is cleared and the share handed back; the
    /// release of that share sends the reply.
    pub fn on_applied(self, applied_index: u64) -> (r: (
        Option<SnapshotRecoveryState>,
        Option<Share>,
    ))
        ensures
            r == self.spec_on_applied(applied_index),
    {
        match self {
            SnapshotRecoveryState::WaitLogApplyToLast { target_index, syncer } => {
                if applied_index >= target_index {
                    (None, Some(syncer))
                } else {
                    (
                        Some(SnapshotRecoveryState::WaitLogApplyToLast { target_index, syncer }),
                        None,
                    )
                }
            },
        }
    }
}

} // verus!
