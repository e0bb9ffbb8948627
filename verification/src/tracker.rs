//! The completion-tracker primitive: a barrier with a stored one-shot
//! continuation.
//!
//! Many independent workers each hold one share of a tracker. Whoever
//! releases the last outstanding share receives the stored continuation,
//! which therefore runs exactly once, on the releasing worker's execution
//! context, no matter in which order the shares come back.

use vstd::prelude::*;

verus! {

/// What a completion tracker does when its last share is released. Each
/// variant names the next step of the recovery workflow together with the
/// data that step needs; the syncers interpret these values against the
/// router.
#[derive(Clone, Copy, PartialEq, Eq, Structural, Debug)]
pub enum Continuation {
    /// Start a new report round. The force-leader and plan-execution
    /// phases both end by re-entering the report workflow here.
    StartReport { report_id: u64, exit_force_leader: bool },
    /// Optionally broadcast exit-force-leader to every peer, then hand a
    /// fresh fill-out-report round out to the peers.
    ExitThenFillOutReport { report_id: u64, exit_force_leader: bool },
    /// Aggregate the collected per-peer reports into one store report and
    /// send it toward the control plane.
    SendStoreReport { report_id: u64 },
    /// Reply with the region id on a point-to-point channel.
    ReplyRegion { region_id: u64 },
}

/// A one-shot cell holding the continuation a tracker runs when its last
/// share disappears. The continuation can be taken at most once; after
/// that the cell stays empty, so an accidental second invocation finds
/// nothing to run.
#[derive(Debug)]
pub struct InvokeClosureOnDrop(Option<Continuation>);

impl InvokeClosureOnDrop {
    /// The continuation still waiting to run, if any.
    pub closed spec fn stored(self) -> Option<Continuation> {
        self.0
    }

    pub fn new(c: Continuation) -> (r: Self)
        ensures
            r.stored() == Some(c),
    {
        InvokeClosureOnDrop(Some(c))
    }

    /// Remove and return the stored continuation, leaving the cell empty.
    pub fn take(&mut self) -> (r: Option<Continuation>)
        ensures
            r == old(self).stored(),
            final(self).stored() is None,
    {
        self.0.take()
    }
}

/// One share of a completion tracker.
///
/// A share is a move-only token: it has no public constructor and cannot
/// be cloned, so the only way to obtain one is from the tracker itself,
/// and releasing it consumes it. Releasing a share twice, or conjuring a
/// share that was never issued, is therefore ruled out by the type system
/// rather than by a runtime check.
#[derive(Debug)]
pub struct Share {
    token: (),
}

/// A barrier with a stored one-shot continuation.
///
/// The tracker counts its outstanding shares explicitly; every owner must
/// hand its share back through [`CompletionTracker::release`] on every
/// exit path. The release that brings the count to zero is handed the
/// stored continuation, exactly once.
#[derive(Debug)]
pub struct CompletionTracker {
    outstanding: u64,
    closure: InvokeClosureOnDrop,
}

impl CompletionTracker {
    /// How many shares are still outstanding.
    pub closed spec fn shares(self) -> int {
        self.outstanding as int
    }

    /// The continuation that will run at the last release, if it has not
    /// run yet.
    pub closed spec fn stored(self) -> Option<Continuation> {
        self.closure.stored()
    }

    /// A tracker is well formed when it holds its continuation exactly as
    /// long as shares are outstanding.
    pub open spec fn wf(self) -> bool {
        self.shares() >= 1 <==> self.stored() is Some
    }

    /// Specification-level mirror of one `release`: the state the tracker
    /// is left in.
    pub closed spec fn released(self) -> CompletionTracker {
        if self.outstanding == 1 {
            CompletionTracker { outstanding: 0, closure: InvokeClosureOnDrop(None) }
        } else {
            CompletionTracker {
                outstanding: (self.outstanding - 1) as u64,
                closure: self.closure,
            }
        }
    }

    /// Specification-level mirror of one `release`: what the releasing
    /// owner is handed back.
    pub closed spec fn release_result(self) -> Option<Continuation> {
        if self.outstanding == 1 {
            self.stored()
        } else {
            None
        }
    }

    /// The tracker after `k` successive releases.
    pub open spec fn after_releases(self, k: nat) -> CompletionTracker
        decreases k,
    {
        if k == 0 {
            self
        } else {
            self.after_releases((k - 1) as nat).released()
        }
    }

    /// Create a tracker storing `c`, with one conceptual owner.
    pub fn new(c: Continuation) -> (r: (CompletionTracker, Share))
        ensures
            r.0.wf(),
            r.0.shares() == 1,
            r.0.stored() == Some(c),
    {
        let tracker = CompletionTracker {
            outstanding: 1,
            closure: InvokeClosureOnDrop::new(c),
        };
        (tracker, Share { token: () })
    }

    /// Duplicate an owner: issue one more share of this tracker.
    pub fn add_share(&mut self) -> (s: Share)
        requires
            old(self).wf(),
            old(self).shares() >= 1,
            old(self).shares() < u64::MAX,
        ensures
            final(self).wf(),
            final(self).shares() == old(self).shares() + 1,
            final(self).stored() == old(self).stored(),
    {
        self.outstanding = self.outstanding + 1;
        Share { token: () }
    }

    /// How many shares are still outstanding.
    pub fn outstanding_shares(&self) -> (n: u64)
        ensures
            n as int == self.shares(),
    {
        self.outstanding
    }

    /// Consume one share. The release that consumes the last outstanding
    /// share is handed the stored continuation; every earlier release is
    /// handed nothing, and the continuation cell is cleared at the moment
    /// it is handed out.
    pub fn release(&mut self, share: Share) -> (r: Option<Continuation>)
        requires
            old(self).wf(),
            old(self).shares() >= 1,
        ensures
            final(self).wf(),
            *final(self) == old(self).released(),
            r == old(self).release_result(),
            final(self).shares() == old(self).shares() - 1,
            r is Some <==> old(self).shares() == 1,
            old(self).shares() == 1 ==> r == old(self).stored() && final(self).stored() is None,
            old(self).shares() > 1 ==> final(self).stored() == old(self).stored(),
    {
        let Share { token: _ } = share;
        self.outstanding = self.outstanding - 1;
        if self.outstanding == 0 {
            let r = self.closure.take();
            proof {
                assert(*self == old(self).released());
            }
            r
        } else {
            None
        }
    }
}

/// Law: a tracker with `n` outstanding shares runs its stored continuation
/// exactly once, at the `n`-th release and at no earlier one. Shares carry
/// no identity, so every permutation of the owners' release order is this
/// same sequence of `n` releases.
pub proof fn lemma_callback_exactly_once(t: CompletionTracker, k: nat)
    requires
        t.wf(),
        t.shares() >= 1,
        1 <= k <= t.shares(),
    ensures
        t.after_releases((k - 1) as nat).release_result() is Some <==> k == t.shares(),
        k == t.shares() ==> t.after_releases((k - 1) as nat).release_result() == t.stored(),
        t.after_releases(k).wf(),
        t.after_releases(k).shares() == t.shares() - k,
        k < t.shares() ==> t.after_releases(k).stored() == t.stored(),
        k == t.shares() ==> t.after_releases(k).stored() is None,
    decreases k,
{
    if k == 1 {
        assert(t.after_releases(0) == t);
    } else {
        lemma_callback_exactly_once(t, (k - 1) as nat);
    }
}

} // verus!
