use vstd::prelude::*;

verus! {

/// The job-wide count of peers that have been constructed and have not yet
/// completed. One guard is shared by all workers of a job; each registers once
/// when it is built and completes once, on its normal finish or when dropped.
pub struct PeerGuard {
    live: usize,
}

impl PeerGuard {
    pub closed spec fn live_spec(&self) -> nat {
        self.live as nat
    }

    /// A guard with no live peers.
    pub fn new() -> (r: Self)
        ensures
            r.live_spec() == 0,
    {
        PeerGuard { live: 0 }
    }

    /// The number of live peers.
    pub fn live(&self) -> (r: usize)
        ensures
            r == self.live_spec(),
    {
        self.live
    }

    /// Counts one more peer in; returns whether it is the first one, which is
    /// when the job is registered with the memory accountant.
    pub fn register(&mut self) -> (first: bool)
        requires
            old(self).live_spec() < usize::MAX,
        ensures
            final(self).live_spec() == old(self).live_spec() + 1,
            first == (old(self).live_spec() == 0),
    {
        let prior = self.live;
        self.live = prior + 1;
        prior == 0
    }

    /// Counts one peer out; returns whether it was the last one.
    pub fn complete(&mut self) -> (last: bool)
        requires
            old(self).live_spec() > 0,
        ensures
            final(self).live_spec() == old(self).live_spec() - 1,
            last == (old(self).live_spec() == 1),
    {
        let prior = self.live;
        self.live = prior - 1;
        prior == 1
    }
}

/// One change of a peer guard: a peer registers or completes.
#[derive(Clone, Copy, Debug, PartialEq, Eq, Structural)]
pub enum PeerEvent {
    Register,
    Complete,
}

/// The guard's value after a run of events from an empty guard, as
/// `register` and `complete` change it.
pub open spec fn live_after(events: Seq<PeerEvent>) -> int
    decreases events.len(),
{
    if events.len() == 0 {
        0
    } else {
        live_after(events.drop_last()) + if events.last() == PeerEvent::Register {
            1int
        } else {
            -1int
        }
    }
}

/// The lifecycle of a job of `n` peers: each is built, then each completes.
pub open spec fn lifecycle(n: nat) -> Seq<PeerEvent> {
    Seq::new(2 * n, |i: int| if i < n { PeerEvent::Register } else { PeerEvent::Complete })
}

proof fn lemma_lifecycle_prefix(n: nat, k: nat)
    requires
        k <= 2 * n,
    ensures
        live_after(lifecycle(n).take(k as int)) == if k <= n {
            k as int
        } else {
            2 * n - k
        },
    decreases k,
{
    if k > 0 {
        lemma_lifecycle_prefix(n, (k - 1) as nat);
        assert(lifecycle(n).take(k as int).drop_last() =~= lifecycle(n).take(k - 1));
    }
}

/// Peer-count conservation: over the lifecycle of a job of `n` peers there are
/// `n` registrations and `n` completions, the guard never goes below zero, and
/// it reads zero after exactly one event, the last completion.
pub proof fn lemma_peer_count_conserved(n: nat)
    requires
        n >= 1,
    ensures
        lifecycle(n).filter(|e: PeerEvent| e == PeerEvent::Register).len() == n,
        lifecycle(n).filter(|e: PeerEvent| e == PeerEvent::Complete).len() == n,
        forall|k: nat| k <= 2 * n ==> #[trigger] live_after(lifecycle(n).take(k as int)) >= 0,
        forall|k: nat|
            1 <= k <= 2 * n ==> (#[trigger] live_after(lifecycle(n).take(k as int)) == 0 <==> k == 2
                * n),
        live_after(lifecycle(n)) == 0,
{
    assert forall|k: nat| k <= 2 * n implies #[trigger] live_after(lifecycle(n).take(k as int)) >= 0 by {
        lemma_lifecycle_prefix(n, k);
    }
    assert forall|k: nat| 1 <= k <= 2 * n implies (#[trigger] live_after(
        lifecycle(n).take(k as int),
    ) == 0 <==> k == 2 * n) by {
        lemma_lifecycle_prefix(n, k);
    }
    lemma_lifecycle_prefix(n, 2 * n);
    assert(lifecycle(n).take((2 * n) as int) =~= lifecycle(n));
    lemma_count_events(n, n, PeerEvent::Register);
    lemma_count_events(n, n, PeerEvent::Complete);
    assert(lifecycle(n).take((n + n) as int) =~= lifecycle(n));
}

proof fn lemma_count_events(n: nat, k: nat, e: PeerEvent)
    requires
        k <= n,
    ensures
        lifecycle(n).take((n + k) as int).filter(|x: PeerEvent| x == e).len() == if e == PeerEvent::Register {
            n
        } else {
            k
        },
    decreases k,
{
    reveal(Seq::filter);
    if k > 0 {
        lemma_count_events(n, (k - 1) as nat, e);
        assert(lifecycle(n).take((n + k) as int).drop_last() =~= lifecycle(n).take(n + k - 1));
    } else {
        lemma_count_prefix(n, n, e);
    }
}

proof fn lemma_count_prefix(n: nat, k: nat, e: PeerEvent)
    requires
        k <= n,
    ensures
        lifecycle(n).take(k as int).filter(|x: PeerEvent| x == e).len() == if e
            == PeerEvent::Register {
            k
        } else {
            0
        },
    decreases k,
{
    reveal(Seq::filter);
    if k > 0 {
        lemma_count_prefix(n, (k - 1) as nat, e);
        assert(lifecycle(n).take(k as int).drop_last() =~= lifecycle(n).take(k - 1));
    }
}

/// Last-peer semantics: of the `n` completions of a job's peers, exactly one
/// finds the guard at 1 and is told it was the last: the final one.
pub proof fn lemma_single_last_peer(n: nat)
    requires
        n >= 1,
    ensures
        forall|k: nat|
            n <= k < 2 * n ==> (#[trigger] live_after(lifecycle(n).take(k as int)) == 1 <==> k == 2
                * n - 1),
        forall|k: nat| n <= k < 2 * n ==> #[trigger] lifecycle(n)[k as int] == PeerEvent::Complete,
{
    assert forall|k: nat| n <= k < 2 * n implies (#[trigger] live_after(
        lifecycle(n).take(k as int),
    ) == 1 <==> k == 2 * n - 1) by {
        lemma_lifecycle_prefix(n, k);
    }
}

} // verus!
