//! The reachability barrier: which peers have answered, and what a probe
//! does next.

use crate::config::PROBE_RETRY_MS;
use vstd::prelude::*;

verus! {

/// What a probe does after one connection attempt.
#[derive(Clone, Copy, Debug, PartialEq, Eq, Structural)]
pub enum ProbeAction {
    /// The peer did not answer: wait, then try again.
    Retry { delay_ms: u64 },
    /// The peer accepted the connection: the probe ends.
    Done,
}

/// A probe ends on the first accepted connection and otherwise retries
/// after the fixed delay.
pub open spec fn spec_probe_step(connected: bool) -> ProbeAction {
    if connected {
        ProbeAction::Done
    } else {
        ProbeAction::Retry { delay_ms: PROBE_RETRY_MS }
    }
}

/// Decides what a probe does after one attempt. A failure is never an
/// error: the probe retries, however often it failed before.
pub fn probe_step(connected: bool) -> (action: ProbeAction)
    ensures
        action == spec_probe_step(connected),
{
    if connected {
        ProbeAction::Done
    } else {
        ProbeAction::Retry { delay_ms: PROBE_RETRY_MS }
    }
}

/// Every peer has answered.
pub open spec fn all_reached(reached: Seq<bool>) -> bool {
    forall|i: int| 0 <= i < reached.len() ==> reached[i]
}

/// The flags after one probe result: the flag of a listed peer is raised by
/// an accepted connection and never lowered.
pub open spec fn record_spec(reached: Seq<bool>, peer: int, connected: bool) -> Seq<bool> {
    if 0 <= peer < reached.len() {
        reached.update(peer, reached[peer] || connected)
    } else {
        reached
    }
}

/// The flags of `peers` peers after a sequence of probe results, each the
/// peer's position and whether it accepted.
pub open spec fn replay(peers: nat, results: Seq<(int, bool)>) -> Seq<bool>
    decreases results.len(),
{
    if results.len() == 0 {
        Seq::new(peers, |i: int| false)
    } else {
        record_spec(replay(peers, results.drop_last()), results.last().0, results.last().1)
    }
}

/// Peer `peer` accepted a connection somewhere in `results`.
pub open spec fn accepted_once(results: Seq<(int, bool)>, peer: int) -> bool {
    exists|j: int| 0 <= j < results.len() && #[trigger] results[j] == (peer, true)
}

/// After any sequence of probe results, a peer's flag is raised exactly when
/// that peer accepted a connection at least once.
pub proof fn lemma_replay_flags(peers: nat, results: Seq<(int, bool)>)
    ensures
        replay(peers, results).len() == peers,
        forall|p: int|
            0 <= p < peers ==> (#[trigger] replay(peers, results)[p] <==> accepted_once(
                results,
                p,
            )),
    decreases results.len(),
{
    if results.len() > 0 {
        let init = results.drop_last();
        lemma_replay_flags(peers, init);
        assert forall|p: int| 0 <= p < peers implies (#[trigger] replay(peers, results)[p]
            <==> accepted_once(results, p)) by {
            if accepted_once(init, p) {
                let j = choose|j: int| 0 <= j < init.len() && #[trigger] init[j] == (p, true);
                assert(results[j] == (p, true));
            }
            if results.last() == (p, true) {
                assert(results[results.len() - 1] == (p, true));
            }
            if accepted_once(results, p) {
                let j = choose|j: int|
                    0 <= j < results.len() && #[trigger] results[j] == (p, true);
                if j < init.len() {
                    assert(init[j] == (p, true));
                }
            }
        }
    }
}

/// The barrier is complete only after every listed peer accepted a
/// connection at least once, and it is complete as soon as each has.
pub proof fn lemma_barrier_complete_iff_all_accepted(peers: nat, results: Seq<(int, bool)>)
    ensures
        all_reached(replay(peers, results)) <==> (forall|p: int|
            0 <= p < peers ==> accepted_once(results, p)),
{
    lemma_replay_flags(peers, results);
    let flags = replay(peers, results);
    if all_reached(flags) {
        assert forall|p: int| 0 <= p < peers implies accepted_once(results, p) by {
            assert(flags[p]);
        }
    }
}

/// While one listed peer never accepts, the barrier is not complete,
/// whatever the other peers do and however long the probing goes on.
pub proof fn lemma_barrier_waits_for_silent_peer(
    peers: nat,
    results: Seq<(int, bool)>,
    silent: int,
)
    requires
        0 <= silent < peers,
        forall|j: int| 0 <= j < results.len() ==> #[trigger] results[j] != (silent, true),
    ensures
        !all_reached(replay(peers, results)),
{
    lemma_replay_flags(peers, results);
    assert(!accepted_once(results, silent));
    assert(!replay(peers, results)[silent]);
}

/// The reachability barrier over peers `0 .. peers()`.
pub struct Barrier {
    reached: Vec<bool>,
}

impl View for Barrier {
    type V = Seq<bool>;

    closed spec fn view(&self) -> Seq<bool> {
        self.reached@
    }
}

impl Barrier {
    /// A barrier over `peers` peers, none of which has answered yet.
    pub fn new(peers: usize) -> (b: Barrier)
        ensures
            b@ == replay(peers as nat, Seq::<(int, bool)>::empty()),
            b@.len() == peers,
            forall|i: int| 0 <= i < peers ==> !b@[i],
    {
        let mut reached: Vec<bool> = Vec::new();
        let mut i: usize = 0;
        while i < peers
            invariant
                i <= peers,
                reached@.len() == i,
                forall|k: int| 0 <= k < i ==> !reached@[k],
            decreases peers - i,
        {
            reached.push(false);
            i += 1;
        }
        assert(reached@ =~= Seq::new(peers as nat, |i: int| false));
        Barrier { reached }
    }

    /// Number of peers that the barrier waits for.
    pub fn peers(&self) -> (n: usize)
        ensures
            n == self@.len(),
    {
        self.reached.len()
    }

    /// Takes note of one probe result and says what the probe does next. A
    /// position outside the list changes nothing and gets no answer.
    pub fn record(&mut self, peer: usize, connected: bool) -> (action: Option<ProbeAction>)
        ensures
            final(self)@ == record_spec(old(self)@, peer as int, connected),
            action == if peer < old(self)@.len() {
                Some(spec_probe_step(connected))
            } else {
                None
            },
    {
        if peer < self.reached.len() {
            let before = self.reached[peer];
            self.reached.set(peer, before || connected);
            Some(probe_step(connected))
        } else {
            None
        }
    }

    /// Whether peer `peer` has accepted a connection; `false` for a position
    /// outside the list.
    pub fn is_reached(&self, peer: usize) -> (r: bool)
        ensures
            r == (peer < self@.len() && self@[peer as int]),
    {
        peer < self.reached.len() && self.reached[peer]
    }

    /// Whether every peer has accepted a connection. A barrier over no peers
    /// is complete at once.
    pub fn is_complete(&self) -> (done: bool)
        ensures
            done == all_reached(self@),
    {
        let mut i: usize = 0;
        while i < self.reached.len()
            invariant
                i <= self.reached@.len(),
                forall|k: int| 0 <= k < i ==> self.reached@[k],
            decreases self.reached@.len() - i,
        {
            if !self.reached[i] {
                return false;
            }
            i += 1;
        }
        true
    }
}

} // verus!
