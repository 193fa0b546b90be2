use vstd::prelude::*;

verus! {

/// Tracks the sequence numbers of requests the manager issued itself, so
/// that notifications which merely echo the manager's own actions are not
/// misinterpreted as external state changes.
///
/// Notifications arrive in non-decreasing sequence order, so on observing a
/// notification with sequence number `s`, every pending entry at or below
/// `s` is spent: an exact match means the notification is the echo of a
/// self-issued request and is suppressed, and anything older is stale and
/// can be dropped without waiting for an exact match.
pub struct SequenceFilter {
    pending: Vec<u64>,
}

impl View for SequenceFilter {
    type V = Seq<u64>;

    closed spec fn view(&self) -> Seq<u64> {
        self.pending@
    }
}

impl SequenceFilter {
    /// A filter with no outstanding self-issued requests.
    pub fn new() -> (r: SequenceFilter)
        ensures
            r@ == Seq::<u64>::empty(),
    {
        SequenceFilter { pending: Vec::new() }
    }

    /// Records an outstanding self-issued request by its sequence number.
    pub fn note_request(&mut self, sequence: u64)
        ensures
            final(self)@ == old(self)@.push(sequence),
    {
        self.pending.push(sequence);
    }

    /// Observes an incoming notification's sequence number: reports whether
    /// it echoes a pending self-issued request, spends that entry, and
    /// prunes every entry that is now stale.
    ///
    /// Afterwards a number is pending if and only if it was pending before
    /// and is strictly newer than `sequence` — in particular `sequence`
    /// itself is no longer pending, so a second notification with the same
    /// number is not suppressed again.
    pub fn should_suppress(&mut self, sequence: u64) -> (suppress: bool)
        ensures
            suppress == old(self)@.contains(sequence),
            forall|x: u64| final(self)@.contains(x) <==> old(self)@.contains(x) && x > sequence,
    {
        let n = self.pending.len();
        let mut found = false;
        let mut kept: Vec<u64> = Vec::new();
        let mut i: usize = 0;
        while i < n
            invariant
                old(self)@ == self@,
                n == self.pending.len(),
                i <= n,
                found == exists|k: int| 0 <= k < i && #[trigger] self@[k] == sequence,
                forall|k: int| 0 <= k < kept@.len() ==> #[trigger] kept@[k] > sequence,
                forall|k: int|
                    0 <= k < kept@.len()
                        ==> exists|j: int| 0 <= j < i && self@[j] == #[trigger] kept@[k],
                forall|k: int|
                    0 <= k < i && #[trigger] self@[k] > sequence
                        ==> exists|m: int| 0 <= m < kept@.len() && kept@[m] == self@[k],
            decreases n - i,
        {
            let e = self.pending[i];
            if e == sequence {
                found = true;
            }
            let ghost kept0 = kept@;
            if e > sequence {
                kept.push(e);
            }
            proof {
                assert forall|k: int| 0 <= k <= i && #[trigger] self@[k] > sequence
                    implies exists|m: int| 0 <= m < kept@.len() && kept@[m] == self@[k] by {
                    if k < i {
                        let m = choose|m: int| 0 <= m < kept0.len() && kept0[m] == self@[k];
                        assert(kept@[m] == self@[k]);
                    } else {
                        assert(kept@[kept@.len() - 1] == self@[k]);
                    }
                }
            }
            i += 1;
        }
        proof {
            assert forall|x: u64| #[trigger] kept@.contains(x)
                implies self@.contains(x) && x > sequence by {
                let k = choose|k: int| 0 <= k < kept@.len() && kept@[k] == x;
                let j = choose|j: int| 0 <= j < n && self@[j] == kept@[k];
                assert(self@[j] == x);
            }
            assert forall|x: u64| self@.contains(x) && x > sequence
                implies #[trigger] kept@.contains(x) by {
                let k = choose|k: int| 0 <= k < self@.len() && self@[k] == x;
                assert(self@[k] > sequence);
                let m = choose|m: int| 0 <= m < kept@.len() && kept@[m] == self@[k];
                assert(kept@[m] == x);
            }
        }
        self.pending = kept;
        found
    }
}

/// Once a notification has spent a pending sequence number, that number is
/// no longer pending: a second notification with the same number is not
/// suppressed again.
///
/// `before` and `after` are the filter's pending numbers around any
/// observation of `sequence`, related exactly as `should_suppress` leaves
/// them.
pub proof fn lemma_suppress_exactly_once(before: Seq<u64>, after: Seq<u64>, sequence: u64)
    requires
        forall|x: u64| after.contains(x) <==> before.contains(x) && x > sequence,
    ensures
        !after.contains(sequence),
{
    assert(!(sequence > sequence));
}

} // verus!
