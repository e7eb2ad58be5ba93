//! Sequence counters and processed-message markers: the two anti-replay
//! layers.
//!
//! The counter orders the decoded intents of one sender; the marker set
//! models the host storage rule that a record can be created at a given
//! derived address only once.
use vstd::prelude::*;

use crate::bytes::addr_eq;
use crate::errors::MessengerError;
use crate::state::Count;

verus! {

/// One successful advance: the counter goes up by exactly one.
pub open spec fn advance_step(pre: u64, post: u64) -> bool {
    &&& pre < u64::MAX
    &&& post == pre + 1
}

impl Count {
    /// Advance the counter by exactly one, rejecting wraparound.
    pub fn advance(&mut self) -> (r: Result<u64, MessengerError>)
        ensures
            r is Ok <==> old(self).count < u64::MAX,
            r matches Ok(v) ==> v == final(self).count && advance_step(
                old(self).count,
                final(self).count,
            ),
            r is Err ==> r == Err::<u64, MessengerError>(MessengerError::Overflow)
                && *final(self) == *old(self),
    {
        match self.count.checked_add(1) {
            None => Err(MessengerError::Overflow),
            Some(val) => {
                self.count = val;
                Ok(val)
            },
        }
    }

    /// Check a caller-declared expected count against the post-increment
    /// count, the idempotent double-submission guard.
    pub fn verify_expected(&self, expected_count: u64) -> (r: Result<(), MessengerError>)
        ensures
            r is Ok <==> self.count == expected_count,
            r is Err ==> r == Err::<(), MessengerError>(MessengerError::InvalidCount),
    {
        if self.count == expected_count {
            Ok(())
        } else {
            Err(MessengerError::InvalidCount)
        }
    }
}

/// Law: a counter that starts at zero and is advanced one step at a time
/// reads exactly the number of advances taken; it never skips and never
/// decreases. `states` lists the counter value before and after each step.
pub proof fn lemma_count_equals_number_of_advances(states: Seq<u64>)
    requires
        states.len() >= 1,
        states[0] == 0,
        forall|i: int| 0 <= i < states.len() - 1 ==> advance_step(
            #[trigger] states[i],
            states[i + 1],
        ),
    ensures
        states.last() == states.len() - 1,
    decreases states.len(),
{
    if states.len() > 1 {
        let prefix = states.drop_last();
        assert forall|i: int| 0 <= i < prefix.len() - 1 implies advance_step(
            #[trigger] prefix[i],
            prefix[i + 1],
        ) by {
            assert(advance_step(states[i], states[i + 1]));
        }
        lemma_count_equals_number_of_advances(prefix);
        assert(advance_step(states[states.len() - 2], states[states.len() - 1]));
    }
}

/// The set of derived addresses at which a processed-message marker already
/// exists. Models the host rule that initializing a record at an occupied
/// address fails.
pub struct MarkerLedger {
    pub claimed: Vec<[u8; 32]>,
}

impl MarkerLedger {
    /// Whether a marker exists at the given address.
    pub open spec fn spec_contains(self, addr: Seq<u8>) -> bool {
        exists|i: int| 0 <= i < self.claimed@.len() && (#[trigger] self.claimed@[i])@ == addr
    }

    /// An empty marker set.
    pub fn new() -> (r: MarkerLedger)
        ensures
            forall|a: Seq<u8>| !r.spec_contains(a),
    {
        MarkerLedger { claimed: Vec::new() }
    }

    /// Whether a marker exists at the given address.
    #[verifier::loop_isolation(false)]
    pub fn contains(&self, addr: &[u8; 32]) -> (r: bool)
        ensures
            r == self.spec_contains(addr@),
    {
        let mut i: usize = 0;
        while i < self.claimed.len()
            invariant
                i <= self.claimed@.len(),
                forall|j: int| 0 <= j < i ==> (#[trigger] self.claimed@[j])@ != addr@,
            decreases self.claimed@.len() - i,
        {
            if addr_eq(&self.claimed[i], addr) {
                return true;
            }
            i = i + 1;
        }
        false
    }

    /// Claim the marker address for a newly processed message. Grants the
    /// claim only if no marker exists there yet; a granted claim records the
    /// address so that every later claim of it is refused.
    pub fn claim(&mut self, addr: &[u8; 32]) -> (granted: bool)
        ensures
            granted == !old(self).spec_contains(addr@),
            final(self).spec_contains(addr@),
            !granted ==> *final(self) == *old(self),
            granted ==> final(self).claimed@ == old(self).claimed@.push(*addr),
            forall|a: Seq<u8>| final(self).spec_contains(a) <==> (old(self).spec_contains(a)
                || a == addr@),
    {
        if self.contains(addr) {
            return false;
        }
        self.claimed.push(*addr);
        proof {
            let n = self.claimed@.len() - 1;
            assert(self.claimed@[n]@ == addr@);
            assert forall|a: Seq<u8>| self.spec_contains(a) implies (old(self).spec_contains(a)
                || a == addr@) by {
                let i = choose|i: int|
                    0 <= i < self.claimed@.len() && (#[trigger] self.claimed@[i])@ == a;
                if i < n {
                    assert(old(self).claimed@[i]@ == a);
                }
            }
            assert forall|a: Seq<u8>| old(self).spec_contains(a) implies self.spec_contains(
                a,
            ) by {
                let i = choose|i: int|
                    0 <= i < old(self).claimed@.len() && (#[trigger] old(self).claimed@[i])@ == a;
                assert(self.claimed@[i]@ == a);
            }
        }
        true
    }
}

/// One observed claim of `addr`: `granted` says whether the marker was newly
/// created; afterwards the marker always exists, and a refused claim changes
/// nothing.
pub open spec fn spec_claim(
    pre: MarkerLedger,
    post: MarkerLedger,
    addr: Seq<u8>,
    granted: bool,
) -> bool {
    &&& granted == !pre.spec_contains(addr)
    &&& post.spec_contains(addr)
    &&& !granted ==> post == pre
}

/// Law: a marker address is granted at most once. If a claim of `addr` was
/// granted, every later claim of the same address is refused.
pub proof fn lemma_marker_claimed_at_most_once(
    a: MarkerLedger,
    b: MarkerLedger,
    c: MarkerLedger,
    addr: Seq<u8>,
    g1: bool,
    g2: bool,
)
    requires
        spec_claim(a, b, addr, g1),
        spec_claim(b, c, addr, g2),
        g1,
    ensures
        !g2,
{
}

} // verus!
