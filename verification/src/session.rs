//! Replay protection around finalization. The controller itself keeps no
//! de-duplication state: redelivery of a message after a reconnect is
//! tolerated because the finalize side refuses a slate it has already
//! finalized. This guard is that discipline, verified: one finalization
//! per slate identity, and a reported condition on every replay.

use vstd::prelude::*;
use crate::error::Error;

verus! {

/// The identities of every slate finalized so far.
pub struct FinalizeGuard {
    /// Identifiers of slates already finalized, in finalization order.
    pub finalized: Vec<u64>,
}

impl FinalizeGuard {
    /// A fresh guard: nothing finalized yet.
    pub fn new() -> (g: FinalizeGuard)
        ensures
            g.finalized@.len() == 0,
    {
        FinalizeGuard { finalized: Vec::new() }
    }

    /// Whether the slate with identity `id` was already finalized.
    pub fn is_finalized(&self, id: u64) -> (r: bool)
        ensures
            r == self.finalized@.contains(id),
    {
        let n = self.finalized.len();
        let mut i: usize = 0;
        while i < n
            invariant
                i <= n,
                n == self.finalized@.len(),
                forall|j: int| 0 <= j < i ==> self.finalized@[j] != id,
            decreases n - i,
        {
            if self.finalized[i] == id {
                return true;
            }
            i = i + 1;
        }
        false
    }

    /// Gate one finalization of the slate with identity `id`: the first
    /// attempt is admitted and recorded; every replay is refused with a
    /// reported condition and changes nothing.
    pub fn record_finalized(&mut self, id: u64) -> (r: Result<(), Error>)
        ensures
            r is Ok <==> !old(self).finalized@.contains(id),
            r is Ok ==> final(self).finalized@ == old(self).finalized@.push(id),
            r matches Err(e) ==> e == Error::ProtocolViolation && final(self).finalized@ == old(
                self,
            ).finalized@,
            final(self).finalized@.contains(id),
    {
        if self.is_finalized(id) {
            Err(Error::ProtocolViolation)
        } else {
            self.finalized.push(id);
            proof {
                assert(self.finalized@[old(self).finalized@.len() as int] == id);
            }
            Ok(())
        }
    }
}

/// The idempotence law of finalization: once a slate's identity is
/// recorded, the guard contains it, so by `record_finalized`'s contract a
/// replayed message for that identity is refused with a reported condition
/// and never reaches the finalize capability a second time.
pub proof fn lemma_finalize_once(pre: Seq<u64>, id: u64)
    ensures
        pre.push(id).contains(id),
{
    assert(pre.push(id)[pre.len() as int] == id);
}

} // verus!
