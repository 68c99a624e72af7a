//! A minimal in-memory wallet backend: just enough key material to
//! contribute to and to finalize a slate. It shows the two capability
//! contracts are satisfiable and drives the end-to-end scenarios.

use vstd::prelude::*;
use vstd::pervasive::VecAdditionalExecFns;
use crate::broker::{SlateFinalizer, SlateReceiver};
use crate::error::Error;
use crate::slate::{
    ParticipantData, Slate, Transaction, TxOutput, clone_slate, finalized_from, received_from,
};

verus! {

/// An in-memory wallet, contributing under one fixed key index.
pub struct Wallet {
    /// The key index this wallet's contributions and outputs are built on.
    pub key_id: u64,
}

impl Wallet {
    /// A wallet contributing under the key index `key_id`.
    pub fn new(key_id: u64) -> (w: Wallet)
        ensures
            w.key_id == key_id,
    {
        Wallet { key_id }
    }
}

impl SlateReceiver for Wallet {
    /// Append this wallet's contribution and a receiving output, leaving
    /// identity, required count, amount and the earlier contributions as
    /// they were.
    fn receive_tx(&self, slate: &Slate, address: Option<&str>, message: Option<&str>) -> (r:
        Result<Slate, Error>)
    {
        let mut updated = clone_slate(slate);
        updated.participant_data.push(
            ParticipantData {
                id: self.key_id,
                public_blind_excess: self.key_id,
                public_nonce: self.key_id,
                part_sig: None,
            },
        );
        updated.tx.outputs.push(TxOutput { commit: self.key_id });
        proof {
            assert(slate.participant_data@.is_prefix_of(updated.participant_data@)) by {
                assert(updated.participant_data@.subrange(0, slate.participant_data@.len() as int)
                    =~= slate.participant_data@);
            }
        }
        Ok(updated)
    }
}

impl SlateFinalizer for Wallet {
    /// Complete every contribution's partial signature in place, keeping
    /// identity, required count, amount and the number of contributions.
    fn finalize_tx(&self, slate: &mut Slate) -> (r: Result<(), Error>) {
        let n = slate.participant_data.len();
        let mut i: usize = 0;
        while i < n
            invariant
                i <= n,
                n == slate.participant_data@.len(),
                slate.id == old(slate).id,
                slate.num_participants == old(slate).num_participants,
                slate.amount == old(slate).amount,
            decreases n - i,
        {
            let entry = slate.participant_data[i];
            slate.participant_data.set(
                i,
                ParticipantData {
                    id: entry.id,
                    public_blind_excess: entry.public_blind_excess,
                    public_nonce: entry.public_nonce,
                    part_sig: Some(entry.public_nonce),
                },
            );
            i = i + 1;
        }
        Ok(())
    }
}

} // verus!
