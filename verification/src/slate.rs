//! The transaction proposal ("slate") exchanged between the parties of a
//! transaction, together with the predicates that the round-decision rule
//! and the capability contracts are stated over.

use vstd::prelude::*;

verus! {

/// One party's contribution to a slate: its public excess and nonce, and,
/// once the party has signed, its partial signature.
#[derive(Clone, Copy, PartialEq, Eq, Structural, Debug)]
pub struct ParticipantData {
    pub id: u64,
    pub public_blind_excess: u64,
    pub public_nonce: u64,
    pub part_sig: Option<u64>,
}

/// A transaction input, reduced to the commitment it spends.
#[derive(Clone, Copy, PartialEq, Eq, Structural, Debug)]
pub struct TxInput {
    pub commit: u64,
}

/// A transaction output, reduced to the commitment it creates.
#[derive(Clone, Copy, PartialEq, Eq, Structural, Debug)]
pub struct TxOutput {
    pub commit: u64,
}

/// The transaction body carried by a slate. The exchange core reads only
/// the number of inputs (an empty input set marks an invoicing proposal);
/// everything else is filled in by the wallet capabilities.
#[derive(Clone, Debug)]
pub struct Transaction {
    pub inputs: Vec<TxInput>,
    pub outputs: Vec<TxOutput>,
}

/// A transaction-in-progress artifact. Its identity is stable across all
/// rounds of one transaction; `participant_data` grows by one entry per
/// round and never shrinks.
#[derive(Clone, Debug)]
pub struct Slate {
    /// Identifier, stable across all rounds of one transaction.
    pub id: u64,
    /// Required total number of contributing parties, fixed at creation.
    pub num_participants: usize,
    /// Per-party contributions accumulated so far.
    pub participant_data: Vec<ParticipantData>,
    /// Transacted value; at this layer only reported, never computed with.
    pub amount: u64,
    /// The underlying transaction body.
    pub tx: Transaction,
}

impl Slate {
    /// A slate is well formed when it asks for at least one participant and
    /// holds no more contributions than it asks for. Finalization is legal
    /// only when the two counts are equal.
    pub open spec fn wf(self) -> bool {
        &&& self.num_participants >= 1
        &&& self.participant_data.len() <= self.num_participants
    }

    /// The handshake is complete: every required party has contributed.
    pub open spec fn is_complete(self) -> bool {
        self.participant_data.len() == self.num_participants
    }
}

/// Two slates hold the same fields.
pub open spec fn slate_eq(a: Slate, b: Slate) -> bool {
    &&& a.id == b.id
    &&& a.num_participants == b.num_participants
    &&& a.participant_data@ =~= b.participant_data@
    &&& a.amount == b.amount
    &&& a.tx.inputs@ =~= b.tx.inputs@
    &&& a.tx.outputs@ =~= b.tx.outputs@
}

/// `post` is `pre` after one receive round: identity, required participant
/// count and amount are kept, the contributions so far are kept in order,
/// and exactly one contribution was appended.
pub open spec fn received_from(pre: Slate, post: Slate) -> bool {
    &&& post.id == pre.id
    &&& post.num_participants == pre.num_participants
    &&& post.amount == pre.amount
    &&& post.participant_data@.len() == pre.participant_data@.len() + 1
    &&& pre.participant_data@.is_prefix_of(post.participant_data@)
}

/// `post` is `pre` after finalization: identity and the full participant
/// set are kept; only signature material inside the entries and the
/// transaction body may change.
pub open spec fn finalized_from(pre: Slate, post: Slate) -> bool {
    &&& post.id == pre.id
    &&& post.num_participants == pre.num_participants
    &&& post.amount == pre.amount
    &&& post.participant_data@.len() == pre.participant_data@.len()
}

/// A field-for-field copy of a vector of copyable elements.
fn copy_vec<T: Copy>(v: &Vec<T>) -> (r: Vec<T>)
    ensures
        r@ == v@,
{
    let mut r: Vec<T> = Vec::new();
    let n = v.len();
    let mut i: usize = 0;
    while i < n
        invariant
            i <= n,
            n == v@.len(),
            r@ =~= v@.subrange(0, i as int),
        decreases n - i,
    {
        r.push(v[i]);
        i = i + 1;
    }
    proof {
        assert(r@ =~= v@);
    }
    r
}

/// A field-for-field copy of a slate.
pub fn clone_slate(s: &Slate) -> (r: Slate)
    ensures
        slate_eq(r, *s),
{
    Slate {
        id: s.id,
        num_participants: s.num_participants,
        participant_data: copy_vec(&s.participant_data),
        amount: s.amount,
        tx: Transaction { inputs: copy_vec(&s.tx.inputs), outputs: copy_vec(&s.tx.outputs) },
    }
}

/// Optional payment-proof material attached to a slate exchange: an opaque
/// payload bound to the sending and receiving endpoints. This core carries
/// it through unread; external verification logic consumes it.
#[derive(Clone, Debug)]
pub struct TxProof {
    pub sender: u64,
    pub receiver: u64,
    pub payload: Vec<u8>,
}

} // verus!
