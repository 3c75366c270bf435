//! The round's accounting laws, stated once, in the open, over the same
//! spec functions that the operations' contracts use.

use vstd::prelude::*;

use crate::round::{pool_sum, Lottery};

verus! {

/// No value is lost and none is duplicated on the way into the pool: in
/// every well-formed round — and every operation of `Lottery` both requires
/// and preserves well-formedness — the pool equals the sum of the amounts
/// accepted since the last reset, and each accepted entry added exactly one
/// participant, so the registry's length is the number of accepted entries.
pub proof fn lemma_pool_accounts_for_entries(round: Lottery)
    requires
        round.wf(),
    ensures
        round.total_pool == pool_sum(round.amounts@),
        round.participants@.len() == round.amounts@.len(),
{
}

} // verus!
