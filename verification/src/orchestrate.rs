//! The orchestrator's exit summary. After the sleep elapses and the shutdown
//! flag is set, the orchestrator joins the carrier thread first (its
//! retirement waits for the next notification, so it is the slower path)
//! and then each worker; the run succeeds exactly when every join
//! completed without a reported error.

use vstd::prelude::*;
use crate::errors::RunError;

verus! {

/// Folds the join outcomes of all spawned threads — carrier first, then
/// each worker — into the run's exit summary: `Ok` exactly when every
/// thread was joined cleanly, the join error otherwise.
pub fn join_summary(joins: &Vec<bool>) -> (r: Result<(), RunError>)
    ensures
        r is Ok <==> (forall|j: int| 0 <= j < joins@.len() ==> joins@[j]),
        r is Err ==> r == Err::<(), RunError>(RunError::Join),
{
    let mut i: usize = 0;
    while i < joins.len()
        invariant
            0 <= i <= joins@.len(),
            forall|j: int| 0 <= j < i ==> joins@[j],
        decreases joins@.len() - i,
    {
        if !joins[i] {
            return Err(RunError::Join);
        }
        i = i + 1;
    }
    Ok(())
}

} // verus!
