//! Laws that the edit operations obey, stated over what `edit_bytes` and
//! `validate_target` promise.
use vstd::prelude::*;

use crate::draft::MAX_CHUNKS;
use crate::edit::{target_check, EditError, EditOp};
use crate::pipeline::{edit_outcome, reads_needed};

verus! {

/// Replacing the byte at a valid offset keeps the length, keeps every other
/// byte, and puts the new value at the offset.
pub proof fn lemma_replace_shape(f: Seq<u8>, p: int, v: u8)
    requires
        0 <= p < f.len(),
        reads_needed(f.len() as int) <= MAX_CHUNKS,
    ensures
        edit_outcome(f, p, EditOp::Replace(v)) is Ok,
        edit_outcome(f, p, EditOp::Replace(v)) matches Ok(g) ==> {
            &&& g.len() == f.len()
            &&& forall|i: int| 0 <= i < f.len() && i != p ==> g[i] == f[i]
            &&& g[p] == v
        },
{
}

/// Removing the byte at a valid offset shortens the file by one, keeps every
/// byte before the offset, and moves every byte after it one offset earlier.
pub proof fn lemma_remove_shape(f: Seq<u8>, p: int)
    requires
        0 <= p < f.len(),
        reads_needed(f.len() as int) <= MAX_CHUNKS,
    ensures
        edit_outcome(f, p, EditOp::Remove) is Ok,
        edit_outcome(f, p, EditOp::Remove) matches Ok(g) ==> {
            &&& g.len() == f.len() - 1
            &&& forall|i: int| 0 <= i < p ==> g[i] == f[i]
            &&& forall|i: int| p <= i < g.len() ==> g[i] == f[i + 1]
        },
{
}

/// Replacing the same offset with the same value a second time succeeds and
/// leaves the result of the first replacement unchanged.
pub proof fn lemma_replace_idempotent(f: Seq<u8>, p: int, v: u8)
    requires
        0 <= p < f.len(),
        reads_needed(f.len() as int) <= MAX_CHUNKS,
    ensures
        edit_outcome(f, p, EditOp::Replace(v)) matches Ok(g) && edit_outcome(
            g,
            p,
            EditOp::Replace(v),
        ) == Ok::<Seq<u8>, EditError>(g),
{
    let g = f.update(p, v);
    assert(g.update(p, v) =~= g);
}

/// An offset at or past the end is refused as invalid input by both
/// operations, and so is every offset in an empty file.
pub proof fn lemma_out_of_range_refused(f: Seq<u8>, p: int, op: EditOp)
    requires
        p >= f.len(),
    ensures
        edit_outcome(f, p, op) == Err::<Seq<u8>, EditError>(EditError::InvalidInput),
        target_check(true, true, f.len() as int, p) == Err::<(), EditError>(EditError::InvalidInput),
        target_check(true, true, 0, p) == Err::<(), EditError>(EditError::InvalidInput),
{
}

} // verus!
