//! The whole edit on bytes held in memory: check the request, build the draft
//! through the chunked builder, and verify it against the original.
use vstd::prelude::*;

use crate::draft::{DraftBuilder, CHUNK_CAPACITY, MAX_CHUNKS};
use crate::edit::{edited, validate_target, EditError, EditOp};
use crate::integrity::{IntegrityVerifier, VerifyPhase};

verus! {

/// How many reads of `len` bytes in full chunks take, the read that finds
/// the end included.
pub open spec fn reads_needed(len: int) -> int {
    (len + CHUNK_CAPACITY - 1) / (CHUNK_CAPACITY as int) + 1
}

/// What an edit of `contents` at `position` comes to.
pub open spec fn edit_outcome(contents: Seq<u8>, position: int, op: EditOp) -> Result<
    Seq<u8>,
    EditError,
> {
    if position >= contents.len() {
        Err(EditError::InvalidInput)
    } else if reads_needed(contents.len() as int) > MAX_CHUNKS {
        Err(EditError::IntegrityFailure)
    } else {
        Ok(edited(contents, position, op))
    }
}

/// Builds the draft of `contents` chunk by chunk and returns it with the
/// original byte at the target offset.
fn build_draft(contents: &[u8], position: usize, op: EditOp) -> (r: Result<(Vec<u8>, u8), EditError>)
    requires
        position < contents@.len(),
    ensures
        r is Ok <==> reads_needed(contents@.len() as int) <= MAX_CHUNKS,
        r is Err ==> r == Err::<(Vec<u8>, u8), EditError>(EditError::IntegrityFailure),
        r matches Ok((draft, b)) ==> {
            &&& draft@ == edited(contents@, position as int, op)
            &&& b == contents@[position as int]
        },
{
    let mut builder = DraftBuilder::new(op, position);
    let mut draft: Vec<u8> = Vec::new();
    let mut offset: usize = 0;
    let ghost len = contents@.len() as int;
    loop
        invariant_except_break
            offset == len ==> builder.chunks() == (len + CHUNK_CAPACITY - 1) / (
            CHUNK_CAPACITY as int),
        invariant
            len == contents@.len(),
            builder.wf(),
            builder.chunks() <= MAX_CHUNKS,
            builder.op() == op,
            builder.position() == position,
            offset <= len,
            builder.source() == contents@.subrange(0, offset as int),
            draft@ == builder.built(),
            builder.built() == edited(builder.source(), position as int, op),
            offset < len ==> offset == builder.chunks() * CHUNK_CAPACITY,
        ensures
            offset == len,
            builder.chunks() == reads_needed(len),
        decreases len - offset + 1,
    {
        let end = if contents.len() - offset < CHUNK_CAPACITY {
            contents.len()
        } else {
            offset + CHUNK_CAPACITY
        };
        let ghost before = builder.chunks();
        let mut out = match builder.next_chunk(&contents[offset..end]) {
            Ok(out) => out,
            Err(e) => {
                proof {
                    assert(before >= MAX_CHUNKS);
                    if offset < len {
                        assert(reads_needed(len) > before + 1) by {
                            assert((len + CHUNK_CAPACITY - 1) / (CHUNK_CAPACITY as int) >= before + 1);
                        }
                    }
                }
                return Err(e);
            },
        };
        draft.append(&mut out);
        proof {
            assert(contents@.subrange(0, offset as int) + contents@.subrange(
                offset as int,
                end as int,
            ) =~= contents@.subrange(0, end as int));
        }
        if end == offset {
            break;
        }
        offset = end;
    }
    proof {
        assert(contents@.subrange(0, len) =~= contents@);
    }
    match builder.finish() {
        Ok(b) => Ok((draft, b)),
        Err(e) => Err(e),
    }
}

/// What a correct draft of an edit is: the target offset lies inside the
/// original, the original holds `expected_old` there, and the draft is exactly
/// the edit of the original.
pub open spec fn edit_verified(
    original: Seq<u8>,
    draft: Seq<u8>,
    position: int,
    op: EditOp,
    expected_old: u8,
) -> bool {
    &&& 0 <= position < original.len()
    &&& original[position] == expected_old
    &&& draft == edited(original, position, op)
}

spec fn phase_rank(p: VerifyPhase) -> int {
    match p {
        VerifyPhase::Prefix => 3,
        VerifyPhase::Target => 2,
        VerifyPhase::Suffix => 1,
        VerifyPhase::Complete => 0,
    }
}

/// The windows that the verifier asks for next, cut from a correct draft and
/// its original, are accepted.
proof fn lemma_correct_windows_accepted(
    v: IntegrityVerifier,
    original: Seq<u8>,
    draft: Seq<u8>,
    oi: int,
    di: int,
    oe: int,
    de: int,
)
    requires
        v.consistent(),
        v.phase() != VerifyPhase::Complete,
        edit_verified(original, draft, v.position(), v.op(), v.expected_old()),
        0 <= oi <= original.len(),
        0 <= di <= draft.len(),
        v.original_seen() == original.subrange(0, oi),
        v.draft_seen() == draft.subrange(0, di),
        oe == if original.len() - oi < v.requested().0 {
            original.len() as int
        } else {
            oi + v.requested().0
        },
        de == if draft.len() - di < v.requested().1 {
            draft.len() as int
        } else {
            di + v.requested().1
        },
    ensures
        v.accepts(original.subrange(oi, oe), draft.subrange(di, de)),
{
    let p = v.position();
    let o = original.subrange(oi, oe);
    let d = draft.subrange(di, de);
    match v.phase() {
        VerifyPhase::Prefix => {
            assert(o =~= d);
        },
        VerifyPhase::Target => {
            match v.op() {
                EditOp::Replace(b) => {
                    assert(d.len() == 1);
                    assert(d[0] == draft[p]);
                },
                EditOp::Remove => {
                    assert(o.drop_first() =~= d);
                },
            }
        },
        _ => {
            let ed = edited(original.subrange(0, oi), p, v.op());
            assert(draft.subrange(0, di).len() == ed.len());
            match v.op() {
                EditOp::Replace(b) => {
                    assert(di == oi);
                    assert(o.len() == d.len());
                    assert forall|k: int| 0 <= k < o.len() implies o[k] == d[k] by {
                        assert(o[k] == original[oi + k]);
                        assert(d[k] == draft[oi + k]);
                    }
                },
                EditOp::Remove => {
                    assert(di == oi - 1);
                    assert(o.len() == d.len());
                    assert forall|k: int| 0 <= k < o.len() implies o[k] == d[k] by {
                        assert(o[k] == original[oi + k]);
                        assert(d[k] == draft[di + k]);
                    }
                },
            }
            assert(o =~= d);
        },
    }
}

/// Runs the four-phase verification over an original and a draft held in
/// memory, window by window. It accepts exactly the correct drafts.
pub fn verify_edit(original: &[u8], draft: &[u8], position: usize, op: EditOp, expected_old: u8) -> (r:
    Result<(), EditError>)
    ensures
        r is Ok <==> edit_verified(original@, draft@, position as int, op, expected_old),
        r is Err ==> r == Err::<(), EditError>(EditError::IntegrityFailure),
{
    let ghost good = edit_verified(original@, draft@, position as int, op, expected_old);
    let ghost p = position as int;
    let mut verifier = match IntegrityVerifier::new(
        op,
        position,
        expected_old,
        original.len() as u64,
        draft.len() as u64,
    ) {
        Ok(v) => v,
        Err(e) => return Err(e),
    };
    let mut oi: usize = 0;
    let mut di: usize = 0;
    while !verifier.is_complete()
        invariant
            verifier.wf(),
            verifier.consistent(),
            verifier.op() == op,
            verifier.position() == position,
            verifier.expected_old() == expected_old,
            oi <= original@.len(),
            di <= draft@.len(),
            verifier.original_seen() == original@.subrange(0, oi as int),
            verifier.draft_seen() == draft@.subrange(0, di as int),
            verifier.phase() == VerifyPhase::Complete ==> oi == original@.len() && di == draft@.len(),
            good == edit_verified(original@, draft@, position as int, op, expected_old),
        decreases original@.len() - oi + draft@.len() - di + phase_rank(verifier.phase()),
    {
        let (want_original, want_draft) = verifier.window_sizes();
        let oe = if original.len() - oi < want_original {
            original.len()
        } else {
            oi + want_original
        };
        let de = if draft.len() - di < want_draft {
            draft.len()
        } else {
            di + want_draft
        };
        let ghost o = original@.subrange(oi as int, oe as int);
        let ghost d = draft@.subrange(di as int, de as int);
        let ghost dl = draft@.len() as int;
        let ghost ol = original@.len() as int;
        proof {
            if good {
                lemma_correct_windows_accepted(verifier, original@, draft@, oi as int, di as int, oe as int, de as int);
            }
        }
        match verifier.step(&original[oi..oe], &draft[di..de]) {
            Ok(()) => {},
            Err(e) => return Err(e),
        }
        proof {
            assert(original@.subrange(0, oi as int) + o =~= original@.subrange(0, oe as int));
            assert(draft@.subrange(0, di as int) + d =~= draft@.subrange(0, de as int));
        }
        oi = oe;
        di = de;
    }
    proof {
        assert(original@.subrange(0, oi as int) =~= original@);
        assert(draft@.subrange(0, di as int) =~= draft@);
    }
    Ok(())
}

/// Edits a whole file's `contents` as the file operations do, draft and
/// verification included, and returns the new contents. It fails with
/// `InvalidInput` when `position` is not inside `contents` (an empty input
/// included), and with `IntegrityFailure` when the input takes more reads
/// than the chunk ceiling allows.
pub fn edit_bytes(contents: &[u8], position: usize, op: EditOp) -> (r: Result<Vec<u8>, EditError>)
    ensures
        r matches Ok(v) ==> edit_outcome(contents@, position as int, op) == Ok::<Seq<u8>, EditError>(v@),
        r matches Err(e) ==> edit_outcome(contents@, position as int, op) == Err::<Seq<u8>, EditError>(e),
{
    match validate_target(true, true, contents.len() as u64, position) {
        Ok(()) => {},
        Err(e) => return Err(e),
    }
    let (draft, expected_old) = match build_draft(contents, position, op) {
        Ok(built) => built,
        Err(e) => return Err(e),
    };
    match verify_edit(contents, &draft, position, op, expected_old) {
        Ok(()) => Ok(draft),
        Err(e) => Err(e),
    }
}

} // verus!
