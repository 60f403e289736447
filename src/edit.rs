//! The edit operations, their meaning on byte sequences, and the checks made
//! on a request before any file is touched.
use vstd::prelude::*;

verus! {

/// The change made at the target offset.
#[derive(Clone, Copy, Debug, PartialEq, Eq, Structural)]
pub enum EditOp {
    /// Write this byte in place of the original one; the length is kept.
    Replace(u8),
    /// Drop the original byte; everything after it moves one offset earlier.
    Remove,
}

/// Why an edit did not take place.
#[derive(Clone, Copy, Debug, PartialEq, Eq, Structural)]
pub enum EditError {
    /// The target path does not exist.
    NotFound,
    /// Not a regular file, an empty file, an offset out of range, or a path
    /// without a file name.
    InvalidInput,
    /// The draft is not exactly the intended edit of the original, or it could
    /// not be built as intended.
    IntegrityFailure,
    /// The verified draft could not be renamed over the original.
    SwapFailure,
    /// Reading, writing, copying or opening one of the files failed.
    Io,
}

/// The result of applying `op` at offset `p` to `src`. Where `src` does not
/// reach `p` it is returned unchanged, so this also describes every prefix of a
/// draft while it is being built.
pub open spec fn edited(src: Seq<u8>, p: int, op: EditOp) -> Seq<u8> {
    if p < 0 || p >= src.len() {
        src
    } else {
        match op {
            EditOp::Replace(v) => src.update(p, v),
            EditOp::Remove => src.subrange(0, p) + src.subrange(p + 1, src.len() as int),
        }
    }
}

/// The length that a draft of a file of `len` bytes must have.
pub open spec fn edited_len(len: int, op: EditOp) -> int {
    match op {
        EditOp::Replace(_) => len,
        EditOp::Remove => len - 1,
    }
}

/// What the check of a request decides, from what the file system reports.
pub open spec fn target_check(exists: bool, is_file: bool, file_len: int, position: int) -> Result<
    (),
    EditError,
> {
    if !exists {
        Err(EditError::NotFound)
    } else if !is_file {
        Err(EditError::InvalidInput)
    } else if file_len == 0 || position >= file_len {
        Err(EditError::InvalidInput)
    } else {
        Ok(())
    }
}

/// Checks a request before any file is touched: the path must exist and be a
/// regular file, and the offset must lie strictly inside its bytes (so an
/// empty file is always refused).
pub fn validate_target(exists: bool, is_file: bool, file_len: u64, position: usize) -> (r: Result<
    (),
    EditError,
>)
    ensures
        r == target_check(exists, is_file, file_len as int, position as int),
{
    if !exists {
        Err(EditError::NotFound)
    } else if !is_file {
        Err(EditError::InvalidInput)
    } else if file_len == 0 || position as u64 >= file_len {
        Err(EditError::InvalidInput)
    } else {
        Ok(())
    }
}

/// Appends `src[from..to]` to `out`.
pub(crate) fn append_range(out: &mut Vec<u8>, src: &[u8], from: usize, to: usize)
    requires
        from <= to <= src@.len(),
    ensures
        final(out)@ == old(out)@ + src@.subrange(from as int, to as int),
{
    let mut i: usize = from;
    while i < to
        invariant
            from <= i <= to <= src@.len(),
            out@ == old(out)@ + src@.subrange(from as int, i as int),
        decreases to - i,
    {
        out.push(src[i]);
        assert(src@.subrange(from as int, i + 1) =~= src@.subrange(from as int, i as int).push(
            src@[i as int],
        ));
        i += 1;
    }
}

} // verus!
