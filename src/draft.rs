//! Building the draft: the original is streamed through a small fixed-size
//! buffer, and each chunk is handed on unchanged except at the target offset.
use vstd::prelude::*;

use crate::edit::{append_range, edited, EditError, EditOp};

verus! {

/// The most bytes that one chunk may hold.
pub const CHUNK_CAPACITY: usize = 64;

/// The most reads of the original that one build may make, end of file
/// included (about 1 GiB at full chunks).
pub const MAX_CHUNKS: usize = 16777216;

/// The state of one draft build. The caller reads the original chunk by chunk,
/// hands each chunk (the empty one at end of file too) to `next_chunk`, writes
/// what comes back to the draft, and calls `finish` once the end is reached.
pub struct DraftBuilder {
    op: EditOp,
    position: usize,
    consumed: usize,
    chunks: usize,
    target_byte: Option<u8>,
    source: Ghost<Seq<u8>>,
    built: Ghost<Seq<u8>>,
}

impl DraftBuilder {
    /// The edit being made.
    pub closed spec fn op(&self) -> EditOp {
        self.op
    }

    /// The target offset.
    pub closed spec fn position(&self) -> int {
        self.position as int
    }

    /// Every byte of the original read so far, in order.
    pub closed spec fn source(&self) -> Seq<u8> {
        self.source@
    }

    /// Every byte handed out for the draft so far, in order.
    pub closed spec fn built(&self) -> Seq<u8> {
        self.built@
    }

    /// How many chunks have been handed in.
    pub closed spec fn chunks(&self) -> nat {
        self.chunks as nat
    }

    pub closed spec fn wf(&self) -> bool {
        &&& self.consumed == self.source@.len()
        &&& self.chunks <= MAX_CHUNKS
        &&& self.source@.len() <= self.chunks * CHUNK_CAPACITY
        &&& self.built@ == edited(self.source@, self.position as int, self.op)
        &&& (self.target_byte is Some <==> self.position < self.source@.len())
        &&& (self.target_byte matches Some(b) ==> b == self.source@[self.position as int])
    }

    /// A build that has read nothing yet.
    pub fn new(op: EditOp, position: usize) -> (r: Self)
        ensures
            r.wf(),
            r.op() == op,
            r.position() == position,
            r.source() == Seq::<u8>::empty(),
            r.built() == Seq::<u8>::empty(),
            r.chunks() == 0,
    {
        DraftBuilder {
            op,
            position,
            consumed: 0,
            chunks: 0,
            target_byte: None,
            source: Ghost(Seq::empty()),
            built: Ghost(Seq::empty()),
        }
    }

    /// Takes the next chunk of the original and returns the bytes to append to
    /// the draft. It fails, changing nothing, when the chunk ceiling is reached
    /// or the chunk is larger than the buffer. Otherwise all that has been
    /// handed out is exactly the edit of all that has been read.
    pub fn next_chunk(&mut self, chunk: &[u8]) -> (r: Result<Vec<u8>, EditError>)
        requires
            old(self).wf(),
        ensures
            final(self).wf(),
            final(self).op() == old(self).op(),
            final(self).position() == old(self).position(),
            r is Err <==> (old(self).chunks() >= MAX_CHUNKS || chunk@.len() > CHUNK_CAPACITY),
            r is Err ==> r == Err::<Vec<u8>, EditError>(EditError::IntegrityFailure) && *final(self)
                == *old(self),
            r matches Ok(out) ==> {
                &&& final(self).chunks() == old(self).chunks() + 1
                &&& final(self).source() == old(self).source() + chunk@
                &&& final(self).built() == old(self).built() + out@
                &&& final(self).built() == edited(final(self).source(), final(self).position(), final(self).op())
            },
    {
        if self.chunks >= MAX_CHUNKS || chunk.len() > CHUNK_CAPACITY {
            return Err(EditError::IntegrityFailure);
        }
        let start = self.consumed;
        let end = start + chunk.len();
        let mut out: Vec<u8> = Vec::new();
        let ghost src = self.source@ + chunk@;
        let ghost p = self.position as int;
        if start <= self.position && self.position < end {
            let k = self.position - start;
            append_range(&mut out, chunk, 0, k);
            match self.op {
                EditOp::Replace(v) => {
                    out.push(v);
                },
                EditOp::Remove => {},
            }
            append_range(&mut out, chunk, k + 1, chunk.len());
            self.target_byte = Some(chunk[k]);
            proof {
                assert(self.built@ == self.source@);
                assert(src.subrange(0, p) =~= self.source@ + chunk@.subrange(0, k as int));
                assert(src.subrange(p + 1, src.len() as int) =~= chunk@.subrange(
                    k + 1,
                    chunk@.len() as int,
                ));
                match self.op {
                    EditOp::Replace(v) => {
                        assert(self.built@ + out@ =~= src.update(p, v));
                    },
                    EditOp::Remove => {
                        assert(self.built@ + out@ =~= src.subrange(0, p) + src.subrange(
                            p + 1,
                            src.len() as int,
                        ));
                    },
                }
            }
        } else {
            append_range(&mut out, chunk, 0, chunk.len());
            proof {
                assert(chunk@.subrange(0, chunk@.len() as int) =~= chunk@);
                if p < self.source@.len() {
                    match self.op {
                        EditOp::Replace(v) => {
                            assert(self.built@ + out@ =~= src.update(p, v));
                        },
                        EditOp::Remove => {
                            assert(src.subrange(0, p) =~= self.source@.subrange(0, p));
                            assert(self.built@ + out@ =~= src.subrange(0, p) + src.subrange(
                                p + 1,
                                src.len() as int,
                            ));
                        },
                    }
                }
            }
        }
        self.consumed = end;
        self.chunks = self.chunks + 1;
        self.source = Ghost(src);
        self.built = Ghost(self.built@ + out@);
        Ok(out)
    }

    /// Ends the build once the original is exhausted. It fails when the target
    /// offset was never reached; otherwise it returns the original byte found
    /// there.
    pub fn finish(&self) -> (r: Result<u8, EditError>)
        requires
            self.wf(),
        ensures
            r is Ok <==> self.position() < self.source().len(),
            r matches Ok(b) ==> b == self.source()[self.position()],
            r is Err ==> r == Err::<u8, EditError>(EditError::IntegrityFailure),
    {
        match self.target_byte {
            Some(b) => Ok(b),
            None => Err(EditError::IntegrityFailure),
        }
    }
}

} // verus!
