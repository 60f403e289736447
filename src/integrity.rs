//! Checking a finished draft against the original in four ordered phases:
//! lengths, the bytes before the target, the target itself, and the bytes
//! after it with the frame shift of the edit taken into account.
use vstd::prelude::*;

use crate::checksum::compute_simple_checksum;
use crate::edit::{edited, edited_len, EditError, EditOp};

verus! {

/// Size of the windows in which both files are compared.
pub const WINDOW: usize = 64;

/// Where a verification stands.
#[derive(Clone, Copy, Debug, PartialEq, Eq, Structural)]
pub enum VerifyPhase {
    /// Comparing the bytes before the target offset.
    Prefix,
    /// Checking the target offset itself.
    Target,
    /// Comparing the bytes after the target offset, up to the end of both files.
    Suffix,
    /// Both files ended together and every check held.
    Complete,
}

/// Whether two windows hold the same bytes.
pub fn same_bytes(a: &[u8], b: &[u8]) -> (r: bool)
    ensures
        r == (a@ == b@),
{
    if a.len() != b.len() {
        return false;
    }
    let mut i: usize = 0;
    while i < a.len()
        invariant
            a@.len() == b@.len(),
            i <= a@.len(),
            forall|j: int| 0 <= j < i ==> a@[j] == b@[j],
        decreases a@.len() - i,
    {
        if a[i] != b[i] {
            return false;
        }
        i += 1;
    }
    assert(a@ =~= b@);
    true
}

/// The state of one verification. The caller asks `window_sizes` how many
/// bytes to read next from the original and from the draft (reading as many as
/// are there, up to that number), and hands both windows to `step`, until the
/// phase is `Complete` or a step fails.
pub struct IntegrityVerifier {
    op: EditOp,
    position: usize,
    expected_old: u8,
    phase: VerifyPhase,
    prefix_done: usize,
    original_sum: u64,
    draft_sum: u64,
    original_seen: Ghost<Seq<u8>>,
    draft_seen: Ghost<Seq<u8>>,
}

impl IntegrityVerifier {
    /// The edit that the draft must show.
    pub closed spec fn op(&self) -> EditOp {
        self.op
    }

    /// The target offset.
    pub closed spec fn position(&self) -> int {
        self.position as int
    }

    /// The byte that the original must hold at the target offset.
    pub closed spec fn expected_old(&self) -> u8 {
        self.expected_old
    }

    pub closed spec fn phase(&self) -> VerifyPhase {
        self.phase
    }

    /// Every byte of the original compared so far, in order.
    pub closed spec fn original_seen(&self) -> Seq<u8> {
        self.original_seen@
    }

    /// Every byte of the draft compared so far, in order.
    pub closed spec fn draft_seen(&self) -> Seq<u8> {
        self.draft_seen@
    }

    pub closed spec fn wf(&self) -> bool {
        &&& self.consistent()
        &&& self.original_sum == self.draft_sum
        &&& (self.phase == VerifyPhase::Prefix ==> self.prefix_done == self.original_seen@.len())
    }

    /// What the bytes compared so far prove in each phase.
    pub open spec fn consistent(&self) -> bool {
        match self.phase() {
            VerifyPhase::Prefix => {
                &&& self.original_seen() == self.draft_seen()
                &&& self.original_seen().len() < self.position()
            },
            VerifyPhase::Target => {
                &&& self.original_seen() == self.draft_seen()
                &&& self.original_seen().len() == self.position()
            },
            _ => {
                &&& 0 <= self.position() < self.original_seen().len()
                &&& self.original_seen()[self.position()] == self.expected_old()
                &&& self.draft_seen() == edited(self.original_seen(), self.position(), self.op())
            },
        }
    }

    /// How many bytes the next step wants from the original and from the draft.
    pub open spec fn requested(&self) -> (int, int) {
        match self.phase() {
            VerifyPhase::Prefix => {
                let rest = self.position() - self.original_seen().len();
                let n = if rest < WINDOW { rest } else { WINDOW as int };
                (n, n)
            },
            VerifyPhase::Target => match self.op() {
                EditOp::Replace(_) => (1, 1),
                EditOp::Remove => (2, 1),
            },
            VerifyPhase::Suffix => (WINDOW as int, WINDOW as int),
            VerifyPhase::Complete => (0, 0),
        }
    }

    /// Whether a step accepts the windows `o` of the original and `d` of the
    /// draft.
    pub open spec fn accepts(&self, o: Seq<u8>, d: Seq<u8>) -> bool {
        &&& o.len() <= self.requested().0
        &&& d.len() <= self.requested().1
        &&& match self.phase() {
            VerifyPhase::Prefix => 0 < o.len() && o == d,
            VerifyPhase::Target => {
                &&& o.len() >= 1
                &&& o[0] == self.expected_old()
                &&& match self.op() {
                    EditOp::Replace(v) => d.len() == 1 && d[0] == v,
                    EditOp::Remove => o.drop_first() == d,
                }
            },
            VerifyPhase::Suffix => o == d,
            VerifyPhase::Complete => false,
        }
    }

    /// The phase after an accepted step with an original window of `n` bytes.
    pub open spec fn next_phase(&self, n: int) -> VerifyPhase {
        match self.phase() {
            VerifyPhase::Prefix => if self.original_seen().len() + n == self.position() {
                VerifyPhase::Target
            } else {
                VerifyPhase::Prefix
            },
            VerifyPhase::Target => VerifyPhase::Suffix,
            VerifyPhase::Suffix => if n == 0 {
                VerifyPhase::Complete
            } else {
                VerifyPhase::Suffix
            },
            VerifyPhase::Complete => VerifyPhase::Complete,
        }
    }

    /// Starts a verification with the length check: the draft must have the
    /// original's length for a replacement and one byte less for a removal.
    /// `expected_old` is the byte that the original holds at `position`.
    pub fn new(op: EditOp, position: usize, expected_old: u8, original_len: u64, draft_len: u64) -> (r:
        Result<Self, EditError>)
        ensures
            r is Ok <==> draft_len == edited_len(original_len as int, op),
            r is Err ==> r == Err::<Self, EditError>(EditError::IntegrityFailure),
            r matches Ok(v) ==> {
                &&& v.wf()
                &&& v.consistent()
                &&& v.op() == op
                &&& v.position() == position
                &&& v.expected_old() == expected_old
                &&& v.original_seen() == Seq::<u8>::empty()
                &&& v.draft_seen() == Seq::<u8>::empty()
                &&& v.phase() == if position == 0 {
                    VerifyPhase::Target
                } else {
                    VerifyPhase::Prefix
                }
            },
    {
        let length_ok = match op {
            EditOp::Replace(_) => draft_len == original_len,
            EditOp::Remove => original_len > 0 && draft_len == original_len - 1,
        };
        if !length_ok {
            return Err(EditError::IntegrityFailure);
        }
        Ok(
            IntegrityVerifier {
                op,
                position,
                expected_old,
                phase: if position == 0 {
                    VerifyPhase::Target
                } else {
                    VerifyPhase::Prefix
                },
                prefix_done: 0,
                original_sum: 0,
                draft_sum: 0,
                original_seen: Ghost(Seq::empty()),
                draft_seen: Ghost(Seq::empty()),
            },
        )
    }

    /// Whether every phase has passed.
    pub fn is_complete(&self) -> (r: bool)
        ensures
            r == (self.phase() == VerifyPhase::Complete),
    {
        self.phase == VerifyPhase::Complete
    }

    /// Compares the next window of the original with the next window of the
    /// draft. It succeeds exactly when the windows are what the phase asks
    /// for; then both are added to what has been compared and the phase moves
    /// on. A failed step changes nothing.
    pub fn step(&mut self, original: &[u8], draft: &[u8]) -> (r: Result<(), EditError>)
        requires
            old(self).wf(),
        ensures
            final(self).wf(),
            final(self).consistent(),
            r is Ok <==> old(self).accepts(original@, draft@),
            r is Err ==> r == Err::<(), EditError>(EditError::IntegrityFailure) && *final(self)
                == *old(self),
            r is Ok ==> {
                &&& final(self).op() == old(self).op()
                &&& final(self).position() == old(self).position()
                &&& final(self).expected_old() == old(self).expected_old()
                &&& final(self).original_seen() == old(self).original_seen() + original@
                &&& final(self).draft_seen() == old(self).draft_seen() + draft@
                &&& final(self).phase() == old(self).next_phase(original@.len() as int)
            },
    {
        let (want_original, want_draft) = self.window_sizes();
        if original.len() > want_original || draft.len() > want_draft {
            return Err(EditError::IntegrityFailure);
        }
        let ghost o = original@;
        let ghost d = draft@;
        let ghost os = self.original_seen@;
        let ghost ds = self.draft_seen@;
        let ghost p = self.position as int;
        match self.phase {
            VerifyPhase::Prefix => {
                if original.len() == 0 || !same_bytes(original, draft) {
                    return Err(EditError::IntegrityFailure);
                }
                let original_sum = self.original_sum.wrapping_add(compute_simple_checksum(original));
                let draft_sum = self.draft_sum.wrapping_add(compute_simple_checksum(draft));
                let done = self.prefix_done + original.len();
                if done == self.position {
                    if original_sum != draft_sum {
                        return Err(EditError::IntegrityFailure);
                    }
                    self.phase = VerifyPhase::Target;
                }
                self.original_sum = original_sum;
                self.draft_sum = draft_sum;
                self.prefix_done = done;
            },
            VerifyPhase::Target => {
                if original.len() == 0 || original[0] != self.expected_old {
                    return Err(EditError::IntegrityFailure);
                }
                match self.op {
                    EditOp::Replace(v) => {
                        if draft.len() != 1 || draft[0] != v {
                            return Err(EditError::IntegrityFailure);
                        }
                        proof {
                            assert(ds + d =~= (os + o).update(p, v));
                        }
                    },
                    EditOp::Remove => {
                        if !same_bytes(&original[1..original.len()], draft) {
                            return Err(EditError::IntegrityFailure);
                        }
                        proof {
                            assert(o.subrange(1, o.len() as int) =~= o.drop_first());
                            assert((os + o).subrange(0, p) =~= os);
                            assert(ds + d =~= (os + o).subrange(0, p) + (os + o).subrange(
                                p + 1,
                                (os + o).len() as int,
                            ));
                        }
                    },
                }
                self.original_sum = 0;
                self.draft_sum = 0;
                self.phase = VerifyPhase::Suffix;
            },
            VerifyPhase::Suffix => {
                if !same_bytes(original, draft) {
                    return Err(EditError::IntegrityFailure);
                }
                if original.len() == 0 {
                    if self.original_sum != self.draft_sum {
                        return Err(EditError::IntegrityFailure);
                    }
                    self.phase = VerifyPhase::Complete;
                } else {
                    self.original_sum = self.original_sum.wrapping_add(
                        compute_simple_checksum(original),
                    );
                    self.draft_sum = self.draft_sum.wrapping_add(compute_simple_checksum(draft));
                }
                proof {
                    let so = os + o;
                    match self.op {
                        EditOp::Replace(v) => {
                            assert(ds + d =~= so.update(p, v));
                        },
                        EditOp::Remove => {
                            assert(ds + d =~= so.subrange(0, p) + so.subrange(p + 1, so.len() as int));
                        },
                    }
                }
            },
            VerifyPhase::Complete => {
                return Err(EditError::IntegrityFailure);
            },
        }
        self.original_seen = Ghost(os + o);
        self.draft_seen = Ghost(ds + d);
        Ok(())
    }

    /// How many bytes to read next from the original and from the draft.
    pub fn window_sizes(&self) -> (r: (usize, usize))
        requires
            self.wf(),
        ensures
            r.0 == self.requested().0,
            r.1 == self.requested().1,
    {
        match self.phase {
            VerifyPhase::Prefix => {
                let rest = self.position - self.prefix_done;
                let n = if rest < WINDOW {
                    rest
                } else {
                    WINDOW
                };
                (n, n)
            },
            VerifyPhase::Target => match self.op {
                EditOp::Replace(_) => (1, 1),
                EditOp::Remove => (2, 1),
            },
            VerifyPhase::Suffix => (WINDOW, WINDOW),
            VerifyPhase::Complete => (0, 0),
        }
    }
}

} // verus!
