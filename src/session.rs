//! The sequence of one file edit as a state machine: check the request, back
//! the original up, build the draft, verify it, promote it, and clean up. The
//! caller performs each action on the file system and reports what happened;
//! the session decides what comes next. The original is touched only by the
//! promotion, and the promotion is asked for only once the draft has passed
//! every verification phase.
use vstd::prelude::*;

use crate::draft::{DraftBuilder, CHUNK_CAPACITY, MAX_CHUNKS};
use crate::edit::{edited, edited_len, target_check, validate_target, EditError, EditOp};
use crate::integrity::{IntegrityVerifier, VerifyPhase};

verus! {

/// What the caller must do next.
#[derive(Debug)]
pub enum Action {
    /// Copy the original to its `.backup` sibling.
    CreateBackup,
    /// Open the original for reading and create the empty `.draft` sibling.
    OpenDraft,
    /// Read as many bytes of the original as are there, up to this many, and
    /// report them as a chunk (an empty one at the end of the file).
    ReadChunk(usize),
    /// Append these bytes to the draft and flush it.
    WriteDraft(Vec<u8>),
    /// Close both files, open the original and the draft again for reading,
    /// and report both lengths.
    ReopenForCheck,
    /// Read up to these many bytes from the original and from the draft (as
    /// many as are there) and report both windows.
    ReadWindows(usize, usize),
    /// Close every file and delete the draft.
    DiscardDraft,
    /// Close every file and rename the draft over the original. If the rename
    /// fails, the original, the backup and the draft are all left as they
    /// are for manual recovery; nothing is copied in its place.
    Promote,
    /// Delete the backup.
    DiscardBackup,
    /// Stop with this outcome.
    Finish(Result<(), EditError>),
}

/// What happened when the caller performed the last action.
#[derive(Debug)]
pub enum Event {
    /// The action succeeded.
    Done,
    /// The action failed.
    Failed,
    /// The bytes read for `ReadChunk`.
    Chunk(Vec<u8>),
    /// The lengths of the original and of the draft, for `ReopenForCheck`.
    Lengths(u64, u64),
    /// The windows of the original and of the draft, for `ReadWindows`.
    Windows(Vec<u8>, Vec<u8>),
}

/// Where a session stands: the action it asked for last.
#[derive(Clone, Copy, Debug, PartialEq, Eq, Structural)]
pub enum Stage {
    /// `CreateBackup` was asked for.
    Backup,
    /// `OpenDraft` was asked for.
    Open,
    /// `ReadChunk` was asked for.
    Build,
    /// `WriteDraft` was asked for.
    Write,
    /// `ReopenForCheck` was asked for.
    Reopen,
    /// `ReadWindows` was asked for.
    Check,
    /// `DiscardDraft` was asked for after a failure.
    Discard,
    /// `Promote` was asked for.
    Promote,
    /// `DiscardBackup` was asked for after a successful promotion.
    Cleanup,
    /// `Finish` was returned.
    Finished,
}

/// One edit of one file, from the request to its outcome.
pub struct EditSession {
    op: EditOp,
    position: usize,
    stage: Stage,
    builder: DraftBuilder,
    verifier: Option<IntegrityVerifier>,
    expected_old: u8,
    outcome: Result<(), EditError>,
    backup_retained: bool,
    backup_present: Ghost<bool>,
    draft_present: Ghost<bool>,
    original_replaced: Ghost<bool>,
}

impl EditSession {
    /// The edit being made.
    pub closed spec fn op(&self) -> EditOp {
        self.op
    }

    /// The target offset.
    pub closed spec fn position(&self) -> int {
        self.position as int
    }

    /// Where the session stands.
    pub closed spec fn stage(&self) -> Stage {
        self.stage
    }

    /// Whether the session has reached its outcome.
    pub open spec fn finished(&self) -> bool {
        self.stage() == Stage::Finished
    }

    /// The outcome once finished; the pending error while the draft is being
    /// discarded.
    pub closed spec fn outcome(&self) -> Result<(), EditError> {
        self.outcome
    }

    /// Whether the session may have left a backup on disk.
    pub closed spec fn backup_present(&self) -> bool {
        self.backup_present@
    }

    /// Whether the session may have left a draft on disk.
    pub closed spec fn draft_present(&self) -> bool {
        self.draft_present@
    }

    /// Whether the draft has been renamed over the original.
    pub closed spec fn original_replaced(&self) -> bool {
        self.original_replaced@
    }

    /// Whether the backup could not be deleted after a successful promotion.
    pub closed spec fn backup_kept(&self) -> bool {
        self.backup_retained
    }

    /// How many chunks of the original have been handed in.
    pub closed spec fn chunks_read(&self) -> nat {
        self.builder.chunks()
    }

    /// Every byte of the original read while building the draft, in order.
    pub closed spec fn source_read(&self) -> Seq<u8> {
        self.builder.source()
    }

    /// Every byte handed out for the draft, in order.
    pub closed spec fn drafted(&self) -> Seq<u8> {
        self.builder.built()
    }

    /// The verification under way, from the length report on.
    pub closed spec fn checker(&self) -> IntegrityVerifier {
        self.verifier->Some_0
    }

    /// The original as read back during verification.
    pub open spec fn checked_original(&self) -> Seq<u8> {
        self.checker().original_seen()
    }

    /// The draft as read back during verification.
    pub open spec fn checked_draft(&self) -> Seq<u8> {
        self.checker().draft_seen()
    }

    /// The session is discarding the draft after failing with `e`.
    pub open spec fn abandoned(&self, e: EditError) -> bool {
        &&& self.stage() == Stage::Discard
        &&& self.outcome() == Err::<(), EditError>(e)
    }

    /// The draft read back during verification is exactly the intended edit
    /// of the original read back during verification.
    pub open spec fn draft_proven(&self) -> bool {
        &&& 0 <= self.position() < self.checked_original().len()
        &&& self.checked_draft() == edited(self.checked_original(), self.position(), self.op())
    }

    /// What holds in every state of a session.
    pub open spec fn safe(&self) -> bool {
        &&& self.drafted() == edited(self.source_read(), self.position(), self.op())
        &&& (self.original_replaced() ==> self.draft_proven())
        &&& (self.stage() == Stage::Promote ==> self.draft_proven() && !self.original_replaced())
        &&& (self.finished() && self.outcome() is Err ==> !self.original_replaced())
        &&& (self.finished() && self.outcome() is Err && self.outcome() != Err::<(), EditError>(
            EditError::NotFound,
        ) && self.outcome() != Err::<(), EditError>(EditError::InvalidInput)
            ==> self.backup_present())
        &&& (self.finished() && self.outcome() == Err::<(), EditError>(EditError::SwapFailure) ==> {
            &&& self.backup_present()
            &&& self.draft_present()
        })
        &&& (self.finished() && self.outcome() is Ok ==> {
            &&& self.original_replaced()
            &&& !self.draft_present()
            &&& (self.backup_present() <==> self.backup_kept())
        })
    }

    closed spec fn verifier_ready(&self) -> bool {
        &&& self.verifier is Some
        &&& self.checker().wf()
        &&& self.checker().consistent()
        &&& self.checker().op() == self.op
        &&& self.checker().position() == self.position
        &&& self.checker().expected_old() == self.expected_old
    }

    pub closed spec fn wf(&self) -> bool {
        &&& self.builder.wf()
        &&& self.builder.op() == self.op
        &&& self.builder.position() == self.position
        &&& self.builder.built() == edited(self.builder.source(), self.position as int, self.op)
        &&& (self.stage == Stage::Reopen || self.stage == Stage::Check || self.stage
            == Stage::Promote || self.stage == Stage::Cleanup ==> {
            &&& self.position < self.builder.source().len()
            &&& self.expected_old == self.builder.source()[self.position as int]
        })
        &&& (self.stage == Stage::Check ==> self.verifier_ready() && self.checker().phase()
            != VerifyPhase::Complete)
        &&& (self.stage == Stage::Promote ==> self.verifier_ready() && self.checker().phase()
            == VerifyPhase::Complete)
        &&& (self.original_replaced@ ==> self.verifier_ready() && self.checker().phase()
            == VerifyPhase::Complete)
        &&& (self.stage == Stage::Cleanup ==> self.original_replaced@ && !self.draft_present@
            && self.outcome is Ok)
        &&& (self.stage == Stage::Discard ==> self.outcome is Err && !self.original_replaced@)
        &&& (self.stage != Stage::Cleanup && self.stage != Stage::Finished ==> !self.original_replaced@)
        &&& (self.stage == Stage::Finished && self.outcome is Err ==> !self.original_replaced@)
        &&& (self.stage == Stage::Finished && self.outcome is Ok ==> {
            &&& self.original_replaced@
            &&& !self.draft_present@
            &&& (self.backup_present@ <==> self.backup_retained)
        })
        &&& (self.stage == Stage::Finished && self.outcome is Err && self.outcome != Err::<
            (),
            EditError,
        >(EditError::NotFound) && self.outcome != Err::<(), EditError>(EditError::InvalidInput)
            ==> self.backup_present@)
        &&& (self.stage == Stage::Finished && self.outcome == Err::<(), EditError>(
            EditError::SwapFailure,
        ) ==> self.backup_present@ && self.draft_present@)
        &&& (self.stage == Stage::Discard ==> self.outcome != Err::<(), EditError>(
            EditError::SwapFailure,
        ) && self.outcome != Err::<(), EditError>(EditError::NotFound) && self.outcome != Err::<
            (),
            EditError,
        >(EditError::InvalidInput))
        &&& (self.stage != Stage::Finished ==> self.backup_present@ && !self.backup_retained)
        &&& (self.stage != Stage::Backup && self.stage != Stage::Cleanup && self.stage
            != Stage::Finished ==> self.draft_present@)
    }

    /// Starts an edit from what the file system reports of the target. A
    /// request that fails the check finishes at once with that error, before
    /// any file is touched; otherwise the first action is the backup.
    pub fn start(op: EditOp, position: usize, exists: bool, is_file: bool, file_len: u64) -> (r: (
        Self,
        Action,
    ))
        ensures
            r.0.wf(),
            r.0.safe(),
            r.0.op() == op,
            r.0.position() == position,
            r.0.source_read() == Seq::<u8>::empty(),
            r.0.chunks_read() == 0,
            !r.0.original_replaced(),
            target_check(exists, is_file, file_len as int, position as int) matches Err(e) ==> {
                &&& r.1 == Action::Finish(Err(e))
                &&& r.0.finished()
                &&& r.0.outcome() == Err::<(), EditError>(e)
                &&& !r.0.backup_present()
                &&& !r.0.draft_present()
            },
            target_check(exists, is_file, file_len as int, position as int) is Ok ==> {
                &&& r.1 == Action::CreateBackup
                &&& r.0.stage() == Stage::Backup
            },
    {
        let checked = validate_target(exists, is_file, file_len, position);
        let failed = checked.is_err();
        let session = EditSession {
            op,
            position,
            stage: if failed {
                Stage::Finished
            } else {
                Stage::Backup
            },
            builder: DraftBuilder::new(op, position),
            verifier: None,
            expected_old: 0,
            outcome: checked,
            backup_retained: false,
            backup_present: Ghost(!failed),
            draft_present: Ghost(false),
            original_replaced: Ghost(false),
        };
        match checked {
            Err(e) => (session, Action::Finish(Err(e))),
            Ok(()) => (session, Action::CreateBackup),
        }
    }

    /// Whether the backup could not be deleted after a successful promotion
    /// (the one failure that does not fail the edit).
    pub fn backup_was_kept(&self) -> (r: bool)
        ensures
            r == self.backup_kept(),
    {
        self.backup_retained
    }

    /// Records a failure and asks for the draft to be deleted.
    fn abandon(&mut self, e: EditError) -> (r: Action)
        requires
            old(self).wf(),
            old(self).stage != Stage::Finished && old(self).stage != Stage::Cleanup
                && old(self).stage != Stage::Backup && old(self).stage != Stage::Promote
                && old(self).stage != Stage::Discard,
            e == EditError::Io || e == EditError::IntegrityFailure,
        ensures
            final(self).wf(),
            final(self).abandoned(e),
            final(self).op() == old(self).op(),
            final(self).position() == old(self).position(),
            final(self).builder == old(self).builder,
            final(self).verifier == old(self).verifier,
            final(self).backup_present@ == old(self).backup_present@,
            final(self).draft_present@ == old(self).draft_present@,
            final(self).original_replaced@ == old(self).original_replaced@,
            r == Action::DiscardDraft,
    {
        self.stage = Stage::Discard;
        self.outcome = Err(e);
        Action::DiscardDraft
    }

    /// Takes what happened with the last action and returns the next one.
    /// Once finished, every further call returns the same outcome.
    pub fn advance(&mut self, event: Event) -> (r: Action)
        requires
            old(self).wf(),
        ensures
            final(self).wf(),
            final(self).safe(),
            final(self).op() == old(self).op(),
            final(self).position() == old(self).position(),
            r matches Action::Finish(o) ==> final(self).finished() && o == final(self).outcome(),
            !(r is Finish) ==> !final(self).finished(),
            final(self).original_replaced() && !old(self).original_replaced() ==> old(self).stage()
                == Stage::Promote && event is Done,
            old(self).stage() != Stage::Build ==> final(self).source_read() == old(
                self,
            ).source_read() && final(self).drafted() == old(self).drafted(),
            // finished: nothing changes
            old(self).finished() ==> *final(self) == *old(self) && r == Action::Finish(
                old(self).outcome(),
            ),
            // backup copied: open the draft; otherwise stop
            old(self).stage() == Stage::Backup ==> if event is Done {
                &&& r == Action::OpenDraft
                &&& final(self).stage() == Stage::Open
            } else {
                &&& r == Action::Finish(Err(EditError::Io))
                &&& final(self).outcome() == Err::<(), EditError>(EditError::Io)
            },
            // draft opened or chunk written: read the next chunk
            old(self).stage() == Stage::Open || old(self).stage() == Stage::Write ==> if event is Done {
                &&& r == Action::ReadChunk(CHUNK_CAPACITY)
                &&& final(self).stage() == Stage::Build
            } else {
                &&& r == Action::DiscardDraft
                &&& final(self).abandoned(EditError::Io)
            },
            // a chunk read: write its edit, or check once the end is reached
            old(self).stage() == Stage::Build && !(event is Chunk) ==> r == Action::DiscardDraft
                && final(self).abandoned(EditError::Io),
            old(self).stage() == Stage::Build && event is Chunk ==> {
                let c = event->Chunk_0@;
                if old(self).chunks_read() >= MAX_CHUNKS || c.len() > CHUNK_CAPACITY {
                    &&& r == Action::DiscardDraft
                    &&& final(self).abandoned(EditError::IntegrityFailure)
                    &&& final(self).source_read() == old(self).source_read()
                } else {
                    &&& final(self).chunks_read() == old(self).chunks_read() + 1
                    &&& final(self).source_read() == old(self).source_read() + c
                    &&& if c.len() > 0 {
                        &&& r is WriteDraft
                        &&& final(self).drafted() == old(self).drafted() + r->WriteDraft_0@
                        &&& final(self).stage() == Stage::Write
                    } else if old(self).position() < old(self).source_read().len() {
                        &&& r == Action::ReopenForCheck
                        &&& final(self).stage() == Stage::Reopen
                    } else {
                        &&& r == Action::DiscardDraft
                        &&& final(self).abandoned(EditError::IntegrityFailure)
                    }
                }
            },
            // lengths reported: start the verification
            old(self).stage() == Stage::Reopen && !(event is Lengths) ==> r == Action::DiscardDraft
                && final(self).abandoned(EditError::Io),
            old(self).stage() == Stage::Reopen && event is Lengths ==> if event->Lengths_1
                == edited_len(event->Lengths_0 as int, old(self).op()) {
                &&& final(self).stage() == Stage::Check
                &&& final(self).checked_original() == Seq::<u8>::empty()
                &&& final(self).checked_draft() == Seq::<u8>::empty()
                &&& final(self).checker().op() == old(self).op()
                &&& final(self).checker().position() == old(self).position()
                &&& final(self).checker().expected_old() == old(self).source_read()[old(
                    self,
                ).position()]
                &&& final(self).checker().phase() == if old(self).position() == 0 {
                    VerifyPhase::Target
                } else {
                    VerifyPhase::Prefix
                }
                &&& r is ReadWindows
                &&& r->ReadWindows_0 == final(self).checker().requested().0
                &&& r->ReadWindows_1 == final(self).checker().requested().1
            } else {
                &&& r == Action::DiscardDraft
                &&& final(self).abandoned(EditError::IntegrityFailure)
            },
            // windows read: compare them; promote once every phase has passed
            old(self).stage() == Stage::Check && !(event is Windows) ==> r == Action::DiscardDraft
                && final(self).abandoned(EditError::Io),
            old(self).stage() == Stage::Check && event is Windows ==> {
                let o = event->Windows_0@;
                let d = event->Windows_1@;
                if !old(self).checker().accepts(o, d) {
                    &&& r == Action::DiscardDraft
                    &&& final(self).abandoned(EditError::IntegrityFailure)
                } else {
                    &&& final(self).checker().op() == old(self).op()
                    &&& final(self).checker().position() == old(self).position()
                    &&& final(self).checker().expected_old() == old(self).checker().expected_old()
                    &&& final(self).checked_original() == old(self).checked_original() + o
                    &&& final(self).checked_draft() == old(self).checked_draft() + d
                    &&& final(self).checker().phase() == old(self).checker().next_phase(
                        o.len() as int,
                    )
                    &&& if final(self).checker().phase() == VerifyPhase::Complete {
                        &&& r == Action::Promote
                        &&& final(self).stage() == Stage::Promote
                    } else {
                        &&& r is ReadWindows
                        &&& r->ReadWindows_0 == final(self).checker().requested().0
                        &&& r->ReadWindows_1 == final(self).checker().requested().1
                        &&& final(self).stage() == Stage::Check
                    }
                }
            },
            // draft discarded (or not): stop with the pending error
            old(self).stage() == Stage::Discard ==> {
                &&& r == Action::Finish(old(self).outcome())
                &&& final(self).outcome() == old(self).outcome()
                &&& final(self).backup_present() == old(self).backup_present()
                &&& final(self).draft_present() == (old(self).draft_present() && !(event is Done))
            },
            // promotion: clean up, or stop with every file in place
            old(self).stage() == Stage::Promote ==> if event is Done {
                &&& r == Action::DiscardBackup
                &&& final(self).stage() == Stage::Cleanup
                &&& final(self).original_replaced()
                &&& !final(self).draft_present()
            } else {
                &&& r == Action::Finish(Err(EditError::SwapFailure))
                &&& !final(self).original_replaced()
            },
            // backup deletion: success either way; the backup is kept only if it failed
            old(self).stage() == Stage::Cleanup ==> {
                &&& r == Action::Finish(Ok(()))
                &&& final(self).backup_kept() == !(event is Done)
                &&& final(self).backup_present() == !(event is Done)
            },
    {
        match self.stage {
            Stage::Finished => Action::Finish(self.outcome),
            Stage::Backup => match event {
                Event::Done => {
                    self.stage = Stage::Open;
                    self.draft_present = Ghost(true);
                    Action::OpenDraft
                },
                _ => {
                    self.stage = Stage::Finished;
                    self.outcome = Err(EditError::Io);
                    Action::Finish(self.outcome)
                },
            },
            Stage::Open => match event {
                Event::Done => {
                    self.stage = Stage::Build;
                    Action::ReadChunk(CHUNK_CAPACITY)
                },
                _ => self.abandon(EditError::Io),
            },
            Stage::Build => match event {
                Event::Chunk(bytes) => match self.builder.next_chunk(&bytes) {
                    Err(e) => self.abandon(e),
                    Ok(out) => {
                        if bytes.len() > 0 {
                            self.stage = Stage::Write;
                            Action::WriteDraft(out)
                        } else {
                            proof {
                                assert(self.builder.source() =~= old(self).builder.source());
                            }
                            match self.builder.finish() {
                                Ok(b) => {
                                    self.expected_old = b;
                                    self.stage = Stage::Reopen;
                                    Action::ReopenForCheck
                                },
                                Err(e) => self.abandon(e),
                            }
                        }
                    },
                },
                _ => self.abandon(EditError::Io),
            },
            Stage::Write => match event {
                Event::Done => {
                    self.stage = Stage::Build;
                    Action::ReadChunk(CHUNK_CAPACITY)
                },
                _ => self.abandon(EditError::Io),
            },
            Stage::Reopen => match event {
                Event::Lengths(original_len, draft_len) => match IntegrityVerifier::new(
                    self.op,
                    self.position,
                    self.expected_old,
                    original_len,
                    draft_len,
                ) {
                    Ok(v) => {
                        let (a, b) = v.window_sizes();
                        self.verifier = Some(v);
                        self.stage = Stage::Check;
                        Action::ReadWindows(a, b)
                    },
                    Err(e) => self.abandon(e),
                },
                _ => self.abandon(EditError::Io),
            },
            Stage::Check => match event {
                Event::Windows(o, d) => {
                    let mut v = self.verifier.take().unwrap();
                    match v.step(&o, &d) {
                        Err(e) => {
                            self.verifier = Some(v);
                            self.abandon(e)
                        },
                        Ok(()) => {
                            if v.is_complete() {
                                self.stage = Stage::Promote;
                                self.verifier = Some(v);
                                Action::Promote
                            } else {
                                let (a, b) = v.window_sizes();
                                self.verifier = Some(v);
                                Action::ReadWindows(a, b)
                            }
                        },
                    }
                },
                _ => self.abandon(EditError::Io),
            },
            Stage::Discard => {
                if let Event::Done = event {
                    self.draft_present = Ghost(false);
                }
                self.stage = Stage::Finished;
                Action::Finish(self.outcome)
            },
            Stage::Promote => match event {
                Event::Done => {
                    self.original_replaced = Ghost(true);
                    self.draft_present = Ghost(false);
                    self.outcome = Ok(());
                    self.stage = Stage::Cleanup;
                    Action::DiscardBackup
                },
                _ => {
                    self.outcome = Err(EditError::SwapFailure);
                    self.stage = Stage::Finished;
                    Action::Finish(self.outcome)
                },
            },
            Stage::Cleanup => {
                match event {
                    Event::Done => {
                        self.backup_present = Ghost(false);
                    },
                    _ => {
                        self.backup_retained = true;
                    },
                }
                self.stage = Stage::Finished;
                self.outcome = Ok(());
                Action::Finish(Ok(()))
            },
        }
    }
}

/// After a successful edit no draft is left behind, and no backup either
/// unless deleting it failed (which is reported by `backup_was_kept`).
pub proof fn lemma_success_leaves_no_siblings(s: EditSession)
    requires
        s.wf(),
        s.finished(),
        s.outcome() is Ok,
        !s.backup_kept(),
    ensures
        !s.draft_present(),
        !s.backup_present(),
        s.original_replaced(),
{
}

/// An edit that fails, whether in the checks, the draft build, the
/// verification or the rename, never replaces the original; one that fails
/// after the request was accepted also keeps the backup.
pub proof fn lemma_failure_keeps_original(s: EditSession)
    requires
        s.wf(),
        s.finished(),
        s.outcome() is Err,
    ensures
        !s.original_replaced(),
        s.outcome() != Err::<(), EditError>(EditError::NotFound) && s.outcome() != Err::<
            (),
            EditError,
        >(EditError::InvalidInput) ==> s.backup_present(),
{
}

/// The original is replaced only by a draft that was read back and found to
/// be exactly the intended edit of the original as read back.
pub proof fn lemma_replacement_is_the_edit(s: EditSession)
    requires
        s.wf(),
        s.original_replaced(),
    ensures
        0 <= s.position() < s.checked_original().len(),
        s.checked_draft() == edited(s.checked_original(), s.position(), s.op()),
{
}

} // verus!
