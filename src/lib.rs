//! Byte-level editing of a single file through a verified draft: the new
//! content is built chunk by chunk from the original, checked against the
//! original in four ordered phases, and only then promoted over it.
//!
//! No lock is taken on the target: two edits of the same path at once are
//! the caller's responsibility.
pub mod checksum;
pub mod draft;
pub mod edit;
pub mod integrity;
pub mod laws;
pub mod pipeline;
pub mod session;

pub use checksum::compute_simple_checksum;
pub use draft::{DraftBuilder, CHUNK_CAPACITY, MAX_CHUNKS};
pub use edit::{validate_target, EditError, EditOp};
pub use integrity::{IntegrityVerifier, VerifyPhase, WINDOW};
pub use pipeline::{edit_bytes, verify_edit};
pub use session::{Action, EditSession, Event, Stage};
