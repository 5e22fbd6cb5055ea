//! Raw filesystem notifications and the eligibility filter.
//!
//! A change event carries a kind and the paths it concerns. The only kind
//! that triggers an upload is a close of a file that was open for writing:
//! create and modify events fire while a writer is still at work, so acting
//! on them would upload partial content.

use vstd::prelude::*;

verus! {

/// The category of a raw filesystem notification, as far as the upload
/// decision cares about it.
#[derive(Clone, Copy, Debug, PartialEq, Eq, Structural)]
pub enum EventKind {
    /// A file that was open in write mode has been closed: the completion
    /// signal this crate acts on.
    CloseWrite,
    /// A file or directory was created.
    Create,
    /// File contents or metadata changed while the file may still be open.
    Modify,
    /// A file or directory was removed.
    Remove,
    /// A file or directory was renamed or moved.
    Rename,
    /// A file was accessed in some way other than a close after writing.
    OtherAccess,
    /// Anything else the watch mechanism may report.
    Other,
}

/// One notification from the watch source: a kind and the absolute paths it
/// concerns. A path is carried as `Some(text)` when it is representable as
/// text, and as `None` when it is not; the resolver rejects the latter.
#[derive(Debug)]
pub struct RawChangeEvent {
    pub kind: EventKind,
    pub paths: Vec<Option<String>>,
}

/// An event leads to an upload only when it reports a close of a file that
/// was open for writing. Every other kind is skipped, silently and without
/// error.
pub fn is_eligible(event: &RawChangeEvent) -> (eligible: bool)
    ensures
        eligible == (event.kind == EventKind::CloseWrite),
{
    match event.kind {
        EventKind::CloseWrite => true,
        _ => false,
    }
}

} // verus!
