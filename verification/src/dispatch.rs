//! The per-event decision of the dispatch loop: filter the raw
//! notification, resolve its path against the watched root, apply the
//! ignore policy, and either produce the upload request or say exactly why
//! none is produced.
//!
//! Every outcome is a value: the loop around this function logs errors and
//! carries on, so no single malformed event can stop it.

use vstd::prelude::*;
use crate::event::EventKind;
use crate::event::RawChangeEvent;
use crate::event::is_eligible;
use crate::location::PathResolutionError;
use crate::location::context_part;
use crate::location::name_part;
use crate::location::relative_part;
use crate::location::resolution_error;
use crate::location::resolvable;
use crate::location::resolve;
use crate::upload::UploadRequest;
use vstd::string::StrSliceExecFns;

verus! {

/// Why an event produced neither an upload request nor a silent skip.
#[derive(Debug, Clone, PartialEq, Eq)]
pub enum DispatchError {
    /// The watch source reported an error instead of an event; carries the
    /// source's message.
    Source(String),
    /// A close-write event named no path at all.
    MissingPath,
    /// The event's path could not be resolved against the watched root.
    Path(PathResolutionError),
}

/// A filename the ignore policy treats as hidden: it starts with the
/// hidden-file marker. Only the final filename counts; a hidden ancestor
/// folder does not make a file hidden.
pub open spec fn hidden_name(name: Seq<char>) -> bool {
    name.len() > 0 && name[0] == '.'
}

/// Whether a filename starts with the hidden-file marker.
pub fn is_hidden_name(name: &str) -> (hidden: bool)
    ensures
        hidden == hidden_name(name@),
{
    if name.unicode_len() == 0 {
        false
    } else {
        name.get_char(0) == '.'
    }
}

/// Decides what one item from the watch source amounts to.
///
/// A source error and an unusable path come back as errors to log; an
/// ineligible event kind and a hidden filename under the ignore policy are
/// silent skips; and exactly otherwise the upload request is produced, with
/// the resolved context and name and the original absolute path.
pub fn handle_event(
    event: Result<RawChangeEvent, String>,
    root: &str,
    ignore_hidden: bool,
) -> (handled: Result<Option<UploadRequest>, DispatchError>)
    ensures
        event matches Err(message) ==> handled == Err::<Option<UploadRequest>, DispatchError>(
            DispatchError::Source(message),
        ),
        event matches Ok(raw) ==> {
            &&& raw.kind != EventKind::CloseWrite ==> handled == Ok::<
                Option<UploadRequest>,
                DispatchError,
            >(None)
            &&& raw.kind == EventKind::CloseWrite && raw.paths.len() == 0 ==> handled == Err::<
                Option<UploadRequest>,
                DispatchError,
            >(DispatchError::MissingPath)
            &&& raw.kind == EventKind::CloseWrite && raw.paths.len() > 0 && raw.paths[0] is None
                ==> handled == Err::<Option<UploadRequest>, DispatchError>(
                DispatchError::Path(PathResolutionError::InvalidEncoding),
            )
            &&& (raw.kind == EventKind::CloseWrite && raw.paths.len() > 0) ==> (raw.paths[0] matches
                Some(path) ==> {
                &&& !resolvable(path@, root@) ==> handled == Err::<
                    Option<UploadRequest>,
                    DispatchError,
                >(DispatchError::Path(resolution_error(path@, root@)))
                &&& resolvable(path@, root@) && ignore_hidden && hidden_name(
                    name_part(relative_part(path@, root@)),
                ) ==> handled == Ok::<Option<UploadRequest>, DispatchError>(None)
                &&& resolvable(path@, root@) && !(ignore_hidden && hidden_name(
                    name_part(relative_part(path@, root@)),
                )) ==> {
                    &&& handled matches Ok(Some(request))
                    &&& request.context@ == context_part(relative_part(path@, root@))
                    &&& request.name@ == name_part(relative_part(path@, root@))
                    &&& request.path@ == path@
                }
            })
        },
{
    let raw = match event {
        Ok(raw) => raw,
        Err(message) => {
            return Err(DispatchError::Source(message));
        },
    };
    if !is_eligible(&raw) {
        return Ok(None);
    }
    if raw.paths.len() == 0 {
        return Err(DispatchError::MissingPath);
    }
    let path = match &raw.paths[0] {
        Some(path) => path,
        None => {
            return Err(DispatchError::Path(PathResolutionError::InvalidEncoding));
        },
    };
    let located = match resolve(path.as_str(), root) {
        Ok(located) => located,
        Err(trouble) => {
            return Err(DispatchError::Path(trouble));
        },
    };
    if ignore_hidden && is_hidden_name(located.name.as_str()) {
        return Ok(None);
    }
    Ok(
        Some(
            UploadRequest { context: located.context, name: located.name, path: path.clone() },
        ),
    )
}

} // verus!
