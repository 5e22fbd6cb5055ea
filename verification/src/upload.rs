//! The unit of upload work and the shared error taxonomy of the two upload
//! variants, together with the webhook variant's outcome classification.
//!
//! The crate never performs an HTTP call itself: the surrounding process
//! delivers the request and reports what it observed as a plain value,
//! which is classified here.

use vstd::prelude::*;

verus! {

/// One eligible file to upload: the routing context (relative folder under
/// the watched root, possibly empty), the filename, and the absolute source
/// path to read the bytes from.
#[derive(Debug, Clone)]
pub struct UploadRequest {
    pub context: String,
    pub name: String,
    pub path: String,
}

/// How a single remote call failed.
#[derive(Debug, Clone, PartialEq, Eq)]
pub enum StepFailure {
    /// The transport failed, or the response body was not of the expected
    /// shape.
    Transport,
    /// The call completed with a non-success HTTP status.
    HttpStatus(u16),
    /// The service's response envelope reported failure; carries the
    /// service's message (empty when the envelope gave none).
    ServiceRejected(String),
}

/// Why an upload failed as a whole.
#[derive(Debug, Clone, PartialEq, Eq)]
pub enum UploadError {
    /// The transport failed, or a response body was not of the expected
    /// shape.
    Transport,
    /// A call completed with a non-success HTTP status.
    HttpStatus(u16),
    /// The service rejected the request; carries the service's message.
    ServiceRejected(String),
    /// The finalize step of the workspace handshake failed after the file's
    /// bytes had already been transferred: the remote state is inconsistent
    /// and the underlying failure is carried along.
    PartialCompletion(StepFailure),
}

/// An HTTP status in the success range.
pub open spec fn status_success(status: u16) -> bool {
    200 <= status < 300
}

/// What the process observed when it performed the single webhook delivery.
#[derive(Debug, Clone, PartialEq, Eq)]
pub enum HttpOutcome {
    /// The request never completed: connection, serialization or read
    /// failure.
    Failed,
    /// The request completed with this HTTP status.
    Delivered(u16),
}

/// Classifies the outcome of the webhook variant's single POST: success
/// exactly on a delivered success status, a transport error when the call
/// never completed, and the offending status otherwise. No retry is implied.
pub fn webhook_outcome(outcome: HttpOutcome) -> (verdict: Result<(), UploadError>)
    ensures
        verdict is Ok <==> (outcome matches HttpOutcome::Delivered(s) && status_success(s)),
        outcome is Failed ==> verdict == Err::<(), UploadError>(UploadError::Transport),
        outcome matches HttpOutcome::Delivered(s) ==> verdict == (if status_success(s) {
            Ok::<(), UploadError>(())
        } else {
            Err::<(), UploadError>(UploadError::HttpStatus(s))
        }),
{
    match outcome {
        HttpOutcome::Failed => Err(UploadError::Transport),
        HttpOutcome::Delivered(status) => {
            if 200 <= status && status < 300 {
                Ok(())
            } else {
                Err(UploadError::HttpStatus(status))
            }
        },
    }
}

} // verus!
