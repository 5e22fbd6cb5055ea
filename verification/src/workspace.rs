//! The token-authenticated workspace upload variant: a three-step
//! handshake — request an upload target, transfer the file's bytes to the
//! returned URL, then finalize the upload against the destination channel.
//!
//! The handshake is a state machine. The surrounding process performs one
//! remote call per stage and hands back what came over the wire as a plain
//! value; `advance` classifies it and moves to the next stage. A failure
//! during the finalize stage is reported as a partial completion: the
//! file's bytes are already on the remote side, and they are never sent a
//! second time.

use vstd::prelude::*;
use crate::upload::StepFailure;
use crate::upload::UploadError;
use crate::upload::status_success;

verus! {

/// A request to post a text message to a channel.
#[derive(Debug, Clone)]
pub struct PostMessageRequest {
    pub channel: String,
    pub text: String,
}

/// A request to upload a local file and attach it to a channel.
#[derive(Debug, Clone)]
pub struct UploadFileRequest {
    pub channel: String,
    pub filename: String,
    pub path: String,
}

/// What the process observed when it performed one remote call of the
/// handshake.
#[derive(Debug, Clone, PartialEq, Eq)]
pub enum WireEvent {
    /// The call never completed, or its body could not be read in the
    /// expected shape.
    NoResponse,
    /// The call completed with this status and no envelope was expected in
    /// the body (the byte-transfer step).
    Plain { status: u16 },
    /// The call completed with this status and the service's response
    /// envelope: the `ok` flag, the service's error message (empty when the
    /// envelope gave none), and the upload-target fields when present.
    Enveloped {
        status: u16,
        ok: bool,
        error: String,
        upload_url: Option<String>,
        file_id: Option<String>,
    },
}

/// Where the handshake stands, with the data the next remote call needs.
#[derive(Debug, Clone, PartialEq, Eq)]
pub enum HandshakeStage {
    /// Step one pending: ask the service for an upload URL and a file
    /// identifier, posting the filename and byte length.
    RequestTarget,
    /// Step two pending: stream the file's bytes to the granted URL.
    TransferBytes { upload_url: String, file_id: String },
    /// Step three pending: mark the upload complete and attach it to the
    /// destination channel.
    FinalizeUpload { file_id: String },
    /// All three steps succeeded.
    Complete,
}

/// The state of one workspace upload: the fixed request data and the
/// current stage.
#[derive(Debug, Clone)]
pub struct Handshake {
    pub channel: String,
    pub filename: String,
    pub length: u64,
    pub stage: HandshakeStage,
}

/// The stages whose response carries the service's envelope; the
/// byte-transfer step answers with a bare status.
pub open spec fn expects_envelope(stage: HandshakeStage) -> bool {
    stage is RequestTarget || stage is FinalizeUpload
}

/// How one wire event fails, if it does: no usable response is a transport
/// failure, a non-success status is reported as such, and an envelope whose
/// `ok` flag is false is a service rejection carrying the service's
/// message. A bare status where an envelope was expected cannot be read, so
/// it too is a transport failure.
pub open spec fn step_failure(wire: WireEvent, needs_envelope: bool) -> Option<StepFailure> {
    match wire {
        WireEvent::NoResponse => Some(StepFailure::Transport),
        WireEvent::Plain { status } => if !status_success(status) {
            Some(StepFailure::HttpStatus(status))
        } else if needs_envelope {
            Some(StepFailure::Transport)
        } else {
            None
        },
        WireEvent::Enveloped { status, ok, error, .. } => if !status_success(status) {
            Some(StepFailure::HttpStatus(status))
        } else if !ok {
            Some(StepFailure::ServiceRejected(error))
        } else {
            None
        },
    }
}

/// A step failure as the upload's error, outside the finalize stage: the
/// failure passes through unchanged.
pub open spec fn plain_error(failure: StepFailure) -> UploadError {
    match failure {
        StepFailure::Transport => UploadError::Transport,
        StepFailure::HttpStatus(status) => UploadError::HttpStatus(status),
        StepFailure::ServiceRejected(message) => UploadError::ServiceRejected(message),
    }
}

/// How a step's failure surfaces as the upload's error: during the finalize
/// stage the bytes are already transferred, so the failure is wrapped as a
/// partial completion; before that it passes through unchanged.
pub open spec fn stage_error(stage: HandshakeStage, failure: StepFailure) -> UploadError {
    if stage is FinalizeUpload {
        UploadError::PartialCompletion(failure)
    } else {
        plain_error(failure)
    }
}

/// Classifies one wire event on its own, as `step_failure` states: the
/// single-call variant of the per-stage classification, for remote calls
/// that stand outside the handshake (such as posting a plain message).
pub fn classify_wire(wire: WireEvent, needs_envelope: bool) -> (verdict: Result<(), StepFailure>)
    ensures
        verdict is Ok <==> step_failure(wire, needs_envelope) is None,
        verdict matches Err(failure) ==> step_failure(wire, needs_envelope) == Some(failure),
{
    match wire {
        WireEvent::NoResponse => Err(StepFailure::Transport),
        WireEvent::Plain { status } => {
            if !(200 <= status && status < 300) {
                Err(StepFailure::HttpStatus(status))
            } else if needs_envelope {
                Err(StepFailure::Transport)
            } else {
                Ok(())
            }
        },
        WireEvent::Enveloped { status, ok, error, .. } => {
            if !(200 <= status && status < 300) {
                Err(StepFailure::HttpStatus(status))
            } else if !ok {
                Err(StepFailure::ServiceRejected(error))
            } else {
                Ok(())
            }
        },
    }
}

/// Turns a step failure into the upload's error for a call made outside
/// the finalize stage, exactly as `plain_error` states.
pub fn failure_error(failure: StepFailure) -> (error: UploadError)
    ensures
        error == plain_error(failure),
{
    match failure {
        StepFailure::Transport => UploadError::Transport,
        StepFailure::HttpStatus(status) => UploadError::HttpStatus(status),
        StepFailure::ServiceRejected(message) => UploadError::ServiceRejected(message),
    }
}

/// The handshake's transition relation: what `advance` returns for a given
/// state and wire event.
pub open spec fn next_handshake(state: Handshake, wire: WireEvent) -> Result<
    Handshake,
    UploadError,
> {
    match step_failure(wire, expects_envelope(state.stage)) {
        Some(failure) => Err(stage_error(state.stage, failure)),
        None => match state.stage {
            HandshakeStage::RequestTarget => match wire {
                WireEvent::Enveloped { upload_url, file_id, .. } => if upload_url is Some
                    && file_id is Some {
                    Ok(
                        Handshake {
                            stage: HandshakeStage::TransferBytes {
                                upload_url: upload_url.unwrap(),
                                file_id: file_id.unwrap(),
                            },
                            ..state
                        },
                    )
                } else {
                    // A success envelope without the granted target is not
                    // of the expected shape.
                    Err(UploadError::Transport)
                },
                _ => Err(UploadError::Transport),
            },
            HandshakeStage::TransferBytes { upload_url, file_id } => Ok(
                Handshake { stage: HandshakeStage::FinalizeUpload { file_id }, ..state },
            ),
            HandshakeStage::FinalizeUpload { file_id } => Ok(
                Handshake { stage: HandshakeStage::Complete, ..state },
            ),
            HandshakeStage::Complete => Err(UploadError::Transport),
        },
    }
}

impl Handshake {
    /// Starts the handshake for one upload request, given the byte length
    /// of the local file.
    pub fn begin(request: &UploadFileRequest, length: u64) -> (state: Handshake)
        ensures
            state.channel@ == request.channel@,
            state.filename@ == request.filename@,
            state.length == length,
            state.stage is RequestTarget,
    {
        Handshake {
            channel: request.channel.clone(),
            filename: request.filename.clone(),
            length,
            stage: HandshakeStage::RequestTarget,
        }
    }

    /// Consumes what the wire brought back for the pending stage and moves
    /// the handshake forward, exactly as `next_handshake` states.
    pub fn advance(self, wire: WireEvent) -> (next: Result<Handshake, UploadError>)
        requires
            !(self.stage is Complete),
        ensures
            next == next_handshake(self, wire),
    {
        let needs_envelope = match &self.stage {
            HandshakeStage::RequestTarget => true,
            HandshakeStage::FinalizeUpload { .. } => true,
            _ => false,
        };
        let at_finalize = match &self.stage {
            HandshakeStage::FinalizeUpload { .. } => true,
            _ => false,
        };
        let failure: Option<StepFailure> = match &wire {
            WireEvent::NoResponse => Some(StepFailure::Transport),
            WireEvent::Plain { status } => {
                if !(200 <= *status && *status < 300) {
                    Some(StepFailure::HttpStatus(*status))
                } else if needs_envelope {
                    Some(StepFailure::Transport)
                } else {
                    None
                }
            },
            WireEvent::Enveloped { status, ok, error, .. } => {
                if !(200 <= *status && *status < 300) {
                    Some(StepFailure::HttpStatus(*status))
                } else if !*ok {
                    Some(StepFailure::ServiceRejected(error.clone()))
                } else {
                    None
                }
            },
        };
        match failure {
            Some(step) => {
                if at_finalize {
                    Err(UploadError::PartialCompletion(step))
                } else {
                    Err(
                        match step {
                            StepFailure::Transport => UploadError::Transport,
                            StepFailure::HttpStatus(status) => UploadError::HttpStatus(status),
                            StepFailure::ServiceRejected(message) => UploadError::ServiceRejected(
                                message,
                            ),
                        },
                    )
                }
            },
            None => match self.stage {
                HandshakeStage::RequestTarget => match wire {
                    WireEvent::Enveloped { upload_url, file_id, .. } => match (
                        upload_url,
                        file_id,
                    ) {
                        (Some(granted_url), Some(granted_id)) => Ok(
                            Handshake {
                                stage: HandshakeStage::TransferBytes {
                                    upload_url: granted_url,
                                    file_id: granted_id,
                                },
                                ..self
                            },
                        ),
                        _ => Err(UploadError::Transport),
                    },
                    _ => Err(UploadError::Transport),
                },
                HandshakeStage::TransferBytes { upload_url: _, file_id } => Ok(
                    Handshake { stage: HandshakeStage::FinalizeUpload { file_id }, ..self },
                ),
                HandshakeStage::FinalizeUpload { file_id: _ } => Ok(
                    Handshake { stage: HandshakeStage::Complete, ..self },
                ),
                HandshakeStage::Complete => Err(UploadError::Transport),
            },
        }
    }
}

/// Once the bytes are transferred, a failing finalize step surfaces as a
/// partial completion carrying that step's failure, and a succeeding one
/// completes the handshake: from the finalize stage the handshake never
/// returns to the transfer stage, so the file's bytes are sent only once.
pub proof fn lemma_finalize_never_retransfers(state: Handshake, wire: WireEvent)
    requires
        state.stage is FinalizeUpload,
    ensures
        step_failure(wire, true) matches Some(failure) ==> next_handshake(state, wire) == Err::<
            Handshake,
            UploadError,
        >(UploadError::PartialCompletion(failure)),
        next_handshake(state, wire) matches Ok(next) ==> next.stage is Complete,
{
}

/// The handshake walks its stages strictly forward: a successful step moves
/// from requesting the target to transferring the bytes, from transferring
/// to finalizing — keeping the granted file identifier — and from
/// finalizing to completion, while the request data never changes.
pub proof fn lemma_handshake_advances(state: Handshake, wire: WireEvent)
    ensures
        next_handshake(state, wire) matches Ok(next) ==> {
            &&& next.channel == state.channel
            &&& next.filename == state.filename
            &&& next.length == state.length
            &&& (state.stage is RequestTarget ==> next.stage is TransferBytes)
            &&& (state.stage matches HandshakeStage::TransferBytes { file_id, .. } ==> next.stage
                == (HandshakeStage::FinalizeUpload { file_id }))
            &&& (state.stage is FinalizeUpload ==> next.stage is Complete)
            &&& !(state.stage is Complete)
        },
{
}

/// A failure before the finalize stage is never reported as a partial
/// completion: partial completion is reserved for the one state in which
/// the bytes are already on the remote side.
pub proof fn lemma_partial_only_after_transfer(state: Handshake, wire: WireEvent)
    requires
        !(state.stage is FinalizeUpload),
    ensures
        !(next_handshake(state, wire) matches Err(UploadError::PartialCompletion(failure))),
{
}

} // verus!
