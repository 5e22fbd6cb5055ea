//! The two upload variants: the webhook outcome classification and the
//! workspace three-step handshake.

use watchpost::upload::HttpOutcome;
use watchpost::upload::StepFailure;
use watchpost::upload::UploadError;
use watchpost::upload::webhook_outcome;
use watchpost::workspace::Handshake;
use watchpost::workspace::HandshakeStage;
use watchpost::workspace::UploadFileRequest;
use watchpost::workspace::WireEvent;
use watchpost::workspace::classify_wire;
use watchpost::workspace::failure_error;

fn sample_request() -> UploadFileRequest {
    UploadFileRequest {
        channel: String::from("C123"),
        filename: String::from("jan.csv"),
        path: String::from("/data/reports/jan.csv"),
    }
}

fn granted(upload_url: &str, file_id: &str) -> WireEvent {
    WireEvent::Enveloped {
        status: 200,
        ok: true,
        error: String::new(),
        upload_url: Some(String::from(upload_url)),
        file_id: Some(String::from(file_id)),
    }
}

#[test]
fn webhook_success_statuses_are_ok() {
    assert_eq!(webhook_outcome(HttpOutcome::Delivered(200)), Ok(()));
    assert_eq!(webhook_outcome(HttpOutcome::Delivered(204)), Ok(()));
    assert_eq!(webhook_outcome(HttpOutcome::Delivered(299)), Ok(()));
}

#[test]
fn webhook_server_error_is_an_http_status_error() {
    assert_eq!(
        webhook_outcome(HttpOutcome::Delivered(500)),
        Err(UploadError::HttpStatus(500)),
    );
    assert_eq!(
        webhook_outcome(HttpOutcome::Delivered(404)),
        Err(UploadError::HttpStatus(404)),
    );
    assert_eq!(
        webhook_outcome(HttpOutcome::Delivered(199)),
        Err(UploadError::HttpStatus(199)),
    );
}

#[test]
fn webhook_transport_failure_is_a_transport_error() {
    assert_eq!(webhook_outcome(HttpOutcome::Failed), Err(UploadError::Transport));
}

#[test]
fn handshake_begins_at_the_target_request() {
    let state = Handshake::begin(&sample_request(), 420);
    assert_eq!(state.channel, "C123");
    assert_eq!(state.filename, "jan.csv");
    assert_eq!(state.length, 420);
    assert_eq!(state.stage, HandshakeStage::RequestTarget);
}

#[test]
fn successful_handshake_walks_all_three_stages() {
    let state = Handshake::begin(&sample_request(), 420);
    let state = state.advance(granted("https://upload.example/u1", "F42")).unwrap();
    assert_eq!(
        state.stage,
        HandshakeStage::TransferBytes {
            upload_url: String::from("https://upload.example/u1"),
            file_id: String::from("F42"),
        },
    );
    let state = state.advance(WireEvent::Plain { status: 200 }).unwrap();
    assert_eq!(state.stage, HandshakeStage::FinalizeUpload { file_id: String::from("F42") });
    let state = state
        .advance(WireEvent::Enveloped {
            status: 200,
            ok: true,
            error: String::new(),
            upload_url: None,
            file_id: None,
        })
        .unwrap();
    assert_eq!(state.stage, HandshakeStage::Complete);
    assert_eq!(state.channel, "C123");
}

#[test]
fn rejected_finalize_is_a_partial_completion_with_the_service_message() {
    let state = Handshake::begin(&sample_request(), 420);
    let state = state.advance(granted("https://upload.example/u1", "F42")).unwrap();
    let state = state.advance(WireEvent::Plain { status: 200 }).unwrap();
    // The bytes are transferred; the finalize stage holds only the file
    // identifier, so nothing could be re-sent from here.
    assert_eq!(state.stage, HandshakeStage::FinalizeUpload { file_id: String::from("F42") });
    let trouble = state
        .advance(WireEvent::Enveloped {
            status: 200,
            ok: false,
            error: String::from("channel_not_found"),
            upload_url: None,
            file_id: None,
        })
        .unwrap_err();
    assert_eq!(
        trouble,
        UploadError::PartialCompletion(StepFailure::ServiceRejected(String::from(
            "channel_not_found",
        ))),
    );
}

#[test]
fn failed_target_request_is_not_a_partial_completion() {
    let state = Handshake::begin(&sample_request(), 420);
    let trouble = state.advance(WireEvent::Plain { status: 500 }).unwrap_err();
    assert_eq!(trouble, UploadError::HttpStatus(500));
}

#[test]
fn rejected_target_request_carries_the_service_message() {
    let state = Handshake::begin(&sample_request(), 420);
    let trouble = state
        .advance(WireEvent::Enveloped {
            status: 200,
            ok: false,
            error: String::from("invalid_auth"),
            upload_url: None,
            file_id: None,
        })
        .unwrap_err();
    assert_eq!(trouble, UploadError::ServiceRejected(String::from("invalid_auth")));
}

#[test]
fn target_grant_without_the_upload_url_is_a_transport_error() {
    let state = Handshake::begin(&sample_request(), 420);
    let trouble = state
        .advance(WireEvent::Enveloped {
            status: 200,
            ok: true,
            error: String::new(),
            upload_url: None,
            file_id: Some(String::from("F42")),
        })
        .unwrap_err();
    assert_eq!(trouble, UploadError::Transport);
}

#[test]
fn failed_transfer_reports_its_status() {
    let state = Handshake::begin(&sample_request(), 420);
    let state = state.advance(granted("https://upload.example/u1", "F42")).unwrap();
    let trouble = state.advance(WireEvent::Plain { status: 403 }).unwrap_err();
    assert_eq!(trouble, UploadError::HttpStatus(403));
}

#[test]
fn lost_transfer_response_is_a_transport_error() {
    let state = Handshake::begin(&sample_request(), 420);
    let state = state.advance(granted("https://upload.example/u1", "F42")).unwrap();
    let trouble = state.advance(WireEvent::NoResponse).unwrap_err();
    assert_eq!(trouble, UploadError::Transport);
}

#[test]
fn lost_finalize_response_is_still_a_partial_completion() {
    let state = Handshake::begin(&sample_request(), 420);
    let state = state.advance(granted("https://upload.example/u1", "F42")).unwrap();
    let state = state.advance(WireEvent::Plain { status: 200 }).unwrap();
    let trouble = state.advance(WireEvent::NoResponse).unwrap_err();
    assert_eq!(trouble, UploadError::PartialCompletion(StepFailure::Transport));
}

#[test]
fn classify_wire_reads_the_envelope() {
    assert_eq!(classify_wire(WireEvent::NoResponse, true), Err(StepFailure::Transport));
    assert_eq!(
        classify_wire(WireEvent::Plain { status: 200 }, true),
        Err(StepFailure::Transport),
    );
    assert_eq!(classify_wire(WireEvent::Plain { status: 200 }, false), Ok(()));
    assert_eq!(
        classify_wire(WireEvent::Plain { status: 502 }, false),
        Err(StepFailure::HttpStatus(502)),
    );
    assert_eq!(
        classify_wire(
            WireEvent::Enveloped {
                status: 200,
                ok: false,
                error: String::from("not_in_channel"),
                upload_url: None,
                file_id: None,
            },
            true,
        ),
        Err(StepFailure::ServiceRejected(String::from("not_in_channel"))),
    );
}

#[test]
fn failure_error_passes_the_failure_through() {
    assert_eq!(failure_error(StepFailure::Transport), UploadError::Transport);
    assert_eq!(failure_error(StepFailure::HttpStatus(429)), UploadError::HttpStatus(429));
    assert_eq!(
        failure_error(StepFailure::ServiceRejected(String::from("ratelimited"))),
        UploadError::ServiceRejected(String::from("ratelimited")),
    );
}
