use iroh_bridge::errors::{BridgeError, IoContext};
use iroh_bridge::forwarder::{
    cancel_token, copy_from_quinn, copy_to_quinn, forward_bidi, CopyEnd, RemoteSignal,
};

#[test]
fn completed_upload_finishes_remote_stream() {
    let (signal, result) = copy_to_quinn(CopyEnd::Done(42));
    assert_eq!(signal, RemoteSignal::FinishSend);
    assert_eq!(result.unwrap(), 42);
}

#[test]
fn cancelled_upload_resets_remote_stream() {
    let (signal, result) = copy_to_quinn(CopyEnd::Cancelled);
    assert_eq!(signal, RemoteSignal::ResetSend);
    assert_eq!(result.unwrap_err(), BridgeError::Cancelled);
}

#[test]
fn failed_upload_reports_forward_failure() {
    let (signal, result) = copy_to_quinn(CopyEnd::Failed);
    assert_eq!(signal, RemoteSignal::NoSignal);
    assert_eq!(
        result.unwrap_err(),
        BridgeError::IoFailure(IoContext::Forward)
    );
}

#[test]
fn completed_download_just_returns_count() {
    let (signal, result) = copy_from_quinn(CopyEnd::Done(7));
    assert_eq!(signal, RemoteSignal::NoSignal);
    assert_eq!(result.unwrap(), 7);
}

#[test]
fn cancelled_download_stops_remote_stream() {
    let (signal, result) = copy_from_quinn(CopyEnd::Cancelled);
    assert_eq!(signal, RemoteSignal::StopRecv);
    assert_eq!(result.unwrap_err(), BridgeError::Cancelled);
}

#[test]
fn failed_download_reports_forward_failure() {
    let (signal, result) = copy_from_quinn(CopyEnd::Failed);
    assert_eq!(signal, RemoteSignal::NoSignal);
    assert_eq!(
        result.unwrap_err(),
        BridgeError::IoFailure(IoContext::Forward)
    );
}

#[test]
fn any_error_cancels_the_shared_token() {
    let ok: Result<u64, BridgeError> = Ok(1);
    let cancelled: Result<u64, BridgeError> = Err(BridgeError::Cancelled);
    let failed: Result<u64, BridgeError> = Err(BridgeError::IoFailure(IoContext::Forward));
    assert!(!cancel_token(&ok));
    assert!(cancel_token(&cancelled));
    assert!(cancel_token(&failed));
}

#[test]
fn forwarder_never_escalates_direction_failures() {
    let ends = [
        CopyEnd::Done(3),
        CopyEnd::Failed,
        CopyEnd::Cancelled,
    ];
    for up in ends {
        for down in ends {
            let (_, up_result) = copy_to_quinn(up);
            let (_, down_result) = copy_from_quinn(down);
            assert!(forward_bidi(up_result, down_result).is_ok());
        }
    }
}
