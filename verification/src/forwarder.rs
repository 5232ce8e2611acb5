use vstd::prelude::*;
use crate::errors::{BridgeError, IoContext};

verus! {

/// How the copy operation of one forwarding direction ended: the byte copy
/// ran to end-of-stream, it failed with an I/O error, or the shared
/// cancellation signal fired first.
#[derive(Clone, Copy, PartialEq, Eq, Structural, Debug)]
pub enum CopyEnd {
    /// End-of-stream was reached after moving this many bytes.
    Done(u64),
    /// The copy (or the final close of the remote write side) failed.
    Failed,
    /// The shared cancellation signal fired before the copy finished.
    Cancelled,
}

/// The signal a finished direction sends on the remote stream, so the peer
/// observes the right kind of termination.
#[derive(Clone, Copy, PartialEq, Eq, Structural, Debug)]
pub enum RemoteSignal {
    /// Finalize the remote write side: the peer sees clean termination.
    FinishSend,
    /// Reset the remote write side abruptly.
    ResetSend,
    /// Stop the remote read side.
    StopRecv,
    /// Nothing; the streams end when the sockets do.
    NoSignal,
}

/// What the local-to-remote direction does with its copy's end.
pub open spec fn copy_to_quinn_spec(end: CopyEnd) -> (RemoteSignal, Result<u64, BridgeError>) {
    match end {
        CopyEnd::Done(n) => (RemoteSignal::FinishSend, Ok(n)),
        CopyEnd::Failed => (RemoteSignal::NoSignal, Err(BridgeError::IoFailure(IoContext::Forward))),
        CopyEnd::Cancelled => (RemoteSignal::ResetSend, Err(BridgeError::Cancelled)),
    }
}

/// What the remote-to-local direction does with its copy's end.
pub open spec fn copy_from_quinn_spec(end: CopyEnd) -> (RemoteSignal, Result<u64, BridgeError>) {
    match end {
        CopyEnd::Done(n) => (RemoteSignal::NoSignal, Ok(n)),
        CopyEnd::Failed => (RemoteSignal::NoSignal, Err(BridgeError::IoFailure(IoContext::Forward))),
        CopyEnd::Cancelled => (RemoteSignal::StopRecv, Err(BridgeError::Cancelled)),
    }
}

/// The direction that copies bytes from the local TCP socket to the remote
/// stream: on completion the remote write side is finalized so the peer sees
/// clean termination and the byte count is returned; on cancellation the
/// remote write side is reset abruptly and the result is `Cancelled`; an I/O
/// failure is reported as a forwarding `IoFailure`.
pub fn copy_to_quinn(end: CopyEnd) -> (r: (RemoteSignal, Result<u64, BridgeError>))
    ensures
        r == copy_to_quinn_spec(end),
        r.1 is Ok <==> end is Done,
{
    match end {
        CopyEnd::Done(n) => (RemoteSignal::FinishSend, Ok(n)),
        CopyEnd::Failed => (RemoteSignal::NoSignal, Err(BridgeError::IoFailure(IoContext::Forward))),
        CopyEnd::Cancelled => (RemoteSignal::ResetSend, Err(BridgeError::Cancelled)),
    }
}

/// The direction that copies bytes from the remote stream to the local TCP
/// socket: on completion the byte count is returned and nothing more is
/// signalled; on cancellation a stop is sent on the remote read side and the
/// result is `Cancelled`; an I/O failure is reported as a forwarding
/// `IoFailure`.
pub fn copy_from_quinn(end: CopyEnd) -> (r: (RemoteSignal, Result<u64, BridgeError>))
    ensures
        r == copy_from_quinn_spec(end),
        r.1 is Ok <==> end is Done,
{
    match end {
        CopyEnd::Done(n) => (RemoteSignal::NoSignal, Ok(n)),
        CopyEnd::Failed => (RemoteSignal::NoSignal, Err(BridgeError::IoFailure(IoContext::Forward))),
        CopyEnd::Cancelled => (RemoteSignal::StopRecv, Err(BridgeError::Cancelled)),
    }
}

/// Whether a finished direction must cancel the shared token: exactly when it
/// ended in an error, so the other direction aborts promptly instead of
/// blocking forever on a half-open stream.
pub fn cancel_token(result: &Result<u64, BridgeError>) -> (cancel: bool)
    ensures
        cancel <==> result is Err,
{
    result.is_err()
}

/// Bidirectional Forwarder: the whole forward returns only after both
/// directions have terminated, and a failure of either direction is logged,
/// never escalated — the per-connection task simply ends. So whatever the two
/// directions report, the forward itself succeeds.
pub fn forward_bidi(
    to_remote: Result<u64, BridgeError>,
    from_remote: Result<u64, BridgeError>,
) -> (r: Result<(), BridgeError>)
    ensures
        r is Ok,
{
    let _ = to_remote;
    let _ = from_remote;
    Ok(())
}

/// Law: cancellation terminates both directions. When the shared signal fires
/// while both copies are in flight, each direction ends with `Cancelled` —
/// neither hangs on its stream — the remote write side is reset, the remote
/// read side is stopped, and the bridge treats the forward as drained, not as
/// a fault.
pub proof fn lemma_cancellation_terminates_both()
    ensures
        copy_to_quinn_spec(CopyEnd::Cancelled) == (
            RemoteSignal::ResetSend,
            Err::<u64, BridgeError>(BridgeError::Cancelled),
        ),
        copy_from_quinn_spec(CopyEnd::Cancelled) == (
            RemoteSignal::StopRecv,
            Err::<u64, BridgeError>(BridgeError::Cancelled),
        ),
{
}

} // verus!
