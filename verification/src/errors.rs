use vstd::prelude::*;

verus! {

/// Which filesystem or socket operation an `IoFailure` came from, so that
/// startup errors carry context (read vs. write vs. mkdir) and per-connection
/// errors say which stage of the tunnel failed.
#[derive(Clone, Copy, PartialEq, Eq, Structural, Debug)]
pub enum IoContext {
    /// Reading the persisted secret-key file.
    ReadKey,
    /// Writing a freshly generated secret-key file.
    WriteKey,
    /// Creating the data directory that holds the key file.
    CreateDir,
    /// Waiting for a peer connection to become fully established.
    Establish,
    /// Accepting the peer's bidirectional stream.
    OpenStream,
    /// Copying bytes while a tunnel was forwarding.
    Forward,
}

/// The bridge's error taxonomy. Startup errors (`IoFailure` while loading the
/// identity, `EndpointBindFailure`) abort bridge startup; every per-connection
/// error (`HandshakeRejected`, `ConnectFailure`, forwarding I/O, `Cancelled`)
/// is confined to the one connection it arose on.
#[derive(Clone, Copy, PartialEq, Eq, Structural, Debug)]
pub enum BridgeError {
    /// Filesystem or local-socket I/O failed.
    IoFailure(IoContext),
    /// The persisted key file exists but is not exactly 32 bytes.
    CorruptIdentity,
    /// The network endpoint could not be created; fatal to bridge startup.
    EndpointBindFailure,
    /// A new stream's preamble was missing or wrong; fatal to that connection only.
    HandshakeRejected,
    /// The local TCP target could not be reached after a valid handshake.
    ConnectFailure,
    /// Forwarding was aborted by the cancellation signal; expected on shutdown.
    Cancelled,
}

} // verus!
