use vstd::prelude::*;
use crate::errors::BridgeError;

verus! {

/// Declaration of `tokio::sync::oneshot::Sender`, the consume-once shutdown
/// signal slot the bridge holds.
#[verifier::external_type_specification]
#[verifier::external_body]
#[verifier::reject_recursive_types(T)]
pub struct ExOneshotSender<T>(tokio::sync::oneshot::Sender<T>);

/// Declaration of `tokio::sync::oneshot::Receiver`, the end the accept loop
/// races against incoming connections.
#[verifier::external_type_specification]
#[verifier::external_body]
#[verifier::reject_recursive_types(T)]
pub struct ExOneshotReceiver<T>(tokio::sync::oneshot::Receiver<T>);

/// Declaration of `tokio::sync::oneshot::error::RecvError`, the error a
/// receiver reports when its sender was dropped; it appears in the
/// receiver's own interface.
#[verifier::external_type_specification]
#[verifier::external_body]
pub struct ExOneshotRecvError(tokio::sync::oneshot::error::RecvError);

/// Relies on `tokio::sync::oneshot::channel`: makes a fresh connected
/// sender/receiver pair.
#[verifier::external_body]
fn shutdown_channel() -> (tokio::sync::oneshot::Sender<()>, tokio::sync::oneshot::Receiver<()>) {
    tokio::sync::oneshot::channel()
}

/// Relies on `tokio::sync::oneshot::Sender::send`: delivers the unit signal
/// if the receiver still listens, and consumes the sender either way.
#[verifier::external_body]
fn send_shutdown_signal(tx: tokio::sync::oneshot::Sender<()>) {
    let _ = tx.send(());
}

/// The long-lived handle for one running tunnel endpoint: the shareable
/// connection ticket, the endpoint's public identifier, and the one-shot
/// shutdown signal, which is consumed by the first `shutdown` call.
pub struct IrohBridge {
    ticket: String,
    node_id: String,
    shutdown_tx: Option<tokio::sync::oneshot::Sender<()>>,
}

impl IrohBridge {
    /// The connection ticket this handle was started with.
    pub closed spec fn ticket_spec(&self) -> Seq<char> {
        self.ticket@
    }

    /// The public node identifier this handle was started with.
    pub closed spec fn node_id_spec(&self) -> Seq<char> {
        self.node_id@
    }

    /// Whether the shutdown signal has not yet been consumed.
    pub closed spec fn shutdown_armed(&self) -> bool {
        self.shutdown_tx is Some
    }

    /// Get the connection ticket string.
    pub fn ticket(&self) -> (r: &str)
        ensures
            r@ == self.ticket_spec(),
    {
        self.ticket.as_str()
    }

    /// Get the node identifier string.
    pub fn node_id(&self) -> (r: &str)
        ensures
            r@ == self.node_id_spec(),
    {
        self.node_id.as_str()
    }

    /// Signal the accept loop to stop. The first call consumes the one-shot
    /// sender; any later call finds the slot empty and does nothing, so a
    /// second shutdown is a no-op and never an error. The ticket and node
    /// identifier are untouched. The caller closes the endpoint afterwards.
    pub fn shutdown(&mut self) -> (r: Result<(), BridgeError>)
        ensures
            r is Ok,
            !final(self).shutdown_armed(),
            final(self).ticket_spec() == old(self).ticket_spec(),
            final(self).node_id_spec() == old(self).node_id_spec(),
    {
        match self.shutdown_tx.take() {
            Some(tx) => send_shutdown_signal(tx),
            None => (),
        }
        Ok(())
    }
}

/// Build the bridge handle for one started endpoint: remember the ticket and
/// node identifier, arm the shutdown slot, and hand back the receiver the
/// accept loop must race against incoming connections.
pub fn start_bridge(ticket: String, node_id: String) -> (r: (
    IrohBridge,
    tokio::sync::oneshot::Receiver<()>,
))
    ensures
        r.0.ticket_spec() == ticket@,
        r.0.node_id_spec() == node_id@,
        r.0.shutdown_armed(),
{
    let (tx, rx) = shutdown_channel();
    let bridge = IrohBridge { ticket, node_id, shutdown_tx: Some(tx) };
    (bridge, rx)
}

} // verus!
