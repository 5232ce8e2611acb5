use vstd::prelude::*;
use crate::bridge::IrohBridge;
use crate::errors::BridgeError;

verus! {

/// Status report for the bridge, as handed to the thin command layer outside
/// this library: whether a bridge is running, and if so its ticket and node
/// identifier.
pub struct IrohBridgeStatus {
    pub enabled: bool,
    pub ticket: Option<String>,
    pub node_id: Option<String>,
}

/// The current status of the bridge: disabled with no data when no bridge
/// runs, else enabled with exactly the running bridge's ticket and node
/// identifier.
pub fn get_iroh_status(bridge: Option<&IrohBridge>) -> (r: IrohBridgeStatus)
    ensures
        match bridge {
            Some(b) => {
                &&& r.enabled
                &&& r.ticket is Some && r.ticket->Some_0@ == b.ticket_spec()
                &&& r.node_id is Some && r.node_id->Some_0@ == b.node_id_spec()
            },
            None => !r.enabled && r.ticket is None && r.node_id is None,
        },
{
    match bridge {
        Some(b) => IrohBridgeStatus {
            enabled: true,
            ticket: Some(b.ticket().to_string()),
            node_id: Some(b.node_id().to_string()),
        },
        None => IrohBridgeStatus { enabled: false, ticket: None, node_id: None },
    }
}

/// Just the connection ticket: `None` when no bridge runs, else exactly the
/// running bridge's ticket.
pub fn get_iroh_ticket(bridge: Option<&IrohBridge>) -> (r: Option<String>)
    ensures
        match bridge {
            Some(b) => r is Some && r->Some_0@ == b.ticket_spec(),
            None => r is None,
        },
{
    match bridge {
        Some(b) => Some(b.ticket().to_string()),
        None => None,
    }
}

/// Install a freshly started bridge in the command layer's slot. When a
/// bridge already runs, the new handle is refused and handed back unchanged,
/// and the running bridge is untouched; otherwise the slot takes the handle.
pub fn start_iroh_bridge(slot: &mut Option<IrohBridge>, bridge: IrohBridge) -> (r: Result<
    (),
    IrohBridge,
>)
    ensures
        *old(slot) is None ==> (r is Ok && *final(slot) is Some && (*final(slot))->Some_0
            == bridge),
        *old(slot) is Some ==> (r is Err && *final(slot) == *old(slot) && r->Err_0 == bridge),
{
    if slot.is_some() {
        Err(bridge)
    } else {
        *slot = Some(bridge);
        Ok(())
    }
}

/// Stop the bridge, if one runs: take it out of the slot — so no handle is
/// left to signal twice — and consume its shutdown signal. Stopping when none
/// runs, like stopping twice, is a no-op; either way the slot ends empty and
/// the call succeeds. The caller closes the endpoint afterwards.
pub fn stop_iroh_bridge(slot: &mut Option<IrohBridge>) -> (r: Result<(), BridgeError>)
    ensures
        r is Ok,
        *final(slot) is None,
{
    match slot.take() {
        Some(mut bridge) => bridge.shutdown(),
        None => Ok(()),
    }
}

} // verus!
