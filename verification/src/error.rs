//! Errors of the session controller.
//!
//! Every per-operation failure is returned to the caller for display;
//! only the absence of any adapter at startup is fatal by design. No
//! operation retries on its own: re-issuing the command is the caller's
//! responsibility.

use vstd::prelude::*;
use crate::model::ConnectRequest;

verus! {

/// Everything a session operation can report as a failure. Variants
/// carry what the caller needs to name the failure when displaying it.
#[derive(Debug)]
pub enum BleError {
    /// No local radio exists; no operation is possible without one.
    AdapterUnavailable,
    /// The adapter failed a hardware query; the message passes through.
    AdapterQueryFailure(String),
    /// No visible peripheral matched the connect request, or the
    /// request did not supply exactly one identifier kind. The request
    /// itself is carried so the caller can name what was asked for.
    PeripheralNotFound(ConnectRequest),
    /// No characteristic with this UUID exists on any currently
    /// connected peripheral.
    CharacteristicNotFound(String),
    /// The hardware rejected a connection; the reason passes through.
    ConnectFailure(String),
    /// Service or characteristic discovery failed after connecting.
    DiscoveryFailure(String),
    /// An operation that needs a connected peripheral found none.
    NoConnectedPeripheral,
}

} // verus!
