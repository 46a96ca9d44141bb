//! The error taxonomy of a probing run.
//!
//! Fatal classes occur before any probing and abort the whole run; per-probe
//! classes are absorbed into the boolean result space and never abort. The
//! zero-node `DivisionError` lives with the aggregator in `report`.

use vstd::prelude::*;

verus! {

/// Failure to build an authenticated session for one RPC round trip:
/// malformed address, handshake failure, or credential rejection. Fatal at
/// startup validation; during probing it only degrades the one probe.
#[derive(Clone, Copy, Debug, PartialEq, Eq, Structural)]
pub struct ConnectionError;

/// A fatal startup failure: the run aborts before the dispatcher starts.
#[derive(Clone, Copy, Debug, PartialEq, Eq, Structural)]
pub enum SetupError {
    /// the transport certificate could not be loaded or parsed
    Certificate,
    /// the access credential could not be loaded or parsed
    Credential,
    /// the startup validation session could not be established
    Connection,
}

} // verus!
