//! The probe task model: one route-existence query per node.
//!
//! A probe builds a fresh request for its node, opens a session, issues the
//! query and reduces whatever came back to a boolean verdict. The network
//! round trip itself happens outside the library; the request construction
//! and the reduction of every possible outcome are verified here, so the
//! verdict is pinned down for each value the transport can hand back.

use crate::errors::ConnectionError;
use vstd::prelude::*;

verus! {

/// A participant in the payment-routing network graph. Immutable once
/// fetched; identifiers are unique within one graph snapshot.
#[derive(Clone, Debug, PartialEq, Eq)]
pub struct NetworkNode {
    /// The node's unique public identifier (a public-key-like string).
    pub pub_key: String,
    /// Display metadata; carries no meaning for probing.
    pub alias: String,
}

/// One route-existence query, constructed fresh per task.
#[derive(Clone, Debug, PartialEq, Eq)]
pub struct ProbeRequest {
    /// The target node's identifier.
    pub pub_key: String,
    /// The payment amount, in the smallest currency unit; constant across
    /// all tasks of one run.
    pub amt: i64,
    /// How many routes to ask for: always one, since a single route
    /// witnesses reachability.
    pub num_routes: i32,
}

/// The outcome of one route query as the transport reports it. A found route
/// keeps its payload (hop count, fee) so that richer reporting needs no
/// re-plumbing; the projection to a plain boolean happens only at the
/// aggregation boundary.
#[derive(Clone, Copy, Debug, PartialEq, Eq, Structural)]
pub enum RouteOutcome {
    /// The remote endpoint found at least one route of the requested amount.
    RouteFound { hops: u32, total_fees: i64 },
    /// The remote endpoint answered that no route exists.
    RouteNotFound,
    /// An error response, a transport failure, or a timeout.
    RpcError,
}

/// Whether an outcome witnesses reachability. Every failure mode collapses
/// to `false`: the run deliberately does not distinguish "provably
/// unreachable" from "could not determine".
pub open spec fn outcome_reachable_spec(o: RouteOutcome) -> bool {
    o is RouteFound
}

/// Builds the request for probing `node` with `amount`, asking for a single
/// route.
pub fn build_probe_request(node: &NetworkNode, amount: i64) -> (req: ProbeRequest)
    ensures
        req.pub_key@ == node.pub_key@,
        req.amt == amount,
        req.num_routes == 1,
{
    ProbeRequest { pub_key: node.pub_key.clone(), amt: amount, num_routes: 1 }
}

/// Projects one query outcome to its boolean verdict.
pub fn outcome_reachable(o: &RouteOutcome) -> (r: bool)
    ensures
        r == outcome_reachable_spec(*o),
{
    match o {
        RouteOutcome::RouteFound { .. } => true,
        RouteOutcome::RouteNotFound => false,
        RouteOutcome::RpcError => false,
    }
}

/// The verdict of one whole probe: a session that could not be opened counts
/// the node as unreachable, exactly like a failed query; only a found route
/// counts it as reachable. This never raises — the probe path absorbs every
/// failure into `false`.
pub fn probe_verdict(round_trip: &Result<RouteOutcome, ConnectionError>) -> (r: bool)
    ensures
        r == (round_trip matches Ok(o) && outcome_reachable_spec(*o)),
{
    match round_trip {
        Ok(o) => outcome_reachable(o),
        Err(_) => false,
    }
}

/// The result of probing one node: exactly one is produced per input node.
#[derive(Clone, Debug, PartialEq, Eq)]
pub struct ProbeResult {
    /// The probed node's identifier.
    pub pub_key: String,
    /// The probe's verdict for that node.
    pub reachable: bool,
}

/// Pairs a node with the verdict of its completed round trip.
pub fn probe_result(node: &NetworkNode, round_trip: &Result<RouteOutcome, ConnectionError>) -> (r:
    ProbeResult)
    ensures
        r.pub_key@ == node.pub_key@,
        r.reachable == (round_trip matches Ok(o) && outcome_reachable_spec(*o)),
{
    ProbeResult { pub_key: node.pub_key.clone(), reachable: probe_verdict(round_trip) }
}

} // verus!
