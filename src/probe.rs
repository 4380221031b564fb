use vstd::prelude::*;

use crate::identity::BackendIdentity;
use crate::registry::ProcessDescriptor;

verus! {

/// Whether a backend instance answered a liveness check.
#[derive(Clone, Copy, Debug, PartialEq, Eq, Structural)]
pub enum Liveness {
    Alive,
    Unreachable,
}

/// What a bounded network request to the health-check endpoint came back with.
#[derive(Clone, Copy, Debug, PartialEq, Eq, Structural)]
pub enum ProbeResponse {
    /// The endpoint answered with this HTTP status code.
    Status(u16),
    /// The connection was refused.
    Refused,
    /// No answer came within the bounded timeout.
    TimedOut,
}

/// A status code in the success class (200 to 299).
pub open spec fn is_success_status(code: u16) -> bool {
    200 <= code && code < 300
}

/// The liveness that a network probe's response stands for: only a successful
/// answer means the backend is alive; refusal and timeout never escalate.
pub open spec fn response_liveness(r: ProbeResponse) -> Liveness {
    match r {
        ProbeResponse::Status(code) => if is_success_status(code) {
            Liveness::Alive
        } else {
            Liveness::Unreachable
        },
        _ => Liveness::Unreachable,
    }
}

/// Classifies the outcome of a network probe.
pub fn classify_response(r: ProbeResponse) -> (l: Liveness)
    ensures
        l == response_liveness(r),
{
    match r {
        ProbeResponse::Status(code) => if 200 <= code && code < 300 {
            Liveness::Alive
        } else {
            Liveness::Unreachable
        },
        ProbeResponse::Refused => Liveness::Unreachable,
        ProbeResponse::TimedOut => Liveness::Unreachable,
    }
}

/// How liveness is decided for an identity: by its health-check endpoint when
/// one is configured, else by the process table.
#[derive(Clone, Copy, Debug, PartialEq, Eq, Structural)]
pub enum ProbeMethod {
    Network,
    ProcessTable,
}

/// Picks the probe that the configuration asks for.
pub fn probe_method(identity: &BackendIdentity) -> (m: ProbeMethod)
    ensures
        m == (if identity.endpoint is Some {
            ProbeMethod::Network
        } else {
            ProbeMethod::ProcessTable
        }),
{
    match &identity.endpoint {
        Some(_) => ProbeMethod::Network,
        None => ProbeMethod::ProcessTable,
    }
}

/// Classifies a process-table probe: any matching process counts as alive.
pub fn liveness_from_matches(matches: &Vec<ProcessDescriptor>) -> (l: Liveness)
    ensures
        l == (if matches@.len() > 0 {
            Liveness::Alive
        } else {
            Liveness::Unreachable
        }),
{
    if matches.len() > 0 {
        Liveness::Alive
    } else {
        Liveness::Unreachable
    }
}

} // verus!
