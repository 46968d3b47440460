//! Port arbitration: deciding from a connection attempt whether the worker's
//! port is taken.
//!
//! The probe itself is a TCP connect to the loopback address, made by the
//! caller. What is decided here is whether to probe at all, and what the
//! outcome of the attempt means.

use crate::decimal::{decimal, format_decimal, lemma_parse_inverts_decimal, parse_decimal_u16, parse_u16};
use vstd::prelude::*;

verus! {

/// Loopback address, on which a release build reaches and probes its worker.
pub const DEFAULT_HOST: &'static str = "127.0.0.1";

/// Port of the worker in a release build.
pub const RELEASE_PORT: &'static str = "7938";

/// How an attempt to connect to the port ended.
#[derive(Clone, Copy, Debug, PartialEq, Eq, Structural)]
pub enum ConnectOutcome {
    /// Something accepted the connection.
    Connected,
    /// The connection was refused: nothing listens there.
    Refused,
    /// The attempt failed in any other way (timeout, unreachable, denied).
    Failed,
}

/// What to do to learn whether a port is in use.
#[derive(Clone, Copy, Debug, PartialEq, Eq, Structural)]
pub enum ProbePlan {
    /// The text names no port; treat it as taken without probing.
    AssumeInUse,
    /// Try to connect to this port on the loopback address.
    Connect { port: u16 },
}

/// The plan for the port that `port_text` names.
pub open spec fn probe_plan(port_text: Seq<char>) -> ProbePlan {
    match parse_u16(port_text) {
        Some(port) => ProbePlan::Connect { port },
        None => ProbePlan::AssumeInUse,
    }
}

/// Decides how to probe the port written in `port_text`. A text that is not
/// a port number is answered "in use" on the spot, so that nothing is ever
/// started on a port that cannot be checked.
pub fn plan_probe(port_text: &str) -> (plan: ProbePlan)
    ensures
        plan == probe_plan(port_text@),
{
    match parse_decimal_u16(port_text) {
        Some(port) => ProbePlan::Connect { port },
        None => ProbePlan::AssumeInUse,
    }
}

/// Reads the outcome of a probe. Only a refused connection shows the port to
/// be free; a failure of any other kind counts as in use, since a live worker
/// may be behind it.
pub fn is_port_in_use(outcome: ConnectOutcome) -> (in_use: bool)
    ensures
        in_use == !(outcome is Refused),
{
    match outcome {
        ConnectOutcome::Refused => false,
        ConnectOutcome::Connected | ConnectOutcome::Failed => true,
    }
}

impl ProbePlan {
    /// The port to try to connect to, if the plan calls for a probe.
    pub fn port_to_probe(&self) -> (port: Option<u16>)
        ensures
            port == match *self {
                ProbePlan::Connect { port } => Some(port),
                ProbePlan::AssumeInUse => None::<u16>,
            },
    {
        match self {
            ProbePlan::Connect { port } => Some(*port),
            ProbePlan::AssumeInUse => None,
        }
    }

    /// Whether the port counts as in use under this plan, once the attempt
    /// it called for, if any, has ended as `attempt`.
    pub open spec fn counts_as_in_use(self, attempt: Option<ConnectOutcome>) -> bool {
        match (self, attempt) {
            (ProbePlan::Connect { .. }, Some(outcome)) => !(outcome is Refused),
            _ => true,
        }
    }

    /// Gives the answer of the plan. A text that names no port is in use
    /// without more ado; a port that was probed is in use unless the
    /// connection was refused; and a port that was to be probed and was not
    /// has not been shown free, so it is in use too.
    pub fn in_use(&self, attempt: Option<ConnectOutcome>) -> (in_use: bool)
        ensures
            in_use == self.counts_as_in_use(attempt),
    {
        match (self, attempt) {
            (ProbePlan::Connect { .. }, Some(outcome)) => is_port_in_use(outcome),
            _ => true,
        }
    }
}

/// Writes a port number the way the worker's command line expects it. The
/// text reads back as the same port.
pub fn format_port(port: u16) -> (text: String)
    ensures
        text@ == decimal(port as nat),
        probe_plan(text@) == (ProbePlan::Connect { port }),
{
    proof {
        lemma_parse_inverts_decimal(port);
    }
    format_decimal(port as u64)
}

} // verus!
