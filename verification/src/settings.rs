//! Effective settings: what the components of a daemon run with once every
//! default has been applied.

use vstd::prelude::*;
use crate::listener::Endpoint;

verus! {

/// The closed set of receiver kinds.
#[derive(Clone, Copy, Debug, PartialEq, Eq, Structural)]
pub enum RecvKind {
    StatsdTcp,
}

/// The effective settings of one receiver.
#[derive(Clone, Copy, Debug, PartialEq, Eq, Structural)]
pub struct ReceiverSettings {
    pub kind: RecvKind,
    pub endpoint: Endpoint,
}

/// The effective settings of a whole daemon.
pub struct Settings {
    /// Time between two aggregation passes of the engine, in milliseconds;
    /// `None` where the engine runs at its built-in cadence.
    pub aggregation_interval_millis: Option<u64>,
    /// The receivers, in the order in which they are built and started.
    pub receivers: Seq<ReceiverSettings>,
}

} // verus!
