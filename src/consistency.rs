//! Consistency levels of a request.

use vstd::prelude::*;

verus! {

/// How many replicas must answer a request.
#[derive(Debug, Clone, Copy, PartialEq, Eq, Hash, Structural)]
pub enum Consistency {
    Any,
    One,
    Two,
    Three,
    Quorum,
    All,
    LocalQuorum,
    EachQuorum,
    LocalOne,
    Serial,
    LocalSerial,
}

/// Consistency of the Paxos phase of a lightweight transaction.
#[derive(Debug, Clone, Copy, PartialEq, Eq, Hash, Structural)]
pub enum SerialConsistency {
    Serial,
    LocalSerial,
}

} // verus!
