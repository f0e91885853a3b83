//! Execution profiles: named bundles of per-request defaults.

use vstd::prelude::*;

use std::sync::Arc;
use std::time::Duration;

use crate::consistency::Consistency;
use crate::consistency::SerialConsistency;
use crate::shared::share;
use crate::time::duration_from_secs;
use crate::time::duration_of_secs;

verus! {

/// Defaults that a request takes when it does not override them.
#[derive(Debug, Clone, Copy, PartialEq, Eq)]
pub struct ExecutionProfile {
    pub consistency: Consistency,
    pub serial_consistency: Option<SerialConsistency>,
    pub request_timeout: Option<Duration>,
}

impl ExecutionProfile {
    /// The driver's defaults: local quorum, local serial, thirty seconds.
    pub fn new() -> (r: Self)
        ensures
            r.consistency == Consistency::LocalQuorum,
            r.serial_consistency == Some(SerialConsistency::LocalSerial),
            r.request_timeout == Some(duration_of_secs(30)),
    {
        ExecutionProfile {
            consistency: Consistency::LocalQuorum,
            serial_consistency: Some(SerialConsistency::LocalSerial),
            request_timeout: Some(duration_from_secs(30)),
        }
    }

    /// A shared handle to this profile.
    pub fn into_handle(self) -> (r: ExecutionProfileHandle)
        ensures
            r@ == self,
    {
        ExecutionProfileHandle { profile: Arc::new(self) }
    }
}

/// A shared reference to an execution profile.
#[derive(Debug)]
pub struct ExecutionProfileHandle {
    profile: Arc<ExecutionProfile>,
}

impl View for ExecutionProfileHandle {
    type V = ExecutionProfile;

    closed spec fn view(&self) -> ExecutionProfile {
        *self.profile
    }
}

impl ExecutionProfileHandle {
    /// The profile that the handle refers to.
    pub fn access(&self) -> (r: ExecutionProfile)
        ensures
            r == self@,
    {
        *self.profile
    }

    /// Another handle to the same profile.
    pub fn duplicate(&self) -> (r: Self)
        ensures
            r == *self,
            r@ == self@,
    {
        ExecutionProfileHandle { profile: share(&self.profile) }
    }
}

impl Clone for ExecutionProfileHandle {
    fn clone(&self) -> (r: Self)
        ensures
            r == *self,
            r@ == self@,
    {
        self.duplicate()
    }
}

} // verus!
