//! The settings of the control plane: its timing options and its command
//! line.
use std::time::Duration;
use vstd::prelude::*;

verus! {

/// What `Duration::from_secs` returns for a number of seconds: the span of
/// that many whole seconds.
pub uninterp spec fn seconds(secs: u64) -> Duration;

/// Calls `Duration::from_secs`, which makes a span of whole seconds; the
/// contract names the result.
#[verifier::external_body]
fn duration_from_secs(secs: u64) -> (d: Duration)
    ensures
        d == seconds(secs),
{
    Duration::from_secs(secs)
}

/// The timing of the control plane, in whole seconds.
#[derive(Debug, PartialEq, Eq)]
pub struct Options {
    lease_duration_secs: u64,
    lease_check_interval_secs: u64,
    auto_cycle_duration_secs: u64,
    controller_requeue_duration_secs: u64,
    controller_error_requeue_duration_secs: u64,
    ipc_sse_keep_alive_interval_secs: u64,
}

impl Options {
    /// The seconds of each option, in the order of the fields: the lease
    /// duration, the lease check interval, the cycle, the requeue, the
    /// error requeue and the keep-alive interval.
    pub closed spec fn secs(&self) -> (u64, u64, u64, u64, u64, u64) {
        (
            self.lease_duration_secs,
            self.lease_check_interval_secs,
            self.auto_cycle_duration_secs,
            self.controller_requeue_duration_secs,
            self.controller_error_requeue_duration_secs,
            self.ipc_sse_keep_alive_interval_secs,
        )
    }

    /// How long a lease lasts without renewal.
    pub fn lease_duration(&self) -> (d: Duration)
        ensures
            d == seconds(self.secs().0),
    {
        duration_from_secs(self.lease_duration_secs)
    }

    /// How often the lease is taken or renewed.
    pub fn lease_check_interval(&self) -> (d: Duration)
        ensures
            d == seconds(self.secs().1),
    {
        duration_from_secs(self.lease_check_interval_secs)
    }

    /// How often the configurations are reconciled without a change.
    pub fn auto_cycle_duration(&self) -> (d: Duration)
        ensures
            d == seconds(self.secs().2),
    {
        duration_from_secs(self.auto_cycle_duration_secs)
    }

    /// How long a controller waits before reconciling again.
    pub fn controller_requeue_duration(&self) -> (d: Duration)
        ensures
            d == seconds(self.secs().3),
    {
        duration_from_secs(self.controller_requeue_duration_secs)
    }

    /// How long a controller waits after a failure.
    pub fn controller_error_requeue_duration(&self) -> (d: Duration)
        ensures
            d == seconds(self.secs().4),
    {
        duration_from_secs(self.controller_error_requeue_duration_secs)
    }

    /// How often an idle event stream is kept alive.
    pub fn ipc_sse_keep_alive_interval(&self) -> (d: Duration)
        ensures
            d == seconds(self.secs().5),
    {
        duration_from_secs(self.ipc_sse_keep_alive_interval_secs)
    }
}

impl Default for Options {
    /// Twenty seconds of lease, checked every five; a cycle of fifteen
    /// seconds; requeues after a minute, or five seconds after a failure;
    /// keep-alives every fifteen seconds.
    fn default() -> (r: Self)
        ensures
            r.secs() == (20u64, 5u64, 15u64, 60u64, 5u64, 15u64),
    {
        Options {
            lease_duration_secs: 20,
            lease_check_interval_secs: 5,
            auto_cycle_duration_secs: 15,
            controller_requeue_duration_secs: 60,
            controller_error_requeue_duration_secs: 5,
            ipc_sse_keep_alive_interval_secs: 15,
        }
    }
}

/// The command line of the control plane: the port at which it serves the
/// gateways, and the namespace, pod and instance it runs as.
#[derive(Debug, PartialEq, Eq)]
pub struct Cli {
    pub port: u16,
    pub pod_namespace: String,
    pub pod_name: String,
    pub instance_name: String,
}

impl Cli {
    /// The port at which the gateways reach the control plane.
    pub fn port(&self) -> (p: u16)
        ensures
            p == self.port,
    {
        self.port
    }

    /// The namespace of this instance's pod.
    pub fn pod_namespace(&self) -> (r: &String)
        ensures
            r == &self.pod_namespace,
    {
        &self.pod_namespace
    }

    /// The name of this instance's pod.
    pub fn pod_name(&self) -> (r: &String)
        ensures
            r == &self.pod_name,
    {
        &self.pod_name
    }

    /// The name of the control plane's deployment.
    pub fn instance_name(&self) -> (r: &String)
        ensures
            r == &self.instance_name,
    {
        &self.instance_name
    }
}

} // verus!
