//! The per-device configuration surface the driver consumes: virtualization
//! policy, connection timing, and the identifiers configuration files use.

use vstd::prelude::*;

verus! {

/// Identifies a label type.
#[derive(Clone, PartialEq, Eq, Hash)]
pub struct LabelIdentifier(pub String);

/// Identifies a logical printer, one the driver opens a connection to.
#[derive(Clone, PartialEq, Eq, Hash)]
pub struct PrinterIdentifier(pub String);

/// How jobs for a device are handled when it is not a real printer.
#[derive(Clone)]
pub enum LabelVirtualization {
    /// Connect to the printer, and print jobs.
    Physical,
    /// Render jobs and then just wait, without sending bytes to the device;
    /// still keep a connection, so status reflects real reachability.
    DropJobs {
        /// Directory to persist rendered command sequences into, if any.
        persist: Option<String>,
        /// How long a job simulates printing, in milliseconds.
        wait_time_ms: u64,
    },
    /// Never open a real connection; synthesize a device identification so
    /// rendering can proceed, then behave like `DropJobs`.
    ZplOnly {
        /// Dots-per-millimetre override for the synthesized identification.
        dpmm: Option<u32>,
        /// Directory to persist rendered command sequences into, if any.
        persist: Option<String>,
        /// How long a job simulates printing, in milliseconds.
        wait_time_ms: u64,
    },
}

impl LabelVirtualization {
    /// Whether this policy maintains a connection to the device.
    pub open spec fn spec_is_connected(self) -> bool {
        match self {
            LabelVirtualization::Physical => true,
            LabelVirtualization::DropJobs { .. } => true,
            LabelVirtualization::ZplOnly { .. } => false,
        }
    }

    /// Whether this policy maintains a connection to the device.
    pub fn is_connnected(&self) -> (r: bool)
        ensures
            r == self.spec_is_connected(),
    {
        match self {
            LabelVirtualization::Physical => true,
            LabelVirtualization::DropJobs { .. } => true,
            LabelVirtualization::ZplOnly { .. } => false,
        }
    }
}

impl Default for LabelVirtualization {
    /// Devices are physical printers unless configured otherwise.
    fn default() -> (r: Self)
        ensures
            r is Physical,
    {
        LabelVirtualization::Physical
    }
}

/// Timing of the driver's connection management, in milliseconds.
#[derive(Clone)]
pub struct PrinterConnectionSettings {
    /// Minimum spacing between connection attempts.
    pub retry_fail_ms: u64,
    /// Within an active interval, how often to re-query device status.
    pub status_report_interval_ms: u64,
    /// While no job needs the device, how often to probe it anyway.
    pub disinterest_probe_interval_ms: u64,
    /// How long a connection attempt may take.
    pub connect_timeout_ms: u64,
    /// How long an unused connection is kept before it is dropped.
    pub idle_timeout_ms: u64,
}

impl Default for PrinterConnectionSettings {
    fn default() -> (r: Self)
        ensures
            r.retry_fail_ms == 1000,
            r.status_report_interval_ms == 10000,
            r.disinterest_probe_interval_ms == 60000,
            r.connect_timeout_ms == 1000,
            r.idle_timeout_ms == 60000,
    {
        PrinterConnectionSettings {
            retry_fail_ms: 1000,
            status_report_interval_ms: 10000,
            disinterest_probe_interval_ms: 60000,
            connect_timeout_ms: 1000,
            idle_timeout_ms: 60000,
        }
    }
}

} // verus!
