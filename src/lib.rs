//! Gathers the parameters of a forensic disk acquisition and reads the
//! drives of the host out of a hardware inventory report.

pub mod ewfargs;
pub mod json_tree;
pub mod sysinfo;
pub mod wizard;

use vstd::prelude::*;

verus! {

/// What is recorded about the host and the drive of one acquisition.
#[derive(Debug)]
pub struct LoggingInfo {
    pub host_serial: Option<String>,
    pub drive_serial: Option<String>,
    pub drive_product: Option<String>,
}

impl Default for LoggingInfo {
    fn default() -> (r: Self)
        ensures
            r.host_serial is None,
            r.drive_serial is None,
            r.drive_product is None,
    {
        LoggingInfo::new()
    }
}

impl LoggingInfo {
    /// Nothing recorded yet.
    pub fn new() -> (r: LoggingInfo)
        ensures
            r.host_serial is None,
            r.drive_serial is None,
            r.drive_product is None,
    {
        LoggingInfo { host_serial: None, drive_serial: None, drive_product: None }
    }
}

} // verus!
