use vstd::prelude::*;

verus! {

/// What the measuring tool reports when a test starts: the user's provider,
/// public address, and the server it measures against.
#[derive(Debug, Clone)]
pub struct TestInfo {
    pub isp: String,
    pub external_ip: String,
    pub host: String,
    pub name: String,
    pub location: String,
    pub country: String,
}

/// The outcome of a finished test: both bandwidths, in bytes per second, and
/// the address of the published result when there is one.
#[derive(Debug, Clone)]
pub struct TestResultInfo {
    pub download_bandwidth: i32,
    pub upload_bandwidth: i32,
    pub result_url: Option<String>,
}

} // verus!
