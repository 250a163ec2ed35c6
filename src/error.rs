use vstd::prelude::*;
use crate::config::ConfigError;

verus! {

/// What stops a run before its first probe. Failures of single probes are
/// never errors of the run: they are counted as lost.
#[derive(Debug)]
pub enum PingError {
    /// The configuration breaks one of its rules.
    InvalidArguments(ConfigError),
    /// The ICMP session could not be opened; holds the system's message.
    NetworkError(String),
    /// Name resolution succeeded but gave no address for this host.
    InvalidHost(String),
    /// Name resolution itself failed for `host`, for the given cause.
    ResolutionFailed { host: String, cause: String },
}

} // verus!
