//! Configuration values, loaded once at startup and passed by reference.

use vstd::prelude::*;

verus! {

/// Settings shared by every repository this runner serves.
pub struct GlobalConfig {
    /// Token used to authenticate against the remote host's status API.
    pub github_token: String,
    /// Directory below which run artifacts are written.
    pub web_root_path: String,
    /// Public address that serves the artifacts written below the root path.
    pub web_root_url: String,
    /// Seconds between two poll ticks.
    pub fetch_interval: u64,
}

/// Settings of the one repository checkout this instance watches.
pub struct LocalConfig {
    /// Repository identifier in `owner/name` form.
    pub github_repo: String,
    /// Build command, run as a single shell string.
    pub command: String,
}

} // verus!
