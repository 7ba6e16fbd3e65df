use vstd::prelude::*;

verus! {

/// Where the daemon listens for requests.
pub const SOCKET_PATH: &'static str = "/tmp/otrack.sock";

/// What the CLI asks the daemon.
#[derive(Debug, Clone, Copy, PartialEq, Eq, Structural)]
pub enum DaemonRequest {
    GetStatus,
    GetReport,
    StartFocus { duration_mins: u32 },
    StopFocus,
}

/// What the daemon answers. Instants are Unix timestamps in nanoseconds.
#[derive(Debug, Clone)]
pub enum DaemonResponse {
    Status {
        active_app: Option<String>,
        session_start: Option<i128>,
        is_focus_mode: bool,
        focus_remaining_secs: Option<u64>,
    },
    Report {
        /// `(app_class, duration_secs)`, longest first.
        top_apps: Vec<(String, u64)>,
        today_total: u64,
    },
    /// The request was carried out.
    Acknowledged,
    Error(String),
}

} // verus!
