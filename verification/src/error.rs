//! Startup failure taxonomy with fixed user-facing titles and messages.

use vstd::prelude::*;
use vstd::string::*;

verus! {

/// Categorizes startup failures for user-facing error reporting.
#[derive(Debug, Clone, PartialEq, Eq)]
pub enum StartupError {
    /// The sidecar's port is already in use; no process was created.
    PortInUse,
    /// The operating system failed to create the process.
    SidecarSpawnFailed(String),
    /// The sidecar started but never answered healthy within the total timeout.
    HealthCheckTimeout,
    /// The sidecar exited unexpectedly after becoming healthy.
    SidecarCrashed(String),
}

/// The fixed title shown for each failure kind.
pub open spec fn spec_title(e: StartupError) -> Seq<char> {
    match e {
        StartupError::PortInUse => "Port Already in Use"@,
        StartupError::SidecarSpawnFailed(_) => "Failed to Start Backend"@,
        StartupError::HealthCheckTimeout => "Backend Not Responding"@,
        StartupError::SidecarCrashed(_) => "Backend Crashed"@,
    }
}

/// The fixed message shown for each failure kind, with the detail text
/// embedded for spawn failures and crashes.
pub open spec fn spec_message(e: StartupError) -> Seq<char> {
    match e {
        StartupError::PortInUse => "Port 8123 is already in use. Please close any other Reader3 instances or applications using this port."@,
        StartupError::SidecarSpawnFailed(detail) => "Could not start the backend server: "@ + detail@
            + ". Try reinstalling the application or contact support."@,
        StartupError::HealthCheckTimeout => "The backend server started but did not become ready within 30 seconds. Check the logs for more information."@,
        StartupError::SidecarCrashed(detail) => "The backend server crashed unexpectedly: "@ + detail@
            + ". Try restarting the application."@,
    }
}

impl StartupError {
    /// User-facing error title.
    pub fn title(&self) -> (r: &str)
        ensures
            r@ == spec_title(*self),
    {
        match self {
            StartupError::PortInUse => "Port Already in Use",
            StartupError::SidecarSpawnFailed(_) => "Failed to Start Backend",
            StartupError::HealthCheckTimeout => "Backend Not Responding",
            StartupError::SidecarCrashed(_) => "Backend Crashed",
        }
    }

    /// User-facing error message with a recovery suggestion.
    pub fn message(&self) -> (r: String)
        ensures
            r@ == spec_message(*self),
    {
        match self {
            StartupError::PortInUse => "Port 8123 is already in use. Please close any other Reader3 instances or applications using this port.".to_owned(),
            StartupError::SidecarSpawnFailed(detail) => {
                let mut s = "Could not start the backend server: ".to_owned();
                s.append(detail.as_str());
                s.append(". Try reinstalling the application or contact support.");
                s
            },
            StartupError::HealthCheckTimeout => "The backend server started but did not become ready within 30 seconds. Check the logs for more information.".to_owned(),
            StartupError::SidecarCrashed(detail) => {
                let mut s = "The backend server crashed unexpectedly: ".to_owned();
                s.append(detail.as_str());
                s.append(". Try restarting the application.");
                s
            },
        }
    }

    /// An equal copy of the error.
    pub fn duplicate(&self) -> (r: StartupError)
        ensures
            r == *self,
    {
        match self {
            StartupError::PortInUse => StartupError::PortInUse,
            StartupError::SidecarSpawnFailed(detail) => StartupError::SidecarSpawnFailed(
                detail.clone(),
            ),
            StartupError::HealthCheckTimeout => StartupError::HealthCheckTimeout,
            StartupError::SidecarCrashed(detail) => StartupError::SidecarCrashed(detail.clone()),
        }
    }

    /// One-line rendering, `title: message`, for logs and dialogs.
    pub fn describe(&self) -> (r: String)
        ensures
            r@ == spec_title(*self) + ": "@ + spec_message(*self),
    {
        let mut s = self.title().to_owned();
        s.append(": ");
        let m = self.message();
        s.append(m.as_str());
        s
    }
}

} // verus!
