//! Sidecar lifecycle states and the transition relation enforced by the
//! supervisor.

use vstd::prelude::*;
use vstd::string::*;
use crate::error::{StartupError, spec_title};

verus! {

/// Lifecycle state of the sidecar process.
#[derive(Debug, Clone, PartialEq)]
pub enum SidecarState {
    /// Sidecar process not running.
    Stopped,
    /// Sidecar spawned, waiting for the health check.
    Starting,
    /// Health check passed; the backend serves.
    Healthy,
    /// Startup or runtime failure, with its reason.
    Failed(StartupError),
    /// A restart is tearing the old process down.
    Restarting,
}

/// States from which a new start attempt may begin.
pub open spec fn spec_startable(s: SidecarState) -> bool {
    s is Stopped || s is Failed || s is Restarting
}

/// The transition relation of the lifecycle state machine. A start attempt
/// enters `Starting` only once the spawn has succeeded; failures before the
/// spawn move the startable state straight to `Failed`. A completed shutdown
/// moves any running or failed state to `Stopped`; a restart passes through
/// `Restarting` from anywhere.
pub open spec fn valid_transition(from: SidecarState, to: SidecarState) -> bool {
    ||| spec_startable(from) && (to is Starting || to is Failed)
    ||| from is Starting && (to is Healthy || to is Failed)
    ||| !(from is Stopped) && to is Stopped
    ||| to is Restarting
}

impl Default for SidecarState {
    /// The supervisor begins with no process running.
    fn default() -> (r: Self)
        ensures
            r is Stopped,
    {
        SidecarState::Stopped
    }
}

impl SidecarState {
    /// The state's display text: the state name, with the failure title
    /// appended for `Failed`.
    pub open spec fn spec_describe(self) -> Seq<char> {
        match self {
            SidecarState::Stopped => "Stopped"@,
            SidecarState::Starting => "Starting"@,
            SidecarState::Healthy => "Healthy"@,
            SidecarState::Failed(e) => "Failed: "@ + spec_title(e),
            SidecarState::Restarting => "Restarting"@,
        }
    }

    /// One-line rendering of the state for logs and the host's state display.
    pub fn describe(&self) -> (r: String)
        ensures
            r@ == self.spec_describe(),
    {
        match self {
            SidecarState::Stopped => "Stopped".to_owned(),
            SidecarState::Starting => "Starting".to_owned(),
            SidecarState::Healthy => "Healthy".to_owned(),
            SidecarState::Failed(e) => {
                let mut s = "Failed: ".to_owned();
                s.append(e.title());
                s
            },
            SidecarState::Restarting => "Restarting".to_owned(),
        }
    }
}

} // verus!
