//! The status reporter's data: commit-status states, the updates pushed to
//! the remote host, the cycle's error taxonomy, and the mapping from a
//! run's outcome to its terminal update.

use vstd::prelude::*;
use crate::config::GlobalConfig;
use crate::config::LocalConfig;
use crate::logstore::artifact_address;
use crate::logstore::artifact_address_spec;
use crate::runner::RunRecord;

verus! {

/// The four commit-status states of the remote host. `Pending` opens a
/// cycle; the other three are terminal.
#[derive(PartialEq, Eq, Structural, Clone, Copy, Debug)]
pub enum CiState {
    Pending,
    Success,
    Failure,
    Error,
}

impl CiState {
    /// Whether a state closes a cycle.
    pub open spec fn is_terminal(self) -> bool {
        self != CiState::Pending
    }
}

/// One commit-status update, as handed to the remote host.
pub struct StatusUpdate {
    pub state: CiState,
    pub description: String,
    pub target_url: Option<String>,
}

/// Errors that abort a run cycle before its terminal status is computed
/// from a build outcome.
pub enum CiError {
    /// A fetch, hash lookup or fast-forward of the checkout failed.
    Fetch { message: String },
    /// The build process could not be spawned, or its output was not text.
    BuildIo { message: String },
    /// The artifact could not be written.
    LogWrite { message: String },
}

impl CiError {
    /// The underlying cause's text.
    pub open spec fn message_spec(self) -> Seq<char> {
        match self {
            CiError::Fetch { message } => message@,
            CiError::BuildIo { message } => message@,
            CiError::LogWrite { message } => message@,
        }
    }

    /// Read the underlying cause's text.
    pub fn message(&self) -> (r: &String)
        ensures
            r@ == self.message_spec(),
    {
        match self {
            CiError::Fetch { message } => message,
            CiError::BuildIo { message } => message,
            CiError::LogWrite { message } => message,
        }
    }

    /// Render the error for a status description: a fixed prefix, then the
    /// underlying cause's text.
    pub fn describe(&self) -> (r: String)
        ensures
            r@ == error_description_spec(*self),
    {
        let mut s = String::from_str("micro-ci error: ");
        s.append(self.message().as_str());
        s
    }
}

/// The description of a terminal `Error` status: a fixed prefix, then the
/// underlying cause's text.
pub open spec fn error_description_spec(e: CiError) -> Seq<char> {
    "micro-ci error: "@ + e.message_spec()
}

/// The update that opens every cycle: `Pending`, a static description, no
/// address yet.
pub fn pending_update() -> (r: StatusUpdate)
    ensures
        r.state == CiState::Pending,
        r.description@ == "Running build"@,
        r.target_url is None,
{
    StatusUpdate {
        state: CiState::Pending,
        description: String::from_str("Running build"),
        target_url: None,
    }
}

/// What the terminal update of a cycle must say of an outcome: a passed
/// build maps to `Success` and a failed one to `Failure`, each linking the
/// run's artifact; an aborted cycle maps to `Error` with the cause in the
/// description and no address.
pub open spec fn terminal_update_spec(
    gconfig: GlobalConfig,
    lconfig: LocalConfig,
    outcome: Result<RunRecord, CiError>,
    u: StatusUpdate,
) -> bool {
    match outcome {
        Ok(rec) => {
            &&& u.state == (if rec.success {
                CiState::Success
            } else {
                CiState::Failure
            })
            &&& u.description@ == (if rec.success {
                "Build completed successfully"@
            } else {
                "Build did not complete successfully"@
            })
            &&& match u.target_url {
                Some(url) => url@ == artifact_address_spec(
                    gconfig.web_root_url@,
                    lconfig.github_repo@,
                    rec.id@,
                ),
                None => false,
            }
        },
        Err(e) => {
            &&& u.state == CiState::Error
            &&& u.description@ == error_description_spec(e)
            &&& u.target_url is None
        },
    }
}

/// Map a run's outcome to the cycle's terminal update.
pub fn build_ci_status(
    gconfig: &GlobalConfig,
    lconfig: &LocalConfig,
    outcome: &Result<RunRecord, CiError>,
) -> (u: StatusUpdate)
    ensures
        terminal_update_spec(*gconfig, *lconfig, *outcome, u),
        u.state.is_terminal(),
{
    match outcome {
        Ok(rec) => {
            let url = artifact_address(
                gconfig.web_root_url.as_str(),
                lconfig.github_repo.as_str(),
                rec.id.as_str(),
            );
            if rec.success {
                StatusUpdate {
                    state: CiState::Success,
                    description: String::from_str("Build completed successfully"),
                    target_url: Some(url),
                }
            } else {
                StatusUpdate {
                    state: CiState::Failure,
                    description: String::from_str("Build did not complete successfully"),
                    target_url: Some(url),
                }
            }
        },
        Err(e) => StatusUpdate {
            state: CiState::Error,
            description: e.describe(),
            target_url: None,
        },
    }
}

} // verus!
