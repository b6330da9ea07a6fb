use vstd::prelude::*;
use vstd::string::StringExecFns;

use crate::command::text;

verus! {

/// What can go wrong in the library's decisions.
#[derive(Debug)]
pub enum ZsError {
    /// There is no session to open.
    NoSessions,
    /// There is no session to remove.
    NoSessionsToRemove,
    /// A session with this id already exists.
    SessionExists { id: String },
    /// The configuration names no repository of this name.
    RepoNotFound { name: String },
    /// The workspace was not given its repository.
    NotHydrated,
    /// The configuration names no repository at all.
    NoRepos,
    /// A variable in a path could not be looked up: its name, and why (the message of the
    /// lookup's own error), kept beside the message.
    PathExpansion { var_name: String, cause: String },
    /// The user declined to force the removal of a worktree.
    WorktreeRemovalCancelled,
    /// Forcing the removal of a worktree failed, with this error output.
    ForcedRemovalFailed { stderr: String },
}

/// The message that goes with each error.
pub open spec fn error_message(e: ZsError) -> Seq<char> {
    match e {
        ZsError::NoSessions => "No sessions found. Create a session first using 'zs session new <path>' or 'zs workspace'."@,
        ZsError::NoSessionsToRemove => "No sessions found."@,
        ZsError::SessionExists { id } => "Session already exists with ID: "@ + id@,
        ZsError::RepoNotFound { name } => "Repo '"@ + name@ + "' not found in config"@,
        ZsError::NotHydrated => "Workspace not hydrated with repo"@,
        ZsError::NoRepos => "No repos defined in config. Please add repos to ~/.config/zs/zs.toml"@,
        ZsError::PathExpansion { .. } => "Failed to expand path"@,
        ZsError::WorktreeRemovalCancelled => "Worktree removal cancelled"@,
        ZsError::ForcedRemovalFailed { stderr } => "Git worktree remove --force failed: "@ + stderr@,
    }
}

impl ZsError {
    /// The message of this error.
    pub fn message(&self) -> (m: String)
        ensures
            m@ == error_message(*self),
    {
        match self {
            ZsError::NoSessions => text(
                "No sessions found. Create a session first using 'zs session new <path>' or 'zs workspace'.",
            ),
            ZsError::NoSessionsToRemove => text("No sessions found."),
            ZsError::SessionExists { id } => text("Session already exists with ID: ").concat(id.as_str()),
            ZsError::RepoNotFound { name } => text("Repo '").concat(name.as_str()).concat(
                "' not found in config",
            ),
            ZsError::NotHydrated => text("Workspace not hydrated with repo"),
            ZsError::NoRepos => text(
                "No repos defined in config. Please add repos to ~/.config/zs/zs.toml",
            ),
            ZsError::PathExpansion { .. } => text("Failed to expand path"),
            ZsError::WorktreeRemovalCancelled => text("Worktree removal cancelled"),
            ZsError::ForcedRemovalFailed { stderr } => text(
                "Git worktree remove --force failed: ",
            ).concat(stderr.as_str()),
        }
    }
}

} // verus!
