pub mod git;

use vstd::prelude::*;

use crate::command::{push_arg, runs, text, texts, Command};
use crate::error::ZsError;
use crate::features::direnv::Direnv;
use crate::path::{join_path, joined};
use crate::workspace::{Workspace, WorkspaceSettings};

use git::{
    clone_args, pull_args, submodule_args, worktree_add_args, GitRepo, RemovalStage,
    WorktreeRemoval,
};

verus! {

/// What kind of repository a configured repository is.
#[derive(Debug)]
pub enum RepoType {
    Git(GitRepo),
}

impl Clone for RepoType {
    fn clone(&self) -> (r: Self)
        ensures
            r == *self,
    {
        match self {
            RepoType::Git(g) => RepoType::Git(g.clone()),
        }
    }
}

/// A configured repository.
#[derive(Debug)]
pub struct Repo {
    /// Where the repository is kept: its clone is at `primary` below it, its workspaces
    /// at `workspaces/<name>`.
    pub path: String,
    pub repo: RepoType,
    pub workspace: Option<WorkspaceSettings>,
    pub direnv: Option<Direnv>,
}

impl Clone for Repo {
    fn clone(&self) -> (r: Self)
        ensures
            r == *self,
    {
        Repo {
            path: self.path.clone(),
            repo: self.repo.clone(),
            workspace: match &self.workspace {
                Some(w) => Some(w.clone()),
                None => None,
            },
            direnv: match &self.direnv {
                Some(d) => Some(d.clone()),
                None => None,
            },
        }
    }
}

/// `s` holds no `$`, so names no variable.
pub open spec fn no_variables(s: Seq<char>) -> bool {
    !s.contains('$')
}

/// `s` is `~` alone or starts with `~/`: the form in which `~` stands for the home directory.
pub open spec fn home_tilde(s: Seq<char>) -> bool {
    s.len() > 0 && s[0] == '~' && (s.len() == 1 || s[1] == '/')
}

/// `home` followed by `rest`.
pub open spec fn below(home: Seq<char>, rest: Seq<char>) -> Seq<char> {
    home + rest
}

/// `output` is what expanding `~` in `input` (which names no variable) can give: where
/// `input` is `~` or starts with `~/`, `input` itself (no home directory known) or a
/// non-empty home directory in place of the `~`; `input` itself otherwise.
pub open spec fn tilde_expanded(input: Seq<char>, output: Seq<char>) -> bool {
    if home_tilde(input) {
        output == input || exists|h: Seq<char>| h.len() > 0 && output == #[trigger] below(h, input.drop_first())
    } else {
        output == input
    }
}

/// What `shellexpand::full` was refused on: the variable's name and why.
#[derive(Debug)]
pub struct ExpandFailure {
    pub var_name: String,
    pub cause: String,
}

/// Expands `~` and environment variables in `input`.
///
/// Trusted: calls `shellexpand::full`. Its result depends on the environment and the home
/// directory, so no clause says what it is in general. Its source shows that an input
/// without `$` is never refused, and comes back as `tilde_expanded` says: `~` is replaced
/// only where it stands alone or before `/`, and then by the home directory from
/// `dirs::home_dir`, which is never empty, or, where none is known, not at all.
#[verifier::external_body]
fn shell_expand(input: &str) -> (r: Result<String, ExpandFailure>)
    ensures
        no_variables(input@) ==> r is Ok,
        no_variables(input@) ==> r is Ok && tilde_expanded(input@, r->Ok_0@),
{
    match shellexpand::full(input) {
        Ok(s) => Ok(s.into_owned()),
        Err(e) => Err(ExpandFailure { var_name: e.var_name, cause: format!("{}", e.cause) }),
    }
}

impl Repo {
    /// The command that clones the repository into its `primary` directory.
    pub fn clone_command(&self) -> (c: Command)
        ensures
            runs(c, "git"@, clone_args(self.git_spec(), self.primary_spec()), None),
    {
        let primary = self.primary_path();
        match &self.repo {
            RepoType::Git(git_repo) => git_repo.clone_command(primary.as_str()),
        }
    }

    /// The command that creates `workspace`'s worktree, on its new branch, from the clone.
    pub fn create_worktree(&self, workspace: &Workspace) -> (c: Command)
        ensures
            runs(
                c,
                "git"@,
                worktree_add_args(self.primary_spec(), workspace.path@, workspace.branch@),
                None,
            ),
    {
        let primary = self.primary_path();
        match &self.repo {
            RepoType::Git(git_repo) => git_repo.worktree_add_command(
                primary.as_str(),
                workspace.path.as_str(),
                workspace.branch.as_str(),
            ),
        }
    }

    /// The removal of `workspace`'s worktree from the clone.
    pub fn delete_worktree(&self, workspace: &Workspace) -> (w: WorktreeRemoval)
        ensures
            self.removes(w, *workspace),
    {
        let primary = self.primary_path();
        match &self.repo {
            RepoType::Git(_) => WorktreeRemoval::new(
                primary,
                workspace.path.clone(),
                workspace.branch.clone(),
            ),
        }
    }

    /// The command that runs the workspace hook in `workspace`'s directory, where the
    /// repository has one: `sh -c <hook>`.
    pub fn execute_workspace_hook(&self, workspace: &Workspace) -> (c: Option<Command>)
        ensures
            match self.workspace {
                Some(settings) => match settings.hook {
                    Some(hook) => c matches Some(c) && runs(
                        c,
                        "sh"@,
                        seq!["-c"@, hook@],
                        Some(workspace.path@),
                    ),
                    None => c is None,
                },
                None => c is None,
            },
    {
        match &self.workspace {
            Some(settings) => match &settings.hook {
                Some(hook) => {
                    let mut args: Vec<String> = Vec::new();
                    push_arg(&mut args, "-c");
                    push_arg(&mut args, hook.as_str());
                    assert(texts(args@) =~= seq!["-c"@, hook@]);
                    Some(Command { program: text("sh"), args, dir: Some(workspace.path.clone()) })
                },
                None => None,
            },
            None => None,
        }
    }

    /// The command that pulls the latest changes into the clone.
    pub fn update(&self) -> (c: Command)
        ensures
            runs(c, "git"@, pull_args(self.primary_spec()), None),
    {
        let primary = self.primary_path();
        match &self.repo {
            RepoType::Git(git_repo) => git_repo.pull_command(primary.as_str()),
        }
    }

    /// The command that initialises the submodules of `workspace`'s worktree.
    pub fn init_submodules(&self, workspace: &Workspace) -> (c: Command)
        ensures
            runs(c, "git"@, submodule_args(workspace.path@), None),
    {
        match &self.repo {
            RepoType::Git(git_repo) => git_repo.submodule_command(workspace.path.as_str()),
        }
    }

    /// Where the repository's clone is: `primary` below its path.
    pub open spec fn primary_spec(self) -> Seq<char> {
        joined(self.path@, "primary"@)
    }

    /// The git repository behind this one.
    pub open spec fn git_spec(self) -> GitRepo {
        match self.repo {
            RepoType::Git(g) => g,
        }
    }

    /// `w` is the removal, not yet begun, of `workspace`'s worktree from this repository's clone.
    pub open spec fn removes(self, w: WorktreeRemoval, workspace: Workspace) -> bool {
        &&& w.repo_path@ == self.primary_spec()
        &&& w.worktree_path == workspace.path
        &&& w.branch == workspace.branch
        &&& w.stage == RemovalStage::Removing
    }

    /// Where the repository's clone is.
    pub fn primary_path(&self) -> (p: String)
        ensures
            p@ == self.primary_spec(),
    {
        join_path(self.path.as_str(), "primary")
    }

    /// Expands `~` and environment variables in the repository's path.
    pub fn expand_path(&mut self) -> (r: Result<(), ZsError>)
        ensures
            final(self).repo == old(self).repo,
            final(self).workspace == old(self).workspace,
            final(self).direnv == old(self).direnv,
            r is Err ==> *final(self) == *old(self),
            r is Err ==> (r matches Err(e) && e is PathExpansion),
            no_variables(old(self).path@) ==> r is Ok,
            no_variables(old(self).path@) ==> tilde_expanded(old(self).path@, final(self).path@),
    {
        let expansion = shell_expand(self.path.as_str());
        self.apply_expansion(expansion)
    }

    /// Takes the outcome of expanding the path: an expanded path replaces the path; a
    /// refusal leaves the repository as it is and becomes a `PathExpansion` error with the
    /// same variable name and cause.
    pub fn apply_expansion(&mut self, expansion: Result<String, ExpandFailure>) -> (r: Result<(), ZsError>)
        ensures
            final(self).repo == old(self).repo,
            final(self).workspace == old(self).workspace,
            final(self).direnv == old(self).direnv,
            match expansion {
                Ok(p) => r is Ok && final(self).path == p,
                Err(f) => *final(self) == *old(self) && (r matches Err(ZsError::PathExpansion {
                    var_name,
                    cause,
                }) && var_name == f.var_name && cause == f.cause),
            },
    {
        match expansion {
            Ok(expanded) => {
                self.path = expanded;
                Ok(())
            },
            Err(failure) => Err(
                ZsError::PathExpansion { var_name: failure.var_name, cause: failure.cause },
            ),
        }
    }
}

} // verus!
