use vstd::prelude::*;

use crate::command::{command_view, copy_opt, Command, CommandView};
use crate::path::joined;
use crate::repo::git::submodule_args;
use crate::config::Config;
use crate::error::ZsError;
use crate::repo::git::WorktreeRemoval;
use crate::repo::Repo;

verus! {

/// A git worktree of a configured repository.
#[derive(Debug)]
pub struct Workspace {
    /// The name under which the repository is configured.
    pub repo_name: String,
    /// The repository itself, once looked up.
    pub repo: Option<Repo>,
    /// The worktree's branch.
    pub branch: String,
    /// Where the worktree is.
    pub path: String,
}

/// How the workspaces of a repository are set up.
#[derive(Debug)]
pub struct WorkspaceSettings {
    /// Whether to initialise submodules in a new workspace.
    pub submodules: bool,
    /// A shell script to run in a new workspace.
    pub hook: Option<String>,
}

/// A repository's workspace settings, from its `[workspace]` table, if any, and the hook
/// written directly in its own table as `workspace_hook`, if any: the table's own hook comes
/// first; a `workspace_hook` without a table gives settings with submodules on, as an empty
/// table would.
pub fn merged_workspace_settings(table: Option<WorkspaceSettings>, workspace_hook: Option<String>) -> (r: Option<WorkspaceSettings>)
    ensures
        match table {
            Some(w) => r == Some(
                (WorkspaceSettings {
                    submodules: w.submodules,
                    hook: if w.hook is Some { w.hook } else { workspace_hook },
                }),
            ),
            None => match workspace_hook {
                Some(h) => r == Some((WorkspaceSettings { submodules: true, hook: Some(h) })),
                None => r is None,
            },
        },
{
    match table {
        Some(w) => {
            let hook = match w.hook {
                Some(h) => Some(h),
                None => workspace_hook,
            };
            Some(WorkspaceSettings { submodules: w.submodules, hook })
        },
        None => match workspace_hook {
            Some(h) => Some(WorkspaceSettings { submodules: crate::util::default_true(), hook: Some(h) }),
            None => None,
        },
    }
}

impl Clone for Workspace {
    fn clone(&self) -> (r: Self)
        ensures
            r == *self,
    {
        Workspace {
            repo_name: self.repo_name.clone(),
            repo: match &self.repo {
                Some(repo) => Some(repo.clone()),
                None => None,
            },
            branch: self.branch.clone(),
            path: self.path.clone(),
        }
    }
}

impl Clone for WorkspaceSettings {
    fn clone(&self) -> (r: Self)
        ensures
            r == *self,
    {
        WorkspaceSettings { submodules: self.submodules, hook: copy_opt(&self.hook) }
    }
}

/// One thing to do when setting up a new workspace. The steps run in order, each only
/// once the one before has succeeded: the first that fails ends the setup with its failure
/// (see `setup_progress`).
#[derive(Debug)]
pub enum SetupStep {
    /// Initialise the worktree's submodules.
    InitSubmodules(Command),
    /// Write `contents` into the `.envrc` file at `path`.
    WriteEnvrc { path: String, contents: String },
    /// Trust the worktree with direnv.
    TrustDirenv(Command),
    /// Run the workspace hook.
    RunHook(Command),
}

/// A setup step as plain text.
pub enum StepView {
    InitSubmodules(CommandView),
    WriteEnvrc { path: Seq<char>, contents: Seq<char> },
    TrustDirenv(CommandView),
    RunHook(CommandView),
}

/// The text of a setup step.
pub open spec fn step_view(s: SetupStep) -> StepView {
    match s {
        SetupStep::InitSubmodules(c) => StepView::InitSubmodules(command_view(c)),
        SetupStep::WriteEnvrc { path, contents } => StepView::WriteEnvrc { path: path@, contents: contents@ },
        SetupStep::TrustDirenv(c) => StepView::TrustDirenv(command_view(c)),
        SetupStep::RunHook(c) => StepView::RunHook(command_view(c)),
    }
}

/// What setting up the workspace at `dest` of `repo` does, in order: initialise submodules
/// where the workspace settings ask for it; write the `.envrc` and trust the directory
/// where direnv settings ask for it; run the workspace hook, if there is one.
pub open spec fn setup_plan(repo: Repo, dest: Seq<char>) -> Seq<StepView> {
    (match repo.workspace {
        Some(settings) => if settings.submodules {
            seq![StepView::InitSubmodules(CommandView { program: "git"@, args: submodule_args(dest), dir: None })]
        } else {
            seq![]
        },
        None => seq![],
    }) + (match repo.direnv {
        Some(d) => (match d.envrc {
            Some(content) => seq![StepView::WriteEnvrc { path: joined(dest, ".envrc"@), contents: content@ }],
            None => seq![],
        }) + (if d.trust {
            seq![StepView::TrustDirenv(CommandView { program: "direnv"@, args: seq!["allow"@, dest], dir: None })]
        } else {
            seq![]
        }),
        None => seq![],
    }) + (match repo.workspace {
        Some(settings) => match settings.hook {
            Some(hook) => seq![StepView::RunHook(CommandView { program: "sh"@, args: seq!["-c"@, hook@], dir: Some(dest) })],
            None => seq![],
        },
        None => seq![],
    })
}

/// Where a setup stands, given how its steps so far went.
#[derive(Debug, PartialEq, Eq, Structural, Clone, Copy)]
pub enum SetupProgress {
    /// Run the step at this position next.
    Run(usize),
    /// Every step succeeded: the setup is complete.
    Done,
    /// The step at this position failed: the setup ends with its failure.
    Failed(usize),
}

/// `p` is where a setup of `n` steps stands after `outcomes`, the outcomes of the steps
/// run so far, in order: the first failure ends it; otherwise the next step runs, or, with
/// none left, it is done.
pub open spec fn progress_fits(n: int, outcomes: Seq<bool>, p: SetupProgress) -> bool {
    match p {
        SetupProgress::Run(i) => i == outcomes.len() && i < n && forall|j: int| 0 <= j < i ==> #[trigger] outcomes[j],
        SetupProgress::Done => outcomes.len() >= n && forall|j: int| 0 <= j < outcomes.len() ==> #[trigger] outcomes[j],
        SetupProgress::Failed(i) => i < outcomes.len() && !outcomes[i as int] && forall|j: int| 0 <= j < i ==> #[trigger] outcomes[j],
    }
}

/// Where the setup `steps` stands after `outcomes` (see `progress_fits`).
pub fn setup_progress(steps: &Vec<SetupStep>, outcomes: &Vec<bool>) -> (p: SetupProgress)
    ensures
        progress_fits(steps@.len() as int, outcomes@, p),
{
    let mut i: usize = 0;
    while i < outcomes.len()
        invariant
            i <= outcomes@.len(),
            forall|j: int| 0 <= j < i ==> #[trigger] outcomes@[j],
        decreases outcomes@.len() - i,
    {
        if !outcomes[i] {
            return SetupProgress::Failed(i);
        }
        i = i + 1;
    }
    if outcomes.len() < steps.len() {
        SetupProgress::Run(outcomes.len())
    } else {
        SetupProgress::Done
    }
}

/// Law: once a step of a setup has failed, nothing more runs and the setup does not
/// complete, whatever is reported after it: it ends with that failure or an earlier one.
pub proof fn law_failure_ends_setup(n: int, outcomes: Seq<bool>, later: Seq<bool>, i: int, p: SetupProgress)
    requires
        0 <= i < outcomes.len(),
        !outcomes[i],
        progress_fits(n, outcomes + later, p),
    ensures
        p matches SetupProgress::Failed(k) && k <= i,
{
    assert((outcomes + later)[i] == outcomes[i]);
}

impl Workspace {
    /// The steps that set up this workspace (see `setup_plan`).
    pub fn setup(&self) -> (r: Result<Vec<SetupStep>, ZsError>)
        ensures
            match self.repo {
                Some(repo) => r matches Ok(steps) && steps@.map_values(|s: SetupStep| step_view(s)) == setup_plan(repo, self.path@),
                None => r matches Err(e) && e is NotHydrated,
            },
    {
        let repo = self.get_repo()?;
        let mut steps: Vec<SetupStep> = Vec::new();
        match &repo.workspace {
            Some(settings) => {
                if settings.submodules {
                    steps.push(SetupStep::InitSubmodules(repo.init_submodules(self)));
                }
            },
            None => {},
        }
        match &repo.direnv {
            Some(direnv) => {
                match direnv.envrc_file(self) {
                    Some((path, contents)) => {
                        steps.push(SetupStep::WriteEnvrc { path, contents });
                    },
                    None => {},
                }
                match direnv.trust_command(self) {
                    Some(command) => {
                        steps.push(SetupStep::TrustDirenv(command));
                    },
                    None => {},
                }
            },
            None => {},
        }
        match repo.execute_workspace_hook(self) {
            Some(command) => {
                steps.push(SetupStep::RunHook(command));
            },
            None => {},
        }
        assert(steps@.map_values(|s: SetupStep| step_view(s)) =~= setup_plan(*repo, self.path@));
        Ok(steps)
    }

    /// Looks the workspace's repository up in `config` and keeps a copy of it.
    pub fn hydrate(&mut self, config: &Config) -> (r: Result<(), ZsError>)
        ensures
            final(self).repo_name == old(self).repo_name,
            final(self).branch == old(self).branch,
            final(self).path == old(self).path,
            config.repos@.contains_key(old(self).repo_name@) ==> r is Ok && final(self).repo == Some(
                config.repos@[old(self).repo_name@],
            ),
            !config.repos@.contains_key(old(self).repo_name@) ==> *final(self) == *old(self),
            !config.repos@.contains_key(old(self).repo_name@) ==> (r matches Err(
                ZsError::RepoNotFound { name },
            ) && name@ == old(self).repo_name@),
    {
        match config.repos.get(self.repo_name.as_str()) {
            Some(repo) => {
                self.repo = Some(repo.clone());
                Ok(())
            },
            None => Err(ZsError::RepoNotFound { name: self.repo_name.clone() }),
        }
    }

    /// The workspace's repository, once looked up.
    pub fn get_repo(&self) -> (r: Result<&Repo, ZsError>)
        ensures
            match self.repo {
                Some(repo) => r matches Ok(x) && *x == repo,
                None => r matches Err(e) && e is NotHydrated,
            },
    {
        match &self.repo {
            Some(repo) => Ok(repo),
            None => Err(ZsError::NotHydrated),
        }
    }

    /// The removal of this workspace's worktree.
    pub fn delete(&self) -> (r: Result<WorktreeRemoval, ZsError>)
        ensures
            match self.repo {
                Some(repo) => r matches Ok(w) && repo.removes(w, *self),
                None => r matches Err(e) && e is NotHydrated,
            },
    {
        let repo = self.get_repo()?;
        Ok(repo.delete_worktree(self))
    }
}

} // verus!

verus! {

/// Law: the workspace is trusted with direnv exactly when the repository's direnv settings
/// ask for trust, whether or not they give an `.envrc`: the setup then holds a step that
/// runs `direnv allow <workspace>`.
pub proof fn law_setup_trusts_when_asked(repo: Repo, dest: Seq<char>)
    ensures
        (repo.direnv matches Some(d) && d.trust) ==> exists|i: int|
            0 <= i < setup_plan(repo, dest).len() && #[trigger] setup_plan(repo, dest)[i] == StepView::TrustDirenv(
                CommandView { program: "direnv"@, args: seq!["allow"@, dest], dir: None },
            ),
        (exists|i: int|
            0 <= i < setup_plan(repo, dest).len() && #[trigger] setup_plan(repo, dest)[i] is TrustDirenv)
            ==> (repo.direnv matches Some(d) && d.trust),
{
    let a: Seq<StepView> = match repo.workspace {
        Some(settings) => if settings.submodules {
            seq![StepView::InitSubmodules(CommandView { program: "git"@, args: submodule_args(dest), dir: None })]
        } else {
            seq![]
        },
        None => seq![],
    };
    let c: Seq<StepView> = match repo.workspace {
        Some(settings) => match settings.hook {
            Some(hook) => seq![StepView::RunHook(CommandView { program: "sh"@, args: seq!["-c"@, hook@], dir: Some(dest) })],
            None => seq![],
        },
        None => seq![],
    };
    match repo.direnv {
        Some(d) => {
            let e: Seq<StepView> = match d.envrc {
                Some(content) => seq![StepView::WriteEnvrc { path: joined(dest, ".envrc"@), contents: content@ }],
                None => seq![],
            };
            let t: Seq<StepView> = if d.trust {
                seq![StepView::TrustDirenv(CommandView { program: "direnv"@, args: seq!["allow"@, dest], dir: None })]
            } else {
                seq![]
            };
            let plan = setup_plan(repo, dest);
            assert(plan =~= a + (e + t) + c);
            if d.trust {
                assert(plan[(a.len() + e.len()) as int] == t[0]);
            }
            assert forall|i: int| 0 <= i < plan.len() && #[trigger] plan[i] is TrustDirenv implies d.trust by {
                if i < a.len() {
                    assert(plan[i] == a[i]);
                } else if i < a.len() + e.len() {
                    assert(plan[i] == e[i - a.len()]);
                } else if i < a.len() + e.len() + t.len() {
                } else {
                    assert(plan[i] == c[i - a.len() - e.len() - t.len()]);
                }
            }
        },
        None => {
            let plan = setup_plan(repo, dest);
            assert(plan =~= a + c);
            assert forall|i: int| 0 <= i < plan.len() implies !(#[trigger] plan[i] is TrustDirenv) by {
                if i < a.len() {
                    assert(plan[i] == a[i]);
                } else {
                    assert(plan[i] == c[i - a.len()]);
                }
            }
        },
    }
}

/// Law: where the repository has a workspace hook, running it in the workspace with
/// `sh -c` is the last step of the setup, so every other step has succeeded before it runs.
pub proof fn law_setup_hook_last(repo: Repo, dest: Seq<char>)
    ensures
        (repo.workspace matches Some(s) && s.hook is Some) ==> setup_plan(repo, dest).len() > 0
            && setup_plan(repo, dest).last() == StepView::RunHook(
                CommandView { program: "sh"@, args: seq!["-c"@, repo.workspace->0.hook->0@], dir: Some(dest) },
            ),
{
}

} // verus!
