use vstd::prelude::*;

use crate::command::{Command, copy_opt, push_arg, runs, text, texts};
use crate::error::ZsError;

verus! {

/// A repository kept with git.
#[derive(Debug)]
pub struct GitRepo {
    /// Where it is cloned from.
    pub url: String,
    /// The branch to clone, where not the remote's default.
    pub branch: Option<String>,
    /// Whether to clone with a depth of 1.
    pub shallow: bool,
    /// Whether to clone submodules too.
    pub submodules: bool,
}

impl Clone for GitRepo {
    fn clone(&self) -> (r: Self)
        ensures
            r == *self,
    {
        GitRepo {
            url: self.url.clone(),
            branch: copy_opt(&self.branch),
            shallow: self.shallow,
            submodules: self.submodules,
        }
    }
}

/// The arguments of `git` that clone `repo` into `dest`.
pub open spec fn clone_args(repo: GitRepo, dest: Seq<char>) -> Seq<Seq<char>> {
    seq!["clone"@] + (if repo.shallow { seq!["--depth"@, "1"@] } else { seq![] }) + (match repo.branch {
        Some(b) => seq!["--branch"@, b@],
        None => seq![],
    }) + (if repo.submodules { seq!["--recurse-submodules"@] } else { seq![] }) + seq![repo.url@, dest]
}

/// The arguments of `git` that add a worktree at `dest` on the new branch `branch`
/// to the clone at `repo_path`.
pub open spec fn worktree_add_args(repo_path: Seq<char>, dest: Seq<char>, branch: Seq<char>) -> Seq<
    Seq<char>,
> {
    seq!["-C"@, repo_path, "worktree"@, "add"@, dest, "-b"@, branch]
}

/// The arguments of `git` that remove the worktree at `dest` from the clone at `repo_path`,
/// by force where `force` holds.
pub open spec fn worktree_remove_args(repo_path: Seq<char>, dest: Seq<char>, force: bool) -> Seq<
    Seq<char>,
> {
    if force {
        seq!["-C"@, repo_path, "worktree"@, "remove"@, "--force"@, dest]
    } else {
        seq!["-C"@, repo_path, "worktree"@, "remove"@, dest]
    }
}

/// The arguments of `git` that delete `branch` from the clone at `repo_path`.
pub open spec fn branch_delete_args(repo_path: Seq<char>, branch: Seq<char>) -> Seq<Seq<char>> {
    seq!["-C"@, repo_path, "branch"@, "-d"@, branch]
}

/// The arguments of `git` that pull into the clone at `repo_path`.
pub open spec fn pull_args(repo_path: Seq<char>) -> Seq<Seq<char>> {
    seq!["-C"@, repo_path, "pull"@]
}

/// The arguments of `git` that initialise the submodules of the worktree at `dest`.
pub open spec fn submodule_args(dest: Seq<char>) -> Seq<Seq<char>> {
    seq!["-C"@, dest, "submodule"@, "update"@, "--init"@, "--recursive"@]
}

/// `git` with no directory of its own.
fn git(args: Vec<String>) -> (c: Command)
    ensures
        runs(c, "git"@, texts(args@), None),
{
    Command { program: text("git"), args, dir: None }
}

impl GitRepo {
    /// The command that clones this repository into `dest`.
    pub fn clone_command(&self, dest: &str) -> (c: Command)
        ensures
            runs(c, "git"@, clone_args(*self, dest@), None),
    {
        let mut args: Vec<String> = Vec::new();
        push_arg(&mut args, "clone");
        if self.shallow {
            push_arg(&mut args, "--depth");
            push_arg(&mut args, "1");
        }
        match &self.branch {
            Some(b) => {
                push_arg(&mut args, "--branch");
                push_arg(&mut args, b.as_str());
            },
            None => {},
        }
        if self.submodules {
            push_arg(&mut args, "--recurse-submodules");
        }
        push_arg(&mut args, self.url.as_str());
        push_arg(&mut args, dest);
        assert(texts(args@) =~= clone_args(*self, dest@));
        git(args)
    }

    /// The command that adds a worktree at `dest` on the new branch `branch` to the clone
    /// at `repo_path`.
    pub fn worktree_add_command(&self, repo_path: &str, dest: &str, branch: &str) -> (c: Command)
        ensures
            runs(c, "git"@, worktree_add_args(repo_path@, dest@, branch@), None),
    {
        let mut args: Vec<String> = Vec::new();
        push_arg(&mut args, "-C");
        push_arg(&mut args, repo_path);
        push_arg(&mut args, "worktree");
        push_arg(&mut args, "add");
        push_arg(&mut args, dest);
        push_arg(&mut args, "-b");
        push_arg(&mut args, branch);
        assert(texts(args@) =~= worktree_add_args(repo_path@, dest@, branch@));
        git(args)
    }

    /// The command that pulls into the clone at `repo_path`.
    pub fn pull_command(&self, repo_path: &str) -> (c: Command)
        ensures
            runs(c, "git"@, pull_args(repo_path@), None),
    {
        let mut args: Vec<String> = Vec::new();
        push_arg(&mut args, "-C");
        push_arg(&mut args, repo_path);
        push_arg(&mut args, "pull");
        assert(texts(args@) =~= pull_args(repo_path@));
        git(args)
    }

    /// The command that initialises the submodules of the worktree at `dest`.
    pub fn submodule_command(&self, dest: &str) -> (c: Command)
        ensures
            runs(c, "git"@, submodule_args(dest@), None),
    {
        let mut args: Vec<String> = Vec::new();
        push_arg(&mut args, "-C");
        push_arg(&mut args, dest);
        push_arg(&mut args, "submodule");
        push_arg(&mut args, "update");
        push_arg(&mut args, "--init");
        push_arg(&mut args, "--recursive");
        assert(texts(args@) =~= submodule_args(dest@));
        git(args)
    }
}

/// The command that removes the worktree at `dest` from the clone at `repo_path`.
pub fn worktree_remove_command(repo_path: &str, dest: &str, force: bool) -> (c: Command)
    ensures
        runs(c, "git"@, worktree_remove_args(repo_path@, dest@, force), None),
{
    let mut args: Vec<String> = Vec::new();
    push_arg(&mut args, "-C");
    push_arg(&mut args, repo_path);
    push_arg(&mut args, "worktree");
    push_arg(&mut args, "remove");
    if force {
        push_arg(&mut args, "--force");
    }
    push_arg(&mut args, dest);
    assert(texts(args@) =~= worktree_remove_args(repo_path@, dest@, force));
    git(args)
}

/// The command that deletes `branch` from the clone at `repo_path`.
pub fn branch_delete_command(repo_path: &str, branch: &str) -> (c: Command)
    ensures
        runs(c, "git"@, branch_delete_args(repo_path@, branch@), None),
{
    let mut args: Vec<String> = Vec::new();
    push_arg(&mut args, "-C");
    push_arg(&mut args, repo_path);
    push_arg(&mut args, "branch");
    push_arg(&mut args, "-d");
    push_arg(&mut args, branch);
    assert(texts(args@) =~= branch_delete_args(repo_path@, branch@));
    git(args)
}

} // verus!

verus! {

/// Where the removal of a worktree stands.
#[derive(PartialEq, Eq, Structural, Clone, Copy, Debug)]
pub enum RemovalStage {
    /// The plain removal runs.
    Removing,
    /// The plain removal failed; the user is asked whether to force it.
    AwaitingForce,
    /// The forced removal runs.
    ForceRemoving,
    /// The worktree is gone; its branch is being deleted.
    DeletingBranch,
    /// All is done.
    Finished,
    /// The removal was given up.
    Failed,
}

/// What the caller reports back to a removal.
#[derive(Debug)]
pub enum RemovalEvent {
    /// The last command ran, with this outcome and this error output.
    Ran { success: bool, stderr: String },
    /// The user answered whether to force the removal.
    ForceAnswer { force: bool },
}

/// What a removal asks the caller to do next.
#[derive(Debug)]
pub enum RemovalAction {
    /// Run this command and report how it went.
    Run(Command),
    /// Show this error output and ask whether to force the removal.
    AskForce { stderr: String },
    /// The removal is complete.
    Done,
    /// The removal ends with this error.
    Fail(ZsError),
    /// The event does not fit the stage; nothing changes.
    Ignored,
}

/// The removal of the worktree at `worktree_path`, on `branch`, from the clone at `repo_path`.
#[derive(Debug)]
pub struct WorktreeRemoval {
    pub repo_path: String,
    pub worktree_path: String,
    pub branch: String,
    pub stage: RemovalStage,
}

/// The stage that follows `stage` on `event`.
pub open spec fn next_stage(stage: RemovalStage, event: RemovalEvent) -> RemovalStage {
    match stage {
        RemovalStage::Removing => match event {
            RemovalEvent::Ran { success, .. } => if success {
                RemovalStage::DeletingBranch
            } else {
                RemovalStage::AwaitingForce
            },
            _ => stage,
        },
        RemovalStage::AwaitingForce => match event {
            RemovalEvent::ForceAnswer { force } => if force {
                RemovalStage::ForceRemoving
            } else {
                RemovalStage::Failed
            },
            _ => stage,
        },
        RemovalStage::ForceRemoving => match event {
            RemovalEvent::Ran { success, .. } => if success {
                RemovalStage::DeletingBranch
            } else {
                RemovalStage::Failed
            },
            _ => stage,
        },
        RemovalStage::DeletingBranch => match event {
            RemovalEvent::Ran { .. } => RemovalStage::Finished,
            _ => stage,
        },
        _ => stage,
    }
}

/// The action that `r` asks for when `event` moves it from its stage.
pub open spec fn removal_action(r: WorktreeRemoval, event: RemovalEvent, action: RemovalAction) -> bool {
    let next = next_stage(r.stage, event);
    if next == r.stage {
        action is Ignored
    } else {
        match next {
            RemovalStage::AwaitingForce => action matches RemovalAction::AskForce { stderr }
                && event matches RemovalEvent::Ran { stderr: s, .. } && stderr@ == s@,
            RemovalStage::ForceRemoving => action matches RemovalAction::Run(c) && runs(
                c,
                "git"@,
                worktree_remove_args(r.repo_path@, r.worktree_path@, true),
                None,
            ),
            RemovalStage::DeletingBranch => action matches RemovalAction::Run(c) && runs(
                c,
                "git"@,
                branch_delete_args(r.repo_path@, r.branch@),
                None,
            ),
            RemovalStage::Finished => action is Done,
            RemovalStage::Failed => action matches RemovalAction::Fail(e) && if r.stage
                == RemovalStage::AwaitingForce {
                e is WorktreeRemovalCancelled
            } else {
                e matches ZsError::ForcedRemovalFailed { stderr } && event matches RemovalEvent::Ran {
                    stderr: s,
                    ..
                } && stderr@ == s@
            },
            _ => false,
        }
    }
}

impl WorktreeRemoval {
    /// A removal that has yet to run its first command.
    pub fn new(repo_path: String, worktree_path: String, branch: String) -> (r: Self)
        ensures
            r.repo_path == repo_path,
            r.worktree_path == worktree_path,
            r.branch == branch,
            r.stage == RemovalStage::Removing,
    {
        WorktreeRemoval { repo_path, worktree_path, branch, stage: RemovalStage::Removing }
    }

    /// The first command of the removal: the plain removal of the worktree.
    pub fn first_command(&self) -> (c: Command)
        ensures
            runs(c, "git"@, worktree_remove_args(self.repo_path@, self.worktree_path@, false), None),
    {
        worktree_remove_command(self.repo_path.as_str(), self.worktree_path.as_str(), false)
    }

    /// Moves the removal on by `event` and says what to do next.
    pub fn step(&mut self, event: RemovalEvent) -> (action: RemovalAction)
        ensures
            final(self).stage == next_stage(old(self).stage, event),
            final(self).repo_path == old(self).repo_path,
            final(self).worktree_path == old(self).worktree_path,
            final(self).branch == old(self).branch,
            removal_action(*old(self), event, action),
    {
        match self.stage {
            RemovalStage::Removing => match event {
                RemovalEvent::Ran { success, stderr } => {
                    if success {
                        self.stage = RemovalStage::DeletingBranch;
                        RemovalAction::Run(
                            branch_delete_command(self.repo_path.as_str(), self.branch.as_str()),
                        )
                    } else {
                        self.stage = RemovalStage::AwaitingForce;
                        RemovalAction::AskForce { stderr }
                    }
                },
                _ => RemovalAction::Ignored,
            },
            RemovalStage::AwaitingForce => match event {
                RemovalEvent::ForceAnswer { force } => {
                    if force {
                        self.stage = RemovalStage::ForceRemoving;
                        RemovalAction::Run(
                            worktree_remove_command(
                                self.repo_path.as_str(),
                                self.worktree_path.as_str(),
                                true,
                            ),
                        )
                    } else {
                        self.stage = RemovalStage::Failed;
                        RemovalAction::Fail(ZsError::WorktreeRemovalCancelled)
                    }
                },
                _ => RemovalAction::Ignored,
            },
            RemovalStage::ForceRemoving => match event {
                RemovalEvent::Ran { success, stderr } => {
                    if success {
                        self.stage = RemovalStage::DeletingBranch;
                        RemovalAction::Run(
                            branch_delete_command(self.repo_path.as_str(), self.branch.as_str()),
                        )
                    } else {
                        self.stage = RemovalStage::Failed;
                        RemovalAction::Fail(ZsError::ForcedRemovalFailed { stderr })
                    }
                },
                _ => RemovalAction::Ignored,
            },
            RemovalStage::DeletingBranch => match event {
                RemovalEvent::Ran { .. } => {
                    self.stage = RemovalStage::Finished;
                    RemovalAction::Done
                },
                _ => RemovalAction::Ignored,
            },
            _ => RemovalAction::Ignored,
        }
    }
}

} // verus!

verus! {

/// The stage reached from `stage` after `events`, in order.
pub open spec fn run_stage(stage: RemovalStage, events: Seq<RemovalEvent>) -> RemovalStage
    decreases events.len(),
{
    if events.len() == 0 {
        stage
    } else {
        run_stage(next_stage(stage, events[0]), events.drop_first())
    }
}

/// Law: a finished or failed removal stays so, whatever is reported to it afterwards.
pub proof fn law_removal_end_is_final(stage: RemovalStage, events: Seq<RemovalEvent>)
    requires
        stage == RemovalStage::Finished || stage == RemovalStage::Failed,
    ensures
        run_stage(stage, events) == stage,
    decreases events.len(),
{
    if events.len() > 0 {
        law_removal_end_is_final(stage, events.drop_first());
    }
}

/// Law: the branch is deleted only right after the worktree was removed, plainly or by
/// force, with success.
pub proof fn law_branch_deleted_after_removal(stage: RemovalStage, event: RemovalEvent)
    requires
        stage != RemovalStage::DeletingBranch,
        next_stage(stage, event) == RemovalStage::DeletingBranch,
    ensures
        stage == RemovalStage::Removing || stage == RemovalStage::ForceRemoving,
        event matches RemovalEvent::Ran { success, .. } && success,
{
}

/// Law: a removal is forced only after the plain removal failed and the user agreed.
pub proof fn law_force_needs_consent(stage: RemovalStage, event: RemovalEvent)
    requires
        stage != RemovalStage::ForceRemoving,
        next_stage(stage, event) == RemovalStage::ForceRemoving,
    ensures
        stage == RemovalStage::AwaitingForce,
        event matches RemovalEvent::ForceAnswer { force } && force,
{
}

/// Law: the user is asked about forcing only after the plain removal failed.
pub proof fn law_ask_after_failure(stage: RemovalStage, event: RemovalEvent)
    requires
        stage != RemovalStage::AwaitingForce,
        next_stage(stage, event) == RemovalStage::AwaitingForce,
    ensures
        stage == RemovalStage::Removing,
        event matches RemovalEvent::Ran { success, .. } && !success,
{
}

} // verus!

verus! {

/// Law: once the worktree is gone, the outcome of deleting its branch does not matter:
/// whatever the branch deletion reports, successful or not, the removal is finished and
/// asks for nothing more.
pub proof fn law_branch_deletion_outcome_ignored(
    r: WorktreeRemoval,
    success: bool,
    stderr: String,
    action: RemovalAction,
)
    requires
        r.stage == RemovalStage::DeletingBranch,
        removal_action(r, RemovalEvent::Ran { success, stderr }, action),
    ensures
        next_stage(r.stage, RemovalEvent::Ran { success, stderr }) == RemovalStage::Finished,
        action is Done,
{
}

/// Law: a removal whose worktree was removed never ends in failure, whatever is reported
/// to it afterwards: it is deleting the branch or finished.
pub proof fn law_removed_worktree_never_fails(events: Seq<RemovalEvent>)
    ensures
        run_stage(RemovalStage::DeletingBranch, events) == RemovalStage::DeletingBranch
            || run_stage(RemovalStage::DeletingBranch, events) == RemovalStage::Finished,
    decreases events.len(),
{
    if events.len() > 0 {
        let next = next_stage(RemovalStage::DeletingBranch, events[0]);
        if next == RemovalStage::Finished {
            law_removal_end_is_final(next, events.drop_first());
        } else {
            law_removed_worktree_never_fails(events.drop_first());
        }
    }
}

/// Law: the clone arguments hold the configured branch right after `--branch`, whatever
/// the other options are; a shallow clone holds `--depth 1`; submodules are cloned where
/// asked for; the command starts with `clone` and ends with the URL and the destination.
pub proof fn law_clone_args_options(repo: GitRepo, dest: Seq<char>)
    ensures
        clone_args(repo, dest)[0] == "clone"@,
        clone_args(repo, dest).len() >= 3,
        clone_args(repo, dest)[clone_args(repo, dest).len() - 2] == repo.url@,
        clone_args(repo, dest)[clone_args(repo, dest).len() - 1] == dest,
        repo.branch matches Some(b) ==> exists|i: int|
            0 <= i < clone_args(repo, dest).len() - 1 && #[trigger] clone_args(repo, dest)[i] == "--branch"@
                && clone_args(repo, dest)[i + 1] == b@,
        repo.shallow ==> exists|i: int|
            0 <= i < clone_args(repo, dest).len() - 1 && #[trigger] clone_args(repo, dest)[i] == "--depth"@
                && clone_args(repo, dest)[i + 1] == "1"@,
        repo.submodules ==> exists|i: int|
            0 <= i < clone_args(repo, dest).len() && #[trigger] clone_args(repo, dest)[i]
                == "--recurse-submodules"@,
{
    let a = clone_args(repo, dest);
    let depth: Seq<Seq<char>> = if repo.shallow { seq!["--depth"@, "1"@] } else { seq![] };
    let branch: Seq<Seq<char>> = match repo.branch {
        Some(b) => seq!["--branch"@, b@],
        None => seq![],
    };
    let subs: Seq<Seq<char>> = if repo.submodules { seq!["--recurse-submodules"@] } else { seq![] };
    let tail = seq![repo.url@, dest];
    assert(a =~= seq!["clone"@] + depth + branch + subs + tail);
    let nb = 1 + depth.len();
    let ns = nb + branch.len();
    if repo.branch is Some {
        assert(a[nb as int] == "--branch"@);
        assert(a[nb as int + 1] == repo.branch->0@);
    }
    if repo.shallow {
        assert(a[1] == "--depth"@);
        assert(a[2] == "1"@);
    }
    if repo.submodules {
        assert(a[ns as int] == "--recurse-submodules"@);
    }
}

} // verus!
