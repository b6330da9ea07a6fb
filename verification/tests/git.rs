use zs::command::Command;
use zs::error::ZsError;
use zs::repo::git::{
    branch_delete_command, worktree_remove_command, GitRepo, RemovalAction, RemovalEvent,
    RemovalStage, WorktreeRemoval,
};

fn strs(v: &[&str]) -> Vec<String> {
    v.iter().map(|s| s.to_string()).collect()
}

fn git_repo(branch: Option<&str>, shallow: bool, submodules: bool) -> GitRepo {
    GitRepo {
        url: "git@github.com:user/repo.git".to_string(),
        branch: branch.map(|b| b.to_string()),
        shallow,
        submodules,
    }
}

#[test]
fn clone_with_all_options() {
    let c = git_repo(Some("main"), true, true).clone_command("/p/primary");
    assert_eq!(c.program, "git");
    assert_eq!(
        c.args,
        strs(&[
            "clone",
            "--depth",
            "1",
            "--branch",
            "main",
            "--recurse-submodules",
            "git@github.com:user/repo.git",
            "/p/primary"
        ])
    );
    assert_eq!(c.dir, None);
}

#[test]
fn clone_minimal() {
    let c = git_repo(None, false, false).clone_command("/p/primary");
    assert_eq!(
        c.args,
        strs(&["clone", "git@github.com:user/repo.git", "/p/primary"])
    );
}

#[test]
fn worktree_commands() {
    let g = git_repo(None, false, true);
    let add = g.worktree_add_command("/p/primary", "/p/workspaces/w", "feat");
    assert_eq!(
        add.args,
        strs(&["-C", "/p/primary", "worktree", "add", "/p/workspaces/w", "-b", "feat"])
    );
    let rm = worktree_remove_command("/p/primary", "/p/workspaces/w", false);
    assert_eq!(
        rm.args,
        strs(&["-C", "/p/primary", "worktree", "remove", "/p/workspaces/w"])
    );
    let force = worktree_remove_command("/p/primary", "/p/workspaces/w", true);
    assert_eq!(
        force.args,
        strs(&["-C", "/p/primary", "worktree", "remove", "--force", "/p/workspaces/w"])
    );
    let br = branch_delete_command("/p/primary", "feat");
    assert_eq!(br.args, strs(&["-C", "/p/primary", "branch", "-d", "feat"]));
    let pull = g.pull_command("/p/primary");
    assert_eq!(pull.args, strs(&["-C", "/p/primary", "pull"]));
    let sub = g.submodule_command("/p/workspaces/w");
    assert_eq!(
        sub.args,
        strs(&["-C", "/p/workspaces/w", "submodule", "update", "--init", "--recursive"])
    );
}

fn removal() -> WorktreeRemoval {
    WorktreeRemoval::new(
        "/p/primary".to_string(),
        "/p/workspaces/w".to_string(),
        "feat".to_string(),
    )
}

fn run_args(a: &RemovalAction) -> Vec<String> {
    match a {
        RemovalAction::Run(Command { args, .. }) => args.clone(),
        _ => panic!("expected a command"),
    }
}

#[test]
fn removal_that_succeeds_deletes_branch() {
    let mut r = removal();
    assert_eq!(
        r.first_command().args,
        strs(&["-C", "/p/primary", "worktree", "remove", "/p/workspaces/w"])
    );
    let a = r.step(RemovalEvent::Ran { success: true, stderr: String::new() });
    assert_eq!(run_args(&a), strs(&["-C", "/p/primary", "branch", "-d", "feat"]));
    assert_eq!(r.stage, RemovalStage::DeletingBranch);
    let a = r.step(RemovalEvent::Ran { success: false, stderr: "not merged".to_string() });
    assert!(matches!(a, RemovalAction::Done));
    assert_eq!(r.stage, RemovalStage::Finished);
    let a = r.step(RemovalEvent::Ran { success: true, stderr: String::new() });
    assert!(matches!(a, RemovalAction::Ignored));
    assert_eq!(r.stage, RemovalStage::Finished);
}

#[test]
fn removal_declined_is_cancelled() {
    let mut r = removal();
    let a = r.step(RemovalEvent::Ran { success: false, stderr: "dirty".to_string() });
    match a {
        RemovalAction::AskForce { stderr } => assert_eq!(stderr, "dirty"),
        _ => panic!("expected a question"),
    }
    let a = r.step(RemovalEvent::ForceAnswer { force: false });
    match a {
        RemovalAction::Fail(e) => {
            assert!(matches!(e, ZsError::WorktreeRemovalCancelled));
            assert_eq!(e.message(), "Worktree removal cancelled");
        }
        _ => panic!("expected a failure"),
    }
    assert_eq!(r.stage, RemovalStage::Failed);
    let a = r.step(RemovalEvent::ForceAnswer { force: true });
    assert!(matches!(a, RemovalAction::Ignored));
    assert_eq!(r.stage, RemovalStage::Failed);
}

#[test]
fn removal_forced_then_fails_or_succeeds() {
    let mut r = removal();
    r.step(RemovalEvent::Ran { success: false, stderr: "dirty".to_string() });
    let a = r.step(RemovalEvent::ForceAnswer { force: true });
    assert_eq!(
        run_args(&a),
        strs(&["-C", "/p/primary", "worktree", "remove", "--force", "/p/workspaces/w"])
    );
    let mut r2 = WorktreeRemoval { stage: RemovalStage::ForceRemoving, ..removal() };
    let a = r.step(RemovalEvent::Ran { success: true, stderr: String::new() });
    assert_eq!(run_args(&a), strs(&["-C", "/p/primary", "branch", "-d", "feat"]));
    let a = r2.step(RemovalEvent::Ran { success: false, stderr: "locked".to_string() });
    match a {
        RemovalAction::Fail(e) => assert_eq!(
            e.message(),
            "Git worktree remove --force failed: locked"
        ),
        _ => panic!("expected a failure"),
    }
}

#[test]
fn removal_ignores_events_out_of_turn() {
    let mut r = removal();
    let a = r.step(RemovalEvent::ForceAnswer { force: true });
    assert!(matches!(a, RemovalAction::Ignored));
    assert_eq!(r.stage, RemovalStage::Removing);
}
