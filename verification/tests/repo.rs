use zs::config::Config;
use zs::error::ZsError;
use zs::features::direnv::Direnv;
use zs::repo::git::{GitRepo, RemovalStage};
use zs::repo::{Repo, RepoType};
use zs::workspace::{merged_workspace_settings, setup_progress, SetupProgress, SetupStep, Workspace, WorkspaceSettings};

fn strs(v: &[&str]) -> Vec<String> {
    v.iter().map(|s| s.to_string()).collect()
}

fn repo(path: &str, settings: Option<WorkspaceSettings>, direnv: Option<Direnv>) -> Repo {
    Repo {
        path: path.to_string(),
        repo: RepoType::Git(GitRepo {
            url: "https://example.org/r.git".to_string(),
            branch: None,
            shallow: false,
            submodules: true,
        }),
        workspace: settings,
        direnv,
    }
}

fn workspace(r: Option<Repo>) -> Workspace {
    Workspace {
        repo_name: "proj".to_string(),
        repo: r,
        branch: "feat".to_string(),
        path: "/p/workspaces/w".to_string(),
    }
}

#[test]
fn repo_commands_use_primary_clone() {
    let r = repo("/p", None, None);
    assert_eq!(r.primary_path(), "/p/primary");
    let ws = workspace(None);
    let c = r.clone_command();
    assert_eq!(
        c.args,
        strs(&["clone", "--recurse-submodules", "https://example.org/r.git", "/p/primary"])
    );
    assert_eq!(
        r.create_worktree(&ws).args,
        strs(&["-C", "/p/primary", "worktree", "add", "/p/workspaces/w", "-b", "feat"])
    );
    assert_eq!(r.update().args, strs(&["-C", "/p/primary", "pull"]));
    assert_eq!(
        r.init_submodules(&ws).args,
        strs(&["-C", "/p/workspaces/w", "submodule", "update", "--init", "--recursive"])
    );
    let d = r.delete_worktree(&ws);
    assert_eq!(d.repo_path, "/p/primary");
    assert_eq!(d.worktree_path, "/p/workspaces/w");
    assert_eq!(d.branch, "feat");
    assert_eq!(d.stage, RemovalStage::Removing);
}

#[test]
fn hook_runs_in_workspace() {
    let ws = workspace(None);
    let none = repo("/p", None, None);
    assert!(none.execute_workspace_hook(&ws).is_none());
    let no_hook = repo(
        "/p",
        Some(WorkspaceSettings { submodules: true, hook: None }),
        None,
    );
    assert!(no_hook.execute_workspace_hook(&ws).is_none());
    let with_hook = repo(
        "/p",
        Some(WorkspaceSettings { submodules: true, hook: Some("npm install".to_string()) }),
        None,
    );
    let c = with_hook.execute_workspace_hook(&ws).unwrap();
    assert_eq!(c.program, "sh");
    assert_eq!(c.args, strs(&["-c", "npm install"]));
    assert_eq!(c.dir, Some("/p/workspaces/w".to_string()));
}

#[test]
fn expand_keeps_plain_path() {
    let mut r = repo("/srv/projects/x", None, None);
    assert!(r.expand_path().is_ok());
    assert_eq!(r.path, "/srv/projects/x");
}

#[test]
fn expand_unknown_variable_fails() {
    let mut r = repo("$ZS_TEST_SURELY_UNSET_VARIABLE/x", None, None);
    match r.expand_path() {
        Err(ZsError::PathExpansion { var_name, .. }) => {
            assert_eq!(var_name, "ZS_TEST_SURELY_UNSET_VARIABLE")
        }
        _ => panic!("expected an expansion error"),
    }
    assert_eq!(r.path, "$ZS_TEST_SURELY_UNSET_VARIABLE/x");
}

#[test]
fn expand_keeps_tilde_not_before_slash() {
    let mut r = repo("~other/code", None, None);
    assert!(r.expand_path().is_ok());
    assert_eq!(r.path, "~other/code");
}

#[test]
fn workspace_settings_merge() {
    let both = merged_workspace_settings(
        Some(WorkspaceSettings { submodules: false, hook: Some("a".to_string()) }),
        Some("b".to_string()),
    )
    .unwrap();
    assert!(!both.submodules);
    assert_eq!(both.hook, Some("a".to_string()));
    let table_only_empty = merged_workspace_settings(
        Some(WorkspaceSettings { submodules: false, hook: None }),
        Some("b".to_string()),
    )
    .unwrap();
    assert_eq!(table_only_empty.hook, Some("b".to_string()));
    let hook_only = merged_workspace_settings(None, Some("c".to_string())).unwrap();
    assert!(hook_only.submodules);
    assert_eq!(hook_only.hook, Some("c".to_string()));
    assert!(merged_workspace_settings(None, None).is_none());
}

#[test]
fn expand_tilde_uses_home() {
    let mut r = repo("~/code", None, None);
    assert!(r.expand_path().is_ok());
    if let Some(home) = dirs::home_dir() {
        assert!(!r.path.starts_with('~'));
        assert!(r.path.ends_with("/code"));
        assert_eq!(r.path, format!("{}/code", home.to_string_lossy()));
    }
}

fn config_with(name: &str, r: Repo) -> Config {
    let mut c = Config::default_config();
    c.repos.insert(name.to_string(), r);
    c
}

#[test]
fn hydrate_finds_configured_repo() {
    let config = config_with("proj", repo("/p", None, None));
    let mut ws = workspace(None);
    assert!(matches!(ws.get_repo(), Err(ZsError::NotHydrated)));
    assert!(ws.hydrate(&config).is_ok());
    assert_eq!(ws.get_repo().unwrap().path, "/p");
    assert_eq!(ws.delete().unwrap().repo_path, "/p/primary");
}

#[test]
fn hydrate_reports_missing_repo() {
    let config = config_with("other", repo("/p", None, None));
    let mut ws = workspace(None);
    match ws.hydrate(&config) {
        Err(e) => {
            assert!(matches!(e, ZsError::RepoNotFound { .. }));
            assert_eq!(e.message(), "Repo 'proj' not found in config");
        }
        Ok(()) => panic!("expected an error"),
    }
    assert!(ws.repo.is_none());
    assert!(matches!(ws.delete(), Err(ZsError::NotHydrated)));
}

#[test]
fn setup_plan_in_order() {
    let r = repo(
        "/p",
        Some(WorkspaceSettings { submodules: true, hook: Some("make".to_string()) }),
        Some(Direnv { trust: true, envrc: Some("use flake".to_string()) }),
    );
    let ws = workspace(Some(r));
    let steps = ws.setup().unwrap();
    assert_eq!(steps.len(), 4);
    match &steps[0] {
        SetupStep::InitSubmodules(command) => assert_eq!(command.args[3], "update"),
        _ => panic!("expected submodules first"),
    }
    match &steps[1] {
        SetupStep::WriteEnvrc { path, contents } => {
            assert_eq!(path, "/p/workspaces/w/.envrc");
            assert_eq!(contents, "use flake");
        }
        _ => panic!("expected the envrc second"),
    }
    match &steps[2] {
        SetupStep::TrustDirenv(command) => {
            assert_eq!(command.program, "direnv");
            assert_eq!(command.args, strs(&["allow", "/p/workspaces/w"]));
        }
        _ => panic!("expected trust third"),
    }
    match &steps[3] {
        SetupStep::RunHook(command) => {
            assert_eq!(command.program, "sh");
            assert_eq!(command.args, strs(&["-c", "make"]));
        }
        _ => panic!("expected the hook last"),
    }
}

#[test]
fn setup_stops_at_first_failure() {
    let r = repo(
        "/p",
        Some(WorkspaceSettings { submodules: true, hook: Some("make".to_string()) }),
        Some(Direnv { trust: true, envrc: Some("use flake".to_string()) }),
    );
    let steps = workspace(Some(r)).setup().unwrap();
    assert_eq!(setup_progress(&steps, &vec![]), SetupProgress::Run(0));
    assert_eq!(setup_progress(&steps, &vec![true, true]), SetupProgress::Run(2));
    assert_eq!(setup_progress(&steps, &vec![true, false]), SetupProgress::Failed(1));
    assert_eq!(
        setup_progress(&steps, &vec![true, true, true, false]),
        SetupProgress::Failed(3)
    );
    assert_eq!(setup_progress(&steps, &vec![true; 4]), SetupProgress::Done);
}

#[test]
fn setup_plan_empty_without_settings() {
    let ws = workspace(Some(repo(
        "/p",
        Some(WorkspaceSettings { submodules: false, hook: None }),
        Some(Direnv { trust: false, envrc: None }),
    )));
    assert_eq!(ws.setup().unwrap().len(), 0);
    assert!(matches!(workspace(None).setup(), Err(ZsError::NotHydrated)));
}

#[test]
fn expand_paths_over_config() {
    let mut c = config_with("a", repo("/a", None, None));
    c.repos.insert("b".to_string(), repo("/b/c", None, None));
    assert!(c.expand_paths().is_ok());
    assert_eq!(c.repos.get("a").unwrap().path, "/a");
    assert_eq!(c.repos.get("b").unwrap().path, "/b/c");
    c.repos.insert("z".to_string(), repo("${ZS_TEST_SURELY_UNSET_VARIABLE}", None, None));
    assert!(matches!(c.expand_paths(), Err(ZsError::PathExpansion { .. })));
}

#[test]
fn apply_expansion_takes_outcome() {
    let mut r = repo("~/code", None, None);
    assert!(r.apply_expansion(Ok("/home/me/code".to_string())).is_ok());
    assert_eq!(r.path, "/home/me/code");
    let failure = zs::repo::ExpandFailure {
        var_name: "X".to_string(),
        cause: "environment variable not found".to_string(),
    };
    match r.apply_expansion(Err(failure)) {
        Err(ZsError::PathExpansion { var_name, cause }) => {
            assert_eq!(var_name, "X");
            assert_eq!(cause, "environment variable not found");
        }
        _ => panic!("expected an expansion error"),
    }
    assert_eq!(r.path, "/home/me/code");
}
