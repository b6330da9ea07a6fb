use zs::cmd::session::{
    mark_opened, new_session_id, new_session_id_with_home, open_choices, remove_choices,
    selected_key, session_choices, session_label, session_removal,
};
use zs::cmd::workspace::{
    new_workspace, workspace_choices, workspace_path, workspace_session,
    workspace_session_with_home,
};
use zs::config::Config;
use zs::error::ZsError;
use zs::repo::git::GitRepo;
use zs::repo::{Repo, RepoType};
use zs::session::{Session, SessionMap, Timestamp};

const T0: Timestamp = Timestamp { secs: 1_700_000_000, nanos: 5 };
const T1: Timestamp = Timestamp { secs: 1_700_000_100, nanos: 0 };

fn session(id: &str, name: Option<&str>, desc: Option<&str>) -> Session {
    Session {
        id: id.to_string(),
        path: format!("/x/{}", id),
        name: name.map(|s| s.to_string()),
        description: desc.map(|s| s.to_string()),
        repo: None,
        workspace: None,
        last_opened: None,
    }
}

fn sessions() -> SessionMap {
    let mut m = SessionMap::new();
    m.insert("a".to_string(), session("a", Some("Alpha"), Some("first")));
    m.insert("b".to_string(), session("b", None, Some("")));
    m.insert("c".to_string(), session("c", Some("Gamma"), None));
    m
}

#[test]
fn labels() {
    assert_eq!(session_label(&session("a", Some("Alpha"), Some("first"))), "a - Alpha (first)");
    assert_eq!(session_label(&session("b", None, Some(""))), "b - Unnamed");
    assert_eq!(session_label(&session("c", Some("Gamma"), None)), "c - Gamma");
}

#[test]
fn choices_in_order_and_selection() {
    let m = sessions();
    let choices = session_choices(&m);
    assert_eq!(choices, vec!["a - Alpha (first)", "b - Unnamed", "c - Gamma"]);
    for (i, c) in choices.iter().enumerate() {
        assert_eq!(selected_key(&m, c), Some(m.key_at(i).clone()));
    }
    assert_eq!(selected_key(&m, "nothing"), None);
}

#[test]
fn no_sessions_errors() {
    let empty = SessionMap::new();
    let e = open_choices(&empty).err().unwrap();
    assert_eq!(
        e.message(),
        "No sessions found. Create a session first using 'zs session new <path>' or 'zs workspace'."
    );
    let e = remove_choices(&empty).err().unwrap();
    assert_eq!(e.message(), "No sessions found.");
    assert_eq!(open_choices(&sessions()).unwrap().len(), 3);
}

#[test]
fn mark_opened_sets_time() {
    let mut m = sessions();
    assert!(mark_opened(&mut m, "b", T0));
    assert_eq!(m.get("b").unwrap().last_opened, Some(T0));
    assert_eq!(m.get("a").unwrap().last_opened, None);
    assert!(mark_opened(&mut m, "b", T1));
    assert_eq!(m.get("b").unwrap().last_opened, Some(T1));
    assert_eq!(m.key_at(1), "b");
    assert!(!mark_opened(&mut m, "zz", T1));
}

#[test]
fn new_session_id_refuses_duplicates() {
    let mut m = SessionMap::new();
    let id = new_session_id(&m, "/opt/data/projects/thing/src").unwrap();
    let expected = zs::util::truncate_path("/opt/data/projects/thing/src");
    assert_eq!(id, expected);
    m.insert(id.clone(), Session::new(id.clone(), "/opt".to_string(), id.clone(), String::new(), None, T0));
    match new_session_id(&m, "/opt/data/projects/thing/src") {
        Err(ZsError::SessionExists { id: dup }) => assert_eq!(dup, id),
        _ => panic!("expected a duplicate"),
    }
}

#[test]
fn new_session_id_with_home_is_exact() {
    let mut m = SessionMap::new();
    let id = new_session_id_with_home(&m, "/home/u/a/b/c", Some("/home/u")).unwrap();
    assert_eq!(id, "~/a/b/c");
    m.insert(id.clone(), Session::new(id.clone(), "/home/u/a/b/c".into(), id.clone(), String::new(), None, T0));
    match new_session_id_with_home(&m, "/home/u/a/b/c", Some("/home/u")) {
        Err(ZsError::SessionExists { id: dup }) => assert_eq!(dup, "~/a/b/c"),
        _ => panic!("expected a duplicate"),
    }
    assert_eq!(
        new_session_id_with_home(&m, "/home/u/a/b/c", None).unwrap(),
        "/h/u/a/b/c"
    );
}

#[test]
fn new_session_description() {
    let s = Session::new("i".into(), "/p".into(), "n".into(), String::new(), None, T0);
    assert_eq!(s.description, None);
    assert_eq!(s.name, Some("n".to_string()));
    assert_eq!(s.last_opened, Some(T0));
    let s = Session::new("i".into(), "/p".into(), "n".into(), "d".into(), Some("r".into()), T0);
    assert_eq!(s.description, Some("d".to_string()));
    assert_eq!(s.repo, Some("r".to_string()));
}

fn repo(path: &str) -> Repo {
    Repo {
        path: path.to_string(),
        repo: RepoType::Git(GitRepo {
            url: "u".to_string(),
            branch: None,
            shallow: false,
            submodules: true,
        }),
        workspace: None,
        direnv: None,
    }
}

#[test]
fn workspace_flow() {
    let mut config = Config::default_config();
    let e = workspace_choices(&config).err().unwrap();
    assert_eq!(
        e.message(),
        "No repos defined in config. Please add repos to ~/.config/zs/zs.toml"
    );
    config.repos.insert("web".to_string(), repo("/srv/web"));
    config.repos.insert("api".to_string(), repo("/srv/api"));
    assert_eq!(workspace_choices(&config).unwrap(), vec!["web", "api"]);
    assert_eq!(workspace_path(&repo("/srv/web"), "w1"), "/srv/web/workspaces/w1");
    let ws = new_workspace(&config, "api", "w2", "feature".to_string()).unwrap();
    assert_eq!(ws.path, "/srv/api/workspaces/w2");
    assert_eq!(ws.branch, "feature");
    assert_eq!(ws.repo_name, "api");
    assert!(matches!(
        new_workspace(&config, "nope", "w", "b".to_string()),
        Err(ZsError::RepoNotFound { .. })
    ));
    let s = workspace_session(&ws, "w2".to_string(), String::new(), T0);
    assert_eq!(s.id, zs::util::truncate_path("/srv/api/workspaces/w2"));
    assert_eq!(s.repo, Some("api".to_string()));
    assert_eq!(s.path, "/srv/api/workspaces/w2");
    let stored = s.workspace.as_ref().unwrap();
    assert_eq!(stored.branch, "feature");
    assert_eq!(stored.repo_name, "api");
    assert!(stored.repo.is_none());
    let s = workspace_session_with_home(&ws, "w2".to_string(), "d".to_string(), T1, Some("/srv"));
    assert_eq!(s.id, "~/a/workspaces/w2");
    assert_eq!(s.description, Some("d".to_string()));
    let removal = session_removal(&s, &config).unwrap().unwrap();
    assert_eq!(removal.repo_path, "/srv/api/primary");
    assert_eq!(removal.worktree_path, "/srv/api/workspaces/w2");
    assert_eq!(removal.branch, "feature");
    let plain = session("a", None, None);
    assert!(session_removal(&plain, &config).unwrap().is_none());
    let empty = Config::default_config();
    assert!(matches!(session_removal(&s, &empty), Err(ZsError::RepoNotFound { .. })));
}

#[test]
fn error_messages() {
    assert_eq!(
        ZsError::SessionExists { id: "~/x".to_string() }.message(),
        "Session already exists with ID: ~/x"
    );
    assert_eq!(ZsError::NotHydrated.message(), "Workspace not hydrated with repo");
    assert_eq!(
        ZsError::PathExpansion { var_name: "V".to_string(), cause: "c".to_string() }.message(),
        "Failed to expand path"
    );
}
