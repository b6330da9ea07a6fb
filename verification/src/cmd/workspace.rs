use vstd::prelude::*;

use crate::command::texts;
use crate::config::Config;
use crate::error::ZsError;
use crate::path::{join_path, joined};
use crate::repo::Repo;
use crate::session::{Session, Timestamp};
use crate::path::opt_view;
use crate::util::{home_dir_text, home_view, truncate_path_with_home, truncated};
use crate::workspace::Workspace;

verus! {

/// The names of the configured repositories, in order, to choose a workspace's repository
/// from; there must be at least one.
pub fn workspace_choices(config: &Config) -> (r: Result<Vec<String>, ZsError>)
    ensures
        config.repos.keys().len() == 0 <==> r is Err,
        r is Err ==> (r matches Err(e) && e is NoRepos),
        r matches Ok(names) ==> texts(names@) == config.repos.keys(),
{
    let n = config.repos.len();
    if n == 0 {
        return Err(ZsError::NoRepos);
    }
    let mut names: Vec<String> = Vec::new();
    for i in 0..n
        invariant
            n == config.repos.keys().len(),
            texts(names@) == config.repos.keys().take(i as int),
    {
        let ghost before = texts(names@);
        names.push(config.repos.key_at(i).clone());
        assert(texts(names@) =~= before.push(config.repos.keys()[i as int]));
        assert(config.repos.keys().take(i + 1) =~= config.repos.keys().take(i as int).push(
            config.repos.keys()[i as int],
        ));
    }
    assert(config.repos.keys().take(n as int) =~= config.repos.keys());
    Ok(names)
}

/// Where the workspace `name` of `repo` goes: `workspaces/<name>` below the repository's path.
pub open spec fn workspace_path_spec(repo: Repo, name: Seq<char>) -> Seq<char> {
    joined(joined(repo.path@, "workspaces"@), name)
}

/// Where the workspace `name` of `repo` goes (see `workspace_path_spec`).
pub fn workspace_path(repo: &Repo, name: &str) -> (p: String)
    ensures
        p@ == workspace_path_spec(*repo, name@),
{
    let dir = join_path(repo.path.as_str(), "workspaces");
    join_path(dir.as_str(), name)
}

/// The new workspace `name`, on the new branch `branch`, of the repository configured as
/// `repo_name`.
pub fn new_workspace(config: &Config, repo_name: &str, name: &str, branch: String) -> (r: Result<Workspace, ZsError>)
    ensures
        config.repos@.contains_key(repo_name@) ==> (r matches Ok(w) && w.repo_name@ == repo_name@
            && w.repo == Some(config.repos@[repo_name@]) && w.branch == branch && w.path@
            == workspace_path_spec(config.repos@[repo_name@], name@)),
        !config.repos@.contains_key(repo_name@) ==> (r matches Err(ZsError::RepoNotFound { name: n })
            && n@ == repo_name@),
{
    match config.repos.get(repo_name) {
        Some(repo) => {
            let path = workspace_path(repo, name);
            Ok(Workspace { repo_name: crate::command::text(repo_name), repo: Some(repo.clone()), branch, path })
        },
        None => Err(ZsError::RepoNotFound { name: crate::command::text(repo_name) }),
    }
}

/// `s` is the session for `workspace`, named `name` with `description`, opened at `now`,
/// when the home directory is `home`: its id is the truncated workspace path, and it
/// records the workspace (without its looked-up repository) and the repository's name.
pub open spec fn is_workspace_session(
    s: Session,
    workspace: Workspace,
    name: String,
    description: String,
    now: Timestamp,
    home: Option<Seq<char>>,
) -> bool {
    &&& s.id@ == truncated(workspace.path@, home)
    &&& s.path == workspace.path
    &&& s.name == Some(name)
    &&& (description@.len() == 0 ==> s.description is None)
    &&& (description@.len() > 0 ==> s.description == Some(description))
    &&& s.repo == Some(workspace.repo_name)
    &&& s.workspace == Some(Workspace { repo: None, ..workspace })
    &&& s.last_opened == Some(now)
}

/// The session for a new workspace (see `is_workspace_session`), the home directory being
/// `home`.
pub fn workspace_session_with_home(
    workspace: &Workspace,
    name: String,
    description: String,
    now: Timestamp,
    home: Option<&str>,
) -> (s: Session)
    ensures
        is_workspace_session(s, *workspace, name, description, now, opt_view(home)),
{
    let id = truncate_path_with_home(workspace.path.as_str(), home);
    let mut s = Session::new(
        id,
        workspace.path.clone(),
        name,
        description,
        Some(workspace.repo_name.clone()),
        now,
    );
    s.workspace = Some(
        Workspace {
            repo_name: workspace.repo_name.clone(),
            repo: None,
            branch: workspace.branch.clone(),
            path: workspace.path.clone(),
        },
    );
    s
}

/// The session for a new workspace (see `is_workspace_session`), the home directory being
/// the current user's.
pub fn workspace_session(workspace: &Workspace, name: String, description: String, now: Timestamp) -> (s: Session)
    ensures
        exists|home: Option<Seq<char>>| #[trigger] is_workspace_session(
            s,
            *workspace,
            name,
            description,
            now,
            home,
        ),
{
    let home = home_dir_text();
    let s = match &home {
        Some(h) => workspace_session_with_home(workspace, name, description, now, Some(h.as_str())),
        None => workspace_session_with_home(workspace, name, description, now, None),
    };
    assert(is_workspace_session(s, *workspace, name, description, now, home_view(home)));
    s
}

} // verus!
