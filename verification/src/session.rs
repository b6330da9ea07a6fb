use vstd::prelude::*;

use crate::command::copy_opt;
use crate::map::NameMap;
use crate::path::{opt_view, zs_file, zs_file_path};
use crate::util::{home_dir_text, home_view};
use crate::workspace::Workspace;

verus! {

/// A point in time: whole seconds since the Unix epoch and the nanoseconds beyond them.
#[derive(PartialEq, Eq, Structural, Clone, Copy, Debug)]
pub struct Timestamp {
    pub secs: i64,
    pub nanos: u32,
}

/// A directory that can be opened in the multiplexer.
#[derive(Debug)]
pub struct Session {
    pub id: String,
    pub path: String,
    pub name: Option<String>,
    pub description: Option<String>,
    /// The configured repository that the session's workspace belongs to, if any.
    pub repo: Option<String>,
    /// The workspace whose worktree the session is, if any (its repository not looked up).
    pub workspace: Option<Workspace>,
    pub last_opened: Option<Timestamp>,
}

impl Clone for Session {
    fn clone(&self) -> (r: Self)
        ensures
            r == *self,
    {
        Session {
            id: self.id.clone(),
            path: self.path.clone(),
            name: copy_opt(&self.name),
            description: copy_opt(&self.description),
            repo: copy_opt(&self.repo),
            workspace: match &self.workspace {
                Some(w) => Some(w.clone()),
                None => None,
            },
            last_opened: self.last_opened,
        }
    }
}

/// The sessions, by key.
pub type SessionMap = NameMap<Session>;

impl Session {
    /// A session named `name`, opened at `now`; an empty description counts as none.
    pub fn new(id: String, path: String, name: String, description: String, repo: Option<String>, now: Timestamp) -> (s: Session)
        ensures
            s.id == id,
            s.path == path,
            s.name == Some(name),
            description@.len() == 0 ==> s.description is None,
            description@.len() > 0 ==> s.description == Some(description),
            s.repo == repo,
            s.workspace is None,
            s.last_opened == Some(now),
    {
        let description = if description.as_str().unicode_len() == 0 {
            None
        } else {
            Some(description)
        };
        Session { id, path, name: Some(name), description, repo, workspace: None, last_opened: Some(now) }
    }

    /// Where the sessions are stored, given the value of `XDG_CACHE_HOME` and the home
    /// directory: `zs/sessions.json` below the cache directory, which is `XDG_CACHE_HOME`
    /// or else `.cache` below the home directory.
    pub fn sessions_path_from(xdg_cache_home: Option<&str>, home: Option<&str>) -> (p: Option<String>)
        ensures
            p matches Some(p) ==> zs_file(opt_view(xdg_cache_home), opt_view(home), ".cache"@, "sessions.json"@) == Some(p@),
            p is None ==> zs_file(opt_view(xdg_cache_home), opt_view(home), ".cache"@, "sessions.json"@) is None,
    {
        zs_file_path(xdg_cache_home, home, ".cache", "sessions.json")
    }

    /// Where the sessions are stored, given the value of `XDG_CACHE_HOME`, the home
    /// directory being the current user's. `None` where neither is known.
    pub fn sessions_path(xdg_cache_home: Option<&str>) -> (p: Option<String>)
        ensures
            exists|home: Option<Seq<char>>| #[trigger] zs_file(opt_view(xdg_cache_home), home, ".cache"@, "sessions.json"@)
                == match p { Some(p) => Some(p@), None => None },
    {
        let home = home_dir_text();
        let p = match &home {
            Some(h) => Self::sessions_path_from(xdg_cache_home, Some(h.as_str())),
            None => Self::sessions_path_from(xdg_cache_home, None),
        };
        assert(zs_file(opt_view(xdg_cache_home), home_view(home), ".cache"@, "sessions.json"@)
            == match p { Some(p) => Some(p@), None => None });
        p
    }
}

} // verus!
