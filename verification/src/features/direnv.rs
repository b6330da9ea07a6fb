use vstd::prelude::*;

use crate::command::{copy_opt, push_arg, runs, text, texts, Command};
use crate::path::{join_path, joined};
use crate::workspace::Workspace;

verus! {

/// How a workspace is set up for direnv.
#[derive(Debug)]
pub struct Direnv {
    /// Whether to trust the workspace directory with `direnv allow`.
    pub trust: bool,
    /// What to write into the workspace's `.envrc`, if anything.
    pub envrc: Option<String>,
}

impl Clone for Direnv {
    fn clone(&self) -> (r: Self)
        ensures
            r == *self,
    {
        Direnv { trust: self.trust, envrc: copy_opt(&self.envrc) }
    }
}

impl Direnv {
    /// The command that trusts the workspace with direnv, where trusting is asked for.
    pub fn trust_command(&self, workspace: &Workspace) -> (c: Option<Command>)
        ensures
            self.trust <==> c is Some,
            c matches Some(c) ==> runs(c, "direnv"@, seq!["allow"@, workspace.path@], None),
    {
        if !self.trust {
            return None;
        }
        let mut args: Vec<String> = Vec::new();
        push_arg(&mut args, "allow");
        push_arg(&mut args, workspace.path.as_str());
        assert(texts(args@) =~= seq!["allow"@, workspace.path@]);
        Some(Command { program: text("direnv"), args, dir: None })
    }

    /// The file to write, and what to write into it, where an `.envrc` is asked for:
    /// `.envrc` in the workspace directory.
    pub fn envrc_file(&self, workspace: &Workspace) -> (f: Option<(String, String)>)
        ensures
            self.envrc is Some <==> f is Some,
            f matches Some(f) ==> f.0@ == joined(workspace.path@, ".envrc"@) && f.1 == self.envrc->0,
    {
        match &self.envrc {
            Some(content) => Some((join_path(workspace.path.as_str(), ".envrc"), content.clone())),
            None => None,
        }
    }
}

} // verus!
