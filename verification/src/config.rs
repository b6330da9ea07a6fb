use vstd::prelude::*;

use crate::error::ZsError;
use crate::map::NameMap;
use crate::multiplexer::Multiplexer;
use crate::path::{opt_view, zs_file, zs_file_path};
use crate::repo::{no_variables, tilde_expanded, Repo};
use crate::util::{home_dir_text, home_view};

verus! {

/// The configuration: which multiplexer to use and which repositories there are.
#[derive(Debug)]
pub struct Config {
    pub multiplexer: Multiplexer,
    pub repos: NameMap<Repo>,
}

/// `new` is `old` with its path expanded: all else is the same, and a path that names no
/// variable is expanded as `tilde_expanded` says.
pub open spec fn expanded_from(new: Repo, old: Repo) -> bool {
    &&& new.repo == old.repo
    &&& new.workspace == old.workspace
    &&& new.direnv == old.direnv
    &&& no_variables(old.path@) ==> tilde_expanded(old.path@, new.path@)
}

impl Config {
    /// The configuration that holds where there is no configuration file: zellij, no repositories.
    pub fn default_config() -> (c: Config)
        ensures
            c.multiplexer == Multiplexer::Zellij,
            c.repos@ == Map::<Seq<char>, Repo>::empty(),
    {
        Config { multiplexer: Multiplexer::Zellij, repos: NameMap::new() }
    }

    /// Expands `~` and environment variables in the path of every repository, in order,
    /// stopping at the first that cannot be expanded.
    pub fn expand_paths(&mut self) -> (r: Result<(), ZsError>)
        ensures
            final(self).multiplexer == old(self).multiplexer,
            final(self).repos.keys() == old(self).repos.keys(),
            final(self).repos@.dom() == old(self).repos@.dom(),
            r is Ok ==> forall|k: Seq<char>| #[trigger] old(self).repos@.contains_key(k) ==> expanded_from(
                final(self).repos@[k],
                old(self).repos@[k],
            ),
            r is Err ==> (r matches Err(e) && e is PathExpansion),
            r is Err ==> exists|k: Seq<char>| #[trigger] old(self).repos@.contains_key(k) && !no_variables(
                old(self).repos@[k].path@,
            ),
            (forall|k: Seq<char>| #[trigger] old(self).repos@.contains_key(k) ==> no_variables(
                old(self).repos@[k].path@,
            )) ==> r is Ok,
    {
        let n = self.repos.len();
        let ghost old_repos = self.repos@;
        let ghost keys = self.repos.keys();
        let mut i: usize = 0;
        while i < n
            invariant
                n == keys.len(),
                keys == old(self).repos.keys(),
                old_repos == old(self).repos@,
                self.multiplexer == old(self).multiplexer,
                self.repos.keys() == keys,
                self.repos.consistent(),
                old_repos.dom() == keys.to_set(),
                self.repos@.dom() == old_repos.dom(),
                i <= n,
                forall|j: int| 0 <= j < i ==> expanded_from(
                    #[trigger] self.repos@[keys[j]],
                    old_repos[keys[j]],
                ),
                forall|j: int| i <= j < n ==> #[trigger] self.repos@[keys[j]] == old_repos[keys[j]],
            decreases n - i,
        {
            let key = self.repos.key_at(i).clone();
            let mut repo = self.repos.value_at(i).clone();
            assert(repo == self.repos@[keys[i as int]]);
            assert(old_repos.contains_key(keys[i as int]));
            let expanded = repo.expand_path();
            match expanded {
                Ok(()) => {},
                Err(e) => {
                    assert(old_repos.contains_key(keys[i as int]) && !no_variables(
                        old_repos[keys[i as int]].path@,
                    ));
                    return Err(e);
                },
            }
            self.repos.insert(key, repo);
            proof {
                assert forall|j: int| 0 <= j < n && j != i implies keys[j] != keys[i as int] by {}
            }
            i = i + 1;
        }
        proof {
            assert forall|k: Seq<char>| #[trigger] old_repos.contains_key(k) implies expanded_from(
                self.repos@[k],
                old_repos[k],
            ) by {
                let j = keys.index_of(k);
                assert(keys.to_set().contains(k));
                assert(0 <= j < n && keys[j] == k);
            }
        }
        Ok(())
    }

    /// Where the configuration is read from, given the value of `XDG_CONFIG_HOME` and the
    /// home directory: `zs/zs.toml` below the configuration directory, which is
    /// `XDG_CONFIG_HOME` or else `.config` below the home directory.
    pub fn config_path_from(xdg_config_home: Option<&str>, home: Option<&str>) -> (p: Option<String>)
        ensures
            p matches Some(p) ==> zs_file(opt_view(xdg_config_home), opt_view(home), ".config"@, "zs.toml"@) == Some(p@),
            p is None ==> zs_file(opt_view(xdg_config_home), opt_view(home), ".config"@, "zs.toml"@) is None,
    {
        zs_file_path(xdg_config_home, home, ".config", "zs.toml")
    }

    /// Where the configuration is read from, given the value of `XDG_CONFIG_HOME`, the home
    /// directory being the current user's. `None` where neither is known.
    pub fn config_path(xdg_config_home: Option<&str>) -> (p: Option<String>)
        ensures
            exists|home: Option<Seq<char>>| #[trigger] zs_file(opt_view(xdg_config_home), home, ".config"@, "zs.toml"@)
                == match p { Some(p) => Some(p@), None => None },
    {
        let home = home_dir_text();
        let p = match &home {
            Some(h) => Self::config_path_from(xdg_config_home, Some(h.as_str())),
            None => Self::config_path_from(xdg_config_home, None),
        };
        assert(zs_file(opt_view(xdg_config_home), home_view(home), ".config"@, "zs.toml"@)
            == match p { Some(p) => Some(p@), None => None });
        p
    }
}

} // verus!
