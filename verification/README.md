# zs

A multiplexer and git session manager. `src/` is the verified library; `app/` is the
`zs` program around it (command line, prompts, files, running git).

- `util` — truncating a path for display, with its laws.
- `path` — joining paths and locating the configuration and session files.
- `map` — `NameMap`, a map from names to values that keeps insertion order.
- `repo`, `repo::git` — repositories, the git commands they need, and the step-by-step
  removal of a worktree.
- `workspace`, `features::direnv` — workspaces and what setting one up does.
- `config`, `session`, `multiplexer`, `error` — the stored data and the errors.
- `cmd::session`, `cmd::workspace` — the decisions behind each subcommand.
