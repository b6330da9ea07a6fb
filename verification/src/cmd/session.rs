use vstd::prelude::*;
use vstd::string::StringExecFns;

use crate::command::text;
use crate::error::ZsError;
use crate::session::{Session, SessionMap, Timestamp};
use crate::config::Config;
use crate::path::opt_view;
use crate::repo::git::WorktreeRemoval;
use crate::util::{home_dir_text, home_view, truncate_path_with_home, truncated};

verus! {

/// How a session is offered for selection: `<id> - <name>`, followed by ` (<description>)`
/// where the description is not empty; a session without a name is `Unnamed`.
pub open spec fn choice_label(s: Session) -> Seq<char> {
    let name = match s.name {
        Some(n) => n@,
        None => "Unnamed"@,
    };
    let desc = match s.description {
        Some(d) => d@,
        None => Seq::<char>::empty(),
    };
    if desc.len() == 0 {
        s.id@ + " - "@ + name
    } else {
        s.id@ + " - "@ + name + " ("@ + desc + ")"@
    }
}

/// The label under which `session` is offered (see `choice_label`).
pub fn session_label(session: &Session) -> (label: String)
    ensures
        label@ == choice_label(*session),
{
    let name: &str = match &session.name {
        Some(n) => n.as_str(),
        None => "Unnamed",
    };
    let head = session.id.clone().concat(" - ").concat(name);
    match &session.description {
        Some(d) => {
            if d.as_str().unicode_len() == 0 {
                head
            } else {
                head.concat(" (").concat(d.as_str()).concat(")")
            }
        },
        None => head,
    }
}

/// The labels of all sessions, in the map's order.
pub fn session_choices(sessions: &SessionMap) -> (choices: Vec<String>)
    ensures
        choices@.len() == sessions.keys().len(),
        forall|i: int| 0 <= i < choices@.len() ==> #[trigger] choices@[i]@ == choice_label(sessions.values()[i]),
{
    let n = sessions.len();
    let mut choices: Vec<String> = Vec::new();
    for i in 0..n
        invariant
            n == sessions.keys().len(),
            choices@.len() == i,
            forall|j: int| 0 <= j < i ==> #[trigger] choices@[j]@ == choice_label(sessions.values()[j]),
    {
        choices.push(session_label(sessions.value_at(i)));
    }
    choices
}

/// The key of the first session whose label is `selection`, if any.
pub fn selected_key(sessions: &SessionMap, selection: &str) -> (key: Option<String>)
    ensures
        match key {
            Some(k) => exists|i: int|
                0 <= i < sessions.keys().len() && sessions.keys()[i] == k@ && choice_label(
                    #[trigger] sessions.values()[i],
                ) == selection@ && forall|j: int|
                    0 <= j < i ==> choice_label(#[trigger] sessions.values()[j]) != selection@,
            None => forall|i: int|
                0 <= i < sessions.keys().len() ==> choice_label(#[trigger] sessions.values()[i])
                    != selection@,
        },
        key matches Some(k) ==> sessions@.contains_key(k@),
{
    let n = sessions.len();
    let mut i: usize = 0;
    while i < n
        invariant
            n == sessions.keys().len(),
            sessions.consistent(),
            i <= n,
            forall|j: int| 0 <= j < i ==> choice_label(#[trigger] sessions.values()[j]) != selection@,
        decreases n - i,
    {
        let label = session_label(sessions.value_at(i));
        if crate::text::same_text(label.as_str(), selection) {
            let k = sessions.key_at(i).clone();
            assert(sessions@.contains_key(k@)) by {
                assert(sessions.keys().contains(sessions.keys()[i as int]));
            }
            return Some(k);
        }
        i = i + 1;
    }
    None
}

/// The labels to choose a session to open from; there must be at least one session.
pub fn open_choices(sessions: &SessionMap) -> (r: Result<Vec<String>, ZsError>)
    ensures
        sessions.keys().len() == 0 <==> r is Err,
        r is Err ==> (r matches Err(e) && e is NoSessions),
        r matches Ok(choices) ==> choices@.len() == sessions.keys().len() && forall|i: int|
            0 <= i < choices@.len() ==> #[trigger] choices@[i]@ == choice_label(sessions.values()[i]),
{
    if sessions.is_empty() {
        return Err(ZsError::NoSessions);
    }
    Ok(session_choices(sessions))
}

/// The labels to choose a session to remove from; there must be at least one session.
pub fn remove_choices(sessions: &SessionMap) -> (r: Result<Vec<String>, ZsError>)
    ensures
        sessions.keys().len() == 0 <==> r is Err,
        r is Err ==> (r matches Err(e) && e is NoSessionsToRemove),
        r matches Ok(choices) ==> choices@.len() == sessions.keys().len() && forall|i: int|
            0 <= i < choices@.len() ==> #[trigger] choices@[i]@ == choice_label(sessions.values()[i]),
{
    if sessions.is_empty() {
        return Err(ZsError::NoSessionsToRemove);
    }
    Ok(session_choices(sessions))
}

/// Records that the session stored under `key` was opened at `now`; nothing changes where
/// there is no such session.
pub fn mark_opened(sessions: &mut SessionMap, key: &str, now: Timestamp) -> (found: bool)
    ensures
        found == old(sessions)@.contains_key(key@),
        found ==> final(sessions)@ == old(sessions)@.insert(
            key@,
            Session { last_opened: Some(now), ..old(sessions)@[key@] },
        ),
        !found ==> final(sessions)@ == old(sessions)@,
        final(sessions).keys() == old(sessions).keys(),
{
    match sessions.get(key) {
        Some(s) => {
            let mut updated = s.clone();
            updated.last_opened = Some(now);
            sessions.insert(text(key), updated);
            true
        },
        None => false,
    }
}

/// What choosing an id for a new session for `abs_path` gives when the home directory is
/// `home`: the truncated path where no session has that id yet, the refusal naming that id
/// otherwise.
pub open spec fn new_id_outcome(
    sessions: Map<Seq<char>, Session>,
    abs_path: Seq<char>,
    home: Option<Seq<char>>,
    r: Result<String, ZsError>,
) -> bool {
    let id = truncated(abs_path, home);
    match r {
        Ok(i) => i@ == id && !sessions.contains_key(id),
        Err(ZsError::SessionExists { id: i }) => i@ == id && sessions.contains_key(id),
        Err(_) => false,
    }
}

/// The id of a new session for the directory `abs_path`, the home directory being `home`:
/// its truncated form, which no session may have yet.
pub fn new_session_id_with_home(sessions: &SessionMap, abs_path: &str, home: Option<&str>) -> (r: Result<String, ZsError>)
    ensures
        new_id_outcome(sessions@, abs_path@, opt_view(home), r),
{
    let id = truncate_path_with_home(abs_path, home);
    if sessions.contains_key(id.as_str()) {
        return Err(ZsError::SessionExists { id });
    }
    Ok(id)
}

/// The id of a new session for the directory `abs_path` (see `new_session_id_with_home`),
/// the home directory being the current user's.
pub fn new_session_id(sessions: &SessionMap, abs_path: &str) -> (r: Result<String, ZsError>)
    ensures
        exists|home: Option<Seq<char>>| #[trigger] new_id_outcome(sessions@, abs_path@, home, r),
{
    let home = home_dir_text();
    let r = match &home {
        Some(h) => new_session_id_with_home(sessions, abs_path, Some(h.as_str())),
        None => new_session_id_with_home(sessions, abs_path, None),
    };
    assert(new_id_outcome(sessions@, abs_path@, home_view(home), r));
    r
}

/// What removing `session` asks for first: the removal of its workspace's worktree, where
/// it is the session of a workspace, once that workspace's repository is looked up in
/// `config`.
pub fn session_removal(session: &Session, config: &Config) -> (r: Result<Option<WorktreeRemoval>, ZsError>)
    ensures
        match session.workspace {
            None => r matches Ok(None),
            Some(ws) => if config.repos@.contains_key(ws.repo_name@) {
                r matches Ok(Some(w)) && config.repos@[ws.repo_name@].removes(w, ws)
            } else {
                r matches Err(ZsError::RepoNotFound { name }) && name@ == ws.repo_name@
            },
        },
{
    match &session.workspace {
        None => Ok(None),
        Some(ws) => {
            let mut ws = ws.clone();
            ws.hydrate(config)?;
            let removal = ws.delete()?;
            Ok(Some(removal))
        },
    }
}

} // verus!

verus! {

/// Law: every label that is offered leads back to a session: the first session carrying
/// that label stands at or before the offered one, which is what `selected_key` returns.
pub proof fn law_offered_choice_is_found(sessions: Seq<Session>, i: int)
    requires
        0 <= i < sessions.len(),
    ensures
        exists|j: int|
            0 <= j <= i && choice_label(#[trigger] sessions[j]) == choice_label(sessions[i]) && forall|
                k: int,
            | 0 <= k < j ==> choice_label(#[trigger] sessions[k]) != choice_label(sessions[i]),
    decreases i,
{
    let target = choice_label(sessions[i]);
    if forall|k: int| 0 <= k < i ==> choice_label(#[trigger] sessions[k]) != target {
        assert(choice_label(sessions[i]) == target);
    } else {
        let k = choose|k: int| 0 <= k < i && choice_label(#[trigger] sessions[k]) == target;
        law_offered_choice_is_found(sessions, k);
        let j = choose|j: int|
            0 <= j <= k && choice_label(#[trigger] sessions[j]) == choice_label(sessions[k]) && forall|
                m: int,
            | 0 <= m < j ==> choice_label(#[trigger] sessions[m]) != choice_label(sessions[k]);
        assert(0 <= j <= i && choice_label(sessions[j]) == target);
    }
}

} // verus!

verus! {

/// The name under which a session is shown.
pub open spec fn shown_name(s: Session) -> Seq<char> {
    match s.name {
        Some(n) => n@,
        None => "Unnamed"@,
    }
}

/// Law: a session's label starts with its id and its shown name; a non-empty description
/// appears in full in it, whatever its length, between ` (` and the closing `)` that ends
/// the label; without a description the label is no longer than id, ` - ` and name.
pub proof fn law_label_shows_description(s: Session)
    ensures
        choice_label(s).len() >= s.id@.len() as int + 3 + shown_name(s).len(),
        choice_label(s).take(s.id@.len() as int) == s.id@,
        choice_label(s).subrange(s.id@.len() as int + 3, s.id@.len() as int + 3 + shown_name(s).len()) == shown_name(s),
        s.description is Some && s.description->0@.len() > 0 ==> ({
            let d = s.description->0@;
            let start = s.id@.len() as int + 3 + shown_name(s).len() + 2;
            &&& choice_label(s).len() == start + d.len() as int + 1
            &&& choice_label(s).subrange(start, start + d.len() as int) == d
            &&& choice_label(s).last() == ')'
        }),
        (s.description is None || s.description->0@.len() == 0) ==> choice_label(s).len() == s.id@.len() as int + 3
            + shown_name(s).len(),
{
    reveal_strlit(" - ");
    reveal_strlit(" (");
    reveal_strlit(")");
    let id = s.id@;
    let name = shown_name(s);
    let head = id + " - "@ + name;
    assert(head.take(id.len() as int) =~= id);
    assert(head.subrange(id.len() as int + 3, id.len() as int + 3 + name.len()) =~= name);
    match s.description {
        Some(d) => {
            if d@.len() > 0 {
                let full = head + " ("@ + d@ + ")"@;
                assert(choice_label(s) == full);
                let start = id.len() as int + 3 + name.len() + 2;
                assert(full.subrange(start, start + d@.len() as int) =~= d@);
                assert(full.take(id.len() as int) =~= id);
                assert(full.subrange(id.len() as int + 3, id.len() as int + 3 + name.len()) =~= name);
                assert(full.last() == ')');
            } else {
                assert(choice_label(s) == head);
            }
        },
        None => {
            assert(choice_label(s) == head);
        },
    }
}

} // verus!
