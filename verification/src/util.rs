use vstd::prelude::*;

use crate::text::{chars_of, push_char, string_of};

verus! {

/// The components of `s` that follow the characters already gathered in `cur`:
/// the maximal runs of characters other than `/`, empty runs left out.
pub open spec fn split_from(s: Seq<char>, cur: Seq<char>) -> Seq<Seq<char>>
    decreases s.len(),
{
    if s.len() == 0 {
        if cur.len() > 0 { seq![cur] } else { seq![] }
    } else if s[0] == '/' {
        (if cur.len() > 0 { seq![cur] } else { seq![] }) + split_from(s.drop_first(), seq![])
    } else {
        split_from(s.drop_first(), cur.push(s[0]))
    }
}

/// The non-empty `/`-separated components of a path, in order.
pub open spec fn components(s: Seq<char>) -> Seq<Seq<char>> {
    split_from(s, seq![])
}

/// `home` is a leading part of `s` that ends at a `/` or at the end of `s`: `s` is the home
/// directory itself or a path below it.
pub open spec fn under_home(s: Seq<char>, home: Seq<char>) -> bool {
    &&& home.len() > 0
    &&& home.len() <= s.len()
    &&& s.take(home.len() as int) == home
    &&& (s.len() == home.len() || s[home.len() as int] == '/')
}

/// `s` with a leading home directory replaced by `~`; `s` itself where it is not the home
/// directory or below it.
pub open spec fn replace_home(s: Seq<char>, home: Option<Seq<char>>) -> Seq<char> {
    match home {
        Some(h) => if under_home(s, h) {
            seq!['~'] + s.skip(h.len() as int)
        } else {
            s
        },
        None => s,
    }
}

/// `s` holds no `/`.
pub open spec fn slash_free(s: Seq<char>) -> bool {
    forall|i: int| 0 <= i < s.len() ==> s[i] != '/'
}

/// The pieces of `q` joined by `/`.
pub open spec fn join_slash(q: Seq<Seq<char>>) -> Seq<char>
    decreases q.len(),
{
    if q.len() == 0 {
        seq![]
    } else if q.len() == 1 {
        q[0]
    } else {
        q[0] + seq!['/'] + join_slash(q.drop_first())
    }
}

/// The components of a truncated path: every one but the last two cut to its first
/// character, the last two as they are.
pub open spec fn shortened_parts(parts: Seq<Seq<char>>) -> Seq<Seq<char>> {
    Seq::new(
        parts.len(),
        |i: int|
            if i < parts.len() - 2 {
                parts[i].take(1)
            } else {
                parts[i]
            },
    )
}

/// `/` where `s` starts with one (an absolute path), nothing otherwise.
pub open spec fn root_of(s: Seq<char>) -> Seq<char> {
    if s.len() > 0 && s[0] == '/' {
        seq!['/']
    } else {
        seq![]
    }
}

/// The truncated form of `path` when the home directory is `home`: the home directory is
/// replaced by `~`; then, where more than two components remain, every component but the
/// last two is cut to its first character, the components are joined by single `/`, and
/// an absolute path stays absolute.
pub open spec fn truncated(path: Seq<char>, home: Option<Seq<char>>) -> Seq<char> {
    let t = replace_home(path, home);
    let parts = components(t);
    if parts.len() <= 2 {
        t
    } else {
        root_of(t) + join_slash(shortened_parts(parts))
    }
}

proof fn lemma_split_step(s: Seq<char>, i: int, cur: Seq<char>)
    requires
        0 <= i < s.len(),
    ensures
        s.skip(i)[0] == s[i],
        s.skip(i).drop_first() == s.skip(i + 1),
        split_from(s.skip(i), cur) == if s[i] == '/' {
            (if cur.len() > 0 { seq![cur] } else { seq![] }) + split_from(s.skip(i + 1), seq![])
        } else {
            split_from(s.skip(i + 1), cur.push(s[i]))
        },
{
    assert(s.skip(i).drop_first() =~= s.skip(i + 1));
}

/// The non-empty `/`-separated components of `s`.
fn split_components(s: &Vec<char>) -> (parts: Vec<Vec<char>>)
    ensures
        parts@.map_values(|p: Vec<char>| p@) == components(s@),
        forall|i: int| 0 <= i < parts@.len() ==> #[trigger] parts@[i]@.len() > 0,
{
    let mut parts: Vec<Vec<char>> = Vec::new();
    let mut cur: Vec<char> = Vec::new();
    let n = s.len();
    assert(s@.skip(0) =~= s@);
    assert(parts@.map_values(|p: Vec<char>| p@) =~= Seq::<Seq<char>>::empty());
    for i in 0..n
        invariant
            n == s@.len(),
            parts@.map_values(|p: Vec<char>| p@) + split_from(s@.skip(i as int), cur@)
                == components(s@),
            forall|j: int| 0 <= j < parts@.len() ==> #[trigger] parts@[j]@.len() > 0,
    {
        proof {
            lemma_split_step(s@, i as int, cur@);
        }
        let c = s[i];
        let ghost old_parts = parts@.map_values(|p: Vec<char>| p@);
        let ghost rest = split_from(s@.skip(i + 1), seq![]);
        if c == '/' {
            if cur.len() > 0 {
                let done = cur;
                cur = Vec::new();
                parts.push(done);
                assert(parts@.map_values(|p: Vec<char>| p@) =~= old_parts.push(done@));
                assert(old_parts + (seq![done@] + rest) =~= old_parts.push(done@) + rest);
            } else {
                assert(Seq::<Seq<char>>::empty() + rest =~= rest);
            }
            assert(cur@ =~= Seq::<char>::empty());
        } else {
            cur.push(c);
        }
    }
    proof {
        assert(s@.skip(n as int).len() == 0);
    }
    if cur.len() > 0 {
        let ghost old_parts = parts@.map_values(|p: Vec<char>| p@);
        let done = cur;
        parts.push(done);
        assert(parts@.map_values(|p: Vec<char>| p@) == old_parts.push(done@));
    }
    assert(parts@.map_values(|p: Vec<char>| p@) == components(s@));
    parts
}

/// Appends the characters of `v` to `s`.
fn push_all(s: &mut String, v: &Vec<char>)
    ensures
        final(s)@ == old(s)@ + v@,
{
    let ghost start = s@;
    let mut k: usize = 0;
    while k < v.len()
        invariant
            s@ == start + v@.take(k as int),
            k <= v@.len(),
        decreases v@.len() - k,
    {
        assert(v@.take(k + 1) == v@.take(k as int).push(v@[k as int]));
        push_char(s, v[k]);
        k = k + 1;
    }
    assert(v@.take(v@.len() as int) == v@);
}

/// Whether `p` is the home directory `h` or a path below it (see `under_home`).
fn is_under_home(p: &Vec<char>, h: &Vec<char>) -> (b: bool)
    ensures
        b == under_home(p@, h@),
{
    if h.len() == 0 || h.len() > p.len() {
        return false;
    }
    let mut k: usize = 0;
    while k < h.len()
        invariant
            0 < h@.len() <= p@.len(),
            k <= h@.len(),
            p@.take(k as int) == h@.take(k as int),
        decreases h@.len() - k,
    {
        if p[k] != h[k] {
            assert(p@.take(h@.len() as int)[k as int] != h@[k as int]);
            assert(h@.take(h@.len() as int) =~= h@);
            return false;
        }
        assert(p@.take(k + 1) =~= p@.take(k as int).push(p@[k as int]));
        assert(h@.take(k + 1) =~= h@.take(k as int).push(h@[k as int]));
        k = k + 1;
    }
    assert(h@.take(h@.len() as int) =~= h@);
    p.len() == h.len() || p[h.len()] == '/'
}

/// Truncates `path`, the home directory being `home` (`None` where it is unknown): the
/// home directory, or a leading path below it, becomes `~`; where more than two components
/// remain, every component but the last two is cut to its first character. Empty
/// components are dropped in that case; an absolute path stays absolute.
pub fn truncate_path_with_home(path: &str, home: Option<&str>) -> (res: String)
    ensures
        res@ == truncated(path@, match home { Some(h) => Some(h@), None => None }),
{
    let p = chars_of(path);
    let ghost home_text: Option<Seq<char>> = match home { Some(h) => Some(h@), None => None };
    // Replace the home directory with `~`.
    let mut replaced = false;
    let mut t: Vec<char> = Vec::new();
    match home {
        Some(h) => {
            let hv = chars_of(h);
            if is_under_home(&p, &hv) {
                t.push('~');
                let mut j = hv.len();
                while j < p.len()
                    invariant
                        p@ == path@,
                        hv@.len() <= j <= p@.len(),
                        t@ == seq!['~'] + p@.subrange(hv@.len() as int, j as int),
                    decreases p@.len() - j,
                {
                    assert(p@.subrange(hv@.len() as int, j + 1)
                        == p@.subrange(hv@.len() as int, j as int).push(p@[j as int]));
                    t.push(p[j]);
                    j = j + 1;
                }
                replaced = true;
            }
        },
        None => {},
    }
    if !replaced {
        t = p;
    }
    assert(t@ == replace_home(path@, home_text));
    let parts = split_components(&t);
    let ghost pv = parts@.map_values(|q: Vec<char>| q@);
    let ghost sp = shortened_parts(pv);
    let num_parts = parts.len();
    if num_parts <= 2 {
        return string_of(&t);
    }
    // An absolute path stays absolute.
    let mut result = String::new();
    if t.len() > 0 && t[0] == '/' {
        push_char(&mut result, '/');
    }
    let ghost root = result@;
    assert(root == root_of(t@));
    // Cut every part but the last two to its first character.
    for i in 0..num_parts
        invariant
            num_parts == parts@.len(),
            num_parts > 2,
            pv == parts@.map_values(|q: Vec<char>| q@),
            sp == shortened_parts(pv),
            forall|j: int| 0 <= j < parts@.len() ==> #[trigger] parts@[j]@.len() > 0,
            result@ == root + (if i == 0 { Seq::<char>::empty() } else { join_slash(sp.take(i as int)) }),
    {
        let part = &parts[i];
        assert(part@ == pv[i as int]);
        let ghost before = result@;
        if i > 0 {
            push_char(&mut result, '/');
        }
        if i < num_parts - 2 {
            push_char(&mut result, part[0]);
            assert(part@.take(1) =~= seq![part@[0]]);
            assert(seq![part@[0]] =~= Seq::<char>::empty().push(part@[0]));
        } else {
            push_all(&mut result, part);
        }
        assert(sp[i as int] == if i < num_parts - 2 { part@.take(1) } else { part@ });
        proof {
            if i == 0 {
                assert(sp.take(1) =~= seq![sp[0]]);
                assert(Seq::<char>::empty() + sp[0] =~= sp[0]);
            } else {
                lemma_join_push(sp.take(i as int), sp[i as int]);
                assert(sp.take(i + 1) =~= sp.take(i as int).push(sp[i as int]));
            }
        }
    }
    assert(sp.take(num_parts as int) =~= sp);
    result
}

/// The home directory, as text (lossily converted where it is not valid Unicode).
///
/// Trusted: calls `dirs::home_dir`. What it returns depends on the environment and the
/// user database, so nothing is stated of it.
#[verifier::external_body]
pub(crate) fn home_dir_text() -> Option<String> {
    match dirs::home_dir() {
        Some(h) => Some(h.to_string_lossy().into_owned()),
        None => None,
    }
}

/// The home directory's text as a `Seq`, where there is one.
pub open spec fn home_view(home: Option<String>) -> Option<Seq<char>> {
    match home {
        Some(h) => Some(h@),
        None => None,
    }
}

/// Truncates `path` for display (see `truncate_path_with_home`), the home directory being
/// the current user's.
pub fn truncate_path(path: &str) -> (res: String)
    ensures
        exists|home: Option<Seq<char>>| res@ == #[trigger] truncated(path@, home),
{
    let home = home_dir_text();
    let res = match &home {
        Some(h) => truncate_path_with_home(path, Some(h.as_str())),
        None => truncate_path_with_home(path, None),
    };
    assert(res@ == truncated(path@, home_view(home)));
    res
}

/// The default of the boolean settings that are on unless turned off.
pub fn default_true() -> (b: bool)
    ensures
        b,
{
    true
}

} // verus!

verus! {

proof fn lemma_split_chars(a: Seq<char>, s: Seq<char>, cur: Seq<char>)
    requires
        slash_free(a),
    ensures
        split_from(a + s, cur) == split_from(s, cur + a),
    decreases a.len(),
{
    if a.len() == 0 {
        assert(a + s =~= s);
        assert(cur + a =~= cur);
    } else {
        assert((a + s).drop_first() =~= a.drop_first() + s);
        assert((a + s)[0] == a[0]);
        lemma_split_chars(a.drop_first(), s, cur.push(a[0]));
        assert(cur.push(a[0]) + a.drop_first() =~= cur + a);
    }
}

proof fn lemma_split_pieces(s: Seq<char>, cur: Seq<char>)
    requires
        slash_free(cur),
    ensures
        forall|i: int| 0 <= i < split_from(s, cur).len() ==> #[trigger] split_from(s, cur)[i].len() > 0
            && slash_free(split_from(s, cur)[i]),
    decreases s.len(),
{
    if s.len() == 0 {
        if cur.len() > 0 {
            assert(split_from(s, cur) == seq![cur]);
            assert(split_from(s, cur)[0] == cur);
        } else {
            assert(split_from(s, cur) == Seq::<Seq<char>>::empty());
        }
    } else if s[0] == '/' {
        lemma_split_pieces(s.drop_first(), seq![]);
        let head: Seq<Seq<char>> = if cur.len() > 0 { seq![cur] } else { seq![] };
        let rest = split_from(s.drop_first(), seq![]);
        assert(split_from(s, cur) == head + rest);
        assert forall|i: int| 0 <= i < (head + rest).len() implies #[trigger] (head + rest)[i].len() > 0
            && slash_free((head + rest)[i]) by {
            if i >= head.len() {
                assert((head + rest)[i] == rest[i - head.len()]);
            }
        }
    } else {
        assert forall|i: int| 0 <= i < cur.push(s[0]).len() implies cur.push(s[0])[i] != '/' by {
            if i < cur.len() {
                assert(cur.push(s[0])[i] == cur[i]);
            }
        }
        lemma_split_pieces(s.drop_first(), cur.push(s[0]));
        assert(split_from(s, cur) == split_from(s.drop_first(), cur.push(s[0])));
    }
}

/// Every component is non-empty and holds no `/`.
proof fn lemma_components_pieces(s: Seq<char>)
    ensures
        forall|i: int| 0 <= i < components(s).len() ==> #[trigger] components(s)[i].len() > 0
            && slash_free(components(s)[i]),
{
    lemma_split_pieces(s, seq![]);
}

/// Splitting the `/`-join of non-empty `/`-free pieces gives the pieces back.
proof fn lemma_components_of_join(q: Seq<Seq<char>>)
    requires
        forall|i: int| 0 <= i < q.len() ==> #[trigger] q[i].len() > 0 && slash_free(q[i]),
    ensures
        components(join_slash(q)) == q,
    decreases q.len(),
{
    if q.len() == 0 {
        assert(components(join_slash(q)) =~= q);
    } else if q.len() == 1 {
        lemma_split_chars(q[0], seq![], seq![]);
        assert(q[0] + Seq::<char>::empty() =~= q[0]);
        assert(Seq::<char>::empty() + q[0] =~= q[0]);
        assert(q =~= seq![q[0]]);
    } else {
        let rest = q.drop_first();
        assert forall|i: int| 0 <= i < rest.len() implies #[trigger] rest[i].len() > 0 && slash_free(
            rest[i],
        ) by {
            assert(rest[i] == q[i + 1]);
        }
        lemma_components_of_join(rest);
        let tail = seq!['/'] + join_slash(rest);
        assert(q[0] + seq!['/'] + join_slash(rest) =~= q[0] + tail);
        lemma_split_chars(q[0], tail, seq![]);
        assert(Seq::<char>::empty() + q[0] =~= q[0]);
        assert(tail[0] == '/');
        assert(tail.drop_first() =~= join_slash(rest));
        assert(split_from(tail, q[0]) == seq![q[0]] + split_from(join_slash(rest), seq![]));
        assert(q =~= seq![q[0]] + rest);
    }
}

proof fn lemma_join_push(q: Seq<Seq<char>>, y: Seq<char>)
    requires
        q.len() > 0,
    ensures
        join_slash(q.push(y)) == join_slash(q) + seq!['/'] + y,
    decreases q.len(),
{
    if q.len() == 1 {
        assert(q.push(y).drop_first() =~= seq![y]);
        assert(join_slash(seq![y]) == y);
        assert(q.push(y)[0] == q[0]);
        assert(join_slash(q) == q[0]);
    } else {
        lemma_join_push(q.drop_first(), y);
        assert(q.push(y)[0] == q[0]);
        assert(q.push(y).drop_first() =~= q.drop_first().push(y));
        assert(q[0] + seq!['/'] + (join_slash(q.drop_first()) + seq!['/'] + y) =~= q[0] + seq!['/']
            + join_slash(q.drop_first()) + seq!['/'] + y);
    }
}
proof fn lemma_split_first(s: Seq<char>, cur: Seq<char>)
    requires
        cur.len() > 0,
    ensures
        split_from(s, cur).len() > 0,
        split_from(s, cur)[0].len() > 0,
        split_from(s, cur)[0][0] == cur[0],
    decreases s.len(),
{
    if s.len() > 0 && s[0] != '/' {
        lemma_split_first(s.drop_first(), cur.push(s[0]));
    }
}

proof fn lemma_split_root(s: Seq<char>)
    ensures
        components(root_of(s) + s.skip(root_of(s).len() as int)) == components(s),
        components(seq!['/'] + s) == components(s),
{
    assert((seq!['/'] + s).drop_first() =~= s);
    assert(root_of(s) + s.skip(root_of(s).len() as int) =~= s);
}

/// The truncated path, where more than two components remain, is its root followed by the
/// `/`-join of the shortened components, which holds every component.
proof fn lemma_shortened_pieces(parts: Seq<Seq<char>>)
    requires
        forall|i: int| 0 <= i < parts.len() ==> #[trigger] parts[i].len() > 0 && slash_free(parts[i]),
    ensures
        forall|i: int| 0 <= i < shortened_parts(parts).len() ==> #[trigger] shortened_parts(parts)[i].len() > 0
            && slash_free(shortened_parts(parts)[i]),
{
    let sp = shortened_parts(parts);
    assert forall|i: int| 0 <= i < sp.len() implies #[trigger] sp[i].len() > 0 && slash_free(sp[i]) by {
        assert(parts[i].len() > 0 && slash_free(parts[i]));
        if i < parts.len() - 2 {
            assert(sp[i] == parts[i].take(1));
        }
    }
}

/// Law: truncating keeps an absolute path absolute; where more than two components remain
/// after the home directory is replaced, it keeps their number and the last two, and cuts
/// every other one to its first character; otherwise it changes nothing more.
pub proof fn law_truncate_shape(path: Seq<char>, home: Option<Seq<char>>)
    ensures
        ({
            let t = replace_home(path, home);
            let parts = components(t);
            &&& parts.len() > 2 ==> components(truncated(path, home)) == shortened_parts(parts)
            &&& parts.len() <= 2 ==> truncated(path, home) == t
            &&& root_of(truncated(path, home)) == root_of(t)
        }),
{
    let t = replace_home(path, home);
    let parts = components(t);
    if parts.len() > 2 {
        lemma_components_pieces(t);
        lemma_shortened_pieces(parts);
        let sp = shortened_parts(parts);
        lemma_components_of_join(sp);
        let j = join_slash(sp);
        assert(sp[0].len() > 0 && slash_free(sp[0]));
        lemma_join_first(sp);
        if root_of(t).len() > 0 {
            lemma_split_root(j);
            assert(root_of(t) + j == seq!['/'] + j);
        } else {
            assert(root_of(t) + j =~= j);
        }
    }
}

proof fn lemma_join_first(q: Seq<Seq<char>>)
    requires
        q.len() > 0,
        q[0].len() > 0,
    ensures
        join_slash(q).len() > 0,
        join_slash(q)[0] == q[0][0],
{
    if q.len() > 1 {
        assert((q[0] + seq!['/'] + join_slash(q.drop_first()))[0] == q[0][0]);
    }
}

proof fn lemma_shortened_again(parts: Seq<Seq<char>>)
    requires
        forall|i: int| 0 <= i < parts.len() ==> #[trigger] parts[i].len() > 0,
    ensures
        shortened_parts(shortened_parts(parts)) == shortened_parts(parts),
{
    let sp = shortened_parts(parts);
    assert forall|i: int| 0 <= i < sp.len() implies #[trigger] shortened_parts(sp)[i] == sp[i] by {
        if i < parts.len() - 2 {
            assert(parts[i].len() > 0);
            assert(sp[i] =~= seq![parts[i][0]]);
            assert(sp[i].take(1) =~= sp[i]);
        }
    }
    assert(shortened_parts(sp) =~= sp);
}

/// Truncating a truncated path again, where the home directory plays no part in either
/// pass, changes nothing.
proof fn lemma_truncate_again(path: Seq<char>, home: Option<Seq<char>>)
    requires
        replace_home(truncated(path, home), home) == truncated(path, home),
    ensures
        truncated(truncated(path, home), home) == truncated(path, home),
{
    let t = replace_home(path, home);
    let parts = components(t);
    law_truncate_shape(path, home);
    if parts.len() > 2 {
        let out = truncated(path, home);
        lemma_components_pieces(t);
        lemma_shortened_again(parts);
        assert(components(out) == shortened_parts(parts));
        assert(root_of(out) == root_of(t));
    }
}

/// Law: truncating again, with no home directory, changes nothing.
pub proof fn law_truncate_idempotent(path: Seq<char>)
    ensures
        truncated(truncated(path, None), None) == truncated(path, None),
{
    lemma_truncate_again(path, None);
}

/// Law: a path that is the home directory or below it comes out starting with `~`.
pub proof fn law_truncate_marks_home(path: Seq<char>, home: Seq<char>)
    requires
        under_home(path, home),
    ensures
        truncated(path, Some(home)).len() > 0,
        truncated(path, Some(home))[0] == '~',
{
    let t = replace_home(path, Some(home));
    assert(t[0] == '~');
    assert(t.drop_first() =~= path.skip(home.len() as int));
    lemma_split_first(t.drop_first(), seq!['~']);
    let parts = components(t);
    assert(parts == split_from(t.drop_first(), seq!['~']));
    law_truncate_shape(path, Some(home));
    if parts.len() > 2 {
        let sp = shortened_parts(parts);
        assert(root_of(t) =~= Seq::<char>::empty());
        assert(sp[0] == parts[0].take(1));
        assert(sp[0][0] == '~');
        lemma_join_first(sp);
        assert(root_of(t) + join_slash(sp) =~= join_slash(sp));
    }
}

/// Law: with an absolute home directory, truncating a second time changes nothing, unless
/// the first pass turns a path that is not below the home directory into one that is (as
/// `/ab/c/d/e` with home `/a` gives `/a/c/d/e`); on those paths alone it fails.
pub proof fn law_truncate_idempotent_with_home(path: Seq<char>, home: Seq<char>)
    requires
        home.len() > 0,
        home[0] == '/',
        under_home(path, home) || !under_home(truncated(path, Some(home)), home),
    ensures
        truncated(truncated(path, Some(home)), Some(home)) == truncated(path, Some(home)),
{
    let out = truncated(path, Some(home));
    if under_home(path, home) {
        law_truncate_marks_home(path, home);
        assert(!under_home(out, home)) by {
            if under_home(out, home) {
                assert(out.take(home.len() as int)[0] == out[0]);
            }
        }
    }
    lemma_truncate_again(path, Some(home));
}

/// Law: the exact inputs on which truncating twice differs from truncating once, for an
/// absolute home directory: a path not below the home directory whose truncated form is.
pub proof fn law_truncate_twice_differs(path: Seq<char>, home: Seq<char>)
    requires
        home.len() > 0,
        home[0] == '/',
        !under_home(path, home),
        under_home(truncated(path, Some(home)), home),
    ensures
        truncated(truncated(path, Some(home)), Some(home)) != truncated(path, Some(home)),
{
    let out = truncated(path, Some(home));
    law_truncate_marks_home(out, home);
    assert(out.take(home.len() as int)[0] == out[0]);
}
} // verus!
