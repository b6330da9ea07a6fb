use vstd::prelude::*;

use crate::text::{chars_of, push_char, string_of};

verus! {

/// `base` extended by `p`, as a path is joined on Unix: an absolute `p` replaces `base`;
/// otherwise `p` follows `base`, with a `/` between them unless `base` is empty or
/// already ends with one.
pub open spec fn joined(base: Seq<char>, p: Seq<char>) -> Seq<char> {
    if p.len() > 0 && p[0] == '/' {
        p
    } else if base.len() == 0 || base.last() == '/' {
        base + p
    } else {
        base + seq!['/'] + p
    }
}

/// `base` joined with `p` (see `joined`).
pub fn join_path(base: &str, p: &str) -> (r: String)
    ensures
        r@ == joined(base@, p@),
{
    let bv = chars_of(base);
    let pv = chars_of(p);
    if pv.len() > 0 && pv[0] == '/' {
        return string_of(&pv);
    }
    let mut out = string_of(&bv);
    if bv.len() > 0 && bv[bv.len() - 1] != '/' {
        push_char(&mut out, '/');
    }
    let ghost start = out@;
    let mut i: usize = 0;
    while i < pv.len()
        invariant
            pv@ == p@,
            i <= pv@.len(),
            out@ == start + pv@.take(i as int),
        decreases pv@.len() - i,
    {
        assert(pv@.take(i + 1) == pv@.take(i as int).push(pv@[i as int]));
        push_char(&mut out, pv[i]);
        i = i + 1;
    }
    assert(pv@.take(pv@.len() as int) == pv@);
    out
}

} // verus!

verus! {

/// The directory that holds the program's file: `base` where it is given, `fallback` below
/// `home` otherwise, nothing where neither is known.
pub open spec fn data_dir(base: Option<Seq<char>>, home: Option<Seq<char>>, fallback: Seq<char>) -> Option<
    Seq<char>,
> {
    match base {
        Some(b) => Some(b),
        None => match home {
            Some(h) => Some(joined(h, fallback)),
            None => None,
        },
    }
}

/// Where the program keeps `file`: `zs/<file>` below the directory chosen by `data_dir`.
pub open spec fn zs_file(base: Option<Seq<char>>, home: Option<Seq<char>>, fallback: Seq<char>, file: Seq<char>) -> Option<Seq<char>> {
    match data_dir(base, home, fallback) {
        Some(d) => Some(joined(joined(d, "zs"@), file)),
        None => None,
    }
}

/// The text of an optional string.
pub open spec fn opt_view(o: Option<&str>) -> Option<Seq<char>> {
    match o {
        Some(s) => Some(s@),
        None => None,
    }
}

/// Where the program keeps `file` (see `zs_file`).
pub fn zs_file_path(base: Option<&str>, home: Option<&str>, fallback: &str, file: &str) -> (p: Option<String>)
    ensures
        p matches Some(p) ==> zs_file(opt_view(base), opt_view(home), fallback@, file@) == Some(p@),
        p is None ==> zs_file(opt_view(base), opt_view(home), fallback@, file@) is None,
{
    let dir = match base {
        Some(b) => crate::command::text(b),
        None => match home {
            Some(h) => join_path(h, fallback),
            None => return None,
        },
    };
    let zs = join_path(dir.as_str(), "zs");
    Some(join_path(zs.as_str(), file))
}

} // verus!
