use vstd::prelude::*;

verus! {

/// An external program to run: its name, its arguments, and the directory to run it in
/// (the current one where `dir` is `None`).
#[derive(Debug)]
pub struct Command {
    pub program: String,
    pub args: Vec<String>,
    pub dir: Option<String>,
}

/// The characters of each string in `v`.
pub open spec fn texts(v: Seq<String>) -> Seq<Seq<char>> {
    v.map_values(|s: String| s@)
}

impl Command {
    /// The program's name as characters.
    pub open spec fn program_view(self) -> Seq<char> {
        self.program@
    }

    /// The arguments as characters.
    pub open spec fn args_view(self) -> Seq<Seq<char>> {
        texts(self.args@)
    }

    /// The working directory as characters.
    pub open spec fn dir_view(self) -> Option<Seq<char>> {
        match self.dir {
            Some(d) => Some(d@),
            None => None,
        }
    }
}

/// A command as plain text.
pub struct CommandView {
    pub program: Seq<char>,
    pub args: Seq<Seq<char>>,
    pub dir: Option<Seq<char>>,
}

/// The text of a command.
pub open spec fn command_view(c: Command) -> CommandView {
    CommandView { program: c.program_view(), args: c.args_view(), dir: c.dir_view() }
}

/// `c` runs `program` with `args` in `dir`.
pub open spec fn runs(c: Command, program: Seq<char>, args: Seq<Seq<char>>, dir: Option<Seq<char>>) -> bool {
    &&& c.program_view() == program
    &&& c.args_view() == args
    &&& c.dir_view() == dir
}

/// An owned copy of `s`.
pub fn text(s: &str) -> (r: String)
    ensures
        r@ == s@,
{
    s.to_string()
}

/// Appends a copy of `s` to `args`.
pub fn push_arg(args: &mut Vec<String>, s: &str)
    ensures
        texts(final(args)@) == texts(old(args)@).push(s@),
{
    let ghost before = texts(args@);
    args.push(text(s));
    assert(texts(args@) =~= before.push(s@));
}

/// A copy of `o`.
pub fn copy_opt(o: &Option<String>) -> (r: Option<String>)
    ensures
        r == *o,
{
    match o {
        Some(s) => Some(s.clone()),
        None => None,
    }
}

} // verus!
