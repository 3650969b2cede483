use vstd::prelude::*;
use vstd::string::*;

use crate::text::{contains_nul, has_nul, owned, views};

verus! {

/// The pieces of `s` between single spaces, in order; two spaces in a row,
/// or a space at either end, give an empty piece.
pub open spec fn fields(s: Seq<char>) -> Seq<Seq<char>>
    decreases s.len(),
{
    if s.len() == 0 {
        seq![Seq::empty()]
    } else {
        let p = fields(s.drop_last());
        if s.last() == ' ' {
            p.push(Seq::empty())
        } else {
            p.update(p.len() - 1, p.last().push(s.last()))
        }
    }
}

/// A piece that can be handed to the operating system as an argument:
/// not empty, and free of NUL characters.
pub open spec fn usable_word(t: Seq<char>) -> bool {
    t.len() > 0 && !has_nul(t)
}

/// The extra launch flags that a flag string yields: its space-separated
/// pieces, with the empty and unusable ones dropped.
pub open spec fn flag_words(s: Seq<char>) -> Seq<Seq<char>> {
    fields(s).filter(|t: Seq<char>| usable_word(t))
}

proof fn lemma_fields_nonempty(s: Seq<char>)
    ensures
        fields(s).len() >= 1,
    decreases s.len(),
{
    if s.len() > 0 {
        lemma_fields_nonempty(s.drop_last());
    }
}

proof fn lemma_words_push(done: Seq<Seq<char>>, cur: Seq<char>)
    ensures
        done.push(cur).filter(|t: Seq<char>| usable_word(t)) == (if usable_word(cur) {
            done.filter(|t: Seq<char>| usable_word(t)).push(cur)
        } else {
            done.filter(|t: Seq<char>| usable_word(t))
        }),
{
    reveal_with_fuel(Seq::filter, 1);
    assert(done.push(cur).drop_last() =~= done);
}

/// Splits a flag string on single spaces, dropping empty pieces and pieces
/// that hold a NUL character.
pub fn split_flags(flags: &str) -> (r: Vec<String>)
    ensures
        views(r@) == flag_words(flags@),
{
    let n = flags.unicode_len();
    let mut out: Vec<String> = Vec::new();
    let mut start: usize = 0;
    let mut i: usize = 0;
    let ghost mut done: Seq<Seq<char>> = Seq::empty();
    proof {
        assert(flags@.take(0) =~= Seq::<char>::empty());
        assert(flags@.subrange(0, 0) =~= Seq::<char>::empty());
    }
    while i < n
        invariant
            n == flags@.len(),
            start <= i <= n,
            fields(flags@.take(i as int)) == done.push(flags@.subrange(start as int, i as int)),
            views(out@) == done.filter(|t: Seq<char>| usable_word(t)),
        decreases n - i,
    {
        let c = flags.get_char(i);
        let ghost cur = flags@.subrange(start as int, i as int);
        proof {
            assert(flags@.take(i + 1).drop_last() =~= flags@.take(i as int));
            assert(flags@.take(i + 1).last() == c);
        }
        if c == ' ' {
            let word = flags.substring_char(start, i);
            let ghost before = out@;
            if word.unicode_len() > 0 && !contains_nul(word) {
                let w = owned(word);
                out.push(w);
                assert(views(out@) =~= views(before).push(w@));
            }
            proof {
                lemma_words_push(done, cur);
                done = done.push(cur);
                assert(flags@.subrange((i + 1) as int, (i + 1) as int) =~= Seq::<char>::empty());
            }
            start = i + 1;
        } else {
            proof {
                assert(flags@.subrange(start as int, i + 1) =~= cur.push(c));
                assert(done.push(cur).update(done.len() as int, cur.push(c)) =~= done.push(
                    cur.push(c),
                ));
            }
        }
        i = i + 1;
    }
    let last = flags.substring_char(start, n);
    let ghost cur = last@;
    let ghost before = out@;
    if last.unicode_len() > 0 && !contains_nul(last) {
        let w = owned(last);
        out.push(w);
        assert(views(out@) =~= views(before).push(w@));
    }
    proof {
        assert(flags@.take(n as int) =~= flags@);
        lemma_words_push(done, cur);
    }
    out
}

/// What the server process is started as: the program to run and its whole
/// argument vector, program name first.
#[derive(Debug, PartialEq, Eq)]
pub struct LaunchDescriptor {
    pub program: String,
    pub args: Vec<String>,
}

impl LaunchDescriptor {
    pub closed spec fn spec_program(&self) -> Seq<char> {
        self.program@
    }

    pub closed spec fn spec_args(&self) -> Seq<Seq<char>> {
        views(self.args@)
    }

    /// The program to run.
    pub fn program(&self) -> (r: &str)
        ensures
            r@ == self.spec_program(),
    {
        self.program.as_str()
    }

    /// The argument vector, program name first.
    pub fn args(&self) -> (r: &Vec<String>)
        ensures
            views(r@) == self.spec_args(),
    {
        &self.args
    }

    /// An equal, independent descriptor.
    pub fn duplicate(&self) -> (r: LaunchDescriptor)
        ensures
            r.spec_program() == self.spec_program(),
            r.spec_args() == self.spec_args(),
    {
        let mut args: Vec<String> = Vec::new();
        let mut i: usize = 0;
        while i < self.args.len()
            invariant
                i <= self.args@.len(),
                args@ == self.args@.take(i as int),
            decreases self.args@.len() - i,
        {
            args.push(self.args[i].clone());
            assert(args@ =~= self.args@.take(i + 1));
            i = i + 1;
        }
        assert(self.args@.take(self.args@.len() as int) =~= self.args@);
        LaunchDescriptor { program: self.program.clone(), args }
    }
}

/// Why a launch descriptor could not be built.
#[derive(Debug, Clone, Copy, PartialEq, Eq, Structural)]
pub enum LaunchError {
    /// The runtime executable's path holds a NUL character.
    NulInProgram,
    /// The server artifact's path holds a NUL character.
    NulInArtifact,
}

/// The argument vector that starts the server: the runtime executable, the
/// usable extra flags, then `-jar <artifact> --nogui`.
pub open spec fn launch_args(program: Seq<char>, flags: Seq<char>, artifact: Seq<char>) -> Seq<
    Seq<char>,
> {
    seq![program] + flag_words(flags) + seq!["-jar"@, artifact, "--nogui"@]
}

/// Builds the launch descriptor for the server: `program` is the runtime
/// executable, `flags` the user's space-separated extra flags, `artifact` the
/// path of the server archive. Fails only where a path cannot be passed to the
/// operating system; flag pieces that cannot are dropped.
pub fn build_launch(program: &str, flags: &str, artifact: &str) -> (r: Result<
    LaunchDescriptor,
    LaunchError,
>)
    ensures
        has_nul(program@) ==> r == Err::<LaunchDescriptor, LaunchError>(LaunchError::NulInProgram),
        !has_nul(program@) && has_nul(artifact@) ==> r == Err::<LaunchDescriptor, LaunchError>(
            LaunchError::NulInArtifact,
        ),
        !has_nul(program@) && !has_nul(artifact@) ==> r is Ok,
        r matches Ok(d) ==> d.spec_program() == program@ && d.spec_args() == launch_args(
            program@,
            flags@,
            artifact@,
        ),
{
    if contains_nul(program) {
        return Err(LaunchError::NulInProgram);
    }
    if contains_nul(artifact) {
        return Err(LaunchError::NulInArtifact);
    }
    let mut args: Vec<String> = Vec::new();
    args.push(owned(program));
    let mut words = split_flags(flags);
    let ghost first = args@;
    let ghost middle = words@;
    args.append(&mut words);
    let ghost with_words = args@;
    args.push(owned("-jar"));
    args.push(owned(artifact));
    args.push(owned("--nogui"));
    proof {
        assert(with_words =~= first + middle);
        assert(views(first + middle) =~= views(first) + views(middle));
        assert(views(args@) =~= launch_args(program@, flags@, artifact@));
    }
    Ok(LaunchDescriptor { program: owned(program), args })
}

/// The arguments that run the pack installer on the runtime: the installer
/// archive in headless server mode, pointed at the pack manifest.
pub open spec fn installer_arg_views(installer: Seq<char>, manifest_url: Seq<char>) -> Seq<
    Seq<char>,
> {
    seq!["-jar"@, installer, "-g"@, "-s"@, "server"@, manifest_url]
}

/// Builds the arguments, after the program name, that run the installer
/// archive `installer` against the pack manifest at `manifest_url`.
pub fn installer_args(installer: &str, manifest_url: &str) -> (r: Vec<String>)
    ensures
        views(r@) == installer_arg_views(installer@, manifest_url@),
{
    let mut r: Vec<String> = Vec::new();
    r.push(owned("-jar"));
    r.push(owned(installer));
    r.push(owned("-g"));
    r.push(owned("-s"));
    r.push(owned("server"));
    r.push(owned(manifest_url));
    assert(views(r@) =~= installer_arg_views(installer@, manifest_url@));
    r
}

} // verus!
