//! What the shell's commands compute before they act: the command line of
//! an elevated start, and where the icon of an entry comes from.

use vstd::prelude::*;
use vstd::string::StringExecFns;

verus! {

/// The texts of `args` with one space between each two.
pub open spec fn spaced(args: Seq<String>) -> Seq<char>
    decreases args.len(),
{
    if args.len() == 0 {
        Seq::empty()
    } else if args.len() == 1 {
        args[0]@
    } else {
        spaced(args.drop_last()) + seq![' '] + args.last()@
    }
}

/// The command that starts `program` elevated, with its arguments where it
/// has any.
pub open spec fn admin_command(program: Seq<char>, args: Seq<String>) -> Seq<char> {
    if args.len() == 0 {
        "Start-Process '"@ + program + "' -Verb runAs"@
    } else {
        "Start-Process '"@ + program + "' -Verb runAs -ArgumentList '"@ + spaced(args) + "'"@
    }
}

/// Joins `args` with single spaces.
pub fn join_args(args: &Vec<String>) -> (line: String)
    ensures
        line@ == spaced(args@),
{
    let mut line = String::new();
    let mut i: usize = 0;
    while i < args.len()
        invariant
            i <= args.len(),
            line@ == spaced(args@.subrange(0, i as int)),
        decreases args.len() - i,
    {
        assert(args@.subrange(0, i + 1).drop_last() =~= args@.subrange(0, i as int));
        if i > 0 {
            proof {
                reveal_strlit(" ");
                assert(" "@ =~= seq![' ']);
            }
            line.append(" ");
        }
        line.append(args[i].as_str());
        assert(line@ =~= spaced(args@.subrange(0, i + 1)));
        i += 1;
    }
    assert(args@.subrange(0, args@.len() as int) =~= args@);
    line
}

/// The command line by which `program` is started with elevated rights.
pub fn run_as_admin_command(program: &str, args: &Vec<String>) -> (command: String)
    ensures
        command@ == admin_command(program@, args@),
{
    let mut command = String::new();
    command.append("Start-Process '");
    command.append(program);
    if args.len() == 0 {
        command.append("' -Verb runAs");
    } else {
        command.append("' -Verb runAs -ArgumentList '");
        let line = join_args(args);
        command.append(line.as_str());
        command.append("'");
    }
    assert(command@ =~= admin_command(program@, args@));
    command
}

/// `text` begins with `prefix`.
pub open spec fn begins_with(text: Seq<char>, prefix: Seq<char>) -> bool {
    prefix.len() <= text.len() && text.subrange(0, prefix.len() as int) == prefix
}

/// Whether `text` begins with `prefix`.
pub fn has_prefix(text: &str, prefix: &str) -> (yes: bool)
    ensures
        yes == begins_with(text@, prefix@),
{
    let n = prefix.unicode_len();
    if text.unicode_len() < n {
        return false;
    }
    let mut i: usize = 0;
    while i < n
        invariant
            i <= n,
            n == prefix@.len(),
            n <= text@.len(),
            text@.subrange(0, i as int) == prefix@.subrange(0, i as int),
        decreases n - i,
    {
        if text.get_char(i) != prefix.get_char(i) {
            assert(text@.subrange(0, n as int)[i as int] != prefix@[i as int]);
            return false;
        }
        assert(text@.subrange(0, i + 1) =~= text@.subrange(0, i as int).push(text@[i as int]));
        assert(prefix@.subrange(0, i + 1) =~= prefix@.subrange(0, i as int).push(
            prefix@[i as int],
        ));
        i += 1;
    }
    assert(prefix@.subrange(0, n as int) =~= prefix@);
    true
}

/// `text` with every match of `from` replaced by `to`. The matches are
/// taken from left to right, and a match begins only behind the match
/// before it. The pattern `from` is not empty.
pub open spec fn replaced(text: Seq<char>, from: Seq<char>, to: Seq<char>) -> Seq<char>
    recommends
        from.len() > 0,
    decreases text.len(),
{
    if from.len() == 0 || text.len() < from.len() {
        text
    } else if text.subrange(0, from.len() as int) == from {
        to + replaced(text.subrange(from.len() as int, text.len() as int), from, to)
    } else {
        seq![text[0]] + replaced(text.drop_first(), from, to)
    }
}

/// `str::replace`, for a pattern that is not empty: a copy of `text` in
/// which every match of `from` is replaced by `to`.
#[verifier::external_body]
fn replace_all(text: &str, from: &str, to: &str) -> (out: String)
    requires
        from@.len() > 0,
    ensures
        out@ == replaced(text@, from@, to@),
{
    text.replace(from, to)
}

/// Where the icon of an entry is taken from.
#[derive(Clone, Debug)]
pub enum IconSource {
    /// A packaged application, by its application user model id.
    Umid(String),
    /// A file.
    File(String),
}

/// The source of the icon for `path`: a path into the folder of packaged
/// applications names an application, any other path names a file.
pub fn icon_source(path: &str) -> (source: IconSource)
    ensures
        begins_with(path@, "shell:AppsFolder"@) ==> (source matches IconSource::Umid(umid)
            && umid@ == replaced(path@, "shell:AppsFolder\\"@, ""@)),
        !begins_with(path@, "shell:AppsFolder"@) ==> (source matches IconSource::File(file)
            && file@ == path@),
{
    if has_prefix(path, "shell:AppsFolder") {
        proof {
            reveal_strlit("shell:AppsFolder\\");
        }
        IconSource::Umid(replace_all(path, "shell:AppsFolder\\", ""))
    } else {
        IconSource::File(path.to_owned())
    }
}

} // verus!
