use vstd::prelude::*;

use vstd::string::StringExecFns;

use crate::error::ShellError;
use crate::lexer::views;
use crate::shell::{builtin, builtin_of};
use crate::text::same_text;

verus! {

/// Text that a builtin sends to one of the two streams.
#[derive(Debug)]
pub enum Report {
    Stdout(String),
    Stderr(String),
}

/// The words separated by single spaces.
pub open spec fn join_words(s: Seq<Seq<char>>) -> Seq<char>
    decreases s.len(),
{
    if s.len() == 0 {
        Seq::empty()
    } else if s.len() == 1 {
        s[0]
    } else {
        join_words(s.drop_last()) + seq![' '] + s.last()
    }
}

/// What `echo` prints: its arguments separated by single spaces, and a
/// newline.
pub fn echo(args: &Vec<String>) -> (r: String)
    ensures
        r@ == join_words(views(args@)) + seq!['\n'],
{
    let ghost w = views(args@);
    let mut out = String::new();
    let mut i: usize = 0;
    assert(w.take(0) =~= Seq::<Seq<char>>::empty());
    while i < args.len()
        invariant
            w == views(args@),
            i <= args.len(),
            out@ == join_words(w.take(i as int)),
        decreases args.len() - i,
    {
        assert(w.take(i + 1).drop_last() =~= w.take(i as int));
        assert(w.take(i + 1).last() == args[i as int]@);
        if i > 0 {
            out.append(" ");
            proof {
                reveal_strlit(" ");
            }
        } else {
            assert(out@ =~= Seq::<char>::empty());
        }
        out.append(args[i].as_str());
        assert(i == 0 ==> out@ =~= w.take(i + 1)[0]);
        i = i + 1;
    }
    assert(w.take(args.len() as int) =~= w);
    out.append("\n");
    proof {
        reveal_strlit("\n");
    }
    out
}

pub open spec fn type_builtin_line(name: Seq<char>) -> Seq<char> {
    name + " is a shell builtin\n"@
}

pub open spec fn type_path_line(name: Seq<char>, path: Seq<char>) -> Seq<char> {
    name + " is "@ + path + "\n"@
}

pub open spec fn type_missing_line(name: Seq<char>) -> Seq<char> {
    name + ": not found\n"@
}

/// What `type` reports for its first argument: that it is a builtin, the
/// path that resolution found for it (`resolved`), or that it is not found.
/// Without an argument it fails.
pub fn type_builtin(args: &Vec<String>, resolved: Option<String>) -> (r: Result<Report, ShellError>)
    ensures
        args.len() == 0 <==> r is Err,
        args.len() == 0 ==> (r matches Err(ShellError::InvalidInput(m)) && m@
            == "type: missing argument"@),
        args.len() > 0 ==> ({
            let name = args[0]@;
            if builtin_of(name) is Some {
                r matches Ok(Report::Stdout(t)) && t@ == type_builtin_line(name)
            } else {
                match resolved {
                    Some(p) => r matches Ok(Report::Stdout(t)) && t@ == type_path_line(name, p@),
                    None => r matches Ok(Report::Stderr(t)) && t@ == type_missing_line(name),
                }
            }
        }),
{
    if args.len() == 0 {
        return Err(ShellError::InvalidInput(String::from_str("type: missing argument")));
    }
    let name = &args[0];
    if builtin(name.as_str()).is_some() {
        return Ok(Report::Stdout(name.clone().concat(" is a shell builtin\n")));
    }
    match resolved {
        Some(p) => Ok(Report::Stdout(name.clone().concat(" is ").concat(p.as_str()).concat("\n"))),
        None => Ok(Report::Stderr(name.clone().concat(": not found\n"))),
    }
}

/// The directory that `cd` changes to: its argument, or `home` for `~`.
/// Without an argument, or for `~` without a home directory, it fails.
pub fn cd_target(args: &Vec<String>, home: Option<String>) -> (r: Result<String, ShellError>)
    ensures
        args.len() == 0 ==> (r matches Err(ShellError::InvalidInput(m)) && m@
            == "cd: missing argument"@),
        args.len() > 0 && args[0]@ != "~"@ ==> (r matches Ok(t) && t@ == args[0]@),
        args.len() > 0 && args[0]@ == "~"@ ==> match home {
            Some(h) => r matches Ok(t) && t@ == h@,
            None => r matches Err(ShellError::InvalidInput(m)) && m@ == "No home dir"@,
        },
{
    if args.len() == 0 {
        return Err(ShellError::InvalidInput(String::from_str("cd: missing argument")));
    }
    if same_text(args[0].as_str(), "~") {
        match home {
            Some(h) => Ok(h),
            None => Err(ShellError::InvalidInput(String::from_str("No home dir"))),
        }
    } else {
        Ok(args[0].clone())
    }
}

/// Relies on `dirs::home_dir`: the user's home directory when one is known,
/// read from the environment, so nothing is promised of it; the path is
/// turned into text.
#[verifier::external_body]
fn home_directory() -> (r: Option<String>) {
    match dirs::home_dir() {
        Some(p) => Some(p.to_string_lossy().into_owned()),
        None => None,
    }
}

/// The directory that `cd` changes to, with `~` standing for the user's home
/// directory, which is looked up only then.
pub fn cd(args: &Vec<String>) -> (r: Result<String, ShellError>)
    ensures
        args.len() == 0 ==> (r matches Err(ShellError::InvalidInput(m)) && m@
            == "cd: missing argument"@),
        args.len() > 0 && args[0]@ != "~"@ ==> (r matches Ok(t) && t@ == args[0]@),
        args.len() > 0 && args[0]@ == "~"@ ==> (r is Ok || (r matches Err(
            ShellError::InvalidInput(m),
        ) && m@ == "No home dir"@)),
{
    if args.len() > 0 && same_text(args[0].as_str(), "~") {
        let home = home_directory();
        cd_target(args, home)
    } else {
        cd_target(args, None)
    }
}

/// What `cd` reports when it cannot change to `target`.
pub fn cd_failure_message(target: &str) -> (r: String)
    ensures
        r@ == "cd: "@ + target@ + ": No such file or directory"@,
{
    String::from_str("cd: ").concat(target).concat(": No such file or directory")
}

/// What `cat` reports when it cannot read `file`.
pub fn cat_failure_message(file: &str) -> (r: String)
    ensures
        r@ == "cat: "@ + file@ + ": No such file or directory"@,
{
    String::from_str("cat: ").concat(file).concat(": No such file or directory")
}

} // verus!
