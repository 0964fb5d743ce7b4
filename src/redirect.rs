use vstd::prelude::*;

use crate::error::ShellError;
use crate::lexer::views;

verus! {

/// How a redirect target is written.
#[derive(Clone, Copy, Debug, PartialEq, Eq, Structural)]
pub enum Mode {
    /// Prior content is discarded.
    Truncate,
    /// Output goes after the existing bytes.
    Append,
}

/// A standard stream that can be redirected.
#[derive(Clone, Copy, Debug, PartialEq, Eq, Structural)]
pub enum Stream {
    Stdout,
    Stderr,
}

/// A file that a stream is sent to.
#[derive(Debug)]
pub struct RedirectTarget {
    pub path: String,
    pub mode: Mode,
}

pub struct TargetView {
    pub path: Seq<char>,
    pub mode: Mode,
}

impl View for RedirectTarget {
    type V = TargetView;

    open spec fn view(&self) -> TargetView {
        TargetView { path: self.path@, mode: self.mode }
    }
}

pub open spec fn target_view(t: Option<RedirectTarget>) -> Option<TargetView> {
    match t {
        Some(t) => Some(t@),
        None => None,
    }
}

/// A command name with its arguments and the targets of its streams.
#[derive(Debug)]
pub struct ParsedCommand {
    pub name: String,
    pub args: Vec<String>,
    pub stdout: Option<RedirectTarget>,
    pub stderr: Option<RedirectTarget>,
}

pub struct CommandView {
    pub name: Seq<char>,
    pub args: Seq<Seq<char>>,
    pub stdout: Option<TargetView>,
    pub stderr: Option<TargetView>,
}

impl View for ParsedCommand {
    type V = CommandView;

    open spec fn view(&self) -> CommandView {
        CommandView {
            name: self.name@,
            args: views(self.args@),
            stdout: target_view(self.stdout),
            stderr: target_view(self.stderr),
        }
    }
}

/// The stream and mode that a token names as a redirection operator.
pub open spec fn redirect_op(t: Seq<char>) -> Option<(Stream, Mode)> {
    if t == seq!['>'] || t == seq!['1', '>'] {
        Some((Stream::Stdout, Mode::Truncate))
    } else if t == seq!['>', '>'] || t == seq!['1', '>', '>'] {
        Some((Stream::Stdout, Mode::Append))
    } else if t == seq!['2', '>'] {
        Some((Stream::Stderr, Mode::Truncate))
    } else if t == seq!['2', '>', '>'] {
        Some((Stream::Stderr, Mode::Append))
    } else {
        None
    }
}

/// Scans the tokens from index `i` on, with `acc` holding what came before.
pub open spec fn scan(toks: Seq<Seq<char>>, i: int, acc: CommandView) -> Result<
    CommandView,
    ShellError,
>
    decreases toks.len() - i,
{
    if i >= toks.len() || i < 0 {
        Ok(acc)
    } else {
        match redirect_op(toks[i]) {
            None => scan(toks, i + 1, CommandView { args: acc.args.push(toks[i]), ..acc }),
            Some((stream, mode)) => {
                let taken = match stream {
                    Stream::Stdout => acc.stdout is Some,
                    Stream::Stderr => acc.stderr is Some,
                };
                if taken {
                    Err(ShellError::DuplicateRedirect(stream))
                } else if i + 1 >= toks.len() {
                    Err(ShellError::MissingRedirectTarget)
                } else {
                    let t = TargetView { path: toks[i + 1], mode };
                    let next = match stream {
                        Stream::Stdout => CommandView { stdout: Some(t), ..acc },
                        Stream::Stderr => CommandView { stderr: Some(t), ..acc },
                    };
                    scan(toks, i + 2, next)
                }
            },
        }
    }
}

/// The command that a non-empty token sequence describes: the first token
/// names it, operators with their targets are taken out, the rest are its
/// arguments in order.
pub open spec fn extract_spec(toks: Seq<Seq<char>>) -> Result<CommandView, ShellError> {
    scan(
        toks,
        1,
        CommandView { name: toks[0], args: Seq::empty(), stdout: None, stderr: None },
    )
}

/// Which redirection operator `t` is, if any.
pub fn operator(t: &String) -> (r: Option<(Stream, Mode)>)
    ensures
        r == redirect_op(t@),
{
    let s = t.as_str();
    let n = s.unicode_len();
    if n == 1 {
        if s.get_char(0) == '>' {
            assert(t@ =~= seq!['>']);
            return Some((Stream::Stdout, Mode::Truncate));
        }
    } else if n == 2 {
        let a = s.get_char(0);
        let b = s.get_char(1);
        if b == '>' {
            if a == '1' {
                assert(t@ =~= seq!['1', '>']);
                return Some((Stream::Stdout, Mode::Truncate));
            } else if a == '>' {
                assert(t@ =~= seq!['>', '>']);
                return Some((Stream::Stdout, Mode::Append));
            } else if a == '2' {
                assert(t@ =~= seq!['2', '>']);
                return Some((Stream::Stderr, Mode::Truncate));
            }
        }
    } else if n == 3 {
        let a = s.get_char(0);
        if s.get_char(1) == '>' && s.get_char(2) == '>' {
            if a == '1' {
                assert(t@ =~= seq!['1', '>', '>']);
                return Some((Stream::Stdout, Mode::Append));
            } else if a == '2' {
                assert(t@ =~= seq!['2', '>', '>']);
                return Some((Stream::Stderr, Mode::Append));
            }
        }
    }
    assert(t@ != seq!['>'] ==> t@.len() != 1 || t@[0] != '>');
    None
}

/// Splits a non-empty token sequence into the command name, its arguments
/// and its redirect targets.
pub fn extract(tokens: &Vec<String>) -> (r: Result<ParsedCommand, ShellError>)
    requires
        tokens.len() > 0,
    ensures
        match r {
            Ok(c) => extract_spec(views(tokens@)) == Ok::<CommandView, ShellError>(c@),
            Err(e) => extract_spec(views(tokens@)) == Err::<CommandView, ShellError>(e),
        },
{
    let ghost toks = views(tokens@);
    let name = tokens[0].clone();
    let mut args: Vec<String> = Vec::new();
    let mut stdout: Option<RedirectTarget> = None;
    let mut stderr: Option<RedirectTarget> = None;
    let n = tokens.len();
    let mut i: usize = 1;
    assert(views(args@) =~= Seq::<Seq<char>>::empty());
    while i < n
        invariant
            n == tokens.len(),
            toks == views(tokens@),
            1 <= i <= n,
            name@ == toks[0],
            scan(
                toks,
                i as int,
                CommandView {
                    name: name@,
                    args: views(args@),
                    stdout: target_view(stdout),
                    stderr: target_view(stderr),
                },
            ) == extract_spec(toks),
        decreases n - i,
    {
        let tok = &tokens[i];
        assert(tok@ == toks[i as int]);
        let ghost acc = CommandView {
            name: name@,
            args: views(args@),
            stdout: target_view(stdout),
            stderr: target_view(stderr),
        };
        match operator(tok) {
            None => {
                args.push(tok.clone());
                assert(views(args@) =~= acc.args.push(toks[i as int]));
                assert(scan(toks, i as int, acc) == scan(
                    toks,
                    i + 1,
                    CommandView { args: acc.args.push(toks[i as int]), ..acc },
                ));
                i = i + 1;
            },
            Some((stream, mode)) => {
                let taken = match stream {
                    Stream::Stdout => stdout.is_some(),
                    Stream::Stderr => stderr.is_some(),
                };
                if taken {
                    return Err(ShellError::DuplicateRedirect(stream));
                }
                if i + 1 >= n {
                    return Err(ShellError::MissingRedirectTarget);
                }
                let target = RedirectTarget { path: tokens[i + 1].clone(), mode };
                assert(target@.path == toks[i + 1]);
                match stream {
                    Stream::Stdout => {
                        stdout = Some(target);
                        assert(target_view(stdout) == Some(target@));
                    },
                    Stream::Stderr => {
                        stderr = Some(target);
                        assert(target_view(stderr) == Some(target@));
                    },
                }
                i = i + 2;
            },
        }
    }
    Ok(ParsedCommand { name, args, stdout, stderr })
}

} // verus!
