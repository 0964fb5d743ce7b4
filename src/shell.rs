use vstd::prelude::*;

use vstd::string::StringExecFns;

use crate::error::ShellError;
use crate::lexer::{lex, views};
use crate::redirect::{extract, extract_spec, ParsedCommand};
use crate::resolver::{
    cache_map, candidates, first_executable, first_hit, lemma_cache_suffix, opt_view, remembered,
    search_candidates, Resolution,
};
use crate::text::same_text;

verus! {

/// The commands that the shell carries out itself.
#[derive(Clone, Copy, Debug, PartialEq, Eq, Structural)]
pub enum Builtin {
    Exit,
    Echo,
    Type,
    Pwd,
    Cd,
    Cat,
}

/// The builtin that a command name denotes, if any.
pub open spec fn builtin_of(name: Seq<char>) -> Option<Builtin> {
    if name == seq!['e', 'x', 'i', 't'] {
        Some(Builtin::Exit)
    } else if name == seq!['e', 'c', 'h', 'o'] {
        Some(Builtin::Echo)
    } else if name == seq!['t', 'y', 'p', 'e'] {
        Some(Builtin::Type)
    } else if name == seq!['p', 'w', 'd'] {
        Some(Builtin::Pwd)
    } else if name == seq!['c', 'd'] {
        Some(Builtin::Cd)
    } else if name == seq!['c', 'a', 't'] {
        Some(Builtin::Cat)
    } else {
        None
    }
}

/// The builtin that `name` denotes, if any.
pub fn builtin(name: &str) -> (r: Option<Builtin>)
    ensures
        r == builtin_of(name@),
{
    proof {
        reveal_strlit("exit");
        reveal_strlit("echo");
        reveal_strlit("type");
        reveal_strlit("pwd");
        reveal_strlit("cd");
        reveal_strlit("cat");
    }
    assert("exit"@ =~= seq!['e', 'x', 'i', 't']);
    assert("echo"@ =~= seq!['e', 'c', 'h', 'o']);
    assert("type"@ =~= seq!['t', 'y', 'p', 'e']);
    assert("pwd"@ =~= seq!['p', 'w', 'd']);
    assert("cd"@ =~= seq!['c', 'd']);
    assert("cat"@ =~= seq!['c', 'a', 't']);
    if same_text(name, "exit") {
        Some(Builtin::Exit)
    } else if same_text(name, "echo") {
        Some(Builtin::Echo)
    } else if same_text(name, "type") {
        Some(Builtin::Type)
    } else if same_text(name, "pwd") {
        Some(Builtin::Pwd)
    } else if same_text(name, "cd") {
        Some(Builtin::Cd)
    } else if same_text(name, "cat") {
        Some(Builtin::Cat)
    } else {
        None
    }
}

/// Whether `name` is one of the builtins.
pub fn is_builtin(name: &str) -> (r: bool)
    ensures
        r == (builtin_of(name@) is Some),
{
    builtin(name).is_some()
}

/// What the session is to do with one line.
#[derive(Debug)]
pub enum Action {
    /// The line holds no token.
    Nothing,
    /// The session ends.
    Exit,
    /// A builtin other than `exit` runs on the parsed command.
    Builtin(Builtin, ParsedCommand),
    /// The command is looked up on the search path.
    External(ParsedCommand),
}

/// One running instance of the interpreter: whether it goes on, and the
/// paths it has found for command names.
pub struct Shell {
    pub(crate) path_cache: Vec<(String, String)>,
    pub(crate) running: bool,
}

impl Shell {
    /// The command names resolved so far, with their paths.
    pub closed spec fn cache(&self) -> Map<Seq<char>, Seq<char>> {
        cache_map(self.path_cache@)
    }

    pub closed spec fn is_running(&self) -> bool {
        self.running
    }

    /// A session that is running and has resolved nothing yet.
    pub fn new() -> (r: Shell)
        ensures
            r.is_running(),
            r.cache() == Map::<Seq<char>, Seq<char>>::empty(),
    {
        Shell { path_cache: Vec::new(), running: true }
    }

    /// Whether the session goes on.
    pub fn running(&self) -> (r: bool)
        ensures
            r == self.is_running(),
    {
        self.running
    }

    /// Lexes a line, extracts its redirections and decides what runs: nothing
    /// for an empty line, the end of the session for `exit`, a builtin, or an
    /// external command. A malformed redirection abandons the line with its
    /// error, and an empty command name is reported as not found, so nothing
    /// is dispatched without a name.
    pub fn handle_input(&mut self, input: &str) -> (r: Result<Action, ShellError>)
        ensures
            final(self).cache() == old(self).cache(),
            lex(input@).len() == 0 ==> r matches Ok(Action::Nothing),
            lex(input@).len() > 0 ==> match extract_spec(lex(input@)) {
                Err(e) => r == Err::<Action, ShellError>(e),
                Ok(c) => if c.name.len() == 0 {
                    r matches Err(ShellError::CommandNotFound(n)) && n@ == c.name
                } else {
                    match builtin_of(c.name) {
                        Some(Builtin::Exit) => r matches Ok(Action::Exit),
                        Some(b) => r matches Ok(Action::Builtin(b2, p)) && b2 == b && p@ == c,
                        None => r matches Ok(Action::External(p)) && p@ == c,
                    }
                },
            },
            final(self).is_running() == (old(self).is_running() && !(r matches Ok(Action::Exit))),
    {
        let tokens = Shell::parse_args(input);
        if tokens.len() == 0 {
            return Ok(Action::Nothing);
        }
        let parsed = match extract(&tokens) {
            Ok(p) => p,
            Err(e) => return Err(e),
        };
        if parsed.name.as_str().unicode_len() == 0 {
            return Err(ShellError::CommandNotFound(parsed.name));
        }
        match builtin(parsed.name.as_str()) {
            Some(Builtin::Exit) => {
                self.running = false;
                Ok(Action::Exit)
            },
            Some(b) => Ok(Action::Builtin(b, parsed)),
            None => Ok(Action::External(parsed)),
        }
    }
}

impl Shell {
    /// The path cached for `name`, if any.
    pub fn cached_path(&self, name: &str) -> (r: Option<String>)
        ensures
            opt_view(r) == (if self.cache().contains_key(name@) {
                Some(self.cache()[name@])
            } else {
                None::<Seq<char>>
            }),
    {
        let key = String::from_str(name);
        let mut j: usize = self.path_cache.len();
        while j > 0
            invariant
                key@ == name@,
                j <= self.path_cache.len(),
                forall|k: int|
                    j <= k < self.path_cache@.len() ==> self.path_cache@[k].0@ != name@,
            decreases j,
        {
            if self.path_cache[j - 1].0 == key {
                proof {
                    lemma_cache_suffix(self.path_cache@, j as int, name@);
                    assert(self.path_cache@.take(j as int).drop_last() =~= self.path_cache@.take(
                        j - 1,
                    ));
                }
                return Some(self.path_cache[j - 1].1.clone());
            }
            j = j - 1;
        }
        proof {
            lemma_cache_suffix(self.path_cache@, 0, name@);
        }
        None
    }

    /// Resolves `name` against the cache; when it is not there, says which
    /// files of the search path `path_var` are to be tried. The session is
    /// left unchanged.
    pub fn resolve_command(&self, name: &str, path_var: &str) -> (r: Resolution)
        ensures
            match r {
                Resolution::Cached(p) => self.cache().contains_key(name@) && p@ == self.cache()[name@],
                Resolution::Search(c) => !self.cache().contains_key(name@) && views(c@)
                    == candidates(path_var@, name@),
            },
    {
        match self.cached_path(name) {
            Some(p) => Resolution::Cached(p),
            None => Resolution::Search(search_candidates(path_var, name)),
        }
    }

    /// Takes the outcome of trying `candidates` for `name` (which of them
    /// exist as executable files) and returns the first that does, which is
    /// kept for the rest of the session.
    pub fn record_search(
        &mut self,
        name: &str,
        candidates: &Vec<String>,
        executable: &Vec<bool>,
    ) -> (r: Option<String>)
        requires
            candidates.len() == executable.len(),
            !old(self).cache().contains_key(name@),
        ensures
            opt_view(r) == first_hit(views(candidates@), executable@),
            final(self).cache() == remembered(old(self).cache(), name@, opt_view(r)),
            final(self).is_running() == old(self).is_running(),
    {
        let found = first_executable(candidates, executable);
        match &found {
            Some(p) => {
                let ghost before = self.path_cache@;
                self.path_cache.push((String::from_str(name), p.clone()));
                assert(self.path_cache@.drop_last() =~= before);
            },
            None => {},
        }
        found
    }
}

} // verus!
