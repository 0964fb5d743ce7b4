use vstd::prelude::*;

use crate::shell::Shell;
use crate::text::{is_space, is_space_spec, push_char};

verus! {

/// Which kind of quotation the lexer is inside.
#[derive(Clone, Copy, Debug, PartialEq, Eq, Structural)]
pub enum QuoteState {
    Unquoted,
    InSingle,
    InDouble,
}

/// The lexer's state after a prefix of the line.
pub struct LexState {
    /// Tokens already closed.
    pub tokens: Seq<Seq<char>>,
    /// The token being accumulated.
    pub current: Seq<char>,
    pub quote: QuoteState,
    /// A backslash is waiting for the next character.
    pub escape: bool,
    /// Something, possibly empty quoted text, has contributed to `current`.
    pub open: bool,
}

pub open spec fn lex_start() -> LexState {
    LexState {
        tokens: Seq::empty(),
        current: Seq::empty(),
        quote: QuoteState::Unquoted,
        escape: false,
        open: false,
    }
}

/// Appends `c` to the open token.
pub open spec fn append(s: LexState, c: char) -> LexState {
    LexState { current: s.current.push(c), open: true, escape: false, ..s }
}

pub open spec fn with_quote(s: LexState, q: QuoteState) -> LexState {
    LexState { quote: q, open: true, ..s }
}

pub open spec fn with_escape(s: LexState) -> LexState {
    LexState { escape: true, ..s }
}

/// Closes the open token, if there is one.
pub open spec fn close(s: LexState) -> LexState {
    if s.open {
        LexState { tokens: s.tokens.push(s.current), current: Seq::empty(), open: false, ..s }
    } else {
        s
    }
}

/// One character of input.
pub open spec fn lex_step(s: LexState, c: char) -> LexState {
    match s.quote {
        QuoteState::Unquoted => {
            if s.escape {
                append(s, c)
            } else if c == '\\' {
                with_escape(s)
            } else if c == '\'' {
                with_quote(s, QuoteState::InSingle)
            } else if c == '"' {
                with_quote(s, QuoteState::InDouble)
            } else if is_space_spec(c) {
                close(s)
            } else {
                append(s, c)
            }
        },
        QuoteState::InSingle => {
            if c == '\'' {
                LexState { quote: QuoteState::Unquoted, ..s }
            } else {
                append(s, c)
            }
        },
        QuoteState::InDouble => {
            if s.escape {
                if c == '"' || c == '\\' {
                    append(s, c)
                } else {
                    append(LexState { current: s.current.push('\\'), ..s }, c)
                }
            } else if c == '\\' {
                with_escape(s)
            } else if c == '"' {
                LexState { quote: QuoteState::Unquoted, ..s }
            } else {
                append(s, c)
            }
        },
    }
}

/// The state after reading all of `input`.
pub open spec fn lex_run(input: Seq<char>) -> LexState
    decreases input.len(),
{
    if input.len() == 0 {
        lex_start()
    } else {
        lex_step(lex_run(input.drop_last()), input.last())
    }
}

/// End of input: a pending backslash stands for itself, and an open token
/// (inside a quote too) is flushed.
pub open spec fn lex_finish(s: LexState) -> Seq<Seq<char>> {
    let s1 = if s.escape { append(s, '\\') } else { s };
    if s1.open {
        s1.tokens.push(s1.current)
    } else {
        s1.tokens
    }
}

/// The tokens of one line.
pub open spec fn lex(input: Seq<char>) -> Seq<Seq<char>> {
    lex_finish(lex_run(input))
}

/// The maximal runs of non-space characters of `s`, in order.
pub open spec fn words(s: Seq<char>) -> Seq<Seq<char>>
    decreases s.len(),
{
    if s.len() == 0 {
        Seq::empty()
    } else {
        let w = words(s.drop_last());
        let c = s.last();
        if is_space_spec(c) {
            w
        } else if s.len() == 1 || is_space_spec(s[s.len() - 2]) {
            w.push(seq![c])
        } else {
            w.update(w.len() - 1, w.last().push(c))
        }
    }
}

/// `s` holds no quote and no backslash.
pub open spec fn plain(s: Seq<char>) -> bool {
    forall|i: int| 0 <= i < s.len() ==> s[i] != '\'' && s[i] != '"' && s[i] != '\\'
}

proof fn lemma_plain_run(s: Seq<char>)
    requires
        plain(s),
    ensures
        ({
            let st = lex_run(s);
            &&& st.quote == QuoteState::Unquoted
            &&& !st.escape
            &&& st.open == (s.len() > 0 && !is_space_spec(s.last()))
            &&& !st.open ==> st.current == Seq::<char>::empty()
            &&& (if st.open { st.tokens.push(st.current) } else { st.tokens }) == words(s)
        }),
    decreases s.len(),
{
    if s.len() > 0 {
        let p = s.drop_last();
        assert(plain(p)) by {
            assert forall|i: int| 0 <= i < p.len() implies p[i] != '\'' && p[i] != '"' && p[i]
                != '\\' by {
                assert(p[i] == s[i]);
            }
        }
        lemma_plain_run(p);
        let st = lex_run(p);
        let c = s.last();
        assert(c == s[s.len() - 1]);
        if p.len() > 0 {
            assert(p.last() == s[s.len() - 2]);
        }
        let w = words(p);
        if !is_space_spec(c) && st.open {
            assert(w == st.tokens.push(st.current));
            assert(w.update(w.len() - 1, w.last().push(c)) =~= st.tokens.push(
                st.current.push(c),
            ));
        }
        if !is_space_spec(c) && !st.open {
            assert(w.push(seq![c]) =~= st.tokens.push(st.current.push(c)));
        }
    }
}

/// `s` holds no quote, and no backslash but possibly as its last character.
pub open spec fn unquoted(s: Seq<char>) -> bool {
    &&& forall|i: int| 0 <= i < s.len() ==> s[i] != '\'' && s[i] != '"'
    &&& forall|i: int| 0 <= i < s.len() - 1 ==> s[i] != '\\'
}

/// On a line with no quote, and with no backslash before its last
/// character, the tokens are exactly the line split at runs of white space.
pub proof fn lemma_unquoted_line_splits_on_space(s: Seq<char>)
    requires
        unquoted(s),
    ensures
        lex(s) == words(s),
{
    if s.len() > 0 && s.last() == '\\' {
        let p = s.drop_last();
        assert(plain(p)) by {
            assert forall|i: int| 0 <= i < p.len() implies p[i] != '\'' && p[i] != '"' && p[i]
                != '\\' by {
                assert(p[i] == s[i]);
            }
        }
        lemma_plain_run(p);
        let st = lex_run(p);
        let w = words(p);
        if p.len() > 0 {
            assert(p.last() == s[s.len() - 2]);
        }
        if st.open {
            assert(w.update(w.len() - 1, w.last().push('\\')) =~= st.tokens.push(
                st.current.push('\\'),
            ));
        } else {
            assert(w.push(seq!['\\']) =~= st.tokens.push(st.current.push('\\')));
        }
    } else {
        assert(plain(s)) by {
            assert forall|i: int| 0 <= i < s.len() implies s[i] != '\'' && s[i] != '"' && s[i]
                != '\\' by {
                if i == s.len() - 1 {
                    assert(s[i] == s.last());
                }
            }
        }
        lemma_plain_run(s);
    }
}

pub open spec fn views(v: Seq<String>) -> Seq<Seq<char>> {
    v.map_values(|t: String| t@)
}

impl Shell {
    /// Splits a line into tokens, honouring single quotes, double quotes and
    /// backslash escapes.
    pub fn parse_args(input: &str) -> (r: Vec<String>)
        ensures
            views(r@) == lex(input@),
    {
        let n = input.unicode_len();
        let mut tokens: Vec<String> = Vec::new();
        let mut current = String::new();
        let mut quote = QuoteState::Unquoted;
        let mut escape = false;
        let mut open = false;
        let mut i: usize = 0;
        while i < n
            invariant
                n == input@.len(),
                i <= n,
                ({
                    let s = lex_run(input@.take(i as int));
                    &&& views(tokens@) == s.tokens
                    &&& current@ == s.current
                    &&& quote == s.quote
                    &&& escape == s.escape
                    &&& open == s.open
                }),
            decreases n - i,
        {
            let c = input.get_char(i);
            let ghost before = lex_run(input@.take(i as int));
            proof {
                assert(input@.take(i + 1).drop_last() =~= input@.take(i as int));
                assert(input@.take(i + 1).last() == c);
            }
            match quote {
                QuoteState::Unquoted => {
                    if escape {
                        push_char(&mut current, c);
                        escape = false;
                        open = true;
                    } else if c == '\\' {
                        escape = true;
                    } else if c == '\'' {
                        quote = QuoteState::InSingle;
                        open = true;
                    } else if c == '"' {
                        quote = QuoteState::InDouble;
                        open = true;
                    } else if is_space(c) {
                        if open {
                            tokens.push(current);
                            current = String::new();
                            open = false;
                            assert(views(tokens@) =~= before.tokens.push(before.current));
                        }
                    } else {
                        push_char(&mut current, c);
                        open = true;
                    }
                },
                QuoteState::InSingle => {
                    if c == '\'' {
                        quote = QuoteState::Unquoted;
                    } else {
                        push_char(&mut current, c);
                        open = true;
                    }
                },
                QuoteState::InDouble => {
                    if escape {
                        if c == '"' || c == '\\' {
                            push_char(&mut current, c);
                        } else {
                            push_char(&mut current, '\\');
                            push_char(&mut current, c);
                        }
                        escape = false;
                        open = true;
                    } else if c == '\\' {
                        escape = true;
                    } else if c == '"' {
                        quote = QuoteState::Unquoted;
                    } else {
                        push_char(&mut current, c);
                        open = true;
                    }
                },
            }
            i = i + 1;
        }
        assert(input@.take(n as int) =~= input@);
        let ghost last = lex_run(input@);
        if escape {
            push_char(&mut current, '\\');
            open = true;
        }
        if open {
            tokens.push(current);
            let ghost s1 = if last.escape { append(last, '\\') } else { last };
            assert(views(tokens@) =~= s1.tokens.push(s1.current));
        }
        tokens
    }
}

} // verus!
