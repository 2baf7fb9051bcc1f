//! POSIX shell quoting and the shell snippets shared by the remote deployment
//! commands.

use vstd::prelude::*;
use crate::text::{chars_contain, chars_of, contains, push_char, push_str};

verus! {

/// The replacement of one character inside a single-quoted shell word: a
/// quote closes the word, emits a double-quoted quote and reopens the word.
pub open spec fn escape_char(c: char) -> Seq<char> {
    if c == '\'' {
        "'\"'\"'"@
    } else {
        seq![c]
    }
}

/// Every character of `s` replaced by its escape.
pub open spec fn escape_quotes(s: Seq<char>) -> Seq<char>
    decreases s.len(),
{
    if s.len() == 0 {
        Seq::empty()
    } else {
        escape_quotes(s.drop_last()) + escape_char(s.last())
    }
}

/// `s` as one single-quoted shell word.
pub open spec fn shell_quoted(s: Seq<char>) -> Seq<char> {
    seq!['\''] + escape_quotes(s) + seq!['\'']
}

/// Quotes `value` as one single-quoted shell word, so that the remote shell
/// passes it through unchanged.
pub fn shell_quote(value: &str) -> (quoted: String)
    ensures
        quoted@ == shell_quoted(value@),
{
    let cs = chars_of(value);
    let mut out = String::new();
    push_char(&mut out, '\'');
    let mut i: usize = 0;
    while i < cs.len()
        invariant
            i <= cs@.len(),
            cs@ == value@,
            out@ == seq!['\''] + escape_quotes(cs@.take(i as int)),
        decreases cs.len() - i,
    {
        let c = cs[i];
        if c == '\'' {
            push_str(&mut out, "'\"'\"'");
        } else {
            push_char(&mut out, c);
        }
        assert(cs@.take(i + 1).drop_last() == cs@.take(i as int));
        i = i + 1;
    }
    assert(cs@.take(cs@.len() as int) == cs@);
    push_char(&mut out, '\'');
    out
}

/// A word without quote characters is quoted by surrounding it with quotes.
pub proof fn law_quote_plain_word(s: Seq<char>)
    requires
        forall|i: int| 0 <= i < s.len() ==> s[i] != '\'',
    ensures
        shell_quoted(s) == seq!['\''] + s + seq!['\''],
{
    lemma_escape_plain(s);
}

proof fn lemma_escape_plain(s: Seq<char>)
    requires
        forall|i: int| 0 <= i < s.len() ==> s[i] != '\'',
    ensures
        escape_quotes(s) == s,
    decreases s.len(),
{
    if s.len() > 0 {
        let t = s.drop_last();
        assert forall|i: int| 0 <= i < t.len() implies t[i] != '\'' by {
            assert(t[i] == s[i]);
        }
        lemma_escape_plain(t);
        assert(t.push(s.last()) == s);
    }
}

/// The escape of a concatenation is the concatenation of the escapes.
pub proof fn law_escape_concat(a: Seq<char>, b: Seq<char>)
    ensures
        escape_quotes(a + b) == escape_quotes(a) + escape_quotes(b),
    decreases b.len(),
{
    if b.len() == 0 {
        assert(a + b == a);
    } else {
        law_escape_concat(a, b.drop_last());
        assert((a + b).drop_last() == a + b.drop_last());
        assert((a + b).last() == b.last());
    }
}

/// The shell function that picks Docker Compose v2 (`docker compose`) or v1
/// (`docker-compose`) and fails with a hint when neither is installed.
pub open spec fn compose_function_text() -> Seq<char> {
    "compose() { if docker compose version >/dev/null 2>&1; then docker compose \"$@\"; elif command -v docker-compose >/dev/null 2>&1; then docker-compose \"$@\"; else echo \"Docker Compose is missing; install the Compose v2 plugin or docker-compose v1\" >&2; return 127; fi; }"@
}

/// The `compose` shell function used by every Docker command.
pub fn compose_shell_function() -> (text: &'static str)
    ensures
        text@ == compose_function_text(),
{
    "compose() { if docker compose version >/dev/null 2>&1; then docker compose \"$@\"; elif command -v docker-compose >/dev/null 2>&1; then docker-compose \"$@\"; else echo \"Docker Compose is missing; install the Compose v2 plugin or docker-compose v1\" >&2; return 127; fi; }"
}

/// The message fragment by which a managed Docker host refuses bind mounts.
pub open spec fn hbm_rejection() -> Seq<char> {
    "authorization denied by plugin hbm"@
}

/// The explanation put before a bind-mount refusal.
pub open spec fn hbm_explanation() -> Seq<char> {
    "the managed Docker policy rejected access to the deployment storage directory. Allow bind mounts for the selected remote installation directory, or deploy as a standalone service. Details: "@
}

/// A Docker start failure, explained when the host's authorization plugin
/// refused the bind mount and passed through unchanged otherwise.
pub open spec fn explained_start_error(error: Seq<char>) -> Seq<char> {
    if contains(error, hbm_rejection()) {
        hbm_explanation() + error
    } else {
        error
    }
}

/// Explains a Docker start failure caused by a managed Docker policy.
pub fn explain_docker_start_error(error: String) -> (message: String)
    ensures
        message@ == explained_start_error(error@),
{
    let needle = chars_of("authorization denied by plugin hbm");
    if chars_contain(chars_of(error.as_str()).as_slice(), needle.as_slice()) {
        let mut out = String::new();
        push_str(&mut out, "the managed Docker policy rejected access to the deployment storage directory. Allow bind mounts for the selected remote installation directory, or deploy as a standalone service. Details: ");
        push_str(&mut out, error.as_str());
        out
    } else {
        error
    }
}

/// Where a shell reader stands inside a word.
pub enum QuoteMode {
    Unquoted,
    SingleQuoted,
    DoubleQuoted,
}

/// The value of `s` read as one POSIX shell word made of quoted parts, by
/// quote removal: inside single quotes every character stands for itself
/// up to the closing quote; inside double quotes every character stands for
/// itself up to the closing quote, except `$`, `` ` `` and `\`, which would
/// expand or escape and are outside this reading; outside quotes only an
/// opening quote may follow. `None` when `s` is no such word or a quote is
/// left open.
pub open spec fn read_quoted_word(s: Seq<char>, mode: QuoteMode) -> Option<Seq<char>>
    decreases s.len(),
{
    if s.len() == 0 {
        match mode {
            QuoteMode::Unquoted => Some(Seq::empty()),
            _ => None,
        }
    } else {
        let c = s[0];
        let rest = s.drop_first();
        match mode {
            QuoteMode::Unquoted => if c == '\'' {
                read_quoted_word(rest, QuoteMode::SingleQuoted)
            } else if c == '"' {
                read_quoted_word(rest, QuoteMode::DoubleQuoted)
            } else {
                None
            },
            QuoteMode::SingleQuoted => if c == '\'' {
                read_quoted_word(rest, QuoteMode::Unquoted)
            } else {
                prepend_char(c, read_quoted_word(rest, QuoteMode::SingleQuoted))
            },
            QuoteMode::DoubleQuoted => if c == '"' {
                read_quoted_word(rest, QuoteMode::Unquoted)
            } else if c == '$' || c == '`' || c == '\\' {
                None
            } else {
                prepend_char(c, read_quoted_word(rest, QuoteMode::DoubleQuoted))
            },
        }
    }
}

pub open spec fn prepend_char(c: char, r: Option<Seq<char>>) -> Option<Seq<char>> {
    match r {
        Some(x) => Some(seq![c] + x),
        None => None,
    }
}

pub open spec fn prepend_text(v: Seq<char>, r: Option<Seq<char>>) -> Option<Seq<char>> {
    match r {
        Some(x) => Some(v + x),
        None => None,
    }
}

proof fn lemma_read_front(c: char, t: Seq<char>, mode: QuoteMode)
    ensures
        read_quoted_word(seq![c] + t, mode) == ({
            match mode {
                QuoteMode::Unquoted => if c == '\'' {
                    read_quoted_word(t, QuoteMode::SingleQuoted)
                } else if c == '"' {
                    read_quoted_word(t, QuoteMode::DoubleQuoted)
                } else {
                    None
                },
                QuoteMode::SingleQuoted => if c == '\'' {
                    read_quoted_word(t, QuoteMode::Unquoted)
                } else {
                    prepend_char(c, read_quoted_word(t, QuoteMode::SingleQuoted))
                },
                QuoteMode::DoubleQuoted => if c == '"' {
                    read_quoted_word(t, QuoteMode::Unquoted)
                } else if c == '$' || c == '`' || c == '\\' {
                    None
                } else {
                    prepend_char(c, read_quoted_word(t, QuoteMode::DoubleQuoted))
                },
            }
        }),
{
    let s = seq![c] + t;
    assert(s[0] == c);
    assert(s.drop_first() =~= t);
}

/// Inside single quotes, the escape of `v` followed by `t` reads as `v`
/// followed by what `t` reads as.
proof fn lemma_read_escaped(v: Seq<char>, t: Seq<char>)
    ensures
        read_quoted_word(escape_quotes(v) + t, QuoteMode::SingleQuoted) == prepend_text(
            v,
            read_quoted_word(t, QuoteMode::SingleQuoted),
        ),
    decreases v.len(),
{
    if v.len() == 0 {
        assert(escape_quotes(v) + t =~= t);
        assert(v + Seq::<char>::empty() =~= Seq::<char>::empty());
        match read_quoted_word(t, QuoteMode::SingleQuoted) {
            Some(x) => assert(v + x =~= x),
            None => {},
        }
    } else {
        let c = v[0];
        let w = v.drop_first();
        assert(v =~= seq![c] + w);
        law_escape_concat(seq![c], w);
        assert(seq![c].drop_last() =~= Seq::<char>::empty());
        assert(seq![c].last() == c);
        assert(escape_quotes(Seq::<char>::empty()) == Seq::<char>::empty());
        assert(escape_quotes(seq![c]) == escape_quotes(seq![c].drop_last()) + escape_char(c));
        assert(escape_quotes(seq![c]) =~= escape_char(c));
        let x = escape_quotes(w) + t;
        assert(escape_quotes(v) + t =~= escape_char(c) + x);
        lemma_read_escaped(w, t);
        if c == '\'' {
            reveal_strlit("'\"'\"'");
            let e = escape_char(c);
            assert(e =~= seq!['\'', '"', '\'', '"', '\'']);
            lemma_read_front('\'', seq!['"', '\'', '"', '\''] + x, QuoteMode::SingleQuoted);
            assert(e + x =~= seq!['\''] + (seq!['"', '\'', '"', '\''] + x));
            lemma_read_front('"', seq!['\'', '"', '\''] + x, QuoteMode::Unquoted);
            assert(seq!['"', '\'', '"', '\''] + x =~= seq!['"'] + (seq!['\'', '"', '\''] + x));
            lemma_read_front('\'', seq!['"', '\''] + x, QuoteMode::DoubleQuoted);
            assert(seq!['\'', '"', '\''] + x =~= seq!['\''] + (seq!['"', '\''] + x));
            lemma_read_front('"', seq!['\''] + x, QuoteMode::DoubleQuoted);
            assert(seq!['"', '\''] + x =~= seq!['"'] + (seq!['\''] + x));
            lemma_read_front('\'', x, QuoteMode::Unquoted);
        } else {
            lemma_read_front(c, x, QuoteMode::SingleQuoted);
        }
        match read_quoted_word(t, QuoteMode::SingleQuoted) {
            Some(y) => {
                assert(seq![c] + (w + y) =~= v + y);
            },
            None => {},
        }
    }
}

/// What `shell_quote` makes of a value reads back, as one shell word, as
/// exactly that value.
pub proof fn law_quoted_word_reads_back(v: Seq<char>)
    ensures
        read_quoted_word(shell_quoted(v), QuoteMode::Unquoted) == Some(v),
{
    let tail = seq!['\''];
    assert(shell_quoted(v) =~= seq!['\''] + (escape_quotes(v) + tail));
    lemma_read_front('\'', escape_quotes(v) + tail, QuoteMode::Unquoted);
    lemma_read_escaped(v, tail);
    assert(tail =~= seq!['\''] + Seq::<char>::empty());
    lemma_read_front('\'', Seq::<char>::empty(), QuoteMode::SingleQuoted);
    assert(v + Seq::<char>::empty() =~= v);
}

} // verus!
