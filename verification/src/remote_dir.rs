//! Validation of the remote Docker installation directory.

use vstd::prelude::*;
use crate::shell::{shell_quote, shell_quoted};
use crate::text::{
    is_white_space, leading_ws, trailing_ws, chars_contain, chars_of, chars_start_with, contains, push_char, push_chars, push_str,
    starts_with, string_of, trim, trim_chars,
};

verus! {

/// A validated remote directory: the text the user gave (trimmed) and the
/// shell expression that names it on the remote host. Values are made only
/// by `validate_remote_deploy_dir`; the type invariant keeps every value one
/// that validation accepts.
pub struct RemoteDeployDir {
    original: String,
    shell_expr: String,
}

impl View for RemoteDeployDir {
    type V = (Seq<char>, Seq<char>);

    closed spec fn view(&self) -> (Seq<char>, Seq<char>) {
        (self.original@, self.shell_expr@)
    }
}

/// `original` names a valid directory below `~/` or `/`, and `shell_expr`
/// is how the remote shell names it.
pub open spec fn accepted_dir(original: Seq<char>, shell_expr: Seq<char>) -> bool {
    &&& dir_rest(original) matches Some(rest) && rest_is_valid(rest)
    &&& shell_expr == dir_shell_expr(original)
}

impl RemoteDeployDir {
    #[verifier::type_invariant]
    spec fn well_formed(self) -> bool {
        accepted_dir(self.original@, self.shell_expr@)
    }

    /// The directory as the user gave it, trimmed.
    pub fn original(&self) -> (r: &str)
        ensures
            r@ == self@.0,
            accepted_dir(self@.0, self@.1),
    {
        proof {
            use_type_invariant(self);
        }
        self.original.as_str()
    }

    /// How the remote shell names the directory.
    pub fn shell_expr(&self) -> (r: &str)
        ensures
            r@ == self@.1,
            accepted_dir(self@.0, self@.1),
    {
        proof {
            use_type_invariant(self);
        }
        self.shell_expr.as_str()
    }
}

pub open spec fn is_ascii_alnum(c: char) -> bool {
    ||| 'a' <= c <= 'z'
    ||| 'A' <= c <= 'Z'
    ||| '0' <= c <= '9'
}

/// Characters allowed in a remote directory below its root.
pub open spec fn dir_char_allowed(c: char) -> bool {
    is_ascii_alnum(c) || c == '-' || c == '_' || c == '.' || c == '/'
}

/// The part of `value` below `~/` or `/`, or `None` when it starts with
/// neither.
pub open spec fn dir_rest(value: Seq<char>) -> Option<Seq<char>> {
    if starts_with(value, "~/"@) {
        Some(value.skip(2))
    } else if starts_with(value, seq!['/']) {
        Some(value.skip(1))
    } else {
        None
    }
}

/// Every `/`-separated component of `rest` is a real name: none is empty,
/// `.` or `..`. A component between two slashes of `/rest/` is empty, `.` or
/// `..` exactly when `//`, `/./` or `/../` occurs there.
pub open spec fn components_are_names(rest: Seq<char>) -> bool {
    let padded = seq!['/'] + rest + seq!['/'];
    &&& !contains(padded, "//"@)
    &&& !contains(padded, "/./"@)
    &&& !contains(padded, "/../"@)
}

/// `rest` names a directory strictly below the root with plain characters.
pub open spec fn rest_is_valid(rest: Seq<char>) -> bool {
    &&& rest.len() > 0
    &&& components_are_names(rest)
    &&& forall|i: int| 0 <= i < rest.len() ==> dir_char_allowed(#[trigger] rest[i])
}

/// How the remote shell names the directory: below `$HOME` for `~/…`
/// (expanded by the remote shell), single-quoted otherwise.
pub open spec fn dir_shell_expr(value: Seq<char>) -> Seq<char> {
    if starts_with(value, "~/"@) {
        "\"$HOME/"@ + value.skip(2) + seq!['"']
    } else {
        shell_quoted(value)
    }
}

pub open spec fn bad_root_message() -> Seq<char> {
    "remote Docker directory must start with ~/ or /"@
}

pub open spec fn bad_components_message() -> Seq<char> {
    "remote Docker directory contains unsupported path components"@
}

/// The outcome of validating `raw`: the trimmed text and its shell
/// expression, or the error message.
pub open spec fn validated_dir(raw: Seq<char>) -> Result<(Seq<char>, Seq<char>), Seq<char>> {
    let value = trim(raw);
    match dir_rest(value) {
        None => Err(bad_root_message()),
        Some(rest) => if rest_is_valid(rest) {
            Ok((value, dir_shell_expr(value)))
        } else {
            Err(bad_components_message())
        },
    }
}

/// The view of a validation result.
pub open spec fn dir_result_view(r: Result<RemoteDeployDir, String>) -> Result<
    (Seq<char>, Seq<char>),
    Seq<char>,
> {
    match r {
        Ok(d) => Ok(d@),
        Err(e) => Err(e@),
    }
}

fn rest_valid(rest: &[char]) -> (r: bool)
    ensures
        r == rest_is_valid(rest@),
{
    if rest.len() == 0 {
        return false;
    }
    let mut padded = String::new();
    push_char(&mut padded, '/');
    push_chars(&mut padded, rest);
    push_char(&mut padded, '/');
    let p = chars_of(padded.as_str());
    assert(p@ == seq!['/'] + rest@ + seq!['/']);
    if chars_contain(p.as_slice(), chars_of("//").as_slice()) || chars_contain(
        p.as_slice(),
        chars_of("/./").as_slice(),
    ) || chars_contain(p.as_slice(), chars_of("/../").as_slice()) {
        return false;
    }
    let mut i: usize = 0;
    while i < rest.len()
        invariant
            i <= rest@.len(),
            forall|j: int| 0 <= j < i ==> dir_char_allowed(#[trigger] rest@[j]),
        decreases rest.len() - i,
    {
        let c = rest[i];
        let ok = ('a' <= c && c <= 'z') || ('A' <= c && c <= 'Z') || ('0' <= c && c <= '9') || c
            == '-' || c == '_' || c == '.' || c == '/';
        if !ok {
            return false;
        }
        i = i + 1;
    }
    true
}

fn skip_chars(s: &[char], k: usize) -> (out: Vec<char>)
    requires
        k <= s@.len(),
    ensures
        out@ == s@.skip(k as int),
{
    let mut out: Vec<char> = Vec::new();
    let mut i: usize = k;
    while i < s.len()
        invariant
            k <= i <= s@.len(),
            out@ == s@.subrange(k as int, i as int),
        decreases s.len() - i,
    {
        out.push(s[i]);
        i = i + 1;
    }
    out
}

/// Validates the remote Docker directory: after trimming it must start with
/// `~/` or `/`, and below that consist of real path components made of ASCII
/// letters, digits, `-`, `_` and `.`.
pub fn validate_remote_deploy_dir(value: &str) -> (r: Result<RemoteDeployDir, String>)
    ensures
        dir_result_view(r) == validated_dir(value@),
{
    let v = trim_chars(chars_of(value).as_slice());
    let home = chars_of("~/");
    let slash = chars_of("/");
    proof {
        reveal_strlit("~/");
        reveal_strlit("/");
        assert(slash@ == seq!['/']);
    }
    let under_home = chars_start_with(v.as_slice(), home.as_slice());
    let rest = if under_home {
        skip_chars(v.as_slice(), 2)
    } else if chars_start_with(v.as_slice(), slash.as_slice()) {
        skip_chars(v.as_slice(), 1)
    } else {
        return Err(string_of_str("remote Docker directory must start with ~/ or /"));
    };
    if !rest_valid(rest.as_slice()) {
        return Err(string_of_str("remote Docker directory contains unsupported path components"));
    }
    let original = string_of(v.as_slice());
    let shell_expr = if under_home {
        let mut e = String::new();
        push_str(&mut e, "\"$HOME/");
        push_chars(&mut e, rest.as_slice());
        push_char(&mut e, '"');
        e
    } else {
        shell_quote(original.as_str())
    };
    assert(original@ == trim(value@));
    assert(dir_rest(original@) == Some(rest@));
    assert(shell_expr@ == dir_shell_expr(original@));
    Ok(RemoteDeployDir { original, shell_expr })
}

/// A `String` holding `t`.
pub fn string_of_str(t: &str) -> (s: String)
    ensures
        s@ == t@,
{
    let mut s = String::new();
    push_str(&mut s, t);
    s
}

/// Every directory below `~/` or `/` made of real `/`-separated components
/// (none empty, `.` or `..`) of ASCII letters, digits, `-`, `_` and `.` is
/// accepted, as given, and named by `"$HOME/…"` or by its quoted text.
pub proof fn law_plain_directories_are_accepted(under_home: bool, rest: Seq<char>)
    requires
        rest.len() > 0,
        forall|i: int|
            0 <= i < rest.len() ==> {
                let c = #[trigger] rest[i];
                ||| 'a' <= c <= 'z'
                ||| 'A' <= c <= 'Z'
                ||| '0' <= c <= '9'
                ||| c == '-'
                ||| c == '_'
                ||| c == '.'
                ||| c == '/'
            },
        !contains(seq!['/'] + rest + seq!['/'], "//"@),
        !contains(seq!['/'] + rest + seq!['/'], "/./"@),
        !contains(seq!['/'] + rest + seq!['/'], "/../"@),
    ensures
        ({
            let raw = if under_home {
                seq!['~', '/'] + rest
            } else {
                seq!['/'] + rest
            };
            validated_dir(raw) == Ok::<(Seq<char>, Seq<char>), Seq<char>>(
                (
                    raw,
                    if under_home {
                        seq!['"', '$', 'H', 'O', 'M', 'E', '/'] + rest + seq!['"']
                    } else {
                        shell_quoted(raw)
                    },
                ),
            )
        }),
{
    reveal_strlit("~/");
    reveal_strlit("\"$HOME/");
    let raw = if under_home {
        seq!['~', '/'] + rest
    } else {
        seq!['/'] + rest
    };
    let last = rest[rest.len() - 1];
    assert(raw.last() == last);
    assert(!is_white_space(raw[0]));
    assert(!is_white_space(last));
    assert(trim(raw) =~= raw) by {
        assert(leading_ws(raw) == 0);
        assert(raw.skip(0) =~= raw);
        assert(trailing_ws(raw) == 0);
        assert(raw.take(raw.len() as int) =~= raw);
    }
    if under_home {
        assert(raw.take(2) =~= "~/"@);
        assert(raw.skip(2) =~= rest);
    } else {
        assert(raw[0] != "~/"@[0]);
        assert(!starts_with(raw, "~/"@));
        assert(raw.take(1) =~= seq!['/']);
        assert(raw.skip(1) =~= rest);
    }
    assert(rest_is_valid(rest));
    assert("\"$HOME/"@ =~= seq!['"', '$', 'H', 'O', 'M', 'E', '/']);
}

} // verus!
