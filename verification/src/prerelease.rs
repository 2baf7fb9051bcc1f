//! The order of pre-release texts, as `semver::Prerelease` documents it:
//! "a total order defined by the SemVer spec. It uses lexicographic ordering
//! of dot-separated components. Identifiers consisting of only digits are
//! compared numerically. Otherwise, identifiers are compared in ASCII sort
//! order. Any numeric identifier is always less than any non-numeric
//! identifier." Numeric identifiers carry no leading zeros, so comparing them
//! by length first and then digit by digit compares them numerically. Every
//! order here answers `-1`, `0` or `1` for below, equal or above.

use vstd::prelude::*;

verus! {

pub open spec fn is_digit(c: char) -> bool {
    '0' <= c <= '9'
}

/// An identifier made of digits only.
pub open spec fn all_digits(x: Seq<char>) -> bool {
    forall|i: int| 0 <= i < x.len() ==> is_digit(#[trigger] x[i])
}

/// Lexicographic order by character (for ASCII, the byte order).
pub open spec fn lex_order(x: Seq<char>, y: Seq<char>) -> i8
    decreases x.len(),
{
    if x.len() == 0 {
        if y.len() == 0 {
            0
        } else {
            -1i8
        }
    } else if y.len() == 0 {
        1
    } else if x[0] < y[0] {
        -1i8
    } else if x[0] > y[0] {
        1
    } else {
        lex_order(x.drop_first(), y.drop_first())
    }
}

/// The order of two identifiers: numeric ones by value, below every
/// non-numeric one; non-numeric ones in ASCII order.
pub open spec fn ident_order(x: Seq<char>, y: Seq<char>) -> i8 {
    if all_digits(x) && all_digits(y) {
        if x.len() < y.len() {
            -1i8
        } else if x.len() > y.len() {
            1
        } else {
            lex_order(x, y)
        }
    } else if all_digits(x) {
        -1i8
    } else if all_digits(y) {
        1
    } else {
        lex_order(x, y)
    }
}

/// `s` split at every `.` (what `str::split('.')` yields).
pub open spec fn split_dots(s: Seq<char>) -> Seq<Seq<char>>
    decreases s.len(),
{
    if s.len() == 0 {
        seq![Seq::empty()]
    } else {
        let t = split_dots(s.drop_first());
        if s[0] == '.' {
            seq![Seq::<char>::empty()] + t
        } else {
            t.update(0, seq![s[0]] + t[0])
        }
    }
}

/// Lexicographic order of identifier lists; a list above each of its proper
/// prefixes.
pub open spec fn list_order(a: Seq<Seq<char>>, b: Seq<Seq<char>>) -> i8
    decreases a.len(),
{
    if a.len() == 0 {
        if b.len() == 0 {
            0
        } else {
            -1i8
        }
    } else if b.len() == 0 {
        1
    } else if ident_order(a[0], b[0]) != 0 {
        ident_order(a[0], b[0])
    } else {
        list_order(a.drop_first(), b.drop_first())
    }
}

/// The order of two non-empty pre-release texts.
pub open spec fn prerelease_order(a: Seq<char>, b: Seq<char>) -> i8 {
    list_order(split_dots(a), split_dots(b))
}

// ---------------------------------------------------------------- lemmas

proof fn lemma_lex(x: Seq<char>, y: Seq<char>)
    ensures
        -1 <= lex_order(x, y) <= 1,
        lex_order(x, y) == -lex_order(y, x),
        lex_order(x, y) == 0 <==> x == y,
    decreases x.len(),
{
    if x.len() > 0 && y.len() > 0 {
        lemma_lex(x.drop_first(), y.drop_first());
        if x[0] == y[0] && x.drop_first() == y.drop_first() {
            assert(x =~= y) by {
                assert forall|i: int| 0 <= i < x.len() implies x[i] == y[i] by {
                    if i > 0 {
                        assert(x[i] == x.drop_first()[i - 1]);
                        assert(y[i] == y.drop_first()[i - 1]);
                    }
                }
            }
        }
        if x == y {
            assert(x.drop_first() == y.drop_first());
        }
    } else if x.len() == 0 && y.len() == 0 {
        assert(x =~= y);
    }
}

proof fn lemma_lex_trans(x: Seq<char>, y: Seq<char>, z: Seq<char>)
    requires
        lex_order(x, y) == -1,
        lex_order(y, z) == -1,
    ensures
        lex_order(x, z) == -1,
    decreases x.len(),
{
    if x.len() > 0 && y.len() > 0 && z.len() > 0 && x[0] == y[0] && y[0] == z[0] {
        lemma_lex_trans(x.drop_first(), y.drop_first(), z.drop_first());
    }
}

proof fn lemma_ident(x: Seq<char>, y: Seq<char>)
    ensures
        -1 <= ident_order(x, y) <= 1,
        ident_order(x, y) == -ident_order(y, x),
        ident_order(x, y) == 0 <==> x == y,
{
    lemma_lex(x, y);
}

proof fn lemma_ident_trans(x: Seq<char>, y: Seq<char>, z: Seq<char>)
    requires
        ident_order(x, y) == -1,
        ident_order(y, z) == -1,
    ensures
        ident_order(x, z) == -1,
{
    if all_digits(x) && all_digits(y) && all_digits(z) {
        if x.len() == y.len() && y.len() == z.len() {
            lemma_lex_trans(x, y, z);
        }
    } else if !all_digits(x) && !all_digits(y) && !all_digits(z) {
        lemma_lex_trans(x, y, z);
    }
}

proof fn lemma_list(a: Seq<Seq<char>>, b: Seq<Seq<char>>)
    ensures
        -1 <= list_order(a, b) <= 1,
        list_order(a, b) == -list_order(b, a),
        list_order(a, b) == 0 <==> a == b,
    decreases a.len(),
{
    if a.len() > 0 && b.len() > 0 {
        lemma_ident(a[0], b[0]);
        lemma_list(a.drop_first(), b.drop_first());
        if a[0] == b[0] && a.drop_first() == b.drop_first() {
            assert(a =~= b) by {
                assert forall|i: int| 0 <= i < a.len() implies a[i] == b[i] by {
                    if i > 0 {
                        assert(a[i] == a.drop_first()[i - 1]);
                        assert(b[i] == b.drop_first()[i - 1]);
                    }
                }
            }
        }
        if a == b {
            assert(a.drop_first() == b.drop_first());
        }
    } else if a.len() == 0 && b.len() == 0 {
        assert(a =~= b);
    }
}

proof fn lemma_list_trans(a: Seq<Seq<char>>, b: Seq<Seq<char>>, c: Seq<Seq<char>>)
    requires
        list_order(a, b) == -1,
        list_order(b, c) == -1,
    ensures
        list_order(a, c) == -1,
    decreases a.len(),
{
    if a.len() > 0 && b.len() > 0 && c.len() > 0 {
        lemma_ident(a[0], b[0]);
        lemma_ident(b[0], c[0]);
        lemma_ident(a[0], c[0]);
        if ident_order(a[0], b[0]) == 0 && ident_order(b[0], c[0]) == 0 {
            lemma_list_trans(a.drop_first(), b.drop_first(), c.drop_first());
        } else if ident_order(a[0], b[0]) == 0 {
            assert(a[0] == b[0]);
        } else if ident_order(b[0], c[0]) == 0 {
            assert(b[0] == c[0]);
        } else {
            lemma_ident_trans(a[0], b[0], c[0]);
        }
    }
}

/// The pre-release order answers `-1`, `0` or `1`, and swapping its
/// arguments negates it.
pub proof fn law_prerelease_antisymmetric(a: Seq<char>, b: Seq<char>)
    ensures
        -1 <= prerelease_order(a, b) <= 1,
        prerelease_order(a, b) == -prerelease_order(b, a),
{
    lemma_list(split_dots(a), split_dots(b));
}

/// Texts that the pre-release order ranks equal are ranked alike against
/// every other text.
pub proof fn law_prerelease_equal_alike(a: Seq<char>, b: Seq<char>, c: Seq<char>)
    requires
        prerelease_order(a, b) == 0,
    ensures
        prerelease_order(a, c) == prerelease_order(b, c),
{
    lemma_list(split_dots(a), split_dots(b));
}

/// The pre-release order is transitive.
pub proof fn law_prerelease_transitive(a: Seq<char>, b: Seq<char>, c: Seq<char>)
    requires
        prerelease_order(a, b) == -1,
        prerelease_order(b, c) == -1,
    ensures
        prerelease_order(a, c) == -1,
{
    lemma_list_trans(split_dots(a), split_dots(b), split_dots(c));
}

} // verus!
