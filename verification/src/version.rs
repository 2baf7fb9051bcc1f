//! Semantic versions, parsed and ordered by the `semver` crate.

use vstd::prelude::*;
use crate::prerelease::{
    law_prerelease_antisymmetric, law_prerelease_equal_alike, law_prerelease_transitive,
    prerelease_order,
};
use crate::text::{decimal, push_char, push_decimal, push_str};

verus! {

/// Declares `semver::Version` to the verifier as an opaque type.
#[verifier::external_type_specification]
#[verifier::external_body]
pub struct ExSemverVersion(semver::Version);

/// The parts `semver::Version::parse` reads from `text` (major, minor, patch,
/// pre-release text, build-metadata text), or `None` when it refuses the text.
pub uninterp spec fn semver_parse(text: Seq<char>) -> Option<(u64, u64, u64, Seq<char>, Seq<char>)>;

/// A version that `semver::Version::parse` accepted: its parts as plain
/// values beside the parsed value. Values of this type are made only by
/// `ReleaseVersion::parse`, from the fields of the parsed value.
pub struct ReleaseVersion {
    major: u64,
    minor: u64,
    patch: u64,
    pre: String,
    build: String,
    inner: semver::Version,
}

impl View for ReleaseVersion {
    type V = (u64, u64, u64, Seq<char>, Seq<char>);

    closed spec fn view(&self) -> (u64, u64, u64, Seq<char>, Seq<char>) {
        (self.major, self.minor, self.patch, self.pre@, self.build@)
    }
}

/// `-1`, `0` or `1` as `a` is below, equal to or above `b`.
pub open spec fn order_u64(a: u64, b: u64) -> i8 {
    if a < b {
        -1i8
    } else if a == b {
        0
    } else {
        1
    }
}

/// Semantic-version precedence (`semver::Version::cmp_precedence`): major,
/// minor and patch numerically, then a release above any pre-release of it,
/// then pre-releases by their own order. Build metadata plays no part.
pub open spec fn precedence(
    a: (u64, u64, u64, Seq<char>, Seq<char>),
    b: (u64, u64, u64, Seq<char>, Seq<char>),
) -> i8 {
    if a.0 != b.0 {
        order_u64(a.0, b.0)
    } else if a.1 != b.1 {
        order_u64(a.1, b.1)
    } else if a.2 != b.2 {
        order_u64(a.2, b.2)
    } else if a.3.len() == 0 && b.3.len() == 0 {
        0
    } else if a.3.len() == 0 {
        1
    } else if b.3.len() == 0 {
        -1i8
    } else {
        prerelease_order(a.3, b.3)
    }
}

/// How `semver::Version` displays: `major.minor.patch`, then `-pre` and
/// `+build` when present.
pub open spec fn version_text(v: (u64, u64, u64, Seq<char>, Seq<char>)) -> Seq<char> {
    decimal(v.0 as nat) + seq!['.'] + decimal(v.1 as nat) + seq!['.'] + decimal(v.2 as nat) + (if v.3.len()
        > 0 {
        seq!['-'] + v.3
    } else {
        Seq::empty()
    }) + (if v.4.len() > 0 {
        seq!['+'] + v.4
    } else {
        Seq::empty()
    })
}

/// Calls `semver::Version::parse`. The contract claims that the parts kept
/// are `semver_parse` of the text.
#[verifier::external_body]
fn parse_semver(text: &str) -> (r: Option<ReleaseVersion>)
    ensures
        match r {
            Some(v) => semver_parse(text@) == Some(v@),
            None => semver_parse(text@) is None,
        },
{
    match semver::Version::parse(text) {
        Ok(inner) => Some(
            ReleaseVersion {
                major: inner.major,
                minor: inner.minor,
                patch: inner.patch,
                pre: inner.pre.as_str().to_string(),
                build: inner.build.as_str().to_string(),
                inner,
            },
        ),
        Err(_) => None,
    }
}

/// Calls `semver::Version::cmp_precedence`. The contract claims the ordering
/// of the major/minor/patch tuple, a release above its pre-releases (an empty
/// pre-release compares equal to another empty one), and for two
/// pre-releases the total order that `semver::Prerelease` documents
/// (`prerelease_order`).
#[verifier::external_body]
pub(crate) fn compare_precedence(a: &ReleaseVersion, b: &ReleaseVersion) -> (r: i8)
    ensures
        r == precedence(a@, b@),
{
    match a.inner.cmp_precedence(&b.inner) {
        std::cmp::Ordering::Less => -1,
        std::cmp::Ordering::Equal => 0,
        std::cmp::Ordering::Greater => 1,
    }
}

impl ReleaseVersion {
    /// Parses a semantic version, or `None` when the text is none.
    pub fn parse(text: &str) -> (r: Option<ReleaseVersion>)
        ensures
            match r {
                Some(v) => semver_parse(text@) == Some(v@),
                None => semver_parse(text@) is None,
            },
    {
        parse_semver(text)
    }

    /// The version has a pre-release part.
    pub fn is_prerelease(&self) -> (r: bool)
        ensures
            r == (self@.3.len() > 0),
    {
        self.pre.as_str().unicode_len() > 0
    }

    /// The version as text, as `semver` displays it.
    pub fn to_string(&self) -> (s: String)
        ensures
            s@ == version_text(self@),
    {
        let mut s = String::new();
        push_decimal(&mut s, self.major);
        push_char(&mut s, '.');
        push_decimal(&mut s, self.minor);
        push_char(&mut s, '.');
        push_decimal(&mut s, self.patch);
        if self.pre.as_str().unicode_len() > 0 {
            push_char(&mut s, '-');
            push_str(&mut s, self.pre.as_str());
        }
        if self.build.as_str().unicode_len() > 0 {
            push_char(&mut s, '+');
            push_str(&mut s, self.build.as_str());
        }
        s
    }
}

/// Precedence answers `-1`, `0` or `1`, and swapping its arguments negates
/// it: a version never ranks both above and below another.
pub proof fn law_precedence_antisymmetric(
    a: (u64, u64, u64, Seq<char>, Seq<char>),
    b: (u64, u64, u64, Seq<char>, Seq<char>),
)
    ensures
        -1 <= precedence(a, b) <= 1,
        precedence(a, b) == -precedence(b, a),
{
    law_prerelease_antisymmetric(a.3, b.3);
}

/// "Not above" is transitive: precedence is a total preorder, so a version
/// at or below one at or below a third is at or below the third.
pub proof fn law_precedence_transitive(
    a: (u64, u64, u64, Seq<char>, Seq<char>),
    b: (u64, u64, u64, Seq<char>, Seq<char>),
    c: (u64, u64, u64, Seq<char>, Seq<char>),
)
    requires
        precedence(a, b) != 1,
        precedence(b, c) != 1,
    ensures
        precedence(a, c) != 1,
{
    law_precedence_antisymmetric(a, b);
    law_precedence_antisymmetric(b, c);
    law_precedence_antisymmetric(a, c);
    if a.0 == b.0 && a.1 == b.1 && a.2 == b.2 && b.0 == c.0 && b.1 == c.1 && b.2 == c.2 {
        if a.3.len() > 0 && b.3.len() > 0 && c.3.len() > 0 {
            law_prerelease_antisymmetric(a.3, b.3);
            law_prerelease_antisymmetric(b.3, c.3);
            if prerelease_order(a.3, b.3) == 0 {
                law_prerelease_equal_alike(a.3, b.3, c.3);
            } else if prerelease_order(b.3, c.3) == 0 {
                law_prerelease_antisymmetric(c.3, b.3);
                law_prerelease_equal_alike(c.3, b.3, a.3);
                law_prerelease_antisymmetric(a.3, c.3);
            } else {
                law_prerelease_transitive(a.3, b.3, c.3);
            }
        }
    }
}

} // verus!
