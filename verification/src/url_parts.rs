//! Absolute URLs, parsed by the `url` crate.

use vstd::prelude::*;

verus! {

/// Declares `url::Url` to the verifier as an opaque type.
#[verifier::external_type_specification]
#[verifier::external_body]
pub struct ExUrl(url::Url);

/// Why `url::Url::parse` refuses `text`, as the refusal's `Display` text, or
/// `None` when it accepts the text.
pub uninterp spec fn url_parse_failure(text: Seq<char>) -> Option<Seq<char>>;

/// The host that `url::Url::host_str` reports for the URL parsed from `text`.
pub uninterp spec fn url_host(text: Seq<char>) -> Option<Seq<char>>;

/// A URL that `url::Url::parse` accepted, kept together with the text it was
/// parsed from. Values of this type are made only by `parse_url`.
pub struct ParsedUrl {
    inner: url::Url,
    source: Ghost<Seq<char>>,
}

impl View for ParsedUrl {
    type V = Seq<char>;

    closed spec fn view(&self) -> Seq<char> {
        self.source@
    }
}

/// Calls `url::Url::parse`. The contract claims that the call succeeds
/// exactly when `url_parse_failure` names no failure, and that a failure is
/// reported by the `Display` text of the parser's error.
#[verifier::external_body]
pub(crate) fn parse_url(text: &str) -> (r: Result<ParsedUrl, String>)
    ensures
        match r {
            Ok(u) => url_parse_failure(text@) is None && u@ == text@,
            Err(m) => url_parse_failure(text@) == Some(m@),
        },
{
    match url::Url::parse(text) {
        Ok(inner) => Ok(ParsedUrl { inner, source: Ghost(text@) }),
        Err(e) => Err(e.to_string()),
    }
}

/// Calls `url::Url::host_str` on the parsed URL. The contract claims that the
/// host is `url_host` of the text the URL was parsed from.
#[verifier::external_body]
pub(crate) fn host_of(u: &ParsedUrl) -> (r: Option<String>)
    ensures
        match r {
            Some(h) => url_host(u@) == Some(h@),
            None => url_host(u@) is None,
        },
{
    u.inner.host_str().map(|h| h.to_string())
}

/// `url::Url::path_segments_mut` accepts the URL parsed from `text` (it
/// refuses URLs that cannot be a base, such as `mailto:` ones).
pub uninterp spec fn url_can_be_base(text: Seq<char>) -> bool;

/// The text (`url::Url::as_str`) of the URL parsed from `base` after
/// `path_segments_mut()`, `pop_if_empty()`, `push(first)` and `push(second)`.
pub uninterp spec fn url_with_pushed_segments(
    base: Seq<char>,
    first: Seq<char>,
    second: Seq<char>,
) -> Seq<char>;

/// Calls `url::Url::path_segments_mut`, then `pop_if_empty` and `push` of
/// each segment on it, and hands back the resulting URL's text
/// (`url::Url::as_str`). The contract claims that this succeeds exactly when
/// `url_can_be_base` holds of the base text, and that the text is
/// `url_with_pushed_segments` of the base text and the two segments.
#[verifier::external_body]
pub(crate) fn push_two_segments(base: ParsedUrl, first: &str, second: &str) -> (r: Result<
    String,
    (),
>)
    ensures
        match r {
            Ok(t) => url_can_be_base(base@) && t@ == url_with_pushed_segments(
                base@,
                first@,
                second@,
            ),
            Err(()) => !url_can_be_base(base@),
        },
{
    let mut inner = base.inner;
    match inner.path_segments_mut() {
        Ok(mut segments) => {
            segments.pop_if_empty().push(first).push(second);
        },
        Err(()) => return Err(()),
    }
    Ok(inner.as_str().to_string())
}

} // verus!
