//! Detection of processes that were launched by Kode.
//!
//! MCP and hook registrations live in backend user configuration for
//! compatibility, so presence in that configuration is no proof that the
//! current CLI belongs to Kode. Kode's session launcher hands the owned process
//! a host marker, a session id and a backend key; only their combination marks
//! a managed session.

use vstd::prelude::*;
use crate::text::{chars_equal, chars_of, trim, trim_chars};

verus! {

/// The view of an optional string argument.
pub open spec fn opt_text(o: Option<&str>) -> Option<Seq<char>> {
    match o {
        Some(s) => Some(s@),
        None => None,
    }
}

/// A value counts as present when something other than whitespace remains.
pub open spec fn is_filled(s: Seq<char>) -> bool {
    trim(s).len() > 0
}

/// The process belongs to a Kode-managed CLI session: the host marker is
/// exactly `"1"`, session id and backend key are present and not blank, and
/// when a backend is expected the key names exactly that backend.
pub open spec fn managed_session(
    host: Option<Seq<char>>,
    session_id: Option<Seq<char>>,
    backend_key: Option<Seq<char>>,
    expected_backend: Option<Seq<char>>,
) -> bool {
    &&& host == Some("1"@)
    &&& session_id matches Some(s) && is_filled(s)
    &&& backend_key matches Some(b) && is_filled(b)
    &&& expected_backend matches Some(e) ==> e == backend_key->0
}

fn filled(s: &str) -> (r: bool)
    ensures
        r == is_filled(s@),
{
    let cs = chars_of(s);
    let t = trim_chars(cs.as_slice());
    t.len() > 0
}

/// Decides from the launcher's values whether the current process is a
/// Kode-managed CLI session.
pub fn is_active_values(
    host: Option<&str>,
    session_id: Option<&str>,
    backend_key: Option<&str>,
    expected_backend: Option<&str>,
) -> (active: bool)
    ensures
        active == managed_session(
            opt_text(host),
            opt_text(session_id),
            opt_text(backend_key),
            opt_text(expected_backend),
        ),
{
    let h = match host {
        Some(h) => h,
        None => return false,
    };
    let marker = chars_of("1");
    if !chars_equal(chars_of(h).as_slice(), marker.as_slice()) {
        return false;
    }
    let session = match session_id {
        Some(s) => s,
        None => return false,
    };
    if !filled(session) {
        return false;
    }
    let backend = match backend_key {
        Some(b) => b,
        None => return false,
    };
    if !filled(backend) {
        return false;
    }
    match expected_backend {
        None => true,
        Some(expected) => chars_equal(chars_of(expected).as_slice(), chars_of(backend).as_slice()),
    }
}

/// A process without the host marker, the session id or the backend key is
/// never a managed session, whatever backend is expected.
pub proof fn law_external_cli_is_inactive(
    host: Option<Seq<char>>,
    session_id: Option<Seq<char>>,
    backend_key: Option<Seq<char>>,
    expected_backend: Option<Seq<char>>,
)
    requires
        host != Some("1"@) || session_id is None || backend_key is None,
    ensures
        !managed_session(host, session_id, backend_key, expected_backend),
{
}

/// Expecting a backend only narrows: a session active for an expected
/// backend is active when none is expected, and then its key is that backend.
pub proof fn law_expected_backend_only_narrows(
    host: Option<Seq<char>>,
    session_id: Option<Seq<char>>,
    backend_key: Option<Seq<char>>,
    expected: Seq<char>,
)
    requires
        managed_session(host, session_id, backend_key, Some(expected)),
    ensures
        managed_session(host, session_id, backend_key, None),
        backend_key == Some(expected),
{
}

} // verus!
