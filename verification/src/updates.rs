//! GitHub release channels. Only published releases take part: drafts and
//! tags that are no semantic version are never offered; the stable channel
//! skips pre-releases by either marker; an update is offered only above the
//! running version unless the version check is switched off for testing, and
//! only when the release carries the updater's manifest, archive and
//! signature. Downloads still go through the updater and the public key
//! embedded in the application.

use vstd::prelude::*;
use crate::text::{chars_equal, chars_of, push_str, string_of};
use crate::url_parts::{
    parse_url, push_two_segments, url_can_be_base, url_parse_failure, url_with_pushed_segments,
};
use crate::version::{
    compare_precedence, law_precedence_antisymmetric, law_precedence_transitive, precedence,
    semver_parse, version_text, ReleaseVersion,
};
use crate::remote_dir::string_of_str;

verus! {

/// The repository whose releases are offered.
pub const REPOSITORY: &'static str = "TencentYoutuResearch/Palm-Tools";

/// Where the release files of the repository are downloaded from.
pub const RELEASE_DOWNLOAD_BASE: &'static str = "https://github.com/TencentYoutuResearch/Palm-Tools/releases/download/";

/// The updater's manifest file in a release.
pub const MANIFEST_FILE: &'static str = "latest.json";

/// The state of a completely uploaded asset.
pub const UPLOADED: &'static str = "uploaded";

/// Releases fetched per page, and the most pages read.
pub const RELEASES_PER_PAGE: usize = 100;
pub const MAX_RELEASE_PAGES: u32 = 10;

pub const TOO_MANY_RELEASES: &'static str = "Too many releases to select an update safely";
pub const INVALID_RELEASE_URL: &'static str = "Invalid release URL";
pub const MANIFEST_WITHOUT_UPDATE: &'static str = "Release manifest does not advertise the selected update";
pub const MANIFEST_MISMATCH: &'static str = "Release tag and update manifest versions do not match";

/// A file attached to a release.
pub struct Asset {
    pub name: String,
    pub state: String,
    pub size: u64,
}

/// A GitHub release.
pub struct Release {
    pub tag_name: String,
    pub draft: bool,
    pub prerelease: bool,
    pub assets: Vec<Asset>,
}

// ---------------------------------------------------------------- specs

/// `s` without its leading `v` characters (what `trim_start_matches('v')`
/// gives).
pub open spec fn strip_v(s: Seq<char>) -> Seq<char>
    decreases s.len(),
{
    if s.len() > 0 && s[0] == 'v' {
        strip_v(s.drop_first())
    } else {
        s
    }
}

/// The version a release offers on a channel: none for drafts and tags that
/// are no semantic version; on the stable channel also none for releases
/// marked as pre-release or whose version has a pre-release part.
pub open spec fn channel_version(r: Release, beta: bool) -> Option<
    (u64, u64, u64, Seq<char>, Seq<char>),
> {
    if r.draft {
        None
    } else {
        match semver_parse(strip_v(r.tag_name@)) {
            None => None,
            Some(v) => if beta || (!r.prerelease && v.3.len() == 0) {
                Some(v)
            } else {
                None
            },
        }
    }
}

/// The newest release among `rs` on a channel, with its index: each offered
/// version in turn replaces the one kept unless the kept one has higher
/// precedence, so of versions with equal precedence the last one wins.
pub open spec fn newest_in(rs: Seq<Release>, beta: bool) -> Option<
    (int, (u64, u64, u64, Seq<char>, Seq<char>)),
>
    decreases rs.len(),
{
    if rs.len() == 0 {
        None
    } else {
        let kept = newest_in(rs.drop_last(), beta);
        match channel_version(rs.last(), beta) {
            None => kept,
            Some(v) => match kept {
                Some(k) => if precedence(k.1, v) == 1 {
                    kept
                } else {
                    Some((rs.len() - 1, v))
                },
                None => Some((rs.len() - 1, v)),
            },
        }
    }
}

/// `r` is the release at `i` in `rs` with version `v`, as `newest_in` picks.
pub open spec fn picked(
    r: Option<(&Release, ReleaseVersion)>,
    rs: Seq<Release>,
    choice: Option<(int, (u64, u64, u64, Seq<char>, Seq<char>))>,
) -> bool {
    match choice {
        None => r is None,
        Some(c) => r matches Some(p) && 0 <= c.0 < rs.len() && *p.0 == rs[c.0] && p.1@ == c.1,
    }
}

/// The newest release, if it is above `current`.
pub open spec fn newer_in(
    rs: Seq<Release>,
    beta: bool,
    current: (u64, u64, u64, Seq<char>, Seq<char>),
) -> Option<(int, (u64, u64, u64, Seq<char>, Seq<char>))> {
    match newest_in(rs, beta) {
        Some(c) => if precedence(c.1, current) == 1 {
            Some(c)
        } else {
            None
        },
        None => None,
    }
}

/// The name of the updater archive for a version and an architecture.
pub open spec fn archive_name(v: (u64, u64, u64, Seq<char>, Seq<char>), arch: Seq<char>) -> Seq<
    char,
> {
    "kode_"@ + version_text(v) + "_"@ + arch + ".app.tar.gz"@
}

/// An asset with this name that was completely uploaded and is not empty.
pub open spec fn asset_ready(a: Asset, name: Seq<char>) -> bool {
    a.name@ == name && a.state@ == UPLOADED@ && a.size > 0
}

/// Some asset of `r` with this name is ready.
pub open spec fn asset_present(r: Release, name: Seq<char>) -> bool {
    exists|j: int| 0 <= j < r.assets@.len() && asset_ready(#[trigger] r.assets@[j], name)
}

/// Every required asset is present, uploaded and not empty.
pub open spec fn updater_assets_present(
    r: Release,
    v: (u64, u64, u64, Seq<char>, Seq<char>),
    arch: Seq<char>,
) -> bool {
    &&& asset_present(r, MANIFEST_FILE@)
    &&& asset_present(r, archive_name(v, arch))
    &&& asset_present(r, archive_name(v, arch) + ".sig"@)
}

// ---------------------------------------------------------------- exec

fn strip_leading_v(s: &str) -> (out: String)
    ensures
        out@ == strip_v(s@),
{
    let cs = chars_of(s);
    let mut i: usize = 0;
    assert(cs@.skip(0) == cs@);
    while i < cs.len() && cs[i] == 'v'
        invariant
            i <= cs@.len(),
            cs@ == s@,
            strip_v(cs@.skip(i as int)) == strip_v(s@),
        decreases cs.len() - i,
    {
        assert(cs@.skip(i as int).drop_first() == cs@.skip(i + 1));
        i = i + 1;
    }
    let mut rest: Vec<char> = Vec::new();
    let mut j: usize = i;
    while j < cs.len()
        invariant
            i <= j <= cs@.len(),
            rest@ == cs@.subrange(i as int, j as int),
        decreases cs.len() - j,
    {
        rest.push(cs[j]);
        j = j + 1;
    }
    assert(rest@ == cs@.skip(i as int));
    string_of(rest.as_slice())
}

/// The version `r` offers on the channel.
fn offered_version(r: &Release, beta: bool) -> (v: Option<ReleaseVersion>)
    ensures
        match v {
            Some(x) => channel_version(*r, beta) == Some(x@),
            None => channel_version(*r, beta) is None,
        },
{
    if r.draft {
        return None;
    }
    match ReleaseVersion::parse(strip_leading_v(r.tag_name.as_str()).as_str()) {
        None => None,
        Some(v) => {
            if beta || (!r.prerelease && !v.is_prerelease()) {
                Some(v)
            } else {
                None
            }
        },
    }
}

/// The newest release on a channel: drafts and tags that are no semantic
/// version (after leading `v`s) are skipped; the stable channel also skips
/// releases marked as pre-release and versions with a pre-release part; of
/// the rest the one of highest precedence, the last of equals.
pub fn newest_release(releases: &[Release], beta: bool) -> (r: Option<(&Release, ReleaseVersion)>)
    ensures
        picked(r, releases@, newest_in(releases@, beta)),
{
    let mut best: Option<(usize, ReleaseVersion)> = None;
    let mut i: usize = 0;
    while i < releases.len()
        invariant
            i <= releases@.len(),
            match newest_in(releases@.take(i as int), beta) {
                None => best is None,
                Some(c) => best matches Some(b) && b.0 == c.0 && b.1@ == c.1 && c.0 < i,
            },
        decreases releases.len() - i,
    {
        let ghost prefix = releases@.take(i + 1);
        assert(prefix.drop_last() == releases@.take(i as int));
        assert(prefix.last() == releases@[i as int]);
        match offered_version(&releases[i], beta) {
            None => {},
            Some(v) => {
                let replace = match &best {
                    None => true,
                    Some(b) => compare_precedence(&b.1, &v) != 1,
                };
                if replace {
                    best = Some((i, v));
                }
            },
        }
        i = i + 1;
    }
    assert(releases@.take(releases@.len() as int) == releases@);
    match best {
        None => None,
        Some(b) => Some((&releases[b.0], b.1)),
    }
}

/// The newest release on a channel, only when its precedence is above the
/// running version: switching channels never downgrades or reinstalls.
pub fn newer_release<'a>(releases: &'a [Release], beta: bool, current: &ReleaseVersion) -> (r: Option<
    (&'a Release, ReleaseVersion),
>)
    ensures
        picked(r, releases@, newer_in(releases@, beta, current@)),
        r matches Some(p) ==> precedence(p.1@, current@) == 1,
{
    match newest_release(releases, beta) {
        None => None,
        Some(p) => {
            if compare_precedence(&p.1, current) == 1 {
                Some(p)
            } else {
                None
            }
        },
    }
}

/// The release an update check looks at: with the version check switched
/// off, the newest on the channel (allowing a reinstall or downgrade, still
/// within the channel); otherwise only a newer one.
pub fn release_for_check<'a>(
    releases: &'a [Release],
    beta: bool,
    current: &ReleaseVersion,
    ignore_version: bool,
) -> (r: Option<(&'a Release, ReleaseVersion)>)
    ensures
        ignore_version ==> picked(r, releases@, newest_in(releases@, beta)),
        !ignore_version ==> picked(r, releases@, newer_in(releases@, beta, current@)),
{
    if ignore_version {
        newest_release(releases, beta)
    } else {
        newer_release(releases, beta, current)
    }
}

fn archive_file(version: &ReleaseVersion, arch: &str) -> (name: String)
    ensures
        name@ == archive_name(version@, arch@),
{
    let mut name = string_of_str("kode_");
    push_str(&mut name, version.to_string().as_str());
    push_str(&mut name, "_");
    push_str(&mut name, arch);
    push_str(&mut name, ".app.tar.gz");
    name
}

fn has_ready_asset(release: &Release, name: &str) -> (r: bool)
    ensures
        r == asset_present(*release, name@),
{
    let wanted = chars_of(name);
    let uploaded = chars_of(UPLOADED);
    let mut j: usize = 0;
    while j < release.assets.len()
        invariant
            j <= release.assets@.len(),
            wanted@ == name@,
            uploaded@ == UPLOADED@,
            forall|k: int| 0 <= k < j ==> !asset_ready(#[trigger] release.assets@[k], name@),
        decreases release.assets.len() - j,
    {
        let a = &release.assets[j];
        if chars_equal(chars_of(a.name.as_str()).as_slice(), wanted.as_slice()) && chars_equal(
            chars_of(a.state.as_str()).as_slice(),
            uploaded.as_slice(),
        ) && a.size > 0 {
            return true;
        }
        j = j + 1;
    }
    false
}

/// The release carries, completely uploaded and not empty, the updater's
/// manifest, the archive for this version and architecture, and the
/// archive's signature.
pub fn has_updater_assets(release: &Release, version: &ReleaseVersion, arch: &str) -> (r: bool)
    ensures
        r == updater_assets_present(*release, version@, arch@),
{
    let archive = archive_file(version, arch);
    let mut signature = archive.clone();
    push_str(&mut signature, ".sig");
    let a = has_ready_asset(release, MANIFEST_FILE);
    let b = has_ready_asset(release, archive.as_str());
    let c = has_ready_asset(release, signature.as_str());
    a && b && c
}

// ---------------------------------------------------------------- checking

/// What the update check does after reading one page of releases.
pub enum PageNext {
    /// The page was not full: every release has been read.
    Complete,
    /// Read the next page.
    NextPage,
    /// The last allowed page was full: refuse to pick from a partial list.
    TooMany(String),
}

/// Decides after reading page `page` (counted from `1`) holding `batch_len`
/// releases.
pub fn page_decision(page: u32, batch_len: usize) -> (next: PageNext)
    ensures
        batch_len < RELEASES_PER_PAGE ==> next is Complete,
        batch_len >= RELEASES_PER_PAGE && page >= MAX_RELEASE_PAGES ==> (next matches PageNext::TooMany(
            m,
        ) && m@ == TOO_MANY_RELEASES@),
        batch_len >= RELEASES_PER_PAGE && page < MAX_RELEASE_PAGES ==> next is NextPage,
{
    if batch_len < RELEASES_PER_PAGE {
        PageNext::Complete
    } else if page >= MAX_RELEASE_PAGES {
        PageNext::TooMany(string_of_str(TOO_MANY_RELEASES))
    } else {
        PageNext::NextPage
    }
}

/// What an update check found.
pub enum UpdateSelection {
    /// No release to offer.
    UpToDate,
    /// A release to offer exists but lacks the updater's files; its version
    /// text, so that it is not taken for "up to date".
    Pending(String),
    /// A release to offer with all updater files: its tag and version.
    Ready { tag: String, version: ReleaseVersion },
}

/// Selects what an update check reports for the fetched releases.
pub fn select_update(
    releases: &[Release],
    beta: bool,
    current: &ReleaseVersion,
    ignore_version: bool,
    arch: &str,
) -> (s: UpdateSelection)
    ensures
        ({
            let choice = if ignore_version {
                newest_in(releases@, beta)
            } else {
                newer_in(releases@, beta, current@)
            };
            match choice {
                None => s is UpToDate,
                Some(c) => if updater_assets_present(releases@[c.0], c.1, arch@) {
                    s matches UpdateSelection::Ready { tag, version } && tag@
                        == releases@[c.0].tag_name@ && version@ == c.1
                } else {
                    s matches UpdateSelection::Pending(v) && v@ == version_text(c.1)
                },
            }
        }),
{
    match release_for_check(releases, beta, current, ignore_version) {
        None => UpdateSelection::UpToDate,
        Some(p) => {
            let (release, version) = p;
            if has_updater_assets(release, &version, arch) {
                UpdateSelection::Ready { tag: release.tag_name.clone(), version }
            } else {
                UpdateSelection::Pending(version.to_string())
            }
        },
    }
}

/// The manifest URL of a release: the repository's download location, then
/// the tag, then the manifest file.
pub fn release_manifest_endpoint(tag: &str) -> (r: Result<String, String>)
    ensures
        match url_parse_failure(RELEASE_DOWNLOAD_BASE@) {
            Some(e) => r matches Err(m) && m@ == e,
            None => if url_can_be_base(RELEASE_DOWNLOAD_BASE@) {
                r matches Ok(u) && u@ == url_with_pushed_segments(
                    RELEASE_DOWNLOAD_BASE@,
                    tag@,
                    MANIFEST_FILE@,
                )
            } else {
                r matches Err(m) && m@ == INVALID_RELEASE_URL@
            },
        },
{
    let base = match parse_url(RELEASE_DOWNLOAD_BASE) {
        Ok(u) => u,
        Err(e) => return Err(e),
    };
    match push_two_segments(base, tag, MANIFEST_FILE) {
        Ok(u) => Ok(u),
        Err(()) => Err(string_of_str(INVALID_RELEASE_URL)),
    }
}

/// Checks what the release's manifest advertises against the selected
/// release: it must advertise an update, of exactly the selected version.
pub fn check_manifest(advertised: Option<&str>, selected: &ReleaseVersion) -> (r: Result<(), String>)
    ensures
        match advertised {
            None => r matches Err(m) && m@ == MANIFEST_WITHOUT_UPDATE@,
            Some(v) => if v@ == version_text(selected@) {
                r is Ok
            } else {
                r matches Err(m) && m@ == MANIFEST_MISMATCH@
            },
        },
{
    match advertised {
        None => Err(string_of_str(MANIFEST_WITHOUT_UPDATE)),
        Some(v) => {
            if chars_equal(chars_of(v).as_slice(), chars_of(selected.to_string().as_str()).as_slice()) {
                Ok(())
            } else {
                Err(string_of_str(MANIFEST_MISMATCH))
            }
        },
    }
}

// ---------------------------------------------------------------- laws

/// The release picked on a channel is one the channel offers, with the
/// version that release offers: never a draft, never a tag that is no
/// semantic version, and on the stable channel never a pre-release by
/// either marker.
pub proof fn law_pick_is_offered(rs: Seq<Release>, beta: bool)
    ensures
        newest_in(rs, beta) matches Some(c) ==> {
            &&& 0 <= c.0 < rs.len()
            &&& channel_version(rs[c.0], beta) == Some(c.1)
            &&& !rs[c.0].draft
            &&& !beta ==> !rs[c.0].prerelease && c.1.3.len() == 0
        },
    decreases rs.len(),
{
    if rs.len() > 0 {
        law_pick_is_offered(rs.drop_last(), beta);
        if let Some(c) = newest_in(rs.drop_last(), beta) {
            assert(rs.drop_last()[c.0] == rs[c.0]);
        }
    }
}

/// Every release offered after the picked one ranks strictly below it.
pub proof fn law_later_offers_rank_below(rs: Seq<Release>, beta: bool, j: int)
    requires
        newest_in(rs, beta) is Some,
        (newest_in(rs, beta)->0).0 < j < rs.len(),
        channel_version(rs[j], beta) is Some,
    ensures
        precedence((newest_in(rs, beta)->0).1, channel_version(rs[j], beta)->0) == 1,
    decreases rs.len(),
{
    let c = newest_in(rs, beta)->0;
    let kept = newest_in(rs.drop_last(), beta);
    law_pick_is_offered(rs.drop_last(), beta);
    // The pick lies before the last release, so the last one did not
    // replace it: the pick was kept.
    assert(kept == Some(c));
    if j < rs.len() - 1 {
        assert(rs.drop_last()[j] == rs[j]);
        law_later_offers_rank_below(rs.drop_last(), beta, j);
    }
}

/// Whenever the stable channel offers a release, the beta channel offers
/// one too: beta sees every stable release.
pub proof fn law_beta_offers_whenever_stable_does(rs: Seq<Release>)
    ensures
        newest_in(rs, false) is Some ==> newest_in(rs, true) is Some,
    decreases rs.len(),
{
    if rs.len() > 0 {
        law_beta_offers_whenever_stable_does(rs.drop_last());
    }
}

/// An update check never offers a release at or below the running version
/// unless the version check is switched off.
pub proof fn law_no_downgrade_or_reinstall(
    rs: Seq<Release>,
    beta: bool,
    current: (u64, u64, u64, Seq<char>, Seq<char>),
)
    ensures
        newer_in(rs, beta, current) matches Some(c) ==> precedence(c.1, current) == 1,
        newer_in(rs, beta, current) matches Some(c) ==> newest_in(rs, beta) == Some(c),
{
}

/// Some release of `rs` is offered on the channel.
pub open spec fn any_offered(rs: Seq<Release>, beta: bool) -> bool {
    exists|j: int| 0 <= j < rs.len() && #[trigger] channel_version(rs[j], beta) is Some
}

/// The channel picks a release exactly when it offers one, and no offered
/// release ranks above the pick: the channel gets its highest version.
pub proof fn law_pick_is_highest(rs: Seq<Release>, beta: bool)
    ensures
        newest_in(rs, beta) is None <==> !any_offered(rs, beta),
        newest_in(rs, beta) matches Some(c) ==> forall|j: int|
            0 <= j < rs.len() && #[trigger] channel_version(rs[j], beta) is Some ==> precedence(
                channel_version(rs[j], beta)->0,
                c.1,
            ) != 1,
    decreases rs.len(),
{
    if rs.len() == 0 {
        return;
    }
    let t = rs.drop_last();
    let last = rs.len() - 1;
    law_pick_is_highest(t, beta);
    assert forall|j: int| 0 <= j < t.len() implies #[trigger] t[j] == rs[j] by {}
    if any_offered(t, beta) {
        let j = choose|j: int| 0 <= j < t.len() && #[trigger] channel_version(t[j], beta) is Some;
        assert(channel_version(rs[j], beta) is Some);
    }
    if any_offered(rs, beta) && !any_offered(t, beta) {
        let j = choose|j: int| 0 <= j < rs.len() && #[trigger] channel_version(rs[j], beta) is Some;
        assert(j == last) by {
            if j < last {
                assert(channel_version(t[j], beta) is Some);
            }
        }
    }
    match newest_in(rs, beta) {
        None => {
            assert forall|j: int| 0 <= j < rs.len() implies #[trigger] channel_version(rs[j], beta) is None by {
                if j < last {
                    assert(channel_version(t[j], beta) is None);
                }
            }
        },
        Some(c) => {
            assert forall|j: int|
                0 <= j < rs.len() && #[trigger] channel_version(rs[j], beta) is Some implies precedence(
                channel_version(rs[j], beta)->0,
                c.1,
            ) != 1 by {
                let v = channel_version(rs[j], beta)->0;
                law_precedence_antisymmetric(v, c.1);
                match channel_version(rs.last(), beta) {
                    None => {
                        assert(j < last);
                        assert(channel_version(t[j], beta) is Some);
                    },
                    Some(w) => match newest_in(t, beta) {
                        None => {
                            if j < last {
                                assert(channel_version(t[j], beta) is Some);
                            }
                        },
                        Some(k) => {
                            law_precedence_antisymmetric(k.1, w);
                            if j < last {
                                assert(channel_version(t[j], beta) is Some);
                                if precedence(k.1, w) != 1 {
                                    law_precedence_transitive(v, k.1, w);
                                }
                            }
                        },
                    },
                }
            }
        },
    }
}

/// An update check offers the newest release of the channel exactly when it
/// ranks strictly above the running version: whenever it does, that release
/// is offered (pre-releases included on the beta channel, whatever the
/// running version is), and whatever is offered is that release.
pub proof fn law_newer_offers_every_higher_newest(
    rs: Seq<Release>,
    beta: bool,
    current: (u64, u64, u64, Seq<char>, Seq<char>),
)
    ensures
        (newest_in(rs, beta) matches Some(c) && precedence(c.1, current) == 1) ==> newer_in(
            rs,
            beta,
            current,
        ) == newest_in(rs, beta),
        (newer_in(rs, beta, current) matches Some(c) && newest_in(rs, beta) == Some(c)
            && precedence(c.1, current) == 1) || (newer_in(rs, beta, current) is None && (
        newest_in(rs, beta) is None || precedence((newest_in(rs, beta)->0).1, current) != 1)),
{
}

/// A release is ready for the updater exactly when it carries, each uploaded
/// and not empty, the manifest `latest.json`, the archive
/// `kode_<version>_<arch>.app.tar.gz` and that archive's `.sig` signature.
pub proof fn law_ready_needs_all_updater_files(
    r: Release,
    v: (u64, u64, u64, Seq<char>, Seq<char>),
    arch: Seq<char>,
)
    ensures
        updater_assets_present(r, v, arch) <==> {
            &&& exists|j: int|
                0 <= j < r.assets@.len() && (#[trigger] r.assets@[j]).name@ == "latest.json"@
                    && r.assets@[j].state@ == "uploaded"@ && r.assets@[j].size > 0
            &&& exists|j: int|
                0 <= j < r.assets@.len() && (#[trigger] r.assets@[j]).name@ == "kode_"@
                    + version_text(v) + "_"@ + arch + ".app.tar.gz"@ && r.assets@[j].state@
                    == "uploaded"@ && r.assets@[j].size > 0
            &&& exists|j: int|
                0 <= j < r.assets@.len() && (#[trigger] r.assets@[j]).name@ == "kode_"@
                    + version_text(v) + "_"@ + arch + ".app.tar.gz"@ + ".sig"@
                    && r.assets@[j].state@ == "uploaded"@ && r.assets@[j].size > 0
        },
{
}

} // verus!
