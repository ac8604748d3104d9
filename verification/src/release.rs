//! Release resolution: from a release's metadata to the one asset to
//! download.
//!
//! The configured file-name pattern is made concrete by substituting the
//! release version, the application name and the target triple; the first
//! asset whose name contains the resulting string wins. A digest declared
//! for the asset is normalized to a bare lower-case hex string by stripping
//! the known algorithm label (`sha256`) before the first `:`; a digest with
//! an unknown label cannot be checked by this engine and is treated as
//! absent, downgrading verification to length alone.

use vstd::prelude::*;
use vstd::string::*;
use crate::errors::GithubUpdaterError;
use crate::text::{contains_seq, contains_str, replace_all, replaced};

verus! {

/// One downloadable file attached to a release.
#[derive(Debug, Clone)]
pub struct AssetInfo {
    /// The asset's file name in the release.
    pub name: String,
    /// The URL its content is fetched from.
    pub download_url: String,
    /// The content digest the feed declares, as `<algorithm>:<hex>`, or
    /// nothing when the feed gives no digest.
    pub content_digest: Option<String>,
}

/// The metadata of one release: its version and its assets, in feed order.
#[derive(Debug, Clone)]
pub struct ReleaseInfo {
    /// The release's version string.
    pub version: String,
    /// The release's assets, in the order the feed returned them.
    pub assets: Vec<AssetInfo>,
}

/// The asset chosen for download, with its digest normalized to bare hex.
#[derive(Debug, Clone)]
pub struct ResolvedAsset {
    /// The release's version string.
    pub version: String,
    /// The URL the asset's content is fetched from.
    pub download_url: String,
    /// The declared content digest as bare lower-case hex, or nothing when
    /// the feed gave no digest this engine can check.
    pub digest: Option<String>,
}

/// The prefix of `s` before its first `:`.
pub open spec fn label_of(s: Seq<char>) -> Seq<char>
    decreases s.len(),
{
    if s.len() == 0 {
        s
    } else if s[0] == ':' {
        Seq::<char>::empty()
    } else {
        seq![s[0]] + label_of(s.drop_first())
    }
}

/// The suffix of `s` after its first `:`.
pub open spec fn after_label(s: Seq<char>) -> Seq<char>
    decreases s.len(),
{
    if s.len() == 0 {
        s
    } else if s[0] == ':' {
        s.drop_first()
    } else {
        after_label(s.drop_first())
    }
}

/// Whether `s` holds a `:` anywhere.
pub open spec fn has_colon(s: Seq<char>) -> bool {
    exists|i: int| 0 <= i < s.len() && s[i] == ':'
}

/// `s` with its known algorithm label stripped: everything after the first
/// `:` when the label before it is `sha256`; `s` itself when it carries no
/// label; nothing when the label names an algorithm this engine does not
/// compute.
pub open spec fn normalized_digest(s: Seq<char>) -> Option<Seq<char>> {
    if has_colon(s) {
        if label_of(s) == "sha256"@ {
            Some(after_label(s))
        } else {
            None
        }
    } else {
        Some(s)
    }
}

proof fn lemma_label_of_at(s: Seq<char>, i: int)
    requires
        0 <= i < s.len(),
        s[i] == ':',
        forall|j: int| 0 <= j < i ==> s[j] != ':',
    ensures
        label_of(s) == s.take(i),
    decreases i,
{
    if i == 0 {
        assert(s.take(0) =~= Seq::<char>::empty());
    } else {
        lemma_label_of_at(s.drop_first(), i - 1);
        assert(s.drop_first().take(i - 1) =~= s.take(i).drop_first());
        assert(seq![s[0]] + s.take(i).drop_first() =~= s.take(i));
    }
}

proof fn lemma_after_label_at(s: Seq<char>, i: int)
    requires
        0 <= i < s.len(),
        s[i] == ':',
        forall|j: int| 0 <= j < i ==> s[j] != ':',
    ensures
        after_label(s) == s.skip(i + 1),
    decreases i,
{
    if i == 0 {
        assert(s.drop_first() =~= s.skip(1));
    } else {
        lemma_after_label_at(s.drop_first(), i - 1);
        assert(s.drop_first().skip(i) =~= s.skip(i + 1));
    }
}

/// Strips the known algorithm label: returns everything after the first
/// `:` when the label is `sha256`, the whole string when it carries no
/// label, and nothing when the label names an algorithm this engine does
/// not compute.
pub fn normalize_digest(s: &str) -> (r: Option<String>)
    ensures
        match r {
            Some(d) => normalized_digest(s@) == Some(d@),
            None => normalized_digest(s@) is None,
        },
{
    let n = s.unicode_len();
    let mut i: usize = 0;
    while i < n
        invariant
            n == s@.len(),
            i <= n,
            forall|j: int| 0 <= j < i ==> s@[j] != ':',
        decreases n - i,
    {
        if s.get_char(i) == ':' {
            proof {
                lemma_label_of_at(s@, i as int);
                lemma_after_label_at(s@, i as int);
            }
            let label = s.substring_char(0, i);
            assert(label@ =~= s@.take(i as int));
            if label.to_owned().eq(&String::from_str("sha256")) {
                let rest = s.substring_char(i + 1, n);
                assert(rest@ =~= s@.skip(i + 1));
                return Some(rest.to_owned());
            }
            return None;
        }
        i = i + 1;
    }
    assert(!has_colon(s@));
    Some(s.to_owned())
}

/// The concrete string an asset name must contain: the pattern with
/// `{app_version}`, then `{app_name}`, then (when a target is configured)
/// `{rust_target}` substituted, in that order.
pub open spec fn spec_match_string(
    pattern: Seq<char>,
    version: Seq<char>,
    app_name: Seq<char>,
    rust_target: Option<Seq<char>>,
) -> Seq<char> {
    let step1 = replaced(pattern, "{app_version}"@, version);
    let step2 = replaced(step1, "{app_name}"@, app_name);
    match rust_target {
        Some(t) => replaced(step2, "{rust_target}"@, t),
        None => step2,
    }
}

/// Substitutes the release version, application name and optional target
/// triple into the file-name pattern.
pub fn build_match_string(
    pattern: &str,
    version: &str,
    app_name: &str,
    rust_target: Option<&String>,
) -> (r: String)
    ensures
        r@ == spec_match_string(
            pattern@,
            version@,
            app_name@,
            match rust_target {
                Some(t) => Some(t@),
                None => None,
            },
        ),
{
    let step1 = replace_all(pattern, "{app_version}", version);
    let step2 = replace_all(step1.as_str(), "{app_name}", app_name);
    match rust_target {
        Some(t) => replace_all(step2.as_str(), "{rust_target}", t.as_str()),
        None => step2,
    }
}

/// Whether the asset's name contains the concrete match string.
pub open spec fn asset_matches(a: AssetInfo, ms: Seq<char>) -> bool {
    contains_seq(a.name@, ms)
}

/// Whether any asset of the list matches.
pub open spec fn some_asset_matches(assets: Seq<AssetInfo>, ms: Seq<char>) -> bool {
    exists|i: int| 0 <= i < assets.len() && asset_matches(assets[i], ms)
}

/// `r` is the resolution of `release` under match string `ms`: it carries
/// the release's version and the download URL of the first matching asset,
/// and its digest is that asset's digest, normalized — absent when the
/// asset declares none, or one under an algorithm label this engine does
/// not compute.
pub open spec fn resolved_from(r: ResolvedAsset, release: ReleaseInfo, ms: Seq<char>) -> bool {
    exists|i: int|
        {
            &&& 0 <= i < release.assets@.len()
            &&& asset_matches(release.assets@[i], ms)
            &&& forall|j: int| 0 <= j < i ==> !asset_matches(release.assets@[j], ms)
            &&& r.download_url@ == release.assets@[i].download_url@
            &&& match (r.digest, release.assets@[i].content_digest) {
                (Some(d), Some(s)) => normalized_digest(s@) == Some(d@),
                (None, Some(s)) => normalized_digest(s@) is None,
                (None, None) => true,
                (Some(_), None) => false,
            }
            &&& r.version@ == release.version@
        }
}

/// Picks the asset to download: the first whose name contains the match
/// string built from the pattern. Fails exactly when no asset matches.
pub fn resolve_release(
    release: &ReleaseInfo,
    pattern: &str,
    app_name: &str,
    rust_target: Option<&String>,
) -> (r: Result<ResolvedAsset, GithubUpdaterError>)
    ensures
        ({
            let ms = spec_match_string(
                pattern@,
                release.version@,
                app_name@,
                match rust_target {
                    Some(t) => Some(t@),
                    None => None,
                },
            );
            &&& (r is Ok <==> some_asset_matches(release.assets@, ms))
            &&& (r is Ok ==> resolved_from(r->Ok_0, *release, ms))
            &&& (r is Err ==> (r->Err_0 matches GithubUpdaterError::FetchError(m) && m@
                == "No URL matching the pattern entered was found."@))
        }),
{
    let ms = build_match_string(pattern, release.version.as_str(), app_name, rust_target);
    let n = release.assets.len();
    let mut i: usize = 0;
    while i < n
        invariant
            n == release.assets@.len(),
            i <= n,
            ms@ == spec_match_string(
                pattern@,
                release.version@,
                app_name@,
                match rust_target {
                    Some(t) => Some(t@),
                    None => None,
                },
            ),
            forall|j: int| 0 <= j < i ==> !asset_matches(release.assets@[j], ms@),
        decreases n - i,
    {
        let asset = &release.assets[i];
        if contains_str(asset.name.as_str(), ms.as_str()) {
            let digest = match &asset.content_digest {
                Some(d) => normalize_digest(d.as_str()),
                None => None,
            };
            return Ok(
                ResolvedAsset {
                    version: release.version.clone(),
                    download_url: asset.download_url.clone(),
                    digest,
                },
            );
        }
        i = i + 1;
    }
    Err(
        GithubUpdaterError::FetchError(
            String::from_str("No URL matching the pattern entered was found."),
        ),
    )
}

} // verus!
