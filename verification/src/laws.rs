//! The engine's guarantees, stated and proved as laws over the pipeline's
//! specifications.

use vstd::prelude::*;
use crate::digest::{digest_of, hex_of, spec_verdict, VerifyOutcome};
use crate::flow::{spec_up_to_date, UpdateFlow};
use crate::release::ResolvedAsset;
use crate::text::{is_space, trimmed};

verus! {

/// The result of trimming carries no leading or trailing whitespace.
proof fn lemma_trimmed_clean(s: Seq<char>)
    ensures
        trimmed(s).len() > 0 ==> !is_space(trimmed(s)[0]),
        trimmed(s).len() > 0 ==> !is_space(trimmed(s)[trimmed(s).len() - 1]),
    decreases s.len(),
{
    if s.len() == 0 {
    } else if is_space(s[0]) {
        lemma_trimmed_clean(s.drop_first());
    } else if is_space(s[s.len() - 1]) {
        lemma_trimmed_clean(s.drop_last());
    }
}

/// A string without surrounding whitespace is left unchanged by trimming.
proof fn lemma_trimmed_of_clean(s: Seq<char>)
    requires
        s.len() > 0 ==> !is_space(s[0]),
        s.len() > 0 ==> !is_space(s[s.len() - 1]),
    ensures
        trimmed(s) == s,
{
}

/// Law: the version record round-trips. The sidecar write records the
/// version string verbatim (`record_plan`), and a read interprets the
/// sidecar's contents by trimming surrounding whitespace (`on_probe`); so
/// a version without surrounding whitespace is read back exactly, and any
/// read-back value is unchanged by a further round trip.
pub proof fn lemma_version_record_roundtrip(v: Seq<char>)
    requires
        v.len() > 0 ==> !is_space(v[0]),
        v.len() > 0 ==> !is_space(v[v.len() - 1]),
    ensures
        trimmed(v) == v,
        trimmed(trimmed(v)) == trimmed(v),
{
    lemma_trimmed_of_clean(v);
}

/// Law: trimming is idempotent: reading a recorded version back a second
/// time yields the same string.
pub proof fn lemma_trimmed_idempotent(s: Seq<char>)
    ensures
        trimmed(trimmed(s)) == trimmed(s),
{
    lemma_trimmed_clean(s);
    lemma_trimmed_of_clean(trimmed(s));
}

/// Law: updating is idempotent. After an invocation has installed the
/// resolved asset and recorded its version — so the sidecar holds the
/// version verbatim and the installed artifact's digest is the asset's —
/// a second, unforced invocation against the same release decides
/// "already up to date" at the probe (`on_probe`), before any download or
/// filesystem phase is reached: it performs no write.
pub proof fn lemma_update_idempotent(
    resolved: ResolvedAsset,
    sidecar: Seq<char>,
    installed_hex: Option<Seq<char>>,
)
    requires
        sidecar == resolved.version@,
        resolved.version@.len() > 0 ==> !is_space(resolved.version@[0]),
        resolved.version@.len() > 0 ==> !is_space(
            resolved.version@[resolved.version@.len() - 1],
        ),
        resolved.digest is Some ==> installed_hex is Some && installed_hex->0
            == resolved.digest->0@,
    ensures
        spec_up_to_date(resolved, true, Some(sidecar), installed_hex),
{
    lemma_trimmed_of_clean(sidecar);
}

/// Law: a truncated or padded stream never verifies: whenever the number
/// of received bytes differs from the declared length, the verdict is a
/// size mismatch, with or without a declared digest, and the flow then
/// fails without installing (`on_download_complete`).
pub proof fn lemma_no_verdict_on_short_stream(
    data: Seq<u8>,
    declared: nat,
    expected: Option<Seq<char>>,
)
    requires
        data.len() != declared,
    ensures
        spec_verdict(data, declared, expected) == VerifyOutcome::SizeMismatch,
{
}

/// Law: a full-length stream whose content digest differs from the
/// declared digest never verifies: the verdict is a digest mismatch, and
/// the flow then fails without installing (`on_download_complete`).
pub proof fn lemma_no_verdict_on_wrong_digest(data: Seq<u8>, declared: nat, expected: Seq<char>)
    requires
        data.len() == declared,
        hex_of(digest_of(data)) != expected,
    ensures
        spec_verdict(data, declared, Some(expected)) == VerifyOutcome::DigestMismatch,
{
}

/// Law: a failed download never touches the installed artifact. When an
/// artifact existed before the download, the download was written to the
/// staging path, which differs from the artifact's path; the cleanup the
/// flow asks for on a corruption failure names that staging path only.
pub proof fn lemma_failed_download_spares_artifact(f: UpdateFlow)
    ensures
        f.spec_dest_path(true) != f.spec_target_path(),
{
    reveal_strlit("new_");
    assert(f.spec_staging_path().len() == f.spec_target_path().len() + 4);
}

/// Law: a fresh install is direct. With no prior artifact there is nothing
/// to protect: the download goes straight to the target path — no staging
/// file is ever named — and the install step has no operation left to
/// perform (`install_ops` returns none).
pub proof fn lemma_fresh_install_direct(f: UpdateFlow)
    ensures
        f.spec_dest_path(false) == f.spec_target_path(),
{
}

/// Law: without a declared digest, verification downgrades to length
/// alone, observably: a full-length stream verifies with
/// `checksum_verified` false.
pub proof fn lemma_digestless_verification(data: Seq<u8>, declared: nat)
    requires
        data.len() == declared,
    ensures
        spec_verdict(data, declared, None) == (VerifyOutcome::Verified {
            checksum_verified: false,
        }),
{
}

/// Law: without a declared digest, the up-to-date decision consults the
/// recorded version alone: it does not depend on any digest of the
/// installed artifact.
pub proof fn lemma_digestless_up_to_date(
    resolved: ResolvedAsset,
    artifact_exists: bool,
    sidecar: Option<Seq<char>>,
    hex_a: Option<Seq<char>>,
    hex_b: Option<Seq<char>>,
)
    requires
        resolved.digest is None,
    ensures
        spec_up_to_date(resolved, artifact_exists, sidecar, hex_a) == spec_up_to_date(
            resolved,
            artifact_exists,
            sidecar,
            hex_b,
        ),
{
}

} // verus!
