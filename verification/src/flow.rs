//! The update flow: one invocation of the engine as a state machine.
//!
//! Every decision of the pipeline lives here, verified; the embedding
//! application only performs the network and filesystem actions the flow
//! asks for and reports their results back. The phases run strictly in
//! order — resolve, probe, download, verify, install, record — so an
//! install can only be asked for after the verifier returned a clean
//! verdict, and the version record only after the install.
//!
//! On any verification failure the flow asks for the removal of the freshly
//! downloaded file and nothing else: the previously installed artifact and
//! its sidecar are never touched by a failed invocation.

use vstd::prelude::*;
use vstd::string::*;
use crate::digest::{spec_verdict, StreamVerifier, VerifyOutcome};
use crate::errors::GithubUpdaterError;
use crate::release::{
    resolve_release,
    resolved_from,
    some_asset_matches,
    spec_match_string,
    ReleaseInfo,
    ResolvedAsset,
};
use crate::text::{contains_str, trim_spaces, trimmed};
use crate::updater::{
    spec_file_name,
    spec_join,
    spec_preserved_name,
    spec_release_endpoint,
    spec_staging_name,
    spec_version_file_name,
    staging_file_name,
    preserved_file_name,
    version_file_name,
    join_path,
    GithubUpdater,
    UpdateOutcome,
};

verus! {

/// The view of an optional string.
pub open spec fn opt_view(o: Option<String>) -> Option<Seq<char>> {
    match o {
        Some(s) => Some(s@),
        None => None,
    }
}

/// One filesystem operation the application must perform for the flow.
#[derive(Debug)]
pub enum FsOp {
    /// Remove the file at `path`.
    Remove {
        /// The path of the file to remove.
        path: String,
    },
    /// Rename the file at `from` onto `to`, replacing nothing else.
    Rename {
        /// The path the file currently has.
        from: String,
        /// The path the file must end up at.
        to: String,
    },
}

/// What the flow has found out before the download: whether an artifact is
/// already installed, and which version the sidecar recorded.
#[derive(Debug)]
pub struct PriorState {
    /// Whether a file existed at the target path.
    pub artifact_exists: bool,
    /// The recorded version, trimmed, when the sidecar existed.
    pub recorded_version: Option<String>,
}

/// The phase an update invocation is in, carrying what later phases need.
#[derive(Debug)]
pub enum Phase {
    /// The release metadata must be fetched.
    FetchRelease,
    /// The installed artifact, its digest and the sidecar must be probed.
    ProbeInstalled {
        /// The asset chosen for download.
        resolved: ResolvedAsset,
    },
    /// The asset must be downloaded to the destination path, its bytes fed
    /// to a [`StreamVerifier`].
    Download {
        /// The asset chosen for download.
        resolved: ResolvedAsset,
        /// What was installed before this invocation.
        prior: PriorState,
    },
    /// The verified download must be moved in place.
    Install {
        /// The asset chosen for download.
        resolved: ResolvedAsset,
        /// What was installed before this invocation.
        prior: PriorState,
        /// Whether the download was verified against a digest, or by
        /// length alone.
        checksum_verified: bool,
    },
    /// The new version must be recorded in the sidecar.
    Record {
        /// The asset chosen for download.
        resolved: ResolvedAsset,
        /// What was installed before this invocation.
        prior: PriorState,
        /// Whether the download was verified against a digest.
        checksum_verified: bool,
    },
    /// The invocation ended with an outcome.
    Finished {
        /// The outcome to hand to the caller.
        outcome: UpdateOutcome,
    },
    /// The invocation failed; nothing further may be asked of it.
    Failed {
        /// The error to hand to the caller.
        error: GithubUpdaterError,
    },
}

/// A request the application must send: the URL and the headers.
#[derive(Debug)]
pub struct RequestPlan {
    /// The URL to read.
    pub url: String,
    /// The `Accept` header value.
    pub accept: String,
    /// The `User-Agent` header value.
    pub user_agent: String,
    /// The `Authorization` header value, when a token is configured.
    pub authorization: Option<String>,
}

/// The installed artifact already matches the resolved asset: it exists,
/// the recorded version (trimmed) equals the release version, and, when
/// the asset declares a digest, the installed artifact's digest equals it.
/// Without a declared digest the version alone governs.
pub open spec fn spec_up_to_date(
    resolved: ResolvedAsset,
    artifact_exists: bool,
    sidecar: Option<Seq<char>>,
    installed_hex: Option<Seq<char>>,
) -> bool {
    &&& artifact_exists
    &&& sidecar is Some
    &&& trimmed(sidecar->0) == resolved.version@
    &&& (resolved.digest is Some ==> installed_hex is Some && installed_hex->0
        == resolved.digest->0@)
}

/// One update invocation. The application drives it: each `on_*` call
/// reports the result of the action the current phase asked for and moves
/// the flow to the next phase.
#[derive(Debug)]
pub struct UpdateFlow {
    /// The validated configuration the invocation runs under.
    pub config: GithubUpdater,
    /// Whether this invocation installs unconditionally.
    pub forced: bool,
    /// Where the invocation stands.
    pub phase: Phase,
}

impl UpdateFlow {
    /// The flow runs under a validated configuration.
    pub open spec fn wf(self) -> bool {
        self.config.valid()
    }

    /// The artifact's file name under this configuration.
    pub open spec fn spec_file(self) -> Seq<char> {
        spec_file_name(self.config.app_name->0@, opt_view(self.config.file_extension))
    }

    /// The full path of the installed artifact.
    pub open spec fn spec_target_path(self) -> Seq<char> {
        spec_join(self.config.download_path->0@, self.spec_file())
    }

    /// The full path of the staging file.
    pub open spec fn spec_staging_path(self) -> Seq<char> {
        spec_join(self.config.download_path->0@, spec_staging_name(self.spec_file()))
    }

    /// The full path a preserved previous artifact is kept at.
    pub open spec fn spec_preserved_path(self) -> Seq<char> {
        spec_join(self.config.download_path->0@, spec_preserved_name(self.spec_file()))
    }

    /// The full path of the version sidecar.
    pub open spec fn spec_sidecar_path(self) -> Seq<char> {
        spec_join(self.config.download_path->0@, spec_version_file_name(self.config.app_name->0@))
    }

    /// The path the download is written to: the staging path when an
    /// artifact already exists, else directly the target path.
    pub open spec fn spec_dest_path(self, artifact_exists: bool) -> Seq<char> {
        if artifact_exists {
            self.spec_staging_path()
        } else {
            self.spec_target_path()
        }
    }

    /// Starts an invocation. Succeeds exactly on a configuration that
    /// `build` has validated.
    pub fn start(config: GithubUpdater, forced: bool) -> (r: Result<UpdateFlow, GithubUpdaterError>)
        ensures
            r is Ok <==> config.valid(),
            r is Ok ==> ({
                let f = r->Ok_0;
                &&& f.config == config
                &&& f.forced == forced
                &&& f.phase matches Phase::FetchRelease
            }),
            r is Err ==> r->Err_0 matches GithubUpdaterError::BuilderNotInitialized,
    {
        if !config.built {
            return Err(GithubUpdaterError::BuilderNotInitialized);
        }
        let pattern_ok = match &config.pattern {
            Some(p) => !contains_str(p.as_str(), "rust_target") || config.rust_target.is_some(),
            None => false,
        };
        let complete = config.reqwest_client.is_some() && config.app_name.is_some() && pattern_ok
            && config.repository_infos.is_some() && config.download_path.is_some();
        if !complete {
            return Err(GithubUpdaterError::BuilderNotInitialized);
        }
        Ok(UpdateFlow { config, forced, phase: Phase::FetchRelease })
    }

    /// The read of the latest release's metadata.
    pub fn release_request(&self) -> (r: RequestPlan)
        requires
            self.wf(),
            self.phase matches Phase::FetchRelease,
        ensures
            r.url@ == spec_release_endpoint(
                (self.config.repository_infos->0).0@,
                (self.config.repository_infos->0).1@,
            ),
            r.accept@ == "application/vnd.github+json"@,
            r.user_agent@ == "GitHub-Updater"@,
            match self.config.github_token {
                Some(t) => r.authorization is Some && r.authorization->0@ == "Bearer "@ + t@,
                None => r.authorization is None,
            },
    {
        RequestPlan {
            url: self.config.release_endpoint(),
            accept: String::from_str("application/vnd.github+json"),
            user_agent: String::from_str("GitHub-Updater"),
            authorization: self.config.authorization_value(),
        }
    }

    /// Records a failure: any error of an action the flow asked for ends
    /// the invocation with that error.
    pub fn fail(self, error: GithubUpdaterError) -> (r: UpdateFlow)
        ensures
            r.config == self.config,
            r.forced == self.forced,
            (r.phase matches Phase::Failed { error: e } && e == error),
    {
        UpdateFlow { phase: Phase::Failed { error }, ..self }
    }

    /// Takes the fetched release metadata and resolves the asset: moves to
    /// the probe phase with the first matching asset, or fails when no
    /// asset name contains the match string.
    pub fn on_release(self, release: &ReleaseInfo) -> (r: UpdateFlow)
        requires
            self.wf(),
            self.phase matches Phase::FetchRelease,
        ensures
            r.config == self.config,
            r.forced == self.forced,
            ({
                let ms = spec_match_string(
                    self.config.pattern->0@,
                    release.version@,
                    self.config.app_name->0@,
                    opt_view(self.config.rust_target),
                );
                if some_asset_matches(release.assets@, ms) {
                    r.phase matches Phase::ProbeInstalled { resolved } && resolved_from(
                        resolved,
                        *release,
                        ms,
                    )
                } else {
                    r.phase matches Phase::Failed { error } && (
                    error matches GithubUpdaterError::FetchError(m) && m@
                        == "No URL matching the pattern entered was found."@)
                }
            }),
    {
        let resolved = {
            let pattern: &str = match &self.config.pattern {
                Some(p) => p.as_str(),
                None => "",
            };
            let app_name: &str = match &self.config.app_name {
                Some(a) => a.as_str(),
                None => "",
            };
            resolve_release(release, pattern, app_name, self.config.rust_target.as_ref())
        };
        match resolved {
            Ok(resolved) => UpdateFlow { phase: Phase::ProbeInstalled { resolved }, ..self },
            Err(error) => UpdateFlow { phase: Phase::Failed { error }, ..self },
        }
    }

    /// Takes what the probe of the installed artifact found: ends the
    /// invocation as already up to date when nothing changed and the
    /// invocation is not forced, else moves to the download phase.
    ///
    /// `sidecar_raw` is the sidecar file's contents as read, untrimmed;
    /// `installed_hex` is the digest of the installed artifact's bytes in
    /// lower-case hex, when an artifact exists and the asset declares a
    /// digest to compare against.
    pub fn on_probe(
        self,
        artifact_exists: bool,
        sidecar_raw: Option<&String>,
        installed_hex: Option<&String>,
    ) -> (r: UpdateFlow)
        requires
            self.wf(),
            self.phase matches Phase::ProbeInstalled { .. },
        ensures
            r.config == self.config,
            r.forced == self.forced,
            ({
                let resolved = self.phase->ProbeInstalled_resolved;
                let up_to_date = spec_up_to_date(
                    resolved,
                    artifact_exists,
                    match sidecar_raw {
                        Some(s) => Some(s@),
                        None => None,
                    },
                    match installed_hex {
                        Some(h) => Some(h@),
                        None => None,
                    },
                );
                if !self.forced && up_to_date {
                    r.phase matches Phase::Finished { outcome } && (
                    outcome matches UpdateOutcome::AlreadyUpToDate { version } && version@
                        == resolved.version@)
                } else {
                    r.phase matches Phase::Download { resolved: res, prior } && res == resolved
                        && prior.artifact_exists == artifact_exists && opt_view(
                        prior.recorded_version,
                    ) == (match sidecar_raw {
                        Some(s) => Some(trimmed(s@)),
                        None => None::<Seq<char>>,
                    })
                }
            }),
    {
        let resolved = match self.phase {
            Phase::ProbeInstalled { resolved } => resolved,
            _ => ResolvedAsset { version: String::new(), download_url: String::new(), digest: None },
        };
        let recorded_version: Option<String> = match sidecar_raw {
            Some(s) => Some(trim_spaces(s.as_str())),
            None => None,
        };
        let version_matches = match &recorded_version {
            Some(v) => v.eq(&resolved.version),
            None => false,
        };
        let digest_matches = match &resolved.digest {
            Some(d) => match installed_hex {
                Some(h) => h.eq(d),
                None => false,
            },
            None => true,
        };
        if !self.forced && artifact_exists && version_matches && digest_matches {
            let version = resolved.version;
            UpdateFlow {
                phase: Phase::Finished { outcome: UpdateOutcome::AlreadyUpToDate { version } },
                config: self.config,
                forced: self.forced,
            }
        } else {
            UpdateFlow {
                phase: Phase::Download {
                    resolved,
                    prior: PriorState { artifact_exists, recorded_version },
                },
                config: self.config,
                forced: self.forced,
            }
        }
    }

    /// The read of the asset's content.
    pub fn download_request(&self) -> (r: RequestPlan)
        requires
            self.wf(),
            self.phase matches Phase::Download { .. },
        ensures
            r.url@ == self.phase->Download_resolved.download_url@,
            r.accept@ == "application/octet-stream"@,
            r.user_agent@ == "GitHub-Updater"@,
            match self.config.github_token {
                Some(t) => r.authorization is Some && r.authorization->0@ == "Bearer "@ + t@,
                None => r.authorization is None,
            },
    {
        let url = match &self.phase {
            Phase::Download { resolved, .. } => resolved.download_url.clone(),
            _ => String::new(),
        };
        RequestPlan {
            url,
            accept: String::from_str("application/octet-stream"),
            user_agent: String::from_str("GitHub-Updater"),
            authorization: self.config.authorization_value(),
        }
    }

    /// The full path of the installed artifact.
    pub fn target_path(&self) -> (r: String)
        requires
            self.wf(),
        ensures
            r@ == self.spec_target_path(),
    {
        let app_name: &str = match &self.config.app_name {
            Some(a) => a.as_str(),
            None => "",
        };
        let dir: &str = match &self.config.download_path {
            Some(d) => d.as_str(),
            None => "",
        };
        let file_name = self.config.generate_file_name(app_name);
        join_path(dir, file_name.as_str())
    }

    /// The full path of the version sidecar.
    pub fn sidecar_path(&self) -> (r: String)
        requires
            self.wf(),
        ensures
            r@ == self.spec_sidecar_path(),
    {
        let app_name: &str = match &self.config.app_name {
            Some(a) => a.as_str(),
            None => "",
        };
        let dir: &str = match &self.config.download_path {
            Some(d) => d.as_str(),
            None => "",
        };
        let name = version_file_name(app_name);
        join_path(dir, name.as_str())
    }

    /// The path the download must be written to: the staging path when an
    /// artifact already exists, so a failed download never touches it, else
    /// directly the target path.
    pub fn download_dest(&self) -> (r: String)
        requires
            self.wf(),
            self.phase matches Phase::Download { .. },
        ensures
            r@ == self.spec_dest_path(self.phase->Download_prior.artifact_exists),
    {
        let artifact_exists = match &self.phase {
            Phase::Download { prior, .. } => prior.artifact_exists,
            _ => false,
        };
        let app_name: &str = match &self.config.app_name {
            Some(a) => a.as_str(),
            None => "",
        };
        let dir: &str = match &self.config.download_path {
            Some(d) => d.as_str(),
            None => "",
        };
        let file_name = self.config.generate_file_name(app_name);
        if artifact_exists {
            let staging = staging_file_name(file_name.as_str());
            join_path(dir, staging.as_str())
        } else {
            join_path(dir, file_name.as_str())
        }
    }

    /// Takes the completed download stream and decides: on a clean verdict
    /// the flow moves to the install phase; on a size or digest mismatch it
    /// fails with a corruption error and asks, through the returned path,
    /// for the removal of the freshly downloaded file — and of nothing
    /// else.
    pub fn on_download_complete(self, verifier: StreamVerifier, declared_len: u64) -> (r: (
        UpdateFlow,
        Option<String>,
    ))
        requires
            self.wf(),
            self.phase matches Phase::Download { .. },
            verifier.wf(),
        ensures
            r.0.config == self.config,
            r.0.forced == self.forced,
            ({
                let resolved = self.phase->Download_resolved;
                let prior = self.phase->Download_prior;
                let verdict = spec_verdict(
                    verifier.fed(),
                    declared_len as nat,
                    opt_view(resolved.digest),
                );
                match verdict {
                    VerifyOutcome::Verified { checksum_verified } => {
                        &&& (r.0.phase matches Phase::Install {
                            resolved: res,
                            prior: pr,
                            checksum_verified: cv,
                        } && res == resolved && pr == prior && cv == checksum_verified)
                        &&& r.1 is None
                    },
                    VerifyOutcome::SizeMismatch => {
                        &&& (r.0.phase matches Phase::Failed { error } && (
                        error matches GithubUpdaterError::CorruptionError(m) && m@
                            == "File corrupted: Incorrect file size detected."@))
                        &&& r.1 is Some
                        &&& r.1->0@ == self.spec_dest_path(prior.artifact_exists)
                    },
                    VerifyOutcome::DigestMismatch => {
                        &&& (r.0.phase matches Phase::Failed { error } && (
                        error matches GithubUpdaterError::CorruptionError(m) && m@
                            == "File corrupted: Checksum does not match."@))
                        &&& r.1 is Some
                        &&& r.1->0@ == self.spec_dest_path(prior.artifact_exists)
                    },
                }
            }),
    {
        let dest = self.download_dest();
        let (resolved, prior) = match self.phase {
            Phase::Download { resolved, prior } => (resolved, prior),
            _ => (
                ResolvedAsset { version: String::new(), download_url: String::new(), digest: None },
                PriorState { artifact_exists: false, recorded_version: None },
            ),
        };
        let verdict = verifier.finish(declared_len, resolved.digest.as_ref());
        match verdict {
            VerifyOutcome::Verified { checksum_verified } => (
                UpdateFlow {
                    phase: Phase::Install { resolved, prior, checksum_verified },
                    config: self.config,
                    forced: self.forced,
                },
                None,
            ),
            VerifyOutcome::SizeMismatch => (
                UpdateFlow {
                    phase: Phase::Failed {
                        error: GithubUpdaterError::CorruptionError(
                            String::from_str("File corrupted: Incorrect file size detected."),
                        ),
                    },
                    config: self.config,
                    forced: self.forced,
                },
                Some(dest),
            ),
            VerifyOutcome::DigestMismatch => (
                UpdateFlow {
                    phase: Phase::Failed {
                        error: GithubUpdaterError::CorruptionError(
                            String::from_str("File corrupted: Checksum does not match."),
                        ),
                    },
                    config: self.config,
                    forced: self.forced,
                },
                Some(dest),
            ),
        }
    }

    /// The filesystem operations that install the verified download. When
    /// the download went to the staging path, the previous artifact is
    /// deleted — or preserved under a distinct name when configured so —
    /// and the staging file is renamed onto the target path. When the
    /// download went directly to the target, nothing is left to do.
    pub fn install_ops(&self) -> (r: Vec<FsOp>)
        requires
            self.wf(),
            self.phase matches Phase::Install { .. },
        ensures
            ({
                let prior = self.phase->Install_prior;
                if !prior.artifact_exists {
                    r@.len() == 0
                } else if self.config.erase_previous_file {
                    &&& r@.len() == 2
                    &&& (r@[0] matches FsOp::Remove { path } && path@ == self.spec_target_path())
                    &&& (r@[1] matches FsOp::Rename { from, to } && from@
                        == self.spec_staging_path() && to@ == self.spec_target_path())
                } else {
                    &&& r@.len() == 2
                    &&& (r@[0] matches FsOp::Rename { from, to } && from@
                        == self.spec_target_path() && to@ == self.spec_preserved_path())
                    &&& (r@[1] matches FsOp::Rename { from, to } && from@
                        == self.spec_staging_path() && to@ == self.spec_target_path())
                }
            }),
    {
        let artifact_exists = match &self.phase {
            Phase::Install { prior, .. } => prior.artifact_exists,
            _ => false,
        };
        let mut ops: Vec<FsOp> = Vec::new();
        if !artifact_exists {
            return ops;
        }
        let app_name: &str = match &self.config.app_name {
            Some(a) => a.as_str(),
            None => "",
        };
        let dir: &str = match &self.config.download_path {
            Some(d) => d.as_str(),
            None => "",
        };
        let file_name = self.config.generate_file_name(app_name);
        let target = join_path(dir, file_name.as_str());
        let staging_name = staging_file_name(file_name.as_str());
        let staging = join_path(dir, staging_name.as_str());
        if self.config.erase_previous_file {
            ops.push(FsOp::Remove { path: target });
            let target_again = self.target_path();
            ops.push(FsOp::Rename { from: staging, to: target_again });
        } else {
            let preserved_name = preserved_file_name(file_name.as_str());
            let preserved = join_path(dir, preserved_name.as_str());
            ops.push(FsOp::Rename { from: target, to: preserved });
            let target_again = self.target_path();
            ops.push(FsOp::Rename { from: staging, to: target_again });
        }
        ops
    }

    /// Takes the completed install: the flow moves on to recording the
    /// version.
    pub fn on_installed(self) -> (r: UpdateFlow)
        requires
            self.phase matches Phase::Install { .. },
        ensures
            r.config == self.config,
            r.forced == self.forced,
            (r.phase matches Phase::Record { resolved, prior, checksum_verified }
                && resolved == self.phase->Install_resolved && prior == self.phase->Install_prior
                && checksum_verified == self.phase->Install_checksum_verified),
    {
        match self.phase {
            Phase::Install { resolved, prior, checksum_verified } => UpdateFlow {
                phase: Phase::Record { resolved, prior, checksum_verified },
                config: self.config,
                forced: self.forced,
            },
            _ => self,
        }
    }

    /// What to write where: the sidecar path and the version string, which
    /// is recorded verbatim, as a whole-file overwrite, only now that the
    /// install has committed.
    pub fn record_plan(&self) -> (r: (String, String))
        requires
            self.wf(),
            self.phase matches Phase::Record { .. },
        ensures
            r.0@ == self.spec_sidecar_path(),
            r.1@ == self.phase->Record_resolved.version@,
    {
        let version = match &self.phase {
            Phase::Record { resolved, .. } => resolved.version.clone(),
            _ => String::new(),
        };
        (self.sidecar_path(), version)
    }

    /// Takes the completed sidecar write: the invocation is done, and the
    /// outcome carries the recorded prior version, the new version, and how
    /// the download was verified.
    pub fn on_recorded(self) -> (r: UpdateFlow)
        requires
            self.phase matches Phase::Record { .. },
        ensures
            r.config == self.config,
            r.forced == self.forced,
            (r.phase matches Phase::Finished { outcome } && (
            outcome matches UpdateOutcome::Updated { from, to, forced, checksum_verified }
                && opt_view(from) == opt_view(self.phase->Record_prior.recorded_version) && to@
                == self.phase->Record_resolved.version@ && forced == self.forced
                && checksum_verified == self.phase->Record_checksum_verified)),
    {
        match self.phase {
            Phase::Record { resolved, prior, checksum_verified } => UpdateFlow {
                phase: Phase::Finished {
                    outcome: UpdateOutcome::Updated {
                        from: prior.recorded_version,
                        to: resolved.version,
                        forced: self.forced,
                        checksum_verified,
                    },
                },
                config: self.config,
                forced: self.forced,
            },
            _ => self,
        }
    }

    /// The invocation's result, once it is finished or failed.
    pub fn into_result(self) -> (r: Result<UpdateOutcome, GithubUpdaterError>)
        requires
            self.phase matches Phase::Finished { .. } || self.phase matches Phase::Failed { .. },
        ensures
            (self.phase matches Phase::Finished { outcome } ==> r == Ok::<
                UpdateOutcome,
                GithubUpdaterError,
            >(outcome)),
            (self.phase matches Phase::Failed { error } ==> r == Err::<
                UpdateOutcome,
                GithubUpdaterError,
            >(error)),
    {
        match self.phase {
            Phase::Finished { outcome } => Ok(outcome),
            Phase::Failed { error } => Err(error),
            _ => Err(GithubUpdaterError::BuilderNotInitialized),
        }
    }
}

} // verus!
