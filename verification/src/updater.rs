//! The updater configuration and its builder, and the small derived values
//! the pipeline needs: file names, paths, request headers and outcome
//! records.
//!
//! The builder collects connection parameters through optional setters; a
//! single validating `build` call checks all required fields and reports the
//! first missing one. Every later step of the pipeline requires a built
//! configuration.

use vstd::prelude::*;
use vstd::string::*;
use crate::errors::GithubUpdaterError;
use crate::text::{all_digits, contains_seq, contains_str, dec_str, dec_val, parse_u64, u64_to_dec};

verus! {

#[verifier::external_type_specification]
#[verifier::external_body]
pub struct ExClient(reqwest::Client);

/// The configuration of the update engine: where releases live, how the
/// asset is named, and where the artifact is installed.
#[derive(Debug, Clone)]
pub struct GithubUpdater {
    /// The HTTP client used for both reads.
    pub reqwest_client: Option<reqwest::Client>,
    /// Whether `build` has validated this configuration.
    pub built: bool,
    /// The release file name pattern, with `{app_name}`, `{app_version}`
    /// and `{rust_target}` placeholders.
    pub pattern: Option<String>,
    /// The application name; also the installed artifact's base name.
    pub app_name: Option<String>,
    /// A token for the `Authorization` header, when the repository needs
    /// one.
    pub github_token: Option<String>,
    /// The target triple substituted for `{rust_target}`.
    pub rust_target: Option<String>,
    /// The repository's owner and name.
    pub repository_infos: Option<(String, String)>,
    /// The directory the artifact is installed in.
    pub download_path: Option<String>,
    /// An extension appended to the artifact's file name.
    pub file_extension: Option<String>,
    /// Whether the previous artifact is deleted on install; when false it
    /// is preserved under a distinct name instead.
    pub erase_previous_file: bool,
}

/// Relies on `reqwest::ClientBuilder::build` (with `default_headers` set so
/// every request carries `Accept-Encoding: identity`): returns a fresh
/// client, or nothing when the client cannot be initialized.
#[verifier::external_body]
fn make_default_client() -> (r: Option<reqwest::Client>) {
    let mut headers = reqwest::header::HeaderMap::new();
    headers.insert(
        reqwest::header::ACCEPT_ENCODING,
        reqwest::header::HeaderValue::from_static("identity"),
    );
    reqwest::Client::builder().default_headers(headers).build().ok()
}

impl GithubUpdater {
    /// Whether the pattern mentions the target triple placeholder, in which
    /// case a target triple must be configured.
    pub open spec fn references_rust_target(self) -> bool {
        self.pattern is Some && contains_seq(self.pattern->0@, "rust_target"@)
    }

    /// All required fields are present.
    pub open spec fn complete(self) -> bool {
        &&& self.reqwest_client is Some
        &&& self.app_name is Some
        &&& self.pattern is Some
        &&& (self.references_rust_target() ==> self.rust_target is Some)
        &&& self.repository_infos is Some
        &&& self.download_path is Some
    }

    /// The name of the first missing required field, in the order `build`
    /// checks them. Meaningful only when the configuration is incomplete.
    pub open spec fn first_missing(self) -> Seq<char> {
        if self.reqwest_client is None {
            "reqwest_client"@
        } else if self.app_name is None {
            "app_name"@
        } else if self.pattern is None {
            "pattern"@
        } else if self.references_rust_target() && self.rust_target is None {
            "rust_target"@
        } else if self.repository_infos is None {
            "repository_infos"@
        } else {
            "download_path"@
        }
    }

    /// A configuration validated by `build`: marked built only with every
    /// required field present.
    pub open spec fn valid(self) -> bool {
        self.built && self.complete()
    }

    /// A fresh builder: nothing configured, previous files erased on
    /// install.
    pub fn builder() -> (r: Self)
        ensures
            r.reqwest_client is None,
            r.built == false,
            r.pattern is None,
            r.app_name is None,
            r.github_token is None,
            r.rust_target is None,
            r.repository_infos is None,
            r.download_path is None,
            r.file_extension is None,
            r.erase_previous_file == true,
    {
        GithubUpdater {
            reqwest_client: None,
            built: false,
            pattern: None,
            app_name: None,
            github_token: None,
            rust_target: None,
            repository_infos: None,
            download_path: None,
            file_extension: None,
            erase_previous_file: true,
        }
    }

    /// Sets an already initialized HTTP client.
    pub fn with_reqwest_client(self, reqwest_client: reqwest::Client) -> (r: Self)
        ensures
            r == (Self { reqwest_client: Some(reqwest_client), ..self }),
    {
        Self { reqwest_client: Some(reqwest_client), ..self }
    }

    /// Sets a freshly initialized HTTP client; leaves the client unset when
    /// one cannot be initialized, which `build` then reports.
    pub fn with_initialized_reqwest_client(self) -> (r: Self)
        ensures
            r == (Self { reqwest_client: r.reqwest_client, ..self }),
    {
        Self { reqwest_client: make_default_client(), ..self }
    }

    /// Sets the release file name pattern.
    pub fn with_release_file_name_pattern(self, pattern: &str) -> (r: Self)
        ensures
            r == (Self { pattern: Some(r.pattern->0), ..self }),
            r.pattern is Some && r.pattern->0@ == pattern@,
    {
        Self { pattern: Some(pattern.to_owned()), ..self }
    }

    /// Sets the application name.
    pub fn with_app_name(self, app_name: &str) -> (r: Self)
        ensures
            r == (Self { app_name: Some(r.app_name->0), ..self }),
            r.app_name is Some && r.app_name->0@ == app_name@,
    {
        Self { app_name: Some(app_name.to_owned()), ..self }
    }

    /// Sets the token used to authenticate against the release feed.
    pub fn with_github_token(self, github_token: &str) -> (r: Self)
        ensures
            r == (Self { github_token: Some(r.github_token->0), ..self }),
            r.github_token is Some && r.github_token->0@ == github_token@,
    {
        Self { github_token: Some(github_token.to_owned()), ..self }
    }

    /// Sets the target triple substituted for `{rust_target}`.
    pub fn with_rust_target(self, rust_target: &str) -> (r: Self)
        ensures
            r == (Self { rust_target: Some(r.rust_target->0), ..self }),
            r.rust_target is Some && r.rust_target->0@ == rust_target@,
    {
        Self { rust_target: Some(rust_target.to_owned()), ..self }
    }

    /// Sets the repository's owner and name.
    pub fn with_repository_infos(self, repository_owner: &str, repository_name: &str) -> (r: Self)
        ensures
            r == (Self { repository_infos: Some(r.repository_infos->0), ..self }),
            r.repository_infos is Some,
            (r.repository_infos->0).0@ == repository_owner@,
            (r.repository_infos->0).1@ == repository_name@,
    {
        Self {
            repository_infos: Some((repository_owner.to_owned(), repository_name.to_owned())),
            ..self
        }
    }

    /// Sets the directory the artifact is installed in.
    pub fn with_download_path(self, path: &str) -> (r: Self)
        ensures
            r == (Self { download_path: Some(r.download_path->0), ..self }),
            r.download_path is Some && r.download_path->0@ == path@,
    {
        Self { download_path: Some(path.to_owned()), ..self }
    }

    /// Sets the extension of the installed file.
    pub fn with_file_extension(self, extension: &str) -> (r: Self)
        ensures
            r == (Self { file_extension: Some(r.file_extension->0), ..self }),
            r.file_extension is Some && r.file_extension->0@ == extension@,
    {
        Self { file_extension: Some(extension.to_owned()), ..self }
    }

    /// Keeps the previous artifact on disk under a distinct name instead of
    /// deleting it on install.
    pub fn without_erase_previous_file(self) -> (r: Self)
        ensures
            r == (Self { erase_previous_file: false, ..self }),
    {
        Self { erase_previous_file: false, ..self }
    }

    /// Validates the configuration: succeeds, marking it built, exactly
    /// when every required field is present; otherwise reports the first
    /// missing field.
    pub fn build(self) -> (r: Result<Self, GithubUpdaterError>)
        ensures
            r is Ok <==> self.complete(),
            r is Ok ==> r->Ok_0 == (Self { built: true, ..self }),
            r is Err ==> (r->Err_0 matches GithubUpdaterError::BuilderMissingField(f) && f@
                == self.first_missing()),
    {
        if self.reqwest_client.is_none() {
            return Err(GithubUpdaterError::BuilderMissingField("reqwest_client"));
        }
        if self.app_name.is_none() {
            return Err(GithubUpdaterError::BuilderMissingField("app_name"));
        }
        match &self.pattern {
            None => {
                return Err(GithubUpdaterError::BuilderMissingField("pattern"));
            },
            Some(pattern) => {
                if contains_str(pattern.as_str(), "rust_target") && self.rust_target.is_none() {
                    return Err(GithubUpdaterError::BuilderMissingField("rust_target"));
                }
            },
        }
        if self.repository_infos.is_none() {
            return Err(GithubUpdaterError::BuilderMissingField("repository_infos"));
        }
        if self.download_path.is_none() {
            return Err(GithubUpdaterError::BuilderMissingField("download_path"));
        }
        Ok(Self { built: true, ..self })
    }
}

/// The artifact's file name: the application name, with the configured
/// extension appended after a dot.
pub open spec fn spec_file_name(app_name: Seq<char>, extension: Option<Seq<char>>) -> Seq<char> {
    match extension {
        Some(e) => app_name + "."@ + e,
        None => app_name,
    }
}

/// The staging file's name: the artifact's name with a `new_` prefix.
pub open spec fn spec_staging_name(file_name: Seq<char>) -> Seq<char> {
    "new_"@ + file_name
}

/// The name under which a preserved previous artifact is kept: the
/// artifact's name with an `old_` prefix.
pub open spec fn spec_preserved_name(file_name: Seq<char>) -> Seq<char> {
    "old_"@ + file_name
}

/// The version sidecar's file name, derived from the application name.
pub open spec fn spec_version_file_name(app_name: Seq<char>) -> Seq<char> {
    "binary-version-"@ + app_name + ".txt"@
}

/// `dir` and `name` joined with a single `/`.
pub open spec fn spec_join(dir: Seq<char>, name: Seq<char>) -> Seq<char> {
    if dir.len() > 0 && dir[dir.len() - 1] == '/' {
        dir + name
    } else {
        dir + "/"@ + name
    }
}

/// The release feed's "latest release" endpoint for a repository.
pub open spec fn spec_release_endpoint(owner: Seq<char>, name: Seq<char>) -> Seq<char> {
    "https://api.github.com/repos/"@ + owner + "/"@ + name + "/releases/latest"@
}

impl GithubUpdater {
    /// The artifact's file name for the given application name.
    pub fn generate_file_name(&self, app_name: &str) -> (r: String)
        ensures
            r@ == spec_file_name(
                app_name@,
                match self.file_extension {
                    Some(e) => Some(e@),
                    None => None,
                },
            ),
    {
        match &self.file_extension {
            Some(ext) => String::from_str(app_name).concat(".").concat(ext.as_str()),
            None => app_name.to_owned(),
        }
    }

    /// The `Authorization` header value, when a token is configured.
    pub fn authorization_value(&self) -> (r: Option<String>)
        ensures
            match self.github_token {
                Some(t) => r is Some && r->0@ == "Bearer "@ + t@,
                None => r is None,
            },
    {
        match &self.github_token {
            Some(token) => Some(String::from_str("Bearer ").concat(token.as_str())),
            None => None,
        }
    }

    /// The URL the latest release's metadata is read from.
    pub fn release_endpoint(&self) -> (r: String)
        requires
            self.repository_infos is Some,
        ensures
            r@ == spec_release_endpoint(
                (self.repository_infos->0).0@,
                (self.repository_infos->0).1@,
            ),
    {
        match &self.repository_infos {
            Some(infos) => String::from_str("https://api.github.com/repos/").concat(
                infos.0.as_str(),
            ).concat("/").concat(infos.1.as_str()).concat("/releases/latest"),
            None => String::new(),
        }
    }
}

/// The staging file's name: the artifact's name with a `new_` prefix.
pub fn staging_file_name(file_name: &str) -> (r: String)
    ensures
        r@ == spec_staging_name(file_name@),
{
    String::from_str("new_").concat(file_name)
}

/// The name under which a preserved previous artifact is kept.
pub fn preserved_file_name(file_name: &str) -> (r: String)
    ensures
        r@ == spec_preserved_name(file_name@),
{
    String::from_str("old_").concat(file_name)
}

/// The version sidecar's file name for an application.
pub fn version_file_name(app_name: &str) -> (r: String)
    ensures
        r@ == spec_version_file_name(app_name@),
{
    String::from_str("binary-version-").concat(app_name).concat(".txt")
}

/// Joins a directory and a file name with a single `/`.
pub fn join_path(dir: &str, name: &str) -> (r: String)
    ensures
        r@ == spec_join(dir@, name@),
{
    let n = dir.unicode_len();
    if n > 0 && dir.get_char(n - 1) == '/' {
        String::from_str(dir).concat(name)
    } else {
        String::from_str(dir).concat("/").concat(name)
    }
}

/// Whether an HTTP status speaks of success.
pub open spec fn spec_status_ok(status: u16) -> bool {
    200 <= status < 300
}

/// The fetch error for a response status, or nothing for a success status.
pub fn fetch_status_error(status: u16) -> (r: Option<GithubUpdaterError>)
    ensures
        r is None <==> spec_status_ok(status),
        r is Some ==> (r->0 matches GithubUpdaterError::FetchError(m) && m@
            == "An error occurred while downloading the file, HTTP code: "@ + dec_str(
            status as nat,
        )),
{
    if 200 <= status && status < 300 {
        None
    } else {
        Some(
            GithubUpdaterError::FetchError(
                String::from_str("An error occurred while downloading the file, HTTP code: ")
                    .concat(u64_to_dec(status as u64).as_str()),
            ),
        )
    }
}

/// The fetch error for a response without a `content-length` header, which
/// the engine refuses to download.
pub fn missing_content_length_error() -> (r: GithubUpdaterError)
    ensures
        r matches GithubUpdaterError::FetchError(m) && m@
            == "The content-length header is absent."@,
{
    GithubUpdaterError::FetchError(String::from_str("The content-length header is absent."))
}

/// Interprets the `content-length` header of the asset response. The
/// engine refuses to download a stream of unknown or unreadable size:
/// an absent or non-numeric header is a fetch failure.
pub fn content_length_from_header(header: Option<&String>) -> (r: Result<u64, GithubUpdaterError>)
    ensures
        ({
            match header {
                None => (r matches Err(e) && (e matches GithubUpdaterError::FetchError(m) && m@
                    == "The content-length header is absent."@)),
                Some(h) => {
                    if all_digits(h@) && dec_val(h@) <= u64::MAX {
                        r matches Ok(v) && v == dec_val(h@)
                    } else {
                        (r matches Err(e) && (e matches GithubUpdaterError::FetchError(m) && m@
                            == "The content-length header could not be parsed."@))
                    }
                },
            }
        }),
{
    match header {
        None => Err(missing_content_length_error()),
        Some(h) => match parse_u64(h.as_str()) {
            Some(v) => Ok(v),
            None => Err(
                GithubUpdaterError::FetchError(
                    String::from_str("The content-length header could not be parsed."),
                ),
            ),
        },
    }
}

/// Download information returned to the caller.
#[derive(Debug, Clone)]
pub struct DownloadInfos {
    /// The previously installed version; absent when no record existed.
    pub previous_version: Option<String>,
    /// The newly resolved version.
    pub new_version: String,
    /// Whether an update has been downloaded and installed.
    pub has_been_updated: bool,
    /// Whether the update was forced rather than decided by comparison.
    pub forced_update: bool,
}

impl Default for DownloadInfos {
    /// No previous version, an empty new version, nothing updated.
    fn default() -> (r: Self)
        ensures
            r.previous_version is None,
            r.new_version@ == Seq::<char>::empty(),
            r.has_been_updated == false,
            r.forced_update == false,
    {
        DownloadInfos {
            previous_version: None,
            new_version: String::new(),
            has_been_updated: false,
            forced_update: false,
        }
    }
}

/// The outcome of one update invocation: exactly one of the two variants.
#[derive(Debug, Clone)]
pub enum UpdateOutcome {
    /// A new artifact was downloaded, verified, installed and recorded.
    Updated {
        /// The version recorded before this invocation, if any.
        from: Option<String>,
        /// The version installed by this invocation.
        to: String,
        /// Whether the update was forced rather than decided by comparison.
        forced: bool,
        /// Whether a digest comparison took place, or the download was
        /// verified by length alone.
        checksum_verified: bool,
    },
    /// The installed artifact already matches the latest release; nothing
    /// was touched.
    AlreadyUpToDate {
        /// The version that is installed and current.
        version: String,
    },
}

impl UpdateOutcome {
    /// This outcome as the caller-facing download information record.
    pub fn to_download_infos(&self) -> (r: DownloadInfos)
        ensures
            match self {
                UpdateOutcome::Updated { from, to, forced, checksum_verified } => {
                    &&& r.previous_version == from
                    &&& r.new_version == to
                    &&& r.has_been_updated == true
                    &&& r.forced_update == forced
                },
                UpdateOutcome::AlreadyUpToDate { version } => {
                    &&& r.previous_version == Some(*version)
                    &&& r.new_version == version
                    &&& r.has_been_updated == false
                    &&& r.forced_update == false
                },
            },
    {
        match self {
            UpdateOutcome::Updated { from, to, forced, checksum_verified: _ } => DownloadInfos {
                previous_version: match from {
                    Some(v) => Some(v.clone()),
                    None => None,
                },
                new_version: to.clone(),
                has_been_updated: true,
                forced_update: *forced,
            },
            UpdateOutcome::AlreadyUpToDate { version } => DownloadInfos {
                previous_version: Some(version.clone()),
                new_version: version.clone(),
                has_been_updated: false,
                forced_update: false,
            },
        }
    }
}

} // verus!
