//! Error types of the update engine.
//!
//! Every failure of an update invocation is terminal and falls in one of
//! four kinds: a configuration error (a required builder field was never
//! supplied), a fetch failure (transport, status, header or asset
//! resolution), a corruption failure (the downloaded bytes do not match the
//! declared length or digest), or a filesystem error.

use vstd::prelude::*;
use vstd::string::*;

verus! {

/// An error of the update engine.
#[derive(Debug, Clone, PartialEq, Eq)]
pub enum GithubUpdaterError {
    /// An operation was asked of a builder on which `build` was never
    /// called.
    BuilderNotInitialized,
    /// `build` found a required field unset; the payload names the first
    /// missing field.
    BuilderMissingField(&'static str),
    /// A release or asset read failed: transport, status, a missing header,
    /// or no asset matching the pattern.
    FetchError(String),
    /// The downloaded bytes do not match the declared length or digest. The
    /// freshly downloaded file is removed before this error is returned.
    CorruptionError(String),
    /// A filesystem operation failed.
    IoError(String),
}

impl GithubUpdaterError {
    /// A readable description of the error.
    pub fn message(&self) -> (r: String)
        ensures
            match self {
                GithubUpdaterError::BuilderNotInitialized => r@ == "Builder not initialized"@,
                GithubUpdaterError::BuilderMissingField(f) => r@ == "Missing required field: "@
                    + f@,
                GithubUpdaterError::FetchError(m) => r@ == "Fetch error: "@ + m@,
                GithubUpdaterError::CorruptionError(m) => r@ == "Corruption error: "@ + m@,
                GithubUpdaterError::IoError(m) => r@ == "IO error: "@ + m@,
            },
    {
        match self {
            GithubUpdaterError::BuilderNotInitialized => String::from_str(
                "Builder not initialized",
            ),
            GithubUpdaterError::BuilderMissingField(f) => String::from_str(
                "Missing required field: ",
            ).concat(f),
            GithubUpdaterError::FetchError(m) => String::from_str("Fetch error: ").concat(
                m.as_str(),
            ),
            GithubUpdaterError::CorruptionError(m) => String::from_str(
                "Corruption error: ",
            ).concat(m.as_str()),
            GithubUpdaterError::IoError(m) => String::from_str("IO error: ").concat(m.as_str()),
        }
    }
}

/// A builder was finalized although a required element was never filled in;
/// the payload names the element.
#[derive(Debug, Clone, PartialEq, Eq)]
pub struct BuilderMissingElement(pub String);

impl BuilderMissingElement {
    /// A readable description of the error.
    pub fn message(&self) -> (r: String)
        ensures
            r@ == "You have not filled in all the required elements in the builder: "@ + self.0@,
    {
        String::from_str("You have not filled in all the required elements in the builder: ")
            .concat(self.0.as_str())
    }
}

/// An operation was asked of a builder on which `build` was never called.
#[derive(Debug, Clone, PartialEq, Eq)]
pub struct BuilderNotInitialized;

impl BuilderNotInitialized {
    /// A readable description of the error.
    pub fn message(&self) -> (r: String)
        ensures
            r@ == "You must call the build method on the builder to use it."@,
    {
        String::from_str("You must call the build method on the builder to use it.")
    }
}

/// A failure of an update run, carrying a readable description.
#[derive(Debug, Clone, PartialEq, Eq)]
pub struct UpdateError(pub String);

impl UpdateError {
    /// A readable description of the error.
    pub fn message(&self) -> (r: String)
        ensures
            r@ == self.0@,
    {
        self.0.clone()
    }

    /// The update error that stands for an uninitialized builder.
    pub fn from_not_initialized(_e: BuilderNotInitialized) -> (r: UpdateError)
        ensures
            r.0@ == "You must call the build method on the builder to use it."@,
    {
        UpdateError(String::from_str("You must call the build method on the builder to use it."))
    }
}

} // verus!
