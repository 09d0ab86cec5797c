//! Error taxonomy shared by every fallible operation.

use vstd::prelude::*;
use vstd::string::StringExecFns;

verus! {

/// The kind of a failure. Every kind is recoverable for the caller.
#[derive(Clone, Copy, Debug, PartialEq, Eq, Structural)]
pub enum ErrorKind {
    /// The admin trust anchor is missing or malformed.
    Config,
    /// A passphrase did not open an encrypted key blob.
    Credential,
    /// A protocol step came out of order: no pending challenge, or a
    /// consent request that does not match the pending one.
    Protocol,
    /// A signature was malformed or did not verify, or a key was not a
    /// valid verifying key.
    Auth,
    /// Persistent storage failed or holds inconsistent data.
    Storage,
    /// An input was not valid base64 or had the wrong length for a key.
    Format,
    /// No identity is registered under the given name.
    NotFound,
}

/// A failure: its kind and a human-readable detail.
#[derive(Debug)]
pub struct TrustError {
    pub kind: ErrorKind,
    pub detail: String,
}

/// Mathematical value of a `TrustError`.
pub struct TrustErrorView {
    pub kind: ErrorKind,
    pub detail: Seq<char>,
}

impl View for TrustError {
    type V = TrustErrorView;

    open spec fn view(&self) -> TrustErrorView {
        TrustErrorView { kind: self.kind, detail: self.detail@ }
    }
}

impl Clone for TrustError {
    fn clone(&self) -> (copy: Self)
        ensures
            copy@ == self@,
    {
        TrustError { kind: self.kind, detail: self.detail.clone() }
    }
}

impl TrustError {
    /// Builds an error of the given kind with the given detail.
    pub fn new(kind: ErrorKind, detail: &str) -> (e: TrustError)
        ensures
            e@ == (TrustErrorView { kind, detail: detail@ }),
    {
        TrustError { kind, detail: detail.to_owned() }
    }

    /// The name of the error's kind, as shown to people.
    pub fn kind_name(&self) -> (name: &'static str)
        ensures
            name@ == kind_label(self.kind),
    {
        match self.kind {
            ErrorKind::Config => "ConfigError",
            ErrorKind::Credential => "CredentialError",
            ErrorKind::Protocol => "ProtocolError",
            ErrorKind::Auth => "AuthError",
            ErrorKind::Storage => "StorageError",
            ErrorKind::Format => "FormatError",
            ErrorKind::NotFound => "NotFoundError",
        }
    }

    /// The error as one line of text: the kind's name, a colon and a
    /// space, then the detail.
    pub fn message(&self) -> (text: String)
        ensures
            text@ == kind_label(self.kind) + ": "@ + self.detail@,
    {
        let mut text = self.kind_name().to_owned();
        text.append(": ");
        text.append(self.detail.as_str());
        text
    }
}

/// The name under which a kind of error is reported.
pub open spec fn kind_label(kind: ErrorKind) -> Seq<char> {
    match kind {
        ErrorKind::Config => "ConfigError"@,
        ErrorKind::Credential => "CredentialError"@,
        ErrorKind::Protocol => "ProtocolError"@,
        ErrorKind::Auth => "AuthError"@,
        ErrorKind::Storage => "StorageError"@,
        ErrorKind::Format => "FormatError"@,
        ErrorKind::NotFound => "NotFoundError"@,
    }
}

/// The value of a result: its payload as it is, its error by its view.
pub open spec fn outcome_of<T>(result: Result<T, TrustError>) -> Result<T, TrustErrorView> {
    match result {
        Ok(value) => Ok(value),
        Err(e) => Err(e@),
    }
}

/// The value of a result that carries text.
pub open spec fn text_outcome_of(result: Result<String, TrustError>) -> Result<
    Seq<char>,
    TrustErrorView,
> {
    match result {
        Ok(text) => Ok(text@),
        Err(e) => Err(e@),
    }
}

} // verus!
