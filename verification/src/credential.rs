//! Where the credential for the host comes from, and the headers that carry
//! it.

use vstd::prelude::*;
use vstd::string::*;
use crate::outcome::RunError;
use crate::model::{text_of, Notice, NoticeView};
use crate::text::{trim, trimmed};

verus! {

/// Where the secret is found.
#[derive(Debug, Clone, PartialEq, Eq)]
pub enum Credential {
    /// The secret itself.
    Secret(String),
    /// The path of a file whose trimmed contents are the secret.
    File(String),
}

/// What a [`Credential`] holds.
pub enum CredentialView {
    Secret(Seq<char>),
    File(Seq<char>),
}

impl View for Credential {
    type V = CredentialView;

    open spec fn view(&self) -> CredentialView {
        match self {
            Credential::Secret(secret) => CredentialView::Secret(secret@),
            Credential::File(path) => CredentialView::File(path@),
        }
    }
}

/// The credential that the two optional arguments give. Exactly one of
/// them must be there: a key gives the secret, trimmed, and a path names the
/// file to read. With none, or with both, there is no credential.
pub open spec fn credential_of(api_key: Option<Seq<char>>, key_path: Option<Seq<char>>) -> Result<
    CredentialView,
    RunError,
> {
    match (api_key, key_path) {
        (Some(key), None) => Ok(CredentialView::Secret(trimmed(key))),
        (None, Some(path)) => Ok(CredentialView::File(path)),
        _ => Err(RunError::Config),
    }
}

/// Finds out where the secret comes from.
pub fn credential_source(api_key: &Option<String>, key_path: &Option<String>) -> (r: Result<
    Credential,
    RunError,
>)
    ensures
        match r {
            Ok(credential) => credential_of(text_of(*api_key), text_of(*key_path)) == Ok::<
                CredentialView,
                RunError,
            >(credential@),
            Err(error) => credential_of(text_of(*api_key), text_of(*key_path)) == Err::<
                CredentialView,
                RunError,
            >(error),
        },
{
    match (api_key, key_path) {
        (Some(key), None) => Ok(Credential::Secret(trim(key.as_str()).to_owned())),
        (None, Some(path)) => Ok(Credential::File(path.clone())),
        _ => Err(RunError::Config),
    }
}

/// The secret that the contents of a key file hold: the contents without
/// the white space at both ends.
pub fn secret_from_file(contents: &str) -> (secret: String)
    ensures
        secret@ == trimmed(contents@),
{
    trim(contents).to_owned()
}

/// The value of the authorization header for a secret.
pub open spec fn bearer_of(secret: Seq<char>) -> Seq<char> {
    "Bearer "@ + secret
}

/// The value of the accept header, which names the version of the host API.
pub open spec fn accept_text() -> Seq<char> {
    "application/vnd.github.v3+json"@
}

/// Writes the value of the authorization header for a secret.
pub fn authorization_value(secret: &str) -> (value: String)
    ensures
        value@ == bearer_of(secret@),
{
    let mut value = "Bearer ".to_owned();
    value.append(secret);
    value
}

/// Writes the value of the accept header.
pub fn accept_value() -> (value: String)
    ensures
        value@ == accept_text(),
{
    "application/vnd.github.v3+json".to_owned()
}

/// What is said where there is no credential.
pub open spec fn missing_credential_text() -> Seq<char> {
    "either api key (-a) or api key file path (-k) is required"@
}

/// Writes the notice of a run without a credential. It goes to the error
/// stream.
pub fn missing_credential_notice() -> (notice: Notice)
    ensures
        notice@ == (NoticeView { text: missing_credential_text(), to_error_stream: true }),
{
    Notice {
        text: "either api key (-a) or api key file path (-k) is required".to_owned(),
        to_error_stream: true,
    }
}

} // verus!
