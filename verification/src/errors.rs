//! The failure kinds that every part of the client reports.

use vstd::prelude::*;
use vstd::string::StringExecFns;
use crate::status::{status_display, StatusCode};

verus! {

/// Why an operation failed. Callers branch on the variant; the text a variant
/// carries is detail for a log line.
#[derive(Debug, Clone, PartialEq, Eq)]
pub enum SamplyBeamError {
    /// The address to bind to could not be parsed.
    BindAddr(String),
    /// The broker address is not usable.
    WrongBrokerUri(&'static str),
    /// A request did not pass validation.
    RequestValidationFailed(String),
    /// A path that no resource answers to.
    InvalidPath,
    /// A client id that is not well formed.
    InvalidClientIdString(String),
    /// Signing or encryption failed.
    SignEncryptError(String),
    /// The backend runs but is sealed.
    VaultSealed,
    /// The backend could not be reached; the text is the transport's report.
    VaultUnreachable(String),
    /// The backend has not been initialized.
    VaultNotInitialized,
    /// The backend asked to redirect, with this status, to this location.
    VaultRedirectError(StatusCode, String),
    /// Any other failure in talking to the backend.
    VaultOtherError(String),
    /// Configuration could not be read or is unusable.
    ConfigurationFailed(String),
    /// Internal synchronization failed.
    InternalSynchronizationError(String),
    /// An HTTP request could not be executed.
    HttpRequestError(String),
    /// An HTTP request could not be built.
    HttpRequestBuildError(String),
    /// The HTTP proxy setup is unusable.
    HttpProxyProblem(String),
    /// A beam id that is not well formed.
    InvalidBeamId(String),
    /// An HTTP response could not be read as text.
    HttpParseError(String),
    /// An X.509 certificate is not valid.
    CertificateError(&'static str),
    /// An HTTP request ran out of time.
    HttpTimeoutError(String),
}

/// The mathematical value of a [`SamplyBeamError`]: the same variants, with
/// texts as character sequences and the status as its number.
pub enum ErrorView {
    BindAddr(Seq<char>),
    WrongBrokerUri(Seq<char>),
    RequestValidationFailed(Seq<char>),
    InvalidPath,
    InvalidClientIdString(Seq<char>),
    SignEncryptError(Seq<char>),
    VaultSealed,
    VaultUnreachable(Seq<char>),
    VaultNotInitialized,
    VaultRedirectError(u16, Seq<char>),
    VaultOtherError(Seq<char>),
    ConfigurationFailed(Seq<char>),
    InternalSynchronizationError(Seq<char>),
    HttpRequestError(Seq<char>),
    HttpRequestBuildError(Seq<char>),
    HttpProxyProblem(Seq<char>),
    InvalidBeamId(Seq<char>),
    HttpParseError(Seq<char>),
    CertificateError(Seq<char>),
    HttpTimeoutError(Seq<char>),
}

impl View for SamplyBeamError {
    type V = ErrorView;

    open spec fn view(&self) -> ErrorView {
        match *self {
            SamplyBeamError::BindAddr(d) => ErrorView::BindAddr(d@),
            SamplyBeamError::WrongBrokerUri(d) => ErrorView::WrongBrokerUri(d@),
            SamplyBeamError::RequestValidationFailed(d) => ErrorView::RequestValidationFailed(d@),
            SamplyBeamError::InvalidPath => ErrorView::InvalidPath,
            SamplyBeamError::InvalidClientIdString(d) => ErrorView::InvalidClientIdString(d@),
            SamplyBeamError::SignEncryptError(d) => ErrorView::SignEncryptError(d@),
            SamplyBeamError::VaultSealed => ErrorView::VaultSealed,
            SamplyBeamError::VaultUnreachable(d) => ErrorView::VaultUnreachable(d@),
            SamplyBeamError::VaultNotInitialized => ErrorView::VaultNotInitialized,
            SamplyBeamError::VaultRedirectError(s, d) => ErrorView::VaultRedirectError(s@, d@),
            SamplyBeamError::VaultOtherError(d) => ErrorView::VaultOtherError(d@),
            SamplyBeamError::ConfigurationFailed(d) => ErrorView::ConfigurationFailed(d@),
            SamplyBeamError::InternalSynchronizationError(d) => {
                ErrorView::InternalSynchronizationError(d@)
            },
            SamplyBeamError::HttpRequestError(d) => ErrorView::HttpRequestError(d@),
            SamplyBeamError::HttpRequestBuildError(d) => ErrorView::HttpRequestBuildError(d@),
            SamplyBeamError::HttpProxyProblem(d) => ErrorView::HttpProxyProblem(d@),
            SamplyBeamError::InvalidBeamId(d) => ErrorView::InvalidBeamId(d@),
            SamplyBeamError::HttpParseError(d) => ErrorView::HttpParseError(d@),
            SamplyBeamError::CertificateError(d) => ErrorView::CertificateError(d@),
            SamplyBeamError::HttpTimeoutError(d) => ErrorView::HttpTimeoutError(d@),
        }
    }
}

/// The text that a failure is reported with.
pub open spec fn message_text(e: ErrorView) -> Seq<char> {
    match e {
        ErrorView::BindAddr(d) => "Invalid bind address supplied: "@ + d,
        ErrorView::WrongBrokerUri(d) => "Invalid broker address supplied: "@ + d,
        ErrorView::RequestValidationFailed(d) => "The request could not be validated: "@ + d
            + "."@,
        ErrorView::InvalidPath => "Invalid path supplied"@,
        ErrorView::InvalidClientIdString(d) => "Invalid Client ID: "@ + d,
        ErrorView::SignEncryptError(d) => "Signing / encryption failed: "@ + d,
        ErrorView::VaultSealed => "Samply.PKI error: Vault is still sealed."@,
        ErrorView::VaultUnreachable(d) => "Samply.PKI error: Unable to connect to Vault: "@ + d,
        ErrorView::VaultNotInitialized => "Samply.PKI error: Vault has not been initialized, yet."@,
        ErrorView::VaultRedirectError(code, location) => "Samply.PKI error: Vault has asked with code "@
            + status_display(code) + " to redirect to "@ + location + "; this should not happen."@,
        ErrorView::VaultOtherError(d) => "Samply.PKI error: "@ + d,
        ErrorView::ConfigurationFailed(d) => "Unable to read config: "@ + d
            + ". Please check your environment and parameters."@,
        ErrorView::InternalSynchronizationError(d) => "Internal synchronization error: "@ + d,
        ErrorView::HttpRequestError(d) => "Error executing HTTP request: "@ + d,
        ErrorView::HttpRequestBuildError(d) => "Error building HTTP request: "@ + d,
        ErrorView::HttpProxyProblem(d) => "Problem with HTTP proxy: "@ + d,
        ErrorView::InvalidBeamId(d) => "Invalid Beam ID: "@ + d,
        ErrorView::HttpParseError(d) => "Unable to parse HTTP response: "@ + d,
        ErrorView::CertificateError(d) => "X509 certificate invalid: "@ + d,
        ErrorView::HttpTimeoutError(d) => "Timeout executing HTTP request: "@ + d,
    }
}

/// `head` followed by `detail`.
fn with_detail(head: &str, detail: &str) -> (text: String)
    ensures
        text@ == head@ + detail@,
{
    let mut text = String::from_str(head);
    text.append(detail);
    text
}

impl SamplyBeamError {
    /// The text that this failure is reported with.
    pub fn message(&self) -> (text: String)
        ensures
            text@ == message_text(self@),
    {
        match self {
            SamplyBeamError::BindAddr(d) => with_detail("Invalid bind address supplied: ", d.as_str()),
            SamplyBeamError::WrongBrokerUri(d) => with_detail("Invalid broker address supplied: ", d),
            SamplyBeamError::RequestValidationFailed(d) => {
                let mut text = with_detail("The request could not be validated: ", d.as_str());
                text.append(".");
                text
            },
            SamplyBeamError::InvalidPath => String::from_str("Invalid path supplied"),
            SamplyBeamError::InvalidClientIdString(d) => with_detail("Invalid Client ID: ", d.as_str()),
            SamplyBeamError::SignEncryptError(d) => with_detail(
                "Signing / encryption failed: ",
                d.as_str(),
            ),
            SamplyBeamError::VaultSealed => String::from_str("Samply.PKI error: Vault is still sealed."),
            SamplyBeamError::VaultUnreachable(d) => with_detail(
                "Samply.PKI error: Unable to connect to Vault: ",
                d.as_str(),
            ),
            SamplyBeamError::VaultNotInitialized => String::from_str(
                "Samply.PKI error: Vault has not been initialized, yet.",
            ),
            SamplyBeamError::VaultRedirectError(status, location) => {
                let code = status.text();
                let mut text = with_detail(
                    "Samply.PKI error: Vault has asked with code ",
                    code.as_str(),
                );
                text.append(" to redirect to ");
                text.append(location.as_str());
                text.append("; this should not happen.");
                text
            },
            SamplyBeamError::VaultOtherError(d) => with_detail("Samply.PKI error: ", d.as_str()),
            SamplyBeamError::ConfigurationFailed(d) => {
                let mut text = with_detail("Unable to read config: ", d.as_str());
                text.append(". Please check your environment and parameters.");
                text
            },
            SamplyBeamError::InternalSynchronizationError(d) => with_detail(
                "Internal synchronization error: ",
                d.as_str(),
            ),
            SamplyBeamError::HttpRequestError(d) => with_detail(
                "Error executing HTTP request: ",
                d.as_str(),
            ),
            SamplyBeamError::HttpRequestBuildError(d) => with_detail(
                "Error building HTTP request: ",
                d.as_str(),
            ),
            SamplyBeamError::HttpProxyProblem(d) => with_detail("Problem with HTTP proxy: ", d.as_str()),
            SamplyBeamError::InvalidBeamId(d) => with_detail("Invalid Beam ID: ", d.as_str()),
            SamplyBeamError::HttpParseError(d) => with_detail(
                "Unable to parse HTTP response: ",
                d.as_str(),
            ),
            SamplyBeamError::CertificateError(d) => with_detail("X509 certificate invalid: ", d),
            SamplyBeamError::HttpTimeoutError(d) => with_detail(
                "Timeout executing HTTP request: ",
                d.as_str(),
            ),
        }
    }
}

} // verus!
