//! The health probe: what one answer of the backend's health endpoint says
//! about the backend.

use vstd::pervasive::unreached;
use vstd::prelude::*;
use vstd::string::StringExecFns;
use crate::errors::{ErrorView, SamplyBeamError};
use crate::status::{is_redirection_code, is_success_code, StatusCode};
use crate::text::{ascii_text, decimal_string, decimal_text, lemma_ascii_is_utf8, string_from_utf8};

verus! {

/// The diagnosis that one health probe gives.
#[derive(Debug, Clone, PartialEq, Eq)]
pub enum HealthState {
    /// The backend answered with a success status.
    Healthy,
    /// The backend runs but is sealed.
    Sealed,
    /// The backend has not been initialized.
    NotInitialized,
    /// The backend asked to redirect.
    Redirected { status: StatusCode, location: String },
    /// No answer came: the transport failed.
    Unreachable,
    /// Any other answer.
    OtherError { detail: String },
}

/// The mathematical value of a [`HealthState`].
pub enum HealthView {
    Healthy,
    Sealed,
    NotInitialized,
    Redirected { status: u16, location: Seq<char> },
    Unreachable,
    OtherError { detail: Seq<char> },
}

impl View for HealthState {
    type V = HealthView;

    open spec fn view(&self) -> HealthView {
        match *self {
            HealthState::Healthy => HealthView::Healthy,
            HealthState::Sealed => HealthView::Sealed,
            HealthState::NotInitialized => HealthView::NotInitialized,
            HealthState::Redirected { status, location } => HealthView::Redirected {
                status: status@,
                location: location@,
            },
            HealthState::Unreachable => HealthView::Unreachable,
            HealthState::OtherError { detail } => HealthView::OtherError { detail: detail@ },
        }
    }
}

/// What came back from the health endpoint.
#[derive(Debug, Clone, PartialEq, Eq)]
pub enum ProbeReply {
    /// The request failed in transport: no response, but the transport's
    /// report of the failure.
    Unreachable { report: String },
    /// A response, with its status and the raw bytes of its `Location`
    /// header, if it has one.
    Response { status: StatusCode, location: Option<Vec<u8>> },
}

/// The mathematical value of a [`ProbeReply`].
pub enum ProbeReplyView {
    Unreachable { report: Seq<char> },
    Response { status: u16, location: Option<Seq<u8>> },
}

impl View for ProbeReply {
    type V = ProbeReplyView;

    open spec fn view(&self) -> ProbeReplyView {
        match *self {
            ProbeReply::Unreachable { report } => ProbeReplyView::Unreachable { report: report@ },
            ProbeReply::Response { status, location } => ProbeReplyView::Response {
                status: status@,
                location: match location {
                    Some(bytes) => Some(bytes@),
                    None => None,
                },
            },
        }
    }
}

/// A byte that may stand in a header value read as text: printable ASCII or
/// a tab.
pub open spec fn is_visible_ascii(b: u8) -> bool {
    32 <= b < 127 || b == 9
}

/// A header value as text, where every byte of it is visible ASCII.
pub open spec fn header_text(bytes: Seq<u8>) -> Option<Seq<char>> {
    if forall|i: int| 0 <= i < bytes.len() ==> is_visible_ascii(#[trigger] bytes[i]) {
        Some(ascii_text(bytes))
    } else {
        None
    }
}

/// The location that a redirect is reported with: the header's text, or a
/// note that the header is missing or cannot be read as text.
pub open spec fn location_text(location: Option<Seq<u8>>) -> Seq<char> {
    match location {
        None => "(no Location header present)"@,
        Some(bytes) => match header_text(bytes) {
            Some(text) => text,
            None => "(garbled Location header)"@,
        },
    }
}

/// The diagnosis for a reply, by the family of its status code.
pub open spec fn health_of(reply: ProbeReplyView) -> HealthView {
    match reply {
        ProbeReplyView::Unreachable { .. } => HealthView::Unreachable,
        ProbeReplyView::Response { status, location } => {
            if is_success_code(status) {
                HealthView::Healthy
            } else if is_redirection_code(status) {
                HealthView::Redirected { status, location: location_text(location) }
            } else if status == 501 {
                HealthView::NotInitialized
            } else if status == 503 {
                HealthView::Sealed
            } else {
                HealthView::OtherError {
                    detail: "healthcheck returned statuscode "@ + decimal_text(status as nat),
                }
            }
        },
    }
}

/// The reply of a health probe as success or failure: a healthy backend is
/// no failure, and every other diagnosis is the failure of its kind. An
/// unreachable backend is reported with the transport's report.
pub open spec fn health_result_of(reply: ProbeReplyView) -> Result<(), ErrorView> {
    match health_of(reply) {
        HealthView::Healthy => Ok(()),
        HealthView::Sealed => Err(ErrorView::VaultSealed),
        HealthView::NotInitialized => Err(ErrorView::VaultNotInitialized),
        HealthView::Redirected { status, location } => Err(
            ErrorView::VaultRedirectError(status, location),
        ),
        HealthView::Unreachable => Err(ErrorView::VaultUnreachable(reply->report)),
        HealthView::OtherError { detail } => Err(ErrorView::VaultOtherError(detail)),
    }
}

/// The status decides the diagnosis: 501 is not initialized and 503 is
/// sealed, whatever else the response holds, and every redirection is
/// reported with its status and, where the `Location` header is visible
/// ASCII, with exactly the header's text.
pub proof fn lemma_health_by_status(status: u16, location: Option<Seq<u8>>)
    ensures
        status == 501 ==> health_of(ProbeReplyView::Response { status, location })
            == HealthView::NotInitialized,
        status == 503 ==> health_of(ProbeReplyView::Response { status, location })
            == HealthView::Sealed,
        is_success_code(status) ==> health_of(ProbeReplyView::Response { status, location })
            == HealthView::Healthy,
        is_redirection_code(status) ==> (location matches Some(bytes) && header_text(bytes)
            is Some ==> health_of(ProbeReplyView::Response { status, location })
            == HealthView::Redirected { status, location: ascii_text(location->0) }),
        is_redirection_code(status) ==> health_of(ProbeReplyView::Response { status, location })
            is Redirected,
{
}

/// Reads a header value as text. `None` where a byte of it is not visible
/// ASCII.
pub fn decode_header(bytes: &Vec<u8>) -> (r: Option<String>)
    ensures
        match r {
            Some(text) => header_text(bytes@) == Some(text@),
            None => header_text(bytes@) is None,
        },
{
    let mut i: usize = 0;
    while i < bytes.len()
        invariant
            i <= bytes.len(),
            forall|j: int| 0 <= j < i ==> is_visible_ascii(#[trigger] bytes@[j]),
        decreases bytes.len() - i,
    {
        let b = bytes[i];
        if !((32 <= b && b < 127) || b == 9) {
            assert(!is_visible_ascii(bytes@[i as int]));
            return None;
        }
        i += 1;
    }
    proof {
        assert forall|j: int| 0 <= j < bytes@.len() implies bytes@[j] < 128 by {
            assert(is_visible_ascii(bytes@[j]));
        }
        lemma_ascii_is_utf8(bytes@);
    }
    match string_from_utf8(bytes.as_slice()) {
        Ok(text) => Some(text),
        Err(_) => None,
    }
}

/// The location to report for a redirect.
pub fn redirect_location(location: &Option<Vec<u8>>) -> (text: String)
    ensures
        text@ == location_text(
            match *location {
                Some(bytes) => Some(bytes@),
                None => None,
            },
        ),
{
    match location {
        None => String::from_str("(no Location header present)"),
        Some(bytes) => match decode_header(bytes) {
            Some(text) => text,
            None => String::from_str("(garbled Location header)"),
        },
    }
}

/// Classifies the reply of one health probe: a success status is healthy, a
/// redirection is reported with its location, 501 means not initialized, 503
/// means sealed, any other status is an error that names it, and no
/// response at all means unreachable.
pub fn check_vault_health(reply: &ProbeReply) -> (health: HealthState)
    ensures
        health@ == health_of(reply@),
{
    match reply {
        ProbeReply::Unreachable { .. } => HealthState::Unreachable,
        ProbeReply::Response { status, location } => {
            if status.is_success() {
                HealthState::Healthy
            } else if status.is_redirection() {
                HealthState::Redirected { status: *status, location: redirect_location(location) }
            } else if status.as_u16() == 501 {
                HealthState::NotInitialized
            } else if status.as_u16() == 503 {
                HealthState::Sealed
            } else {
                let mut detail = String::from_str("healthcheck returned statuscode ");
                let code = decimal_string(status.as_u16() as u64);
                detail.append(code.as_str());
                HealthState::OtherError { detail }
            }
        },
    }
}

/// Reads the reply of one health probe as success or failure: `Ok` for a
/// healthy backend, and for every other diagnosis the failure of its kind.
pub fn health_check_result(reply: &ProbeReply) -> (r: Result<(), SamplyBeamError>)
    ensures
        match r {
            Ok(_) => health_result_of(reply@) is Ok,
            Err(e) => health_result_of(reply@) == Err::<(), ErrorView>(e@),
        },
{
    match check_vault_health(reply) {
        HealthState::Healthy => Ok(()),
        HealthState::Sealed => Err(SamplyBeamError::VaultSealed),
        HealthState::NotInitialized => Err(SamplyBeamError::VaultNotInitialized),
        HealthState::Redirected { status, location } => Err(
            SamplyBeamError::VaultRedirectError(status, location),
        ),
        HealthState::Unreachable => match reply {
            ProbeReply::Unreachable { report } => Err(
                SamplyBeamError::VaultUnreachable(report.clone()),
            ),
            ProbeReply::Response { .. } => unreached(),
        },
        HealthState::OtherError { detail } => Err(SamplyBeamError::VaultOtherError(detail)),
    }
}

} // verus!
