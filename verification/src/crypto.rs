//! The certificate gateway: the requests that fetch certificates from the
//! backend's PKI, and what their answers hold.

use vstd::prelude::*;
use vstd::string::StringExecFns;
use vstd::utf8::{decode_utf8, decode_utf8_encode_utf8, encode_utf8, valid_utf8};
use crate::errors::{ErrorView, SamplyBeamError};
use crate::http_proxy::{build_client, is_build_failure, is_built_transport, SamplyHttpClient};
use crate::json::{json_document, member_of, parse_json, strings_of, texts_of, Json, JsonValue};
use crate::retry::{initial_state, RetryMachine};
use crate::text::{string_from_utf8, utf8_error_text};

verus! {

/// The seconds that one request to the backend may take in all.
pub const PKI_REQUEST_TIMEOUT_SECONDS: u64 = 30;

/// The seconds that connecting to the backend may take.
pub const PKI_CONNECT_TIMEOUT_SECONDS: u64 = 20;

/// What the gateway is configured with. It holds the token and so has no
/// `Debug`: the token is never printed.
#[derive(Clone, PartialEq, Eq)]
pub struct PkiConfig {
    /// The scheme of the backend's address, such as `https`.
    pub pki_scheme: String,
    /// The authority of the backend's address: host and port.
    pub pki_authority: String,
    /// The token that authenticates every request.
    pub pki_token: String,
    /// The realm under which all certificate paths lie.
    pub pki_realm: String,
    /// What the client calls itself.
    pub user_agent: String,
}

/// The mathematical value of a [`PkiConfig`].
pub struct PkiConfigView {
    pub pki_scheme: Seq<char>,
    pub pki_authority: Seq<char>,
    pub pki_token: Seq<char>,
    pub pki_realm: Seq<char>,
    pub user_agent: Seq<char>,
}

impl View for PkiConfig {
    type V = PkiConfigView;

    open spec fn view(&self) -> PkiConfigView {
        PkiConfigView {
            pki_scheme: self.pki_scheme@,
            pki_authority: self.pki_authority@,
            pki_token: self.pki_token@,
            pki_realm: self.pki_realm@,
            user_agent: self.user_agent@,
        }
    }
}

/// The request methods that the backend is asked with.
#[derive(Debug, Clone, Copy, PartialEq, Eq, Structural)]
pub enum VaultMethod {
    Get,
    List,
}

impl VaultMethod {
    /// The method's name on the wire.
    pub open spec fn name(self) -> Seq<char> {
        match self {
            VaultMethod::Get => "GET"@,
            VaultMethod::List => "LIST"@,
        }
    }

    /// The method's name on the wire.
    pub fn as_str(&self) -> (name: &'static str)
        ensures
            name@ == self.name(),
    {
        match self {
            VaultMethod::Get => "GET",
            VaultMethod::List => "LIST",
        }
    }
}

/// One request to the backend. Its body is empty. It holds the token and
/// so has no `Debug`.
#[derive(Clone, PartialEq, Eq)]
pub struct VaultRequest {
    pub method: VaultMethod,
    pub url: String,
    /// The headers, each a name and a value, in the order in which they
    /// are set.
    pub headers: Vec<(String, String)>,
}

/// The mathematical value of a [`VaultRequest`].
pub struct VaultRequestView {
    pub method: VaultMethod,
    pub url: Seq<char>,
    pub headers: Seq<(Seq<char>, Seq<char>)>,
}

impl View for VaultRequest {
    type V = VaultRequestView;

    open spec fn view(&self) -> VaultRequestView {
        VaultRequestView {
            method: self.method,
            url: self.url@,
            headers: Seq::new(
                self.headers@.len(),
                |i: int| (self.headers@[i].0@, self.headers@[i].1@),
            ),
        }
    }
}

/// What the URI builder of `http` makes of a scheme, an authority and a
/// path with query: the URI that it builds, as `Display` prints it, or the
/// text of its error where it refuses a part.
pub uninterp spec fn uri_text(
    scheme: Seq<char>,
    authority: Seq<char>,
    path_and_query: Seq<char>,
) -> Result<Seq<char>, Seq<char>>;

/// Builds a URI with `http::Uri::builder`, its `scheme`, `authority`,
/// `path_and_query` and `build`, and prints it with `Display`. A part that
/// the builder refuses comes back as the text of its error. The contract
/// names what comes back.
#[verifier::external_body]
fn build_uri(scheme: &str, authority: &str, path_and_query: &str) -> (r: Result<String, String>)
    ensures
        match r {
            Ok(text) => uri_text(scheme@, authority@, path_and_query@) == Ok::<
                Seq<char>,
                Seq<char>,
            >(text@),
            Err(report) => uri_text(scheme@, authority@, path_and_query@) == Err::<
                Seq<char>,
                Seq<char>,
            >(report@),
        },
{
    let built = http::Uri::builder()
        .scheme(scheme)
        .authority(authority)
        .path_and_query(path_and_query)
        .build();
    match built {
        Ok(uri) => Ok(uri.to_string()),
        Err(e) => Err(e.to_string()),
    }
}

/// The path of `location` at the backend: `/v1/` and the location.
pub open spec fn pki_path(location: Seq<char>) -> Seq<char> {
    "/v1/"@ + location
}

/// The URL of `location` at the backend: the URI of the base address with
/// the path of the location, or the failure to build it.
pub open spec fn pki_url(scheme: Seq<char>, authority: Seq<char>, location: Seq<char>) -> Result<
    Seq<char>,
    ErrorView,
> {
    match uri_text(scheme, authority, pki_path(location)) {
        Ok(text) => Ok(text),
        Err(report) => Err(ErrorView::HttpRequestBuildError(report)),
    }
}

/// The request to `url` with `method`: the token header first, then the
/// header that names the client.
pub open spec fn request_to(config: PkiConfigView, method: VaultMethod, url: Seq<char>)
    -> VaultRequestView {
    VaultRequestView {
        method,
        url,
        headers: seq![
            ("X-Vault-Token"@, config.pki_token),
            ("User-Agent"@, config.user_agent),
        ],
    }
}

/// The request for `location` with `method`, or the failure to build its
/// URL.
pub open spec fn request_for(config: PkiConfigView, method: VaultMethod, location: Seq<char>)
    -> Result<VaultRequestView, ErrorView> {
    match pki_url(config.pki_scheme, config.pki_authority, location) {
        Ok(url) => Ok(request_to(config, method, url)),
        Err(e) => Err(e),
    }
}

/// Whether `r` is the request, or the failure, that `expected` describes.
pub open spec fn is_request_result(r: Result<VaultRequest, SamplyBeamError>, expected: Result<
    VaultRequestView,
    ErrorView,
>) -> bool {
    match r {
        Ok(request) => expected == Ok::<VaultRequestView, ErrorView>(request@),
        Err(e) => expected == Err::<VaultRequestView, ErrorView>(e@),
    }
}

/// Whether `r` is the request that `expected` describes with a machine
/// that has begun no attempt and has the limit `max_tries`, or the failure
/// that `expected` describes.
pub open spec fn is_plan_result(
    r: Result<(VaultRequest, RetryMachine), SamplyBeamError>,
    expected: Result<VaultRequestView, ErrorView>,
    max_tries: Option<u32>,
) -> bool {
    match r {
        Ok(plan) => expected == Ok::<VaultRequestView, ErrorView>(plan.0@) && plan.1@
            == initial_state(max_tries),
        Err(e) => expected == Err::<VaultRequestView, ErrorView>(e@),
    }
}

/// Where the backend reports its health.
pub open spec fn health_path() -> Seq<char> {
    "sys/health"@
}

/// Where the certificates of `realm` are listed.
pub open spec fn list_path(realm: Seq<char>) -> Seq<char> {
    realm + "/certs"@
}

/// Where the certificate with `serial` is had in PEM.
pub open spec fn certificate_path(realm: Seq<char>, serial: Seq<char>) -> Seq<char> {
    realm + "/cert/"@ + serial + "/raw/pem"@
}

/// Where the intermediate CA certificate of `realm` is had in PEM.
pub open spec fn ca_path(realm: Seq<char>) -> Seq<char> {
    realm + "/ca/pem"@
}

/// The serials that a list response holds: the strings of the array `keys`
/// in the object `data` of the document. Other members are not looked at.
pub open spec fn listed_serials(document: JsonValue) -> Option<Seq<Seq<char>>> {
    match document {
        JsonValue::Object(top) => match member_of(top, "data"@) {
            Some(JsonValue::Object(data)) => match member_of(data, "keys"@) {
                Some(JsonValue::Array(items)) => strings_of(items),
                _ => None,
            },
            _ => None,
        },
        _ => None,
    }
}

/// The failure for a body that could not be read from the response.
pub open spec fn retrieve_failure(what: Seq<char>, report: Seq<char>) -> ErrorView {
    ErrorView::VaultOtherError("Cannot retrieve "@ + what + ": "@ + report)
}

/// The failure for a list response that is not the JSON expected.
pub open spec fn deserialize_failure(report: Seq<char>) -> ErrorView {
    ErrorView::VaultOtherError("Cannot deserialize vault certificate list: "@ + report)
}

/// The failure for a certificate that is not text.
pub open spec fn parse_failure(what: Seq<char>, report: Seq<char>) -> ErrorView {
    ErrorView::VaultOtherError("Cannot parse "@ + what + ": "@ + report)
}

/// The report for a document that lacks the list of serials.
pub open spec fn missing_keys_text() -> Seq<char> {
    "no list of strings at `data.keys`"@
}

/// What a parsed list response comes to.
pub open spec fn serials_of_document(document: JsonValue) -> Result<Seq<Seq<char>>, ErrorView> {
    match listed_serials(document) {
        Some(serials) => Ok(serials),
        None => Err(deserialize_failure(missing_keys_text())),
    }
}

/// What the answer to a list request comes to: the serials in order, or the
/// failure to read the body, to parse it as JSON or to find the list in it.
pub open spec fn certificate_list_of(body: Result<Seq<u8>, Seq<char>>) -> Result<
    Seq<Seq<char>>,
    ErrorView,
> {
    match body {
        Err(report) => Err(retrieve_failure("vault certificate list"@, report)),
        Ok(bytes) => match json_document(bytes) {
            Err(report) => Err(deserialize_failure(report)),
            Ok(document) => serials_of_document(document),
        },
    }
}

/// What the answer to a certificate request comes to: the body as text,
/// unchanged, or the failure to read it or to take it for UTF-8.
pub open spec fn pem_of(what: Seq<char>, body: Result<Seq<u8>, Seq<char>>) -> Result<
    Seq<char>,
    ErrorView,
> {
    match body {
        Err(report) => Err(retrieve_failure(what, report)),
        Ok(bytes) => if valid_utf8(bytes) {
            Ok(decode_utf8(bytes))
        } else {
            Err(parse_failure(what, utf8_error_text(bytes)))
        },
    }
}

/// A certificate that is valid UTF-8 comes back unchanged: the text that
/// is returned encodes to exactly the bytes of the body. A body that is
/// not valid UTF-8 is refused.
pub proof fn lemma_pem_unchanged(what: Seq<char>, bytes: Seq<u8>)
    ensures
        valid_utf8(bytes) ==> pem_of(what, Ok(bytes)) is Ok && encode_utf8(
            pem_of(what, Ok(bytes))->Ok_0,
        ) == bytes,
        !valid_utf8(bytes) ==> pem_of(what, Ok(bytes)) is Err && pem_of(what, Ok(bytes))->Err_0
            is VaultOtherError,
{
    if valid_utf8(bytes) {
        decode_utf8_encode_utf8(bytes);
    }
}

/// How the certificate with `serial` is called in messages.
pub open spec fn certificate_name(serial: Seq<char>) -> Seq<char> {
    "certificate "@ + serial
}

/// The view of a body as it is handed over: the bytes, or the report of
/// the failure to read them.
pub open spec fn body_view(body: Result<Vec<u8>, String>) -> Result<Seq<u8>, Seq<char>> {
    match body {
        Ok(bytes) => Ok(bytes@),
        Err(report) => Err(report@),
    }
}

/// Whether `r` is the result that `expected` describes.
pub open spec fn is_text_result(r: Result<String, SamplyBeamError>, expected: Result<
    Seq<char>,
    ErrorView,
>) -> bool {
    match r {
        Ok(text) => expected == Ok::<Seq<char>, ErrorView>(text@),
        Err(e) => expected == Err::<Seq<char>, ErrorView>(e@),
    }
}

/// Whether `r` is the result that `expected` describes.
pub open spec fn is_list_result(r: Result<Vec<String>, SamplyBeamError>, expected: Result<
    Seq<Seq<char>>,
    ErrorView,
>) -> bool {
    match r {
        Ok(texts) => expected == Ok::<Seq<Seq<char>>, ErrorView>(texts_of(texts@)),
        Err(e) => expected == Err::<Seq<Seq<char>>, ErrorView>(e@),
    }
}

/// The URL of `location` at the backend with this scheme and authority:
/// the URI with the path `/v1/` and the location. A part that makes no URI
/// fails the build.
pub fn pki_url_builder(scheme: &str, authority: &str, location: &str) -> (r: Result<
    String,
    SamplyBeamError,
>)
    ensures
        is_text_result(r, pki_url(scheme@, authority@, location@)),
{
    let mut path = String::from_str("/v1/");
    path.append(location);
    match build_uri(scheme, authority, path.as_str()) {
        Ok(url) => Ok(url),
        Err(report) => Err(SamplyBeamError::HttpRequestBuildError(report)),
    }
}

/// `head`, `what`, a colon and `report`.
fn failure_text(head: &str, what: &str, report: &str) -> (text: String)
    ensures
        text@ == head@ + what@ + ": "@ + report@,
{
    let mut text = String::from_str(head);
    text.append(what);
    text.append(": ");
    text.append(report);
    text
}

/// The serials that a parsed list response holds.
pub fn serials_in(document: &Json) -> (r: Result<Vec<String>, SamplyBeamError>)
    ensures
        is_list_result(r, serials_of_document(document@)),
{
    let found = match document.member("data") {
        Some(data) => match data.member("keys") {
            Some(keys) => keys.strings(),
            None => None,
        },
        None => None,
    };
    match found {
        Some(serials) => Ok(serials),
        None => {
            let mut text = String::from_str("Cannot deserialize vault certificate list: ");
            text.append("no list of strings at `data.keys`");
            Err(SamplyBeamError::VaultOtherError(text))
        },
    }
}

/// The body of a certificate response as text.
pub fn pem_in(what: &str, body: Result<Vec<u8>, String>) -> (r: Result<String, SamplyBeamError>)
    ensures
        is_text_result(r, pem_of(what@, body_view(body))),
{
    match body {
        Err(report) => Err(
            SamplyBeamError::VaultOtherError(
                failure_text("Cannot retrieve ", what, report.as_str()),
            ),
        ),
        Ok(bytes) => match string_from_utf8(bytes.as_slice()) {
            Ok(text) => Ok(text),
            Err(report) => Err(
                SamplyBeamError::VaultOtherError(
                    failure_text("Cannot parse ", what, report.as_str()),
                ),
            ),
        },
    }
}

/// The gateway to the backend's certificates: the configuration, the HTTP
/// client and what was noted when both were set up.
pub struct GetCertsFromPki {
    config: PkiConfig,
    local_certificates: Vec<String>,
    hyper_client: SamplyHttpClient,
    transport_summary: String,
}

/// What a listing of the local certificate directory came to, where one is
/// configured: the paths of its files, or the report of the failure to read
/// it.
pub open spec fn listed_paths(listing: Option<Result<Vec<String>, String>>) -> Seq<Seq<char>> {
    match listing {
        Some(Ok(paths)) => texts_of(paths@),
        _ => Seq::empty(),
    }
}

/// The failure for a certificate directory that cannot be read.
pub open spec fn listing_failure(report: Seq<char>) -> ErrorView {
    ErrorView::ConfigurationFailed("Unable to read CA certificates: "@ + report)
}

impl GetCertsFromPki {
    /// The configuration that the gateway was made with.
    pub closed spec fn config_view(&self) -> PkiConfigView {
        self.config@
    }

    /// The paths of the local certificate files that were found.
    pub closed spec fn local_certificates_view(&self) -> Seq<Seq<char>> {
        texts_of(self.local_certificates@)
    }

    /// The line that sums up the transport.
    pub closed spec fn summary_view(&self) -> Seq<char> {
        self.transport_summary@
    }

    /// The HTTP client that the gateway owns.
    pub closed spec fn client_view(&self) -> SamplyHttpClient {
        self.hyper_client
    }

    /// Sets the gateway up. `listing` is what reading the configured
    /// directory of CA certificates came to, `None` where no directory is
    /// configured; its paths are kept for the record. The client is built
    /// over `ca_certificates` with the gateway's connect timeout.
    ///
    /// A directory that could not be read fails the set-up before anything
    /// else is done; after that only the transport can fail.
    pub fn new(
        config: PkiConfig,
        listing: Option<Result<Vec<String>, String>>,
        ca_certificates: &Vec<openssl::x509::X509>,
    ) -> (r: Result<GetCertsFromPki, SamplyBeamError>)
        ensures
            listing matches Some(Err(report)) ==> r matches Err(e) && e@ == listing_failure(
                report@,
            ),
            !(listing matches Some(Err(_))) ==> match r {
                Ok(getter) => {
                    &&& getter.config_view() == config@
                    &&& getter.local_certificates_view() == listed_paths(listing)
                    &&& is_built_transport(
                        getter.client_view(),
                        getter.summary_view(),
                        ca_certificates@,
                        PKI_CONNECT_TIMEOUT_SECONDS,
                    )
                },
                Err(e) => is_build_failure(e@, ca_certificates@.len()),
            },
    {
        let local_certificates = match listing {
            None => Vec::new(),
            Some(Ok(paths)) => paths,
            Some(Err(report)) => {
                let mut text = String::from_str("Unable to read CA certificates: ");
                text.append(report.as_str());
                return Err(SamplyBeamError::ConfigurationFailed(text));
            },
        };
        match build_client(ca_certificates, PKI_CONNECT_TIMEOUT_SECONDS) {
            Ok((hyper_client, transport_summary)) => Ok(
                GetCertsFromPki { config, local_certificates, hyper_client, transport_summary },
            ),
            Err(e) => Err(e),
        }
    }

    /// The realm under which the gateway's certificate paths lie.
    pub fn pki_realm(&self) -> (realm: &String)
        ensures
            realm@ == self.config_view().pki_realm,
    {
        &self.config.pki_realm
    }

    /// The HTTP client to send the gateway's requests with.
    pub fn hyper_client(&self) -> (client: &SamplyHttpClient)
        ensures
            *client == self.client_view(),
    {
        &self.hyper_client
    }

    /// The line that sums up the transport, for the record.
    pub fn transport_summary(&self) -> (summary: &String)
        ensures
            summary@ == self.summary_view(),
    {
        &self.transport_summary
    }

    /// The local certificate files that were found, for the record.
    pub fn local_certificates(&self) -> (paths: &Vec<String>)
        ensures
            texts_of(paths@) == self.local_certificates_view(),
    {
        &self.local_certificates
    }

    /// The request to `url` with `method`: it carries the token and names
    /// the client.
    pub fn request_to(&self, method: VaultMethod, url: String) -> (request: VaultRequest)
        ensures
            request@ == request_to(self.config_view(), method, url@),
    {
        let mut headers: Vec<(String, String)> = Vec::new();
        headers.push((String::from_str("X-Vault-Token"), self.config.pki_token.clone()));
        headers.push((String::from_str("User-Agent"), self.config.user_agent.clone()));
        let request = VaultRequest { method, url, headers };
        assert(request@.headers =~= request_to(self.config_view(), method, url@).headers);
        request
    }

    /// The request for `location` with `method`, or the failure to build
    /// its URL.
    pub fn request(&self, method: VaultMethod, location: &str) -> (r: Result<
        VaultRequest,
        SamplyBeamError,
    >)
        ensures
            is_request_result(r, request_for(self.config_view(), method, location@)),
    {
        let built = pki_url_builder(
            self.config.pki_scheme.as_str(),
            self.config.pki_authority.as_str(),
            location,
        );
        match built {
            Ok(url) => Ok(self.request_to(method, url)),
            Err(e) => Err(e),
        }
    }

    /// The request that probes the backend's health. Its answer is read by
    /// [`check_vault_health`](crate::health::check_vault_health).
    pub fn health_request(&self) -> (r: Result<VaultRequest, SamplyBeamError>)
        ensures
            is_request_result(
                r,
                request_for(self.config_view(), VaultMethod::Get, health_path()),
            ),
    {
        self.request(VaultMethod::Get, "sys/health")
    }

    /// Prepares a request that is tried until it succeeds, fails for good or
    /// has been tried `max_tries` times: the request to send at each attempt
    /// and the machine that says when.
    pub fn resilient_vault_request(
        &self,
        method: VaultMethod,
        api_path: &str,
        max_tries: Option<u32>,
    ) -> (r: Result<(VaultRequest, RetryMachine), SamplyBeamError>)
        ensures
            is_plan_result(r, request_for(self.config_view(), method, api_path@), max_tries),
    {
        match self.request(method, api_path) {
            Ok(request) => Ok((request, RetryMachine::new(max_tries))),
            Err(e) => Err(e),
        }
    }

    /// The request that lists the certificates, tried without limit.
    pub fn certificate_list_request(&self) -> (r: Result<
        (VaultRequest, RetryMachine),
        SamplyBeamError,
    >)
        ensures
            is_plan_result(
                r,
                request_for(
                    self.config_view(),
                    VaultMethod::List,
                    list_path(self.config_view().pki_realm),
                ),
                None,
            ),
    {
        let mut path = self.config.pki_realm.clone();
        path.append("/certs");
        self.resilient_vault_request(VaultMethod::List, path.as_str(), None)
    }

    /// The request for the certificate with `serial`, tried without limit.
    pub fn certificate_by_serial_request(&self, serial: &str) -> (r: Result<
        (VaultRequest, RetryMachine),
        SamplyBeamError,
    >)
        ensures
            is_plan_result(
                r,
                request_for(
                    self.config_view(),
                    VaultMethod::Get,
                    certificate_path(self.config_view().pki_realm, serial@),
                ),
                None,
            ),
    {
        let mut path = self.config.pki_realm.clone();
        path.append("/cert/");
        path.append(serial);
        path.append("/raw/pem");
        self.resilient_vault_request(VaultMethod::Get, path.as_str(), None)
    }

    /// The request for the intermediate CA certificate, tried without limit.
    pub fn im_certificate_request(&self) -> (r: Result<
        (VaultRequest, RetryMachine),
        SamplyBeamError,
    >)
        ensures
            is_plan_result(
                r,
                request_for(
                    self.config_view(),
                    VaultMethod::Get,
                    ca_path(self.config_view().pki_realm),
                ),
                None,
            ),
    {
        let mut path = self.config.pki_realm.clone();
        path.append("/ca/pem");
        self.resilient_vault_request(VaultMethod::Get, path.as_str(), None)
    }

    /// Reads the answer to the list request: the serials in the order of the
    /// response. `body` is the response's body, or the report of the failure
    /// to read it.
    pub fn certificate_list(&self, body: Result<Vec<u8>, String>) -> (r: Result<
        Vec<String>,
        SamplyBeamError,
    >)
        ensures
            is_list_result(r, certificate_list_of(body_view(body))),
    {
        match body {
            Err(report) => Err(
                SamplyBeamError::VaultOtherError(
                    failure_text("Cannot retrieve ", "vault certificate list", report.as_str()),
                ),
            ),
            Ok(bytes) => match parse_json(bytes.as_slice()) {
                Ok(document) => serials_in(&document),
                Err(report) => {
                    let mut text = String::from_str("Cannot deserialize vault certificate list: ");
                    text.append(report.as_str());
                    Err(SamplyBeamError::VaultOtherError(text))
                },
            },
        }
    }

    /// Reads the answer to the request for the certificate with `serial`:
    /// the body as text, unchanged.
    pub fn certificate_by_serial_as_pem(&self, serial: &str, body: Result<Vec<u8>, String>) -> (r:
        Result<String, SamplyBeamError>)
        ensures
            is_text_result(r, pem_of(certificate_name(serial@), body_view(body))),
    {
        let mut what = String::from_str("certificate ");
        what.append(serial);
        pem_in(what.as_str(), body)
    }

    /// Reads the answer to the request for the intermediate CA certificate:
    /// the body as text, unchanged.
    pub fn im_certificate_as_pem(&self, body: Result<Vec<u8>, String>) -> (r: Result<
        String,
        SamplyBeamError,
    >)
        ensures
            is_text_result(r, pem_of("im-ca certificate"@, body_view(body))),
    {
        pem_in("im-ca certificate", body)
    }
}

/// Sets the gateway up: see [`GetCertsFromPki::new`].
pub fn build_cert_getter(
    config: PkiConfig,
    listing: Option<Result<Vec<String>, String>>,
    ca_certificates: &Vec<openssl::x509::X509>,
) -> (r: Result<GetCertsFromPki, SamplyBeamError>)
    ensures
        listing matches Some(Err(report)) ==> r matches Err(e) && e@ == listing_failure(report@),
        !(listing matches Some(Err(_))) ==> match r {
            Ok(getter) => {
                &&& getter.config_view() == config@
                &&& getter.local_certificates_view() == listed_paths(listing)
                &&& is_built_transport(
                    getter.client_view(),
                    getter.summary_view(),
                    ca_certificates@,
                    PKI_CONNECT_TIMEOUT_SECONDS,
                )
            },
            Err(e) => is_build_failure(e@, ca_certificates@.len()),
        },
{
    GetCertsFromPki::new(config, listing, ca_certificates)
}

} // verus!
