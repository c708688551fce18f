//! The transport: an HTTP client that speaks HTTPS, honours the proxies of
//! the environment and is given extra certificates for a proxy that
//! terminates TLS.

use vstd::prelude::*;
use vstd::string::StringExecFns;
use crate::errors::{ErrorView, SamplyBeamError};
use crate::text::{decimal_string, decimal_text};

verus! {

/// The client that the transport builder makes.
pub type SamplyHttpClient = hyper::Client<
    hyper_proxy::ProxyConnector<hyper_tls::HttpsConnector<hyper::client::HttpConnector>>,
>;

/// The seconds that the base connector waits for a connection.
pub const CONNECT_TIMEOUT_SECONDS: u64 = 1;

/// The entries of `uris` without repetitions: each at the place where it
/// first occurs.
pub open spec fn distinct(uris: Seq<Seq<char>>) -> Seq<Seq<char>>
    decreases uris.len(),
{
    if uris.len() == 0 {
        Seq::empty()
    } else if distinct(uris.drop_last()).contains(uris.last()) {
        distinct(uris.drop_last())
    } else {
        distinct(uris.drop_last()).push(uris.last())
    }
}

/// `uris` in double quotes, separated by a comma and a space.
pub open spec fn quoted_list(uris: Seq<Seq<char>>) -> Seq<char>
    decreases uris.len(),
{
    if uris.len() == 0 {
        Seq::empty()
    } else if uris.len() == 1 {
        "\""@ + uris[0] + "\""@
    } else {
        quoted_list(uris.drop_last()) + ", "@ + "\""@ + uris.last() + "\""@
    }
}

/// How the proxies in use are described.
pub open spec fn proxies_text(proxies: Seq<Seq<char>>) -> Seq<char> {
    if proxies.len() == 0 {
        "no proxy"@
    } else if proxies.len() == 1 {
        "proxy "@ + proxies[0]
    } else {
        decimal_text(proxies.len()) + " proxies {"@ + quoted_list(proxies) + "}"@
    }
}

/// How the extra trusted certificates are described.
pub open spec fn certificates_text(count: nat) -> Seq<char> {
    if count == 0 {
        "no trusted certificate"@
    } else if count == 1 {
        "a trusted certificate"@
    } else {
        decimal_text(count) + " trusted certificates"@
    }
}

/// The line that sums up a transport: its proxies and its extra trusted
/// certificates.
pub open spec fn summary_text(proxies: Seq<Seq<char>>, certificates: nat) -> Seq<char> {
    "Using "@ + proxies_text(proxies) + " and "@ + certificates_text(certificates)
        + " for TLS termination."@
}

/// The detail of the failure for certificates without a proxy to use them.
pub open spec fn missing_proxy_text() -> Seq<char> {
    "Certificates for TLS termination were provided but no proxy to use. Please supply correct configuration."@
}

/// The texts that `uris` hold, in order.
pub open spec fn uri_texts(uris: Seq<String>) -> Seq<Seq<char>> {
    Seq::new(uris.len(), |i: int| uris[i]@)
}

/// What is decided of a transport with these proxies and this many extra
/// trusted certificates: certificates without any proxy are a
/// misconfiguration; everything else is summed up in a line.
pub open spec fn transport_verdict(uris: Seq<Seq<char>>, certificates: nat) -> Result<
    Seq<char>,
    ErrorView,
> {
    if distinct(uris).len() == 0 && certificates > 0 {
        Err(ErrorView::HttpProxyProblem(missing_proxy_text()))
    } else {
        Ok(summary_text(distinct(uris), certificates))
    }
}

/// No proxy is left exactly when none was given.
pub proof fn lemma_distinct_empty(uris: Seq<Seq<char>>)
    ensures
        distinct(uris).len() == 0 <==> uris.len() == 0,
    decreases uris.len(),
{
    if uris.len() > 0 {
        lemma_distinct_empty(uris.drop_last());
    }
}

/// A transport is refused exactly when it was given certificates and
/// resolved no proxy: certificates without a proxy never pass, and without
/// certificates every set of proxies does, the empty one too.
pub proof fn lemma_refused_without_proxy(uris: Seq<Seq<char>>, certificates: nat)
    ensures
        transport_verdict(uris, certificates) is Err <==> uris.len() == 0 && certificates > 0,
        transport_verdict(uris, certificates) is Err ==> transport_verdict(uris, certificates)
            == Err::<Seq<char>, ErrorView>(ErrorView::HttpProxyProblem(missing_proxy_text())),
{
    lemma_distinct_empty(uris);
}

/// Whether `uri` is among `seen`.
fn is_listed(seen: &Vec<String>, uri: &String) -> (found: bool)
    ensures
        found == uri_texts(seen@).contains(uri@),
{
    let mut i: usize = 0;
    while i < seen.len()
        invariant
            i <= seen.len(),
            forall|j: int| 0 <= j < i ==> seen@[j]@ != uri@,
        decreases seen.len() - i,
    {
        if seen[i] == *uri {
            assert(uri_texts(seen@)[i as int] == uri@);
            return true;
        }
        i += 1;
    }
    false
}

/// The proxies without repetitions, each where it first occurs. They are
/// kept as a list, so that the line that names them reads the same in every
/// run.
pub fn distinct_proxies(uris: &Vec<String>) -> (kept: Vec<String>)
    ensures
        uri_texts(kept@) == distinct(uri_texts(uris@)),
{
    let mut kept: Vec<String> = Vec::new();
    let mut i: usize = 0;
    assert(uri_texts(uris@).take(0) =~= Seq::<Seq<char>>::empty());
    assert(uri_texts(kept@) =~= Seq::<Seq<char>>::empty());
    while i < uris.len()
        invariant
            i <= uris.len(),
            uri_texts(kept@) == distinct(uri_texts(uris@).take(i as int)),
        decreases uris.len() - i,
    {
        let ghost before = uri_texts(uris@).take(i as int);
        let ghost now = uri_texts(uris@).take(i + 1);
        assert(now.drop_last() =~= before);
        assert(now.last() == uris@[i as int]@);
        if !is_listed(&kept, &uris[i]) {
            let ghost old_kept = uri_texts(kept@);
            kept.push(uris[i].clone());
            assert(uri_texts(kept@) =~= old_kept.push(uris@[i as int]@));
        }
        i += 1;
    }
    assert(uri_texts(uris@).take(uris@.len() as int) =~= uri_texts(uris@));
    kept
}

/// `uris` in double quotes, separated by a comma and a space.
fn quote_all(uris: &Vec<String>) -> (text: String)
    ensures
        text@ == quoted_list(uri_texts(uris@)),
{
    let mut text = String::new();
    let mut i: usize = 0;
    assert(uri_texts(uris@).take(0) =~= Seq::<Seq<char>>::empty());
    while i < uris.len()
        invariant
            i <= uris.len(),
            text@ == quoted_list(uri_texts(uris@).take(i as int)),
        decreases uris.len() - i,
    {
        let ghost before = uri_texts(uris@).take(i as int);
        let ghost now = uri_texts(uris@).take(i + 1);
        assert(now.drop_last() =~= before);
        assert(now.last() == uris@[i as int]@);
        if i > 0 {
            text.append(", ");
        }
        text.append("\"");
        text.append(uris[i].as_str());
        text.append("\"");
        assert(text@ =~= quoted_list(now)) by {
            if i == 0 {
                assert(now[0] == uris@[0]@);
                assert(before.len() == 0);
            }
        }
        i += 1;
    }
    assert(uri_texts(uris@).take(uris@.len() as int) =~= uri_texts(uris@));
    text
}

/// The line that sums up a transport with these proxies, each listed once,
/// and this many extra trusted certificates.
pub fn transport_summary(proxies: &Vec<String>, certificates: usize) -> (text: String)
    ensures
        text@ == summary_text(uri_texts(proxies@), certificates as nat),
{
    let mut text = String::from_str("Using ");
    if proxies.len() == 0 {
        text.append("no proxy");
    } else if proxies.len() == 1 {
        text.append("proxy ");
        text.append(proxies[0].as_str());
    } else {
        let count = decimal_string(proxies.len() as u64);
        let list = quote_all(proxies);
        text.append(count.as_str());
        text.append(" proxies {");
        text.append(list.as_str());
        text.append("}");
    }
    text.append(" and ");
    if certificates == 0 {
        text.append("no trusted certificate");
    } else if certificates == 1 {
        text.append("a trusted certificate");
    } else {
        let count = decimal_string(certificates as u64);
        text.append(count.as_str());
        text.append(" trusted certificates");
    }
    text.append(" for TLS termination.");
    assert(text@ =~= summary_text(uri_texts(proxies@), certificates as nat));
    text
}

/// Decides on a transport that resolved the proxies `uris` and was given
/// `certificates` extra trusted certificates. Certificates are meant for a
/// proxy that terminates TLS: with certificates and no proxy the transport
/// is refused. Otherwise the result is the line that sums it up.
pub fn check_transport(uris: &Vec<String>, certificates: usize) -> (r: Result<
    String,
    SamplyBeamError,
>)
    ensures
        match r {
            Ok(summary) => transport_verdict(uri_texts(uris@), certificates as nat) == Ok::<
                Seq<char>,
                ErrorView,
            >(summary@),
            Err(e) => transport_verdict(uri_texts(uris@), certificates as nat) == Err::<
                Seq<char>,
                ErrorView,
            >(e@),
        },
{
    let proxies = distinct_proxies(uris);
    if proxies.len() == 0 && certificates > 0 {
        Err(
            SamplyBeamError::HttpProxyProblem(
                String::from_str(
                    "Certificates for TLS termination were provided but no proxy to use. Please supply correct configuration.",
                ),
            ),
        )
    } else {
        Ok(transport_summary(&proxies, certificates))
    }
}

/// hyper's resolver of host names, which `HttpConnector` has by default.
#[verifier::external_type_specification]
#[verifier::external_body]
pub struct ExGaiResolver(hyper::client::connect::dns::GaiResolver);

/// hyper's connector for plain TCP.
#[verifier::external_type_specification]
#[verifier::external_body]
#[verifier::reject_recursive_types(R)]
pub struct ExHttpConnector<R>(hyper::client::HttpConnector<R>);

/// The HTTPS layer of `hyper_tls` over a connector.
#[verifier::external_type_specification]
#[verifier::external_body]
#[verifier::reject_recursive_types(T)]
pub struct ExHttpsConnector<T>(hyper_tls::HttpsConnector<T>);

/// The proxy layer of `hyper_proxy` over a connector.
#[verifier::external_type_specification]
#[verifier::external_body]
#[verifier::reject_recursive_types(C)]
pub struct ExProxyConnector<C>(hyper_proxy::ProxyConnector<C>);

/// hyper's request body.
#[verifier::external_type_specification]
#[verifier::external_body]
pub struct ExBody(hyper::Body);

/// hyper's HTTP client.
#[verifier::external_type_specification]
#[verifier::external_body]
#[verifier::reject_recursive_types(C)]
#[verifier::reject_recursive_types(B)]
pub struct ExClient<C, B>(hyper::Client<C, B>);

/// An X.509 certificate of `openssl`.
#[verifier::external_type_specification]
#[verifier::external_body]
pub struct ExX509(openssl::x509::X509);

/// A certificate as `native_tls` takes it.
#[verifier::external_type_specification]
#[verifier::external_body]
pub struct ExTlsCertificate(hyper_tls::native_tls::Certificate);

/// The builder of a TLS setting of `native_tls`.
#[verifier::external_type_specification]
#[verifier::external_body]
pub struct ExTlsConnectorBuilder(hyper_tls::native_tls::TlsConnectorBuilder);

/// A TLS setting of `native_tls`.
#[verifier::external_type_specification]
#[verifier::external_body]
pub struct ExTlsConnector(hyper_tls::native_tls::TlsConnector);

/// What a transport is set up with, as far as the library decides it.
pub struct TransportView {
    /// The seconds that the TCP connector waits for a connection, if it has
    /// a limit.
    pub connect_timeout: Option<u64>,
    /// Whether the TCP connector refuses every URI whose scheme is not
    /// `http`.
    pub enforces_http: bool,
    /// The URIs of the proxies, in the connector's order.
    pub proxies: Seq<Seq<char>>,
    /// The root certificates that the TLS setting for connections to a
    /// proxy was built from, each given by its DER encoding; `None` where
    /// such connections have no TLS setting.
    pub proxy_roots: Option<Seq<Seq<u8>>>,
}

/// The connect timeout in seconds and the `enforce_http` flag that a TCP
/// connector holds.
pub uninterp spec fn base_settings(http: hyper::client::HttpConnector) -> (Option<u64>, bool);

/// The connect timeout and the `enforce_http` flag of the TCP connector
/// beneath an HTTPS layer.
pub uninterp spec fn https_settings(
    https: hyper_tls::HttpsConnector<hyper::client::HttpConnector>,
) -> (Option<u64>, bool);

/// What a proxy connector holds: the settings of the TCP connector beneath
/// it, its proxies and the roots of its TLS setting.
pub uninterp spec fn proxy_settings(
    proxy: hyper_proxy::ProxyConnector<hyper_tls::HttpsConnector<hyper::client::HttpConnector>>,
) -> TransportView;

/// What the connector of a client holds.
pub uninterp spec fn client_settings(client: SamplyHttpClient) -> TransportView;

/// Calls `hyper::client::HttpConnector::new`: a connector for plain TCP
/// with hyper's defaults, which set no connect timeout and enforce the
/// `http` scheme.
#[verifier::external_body]
fn new_http_connector() -> (http: hyper::client::HttpConnector)
    ensures
        base_settings(http) == (None::<u64>, true),
{
    hyper::client::HttpConnector::new()
}

/// Calls `HttpConnector::set_connect_timeout` with a timeout of `seconds`
/// seconds. The method stores the value and touches nothing else.
#[verifier::external_body]
fn set_connect_timeout(http: &mut hyper::client::HttpConnector, seconds: u64)
    ensures
        base_settings(*final(http)) == (Some(seconds), base_settings(*old(http)).1),
{
    http.set_connect_timeout(Some(std::time::Duration::from_secs(seconds)));
}

/// Calls `HttpConnector::enforce_http`. The method stores the flag and
/// touches nothing else.
#[verifier::external_body]
fn enforce_http(http: &mut hyper::client::HttpConnector, is_enforced: bool)
    ensures
        base_settings(*final(http)) == (base_settings(*old(http)).0, is_enforced),
{
    http.enforce_http(is_enforced);
}

/// Makes the platform's default TLS connector with
/// `native_tls::TlsConnector::new` and joins it to `http` with
/// `HttpsConnector::from`, which keeps `http` as it is. This is what
/// `HttpsConnector::new_with_connector` does, except that a TLS context
/// that cannot be created comes back as the error's text and not as a
/// panic.
#[verifier::external_body]
fn https_layer(http: hyper::client::HttpConnector) -> (r: Result<
    hyper_tls::HttpsConnector<hyper::client::HttpConnector>,
    String,
>)
    ensures
        r matches Ok(https) ==> https_settings(https) == base_settings(http),
{
    match hyper_tls::native_tls::TlsConnector::new() {
        Ok(tls) => Ok(hyper_tls::HttpsConnector::from((http, tls.into()))),
        Err(e) => Err(e.to_string()),
    }
}

/// Calls `mz_http_proxy::hyper::connector`: a proxy connector that holds
/// the proxies which the process environment configures. An error comes
/// back as its text. Which proxies there are depends on the environment
/// and is not claimed. The TLS setting for connections to a proxy is the
/// one that `ProxyConnector::new` builds from a fresh builder, which has no
/// root certificates of its own.
///
/// On its way the call makes a default HTTPS connector with
/// `HttpsConnector::new`, which panics where the platform's TLS context
/// cannot be created; `build_client` calls this only after `https_layer`
/// has created one.
#[verifier::external_body]
fn environment_proxies() -> (r: Result<
    hyper_proxy::ProxyConnector<hyper_tls::HttpsConnector<hyper::client::HttpConnector>>,
    String,
>)
    ensures
        r matches Ok(proxy) ==> proxy_settings(proxy).proxy_roots == Some(
            Seq::<Seq<u8>>::empty(),
        ),
{
    mz_http_proxy::hyper::connector().map_err(|e| e.to_string())
}

/// Calls `ProxyConnector::with_connector`, which keeps the proxies and the
/// TLS setting and takes `https` for the connector beneath.
#[verifier::external_body]
fn with_connector(
    proxy: hyper_proxy::ProxyConnector<hyper_tls::HttpsConnector<hyper::client::HttpConnector>>,
    https: hyper_tls::HttpsConnector<hyper::client::HttpConnector>,
) -> (joined: hyper_proxy::ProxyConnector<hyper_tls::HttpsConnector<hyper::client::HttpConnector>>)
    ensures
        proxy_settings(joined) == (TransportView {
            connect_timeout: https_settings(https).0,
            enforces_http: https_settings(https).1,
            proxies: proxy_settings(proxy).proxies,
            proxy_roots: proxy_settings(proxy).proxy_roots,
        }),
{
    proxy.with_connector(https)
}

/// What `X509::to_pem` writes for the certificate: its PEM text, or `None`
/// where OpenSSL fails to write it.
pub uninterp spec fn x509_pem(certificate: openssl::x509::X509) -> Option<Seq<u8>>;

/// What `native_tls::Certificate::from_pem` reads from a PEM text: the
/// certificate, given by its DER encoding, or `None` where it rejects the
/// text.
pub uninterp spec fn pem_certificate(pem: Seq<u8>) -> Option<Seq<u8>>;

/// The root certificates that were added to the builder, each given by its
/// DER encoding, in the order in which they were added.
pub uninterp spec fn builder_roots(builder: hyper_tls::native_tls::TlsConnectorBuilder) -> Seq<
    Seq<u8>,
>;

/// The root certificates of the builder that the TLS setting was built
/// from, in the builder's order. These are the certificates that were
/// offered to the setting's store, which is not to say that the store took
/// each of them: one that it refuses is left out without an error.
pub uninterp spec fn connector_roots(tls: hyper_tls::native_tls::TlsConnector) -> Seq<Seq<u8>>;

/// Calls `native_tls::TlsConnector::builder`: a builder with the defaults,
/// which trust the platform's certificates. Its list of root certificates
/// starts empty.
#[verifier::external_body]
fn tls_builder() -> (builder: hyper_tls::native_tls::TlsConnectorBuilder)
    ensures
        builder_roots(builder) == Seq::<Seq<u8>>::empty(),
{
    hyper_tls::native_tls::TlsConnector::builder()
}

/// Calls `X509::to_pem`: the certificate in PEM, or `None` where OpenSSL
/// fails to write it. The contract names what the call gives for this
/// certificate.
#[verifier::external_body]
fn certificate_pem(certificate: &openssl::x509::X509) -> (pem: Option<Vec<u8>>)
    ensures
        match pem {
            Some(bytes) => x509_pem(*certificate) == Some(bytes@),
            None => x509_pem(*certificate) is None,
        },
{
    certificate.to_pem().ok()
}

/// Reads the certificate from `pem` with `native_tls::Certificate::from_pem`
/// and hands it to `TlsConnectorBuilder::add_root_certificate`, which
/// appends it to the builder's root certificates. Where the text is
/// rejected nothing is added and the result is `false`.
#[verifier::external_body]
fn add_root_certificate(builder: &mut hyper_tls::native_tls::TlsConnectorBuilder, pem: &[u8]) -> (added:
    bool)
    ensures
        added == pem_certificate(pem@) is Some,
        added ==> builder_roots(*final(builder)) == builder_roots(*old(builder)).push(
            pem_certificate(pem@)->0,
        ),
        !added ==> builder_roots(*final(builder)) == builder_roots(*old(builder)),
{
    match hyper_tls::native_tls::Certificate::from_pem(pem) {
        Ok(certificate) => {
            builder.add_root_certificate(certificate);
            true
        },
        Err(_) => false,
    }
}

/// Calls `TlsConnectorBuilder::build`, which makes a TLS setting over the
/// platform's certificates and offers each root certificate of the builder
/// to its store. An error comes back as its text; whether the call
/// succeeds is up to the platform.
#[verifier::external_body]
fn build_tls(builder: &hyper_tls::native_tls::TlsConnectorBuilder) -> (r: Result<
    hyper_tls::native_tls::TlsConnector,
    String,
>)
    ensures
        r matches Ok(tls) ==> connector_roots(tls) == builder_roots(*builder),
{
    builder.build().map_err(|e| e.to_string())
}

/// Calls `ProxyConnector::set_tls` with `tls`, which becomes the TLS
/// setting for connections to a proxy; nothing else changes.
#[verifier::external_body]
fn set_tls(
    proxy: &mut hyper_proxy::ProxyConnector<
        hyper_tls::HttpsConnector<hyper::client::HttpConnector>,
    >,
    tls: hyper_tls::native_tls::TlsConnector,
)
    ensures
        proxy_settings(*final(proxy)) == (TransportView {
            proxy_roots: Some(connector_roots(tls)),
            ..proxy_settings(*old(proxy))
        }),
{
    proxy.set_tls(Some(tls));
}

/// Calls `ProxyConnector::proxies` and hands out the URI of each proxy, as
/// `Proxy::uri` gives it and `Display` prints it, in the connector's order.
#[verifier::external_body]
fn proxy_uris(
    proxy: &hyper_proxy::ProxyConnector<hyper_tls::HttpsConnector<hyper::client::HttpConnector>>,
) -> (uris: Vec<String>)
    ensures
        uri_texts(uris@) == proxy_settings(*proxy).proxies,
{
    proxy.proxies().iter().map(|p| p.uri().to_string()).collect()
}

/// Calls `hyper::Client::builder` and `Builder::build`: a client with
/// hyper's defaults, which keeps the connector as it is.
#[verifier::external_body]
fn client_over(
    proxy: hyper_proxy::ProxyConnector<hyper_tls::HttpsConnector<hyper::client::HttpConnector>>,
) -> (client: SamplyHttpClient)
    ensures
        client_settings(client) == proxy_settings(proxy),
{
    hyper::Client::builder().build(proxy)
}

/// The detail of a failure to set up the connectors.
pub open spec fn client_failure_text(report: Seq<char>) -> Seq<char> {
    "Unable to build HTTP client: "@ + report
}

/// The detail of a failure to hand a certificate to the TLS builder.
pub open spec fn certificate_failure_text() -> Seq<char> {
    "Internal Error: Unable to convert Certificate."@
}

/// The detail of a failure to build the TLS setting with the certificates.
pub open spec fn tls_failure_text(report: Seq<char>) -> Seq<char> {
    "Unable to build TLS Connector with custom CA certificates: "@ + report
}

/// The failures that building a transport with `certificates` extra trusted
/// certificates can end in. Without certificates only the set-up of the
/// connectors can fail.
pub open spec fn is_build_failure(e: ErrorView, certificates: nat) -> bool {
    ||| exists|report: Seq<char>| e == ErrorView::ConfigurationFailed(client_failure_text(report))
    ||| certificates > 0 && e == ErrorView::ConfigurationFailed(certificate_failure_text())
    ||| certificates > 0 && exists|report: Seq<char>|
        e == ErrorView::HttpProxyProblem(tls_failure_text(report))
    ||| certificates > 0 && e == ErrorView::HttpProxyProblem(missing_proxy_text())
}

/// `head` followed by `detail`.
fn with_report(head: &str, report: &String) -> (text: String)
    ensures
        text@ == head@ + report@,
{
    let mut text = String::from_str(head);
    text.append(report.as_str());
    text
}

/// The root certificate that a trust anchor becomes: what the TLS library
/// reads from the PEM text that OpenSSL writes for it. `None` where the
/// text cannot be written or is not read.
pub open spec fn anchor_root(certificate: openssl::x509::X509) -> Option<Seq<u8>> {
    match x509_pem(certificate) {
        Some(pem) => pem_certificate(pem),
        None => None,
    }
}

/// The root certificates that the trust anchors become, in their order, or
/// `None` where one of them cannot be converted.
pub open spec fn anchor_roots(certificates: Seq<openssl::x509::X509>) -> Option<Seq<Seq<u8>>> {
    if forall|i: int| 0 <= i < certificates.len() ==> #[trigger] anchor_root(certificates[i])
        is Some {
        Some(Seq::new(certificates.len(), |i: int| anchor_root(certificates[i])->0))
    } else {
        None
    }
}

/// A TLS setting over the platform's certificates and `ca_certificates`.
///
/// Where one of the certificates cannot be converted, the result is the
/// failure that says so. Otherwise the setting is built from exactly these
/// certificates, in their order, unless the platform fails to build it.
fn custom_tls(ca_certificates: &Vec<openssl::x509::X509>) -> (r: Result<
    hyper_tls::native_tls::TlsConnector,
    SamplyBeamError,
>)
    requires
        ca_certificates@.len() > 0,
    ensures
        r matches Err(e) ==> is_build_failure(e@, ca_certificates@.len()),
        match anchor_roots(ca_certificates@) {
            None => r matches Err(e) && e@ == ErrorView::ConfigurationFailed(
                certificate_failure_text(),
            ),
            Some(roots) => match r {
                Ok(tls) => connector_roots(tls) == roots,
                Err(e) => exists|report: Seq<char>|
                    e@ == ErrorView::HttpProxyProblem(tls_failure_text(report)),
            },
        },
{
    let mut builder = tls_builder();
    let mut i: usize = 0;
    while i < ca_certificates.len()
        invariant
            i <= ca_certificates.len(),
            ca_certificates@.len() > 0,
            forall|j: int| 0 <= j < i ==> #[trigger] anchor_root(ca_certificates@[j]) is Some,
            builder_roots(builder) == Seq::new(
                i as nat,
                |j: int| anchor_root(ca_certificates@[j])->0,
            ),
        decreases ca_certificates.len() - i,
    {
        let pem = match certificate_pem(&ca_certificates[i]) {
            Some(pem) => pem,
            None => {
                assert(anchor_root(ca_certificates@[i as int]) is None);
                return Err(unconvertible_certificate());
            },
        };
        let ghost before = builder_roots(builder);
        if !add_root_certificate(&mut builder, pem.as_slice()) {
            assert(anchor_root(ca_certificates@[i as int]) is None);
            return Err(unconvertible_certificate());
        }
        assert(builder_roots(builder) =~= Seq::new(
            (i + 1) as nat,
            |j: int| anchor_root(ca_certificates@[j])->0,
        )) by {
            assert(builder_roots(builder) == before.push(
                anchor_root(ca_certificates@[i as int])->0,
            ));
        }
        i += 1;
    }
    assert(anchor_roots(ca_certificates@) == Some(builder_roots(builder))) by {
        assert(anchor_roots(ca_certificates@)->0 =~= builder_roots(builder));
    }
    match build_tls(&builder) {
        Ok(tls) => Ok(tls),
        Err(report) => {
            let detail = with_report(
                "Unable to build TLS Connector with custom CA certificates: ",
                &report,
            );
            let e = SamplyBeamError::HttpProxyProblem(detail);
            assert(e@ == ErrorView::HttpProxyProblem(tls_failure_text(report@)));
            Err(e)
        },
    }
}

/// The failure for connectors that could not be set up.
fn client_failure(report: &String) -> (e: SamplyBeamError)
    ensures
        e@ == ErrorView::ConfigurationFailed(client_failure_text(report@)),
{
    SamplyBeamError::ConfigurationFailed(with_report("Unable to build HTTP client: ", report))
}

/// The failure for a certificate that cannot be handed to the TLS builder.
fn unconvertible_certificate() -> (e: SamplyBeamError)
    ensures
        e@ == ErrorView::ConfigurationFailed(certificate_failure_text()),
{
    SamplyBeamError::ConfigurationFailed(
        String::from_str("Internal Error: Unable to convert Certificate."),
    )
}

/// What holds of a transport that was built over `certificates` with a
/// connect timeout of `connect_timeout` seconds and is summed up in
/// `summary`.
///
/// The TCP connector has that timeout and lets URIs of every scheme pass.
/// The proxies that the client holds passed the check, and `summary` is
/// the line that it gave for them. The TLS setting for connections to a
/// proxy was built from exactly the converted certificates, in their
/// order: from none where there are no certificates.
pub open spec fn is_built_transport(
    client: SamplyHttpClient,
    summary: Seq<char>,
    certificates: Seq<openssl::x509::X509>,
    connect_timeout: u64,
) -> bool {
    &&& client_settings(client).connect_timeout == Some(connect_timeout)
    &&& !client_settings(client).enforces_http
    &&& transport_verdict(client_settings(client).proxies, certificates.len()) == Ok::<
        Seq<char>,
        ErrorView,
    >(summary)
    &&& client_settings(client).proxy_roots == anchor_roots(certificates)
}

/// Builds the client with a connect timeout of `connect_timeout` seconds:
/// a TCP connector with that timeout that lets `https` URIs pass, beneath
/// an HTTPS layer over the platform's certificates, beneath a connector for
/// the proxies that the environment configures. Where `ca_certificates` is
/// not empty, the TLS setting for connections to a proxy is built from
/// these certificates too, and at least one proxy has to be configured.
///
/// On success the client comes with the line that sums up its proxies and
/// certificates. Whether the platform can set the connectors up and which
/// proxies there are is decided outside: the contract states what holds of
/// the client whatever they are, and [`check_transport`] states the
/// decision for each set of proxies.
pub fn build_client(ca_certificates: &Vec<openssl::x509::X509>, connect_timeout: u64) -> (r: Result<
    (SamplyHttpClient, String),
    SamplyBeamError,
>)
    ensures
        match r {
            Ok(built) => is_built_transport(
                built.0,
                built.1@,
                ca_certificates@,
                connect_timeout,
            ),
            Err(e) => is_build_failure(e@, ca_certificates@.len()),
        },
{
    let mut http = new_http_connector();
    set_connect_timeout(&mut http, connect_timeout);
    enforce_http(&mut http, false);
    let https = match https_layer(http) {
        Ok(https) => https,
        Err(report) => {
            let e = client_failure(&report);
            assert(is_build_failure(e@, ca_certificates@.len()));
            return Err(e);
        },
    };
    let proxy = match environment_proxies() {
        Ok(proxy) => proxy,
        Err(report) => {
            let e = client_failure(&report);
            assert(is_build_failure(e@, ca_certificates@.len()));
            return Err(e);
        },
    };
    let mut proxy = with_connector(proxy, https);
    if ca_certificates.len() > 0 {
        match custom_tls(ca_certificates) {
            Ok(tls) => {
                set_tls(&mut proxy, tls);
            },
            Err(e) => {
                return Err(e);
            },
        }
    } else {
        assert(anchor_roots(ca_certificates@) == Some(Seq::<Seq<u8>>::empty())) by {
            assert(anchor_roots(ca_certificates@)->0 =~= Seq::<Seq<u8>>::empty());
        }
    }
    let uris = proxy_uris(&proxy);
    match check_transport(&uris, ca_certificates.len()) {
        Ok(summary) => {
            Ok((client_over(proxy), summary))
        },
        Err(e) => {
            proof {
                lemma_refused_without_proxy(uri_texts(uris@), ca_certificates@.len());
            }
            Err(e)
        },
    }
}

/// Builds the HTTP client with a connect timeout of
/// [`CONNECT_TIMEOUT_SECONDS`]: see [`build_client`].
pub fn build_hyper_client(ca_certificates: &Vec<openssl::x509::X509>) -> (r: Result<
    (SamplyHttpClient, String),
    SamplyBeamError,
>)
    ensures
        match r {
            Ok(built) => is_built_transport(
                built.0,
                built.1@,
                ca_certificates@,
                CONNECT_TIMEOUT_SECONDS,
            ),
            Err(e) => is_build_failure(e@, ca_certificates@.len()),
        },
{
    build_client(ca_certificates, CONNECT_TIMEOUT_SECONDS)
}

} // verus!
