use beam_pki::errors::SamplyBeamError;
use beam_pki::status::StatusCode;
use beam_pki::text::decimal_string;

#[test]
fn messages_of_all_kinds() {
    let d = || "detail".to_string();
    let cases = vec![
        (SamplyBeamError::BindAddr(d()), "Invalid bind address supplied: detail"),
        (SamplyBeamError::WrongBrokerUri("detail"), "Invalid broker address supplied: detail"),
        (
            SamplyBeamError::RequestValidationFailed(d()),
            "The request could not be validated: detail.",
        ),
        (SamplyBeamError::InvalidPath, "Invalid path supplied"),
        (SamplyBeamError::InvalidClientIdString(d()), "Invalid Client ID: detail"),
        (SamplyBeamError::SignEncryptError(d()), "Signing / encryption failed: detail"),
        (SamplyBeamError::VaultSealed, "Samply.PKI error: Vault is still sealed."),
        (
            SamplyBeamError::VaultUnreachable(d()),
            "Samply.PKI error: Unable to connect to Vault: detail",
        ),
        (
            SamplyBeamError::VaultNotInitialized,
            "Samply.PKI error: Vault has not been initialized, yet.",
        ),
        (SamplyBeamError::VaultOtherError(d()), "Samply.PKI error: detail"),
        (
            SamplyBeamError::ConfigurationFailed(d()),
            "Unable to read config: detail. Please check your environment and parameters.",
        ),
        (
            SamplyBeamError::InternalSynchronizationError(d()),
            "Internal synchronization error: detail",
        ),
        (SamplyBeamError::HttpRequestError(d()), "Error executing HTTP request: detail"),
        (SamplyBeamError::HttpRequestBuildError(d()), "Error building HTTP request: detail"),
        (SamplyBeamError::HttpProxyProblem(d()), "Problem with HTTP proxy: detail"),
        (SamplyBeamError::InvalidBeamId(d()), "Invalid Beam ID: detail"),
        (SamplyBeamError::HttpParseError(d()), "Unable to parse HTTP response: detail"),
        (SamplyBeamError::CertificateError("detail"), "X509 certificate invalid: detail"),
        (SamplyBeamError::HttpTimeoutError(d()), "Timeout executing HTTP request: detail"),
    ];
    for (error, expected) in cases {
        assert_eq!(error.message(), expected);
    }
}

#[test]
fn redirect_message_prints_the_status() {
    let error = SamplyBeamError::VaultRedirectError(
        StatusCode::from_u16(301).unwrap(),
        "https://other/".to_string(),
    );
    assert_eq!(
        error.message(),
        "Samply.PKI error: Vault has asked with code 301 Moved Permanently to redirect to https://other/; this should not happen."
    );
}

#[test]
fn status_codes_from_numbers() {
    assert!(StatusCode::from_u16(99).is_none());
    assert!(StatusCode::from_u16(0).is_none());
    assert!(StatusCode::from_u16(1000).is_none());
    assert!(StatusCode::from_u16(u16::MAX).is_none());
    assert_eq!(StatusCode::from_u16(100).unwrap().as_u16(), 100);
    assert_eq!(StatusCode::from_u16(999).unwrap().as_u16(), 999);
}

#[test]
fn status_families() {
    for code in 100..1000u16 {
        let status = StatusCode::from_u16(code).unwrap();
        assert_eq!(status.is_success(), (200..300).contains(&code));
        assert_eq!(status.is_redirection(), (300..400).contains(&code));
        assert_eq!(status.is_client_error(), (400..500).contains(&code));
    }
}

#[test]
fn status_text_is_number_and_reason() {
    assert_eq!(StatusCode::from_u16(200).unwrap().text(), "200 OK");
    assert_eq!(StatusCode::from_u16(503).unwrap().text(), "503 Service Unavailable");
    assert_eq!(StatusCode::from_u16(501).unwrap().text(), "501 Not Implemented");
    assert_eq!(StatusCode::from_u16(799).unwrap().text(), "799 <unknown status code>");
}

#[test]
fn decimal_numerals() {
    assert_eq!(decimal_string(0), "0");
    assert_eq!(decimal_string(7), "7");
    assert_eq!(decimal_string(10), "10");
    assert_eq!(decimal_string(1234567890), "1234567890");
    assert_eq!(decimal_string(u32::MAX as u64), "4294967295");
    assert_eq!(decimal_string(u64::MAX), "18446744073709551615");
}
