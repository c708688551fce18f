use beam_pki::errors::SamplyBeamError;
use beam_pki::health::{
    check_vault_health, decode_header, health_check_result, redirect_location, HealthState,
    ProbeReply,
};
use beam_pki::status::StatusCode;

fn status(code: u16) -> StatusCode {
    StatusCode::from_u16(code).unwrap()
}

fn reply(code: u16, location: Option<&[u8]>) -> ProbeReply {
    ProbeReply::Response { status: status(code), location: location.map(|l| l.to_vec()) }
}

#[test]
fn not_initialized_and_sealed() {
    assert_eq!(check_vault_health(&reply(501, None)), HealthState::NotInitialized);
    assert_eq!(check_vault_health(&reply(503, None)), HealthState::Sealed);
    assert_eq!(
        check_vault_health(&reply(503, Some(b"https://elsewhere/"))),
        HealthState::Sealed
    );
}

#[test]
fn success_family_is_healthy() {
    for code in 200..300u16 {
        assert_eq!(check_vault_health(&reply(code, None)), HealthState::Healthy);
    }
}

#[test]
fn redirection_echoes_the_location() {
    for code in 300..400u16 {
        assert_eq!(
            check_vault_health(&reply(code, Some(b"https://standby.example:8200/v1/sys/health"))),
            HealthState::Redirected {
                status: status(code),
                location: "https://standby.example:8200/v1/sys/health".to_string(),
            }
        );
    }
}

#[test]
fn redirection_without_location() {
    assert_eq!(
        check_vault_health(&reply(302, None)),
        HealthState::Redirected {
            status: status(302),
            location: "(no Location header present)".to_string(),
        }
    );
}

#[test]
fn redirection_with_garbled_location() {
    assert_eq!(
        check_vault_health(&reply(307, Some(&[b'h', b't', 0xff, b'p']))),
        HealthState::Redirected {
            status: status(307),
            location: "(garbled Location header)".to_string(),
        }
    );
}

#[test]
fn other_statuses_are_named() {
    assert_eq!(
        check_vault_health(&reply(500, None)),
        HealthState::OtherError {
            detail: "healthcheck returned statuscode 500".to_string(),
        }
    );
    assert_eq!(
        check_vault_health(&reply(404, None)),
        HealthState::OtherError { detail: "healthcheck returned statuscode 404".to_string() }
    );
    assert_eq!(
        check_vault_health(&reply(100, None)),
        HealthState::OtherError { detail: "healthcheck returned statuscode 100".to_string() }
    );
    assert_eq!(
        check_vault_health(&reply(999, None)),
        HealthState::OtherError {
            detail: "healthcheck returned statuscode 999".to_string(),
        }
    );
}

#[test]
fn transport_failure_is_unreachable() {
    let reply = ProbeReply::Unreachable { report: "connection refused".to_string() };
    assert_eq!(check_vault_health(&reply), HealthState::Unreachable);
}

#[test]
fn header_values_as_text() {
    assert_eq!(decode_header(&b"/ui/ vault\t1".to_vec()), Some("/ui/ vault\t1".to_string()));
    assert_eq!(decode_header(&Vec::new()), Some(String::new()));
    assert_eq!(decode_header(&vec![b'a', 127]), None);
    assert_eq!(decode_header(&vec![b'a', 31]), None);
    assert_eq!(decode_header(&vec![b'a', 128]), None);
    assert_eq!(decode_header(&vec![126, 32, 9]), Some("~ \t".to_string()));
}

#[test]
fn locations_to_report() {
    assert_eq!(redirect_location(&None), "(no Location header present)");
    assert_eq!(redirect_location(&Some(b"/v1/x".to_vec())), "/v1/x");
    assert_eq!(redirect_location(&Some(vec![0xc3, 0xa9])), "(garbled Location header)");
}

#[test]
fn diagnoses_as_failures() {
    assert_eq!(health_check_result(&reply(200, None)), Ok(()));
    assert_eq!(health_check_result(&reply(299, Some(b"/x"))), Ok(()));
    assert_eq!(health_check_result(&reply(503, None)), Err(SamplyBeamError::VaultSealed));
    assert_eq!(health_check_result(&reply(501, None)), Err(SamplyBeamError::VaultNotInitialized));
    assert_eq!(
        health_check_result(&reply(302, Some(b"https://other/"))),
        Err(SamplyBeamError::VaultRedirectError(status(302), "https://other/".to_string()))
    );
    assert_eq!(
        health_check_result(&reply(302, None)),
        Err(SamplyBeamError::VaultRedirectError(
            status(302),
            "(no Location header present)".to_string()
        ))
    );
    assert_eq!(
        health_check_result(&reply(418, None)),
        Err(SamplyBeamError::VaultOtherError("healthcheck returned statuscode 418".to_string()))
    );
    assert_eq!(
        health_check_result(&ProbeReply::Unreachable { report: "connection refused".to_string() }),
        Err(SamplyBeamError::VaultUnreachable("connection refused".to_string()))
    );
}
