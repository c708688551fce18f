use beam_pki::crypto::{
    pem_in, serials_in, PkiConfig, VaultMethod, VaultRequest, PKI_CONNECT_TIMEOUT_SECONDS,
    PKI_REQUEST_TIMEOUT_SECONDS,
};
use beam_pki::json::{parse_json, Json};
use beam_pki::retry::{RetryAction, RetryMachine};
use beam_pki::{build_cert_getter, pki_url_builder, GetCertsFromPki, SamplyBeamError};

fn config() -> PkiConfig {
    PkiConfig {
        pki_scheme: "https".to_string(),
        pki_authority: "vault.example:8200".to_string(),
        pki_token: "token-for-tests".to_string(),
        pki_realm: "samply_pki".to_string(),
        user_agent: "beam/0.1".to_string(),
    }
}

fn getter() -> GetCertsFromPki {
    GetCertsFromPki::new(config(), None, &Vec::new()).unwrap()
}

fn headers() -> Vec<(String, String)> {
    vec![
        ("X-Vault-Token".to_string(), "token-for-tests".to_string()),
        ("User-Agent".to_string(), "beam/0.1".to_string()),
    ]
}

fn other(detail: &str) -> SamplyBeamError {
    SamplyBeamError::VaultOtherError(detail.to_string())
}

#[test]
fn urls_lie_under_v1() {
    assert_eq!(
        pki_url_builder("https", "vault.example:8200", "sys/health"),
        Ok("https://vault.example:8200/v1/sys/health".to_string())
    );
    assert_eq!(pki_url_builder("http", "localhost", ""), Ok("http://localhost/v1/".to_string()));
    assert_eq!(
        pki_url_builder("https", "vault", "realm/certs?list=true"),
        Ok("https://vault/v1/realm/certs?list=true".to_string())
    );
}

#[test]
fn parts_that_make_no_url_fail_the_build() {
    assert_eq!(
        pki_url_builder("https", "vault.example:8200", "samply pki/certs"),
        Err(SamplyBeamError::HttpRequestBuildError("invalid uri character".to_string()))
    );
    assert!(matches!(
        pki_url_builder("https", "vault example", "sys/health"),
        Err(SamplyBeamError::HttpRequestBuildError(_))
    ));
    assert!(matches!(
        pki_url_builder("ht tp", "vault.example", "sys/health"),
        Err(SamplyBeamError::HttpRequestBuildError(_))
    ));
    let bad = GetCertsFromPki::new(
        PkiConfig { pki_realm: "samply pki".to_string(), ..config() },
        None,
        &Vec::new(),
    )
    .unwrap();
    assert!(matches!(
        bad.certificate_list_request(),
        Err(SamplyBeamError::HttpRequestBuildError(_))
    ));
    assert!(matches!(
        getter().certificate_by_serial_request("12 ab"),
        Err(SamplyBeamError::HttpRequestBuildError(_))
    ));
    assert!(matches!(
        getter().resilient_vault_request(VaultMethod::Get, "a b", Some(1)),
        Err(SamplyBeamError::HttpRequestBuildError(_))
    ));
    assert!(getter().health_request().is_ok());
}

#[test]
fn certificate_list_round_trip() {
    let body = b"{\"data\":{\"keys\":[\"serial-A\",\"serial-B\"]}}".to_vec();
    assert_eq!(
        getter().certificate_list(Ok(body)),
        Ok(vec!["serial-A".to_string(), "serial-B".to_string()])
    );
}

#[test]
fn certificate_list_keeps_the_order_and_ignores_other_members() {
    let body = b"{\"request_id\":\"1\",\"lease_id\":\"\",\"renewable\":false,\"lease_duration\":0,\"data\":{\"keys\":[\"z\",\"a\",\"m\",\"a\"],\"more\":1},\"wrap_info\":null,\"warnings\":null,\"auth\":null}".to_vec();
    assert_eq!(
        getter().certificate_list(Ok(body)),
        Ok(vec!["z".to_string(), "a".to_string(), "m".to_string(), "a".to_string()])
    );
    assert_eq!(getter().certificate_list(Ok(b"{\"data\":{\"keys\":[]}}".to_vec())), Ok(Vec::new()));
}

#[test]
fn certificate_list_rejects_what_is_not_json() {
    let result = getter().certificate_list(Ok(b"{\"data\":".to_vec()));
    match result {
        Err(SamplyBeamError::VaultOtherError(detail)) => {
            assert!(detail.starts_with("Cannot deserialize vault certificate list: "));
            assert!(detail.contains("EOF"));
        }
        other => panic!("{:?}", other),
    }
}

#[test]
fn certificate_list_rejects_documents_without_keys() {
    let missing = other("Cannot deserialize vault certificate list: no list of strings at `data.keys`");
    let bodies: Vec<&[u8]> = vec![
        b"{}",
        b"[]",
        b"null",
        b"{\"data\":{}}",
        b"{\"data\":[]}",
        b"{\"data\":{\"keys\":{}}}",
        b"{\"data\":{\"keys\":[\"a\",1]}}",
        b"{\"keys\":[\"a\"]}",
    ];
    for body in bodies {
        assert_eq!(getter().certificate_list(Ok(body.to_vec())), Err(missing.clone()));
    }
}

#[test]
fn certificate_list_reports_an_unreadable_body() {
    assert_eq!(
        getter().certificate_list(Err("connection reset".to_string())),
        Err(other("Cannot retrieve vault certificate list: connection reset"))
    );
}

#[test]
fn certificate_comes_back_unchanged() {
    let pem = "-----BEGIN CERTIFICATE-----\nMIIB\u{e9}\n-----END CERTIFICATE-----\n";
    assert_eq!(
        getter().certificate_by_serial_as_pem("serial-A", Ok(pem.as_bytes().to_vec())),
        Ok(pem.to_string())
    );
    assert_eq!(getter().im_certificate_as_pem(Ok(pem.as_bytes().to_vec())), Ok(pem.to_string()));
    assert_eq!(getter().im_certificate_as_pem(Ok(Vec::new())), Ok(String::new()));
}

#[test]
fn certificate_that_is_not_text_is_refused() {
    assert_eq!(
        getter().certificate_by_serial_as_pem("serial-A", Ok(vec![b'a', 0xff, b'b'])),
        Err(other(
            "Cannot parse certificate serial-A: invalid utf-8 sequence of 1 bytes from index 1"
        ))
    );
    assert_eq!(
        getter().im_certificate_as_pem(Ok(vec![0xc3])),
        Err(other("Cannot parse im-ca certificate: incomplete utf-8 byte sequence from index 0"))
    );
}

#[test]
fn certificate_with_unreadable_body() {
    assert_eq!(
        getter().certificate_by_serial_as_pem("0a:1b", Err("timed out".to_string())),
        Err(other("Cannot retrieve certificate 0a:1b: timed out"))
    );
    assert_eq!(
        getter().im_certificate_as_pem(Err("timed out".to_string())),
        Err(other("Cannot retrieve im-ca certificate: timed out"))
    );
}

#[test]
fn text_bodies() {
    assert_eq!(pem_in("thing", Ok(b"abc".to_vec())), Ok("abc".to_string()));
    assert_eq!(
        pem_in("thing", Err("gone".to_string())),
        Err(other("Cannot retrieve thing: gone"))
    );
}

#[test]
fn requests_carry_token_and_agent() {
    let getter = getter();
    assert!(
        getter.health_request()
            == Ok(VaultRequest {
                method: VaultMethod::Get,
                url: "https://vault.example:8200/v1/sys/health".to_string(),
                headers: headers(),
            })
    );
    let (request, machine) = getter.certificate_list_request().ok().unwrap();
    assert!(
        request
            == VaultRequest {
                method: VaultMethod::List,
                url: "https://vault.example:8200/v1/samply_pki/certs".to_string(),
                headers: headers(),
            }
    );
    assert_eq!(machine, RetryMachine::new(None));
    let (request, machine) = getter.certificate_by_serial_request("12:ab").ok().unwrap();
    assert!(
        request
            == VaultRequest {
                method: VaultMethod::Get,
                url: "https://vault.example:8200/v1/samply_pki/cert/12:ab/raw/pem".to_string(),
                headers: headers(),
            }
    );
    assert_eq!(machine.max_tries(), None);
    let (request, _) = getter.im_certificate_request().ok().unwrap();
    assert_eq!(request.url, "https://vault.example:8200/v1/samply_pki/ca/pem");
    assert_eq!(request.method, VaultMethod::Get);
}

#[test]
fn resilient_request_starts_fresh() {
    let getter = getter();
    let (request, mut machine) =
        getter.resilient_vault_request(VaultMethod::List, "some/path", Some(3)).ok().unwrap();
    assert!(Ok(request.clone()) == getter.request(VaultMethod::List, "some/path"));
    assert!(
        request
            == getter.request_to(VaultMethod::List, "https://vault.example:8200/v1/some/path".to_string())
    );
    assert_eq!(request.url, "https://vault.example:8200/v1/some/path");
    assert_eq!(machine.max_tries(), Some(3));
    assert_eq!(machine.tries(), 0);
    assert_eq!(machine.start(), RetryAction::Send { pause: false });
}

#[test]
fn method_names() {
    assert_eq!(VaultMethod::Get.as_str(), "GET");
    assert_eq!(VaultMethod::List.as_str(), "LIST");
}

#[test]
fn gateway_keeps_what_it_was_given() {
    let paths = vec!["/certs/a.pem".to_string(), "/certs/b.pem".to_string()];
    let getter = build_cert_getter(config(), Some(Ok(paths.clone())), &Vec::new()).unwrap();
    assert_eq!(getter.pki_realm(), "samply_pki");
    assert_eq!(getter.local_certificates(), &paths);
    assert!(getter.transport_summary().ends_with(" and no trusted certificate for TLS termination."));
    let _client = getter.hyper_client();
    let getter = build_cert_getter(config(), None, &Vec::new()).unwrap();
    assert!(getter.local_certificates().is_empty());
}

#[test]
fn unreadable_certificate_directory_fails_the_set_up() {
    let result = build_cert_getter(config(), Some(Err("No such file or directory".to_string())), &Vec::new());
    match result {
        Err(error) => assert_eq!(
            error,
            SamplyBeamError::ConfigurationFailed(
                "Unable to read CA certificates: No such file or directory".to_string()
            )
        ),
        Ok(_) => panic!("set-up passed"),
    }
}

#[test]
fn timeouts_of_the_gateway() {
    assert_eq!(PKI_REQUEST_TIMEOUT_SECONDS, 30);
    assert_eq!(PKI_CONNECT_TIMEOUT_SECONDS, 20);
}

#[test]
fn json_documents_are_read_in_full() {
    let document = parse_json(b" {\"b\": [1, -2, 1.5, true, null, \"x\"], \"a\": {}} ").unwrap();
    assert_eq!(
        document,
        Json::Object(vec![
            ("a".to_string(), Json::Object(Vec::new())),
            (
                "b".to_string(),
                Json::Array(vec![
                    Json::Number("1".to_string()),
                    Json::Number("-2".to_string()),
                    Json::Number("1.5".to_string()),
                    Json::Bool(true),
                    Json::Null,
                    Json::String("x".to_string()),
                ])
            ),
        ])
    );
    assert_eq!(
        parse_json(b"[1,]"),
        Err("trailing comma at line 1 column 4".to_string())
    );
}

#[test]
fn json_members_and_strings() {
    let document = Json::Object(vec![
        ("k".to_string(), Json::Number("1".to_string())),
        ("k".to_string(), Json::Number("2".to_string())),
        ("l".to_string(), Json::Array(vec![Json::String("s".to_string())])),
    ]);
    assert_eq!(document.member("k"), Some(&Json::Number("1".to_string())));
    assert_eq!(document.member("m"), None);
    assert_eq!(Json::Null.member("k"), None);
    assert_eq!(document.member("l").unwrap().strings(), Some(vec!["s".to_string()]));
    assert_eq!(document.strings(), None);
    assert_eq!(Json::Array(vec![Json::Null]).strings(), None);
    assert_eq!(Json::Array(Vec::new()).strings(), Some(Vec::new()));
}

#[test]
fn serials_of_a_parsed_document() {
    let document = Json::Object(vec![(
        "data".to_string(),
        Json::Object(vec![(
            "keys".to_string(),
            Json::Array(vec![Json::String("serial-A".to_string())]),
        )]),
    )]);
    assert_eq!(serials_in(&document), Ok(vec!["serial-A".to_string()]));
    assert_eq!(
        serials_in(&Json::Bool(true)),
        Err(other("Cannot deserialize vault certificate list: no list of strings at `data.keys`"))
    );
}
