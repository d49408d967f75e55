use alibaba_cloud_kms::metadata::{
    DEFAULT_META_SERVER_HOST, LOCAL_META_SERVER_HOST, METADATA_TIMEOUT_SECS, TOKEN_HEADER,
    TOKEN_TTL_HEADER, TOKEN_TTL_SECONDS,
};
use alibaba_cloud_kms::payload::material_from_body;
use alibaba_cloud_kms::{
    CredentialError, FetchStage, FetchStep, GetRamSecurityCredentialsResponse, HttpMethod,
    HttpReply, MetadataRequest, RoleFetch, TransportFailure,
};

const BODY: &str = r#"{
  "AccessKeyId" : "STS.NUgYrLnoC37mZZCNnAbez****",
  "AccessKeySecret" : "CVwjCkNzTMupZ8NbTCxCBRq3K16jtcWFTJAyBEv2****",
  "Expiration" : "2024-12-28T08:01:20Z",
  "SecurityToken" : "CAIS8QF1q6Ft5B2yfSjIr5fYEeju1b1P2Y3S****",
  "LastUpdated" : "2024-12-28T02:01:20Z",
  "Code" : "Success"
}"#;

fn ok(body: &str) -> HttpReply {
    HttpReply::Response { status: 200, body: body.to_string() }
}

fn invalid(text: &str) -> CredentialError {
    CredentialError::InvalidMetadataResponse(text.to_string())
}

#[test]
fn metadata_constants() {
    assert_eq!(DEFAULT_META_SERVER_HOST, "100.100.100.200");
    assert_eq!(LOCAL_META_SERVER_HOST, "127.0.0.1");
    assert_eq!(TOKEN_TTL_HEADER, "X-aliyun-ecs-metadata-token-ttl-seconds");
    assert_eq!(TOKEN_TTL_SECONDS, "3600");
    assert_eq!(TOKEN_HEADER, "X-aliyun-ecs-metadata-token");
    assert_eq!(METADATA_TIMEOUT_SECS, 5);
}

#[test]
fn plain_fetch_asks_for_credentials_without_a_token() {
    let fetch = RoleFetch::start("worker", false, "100.100.100.200");
    assert_eq!(fetch.stage, FetchStage::AwaitingCredentials { token: None });
    assert_eq!(
        fetch.request(),
        MetadataRequest {
            method: HttpMethod::Get,
            url: "http://100.100.100.200/latest/meta-data/ram/security-credentials/worker"
                .to_string(),
            header: None,
            timeout_secs: 5,
        }
    );
}

#[test]
fn hardened_fetch_negotiates_first() {
    let fetch = RoleFetch::start("worker", true, "127.0.0.1");
    assert_eq!(fetch.stage, FetchStage::AwaitingToken);
    assert_eq!(
        fetch.request(),
        MetadataRequest {
            method: HttpMethod::Put,
            url: "http://127.0.0.1/latest/api/token".to_string(),
            header: Some((
                "X-aliyun-ecs-metadata-token-ttl-seconds".to_string(),
                "3600".to_string()
            )),
            timeout_secs: 5,
        }
    );
    let next = match fetch.advance(ok("the-token")) {
        FetchStep::Send(next) => next,
        other => panic!("expected the credentials call, got {:?}", other),
    };
    assert_eq!(next.role_name, "worker");
    assert_eq!(next.host, "127.0.0.1");
    assert_eq!(next.stage, FetchStage::AwaitingCredentials { token: Some("the-token".to_string()) });
    assert_eq!(
        next.request(),
        MetadataRequest {
            method: HttpMethod::Get,
            url: "http://127.0.0.1/latest/meta-data/ram/security-credentials/worker".to_string(),
            header: Some(("X-aliyun-ecs-metadata-token".to_string(), "the-token".to_string())),
            timeout_secs: 5,
        }
    );
    match next.advance(ok(BODY)) {
        FetchStep::Done(Ok(material)) => {
            assert_eq!(material.access_key_id(), "STS.NUgYrLnoC37mZZCNnAbez****");
            assert_eq!(
                material.access_key_secret(),
                "CVwjCkNzTMupZ8NbTCxCBRq3K16jtcWFTJAyBEv2****"
            );
            assert_eq!(material.session_token(), Some("CAIS8QF1q6Ft5B2yfSjIr5fYEeju1b1P2Y3S****"));
        }
        other => panic!("expected material, got {:?}", other),
    }
}

#[test]
fn failed_negotiation_never_reaches_the_credentials_call() {
    for reply in [
        HttpReply::Response { status: 500, body: "token".to_string() },
        HttpReply::Response { status: 199, body: "token".to_string() },
        HttpReply::Response { status: 300, body: "token".to_string() },
        HttpReply::Response { status: 404, body: String::new() },
    ] {
        let status = match &reply {
            HttpReply::Response { status, .. } => *status,
            HttpReply::Failure(_) => unreachable!(),
        };
        let fetch = RoleFetch::start("worker", true, "100.100.100.200");
        assert_eq!(
            fetch.advance(reply),
            FetchStep::Done(Err(CredentialError::MetadataTokenError(TransportFailure::Status(
                status
            ))))
        );
    }
    let fetch = RoleFetch::start("worker", true, "100.100.100.200");
    assert_eq!(
        fetch.advance(HttpReply::Failure("connection refused".to_string())),
        FetchStep::Done(Err(CredentialError::MetadataTokenError(TransportFailure::Network(
            "connection refused".to_string()
        ))))
    );
}

#[test]
fn status_bounds_of_success() {
    for status in [200u16, 204, 299] {
        let fetch = RoleFetch::start("worker", true, "h");
        let reply = HttpReply::Response { status, body: "t".to_string() };
        assert!(matches!(fetch.advance(reply), FetchStep::Send(_)));
        let reply = HttpReply::Response { status, body: "t".to_string() };
        assert_eq!(reply.into_body(), Ok("t".to_string()));
    }
    assert_eq!(
        HttpReply::Response { status: 0, body: "t".to_string() }.into_body(),
        Err(TransportFailure::Status(0))
    );
    assert_eq!(
        HttpReply::Failure("gone".to_string()).into_body(),
        Err(TransportFailure::Network("gone".to_string()))
    );
}

#[test]
fn failed_credentials_call() {
    let fetch = RoleFetch::start("worker", false, "h");
    assert_eq!(
        fetch.advance(HttpReply::Response { status: 404, body: BODY.to_string() }),
        FetchStep::Done(Err(CredentialError::MetadataFetchError(TransportFailure::Status(404))))
    );
    let fetch = RoleFetch::start("worker", false, "h");
    assert_eq!(
        fetch.advance(HttpReply::Failure("timed out".to_string())),
        FetchStep::Done(Err(CredentialError::MetadataFetchError(TransportFailure::Network(
            "timed out".to_string()
        ))))
    );
}

#[test]
fn payload_is_read_member_by_member() {
    let payload = GetRamSecurityCredentialsResponse::parse(BODY).unwrap();
    assert_eq!(
        payload,
        GetRamSecurityCredentialsResponse {
            access_key_id: "STS.NUgYrLnoC37mZZCNnAbez****".to_string(),
            access_key_secret: "CVwjCkNzTMupZ8NbTCxCBRq3K16jtcWFTJAyBEv2****".to_string(),
            expiration: "2024-12-28T08:01:20Z".to_string(),
            security_token: "CAIS8QF1q6Ft5B2yfSjIr5fYEeju1b1P2Y3S****".to_string(),
            last_updated: "2024-12-28T02:01:20Z".to_string(),
            code: "Success".to_string(),
        }
    );
    let material = payload.material().unwrap();
    assert_eq!(material.access_key_id(), "STS.NUgYrLnoC37mZZCNnAbez****");
}

#[test]
fn payload_with_escapes_and_extra_members() {
    let body = r#"{"Extra":[1,2,{"AccessKeyId":"no"}],"AccessKeyId":"aA\"b","AccessKeySecret":"s\\n",
        "Expiration":"","SecurityToken":"t","LastUpdated":"","Code":"Success","More":null}"#;
    let payload = GetRamSecurityCredentialsResponse::parse(body).unwrap();
    assert_eq!(payload.access_key_id, "aA\"b");
    assert_eq!(payload.access_key_secret, "s\\n");
    assert_eq!(payload.expiration, "");
}

#[test]
fn payload_that_is_not_json() {
    assert_eq!(
        GetRamSecurityCredentialsResponse::parse("").err(),
        Some(invalid("EOF while parsing a value at line 1 column 0"))
    );
    assert_eq!(
        GetRamSecurityCredentialsResponse::parse("<html>").err(),
        Some(invalid("expected value at line 1 column 1"))
    );
    assert_eq!(
        GetRamSecurityCredentialsResponse::parse("{\"AccessKeyId\":\"a\"").err(),
        Some(invalid("EOF while parsing an object at line 1 column 18"))
    );
    assert_eq!(
        GetRamSecurityCredentialsResponse::parse("{} x").err(),
        Some(invalid("trailing characters at line 1 column 4"))
    );
    assert_eq!(material_from_body("worker").err(), Some(invalid("expected value at line 1 column 1")));
}

#[test]
fn payload_that_lacks_a_member() {
    let members = [
        "AccessKeyId",
        "AccessKeySecret",
        "Expiration",
        "SecurityToken",
        "LastUpdated",
        "Code",
    ];
    for missing in members {
        let mut body = String::from("{");
        for name in members {
            if name != missing {
                if body.len() > 1 {
                    body.push(',');
                }
                let value = if name == "Code" { "Success" } else { "x" };
                body.push_str(&format!("\"{}\":\"{}\"", name, value));
            }
        }
        body.push('}');
        let expected = invalid(&format!("missing field `{}`", missing));
        assert_eq!(GetRamSecurityCredentialsResponse::parse(&body).err(), Some(expected.clone()));
        assert_eq!(material_from_body(&body).err(), Some(expected));
    }
    assert_eq!(
        GetRamSecurityCredentialsResponse::parse("{}").err(),
        Some(invalid("missing field `AccessKeyId`"))
    );
    assert_eq!(
        GetRamSecurityCredentialsResponse::parse("[]").err(),
        Some(invalid("missing field `AccessKeyId`"))
    );
    assert_eq!(
        GetRamSecurityCredentialsResponse::parse("\"AccessKeyId\"").err(),
        Some(invalid("missing field `AccessKeyId`"))
    );
}

#[test]
fn payload_member_of_the_wrong_kind_or_case() {
    let body = BODY.replace("\"STS.NUgYrLnoC37mZZCNnAbez****\"", "17");
    assert_eq!(
        GetRamSecurityCredentialsResponse::parse(&body).err(),
        Some(invalid("missing field `AccessKeyId`"))
    );
    let body = BODY.replace("\"CVwjCkNzTMupZ8NbTCxCBRq3K16jtcWFTJAyBEv2****\"", "null");
    assert_eq!(
        GetRamSecurityCredentialsResponse::parse(&body).err(),
        Some(invalid("missing field `AccessKeySecret`"))
    );
    let body = BODY.replace("AccessKeyId", "accessKeyId");
    assert_eq!(
        GetRamSecurityCredentialsResponse::parse(&body).err(),
        Some(invalid("missing field `AccessKeyId`"))
    );
}

#[test]
fn payload_without_the_success_code() {
    let body = BODY.replace("Success", "InvalidRole");
    let payload = GetRamSecurityCredentialsResponse::parse(&body).unwrap();
    assert_eq!(payload.code, "InvalidRole");
    assert_eq!(payload.material().err(), Some(invalid("unexpected response code `InvalidRole`")));
    assert_eq!(
        material_from_body(&body).err(),
        Some(invalid("unexpected response code `InvalidRole`"))
    );
    let body = BODY.replace("Success", "success");
    assert_eq!(
        material_from_body(&body).err(),
        Some(invalid("unexpected response code `success`"))
    );
    let body = BODY.replace("Success", "");
    assert_eq!(material_from_body(&body).err(), Some(invalid("unexpected response code ``")));
}

#[test]
fn payload_with_empty_credentials() {
    let body = BODY.replace("STS.NUgYrLnoC37mZZCNnAbez****", "");
    assert_eq!(material_from_body(&body).err(), Some(CredentialError::IncompleteCredential));
    let body = BODY.replace("CVwjCkNzTMupZ8NbTCxCBRq3K16jtcWFTJAyBEv2****", "");
    assert_eq!(material_from_body(&body).err(), Some(CredentialError::IncompleteCredential));
    let fetch = RoleFetch::start("worker", false, "h");
    assert_eq!(
        fetch.advance(ok(&body)),
        FetchStep::Done(Err(CredentialError::IncompleteCredential))
    );
}

#[test]
fn payload_with_empty_token_has_no_token() {
    let body = BODY.replace("CAIS8QF1q6Ft5B2yfSjIr5fYEeju1b1P2Y3S****", "");
    let material = material_from_body(&body).unwrap();
    assert_eq!(material.session_token(), None);
    assert_eq!(material.access_key_id(), "STS.NUgYrLnoC37mZZCNnAbez****");
}

#[test]
fn payload_from_members() {
    let s = |t: &str| Some(t.to_string());
    assert_eq!(
        GetRamSecurityCredentialsResponse::from_members(
            s("a"),
            s("b"),
            s("c"),
            s("d"),
            s("e"),
            s("f")
        ),
        Ok(GetRamSecurityCredentialsResponse {
            access_key_id: "a".to_string(),
            access_key_secret: "b".to_string(),
            expiration: "c".to_string(),
            security_token: "d".to_string(),
            last_updated: "e".to_string(),
            code: "f".to_string(),
        })
    );
    assert_eq!(
        GetRamSecurityCredentialsResponse::from_members(s("a"), None, None, s("d"), s("e"), None)
            .err(),
        Some(invalid("missing field `AccessKeySecret`"))
    );
    assert_eq!(
        GetRamSecurityCredentialsResponse::from_members(s("a"), s("b"), s("c"), s("d"), None, None)
            .err(),
        Some(invalid("missing field `LastUpdated`"))
    );
}

#[test]
fn role_name_goes_into_the_url_as_it_is() {
    let fetch = RoleFetch::start("", false, "100.100.100.200");
    assert_eq!(
        fetch.request().url,
        "http://100.100.100.200/latest/meta-data/ram/security-credentials/"
    );
    let fetch = RoleFetch::start("rôle/ä", false, "[::1]:8080");
    assert_eq!(
        fetch.request().url,
        "http://[::1]:8080/latest/meta-data/ram/security-credentials/rôle/ä"
    );
}
