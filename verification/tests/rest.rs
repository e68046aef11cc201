use control_plane::rest::{
    reply_kind, rest_error, rest_result, rest_vec_result, ActixRestClient, ClientError,
    JsonGeneric, JsonUnit, ReplyKind, ResponseHead,
};

fn head(status: u16) -> ResponseHead {
    ResponseHead {
        status,
        headers: vec![(String::from("content-type"), String::from("application/json"))],
    }
}

fn json_error() -> serde_json::Error {
    serde_json::from_str::<u8>("x").unwrap_err()
}

#[test]
fn a_client_is_set_up_from_its_url() {
    let client = ActixRestClient::new("https://localhost:8080/", true, None).unwrap();
    assert_eq!(client.url, "https://localhost:8080");
    assert!(client.secure);
    assert!(client.trace);
    assert_eq!(client.bearer_token, None);
    assert_eq!(client.timeout_secs, 5);

    let client =
        ActixRestClient::new_timeout("HTTP://Rest.Example:80/v0//", false, Some(String::from("t")), 9)
            .unwrap();
    assert_eq!(client.url, "http://rest.example/v0");
    assert!(!client.secure);
    assert!(!client.trace);
    assert_eq!(client.bearer_token, Some(String::from("t")));
    assert_eq!(client.timeout_secs, 9);
    assert_eq!(client.uri("/volumes"), "http://rest.example/v0/volumes");
    assert_eq!(client.uri(""), "http://rest.example/v0");
}

#[test]
fn a_client_needs_an_http_url() {
    assert_eq!(
        ActixRestClient::new("ftp://localhost/", false, None).unwrap_err(),
        "Invalid url scheme: ftp"
    );
    assert_eq!(
        ActixRestClient::new("mailto:a@b.c", false, None).unwrap_err(),
        "Invalid url scheme: mailto"
    );
    assert_eq!(
        ActixRestClient::new("localhost:8080/v0", false, None).unwrap_err(),
        "Invalid url scheme: localhost"
    );
    assert_eq!(ActixRestClient::new("/v0/volumes", false, None).unwrap_err(), "Invalid url: /v0/volumes");
    assert_eq!(ActixRestClient::new("", false, None).unwrap_err(), "Invalid url: ");
}

#[test]
fn a_client_is_set_up_from_a_parsed_url() {
    let parsed = Some((String::from("https"), String::from("https://a/b///")));
    let client = ActixRestClient::from_parsed("any", parsed, false, None, 1).unwrap();
    assert_eq!(client.url, "https://a/b");
    assert!(client.secure);
    let parsed = Some((String::from("http"), String::from("///")));
    assert_eq!(ActixRestClient::from_parsed("any", parsed, false, None, 1).unwrap().url, "");
    let parsed = Some((String::from("HTTPS"), String::from("https://a")));
    assert_eq!(
        ActixRestClient::from_parsed("any", parsed, false, None, 1).unwrap_err(),
        "Invalid url scheme: HTTPS"
    );
    assert_eq!(
        ActixRestClient::from_parsed("any", None, false, None, 1).unwrap_err(),
        "Invalid url: any"
    );
}

#[test]
fn errors_say_what_was_being_done() {
    match ActixRestClient::send_error("get", "http://a/v0/nodes", String::from("refused")) {
        ClientError::Send { details, source } => {
            assert_eq!(details, "Failed to get uri http://a/v0/nodes");
            assert_eq!(source, "refused");
        }
        other => panic!("not a send error: {:?}", other),
    }
    match ClientError::filter("no node") {
        ClientError::InvalidFilter { details } => assert_eq!(details, "no node"),
        other => panic!("not a filter error: {:?}", other),
    }
}

#[test]
fn a_reply_is_read_by_its_status_and_body() {
    for status in [200, 201, 204, 299] {
        assert_eq!(reply_kind(status, true), ReplyKind::Success);
        assert_eq!(reply_kind(status, false), ReplyKind::Success);
    }
    for status in [0, 100, 199, 300, 404, 500, u16::MAX] {
        assert_eq!(reply_kind(status, true), ReplyKind::BareFailure);
        assert_eq!(reply_kind(status, false), ReplyKind::Failure);
    }
}

#[test]
fn a_successful_reply_holds_the_value_asked_for() {
    assert_eq!(rest_result(head(200), b"7".to_vec(), Ok(7u8), None).unwrap(), 7);
    assert_eq!(rest_result(head(200), Vec::new(), Ok(7u8), Some(0)).unwrap(), 7);
    assert_eq!(rest_result(head(204), Vec::new(), Err(json_error()), Some(())).unwrap(), ());
    match rest_result::<u8>(head(200), Vec::new(), Err(json_error()), None) {
        Err(ClientError::InvalidBody { head, body, .. }) => {
            assert_eq!(head.status, 200);
            assert!(body.is_empty());
        }
        other => panic!("not an invalid body: {:?}", other),
    }
    match rest_result(head(200), b"x".to_vec(), Err(json_error()), Some(())) {
        Err(ClientError::InvalidBody { head, body, source }) => {
            assert_eq!(head.status, 200);
            assert_eq!(head.headers.len(), 1);
            assert_eq!(body, b"x");
            assert_eq!(source.to_string(), json_error().to_string());
        }
        other => panic!("not an invalid body: {:?}", other),
    }
}

#[test]
fn a_reply_that_reports_a_failure_is_never_a_value() {
    for status in [0, 199, 300, 404, 500] {
        match rest_result(head(status), b"7".to_vec(), Ok(7u8), None) {
            Err(ClientError::RestServer { head, error }) => {
                assert_eq!(head.status, status);
                assert_eq!(error, 7);
            }
            other => panic!("not a described failure: {:?}", other),
        }
        match rest_result(head(status), Vec::new(), Ok(()), Some(())) {
            Err(ClientError::Header { head }) => assert_eq!(head.status, status),
            other => panic!("not a bare failure: {:?}", other),
        }
        match rest_result(head(status), b"x".to_vec(), Err(json_error()), Some(())) {
            Err(ClientError::InvalidBody { head, body, .. }) => {
                assert_eq!(head.status, status);
                assert_eq!(body, b"x");
            }
            other => panic!("not an invalid body: {:?}", other),
        }
        match rest_vec_result(head(status), b"[1,2]".to_vec(), Ok(vec![1u8, 2]), Err(json_error())) {
            Err(ClientError::RestServer { head, error }) => {
                assert_eq!(head.status, status);
                assert_eq!(error[1], 2);
            }
            other => panic!("not a described failure: {:?}", other),
        }
        match rest_vec_result(head(status), Vec::new(), Ok(Vec::<u8>::new()), Ok(1)) {
            Err(ClientError::Header { head }) => assert_eq!(head.status, status),
            other => panic!("not a bare failure: {:?}", other),
        }
        match rest_vec_result::<u8>(head(status), b"{".to_vec(), Err(json_error()), Ok(3)) {
            Err(ClientError::InvalidBody { body, .. }) => assert_eq!(body, b"{"),
            other => panic!("not an invalid body: {:?}", other),
        }
    }
}

#[test]
fn one_value_stands_for_a_list_of_one() {
    assert_eq!(
        rest_vec_result(head(200), b"[1,2]".to_vec(), Ok(vec![1u8, 2]), Err(json_error())).unwrap(),
        vec![1, 2]
    );
    assert_eq!(
        rest_vec_result(head(200), b"[]".to_vec(), Ok(Vec::<u8>::new()), Ok(9)).unwrap(),
        Vec::<u8>::new()
    );
    assert_eq!(rest_vec_result(head(200), b"3".to_vec(), Err(json_error()), Ok(3u8)).unwrap(), vec![3]);
    match rest_vec_result::<u8>(head(200), b"x".to_vec(), Err(json_error()), Err(json_error())) {
        Err(ClientError::InvalidBody { head, body, .. }) => {
            assert_eq!(head.status, 200);
            assert_eq!(body, b"x");
        }
        other => panic!("not an invalid body: {:?}", other),
    }
}

#[test]
fn a_failure_is_told_by_its_body() {
    match rest_error(head(404), Vec::new()) {
        ClientError::Header { head } => assert_eq!(head.status, 404),
        other => panic!("not a bare failure: {:?}", other),
    }
    match rest_error(head(422), b"{\"kind\":\"AlreadyExists\",\"size\":1024}".to_vec()) {
        ClientError::RestServer { head, error } => {
            assert_eq!(head.status, 422);
            assert_eq!(error["kind"], "AlreadyExists");
            assert_eq!(error["size"], 1024);
        }
        other => panic!("not a described failure: {:?}", other),
    }
    match rest_error(head(500), b"null".to_vec()) {
        ClientError::RestServer { error, .. } => assert!(error.is_null()),
        other => panic!("not a described failure: {:?}", other),
    }
    for body in [&b"not json"[..], &b"{"[..], &b"1 2"[..], &b" "[..], &b"\xff"[..]] {
        match rest_error(head(500), body.to_vec()) {
            ClientError::InvalidBody { head, body: kept, .. } => {
                assert_eq!(head.status, 500);
                assert_eq!(kept, body);
            }
            other => panic!("not an invalid body: {:?}", other),
        }
    }
}

#[test]
fn json_values_are_carried_unchanged() {
    let value = serde_json::from_str::<serde_json::Value>("{ \"size\": 1024 }").unwrap();
    let generic = JsonGeneric::from(value.clone());
    assert_eq!(generic.into_inner(), value);
    assert_eq!(JsonUnit::from(()), JsonUnit);
    assert_eq!(JsonUnit::default(), JsonUnit {});
    assert_eq!(JsonUnit.status_code(), 204);
}
