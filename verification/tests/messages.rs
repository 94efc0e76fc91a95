use http::HeaderMap as HeaderMap0;
use hyper::HeaderMap as HeaderMap1;
use hyper_compat::body::{HyperBodyToLegacyStream, LegacyBodyToHyperBody};
use hyper_compat::error::ConversionError;
use hyper_compat::message::{
    convert_method_1_to_0, convert_request, convert_response, convert_status_0_to_1,
    convert_uri_1_to_0, Request, Response,
};
use hyper_compat::service::{CallAction, CallEvent, LegacyTowerServiceAsHyper1Service};
use hyper_compat::version::{convert_version_0_to_1, convert_version_1_to_0, HttpVersion};

const VERSIONS: [HttpVersion; 6] = [
    HttpVersion::Http09,
    HttpVersion::Http10,
    HttpVersion::Http11,
    HttpVersion::Http2,
    HttpVersion::Http3,
    HttpVersion::Unknown,
];

fn request(method: &str, uri: &str) -> Request<HeaderMap1, &'static str> {
    let mut headers = HeaderMap1::new();
    headers.append("host", "localhost".parse().unwrap());
    headers.append("cookie", "a".parse().unwrap());
    headers.append("cookie", "b".parse().unwrap());
    Request {
        method: method.to_owned(),
        uri: uri.to_owned(),
        version: HttpVersion::Http3,
        headers,
        body: "payload",
    }
}

fn response(status: u16) -> Response<HeaderMap0, &'static str> {
    let mut headers = HeaderMap0::new();
    headers.append("content-type", "text/plain".parse().unwrap());
    headers.append("set-cookie", "a".parse().unwrap());
    headers.append("set-cookie", "b".parse().unwrap());
    Response { status, version: HttpVersion::Http2, headers, body: "payload" }
}

#[test]
fn shared_versions_are_kept_and_others_become_http_11() {
    let expected = [
        HttpVersion::Http09,
        HttpVersion::Http10,
        HttpVersion::Http11,
        HttpVersion::Http2,
        HttpVersion::Http11,
        HttpVersion::Http11,
    ];
    for (version, expected) in VERSIONS.into_iter().zip(expected) {
        assert_eq!(convert_version_1_to_0(version), expected);
        assert_eq!(convert_version_0_to_1(version), expected);
    }
}

#[test]
fn versions_go_there_and_back() {
    for version in VERSIONS {
        let there = convert_version_1_to_0(version);
        assert_eq!(convert_version_0_to_1(there), there);
    }
}

#[test]
fn methods_are_kept() {
    for method in ["GET", "PUT", "POST", "HEAD", "PATCH", "TRACE", "DELETE", "OPTIONS", "CONNECT"] {
        assert_eq!(convert_method_1_to_0(method).unwrap(), method);
    }
    assert_eq!(convert_method_1_to_0("get").unwrap(), "get");
    assert_eq!(convert_method_1_to_0("M-SEARCH.2!*+^_`|~").unwrap(), "M-SEARCH.2!*+^_`|~");
    assert_eq!(convert_method_1_to_0("QUERY").unwrap(), "QUERY");
}

#[test]
fn methods_of_one_generation_only_are_refused() {
    for method in ["A#B", "A$B", "A%B", "A&B", "A'B"] {
        assert!(hyper::Method::from_bytes(method.as_bytes()).is_ok());
        assert_eq!(convert_method_1_to_0(method), Err(ConversionError::Method));
    }
    assert_eq!(convert_method_1_to_0(""), Err(ConversionError::Method));
    assert_eq!(convert_method_1_to_0("A B"), Err(ConversionError::Method));
    assert_eq!(convert_method_1_to_0("G\u{c9}T"), Err(ConversionError::Method));
}

#[test]
fn local_uris_are_kept() {
    for uri in ["/", "*", "/a/b.c?x=1&y=%20?z", "/?", "/{\"k\":1}", "//x", "/a@b:c;d"] {
        assert_eq!(convert_uri_1_to_0(uri).unwrap(), uri);
    }
}

#[test]
fn uris_are_written_as_the_legacy_crate_writes_them() {
    assert_eq!(convert_uri_1_to_0("http://localhost").unwrap(), "http://localhost/");
    assert_eq!(convert_uri_1_to_0("https://user@host:8080/p?q").unwrap(), "https://user@host:8080/p?q");
    assert_eq!(convert_uri_1_to_0("localhost:443").unwrap(), "localhost:443");
    assert_eq!(convert_uri_1_to_0("/p?q#fragment").unwrap(), "/p?q");
}

#[test]
fn texts_that_are_no_uri_are_refused() {
    for uri in ["", "/a b", "/\u{e9}", "/`", "http://"] {
        assert_eq!(convert_uri_1_to_0(uri), Err(ConversionError::Uri));
    }
    let long = format!("/{}", "a".repeat(65533));
    assert_eq!(convert_uri_1_to_0(&long).unwrap(), long);
    let longer = format!("/{}", "a".repeat(65534));
    assert_eq!(convert_uri_1_to_0(&longer), Err(ConversionError::Uri));
}

#[test]
fn status_codes_have_three_digits() {
    assert_eq!(convert_status_0_to_1(100), Ok(100));
    assert_eq!(convert_status_0_to_1(404), Ok(404));
    assert_eq!(convert_status_0_to_1(999), Ok(999));
    assert_eq!(convert_status_0_to_1(99), Err(ConversionError::Status));
    assert_eq!(convert_status_0_to_1(1000), Err(ConversionError::Status));
    assert_eq!(convert_status_0_to_1(0), Err(ConversionError::Status));
}

#[test]
fn requests_are_converted_part_by_part() {
    let converted = convert_request(request("POST", "http://localhost")).unwrap();
    assert_eq!(converted.method, "POST");
    assert_eq!(converted.uri, "http://localhost/");
    assert_eq!(converted.version, HttpVersion::Http11);
    assert_eq!(converted.headers.len(), 3);
    assert_eq!(converted.headers["host"], "localhost");
    let cookies: Vec<&[u8]> =
        converted.headers.get_all("cookie").iter().map(|value| value.as_bytes()).collect();
    assert_eq!(cookies, vec![b"a", b"b"]);
    assert_eq!(converted.body.body, "payload");
}

#[test]
fn the_first_bad_part_of_a_request_is_reported() {
    assert_eq!(convert_request(request("A#B", "/a b")).unwrap_err(), ConversionError::Method);
    assert_eq!(convert_request(request("GET", "/a b")).unwrap_err(), ConversionError::Uri);
}

#[test]
fn responses_are_converted_part_by_part() {
    let converted = convert_response(response(201)).unwrap();
    assert_eq!(converted.status, 201);
    assert_eq!(converted.version, HttpVersion::Http2);
    assert_eq!(converted.headers.len(), 3);
    assert_eq!(converted.headers["content-type"], "text/plain");
    let cookies: Vec<&[u8]> =
        converted.headers.get_all("set-cookie").iter().map(|value| value.as_bytes()).collect();
    assert_eq!(cookies, vec![b"a", b"b"]);
    assert_eq!(converted.body.body, "payload");
}

#[test]
fn the_first_bad_part_of_a_response_is_reported() {
    let mut bad = response(42);
    bad.headers.append(
        http::header::HeaderName::from_bytes(b"\"").unwrap(),
        http::header::HeaderValue::from_static("v"),
    );
    assert_eq!(convert_response(bad).unwrap_err(), ConversionError::Status);
    let mut bad = response(200);
    bad.headers.append(
        http::header::HeaderName::from_bytes(b"\"").unwrap(),
        http::header::HeaderValue::from_static("v"),
    );
    assert_eq!(convert_response(bad).unwrap_err(), ConversionError::HeaderName);
}

#[test]
fn a_call_forwards_the_request_and_returns_the_response() {
    let adapter = LegacyTowerServiceAsHyper1Service::new("service");
    assert_eq!(adapter.clone().service, "service");

    let called: CallEvent<&str, &str, String> = CallEvent::Called(request("GET", "/a?b"));
    match LegacyTowerServiceAsHyper1Service::<&str>::call(called) {
        Ok(CallAction::Forward(req)) => {
            let stream: HyperBodyToLegacyStream<&str> = req.body;
            assert_eq!((req.method.as_str(), req.uri.as_str()), ("GET", "/a?b"));
            assert_eq!(stream.body, "payload");
        }
        other => panic!("{:?}", other),
    }

    let answered: CallEvent<&str, &str, String> = CallEvent::Answered(Ok(response(204)));
    match LegacyTowerServiceAsHyper1Service::<&str>::call(answered) {
        Ok(CallAction::Return(Ok(res))) => {
            let body: LegacyBodyToHyperBody<&str> = res.body;
            assert_eq!(res.status, 204);
            assert_eq!(body.body, "payload");
        }
        other => panic!("{:?}", other),
    }
}

#[test]
fn a_call_returns_the_error_of_the_service() {
    let answered: CallEvent<&str, &str, String> = CallEvent::Answered(Err("down".to_owned()));
    match LegacyTowerServiceAsHyper1Service::<&str>::call(answered) {
        Ok(CallAction::Return(Err(error))) => assert_eq!(error, "down"),
        other => panic!("{:?}", other),
    }
}

#[test]
fn a_call_with_an_unusable_message_is_an_error() {
    let called: CallEvent<&str, &str, String> = CallEvent::Called(request("A%B", "/"));
    assert_eq!(
        LegacyTowerServiceAsHyper1Service::<&str>::call(called).unwrap_err(),
        ConversionError::Method
    );
    let answered: CallEvent<&str, &str, String> = CallEvent::Answered(Ok(response(7)));
    assert_eq!(
        LegacyTowerServiceAsHyper1Service::<&str>::call(answered).unwrap_err(),
        ConversionError::Status
    );
}
