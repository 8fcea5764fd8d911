use iot_service::http_handling::{
    assemble, buffer_to_request, classify_method, same_text, vet, vet_headers, Header, HttpError,
    Method, RawHead, Target, Version, Vetting, MAX_HEADERS,
};

fn head(method: Option<&str>, path: Option<&str>, version: Option<u8>) -> RawHead {
    RawHead {
        header_len: 0,
        method: method.map(String::from),
        path: path.map(String::from),
        version,
        headers: Vec::new(),
    }
}

fn vetting(method_valid: bool, target: Option<(&str, Option<&str>)>, headers: Option<Vec<Header>>) -> Vetting {
    Vetting {
        method_valid,
        target: target.map(|(path, query)| Target { path: path.to_string(), query: query.map(String::from) }),
        headers,
    }
}

#[test]
fn decodes_a_get_request_with_query() {
    let request = buffer_to_request(
        b"GET /api/v1/?device_id=1&time_start=50 HTTP/1.1\r\nHost: example\r\n\r\n",
    )
    .unwrap();
    assert_eq!(request.method, Method::Get);
    assert_eq!(request.path, "/api/v1/");
    assert_eq!(request.query.as_deref(), Some("device_id=1&time_start=50"));
    assert_eq!(request.version, Version::Http11);
    assert_eq!(request.headers.len(), 1);
    assert_eq!(request.headers[0].name, "host");
    assert_eq!(request.headers[0].value, b"example".to_vec());
    assert!(request.body.is_empty());
}

#[test]
fn decodes_a_post_request_with_body() {
    let buffer = b"POST /api/v1/ HTTP/1.0\r\nContent-Length: 7\r\nX-Trace: a b\r\n\r\n{\"a\":1}";
    let request = buffer_to_request(buffer).unwrap();
    assert_eq!(request.method, Method::Post);
    assert_eq!(request.path, "/api/v1/");
    assert_eq!(request.query, None);
    assert_eq!(request.version, Version::Http10);
    assert_eq!(request.headers.len(), 2);
    assert_eq!(request.headers[0].name, "content-length");
    assert_eq!(request.headers[0].value, b"7".to_vec());
    assert_eq!(request.headers[1].name, "x-trace");
    assert_eq!(request.headers[1].value, b"a b".to_vec());
    assert_eq!(request.body, b"{\"a\":1}".to_vec());
}

#[test]
fn body_is_everything_after_the_head() {
    let request = buffer_to_request(b"PUT / HTTP/1.1\r\n\r\n\r\n\r\nrest\x00\xff").unwrap();
    assert_eq!(request.method, Method::Put);
    assert_eq!(request.body, b"\r\n\r\nrest\x00\xff".to_vec());
}

#[test]
fn other_methods_are_kept_as_other() {
    let request = buffer_to_request(b"PATCH /x HTTP/1.1\r\n\r\n").unwrap();
    assert_eq!(request.method, Method::Other);
    let request = buffer_to_request(b"get /x HTTP/1.1\r\n\r\n").unwrap();
    assert_eq!(request.method, Method::Other);
    let request = buffer_to_request(b"DELETE /x HTTP/1.1\r\n\r\n").unwrap();
    assert_eq!(request.method, Method::Delete);
}

#[test]
fn unfinished_head_is_incomplete() {
    assert_eq!(buffer_to_request(b"GET / HTTP/1.1\r\nHost:").unwrap_err(), HttpError::IncompleteHeader);
    assert_eq!(buffer_to_request(b"").unwrap_err(), HttpError::IncompleteHeader);
    assert_eq!(buffer_to_request(b"GET / HTTP/1.1\r\n").unwrap_err(), HttpError::IncompleteHeader);
}

#[test]
fn malformed_head_is_invalid_content() {
    assert_eq!(buffer_to_request(b"GET /\r\n\r\n").unwrap_err(), HttpError::InvalidContent);
    assert_eq!(buffer_to_request(b"G\x00T / HTTP/1.1\r\n\r\n").unwrap_err(), HttpError::InvalidContent);
    assert_eq!(
        buffer_to_request(b"GET / HTTP/1.1\r\nBad Name: x\r\n\r\n").unwrap_err(),
        HttpError::InvalidContent
    );
}

#[test]
fn unrecognized_version_is_an_error_of_its_own() {
    assert_eq!(buffer_to_request(b"GET / HTTP/2.0\r\n\r\n").unwrap_err(), HttpError::InvalidVersion);
    assert_eq!(buffer_to_request(b"GET / HTTP/1.2\r\n\r\n").unwrap_err(), HttpError::InvalidVersion);
    assert_eq!(buffer_to_request(b"GET / HTTX/1.1\r\n\r\n").unwrap_err(), HttpError::InvalidVersion);
    assert_eq!(buffer_to_request(b"GET / http/1.1\r\n\r\n").unwrap_err(), HttpError::InvalidVersion);
    assert_eq!(buffer_to_request(b"GET / HT").unwrap_err(), HttpError::IncompleteHeader);
}

#[test]
fn methods_are_tokens_of_method_characters() {
    let allowed = "!*+-.^_`|~09AZaz";
    for c in allowed.chars() {
        let mut raw = head(Some(&c.to_string()), Some("/"), Some(1));
        raw.headers.clear();
        assert!(vet(&raw).method_valid, "{:?}", c);
    }
    for c in "#$%&'\"(),/:;<=>?@[\\]{} \t\u{7f}\u{e9}".chars() {
        let text = format!("GE{}T", c);
        assert!(!vet(&head(Some(&text), Some("/"), Some(1))).method_valid, "{:?}", c);
    }
    assert!(!vet(&head(Some(""), Some("/"), Some(1))).method_valid);
    assert!(vet(&head(Some("A-VERY-LONG-METHOD-NAME-OF-MORE-THAN-FIFTEEN-BYTES"), Some("/"), Some(1))).method_valid);
    for byte in 0u8..128 {
        let c = byte as char;
        let by_table = c.is_ascii_alphanumeric() || "!*+-.^_`|~".contains(c);
        assert_eq!(vet(&head(Some(&c.to_string()), Some("/"), Some(1))).method_valid, by_table, "{:?}", c);
    }
}

#[test]
fn more_headers_than_slots_is_a_bounded_failure() {
    assert_eq!(MAX_HEADERS, 16);
    let mut full = b"GET / HTTP/1.1\r\n".to_vec();
    for i in 0..16 {
        full.extend_from_slice(format!("H{}: v\r\n", i).as_bytes());
    }
    let mut over = full.clone();
    full.extend_from_slice(b"\r\n");
    over.extend_from_slice(b"H16: v\r\n\r\n");
    assert_eq!(buffer_to_request(&full).unwrap().headers.len(), 16);
    assert_eq!(buffer_to_request(&over).unwrap_err(), HttpError::InvalidContent);
}

#[test]
fn target_that_is_no_uri_is_refused() {
    assert_eq!(buffer_to_request(b"GET /a<b HTTP/1.1\r\n\r\n").unwrap_err(), HttpError::InvalidURI);
}

#[test]
fn assemble_reports_the_first_fault() {
    let buffer = b"";
    let ok_target = Some(("/", None));
    assert_eq!(
        assemble(head(None, None, None), vetting(false, None, None), buffer).unwrap_err(),
        HttpError::NoMethod
    );
    assert_eq!(
        assemble(head(Some("GET"), None, None), vetting(false, None, None), buffer).unwrap_err(),
        HttpError::InvalidMethod
    );
    assert_eq!(
        assemble(head(Some("GET"), None, None), vetting(true, None, None), buffer).unwrap_err(),
        HttpError::NoURI
    );
    assert_eq!(
        assemble(head(Some("GET"), Some("/"), None), vetting(true, None, None), buffer).unwrap_err(),
        HttpError::InvalidURI
    );
    assert_eq!(
        assemble(head(Some("GET"), Some("/"), None), vetting(true, ok_target, None), buffer).unwrap_err(),
        HttpError::NoVersion
    );
    assert_eq!(
        assemble(head(Some("GET"), Some("/"), Some(2)), vetting(true, ok_target, None), buffer).unwrap_err(),
        HttpError::InvalidVersion
    );
    assert_eq!(
        assemble(head(Some("GET"), Some("/"), Some(1)), vetting(true, ok_target, None), buffer).unwrap_err(),
        HttpError::RequestCreationError
    );
}

#[test]
fn assemble_builds_the_request() {
    let mut raw = head(Some("DELETE"), Some("/api/v1/?device_id=3"), Some(0));
    raw.header_len = 4;
    let kept = vec![Header { name: "a".to_string(), value: b"b".to_vec() }];
    let request = assemble(
        raw,
        vetting(true, Some(("/api/v1/", Some("device_id=3"))), Some(kept)),
        b"headbody",
    )
    .unwrap();
    assert_eq!(request.method, Method::Delete);
    assert_eq!(request.path, "/api/v1/");
    assert_eq!(request.query.as_deref(), Some("device_id=3"));
    assert_eq!(request.version, Version::Http10);
    assert_eq!(request.headers.len(), 1);
    assert_eq!(request.headers[0].name, "a");
    assert_eq!(request.body, b"body".to_vec());
}

#[test]
fn vet_asks_about_every_part() {
    let mut raw = head(Some("GET"), Some("/p?q=1"), Some(1));
    raw.headers.push(Header { name: "Content-Type".to_string(), value: b"text".to_vec() });
    let vetted = vet(&raw);
    assert!(vetted.method_valid);
    let target = vetted.target.unwrap();
    assert_eq!(target.path, "/p");
    assert_eq!(target.query.as_deref(), Some("q=1"));
    let headers = vetted.headers.unwrap();
    assert_eq!(headers[0].name, "content-type");
    assert_eq!(headers[0].value, b"text".to_vec());

    let vetted = vet(&head(None, None, None));
    assert!(!vetted.method_valid);
    assert!(vetted.target.is_none());
    assert_eq!(vetted.headers.unwrap().len(), 0);

    let vetted = vet(&head(Some("BAD METHOD"), Some(""), Some(1)));
    assert!(!vetted.method_valid);
    assert!(vetted.target.is_none());
}

#[test]
fn header_lines_that_cannot_be_kept() {
    let bad_value = vec![
        Header { name: "ok".to_string(), value: b"fine".to_vec() },
        Header { name: "x".to_string(), value: b"a\x7fb".to_vec() },
    ];
    assert!(vet_headers(&bad_value).is_none());
    let bad_name = vec![Header { name: "bad name".to_string(), value: b"v".to_vec() }];
    assert!(vet_headers(&bad_name).is_none());
    let tab_and_high = vec![Header { name: "X-A".to_string(), value: b"\t\x80\xff ".to_vec() }];
    let kept = vet_headers(&tab_and_high).unwrap();
    assert_eq!(kept[0].name, "x-a");
    assert_eq!(kept[0].value, b"\t\x80\xff ".to_vec());
    let control = vec![Header { name: "x".to_string(), value: b"\x1f".to_vec() }];
    assert!(vet_headers(&control).is_none());
}

#[test]
fn method_tokens() {
    assert_eq!(classify_method("POST"), Method::Post);
    assert_eq!(classify_method("GET"), Method::Get);
    assert_eq!(classify_method("PUT"), Method::Put);
    assert_eq!(classify_method("DELETE"), Method::Delete);
    assert_eq!(classify_method("HEAD"), Method::Other);
    assert_eq!(classify_method("post"), Method::Other);
    assert_eq!(classify_method(""), Method::Other);
    assert!(same_text("abc", "abc"));
    assert!(!same_text("abc", "abd"));
    assert!(!same_text("abc", "ab"));
}

#[test]
fn error_names() {
    assert_eq!(HttpError::IncompleteHeader.to_text(), "IncompleteHeader");
    assert_eq!(HttpError::InvalidContent.to_text(), "InvalidContent");
    assert_eq!(HttpError::NoMethod.to_text(), "NoMethod");
    assert_eq!(HttpError::InvalidMethod.to_text(), "InvalidMethod");
    assert_eq!(HttpError::NoURI.to_text(), "NoURI");
    assert_eq!(HttpError::InvalidURI.to_text(), "InvalidURI");
    assert_eq!(HttpError::NoVersion.to_text(), "NoVersion");
    assert_eq!(HttpError::InvalidVersion.to_text(), "InvalidVersion");
    assert_eq!(HttpError::RequestCreationError.to_text(), "RequestCreationError");
}
