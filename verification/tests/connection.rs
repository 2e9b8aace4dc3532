use http_server::server::connection::{
    read_request, reply, request_text, serve, text_end, BUFFER_SIZE,
};
use http_server::server::protocol::{ContentType, HttpMethod};
use http_server::{HttpError, HttpRequest, HttpResponse};

fn buffer(text: &[u8]) -> Vec<u8> {
    let mut buf = vec![0u8; BUFFER_SIZE];
    buf[..text.len()].copy_from_slice(text);
    buf
}

fn echo_path(request: &HttpRequest) -> Result<HttpResponse, HttpError> {
    Ok(HttpResponse::new(200, request.path.as_str(), ContentType::Plain))
}

#[test]
fn buffer_holds_1024_bytes() {
    assert_eq!(BUFFER_SIZE, 1024);
}

#[test]
fn text_ends_at_the_first_zero_byte() {
    assert_eq!(text_end(&[b'a', b'b', 0, b'c', 0]), 2);
    assert_eq!(text_end(&[0, b'a']), 0);
    assert_eq!(text_end(&[b'a', b'b', b'c']), 3);
    assert_eq!(text_end(&[]), 0);
    assert_eq!(text_end(&buffer(b"GET / HTTP/1.1\r\n\r\n")), 18);
}

#[test]
fn text_of_a_padded_buffer() {
    let text = request_text(&buffer(b"GET / HTTP/1.1\r\n\r\n")).unwrap();
    assert_eq!(text, "GET / HTTP/1.1\r\n\r\n");
    assert_eq!(request_text(&[b'h', b'i', 0, b'x']).unwrap(), "hi");
}

#[test]
fn text_of_a_full_buffer() {
    let full = vec![b'a'; BUFFER_SIZE];
    let text = request_text(&full).unwrap();
    assert_eq!(text.len(), BUFFER_SIZE);
    assert_eq!(request_text(&[]).unwrap(), "");
}

#[test]
fn text_is_decoded_as_utf8() {
    let text = request_text(&buffer("h\u{e9}llo \u{4e16}".as_bytes())).unwrap();
    assert_eq!(text, "h\u{e9}llo \u{4e16}");
}

#[test]
fn invalid_utf8_is_reported() {
    assert!(matches!(request_text(&[b'a', 0xff, b'b']), Err(HttpError::FromUtf8Error(_))));
    assert!(matches!(request_text(&[0xe4, 0xb8]), Err(HttpError::FromUtf8Error(_))));
    assert!(matches!(read_request(&[0xc0, 0x80]), Err(HttpError::FromUtf8Error(_))));
    assert_eq!(request_text(&[b'a', 0, 0xff]).unwrap(), "a");
}

#[test]
fn request_of_a_buffer() {
    let request = read_request(&buffer(b"POST /p HTTP/1.1\r\nA: b\r\n\r\nbody")).unwrap();
    assert_eq!(request.method, HttpMethod::POST);
    assert_eq!(request.path, "/p");
    assert_eq!(request.headers.get("A").map(|v| v.as_str()), Some("b"));
    assert_eq!(request.body, "body");
}

#[test]
fn buffer_without_request_is_invalid_format() {
    match read_request(&buffer(b"GET / HTTP/1.1\r\n")) {
        Err(HttpError::InvalidFormat(text)) => assert_eq!(text, "GET / HTTP/1.1\r\n"),
        _ => panic!("expected InvalidFormat"),
    }
}

#[test]
fn reply_writes_the_response() {
    let text = reply(Ok(HttpResponse::new(200, "hi", ContentType::Json))).unwrap();
    assert_eq!(text, "HTTP/1.1 200 OK\r\nContent-Type: text/json\r\nContent-Length: 2\r\n\r\nhi");
}

#[test]
fn reply_to_an_unsupported_status() {
    match reply(Ok(HttpResponse::new(302, "", ContentType::Plain))) {
        Err(HttpError::UnsupportStatus(code)) => assert_eq!(code, "302"),
        _ => panic!("expected UnsupportStatus"),
    }
}

#[test]
fn handler_failure_is_wrapped() {
    let io = std::io::Error::new(std::io::ErrorKind::Other, "disk");
    match reply(Err(HttpError::IoError(io))) {
        Err(HttpError::HttpHandleError(s)) => assert_eq!(s, "io exception."),
        _ => panic!("expected HttpHandleError"),
    }
    match reply(Err(HttpError::InvalidFormat("x".to_string()))) {
        Err(HttpError::HttpHandleError(s)) => assert_eq!(s, "Invalid request format: x."),
        _ => panic!("expected HttpHandleError"),
    }
    match reply(Err(HttpError::UnsupportStatus("9".to_string()))) {
        Err(HttpError::HttpHandleError(s)) => assert_eq!(s, "Can't handle status code: 9."),
        _ => panic!("expected HttpHandleError"),
    }
}

#[test]
fn handler_error_of_its_own_is_kept() {
    match reply(Err(HttpError::HttpHandleError("no such user".to_string()))) {
        Err(HttpError::HttpHandleError(s)) => assert_eq!(s, "no such user"),
        _ => panic!("expected HttpHandleError"),
    }
}

#[test]
fn serve_answers_a_request() {
    let text = serve(&buffer(b"GET /abc HTTP/1.1\r\nHost: x\r\n\r\n"), echo_path).unwrap();
    assert_eq!(text, "HTTP/1.1 200 OK\r\nContent-Type: text/plain\r\nContent-Length: 4\r\n\r\n/abc");
}

#[test]
fn serve_does_not_call_the_handler_without_a_request() {
    let never = |_: &HttpRequest| -> Result<HttpResponse, HttpError> {
        panic!("the handler must not be called")
    };
    assert!(matches!(serve(&buffer(b"GET /abc HTTP/1.1\r\n"), never), Err(HttpError::InvalidFormat(_))));
    assert!(matches!(serve(&[0xff, 0xfe], never), Err(HttpError::FromUtf8Error(_))));
}

#[test]
fn serve_reports_a_failing_handler() {
    let failing = |_: &HttpRequest| -> Result<HttpResponse, HttpError> {
        Err(HttpError::from(std::io::Error::new(std::io::ErrorKind::Other, "disk")))
    };
    match serve(&buffer(b"GET / HTTP/1.1\r\n\r\n"), failing) {
        Err(HttpError::HttpHandleError(s)) => assert_eq!(s, "io exception."),
        _ => panic!("expected HttpHandleError"),
    }
}

#[test]
fn serve_reports_an_unsupported_status() {
    let teapot = |_: &HttpRequest| -> Result<HttpResponse, HttpError> {
        Ok(HttpResponse::new(418, "teapot", ContentType::Plain))
    };
    match serve(&buffer(b"GET / HTTP/1.1\r\n\r\n"), teapot) {
        Err(HttpError::UnsupportStatus(code)) => assert_eq!(code, "418"),
        _ => panic!("expected UnsupportStatus"),
    }
}

#[test]
fn connections_do_not_affect_each_other() {
    let first = buffer(b"GET /one HTTP/1.1\r\n\r\n");
    let broken = buffer(b"nonsense");
    let second = buffer(b"GET /two HTTP/1.1\r\n\r\n");
    let a = serve(&first, echo_path);
    let b = serve(&broken, echo_path);
    let c = serve(&second, echo_path);
    let a_again = serve(&first, echo_path);
    assert!(a.as_ref().unwrap().ends_with("\r\n\r\n/one"));
    assert!(b.is_err());
    assert!(c.as_ref().unwrap().ends_with("\r\n\r\n/two"));
    assert_eq!(a.unwrap(), a_again.unwrap());
}
