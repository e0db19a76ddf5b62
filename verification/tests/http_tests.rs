use http_core::mime::from_filename;
use http_core::request::HttpRequest;
use http_core::request::HttpRequestMethod;
use http_core::request::HttpRequestProtocol;
use http_core::response::build_response;
use http_core::response::dispatch;
use http_core::response::Filesystem;
use http_core::response::Type;

#[test]
fn test_from_filename() {
    assert_eq!(from_filename("random.webp"), "image/webp");
    assert_eq!(from_filename("random.random"), "application/octet-stream");
}

#[test]
fn test_get_request_line() {
    let response = HttpRequest::get_request_line("GET / HTTP/0.9\r\n");
    assert!(response.is_some());

    let response = HttpRequest::get_request_line("GET / HTTP/1.0\r\n");
    assert!(response.is_some());

    let response = HttpRequest::get_request_line("GET / HTTP/1.1\r\n");
    assert!(response.is_some());

    let response = HttpRequest::get_request_line("GET / HTTP/2.0\r\n");
    assert!(response.is_some());

    let response = HttpRequest::get_request_line("GET / HTTP/2.2\r\n");
    assert!(response.is_none());
}

#[test]
fn test_from_filename_case_insensitive() {
    assert_eq!(from_filename("FILE.JPG"), "image/jpg");
    assert_eq!(from_filename("random.aac"), "audio/aac");
    assert_eq!(from_filename("archive.TAR"), "application/x-tar");
}

#[test]
fn test_from_filename_no_extension() {
    assert_eq!(from_filename("nodots"), "application/octet-stream");
    assert_eq!(from_filename(""), "application/octet-stream");
    assert_eq!(from_filename("trailing."), "application/octet-stream");
}

#[test]
fn test_request_line_all_methods_and_versions() {
    let methods = [
        ("CONNECT", HttpRequestMethod::Connect),
        ("DELETE", HttpRequestMethod::Delete),
        ("GET", HttpRequestMethod::Get),
        ("HEAD", HttpRequestMethod::Head),
        ("OPTIONS", HttpRequestMethod::Options),
        ("PATCH", HttpRequestMethod::Patch),
        ("PUT", HttpRequestMethod::Put),
        ("POST", HttpRequestMethod::Post),
        ("TRACE", HttpRequestMethod::Trace),
    ];
    let versions = [
        ("HTTP/0.9", HttpRequestProtocol::ZeroDotNine),
        ("HTTP/1.0", HttpRequestProtocol::OneDotZero),
        ("HTTP/1.1", HttpRequestProtocol::OneDotOne),
        ("HTTP/2.0", HttpRequestProtocol::TwoDotZero),
    ];
    for (mtok, m) in methods.iter() {
        for (vtok, v) in versions.iter() {
            let line = format!("{} /index.htm {}\r\n", mtok, vtok);
            let parsed = HttpRequest::get_request_line(&line).unwrap();
            assert_eq!(parsed.method, *m);
            assert_eq!(parsed.protocol, *v);
            assert_eq!(parsed.request_uri, "/index.htm");
        }
    }
}

#[test]
fn test_request_line_unknown_version() {
    assert!(HttpRequest::get_request_line("GET / HTTP/3.0\r\n").is_none());
    assert!(HttpRequest::get_request_line("GET / http/1.1\r\n").is_none());
    assert!(HttpRequest::get_request_line("GET / nonsense\r\n").is_none());
}

#[test]
fn test_request_line_unknown_method() {
    assert!(HttpRequest::get_request_line("FOO / HTTP/1.1\r\n").is_none());
    assert!(HttpRequest::get_request_line("get / HTTP/1.1\r\n").is_none());
}

#[test]
fn test_request_line_too_few_tokens() {
    assert!(HttpRequest::get_request_line("GET\r\n").is_none());
    assert!(HttpRequest::get_request_line("\r\n").is_none());
    assert!(HttpRequest::get_request_line("").is_none());
    assert!(HttpRequest::get_request_line("   ").is_none());
}

#[test]
fn test_request_line_version_defaults_to_zero_dot_nine() {
    let parsed = HttpRequest::get_request_line("GET /\r\n").unwrap();
    assert_eq!(parsed.method, HttpRequestMethod::Get);
    assert_eq!(parsed.protocol, HttpRequestProtocol::ZeroDotNine);
    assert_eq!(parsed.request_uri, "/");
}

#[test]
fn test_parse_end_to_end() {
    let request = HttpRequest::from_tcp_stream(b"GET / HTTP/1.1\r\n\r\n").unwrap();
    assert_eq!(request.request_line.method, HttpRequestMethod::Get);
    assert_eq!(request.request_line.protocol, HttpRequestProtocol::OneDotOne);
    assert_eq!(request.request_line.request_uri, "/");
    assert!(request.headers.is_empty());
    assert!(request.body.is_empty());
    assert!(request.query_arguments.is_empty());
    assert!(request.form_arguments.is_empty());
}

#[test]
fn test_parse_idempotent() {
    let buffer = b"POST /submit HTTP/1.1\r\nHost: example.com\r\n\r\nname=value";
    let first = HttpRequest::from_tcp_stream(buffer).unwrap();
    let second = HttpRequest::from_tcp_stream(buffer).unwrap();
    assert_eq!(first.request_line.method, second.request_line.method);
    assert_eq!(first.request_line.protocol, second.request_line.protocol);
    assert_eq!(first.request_line.request_uri, second.request_line.request_uri);
    assert_eq!(first.headers, second.headers);
    assert_eq!(first.query_arguments, second.query_arguments);
    assert_eq!(first.form_arguments, second.form_arguments);
    assert_eq!(first.body, second.body);
}

#[test]
fn test_parse_headers_and_body() {
    let buffer = b"GET /page HTTP/1.0\r\nHost: first.example\r\nAccept: text/html\r\nnocolonhere\r\nHost: second.example\r\n\r\nhello body";
    let request = HttpRequest::from_tcp_stream(buffer).unwrap();
    assert_eq!(request.headers.len(), 3);
    assert_eq!(request.headers[0], ("Host".to_string(), "first.example".to_string()));
    assert_eq!(request.headers[1], ("Accept".to_string(), "text/html".to_string()));
    assert_eq!(request.headers[2], ("Host".to_string(), "second.example".to_string()));
    let host = request.header_value("Host").unwrap();
    assert_eq!(host.as_str(), "second.example");
    assert!(request.header_value("Absent").is_none());
    assert_eq!(request.body, b"hello body".to_vec());
}

#[test]
fn test_parse_rejects_non_ascii() {
    let buffer = [b'G', b'E', b'T', b' ', b'/', 0xff, b' ', b'H'];
    assert!(HttpRequest::from_tcp_stream(&buffer).is_none());
}

#[test]
fn test_parse_rejects_bad_request_line() {
    assert!(HttpRequest::from_tcp_stream(b"FOO / HTTP/1.1\r\n\r\n").is_none());
    assert!(HttpRequest::from_tcp_stream(b"GET / HTTP/2.2\r\n\r\n").is_none());
    assert!(HttpRequest::from_tcp_stream(b"\r\n\r\n").is_none());
}

#[test]
fn test_response_shape() {
    let response = build_response("200 OK", "text/html", "<html>hi</html>");
    assert!(response.starts_with("HTTP/1.1 200 OK\r\n"));
    let separator = response.find("\r\n\r\n").unwrap();
    let (head, tail) = response.split_at(separator + 4);
    assert_eq!(head, "HTTP/1.1 200 OK\r\nContent-Type: text/html\r\n\r\n");
    assert_eq!(tail, "<html>hi</html>");
    assert_eq!(head.matches("\r\n\r\n").count(), 1);
}

#[test]
fn test_filesystem_routes() {
    let candidate = Filesystem {
        index_content: "<html>index</html>".to_string(),
        not_found_content: "<html>missing</html>".to_string(),
    };
    let ok = candidate.respond(b"GET / HTTP/1.1\r\n\r\n");
    assert_eq!(
        ok,
        "HTTP/1.1 200 OK\r\nContent-Type: text/html\r\n\r\n<html>index</html>"
    );
    let missing = candidate.respond(b"GET /other HTTP/1.1\r\n\r\n");
    assert_eq!(
        missing,
        "HTTP/1.1 404 NOT FOUND\r\nContent-Type: text/html\r\n\r\n<html>missing</html>"
    );
}

#[test]
fn test_dispatch_priority() {
    let first = Filesystem {
        index_content: "first candidate".to_string(),
        not_found_content: "first missing".to_string(),
    };
    let second = Filesystem {
        index_content: "second candidate".to_string(),
        not_found_content: "second missing".to_string(),
    };
    let request = b"GET / HTTP/1.1\r\n\r\n";
    assert!(first.matches(request));
    assert!(second.matches(request));
    let candidates = vec![first, second];
    let response = dispatch(&candidates, request);
    assert_eq!(response, candidates[0].respond(request));
    assert_ne!(response, candidates[1].respond(request));
}

#[test]
fn test_dispatch_fallback() {
    let candidates: Vec<Filesystem> = Vec::new();
    let response = dispatch(&candidates, b"GET / HTTP/1.1\r\n\r\n");
    assert_eq!(response, "HTTP/1.1 404 NOT FOUND\r\n\r\n");
}

#[test]
fn test_dispatch_sleep_route() {
    let candidate = Filesystem {
        index_content: "<html>index</html>".to_string(),
        not_found_content: "<html>missing</html>".to_string(),
    };
    let candidates = vec![candidate];
    let response = dispatch(&candidates, b"GET /sleep HTTP/1.1\r\n\r\n");
    assert!(response.starts_with("HTTP/1.1 200 OK\r\n"));
    assert!(response.ends_with("<html>index</html>"));
}
