use modern_camera::http::{
    push_decimal, request_path, respond, route, route_request, stream_head, stream_part,
    Response, Route,
};

#[test]
fn stream_path_routes_to_stream() {
    assert_eq!(route(b"/stream"), Route::Stream);
}

#[test]
fn photo_path_routes_to_photo() {
    assert_eq!(route(b"/photos/photo_1.jpg"), Route::Photo(b"photo_1.jpg".to_vec()));
}

#[test]
fn traversal_names_are_forbidden() {
    assert_eq!(route(b"/photos/../../etc/passwd"), Route::Forbidden);
    assert_eq!(route(b"/photos/a/b.jpg"), Route::Forbidden);
    assert_eq!(route(b"/photos/a\\b.jpg"), Route::Forbidden);
    assert_eq!(route(b"/photos/x..jpg"), Route::Forbidden);
    let r = respond(&route(b"/photos/../../etc/passwd"), None);
    assert_eq!(r.status, 403);
}

#[test]
fn missing_photo_is_not_found() {
    let r = route(b"/photos/does-not-exist.jpg");
    assert_eq!(r, Route::Photo(b"does-not-exist.jpg".to_vec()));
    let resp = respond(&r, None);
    assert_eq!(resp, Response { status: 404, body: None });
}

#[test]
fn found_photo_is_served() {
    let r = route(b"/photos/a.jpg");
    let resp = respond(&r, Some(vec![0xFF, 0xD8, 0xFF, 0xD9]));
    assert_eq!(resp, Response { status: 200, body: Some(vec![0xFF, 0xD8, 0xFF, 0xD9]) });
    let mut expected = b"HTTP/1.1 200 OK\r\nContent-Type: image/jpeg\r\nContent-Length: 4\r\n\r\n".to_vec();
    expected.extend_from_slice(&[0xFF, 0xD8, 0xFF, 0xD9]);
    assert_eq!(resp.encode(), expected);
}

#[test]
fn other_paths_are_not_found() {
    assert_eq!(route(b"/"), Route::NotFound);
    assert_eq!(route(b"/photos/"), Route::NotFound);
    assert_eq!(route(b"/streams"), Route::NotFound);
    assert_eq!(respond(&Route::NotFound, None).status, 404);
}

#[test]
fn error_responses_encode() {
    let r = Response { status: 404, body: None };
    assert_eq!(r.encode(), b"HTTP/1.1 404 Not Found\r\nContent-Length: 0\r\n\r\n".to_vec());
    let r = Response { status: 403, body: None };
    assert_eq!(r.encode(), b"HTTP/1.1 403 Forbidden\r\nContent-Length: 0\r\n\r\n".to_vec());
}

#[test]
fn request_line_gives_path() {
    assert_eq!(request_path(b"GET /stream HTTP/1.1\r\nHost: x\r\n\r\n"), Some(b"/stream".to_vec()));
    assert_eq!(request_path(b"GET /photos/a.jpg"), Some(b"/photos/a.jpg".to_vec()));
    assert_eq!(request_path(b"POST /stream HTTP/1.1\r\n"), None);
    assert_eq!(route_request(b"GET /photos/../x HTTP/1.1\r\n\r\n"), Route::Forbidden);
    assert_eq!(route_request(b"PUT /stream HTTP/1.1\r\n\r\n"), Route::NotFound);
}

#[test]
fn stream_part_has_exact_length() {
    let frame = vec![0xFF, 0xD8, 1, 2, 3, 0xFF, 0xD9];
    let mut expected = b"--frame\r\nContent-Type: image/jpeg\r\nContent-Length: 7\r\n\r\n".to_vec();
    expected.extend_from_slice(&frame);
    expected.extend_from_slice(b"\r\n");
    assert_eq!(stream_part(&frame), expected);
}

#[test]
fn stream_head_is_multipart() {
    let head = String::from_utf8(stream_head()).unwrap();
    assert!(head.starts_with("HTTP/1.1 200 OK\r\n"));
    assert!(head.contains("Content-Type: multipart/x-mixed-replace; boundary=frame\r\n"));
    assert!(head.ends_with("\r\n\r\n"));
}

#[test]
fn decimal_digits() {
    let mut out = b"n=".to_vec();
    push_decimal(&mut out, 0);
    assert_eq!(out, b"n=0".to_vec());
    let mut out = Vec::new();
    push_decimal(&mut out, 1234509);
    assert_eq!(out, b"1234509".to_vec());
}
