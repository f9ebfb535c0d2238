use axum::body::Body;
use axum::http::StatusCode;
use celia_media::error::AppError;
use celia_media::response::{HttpReply, ReplyBody};
use celia_media::routes::{get_file, respond, CONTENT_TYPE, INVALID_HEADER_TEXT, LOCATION};
use celia_media::s3::FileResponse;
use http_body_util::BodyExt;

fn header<'a>(reply: &'a HttpReply, name: &str) -> Option<&'a str> {
    match &reply.header {
        Some((key, value)) if key.eq_ignore_ascii_case(name) => Some(value.as_str()),
        _ => None,
    }
}

fn read_all(body: Body) -> Vec<u8> {
    let runtime = tokio::runtime::Builder::new_current_thread().enable_all().build().unwrap();
    runtime.block_on(body.collect()).unwrap().to_bytes().to_vec()
}

fn into_bytes(body: ReplyBody) -> Vec<u8> {
    match body {
        ReplyBody::Empty => Vec::new(),
        ReplyBody::Text(text) => text.into_bytes(),
        ReplyBody::Stream(stream) => read_all(stream),
    }
}

#[test]
fn redirect_mode_returns_302() {
    let served = Ok(FileResponse::Redirect("https://s3.example.com/presigned".into()));
    let resp = respond(served);
    assert_eq!(resp.status, StatusCode::FOUND.as_u16());
    assert_eq!(header(&resp, "location").unwrap(), "https://s3.example.com/presigned");
}

#[test]
fn proxy_mode_streams_body() {
    let served = Ok(FileResponse::Stream {
        content_type: "image/jpeg".into(),
        body: Body::from("fake-image-data"),
    });
    let resp = respond(served);
    assert_eq!(resp.status, StatusCode::OK.as_u16());
    assert_eq!(header(&resp, "content-type").unwrap(), "image/jpeg");
    let body = into_bytes(resp.body);
    assert_eq!(&body[..], b"fake-image-data");
}

#[test]
fn unknown_config_returns_404() {
    let resp = respond(Err(AppError::ConfigNotFound("nope".into())));
    assert_eq!(resp.status, StatusCode::NOT_FOUND.as_u16());
}

#[test]
fn missing_file_returns_404() {
    let resp = respond(Err(AppError::ObjectNotFound("missing.txt".into())));
    assert_eq!(resp.status, StatusCode::NOT_FOUND.as_u16());
}

#[test]
fn s3_error_returns_500() {
    let resp = respond(Err(AppError::S3Error("connection refused".into())));
    assert_eq!(resp.status, StatusCode::INTERNAL_SERVER_ERROR.as_u16());
}

#[test]
fn redirect_has_location_header_and_no_body() {
    let reply = get_file(Ok(FileResponse::Redirect("https://s3.example.com/a b?x=1".into())))
        .ok()
        .unwrap();
    assert_eq!(reply.status, 302);
    let (name, value) = reply.header.clone().unwrap();
    assert_eq!(name, LOCATION);
    assert_eq!(name, "Location");
    assert_eq!(value, "https://s3.example.com/a b?x=1");
    assert!(matches!(reply.body, ReplyBody::Empty));
}

#[test]
fn stream_has_content_type_header() {
    let reply = get_file(Ok(FileResponse::Stream {
        content_type: "application/pdf".into(),
        body: Body::from("%PDF-1.7"),
    }))
    .ok()
    .unwrap();
    assert_eq!(reply.status, 200);
    let (name, value) = reply.header.clone().unwrap();
    assert_eq!(name, CONTENT_TYPE);
    assert_eq!(name, "Content-Type");
    assert_eq!(value, "application/pdf");
    assert_eq!(into_bytes(reply.body), b"%PDF-1.7");
}

#[test]
fn stream_of_empty_object_is_empty() {
    let reply = respond(Ok(FileResponse::Stream {
        content_type: "application/octet-stream".into(),
        body: Body::empty(),
    }));
    assert_eq!(reply.status, 200);
    assert_eq!(into_bytes(reply.body), b"");
}

#[test]
fn failure_passes_through_the_handler() {
    let result = get_file(Err(AppError::ObjectNotFound("missing.txt".into())));
    match result {
        Err(AppError::ObjectNotFound(key)) => assert_eq!(key, "missing.txt"),
        _ => panic!("the failure is handed on as it is"),
    }
}

#[test]
fn redirect_with_line_break_is_a_backend_error() {
    let result = get_file(Ok(FileResponse::Redirect("https://s3.example.com/\r\nx: y".into())));
    match result {
        Err(AppError::S3Error(message)) => {
            assert_eq!(message, "failed to parse header value");
            assert_eq!(message, INVALID_HEADER_TEXT);
        }
        _ => panic!("a line break cannot stand in a header"),
    }
    let resp = respond(Ok(FileResponse::Redirect("https://s3.example.com/\n".into())));
    assert_eq!(resp.status, 500);
    assert!(resp.header.is_none());
    assert_eq!(into_bytes(resp.body), b"S3 error: failed to parse header value");
}

#[test]
fn content_type_with_delete_character_is_a_backend_error() {
    let resp = respond(Ok(FileResponse::Stream {
        content_type: "text/\u{7f}plain".into(),
        body: Body::from("x"),
    }));
    assert_eq!(resp.status, 500);
}

#[test]
fn header_value_may_hold_tab_and_text_beyond_ascii() {
    let resp = respond(Ok(FileResponse::Redirect("https://s3.example.com/\tclé/鍵".into())));
    assert_eq!(resp.status, 302);
    assert_eq!(header(&resp, "Location").unwrap(), "https://s3.example.com/\tclé/鍵");
    let resp = respond(Ok(FileResponse::Redirect("bell\u{7}".into())));
    assert_eq!(resp.status, 500);
    let resp = respond(Ok(FileResponse::Redirect(String::new())));
    assert_eq!(resp.status, 302);
}

#[test]
fn header_check_agrees_with_the_http_crate() {
    for code in 0u32..=0x2ff {
        let c = char::from_u32(code).unwrap();
        let text = format!("a{}b", c);
        let accepted = axum::http::HeaderValue::from_str(&text).is_ok();
        let resp = respond(Ok(FileResponse::Redirect(text)));
        assert_eq!(resp.status == 302, accepted);
        assert_eq!(accepted, code == 9 || (code >= 32 && code != 127));
    }
}
