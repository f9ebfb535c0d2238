use axum::body::Body;
use celia_media::config::{AppConfig, BucketConfig, CredentialConfig};
use celia_media::error::AppError;
use celia_media::response::ReplyBody;
use celia_media::routes::respond;
use celia_media::s3::{FetchReply, FileResponse, HeadReply, PresignReply, S3Clients};
use celia_media::serve::{Operation, Replies};
use http_body_util::BodyExt;

fn plain(secret: &str) -> CredentialConfig {
    CredentialConfig::Plain { plain: secret.to_string() }
}

fn bucket(bucket_name: &str, proxy: bool, presign_expiry_secs: Option<u64>) -> BucketConfig {
    BucketConfig {
        endpoint_url: "https://minio.example.com".to_string(),
        bucket_name: bucket_name.to_string(),
        access_key: plain("AKIA"),
        secret_key: plain("secret"),
        region: "us-east-1".to_string(),
        force_path_style: true,
        presign_expiry_secs,
        proxy,
    }
}

fn clients() -> S3Clients {
    S3Clients::from_config(&AppConfig {
        listen: "[::]:8080".to_string(),
        presign_expiry_secs: 300,
        buckets: vec![
            ("photos".to_string(), bucket("my-photos", false, None)),
            ("docs".to_string(), bucket("docs", true, None)),
            ("slow".to_string(), bucket("archive", false, Some(700_000))),
        ],
    })
}

fn replies(head: HeadReply, presign: PresignReply, fetch: FetchReply) -> Replies {
    Replies { head, presign, fetch }
}

fn signed(url: &str) -> PresignReply {
    PresignReply::Signed(url.to_string())
}

fn fetched(content_type: Option<&str>, bytes: &'static [u8]) -> FetchReply {
    FetchReply::Fetched { content_type: content_type.map(str::to_string), body: Body::from(bytes) }
}

fn read_all(body: Body) -> Vec<u8> {
    let runtime = tokio::runtime::Builder::new_current_thread().enable_all().build().unwrap();
    runtime.block_on(body.collect()).unwrap().to_bytes().to_vec()
}

const URL: &str = "https://minio.example.com/my-photos/img.jpg?X-Amz-Signature=0123";

#[test]
fn scenario_redirect_of_existing_object() {
    let served = clients().serve(
        "photos",
        "img.jpg",
        replies(HeadReply::Found, signed(URL), FetchReply::NoSuchKey),
    );
    assert_eq!(served.calls, vec![Operation::HeadObject, Operation::Presign]);
    assert!(matches!(&served.outcome, Ok(FileResponse::Redirect(url)) if url == URL));
    let reply = respond(served.outcome);
    assert_eq!(reply.status, 302);
    assert_eq!(reply.header, Some(("Location".to_string(), URL.to_string())));
    assert!(matches!(reply.body, ReplyBody::Empty));
}

#[test]
fn scenario_proxy_of_existing_object() {
    let served = clients().serve(
        "docs",
        "file.pdf",
        replies(
            HeadReply::NotFound,
            PresignReply::Failed("unused".to_string()),
            fetched(Some("application/pdf"), b"%PDF-1.7\n%\xe2\xe3\xcf\xd3\n"),
        ),
    );
    assert_eq!(served.calls, vec![Operation::GetObject]);
    let reply = respond(served.outcome);
    assert_eq!(reply.status, 200);
    assert_eq!(reply.header, Some(("Content-Type".to_string(), "application/pdf".to_string())));
    match reply.body {
        ReplyBody::Stream(body) => assert_eq!(read_all(body), b"%PDF-1.7\n%\xe2\xe3\xcf\xd3\n"),
        _ => panic!("the object's bytes are the body"),
    }
}

#[test]
fn scenario_unknown_tenant() {
    for key in ["file.txt", "", "a/b/c", "img.jpg"] {
        let served = clients().serve(
            "nope",
            key,
            replies(HeadReply::Found, signed(URL), fetched(None, b"data")),
        );
        assert!(served.calls.is_empty());
        assert!(matches!(&served.outcome, Err(AppError::ConfigNotFound(name)) if name == "nope"));
        let reply = respond(served.outcome);
        assert_eq!(reply.status, 404);
        match reply.body {
            ReplyBody::Text(text) => assert_eq!(text, "config not found: nope"),
            _ => panic!("a failure is reported as text"),
        }
    }
}

#[test]
fn scenario_redirect_of_missing_object() {
    let served = clients().serve(
        "photos",
        "missing.txt",
        replies(HeadReply::NotFound, signed(URL), fetched(None, b"data")),
    );
    assert_eq!(served.calls, vec![Operation::HeadObject]);
    assert!(!served.calls.contains(&Operation::Presign));
    assert!(matches!(&served.outcome, Err(AppError::ObjectNotFound(key)) if key == "missing.txt"));
    assert_eq!(respond(served.outcome).status, 404);
}

#[test]
fn scenario_failed_existence_check() {
    let served = clients().serve(
        "photos",
        "img.jpg",
        replies(
            HeadReply::Failed("connection refused".to_string()),
            signed(URL),
            fetched(None, b"data"),
        ),
    );
    assert_eq!(served.calls, vec![Operation::HeadObject]);
    assert!(matches!(
        &served.outcome,
        Err(AppError::S3Error(message)) if message == "connection refused"
    ));
    let reply = respond(served.outcome);
    assert_eq!(reply.status, 500);
    match reply.body {
        ReplyBody::Text(text) => assert_eq!(text, "S3 error: connection refused"),
        _ => panic!("a failure is reported as text"),
    }
}

#[test]
fn redirect_fails_where_signing_fails() {
    let served = clients().serve(
        "photos",
        "img.jpg",
        replies(
            HeadReply::Found,
            PresignReply::Failed("failed to construct request".to_string()),
            fetched(None, b"data"),
        ),
    );
    assert_eq!(served.calls, vec![Operation::HeadObject, Operation::Presign]);
    assert!(matches!(
        &served.outcome,
        Err(AppError::S3Error(message)) if message == "failed to construct request"
    ));
    assert_eq!(respond(served.outcome).status, 500);
}

#[test]
fn redirect_fails_where_expiry_is_refused() {
    let served = clients().serve(
        "slow",
        "img.jpg",
        replies(HeadReply::Found, signed(URL), fetched(None, b"data")),
    );
    assert_eq!(served.calls, vec![Operation::HeadObject]);
    assert!(matches!(&served.outcome, Err(AppError::S3Error(_))));
    assert_eq!(respond(served.outcome).status, 500);
}

#[test]
fn proxy_defaults_the_content_type() {
    let served = clients().serve(
        "docs",
        "blob",
        replies(HeadReply::Found, signed(URL), fetched(None, b"")),
    );
    assert_eq!(served.calls, vec![Operation::GetObject]);
    match served.outcome {
        Ok(FileResponse::Stream { content_type, body }) => {
            assert_eq!(content_type, "application/octet-stream");
            assert_eq!(read_all(body), b"");
        }
        _ => panic!("a fetched object is streamed"),
    }
}

#[test]
fn proxy_never_falls_back_to_redirect() {
    let served = clients().serve(
        "docs",
        "missing.pdf",
        replies(HeadReply::Found, signed(URL), FetchReply::NoSuchKey),
    );
    assert_eq!(served.calls, vec![Operation::GetObject]);
    assert!(matches!(&served.outcome, Err(AppError::ObjectNotFound(key)) if key == "missing.pdf"));
    assert_eq!(respond(served.outcome).status, 404);

    let served = clients().serve(
        "docs",
        "file.pdf",
        replies(HeadReply::Found, signed(URL), FetchReply::Failed("access denied".to_string())),
    );
    assert_eq!(served.calls, vec![Operation::GetObject]);
    assert!(
        matches!(&served.outcome, Err(AppError::S3Error(message)) if message == "access denied")
    );
    assert_eq!(respond(served.outcome).status, 500);
}

#[test]
fn redirect_never_falls_back_to_proxy() {
    let served = clients().serve(
        "photos",
        "img.jpg",
        replies(
            HeadReply::Failed("timeout".to_string()),
            signed(URL),
            fetched(Some("image/jpeg"), b"data"),
        ),
    );
    assert!(!served.calls.contains(&Operation::GetObject));
    assert!(matches!(&served.outcome, Err(AppError::S3Error(_))));
}

#[test]
fn key_is_passed_on_as_it_is() {
    let key = "../a//b/%2e%2e/ c\u{e9}?x=1#y";
    let served = clients().serve(
        "photos",
        key,
        replies(HeadReply::NotFound, signed(URL), FetchReply::NoSuchKey),
    );
    assert!(matches!(&served.outcome, Err(AppError::ObjectNotFound(found)) if found == key));
}

#[test]
fn repeated_requests_end_in_the_same_way() {
    let registry = clients();
    let first = registry.serve(
        "photos",
        "img.jpg",
        replies(HeadReply::Found, signed(URL), FetchReply::NoSuchKey),
    );
    let second = registry.serve(
        "photos",
        "img.jpg",
        replies(
            HeadReply::Found,
            signed("https://minio.example.com/my-photos/img.jpg?X-Amz-Signature=4567"),
            FetchReply::NoSuchKey,
        ),
    );
    assert_eq!(first.calls, second.calls);
    assert!(matches!(first.outcome, Ok(FileResponse::Redirect(_))));
    assert!(matches!(second.outcome, Ok(FileResponse::Redirect(_))));

    let first = registry.serve(
        "nope",
        "img.jpg",
        replies(HeadReply::Found, signed(URL), FetchReply::NoSuchKey),
    );
    let second = registry.serve(
        "nope",
        "img.jpg",
        replies(HeadReply::Found, signed(URL), FetchReply::NoSuchKey),
    );
    assert!(matches!(first.outcome, Err(AppError::ConfigNotFound(_))));
    assert!(matches!(second.outcome, Err(AppError::ConfigNotFound(_))));
}

#[test]
fn every_request_ends_after_two_calls_at_most() {
    let registry = clients();
    for name in ["photos", "docs", "slow", "nope"] {
        for head in 0..3 {
            for presign in 0..2 {
                for fetch in 0..3 {
                    let served = registry.serve(
                        name,
                        "img.jpg",
                        replies(
                            match head {
                                0 => HeadReply::Found,
                                1 => HeadReply::NotFound,
                                _ => HeadReply::Failed("boom".to_string()),
                            },
                            match presign {
                                0 => signed(URL),
                                _ => PresignReply::Failed("boom".to_string()),
                            },
                            match fetch {
                                0 => fetched(Some("image/jpeg"), b"data"),
                                1 => FetchReply::NoSuchKey,
                                _ => FetchReply::Failed("boom".to_string()),
                            },
                        ),
                    );
                    assert!(served.calls.len() <= 2);
                    let status = respond(served.outcome).status;
                    assert!([200, 302, 404, 500].contains(&status));
                }
            }
        }
    }
}
