use axum::http::{Extensions, HeaderMap, HeaderValue, Method, StatusCode, Uri, Version};

use axum_request_helpers::error::Error;
use axum_request_helpers::forward::{forwarded_head, next_body_chunk};
use axum_request_helpers::request::{reassemble_after, Request, RequestHead};

fn head() -> RequestHead {
    let mut headers = HeaderMap::new();
    headers.insert("accept", HeaderValue::from_static("text/plain"));
    headers.append("accept", HeaderValue::from_static("text/html"));
    RequestHead {
        method: Method::PUT,
        uri: "http://example.org/a/b?c=d".parse::<Uri>().unwrap(),
        version: Version::HTTP_2,
        headers,
    }
}

#[test]
fn split_then_reassemble_keeps_metadata() {
    let mut extensions = Extensions::new();
    extensions.insert(5u16);
    let req = Request::from_parts(head(), extensions, vec![1u8, 2, 3]);
    let (h, mut ext, body) = req.into_parts();
    ext.insert("added");
    let back = Request::from_parts(h, ext, body);
    assert_eq!(back.head.method, Method::PUT);
    assert_eq!(back.head.uri, "http://example.org/a/b?c=d");
    assert_eq!(back.head.version, Version::HTTP_2);
    let accepts: Vec<&HeaderValue> = back.head.headers.get_all("accept").iter().collect();
    assert_eq!(accepts, vec!["text/plain", "text/html"]);
    assert_eq!(back.body, vec![1u8, 2, 3]);
    assert_eq!(back.extensions().get::<u16>(), Some(&5u16));
    assert_eq!(back.extensions().get::<&str>(), Some(&"added"));
}

#[test]
fn reassembly_keeps_a_failed_outcome() {
    let outcome: Result<u8, &str> = Err("bad");
    let (result, req) = reassemble_after(outcome, head(), Extensions::new(), "body");
    assert_eq!(result, Err("bad"));
    assert_eq!(req.head.method, Method::PUT);
    assert_eq!(req.body, "body");
}

#[test]
fn error_gives_back_its_rejection() {
    let err: Error<u32> = Error::Rejection(17);
    assert_eq!(err.into_rejection(), 17);
}

#[test]
fn forwarded_head_copies_upstream_metadata() {
    let mut headers = HeaderMap::new();
    headers.insert("content-type", HeaderValue::from_static("text/plain"));
    let h = forwarded_head(StatusCode::OK, Version::HTTP_11, headers);
    assert!(h.status.is_success());
    assert_eq!(h.status, StatusCode::OK);
    assert_eq!(h.version, Version::HTTP_11);
    assert_eq!(h.headers.get("content-type").unwrap(), "text/plain");
}

#[test]
fn body_chunk_is_the_bytes_read() {
    let buf = b"backend".to_vec();
    assert_eq!(next_body_chunk(7, &buf), Some(b"backend".to_vec()));
    assert_eq!(next_body_chunk(4, &buf), Some(b"back".to_vec()));
}

#[test]
fn empty_read_ends_the_body() {
    assert_eq!(next_body_chunk(0, &b"backend".to_vec()), None);
    assert_eq!(next_body_chunk(0, &Vec::new()), None);
}
