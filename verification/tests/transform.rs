//! The two-phase response transformation: response head first, drained body
//! second, with the drained chunks materialized and classified.

use lambda_bridge::adapter::TransformResponse;
use lambda_bridge::body::Body;
use lambda_bridge::message::HeaderPair;

fn drain(state: TransformResponse, status: u16, chunks: Vec<Vec<u8>>) -> lambda_bridge::message::EventResponse {
    let state = state.on_response(status, Vec::new());
    state.on_body_drained(chunks)
}

#[test]
fn transform_empty_response() {
    let res = drain(TransformResponse::new(), 200, Vec::new());
    assert_eq!(res.body, Body::Empty);
}

#[test]
fn transform_one_chunk_response() {
    let bytes = "hello".as_bytes().to_owned();
    let res = drain(TransformResponse::new(), 200, vec![bytes.clone()]);
    assert_eq!(res.body, Body::Binary(bytes));
}

#[test]
fn transform_multiple_chunks_response() {
    let chunks = vec!["Hello", " ", "World!"];
    let bytes: Vec<u8> = chunks.iter().flat_map(|s| s.as_bytes().to_owned()).collect();
    let chunk_vecs: Vec<Vec<u8>> = chunks.iter().map(|s| s.as_bytes().to_owned()).collect();
    let res = drain(TransformResponse::new(), 200, chunk_vecs);
    assert_eq!(res.body, Body::Binary(bytes));
}

#[test]
fn transform_keeps_status_and_headers() {
    let headers = vec![HeaderPair { name: String::from("x-first"), value: b"1".to_vec() }, HeaderPair {
        name: String::from("x-second"),
        value: b"2".to_vec(),
    }];
    let state = TransformResponse::new().on_response(418, headers.clone());
    let res = state.on_body_drained(Vec::new());
    assert_eq!(res.status, 418);
    assert_eq!(res.headers, headers);
    assert_eq!(res.body, Body::Empty);
}
