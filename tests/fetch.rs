use image_proxy::fetch::{BoundedBody, FetchError, FetchEvent, FetchProgress, MAX_SIZE};

#[test]
fn messages_and_statuses() {
    assert_eq!(FetchError::ChunkError.to_string(), "Error Decoding Response");
    assert_eq!(FetchError::SendError.to_string(), "Error Sending Request");
    assert_eq!(
        FetchError::TooLarge.to_string(),
        format!("Response Body Exceeded the maximum of {} bytes", MAX_SIZE)
    );
    assert_eq!(FetchError::TooLarge.to_http_error().0, 413);
    assert_eq!(FetchError::SendError.to_http_error().0, 500);
    assert_eq!(FetchError::ChunkError.to_http_error(), (500, "Error Decoding Response".to_string()));
    assert_eq!(MAX_SIZE, 104857600);
}

fn pending(p: FetchProgress) -> BoundedBody {
    match p {
        FetchProgress::Pending(b) => b,
        other => panic!("expected more to come, got {:?}", other),
    }
}

#[test]
fn chunks_accumulate_up_to_ceiling() {
    let body = BoundedBody::new(10);
    let body = pending(body.advance(FetchEvent::Chunk(vec![1, 2, 3, 4, 5, 6])));
    let body = pending(body.advance(FetchEvent::Chunk(vec![7, 8, 9, 10])));
    assert_eq!(body.bytes.len(), 10);
    match body.advance(FetchEvent::End) {
        FetchProgress::Complete(b) => assert_eq!(b, vec![1, 2, 3, 4, 5, 6, 7, 8, 9, 10]),
        other => panic!("expected the body, got {:?}", other),
    }
}

#[test]
fn oversized_body_stops_at_the_chunk_that_passes_the_ceiling() {
    let body = BoundedBody::new(10);
    let body = pending(body.advance(FetchEvent::Chunk(vec![0; 6])));
    assert_eq!(body.bytes.len(), 6);
    match body.advance(FetchEvent::Chunk(vec![0; 6])) {
        FetchProgress::Failed(e) => assert_eq!(e, FetchError::TooLarge),
        other => panic!("expected TooLarge, got {:?}", other),
    }
}

#[test]
fn one_byte_over_is_too_large() {
    let body = BoundedBody::new(3);
    match body.advance(FetchEvent::Chunk(vec![0; 4])) {
        FetchProgress::Failed(e) => assert_eq!(e, FetchError::TooLarge),
        other => panic!("expected TooLarge, got {:?}", other),
    }
}

#[test]
fn transport_failures() {
    match BoundedBody::new(10).advance(FetchEvent::SendFailed) {
        FetchProgress::Failed(e) => assert_eq!(e, FetchError::SendError),
        other => panic!("unexpected {:?}", other),
    }
    let body = pending(BoundedBody::new(10).advance(FetchEvent::Chunk(vec![1])));
    match body.advance(FetchEvent::ChunkFailed) {
        FetchProgress::Failed(e) => assert_eq!(e, FetchError::ChunkError),
        other => panic!("unexpected {:?}", other),
    }
}

#[test]
fn empty_body_completes_empty() {
    match BoundedBody::new(0).advance(FetchEvent::End) {
        FetchProgress::Complete(b) => assert!(b.is_empty()),
        other => panic!("unexpected {:?}", other),
    }
}
