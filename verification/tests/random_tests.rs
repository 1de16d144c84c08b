use futures_crypto::random::{PollAction, RandomRequest};

#[test]
fn random_bytes() {
    let bytes = futures_crypto::random::random_bytes(128).unwrap();
    assert_eq!(bytes.len(), 128);
}

#[test]
fn random_bytes_zero() {
    let bytes = futures_crypto::random::random_bytes(0).unwrap();
    assert_eq!(bytes.len(), 0);
}

#[test]
fn random_bytes_vary() {
    // Two 32-byte reads colliding would mean the entropy source is broken.
    let one = futures_crypto::random::random_bytes(32).unwrap();
    let two = futures_crypto::random::random_bytes(32).unwrap();
    assert_ne!(one, two);
}

#[test]
fn request_dispatches_once() {
    let mut request = RandomRequest::new(77);
    assert!(matches!(request.on_poll(), PollAction::Dispatch(77)));
    assert!(matches!(request.on_poll(), PollAction::AwaitTask));
    assert!(matches!(request.on_poll(), PollAction::AwaitTask));
}

#[test]
fn request_rejection_is_terminal() {
    let mut request = RandomRequest::new(9);
    assert!(matches!(request.on_poll(), PollAction::Dispatch(9)));
    request.mark_rejected();
    assert!(matches!(request.on_poll(), PollAction::ReportRejection));
    assert!(matches!(request.on_poll(), PollAction::ReportRejection));
}
