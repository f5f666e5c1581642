use polkacli::error::PipelineError;
use polkacli::pinning::{finish_authenticated_pin, ipfs_locator, is_success_status, PinReply, PinningClient};

#[test]
fn no_credential_selects_the_public_endpoint_once() {
    let client = PinningClient::new(None);
    let request = client.plan_pin(vec![1, 2, 3]);
    assert_eq!(request.url, "https://ipfs.io/ipfs");
    assert!(request.bearer.is_none());
    assert!(!request.multipart);
    assert_eq!(request.payload, vec![1, 2, 3]);
}

#[test]
fn public_pin_reply_yields_a_prefixed_locator() {
    let client = PinningClient::new(None);
    let reply = PinReply { status: 200, body: b"QmExampleHash".to_vec() };
    let locator = client.interpret_pin_reply(&reply).unwrap();
    assert_eq!(locator, "ipfs://QmExampleHash");
    assert!(locator.starts_with("ipfs://"));
}

#[test]
fn credential_selects_the_authenticated_endpoint() {
    let client = PinningClient::new(Some("token".to_string()));
    let request = client.plan_pin(vec![7]);
    assert_eq!(request.url, "https://api.pinata.cloud/pinning/pinFileToIPFS");
    assert_eq!(request.bearer.as_deref(), Some("token"));
    assert!(request.multipart);
}

#[test]
fn authenticated_reply_hash_field_is_read() {
    let client = PinningClient::new(Some("token".to_string()));
    let reply = PinReply { status: 200, body: br#"{"IpfsHash":"QmStored"}"#.to_vec() };
    let locator = client.interpret_pin_reply(&reply).unwrap();
    assert_eq!(locator, "ipfs://QmStored");
}

#[test]
fn authenticated_reply_without_hash_is_a_provider_error() {
    let client = PinningClient::new(Some("token".to_string()));
    let reply = PinReply { status: 200, body: br#"{"status":"pinned"}"#.to_vec() };
    let err = client.interpret_pin_reply(&reply).unwrap_err();
    assert!(matches!(err, PipelineError::PinningProvider(_)));
}

#[test]
fn authenticated_reply_that_is_not_a_document_is_a_provider_error() {
    let client = PinningClient::new(Some("token".to_string()));
    let reply = PinReply { status: 200, body: b"QmBareHash".to_vec() };
    let err = client.interpret_pin_reply(&reply).unwrap_err();
    assert!(matches!(err, PipelineError::PinningProvider(_)));
}

#[test]
fn non_text_failure_bodies_are_reported_empty() {
    let client = PinningClient::new(None);
    let reply = PinReply { status: 502, body: vec![0xff, 0xfe] };
    let err = client.interpret_pin_reply(&reply).unwrap_err();
    assert_eq!(err, PipelineError::PinningProvider(String::new()));
}

#[test]
fn non_success_status_carries_the_body() {
    let client = PinningClient::new(None);
    let reply = PinReply { status: 500, body: b"overloaded".to_vec() };
    let err = client.interpret_pin_reply(&reply).unwrap_err();
    assert_eq!(err, PipelineError::PinningProvider("overloaded".to_string()));
}

#[test]
fn status_classes_are_exact() {
    assert!(is_success_status(200));
    assert!(is_success_status(299));
    assert!(!is_success_status(199));
    assert!(!is_success_status(300));
    assert!(!is_success_status(404));
}

#[test]
fn locator_normalization_prefixes_the_hash() {
    assert_eq!(ipfs_locator("QmA"), "ipfs://QmA");
    assert_eq!(ipfs_locator(""), "ipfs://");
}

#[test]
fn missing_hash_field_is_reported() {
    let err = finish_authenticated_pin(None).unwrap_err();
    assert_eq!(
        err,
        PipelineError::PinningProvider("the reply carries no content hash".to_string())
    );
    let ok = finish_authenticated_pin(Some("QmB".to_string())).unwrap();
    assert_eq!(ok, "ipfs://QmB");
}
