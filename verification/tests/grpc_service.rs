use arrow_format::flight::data::BasicAuth;
use databend_meta::grpc_service::{
    auth_token_text, authorize_handshake, handshake_user, version_accepted, ExportStream,
    HandshakeError, TokenError,
};
use prost::Message;

fn strings(n: usize) -> Vec<String> {
    (0..n).map(|i| format!("line-{}", i)).collect()
}

#[test]
fn export_stream_hands_out_chunks_of_sixteen() {
    let data = strings(40);
    let mut stream = ExportStream { data: data.clone() };
    let mut got: Vec<Vec<String>> = Vec::new();
    while let Some(chunk) = stream.next_chunk() {
        got.push(chunk);
    }
    assert_eq!(got.iter().map(|c| c.len()).collect::<Vec<_>>(), vec![16, 16, 8]);
    assert_eq!(got.concat(), data);
    assert!(stream.data.is_empty());
    assert!(stream.next_chunk().is_none());
}

#[test]
fn export_stream_small_and_empty() {
    let mut stream = ExportStream { data: strings(3) };
    assert_eq!(stream.next_chunk(), Some(strings(3)));
    assert_eq!(stream.next_chunk(), None);
    let mut empty = ExportStream { data: vec![] };
    assert_eq!(empty.next_chunk(), None);
    let mut exact = ExportStream { data: strings(16) };
    assert_eq!(exact.next_chunk().map(|c| c.len()), Some(16));
    assert_eq!(exact.next_chunk(), None);
}

#[test]
fn version_check() {
    assert!(version_accepted(0, 5));
    assert!(!version_accepted(4, 5));
    assert!(version_accepted(5, 5));
    assert!(version_accepted(6, 5));
}

fn auth_payload(username: &str, password: &str) -> Vec<u8> {
    BasicAuth { username: username.to_string(), password: password.to_string() }.encode_to_vec()
}

#[test]
fn handshake_grants_root() {
    let r = authorize_handshake(0, 1_000_000, &auth_payload("root", "xyz"));
    assert_eq!(r, Ok("root".to_string()));
    let r = authorize_handshake(2_000_000, 1_000_000, &auth_payload("root", ""));
    assert_eq!(r, Ok("root".to_string()));
}

#[test]
fn handshake_refuses_old_clients_first() {
    let r = authorize_handshake(3, 1_000_000, b"not a message");
    assert_eq!(r, Err(HandshakeError::IncompatibleVersion { protocol_version: 3, min_compatible: 1_000_000 }));
}

#[test]
fn handshake_refuses_other_users() {
    let r = authorize_handshake(0, 1, &auth_payload("bob", "root"));
    assert_eq!(r, Err(HandshakeError::UnknownUser("bob".to_string())));
}

#[test]
fn handshake_refuses_garbage_payload() {
    let r = authorize_handshake(0, 1, &[0xff, 0xff, 0xff]);
    assert!(matches!(r, Err(HandshakeError::BadPayload(_))));
}

#[test]
fn handshake_user_on_decoded_auth() {
    assert_eq!(handshake_user(Ok(("root".to_string(), "p".to_string()))), Ok("root".to_string()));
    assert_eq!(
        handshake_user(Ok(("Root".to_string(), "p".to_string()))),
        Err(HandshakeError::UnknownUser("Root".to_string()))
    );
    assert_eq!(
        handshake_user(Err("bad wire type".to_string())),
        Err(HandshakeError::BadPayload("bad wire type".to_string()))
    );
}

#[test]
fn token_text_from_metadata() {
    assert_eq!(auth_token_text(None), Err(TokenError::Empty));
    assert_eq!(auth_token_text(Some(vec![0xff, 0xfe])), Err(TokenError::Empty));
    assert_eq!(auth_token_text(Some(b"tok.en".to_vec())), Ok("tok.en".to_string()));
    assert_eq!(auth_token_text(Some(vec![])), Ok(String::new()));
}
