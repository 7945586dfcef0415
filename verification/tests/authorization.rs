use etl_updater::client::authorization::{insert_token, token_is_sendable, try_insert_token};
use etl_updater::server::authorization::{begin, client_token, AuthError, AuthorizationLayer};
use hyper::header::HeaderValue;
use tonic::metadata::MetadataMap;

#[test]
fn missing_header_is_refused() {
    assert_eq!(client_token(None).unwrap_err(), AuthError::MissingClientToken);
    let e = begin(Some("s3cret".to_string()), None).err().unwrap();
    assert_eq!(e, AuthError::MissingClientToken);
    assert_eq!(e.message(), "Missing client token.");
}

#[test]
fn readable_header_is_read() {
    let v = HeaderValue::from_static("s3cret");
    assert_eq!(client_token(Some(&v)).unwrap(), "s3cret");
    let tab = HeaderValue::from_bytes(b"a\tb").unwrap();
    assert_eq!(client_token(Some(&tab)).unwrap(), "a\tb");
}

#[test]
fn unreadable_header_is_refused() {
    let v = HeaderValue::from_bytes(b"caf\xe9").unwrap();
    let e = client_token(Some(&v)).unwrap_err();
    assert_eq!(e, AuthError::UnreadableClientToken);
    assert_eq!(e.message(), "failed to convert header to a str");
}

#[test]
fn matching_token_is_admitted() {
    let v = HeaderValue::from_static("s3cret");
    let pending = begin(Some("s3cret".to_string()), Some(&v)).ok().unwrap();
    assert_eq!(pending.expected, "s3cret");
    assert_eq!(pending.presented, "s3cret");
    assert_eq!(pending.finish(true), Ok(()));
}

#[test]
fn wrong_token_is_refused() {
    let v = HeaderValue::from_static("guess");
    let pending = begin(Some("s3cret".to_string()), Some(&v)).ok().unwrap();
    let e = pending.finish(true).unwrap_err();
    assert_eq!(e, AuthError::InvalidClientToken);
    assert_eq!(e.message(), "Invalid client token.");
}

#[test]
fn service_failure_is_reported_first() {
    let v = HeaderValue::from_static("guess");
    let pending = begin(Some("s3cret".to_string()), Some(&v)).ok().unwrap();
    let e = pending.finish(false).unwrap_err();
    assert_eq!(e, AuthError::ServiceFailed);
    assert_eq!(e.message(), "Error preparing service response.");
}

#[test]
fn unreadable_configuration_expects_empty_token() {
    let empty = HeaderValue::from_static("");
    assert_eq!(begin(None, Some(&empty)).ok().unwrap().finish(true), Ok(()));
    let some = HeaderValue::from_static("s3cret");
    assert_eq!(
        begin(None, Some(&some)).ok().unwrap().finish(true),
        Err(AuthError::InvalidClientToken)
    );
}

#[test]
fn layer_keeps_configuration_path() {
    let layer = AuthorizationLayer::new("/etc/etl/server.toml");
    assert_eq!(layer.config.as_str(), "/etc/etl/server.toml");
    let wrapped = layer.layer(41u32);
    assert_eq!(wrapped.config.as_str(), "/etc/etl/server.toml");
    assert!(std::sync::Arc::ptr_eq(&wrapped.config, &layer.config));
    assert_eq!(wrapped.inner, 41u32);
}

#[test]
fn sendable_tokens() {
    assert!(token_is_sendable("s3cret"));
    assert!(token_is_sendable(""));
    assert!(token_is_sendable("a\tb"));
    assert!(token_is_sendable("caf\u{e9}"));
    assert!(!token_is_sendable("a\nb"));
    assert!(!token_is_sendable("a\u{7f}"));
}

#[test]
fn token_is_inserted() {
    let mut m = MetadataMap::new();
    insert_token(&mut m, "s3cret");
    assert_eq!(m.get("token").unwrap(), "s3cret");
    assert_eq!(m.len(), 1);
}

#[test]
fn token_replaces_earlier_values() {
    let mut m = MetadataMap::new();
    m.insert("token", "old".parse().unwrap());
    m.append("token", "older".parse().unwrap());
    m.insert("other", "kept".parse().unwrap());
    insert_token(&mut m, "new");
    let values: Vec<_> = m.get_all("token").iter().collect();
    assert_eq!(values.len(), 1);
    assert_eq!(values[0], "new");
    assert_eq!(m.get("other").unwrap(), "kept");
}

#[test]
fn sent_token_is_read_back_and_admitted() {
    let mut m = MetadataMap::new();
    insert_token(&mut m, "s3cret");
    let headers = m.into_headers();
    let header = headers.get("token");
    assert_eq!(client_token(header).unwrap(), "s3cret");
    let pending = begin(Some("s3cret".to_string()), header).ok().unwrap();
    assert_eq!(pending.finish(true), Ok(()));
}

#[test]
fn non_ascii_token_is_sent_but_unreadable() {
    let mut m = MetadataMap::new();
    insert_token(&mut m, "caf\u{e9}");
    let headers = m.into_headers();
    assert_eq!(client_token(headers.get("token")).unwrap_err(), AuthError::UnreadableClientToken);
}

#[test]
fn try_insert_accepts_sendable_token() {
    let mut m = MetadataMap::new();
    assert!(try_insert_token(&mut m, "s3cret"));
    assert_eq!(m.get("token").unwrap(), "s3cret");
}

#[test]
fn try_insert_leaves_map_for_unsendable_token() {
    let mut m = MetadataMap::new();
    m.insert("token", "old".parse().unwrap());
    assert!(!try_insert_token(&mut m, "bad\ntoken"));
    assert_eq!(m.get("token").unwrap(), "old");
    assert_eq!(m.len(), 1);
}
