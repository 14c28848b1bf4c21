use encryption_node::client::get_key_reply;
use encryption_node::crypto::{CryptoError, SecretKey};
use encryption_node::error::Error;
use encryption_node::experiment::{count_leak, outcome_label, random_bytes};
use encryption_node::ipfs::IpfsError;
use encryption_node::key_client::{KeyClient, KeyClientError};

#[test]
fn refused_key_carries_server_message() {
    match KeyClient::key_from_response(false, "expired".to_string(), &[0u8; 32]) {
        Err(KeyClientError::ServerRejected(m)) => assert_eq!(m, "expired"),
        _ => panic!("expected ServerRejected"),
    }
}

#[test]
fn malformed_key_material_is_reported() {
    assert!(matches!(
        KeyClient::key_from_response(true, String::new(), &[1u8; 31]),
        Err(KeyClientError::InvalidKeyMaterial(CryptoError::InvalidKeyLength(31)))
    ));
}

#[test]
fn accepted_key_is_the_returned_material() {
    let key = KeyClient::key_from_response(true, String::new(), &[3u8; 32]).expect("key");
    assert_eq!(key.expose(), &[3u8; 32][..]);
}

#[test]
fn registration_carries_cid_key_and_ttl() {
    let key = SecretKey::from_bytes(&[4u8; 32]).expect("key");
    let r = KeyClient::registration("bafycid", &key, 86_400);
    assert_eq!(r.cid, "bafycid");
    assert_eq!(r.encryption_key, vec![4u8; 32]);
    assert_eq!(r.ttl_seconds, 86_400);
    assert!(!r.is_replication);
}

#[test]
fn registration_ttl_wraps_above_i64_max() {
    let key = SecretKey::generate();
    let r = KeyClient::registration("c", &key, u64::MAX);
    assert_eq!(r.ttl_seconds, -1);
}

#[test]
fn get_key_reply_success_and_refusal() {
    assert_eq!(get_key_reply(true, vec![1, 2, 3], "ok"), Ok(vec![1, 2, 3]));
    assert_eq!(
        get_key_reply(false, vec![1], "not found"),
        Err("Error from server: not found".to_string())
    );
}

#[test]
fn random_bytes_has_requested_length() {
    assert_eq!(random_bytes(0).len(), 0);
    assert_eq!(random_bytes(4096).len(), 4096);
    assert_ne!(random_bytes(64), random_bytes(64));
}

#[test]
fn outcome_labels_name_the_failing_part() {
    assert_eq!(outcome_label(&Ok(vec![1])), "leak");
    assert_eq!(
        outcome_label(&Err(Error::Key(KeyClientError::ServerRejected("x".to_string())))),
        "key_rejected"
    );
    assert_eq!(
        outcome_label(&Err(Error::Key(KeyClientError::InvalidKeyMaterial(
            CryptoError::InvalidKeyLength(1)
        )))),
        "key_invalid_material"
    );
    assert_eq!(
        outcome_label(&Err(Error::Key(KeyClientError::Rpc(tonic::Status::not_found("gone"))))),
        "key_rpc_error"
    );
    assert_eq!(outcome_label(&Err(Error::Ipfs(IpfsError::MissingHash))), "ipfs_error");
    assert_eq!(outcome_label(&Err(Error::Crypto(CryptoError::AuthFailure))), "crypto_error");
    assert_eq!(
        outcome_label(&Err(Error::Io(std::io::Error::other("disk")))),
        "io_error"
    );
}

#[test]
fn add_response_hash_is_read_or_missing() {
    let ok: serde_json::Value = serde_json::from_str(r#"{"Name":"file","Hash":"QmHash","Size":"3"}"#).unwrap();
    assert_eq!(
        encryption_node::ipfs::IpfsClient::hash_from_add_response(&ok).expect("hash"),
        "QmHash"
    );
    let missing: serde_json::Value = serde_json::from_str(r#"{"Name":"file"}"#).unwrap();
    assert!(matches!(
        encryption_node::ipfs::IpfsClient::hash_from_add_response(&missing),
        Err(IpfsError::MissingHash)
    ));
    let not_string: serde_json::Value = serde_json::from_str(r#"{"Hash":7}"#).unwrap();
    assert!(matches!(
        encryption_node::ipfs::IpfsClient::hash_from_add_response(&not_string),
        Err(IpfsError::MissingHash)
    ));
}

#[test]
fn ipfs_urls_join_onto_the_base() {
    let base = url::Url::parse("http://127.0.0.1:5001/").unwrap();
    let client = encryption_node::ipfs::IpfsClient::new(base.clone());
    assert_eq!(client.base(), &base);
    assert_eq!(client.add_url().expect("add").as_str(), "http://127.0.0.1:5001/api/v0/add");
    assert_eq!(
        client.cat_url("QmHash").expect("cat").as_str(),
        "http://127.0.0.1:5001/api/v0/cat?arg=QmHash"
    );
}

#[test]
fn ipfs_url_failure_is_a_url_error() {
    let base = url::Url::parse("mailto:someone@example.com").unwrap();
    let client = encryption_node::ipfs::IpfsClient::new(base);
    assert!(matches!(client.add_url(), Err(IpfsError::Url(_))));
}

#[test]
fn endpoint_url_keeps_the_url_or_tags_the_failure() {
    let url = url::Url::parse("http://127.0.0.1:5001/api/v0/add").unwrap();
    let kept = encryption_node::ipfs::IpfsClient::endpoint_url(Ok(url.clone())).expect("url");
    assert_eq!(kept, url);
    assert!(matches!(
        encryption_node::ipfs::IpfsClient::endpoint_url(Err(url::ParseError::EmptyHost)),
        Err(IpfsError::Url(url::ParseError::EmptyHost))
    ));
}

#[test]
fn cid_or_missing_keeps_the_hash() {
    assert_eq!(
        encryption_node::ipfs::IpfsClient::cid_or_missing(Some("QmX".to_string())).expect("cid"),
        "QmX"
    );
    assert!(matches!(
        encryption_node::ipfs::IpfsClient::cid_or_missing(None),
        Err(IpfsError::MissingHash)
    ));
}

#[test]
fn checked_cat_url_matches_cat_url() {
    let base = url::Url::parse("http://127.0.0.1:5001/x/").unwrap();
    let client = encryption_node::ipfs::IpfsClient::new(base);
    let url = client.checked_cat_url("a b&c").expect("fits").expect("url");
    assert_eq!(url.as_str(), "http://127.0.0.1:5001/x/api/v0/cat?arg=a+b%26c");
    assert_eq!(client.add_url().unwrap().as_str(), "http://127.0.0.1:5001/x/api/v0/add");
}

#[test]
fn transport_error_converts() {
    let err = reqwest::Client::new().get("not a url").build().unwrap_err();
    assert!(matches!(IpfsError::from(err), IpfsError::Transport(_)));
}

#[test]
fn leak_count_grows_only_on_success() {
    assert_eq!(count_leak(2, &Ok(vec![])), 3);
    assert_eq!(count_leak(2, &Err(Error::Ipfs(IpfsError::MissingHash))), 2);
}
