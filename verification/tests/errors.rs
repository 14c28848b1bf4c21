use encryption_node::crypto::CryptoError;
use encryption_node::error::Error;
use encryption_node::ipfs::IpfsError;
use encryption_node::key_client::KeyClientError;

#[test]
fn conversions_tag_the_failing_part() {
    assert!(matches!(Error::from(CryptoError::Encrypt), Error::Crypto(CryptoError::Encrypt)));
    assert!(matches!(Error::from(IpfsError::MissingHash), Error::Ipfs(IpfsError::MissingHash)));
    assert!(matches!(
        Error::from(KeyClientError::ServerRejected("m".to_string())),
        Error::Key(KeyClientError::ServerRejected(_))
    ));
    assert!(matches!(Error::from(std::io::Error::other("x")), Error::Io(_)));
    assert!(matches!(
        KeyClientError::from(CryptoError::InvalidKeyLength(3)),
        KeyClientError::InvalidKeyMaterial(CryptoError::InvalidKeyLength(3))
    ));
    assert!(matches!(
        KeyClientError::from(tonic::Status::unavailable("down")),
        KeyClientError::Rpc(_)
    ));
}
