//! Client for the TTL-gated key server: the requests it sends and the reading
//! of the server's answers. The gRPC exchange itself is the caller's.

use tonic::transport::{Endpoint, Uri};
use tonic::transport::Error as TransportError;
use vstd::prelude::*;
use vstd::slice::slice_to_vec;
use vstd::std_specs::convert::FromSpecImpl;

use crate::crypto::{CryptoError, SecretKey};

verus! {

/// `tonic::transport::Endpoint`, carried through as an opaque value.
#[verifier::external_type_specification]
#[verifier::external_body]
pub struct ExEndpoint(Endpoint);

/// `TransportError`, carried through as an opaque value.
#[verifier::external_type_specification]
#[verifier::external_body]
pub struct ExTransportError(TransportError);

/// `tonic::Status`, carried through as an opaque value.
#[verifier::external_type_specification]
#[verifier::external_body]
pub struct ExStatus(tonic::Status);

/// The endpoint that `Endpoint::from` builds for `uri`: aimed at `uri`, with
/// default settings, not yet connected.
pub uninterp spec fn endpoint_of(uri: Uri) -> Endpoint;

/// `Endpoint::from(Uri)`. The contract claims that the endpoint is the named
/// one for `uri`. (It opens no connection.)
#[verifier::external_body]
fn endpoint_from_uri(uri: Uri) -> (e: Endpoint)
    ensures
        e == endpoint_of(uri),
{
    Endpoint::from(uri)
}

/// Errors of talking to the key server.
#[derive(Debug)]
pub enum KeyClientError {
    /// No connection to the key server.
    Connect(TransportError),
    /// The RPC failed.
    Rpc(tonic::Status),
    /// The server answered that it will not hand out the key; holds its message.
    ServerRejected(String),
    /// The server returned malformed key material.
    InvalidKeyMaterial(CryptoError),
}

impl From<tonic::Status> for KeyClientError {
    fn from(status: tonic::Status) -> (r: Self) {
        KeyClientError::Rpc(status)
    }
}

impl FromSpecImpl<tonic::Status> for KeyClientError {
    open spec fn obeys_from_spec() -> bool {
        true
    }

    open spec fn from_spec(status: tonic::Status) -> Self {
        KeyClientError::Rpc(status)
    }
}

impl From<CryptoError> for KeyClientError {
    fn from(e: CryptoError) -> (r: Self) {
        KeyClientError::InvalidKeyMaterial(e)
    }
}

impl FromSpecImpl<CryptoError> for KeyClientError {
    open spec fn obeys_from_spec() -> bool {
        true
    }

    open spec fn from_spec(e: CryptoError) -> Self {
        KeyClientError::InvalidKeyMaterial(e)
    }
}

/// The fields of a `RegisterKey` request.
pub struct KeyRegistration {
    pub cid: String,
    pub encryption_key: Vec<u8>,
    pub ttl_seconds: i64,
    pub is_replication: bool,
}

pub struct KeyClient {
    endpoint: Endpoint,
}

impl KeyClient {
    /// A client whose connections go to `uri`; nothing is connected yet.
    pub fn new(uri: Uri) -> (client: Self)
        ensures
            client.connection_endpoint() == endpoint_of(uri),
    {
        KeyClient { endpoint: endpoint_from_uri(uri) }
    }

    /// The endpoint that the client's connections are made from.
    pub closed spec fn connection_endpoint(&self) -> Endpoint {
        self.endpoint
    }

    /// The endpoint that connections to the key server are made from.
    pub fn endpoint(&self) -> (endpoint: &Endpoint)
        ensures
            *endpoint == self.connection_endpoint(),
    {
        &self.endpoint
    }

    /// The `RegisterKey` request that stores `key` under `cid` for
    /// `ttl_secs` whole seconds: the key bytes as they are, the TTL as a
    /// signed count (wrapping above `i64::MAX`), never a replication.
    pub fn registration(cid: &str, key: &SecretKey, ttl_secs: u64) -> (r: KeyRegistration)
        ensures
            r.cid@ == cid@,
            r.encryption_key@ == key@,
            r.ttl_seconds == ttl_secs as i64,
            !r.is_replication,
    {
        KeyRegistration {
            cid: cid.to_string(),
            encryption_key: slice_to_vec(key.expose()),
            ttl_seconds: ttl_secs as i64,
            is_replication: false,
        }
    }

    /// Reads the answer to a `GetKey` request: a refusal carries the server's
    /// message; otherwise the key material must be a well-formed key.
    pub fn key_from_response(success: bool, message: String, encryption_key: &[u8]) -> (r: Result<SecretKey, KeyClientError>)
        ensures
            !success ==> (r matches Err(KeyClientError::ServerRejected(m)) && m@ == message@),
            success ==> (r is Ok <==> encryption_key@.len() == crate::crypto::KEY_LEN),
            success && r is Err ==> (r matches Err(KeyClientError::InvalidKeyMaterial(e))
                && e == CryptoError::InvalidKeyLength(encryption_key@.len() as usize)),
            r matches Ok(key) ==> key@ == encryption_key@,
    {
        if !success {
            return Err(KeyClientError::ServerRejected(message));
        }
        match SecretKey::from_bytes(encryption_key) {
            Ok(key) => Ok(key),
            Err(e) => Err(KeyClientError::InvalidKeyMaterial(e)),
        }
    }
}

} // verus!
