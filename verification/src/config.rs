//! Runtime configuration collected by binaries and passed into the library.

use std::time::Duration;
use tonic::transport::Uri;
use url::Url;
use vstd::prelude::*;

verus! {

/// `url::Url`, carried through as an opaque value.
#[verifier::external_type_specification]
#[verifier::external_body]
pub struct ExUrl(Url);

/// `http::Uri` (re-exported by tonic), carried through as an opaque value.
#[verifier::external_type_specification]
#[verifier::external_body]
pub struct ExUri(Uri);

/// Endpoints and policy knobs for a single run of the client.
///
/// The library never reads config from the environment or disk; binaries
/// construct this and pass it in.
pub struct Config {
    pub ipfs_url: Url,
    pub key_server_url: Uri,
    pub default_ttl: Duration,
}

} // verus!
