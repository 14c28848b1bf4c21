//! Crate-level error type aggregating per-module errors.

use crate::crypto::CryptoError;
use crate::ipfs::IpfsError;
use crate::key_client::KeyClientError;
use vstd::prelude::*;
use vstd::std_specs::convert::FromSpecImpl;

verus! {

/// `std::io::Error`, carried through as an opaque value.
#[verifier::external_type_specification]
#[verifier::external_body]
pub struct ExIoError(std::io::Error);

/// Every failure the library reports, tagged by the part that failed.
#[derive(Debug)]
pub enum Error {
    Ipfs(IpfsError),
    Key(KeyClientError),
    Crypto(CryptoError),
    Io(std::io::Error),
}

impl From<IpfsError> for Error {
    fn from(e: IpfsError) -> (r: Self) {
        Error::Ipfs(e)
    }
}

impl FromSpecImpl<IpfsError> for Error {
    open spec fn obeys_from_spec() -> bool {
        true
    }

    open spec fn from_spec(e: IpfsError) -> Self {
        Error::Ipfs(e)
    }
}

impl From<KeyClientError> for Error {
    fn from(e: KeyClientError) -> (r: Self) {
        Error::Key(e)
    }
}

impl FromSpecImpl<KeyClientError> for Error {
    open spec fn obeys_from_spec() -> bool {
        true
    }

    open spec fn from_spec(e: KeyClientError) -> Self {
        Error::Key(e)
    }
}

impl From<CryptoError> for Error {
    fn from(e: CryptoError) -> (r: Self) {
        Error::Crypto(e)
    }
}

impl FromSpecImpl<CryptoError> for Error {
    open spec fn obeys_from_spec() -> bool {
        true
    }

    open spec fn from_spec(e: CryptoError) -> Self {
        Error::Crypto(e)
    }
}

impl From<std::io::Error> for Error {
    fn from(e: std::io::Error) -> (r: Self) {
        Error::Io(e)
    }
}

impl FromSpecImpl<std::io::Error> for Error {
    open spec fn obeys_from_spec() -> bool {
        true
    }

    open spec fn from_spec(e: std::io::Error) -> Self {
        Error::Io(e)
    }
}

} // verus!
