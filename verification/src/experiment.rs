//! Pieces of the TTL experiment: the random payloads it publishes and the
//! labels it records for each retrieval after the TTL has elapsed.

use vstd::prelude::*;

use crate::crypto::fill_random;
use crate::error::Error;
use crate::key_client::KeyClientError;

verus! {

/// A payload of `size` bytes drawn from the OS CSPRNG.
pub fn random_bytes(size: usize) -> (buf: Vec<u8>)
    ensures
        buf@.len() == size,
{
    let mut buf: Vec<u8> = Vec::new();
    for _i in 0..size
        invariant
            buf@.len() == _i,
    {
        buf.push(0u8);
    }
    fill_random(buf.as_mut_slice());
    buf
}

/// The leak count after one more retrieval past the TTL: a retrieval that
/// succeeded is a leak.
pub fn count_leak(leaks: u32, post_result: &Result<Vec<u8>, Error>) -> (r: u32)
    requires
        leaks < u32::MAX,
    ensures
        r == if post_result is Ok { leaks + 1 } else { leaks as int },
{
    if post_result.is_ok() {
        leaks + 1
    } else {
        leaks
    }
}

/// The CSV label of a retrieval outcome: a success after the TTL is a leak;
/// each failure is named after the part that failed.
pub open spec fn outcome_label_text(result: Result<Vec<u8>, Error>) -> Seq<char> {
    match result {
        Ok(_) => "leak"@,
        Err(Error::Key(KeyClientError::ServerRejected(_))) => "key_rejected"@,
        Err(Error::Key(KeyClientError::Connect(_))) => "key_connect_error"@,
        Err(Error::Key(KeyClientError::Rpc(_))) => "key_rpc_error"@,
        Err(Error::Key(KeyClientError::InvalidKeyMaterial(_))) => "key_invalid_material"@,
        Err(Error::Ipfs(_)) => "ipfs_error"@,
        Err(Error::Crypto(_)) => "crypto_error"@,
        Err(Error::Io(_)) => "io_error"@,
    }
}

/// Each outcome kind has its own label, and each label names exactly one
/// kind: a success past the TTL is `leak`; a key server's refusal is
/// `key_rejected`, and only a refusal is; a key server that could not be
/// reached is `key_connect_error`; and so on for each failing part.
pub proof fn lemma_outcome_labels(result: Result<Vec<u8>, Error>)
    ensures
        (result is Ok) <==> outcome_label_text(result) == "leak"@,
        (result matches Err(Error::Key(KeyClientError::ServerRejected(_)))) <==> outcome_label_text(result) == "key_rejected"@,
        (result matches Err(Error::Key(KeyClientError::Connect(_)))) <==> outcome_label_text(result) == "key_connect_error"@,
        (result matches Err(Error::Key(KeyClientError::Rpc(_)))) <==> outcome_label_text(result) == "key_rpc_error"@,
        (result matches Err(Error::Key(KeyClientError::InvalidKeyMaterial(_)))) <==> outcome_label_text(result) == "key_invalid_material"@,
        (result matches Err(Error::Ipfs(_))) <==> outcome_label_text(result) == "ipfs_error"@,
        (result matches Err(Error::Crypto(_))) <==> outcome_label_text(result) == "crypto_error"@,
        (result matches Err(Error::Io(_))) <==> outcome_label_text(result) == "io_error"@,
{
    reveal_strlit("leak");
    reveal_strlit("key_rejected");
    reveal_strlit("key_connect_error");
    reveal_strlit("key_rpc_error");
    reveal_strlit("key_invalid_material");
    reveal_strlit("ipfs_error");
    reveal_strlit("crypto_error");
    reveal_strlit("io_error");
    assert("leak"@.len() == 4);
    assert("key_rejected"@.len() == 12);
    assert("key_connect_error"@.len() == 17);
    assert("key_rpc_error"@.len() == 13);
    assert("key_invalid_material"@.len() == 20);
    assert("ipfs_error"@.len() == 10);
    assert("crypto_error"@.len() == 12);
    assert("io_error"@.len() == 8);
    assert("leak"@ != "key_rejected"@);
    assert("leak"@ != "key_connect_error"@);
    assert("leak"@ != "key_rpc_error"@);
    assert("leak"@ != "key_invalid_material"@);
    assert("leak"@ != "ipfs_error"@);
    assert("leak"@ != "crypto_error"@);
    assert("leak"@ != "io_error"@);
    assert("key_rejected"@ != "key_connect_error"@);
    assert("key_rejected"@ != "key_rpc_error"@);
    assert("key_rejected"@ != "key_invalid_material"@);
    assert("key_rejected"@ != "ipfs_error"@);
    assert("key_rejected"@[0] != "crypto_error"@[0]);
    assert("key_rejected"@ != "crypto_error"@);
    assert("key_rejected"@ != "io_error"@);
    assert("key_connect_error"@ != "key_rpc_error"@);
    assert("key_connect_error"@ != "key_invalid_material"@);
    assert("key_connect_error"@ != "ipfs_error"@);
    assert("key_connect_error"@ != "crypto_error"@);
    assert("key_connect_error"@ != "io_error"@);
    assert("key_rpc_error"@ != "key_invalid_material"@);
    assert("key_rpc_error"@ != "ipfs_error"@);
    assert("key_rpc_error"@ != "crypto_error"@);
    assert("key_rpc_error"@ != "io_error"@);
    assert("key_invalid_material"@ != "ipfs_error"@);
    assert("key_invalid_material"@ != "crypto_error"@);
    assert("key_invalid_material"@ != "io_error"@);
    assert("ipfs_error"@ != "crypto_error"@);
    assert("ipfs_error"@ != "io_error"@);
    assert("crypto_error"@ != "io_error"@);
}

/// Labels the outcome of a retrieval for the experiment's CSV output.
pub fn outcome_label(result: &Result<Vec<u8>, Error>) -> (label: &'static str)
    ensures
        label@ == outcome_label_text(*result),
        (*result is Ok) <==> label@ == "leak"@,
        (*result matches Err(Error::Key(KeyClientError::ServerRejected(_)))) <==> label@ == "key_rejected"@,
        (*result matches Err(Error::Key(KeyClientError::Connect(_)))) <==> label@ == "key_connect_error"@,
        (*result matches Err(Error::Key(KeyClientError::Rpc(_)))) <==> label@ == "key_rpc_error"@,
        (*result matches Err(Error::Key(KeyClientError::InvalidKeyMaterial(_)))) <==> label@ == "key_invalid_material"@,
        (*result matches Err(Error::Ipfs(_))) <==> label@ == "ipfs_error"@,
        (*result matches Err(Error::Crypto(_))) <==> label@ == "crypto_error"@,
        (*result matches Err(Error::Io(_))) <==> label@ == "io_error"@,
{
    proof {
        lemma_outcome_labels(*result);
    }
    match result {
        Ok(_) => "leak",
        Err(Error::Key(KeyClientError::ServerRejected(_))) => "key_rejected",
        Err(Error::Key(KeyClientError::Connect(_))) => "key_connect_error",
        Err(Error::Key(KeyClientError::Rpc(_))) => "key_rpc_error",
        Err(Error::Key(KeyClientError::InvalidKeyMaterial(_))) => "key_invalid_material",
        Err(Error::Ipfs(_)) => "ipfs_error",
        Err(Error::Crypto(_)) => "crypto_error",
        Err(Error::Io(_)) => "io_error",
    }
}

} // verus!
