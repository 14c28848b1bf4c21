//! XChaCha20-Poly1305 AEAD with a versioned envelope format.
//!
//! This module owns all symmetric-cipher state in the crate. `SecretKey`
//! is the only carrier of raw key bytes outside the gRPC boundary.
//!
//! A v1 envelope is `version(1) || nonce(24) || ciphertext+tag`.

use chacha20poly1305::aead::Aead;
use chacha20poly1305::{Key, KeyInit, XChaCha20Poly1305, XNonce};
use rand::rngs::OsRng;
use rand::RngCore;
use chacha20poly1305::Error as AeadError;
use vstd::prelude::*;
use vstd::slice::slice_subrange;
use zeroize::Zeroize;

verus! {

/// Version byte that opens every envelope this module writes.
pub const ENVELOPE_VERSION_V1: u8 = 0x01;

/// Length of the XChaCha20 nonce carried in the envelope header.
pub const NONCE_LEN: usize = 24;

/// Length of the Poly1305 tag appended to the ciphertext.
pub const TAG_LEN: usize = 16;

/// Length of the envelope header: the version byte and the nonce.
pub const HEADER_LEN: usize = 1 + NONCE_LEN;

/// Length of a symmetric key.
pub const KEY_LEN: usize = 32;

/// The error of the AEAD cipher (`aead::Error`), a unit struct.
#[verifier::external_type_specification]
#[verifier::external_body]
pub struct ExAeadError(AeadError);

/// What XChaCha20-Poly1305 encryption under `key` and `nonce`, with empty
/// associated data, makes of `plaintext`: the ciphertext followed by the tag.
pub uninterp spec fn xchacha20poly1305_seal(key: Seq<u8>, nonce: Seq<u8>, plaintext: Seq<u8>) -> Seq<u8>;

/// What XChaCha20-Poly1305 decryption under `key` and `nonce`, with empty
/// associated data, makes of `ciphertext` (ciphertext followed by tag):
/// the plaintext, or `None` where the tag does not verify.
pub uninterp spec fn xchacha20poly1305_open(key: Seq<u8>, nonce: Seq<u8>, ciphertext: Seq<u8>) -> Option<Seq<u8>>;

/// The Poly1305 tag that XChaCha20-Poly1305 under `key` and `nonce`, with empty
/// associated data, computes over `ciphertext`.
pub uninterp spec fn xchacha20poly1305_tag(key: Seq<u8>, nonce: Seq<u8>, ciphertext: Seq<u8>) -> Seq<u8>;

/// Messages the cipher does not refuse: fewer than `u32::MAX` whole blocks of
/// 64 bytes. (Not all of them can be finished: see [`keystream_suffices`].)
pub open spec fn within_cipher_limit(len: nat) -> bool {
    len / 64 < u32::MAX as nat
}

/// Message lengths on which the cipher does not run out of keystream midway.
/// The cipher refuses messages of `u32::MAX` or more whole blocks, but with
/// its block counter starting at 1 only `u32::MAX - 1` blocks of keystream
/// remain: a message of `u32::MAX - 1` whole blocks and a partial block is
/// accepted and then makes the stream cipher panic.
pub open spec fn keystream_suffices(len: nat) -> bool {
    len / 64 < (u32::MAX - 1) as nat || len % 64 == 0 || len / 64 >= u32::MAX as nat
}

/// Envelopes whose decryption cannot run out of keystream: too short to be
/// opened, of another version (refused before the cipher runs), or with a
/// sealed message whose ciphertext part the keystream covers.
pub open spec fn decryptable_envelope(envelope: Seq<u8>) -> bool {
    ||| envelope.len() < HEADER_LEN + TAG_LEN
    ||| envelope[0] != ENVELOPE_VERSION_V1
    ||| keystream_suffices((envelope.len() - HEADER_LEN - TAG_LEN) as nat)
}

/// Whether the tag at the end of `envelope` is the one the cipher computes
/// under `key` over the envelope's nonce and ciphertext.
pub open spec fn tag_verifies(key: Seq<u8>, envelope: Seq<u8>) -> bool {
    &&& envelope.len() >= HEADER_LEN + TAG_LEN
    &&& envelope.subrange(envelope.len() - TAG_LEN, envelope.len() as int) == xchacha20poly1305_tag(
        key,
        envelope.subrange(1, HEADER_LEN as int),
        envelope.subrange(HEADER_LEN as int, envelope.len() - TAG_LEN),
    )
}

/// `Zeroize::zeroize` on a byte array: overwrites every byte with zero in a
/// way the compiler does not elide. The contract claims that the array then
/// holds only zeros.
#[verifier::external_body]
fn wipe(bytes: &mut [u8; KEY_LEN])
    ensures
        final(bytes)@ == Seq::new(KEY_LEN as nat, |i: int| 0u8),
    opens_invariants none
    no_unwind
{
    bytes.zeroize()
}

/// `RngCore::fill_bytes` on `rand::rngs::OsRng`: overwrites `buf` with bytes
/// from the operating system's CSPRNG. The contract claims only that the
/// length is kept: what the bytes are rests on chance. (`OsRng` panics where
/// the operating system cannot supply randomness.)
#[verifier::external_body]
pub(crate) fn fill_random(buf: &mut [u8])
    ensures
        final(buf)@.len() == old(buf)@.len(),
{
    OsRng.fill_bytes(buf)
}

/// `Aead::encrypt` of `XChaCha20Poly1305` with empty associated data.
/// The contract claims what the crate's source shows: the call fails exactly
/// when the message exceeds the block-counter limit; otherwise it returns the
/// named seal, `TAG_LEN` bytes longer than the plaintext, which decryption
/// under the same key and nonce turns back into the plaintext; its last
/// `TAG_LEN` bytes are the named tag over the bytes before them. Lengths on
/// which the stream cipher would run out of keystream (and panic) are left
/// out by `requires`.
#[verifier::external_body]
fn xchacha20poly1305_encrypt(key: &[u8], nonce: &[u8], plaintext: &[u8]) -> (r: Result<Vec<u8>, AeadError>)
    requires
        key@.len() == KEY_LEN,
        nonce@.len() == NONCE_LEN,
        plaintext@.len() + TAG_LEN <= isize::MAX,
        keystream_suffices(plaintext@.len()),
    ensures
        r is Ok <==> within_cipher_limit(plaintext@.len()),
        r matches Ok(c) ==> {
            &&& c@ == xchacha20poly1305_seal(key@, nonce@, plaintext@)
            &&& c@.len() == plaintext@.len() + TAG_LEN
            &&& xchacha20poly1305_open(key@, nonce@, c@) == Some(plaintext@)
            &&& c@.subrange(plaintext@.len() as int, c@.len() as int) == xchacha20poly1305_tag(
                key@,
                nonce@,
                c@.subrange(0, plaintext@.len() as int),
            )
        },
{
    XChaCha20Poly1305::new(Key::from_slice(key)).encrypt(XNonce::from_slice(nonce), plaintext)
}

/// `Aead::decrypt` of `XChaCha20Poly1305` with empty associated data.
/// The contract claims that the call succeeds exactly where the named opening
/// is some plaintext, returns that plaintext, and that the plaintext is
/// `TAG_LEN` bytes shorter than the input (the tag is stripped). As the
/// source shows (the tag is verified over the ciphertext before the keystream
/// is applied), it succeeds exactly when the input is long enough, within the
/// block limit, and ends in the named tag over the bytes before it; and the
/// plaintext it returns seals back to exactly the input. Lengths on
/// which the stream cipher would run out of keystream after the tag verifies
/// (and panic) are left out by `requires`.
#[verifier::external_body]
fn xchacha20poly1305_decrypt(key: &[u8], nonce: &[u8], ciphertext: &[u8]) -> (r: Result<Vec<u8>, AeadError>)
    requires
        key@.len() == KEY_LEN,
        nonce@.len() == NONCE_LEN,
        ciphertext@.len() < TAG_LEN || keystream_suffices((ciphertext@.len() - TAG_LEN) as nat),
    ensures
        r is Ok <==> xchacha20poly1305_open(key@, nonce@, ciphertext@) is Some,
        r matches Ok(p) ==> {
            &&& xchacha20poly1305_open(key@, nonce@, ciphertext@) == Some(p@)
            &&& p@.len() + TAG_LEN == ciphertext@.len()
            &&& xchacha20poly1305_seal(key@, nonce@, p@) == ciphertext@
        },
        r is Ok <==> {
            &&& ciphertext@.len() >= TAG_LEN
            &&& within_cipher_limit((ciphertext@.len() - TAG_LEN) as nat)
            &&& ciphertext@.subrange(ciphertext@.len() - TAG_LEN, ciphertext@.len() as int)
                == xchacha20poly1305_tag(key@, nonce@, ciphertext@.subrange(0, ciphertext@.len() - TAG_LEN))
        },
{
    XChaCha20Poly1305::new(Key::from_slice(key)).decrypt(XNonce::from_slice(nonce), ciphertext)
}

/// Errors of key handling and of the envelope format.
#[derive(Debug, Clone, Copy, PartialEq, Eq, Structural)]
pub enum CryptoError {
    /// Key material of a length other than `KEY_LEN`; holds the length seen.
    InvalidKeyLength(usize),
    /// An envelope that cannot even hold header and tag.
    TooShort { len: usize, min: usize },
    /// An envelope whose version byte is not v1; holds that byte.
    UnsupportedVersion(u8),
    /// The cipher refused to encrypt.
    Encrypt,
    /// The tag did not verify (wrong key or tampered ciphertext).
    AuthFailure,
}

/// 256-bit symmetric key. Bytes are zeroized on drop.
///
/// Construct with [`SecretKey::generate`] for fresh randomness or
/// [`SecretKey::from_bytes`] when wrapping material from the gRPC boundary.
pub struct SecretKey {
    bytes: [u8; KEY_LEN],
}

impl View for SecretKey {
    type V = Seq<u8>;

    closed spec fn view(&self) -> Seq<u8> {
        self.bytes@
    }
}

impl Drop for SecretKey {
    /// Wipes the key bytes.
    fn drop(&mut self)
        opens_invariants none
        no_unwind
    {
        wipe(&mut self.bytes);
    }
}

impl Zeroize for SecretKey {
    /// Wipes the key bytes now.
    fn zeroize(&mut self)
        ensures
            final(self)@ == Seq::new(KEY_LEN as nat, |i: int| 0u8),
    {
        wipe(&mut self.bytes);
    }
}

/// Dropping a key wipes its bytes (see the `Drop` impl).
impl zeroize::ZeroizeOnDrop for SecretKey {}

impl SecretKey {
    fn from_array(bytes: [u8; KEY_LEN]) -> (key: Self)
        ensures
            key@ == bytes@,
    {
        SecretKey { bytes }
    }

    /// Draws a fresh key from the OS CSPRNG.
    pub fn generate() -> (key: Self)
        ensures
            key@.len() == KEY_LEN,
    {
        let mut bytes = [0u8; KEY_LEN];
        fill_random(&mut bytes);
        Self::from_array(bytes)
    }

    /// Wraps caller-supplied bytes, rejecting any length other than [`KEY_LEN`].
    pub fn from_bytes(bytes: &[u8]) -> (r: Result<Self, CryptoError>)
        ensures
            r is Ok <==> bytes@.len() == KEY_LEN,
            r matches Ok(key) ==> key@ == bytes@,
            r matches Err(e) ==> e == CryptoError::InvalidKeyLength(bytes@.len() as usize),
    {
        if bytes.len() != KEY_LEN {
            return Err(CryptoError::InvalidKeyLength(bytes.len()));
        }
        let mut arr = [0u8; KEY_LEN];
        for i in 0..KEY_LEN
            invariant
                bytes@.len() == KEY_LEN,
                forall|j: int| 0 <= j < i ==> arr@[j] == bytes@[j],
        {
            arr[i] = bytes[i];
        }
        assert(arr@ =~= bytes@);
        Ok(Self::from_array(arr))
    }

    /// Borrows the raw key bytes. Use only at the gRPC boundary.
    pub fn expose(&self) -> (bytes: &[u8])
        ensures
            bytes@ == self@,
            bytes@.len() == KEY_LEN,
    {
        self.bytes.as_slice()
    }
}


/// The v1 envelope around `nonce` and the sealed message `sealed`
/// (ciphertext followed by tag).
pub open spec fn envelope_of(nonce: Seq<u8>, sealed: Seq<u8>) -> Seq<u8> {
    seq![ENVELOPE_VERSION_V1] + nonce + sealed
}

/// The envelope that encryption of `plaintext` under `key` with `nonce` produces.
pub open spec fn sealed_envelope(key: Seq<u8>, nonce: Seq<u8>, plaintext: Seq<u8>) -> Seq<u8> {
    envelope_of(nonce, xchacha20poly1305_seal(key, nonce, plaintext))
}

/// How an envelope splits into nonce and sealed message, or why it is refused:
/// first too short to hold header and tag, then a version other than v1.
pub open spec fn envelope_parts(envelope: Seq<u8>) -> Result<(Seq<u8>, Seq<u8>), CryptoError> {
    if envelope.len() < HEADER_LEN + TAG_LEN {
        Err(CryptoError::TooShort { len: envelope.len() as usize, min: (HEADER_LEN + TAG_LEN) as usize })
    } else if envelope[0] != ENVELOPE_VERSION_V1 {
        Err(CryptoError::UnsupportedVersion(envelope[0]))
    } else {
        Ok((envelope.subrange(1, HEADER_LEN as int), envelope.subrange(HEADER_LEN as int, envelope.len() as int)))
    }
}

/// What decrypting `envelope` under `key` gives: the framing errors of
/// [`envelope_parts`], else the opened plaintext, else `AuthFailure`.
pub open spec fn decryption(envelope: Seq<u8>, key: Seq<u8>) -> Result<Seq<u8>, CryptoError> {
    match envelope_parts(envelope) {
        Err(e) => Err(e),
        Ok((nonce, sealed)) => match xchacha20poly1305_open(key, nonce, sealed) {
            Some(plaintext) => Ok(plaintext),
            None => Err(CryptoError::AuthFailure),
        },
    }
}

/// Whether the keystream covers a message of `len` bytes (see
/// [`keystream_suffices`]); the cipher panics on the lengths where it does not.
pub fn keystream_covers(len: usize) -> (b: bool)
    ensures
        b == keystream_suffices(len as nat),
{
    len / 64 < 0xFFFF_FFFEusize || len % 64 == 0 || len / 64 >= 0xFFFF_FFFFusize
}

/// Whether decrypting `envelope` cannot run out of keystream (see
/// [`decryptable_envelope`]).
pub fn decryptable(envelope: &[u8]) -> (b: bool)
    ensures
        b == decryptable_envelope(envelope@),
{
    envelope.len() < HEADER_LEN + TAG_LEN || envelope[0] != ENVELOPE_VERSION_V1
        || keystream_covers(envelope.len() - HEADER_LEN - TAG_LEN)
}

/// Writes the v1 envelope `version || nonce || sealed`.
pub fn frame_envelope(nonce: &[u8], sealed: &[u8]) -> (envelope: Vec<u8>)
    ensures
        envelope@ == envelope_of(nonce@, sealed@),
        envelope@.len() == 1 + nonce@.len() + sealed@.len(),
        envelope@[0] == 0x01u8,
        envelope@.subrange(1, 1 + nonce@.len() as int) == nonce@,
        envelope@.subrange(1 + nonce@.len() as int, envelope@.len() as int) == sealed@,
{
    let mut envelope: Vec<u8> = Vec::new();
    envelope.push(ENVELOPE_VERSION_V1);
    for i in 0..nonce.len()
        invariant
            envelope@ == seq![ENVELOPE_VERSION_V1] + nonce@.subrange(0, i as int),
    {
        envelope.push(nonce[i]);
        assert(nonce@.subrange(0, i + 1) =~= nonce@.subrange(0, i as int).push(nonce@[i as int]));
    }
    assert(nonce@.subrange(0, nonce@.len() as int) =~= nonce@);
    let ghost prefix = envelope@;
    for i in 0..sealed.len()
        invariant
            envelope@ == prefix + sealed@.subrange(0, i as int),
    {
        envelope.push(sealed[i]);
        assert(sealed@.subrange(0, i + 1) =~= sealed@.subrange(0, i as int).push(sealed@[i as int]));
    }
    assert(sealed@.subrange(0, sealed@.len() as int) =~= sealed@);
    assert(envelope@ =~= envelope_of(nonce@, sealed@));
    proof {
        lemma_envelope_layout(nonce@, sealed@);
    }
    envelope
}

/// Splits a v1 envelope into its nonce and its sealed message.
///
/// Errors:
/// - [`CryptoError::TooShort`] — envelope can't even hold header + tag.
/// - [`CryptoError::UnsupportedVersion`] — version byte is not v1.
pub fn parse_envelope(envelope: &[u8]) -> (r: Result<(&[u8], &[u8]), CryptoError>)
    ensures
        match r {
            Ok((nonce, sealed)) => envelope_parts(envelope@) == Ok::<(Seq<u8>, Seq<u8>), CryptoError>((nonce@, sealed@)),
            Err(e) => envelope_parts(envelope@) == Err::<(Seq<u8>, Seq<u8>), CryptoError>(e),
        },
{
    if envelope.len() < HEADER_LEN + TAG_LEN {
        return Err(CryptoError::TooShort { len: envelope.len(), min: HEADER_LEN + TAG_LEN });
    }
    let version = envelope[0];
    if version != ENVELOPE_VERSION_V1 {
        return Err(CryptoError::UnsupportedVersion(version));
    }
    let nonce = slice_subrange(envelope, 1, HEADER_LEN);
    let sealed = slice_subrange(envelope, HEADER_LEN, envelope.len());
    Ok((nonce, sealed))
}

/// Encrypts `plaintext` under `key` with the given 24-byte `nonce` and returns
/// the v1 envelope `version(1) || nonce(24) || ciphertext+tag`.
///
/// Fails with [`CryptoError::Encrypt`] exactly when the cipher refuses the
/// message (beyond its block-counter limit). Decrypting the envelope under the
/// same key gives the plaintext back.
pub fn encrypt_with_nonce(plaintext: &[u8], key: &SecretKey, nonce: &[u8]) -> (r: Result<Vec<u8>, CryptoError>)
    requires
        nonce@.len() == NONCE_LEN,
        plaintext@.len() + TAG_LEN <= isize::MAX,
        keystream_suffices(plaintext@.len()),
    ensures
        r is Ok <==> within_cipher_limit(plaintext@.len()),
        r matches Err(e) ==> e == CryptoError::Encrypt,
        r matches Ok(envelope) ==> {
            &&& envelope@ == sealed_envelope(key@, nonce@, plaintext@)
            &&& envelope@.len() == plaintext@.len() + HEADER_LEN + TAG_LEN
            &&& decryption(envelope@, key@) == Ok::<Seq<u8>, CryptoError>(plaintext@)
            &&& tag_verifies(key@, envelope@)
            &&& envelope@[0] == 0x01u8
            &&& envelope@.subrange(1, HEADER_LEN as int) == nonce@
        },
{
    let sealed = match xchacha20poly1305_encrypt(key.expose(), nonce, plaintext) {
        Ok(c) => c,
        Err(_) => return Err(CryptoError::Encrypt),
    };
    let envelope = frame_envelope(nonce, sealed.as_slice());
    proof {
        lemma_parts_of_framed(nonce@, sealed@);
        lemma_envelope_layout(nonce@, sealed@);
        let e = envelope@;
        let n = plaintext@.len() as int;
        assert(e.subrange(1, HEADER_LEN as int) =~= nonce@);
        assert(e.subrange(HEADER_LEN as int, e.len() - TAG_LEN) =~= sealed@.subrange(0, n));
        assert(e.subrange(e.len() - TAG_LEN, e.len() as int) =~= sealed@.subrange(n, sealed@.len() as int));
    }
    Ok(envelope)
}

/// Encrypts `plaintext` under `key` and returns a v1 envelope:
/// `version(1) || nonce(24) || ciphertext+tag`.
///
/// The 192-bit nonce is drawn fresh from `OsRng` per call; two encryptions of
/// the same plaintext under the same key produce different envelopes with
/// overwhelming probability.
pub fn encrypt(plaintext: &[u8], key: &SecretKey) -> (r: Result<Vec<u8>, CryptoError>)
    requires
        plaintext@.len() + TAG_LEN <= isize::MAX,
        keystream_suffices(plaintext@.len()),
    ensures
        r is Ok <==> within_cipher_limit(plaintext@.len()),
        r matches Err(e) ==> e == CryptoError::Encrypt,
        r matches Ok(envelope) ==> {
            &&& exists|nonce: Seq<u8>|
                nonce.len() == NONCE_LEN && envelope@ == #[trigger] sealed_envelope(key@, nonce, plaintext@)
            &&& envelope@.len() == plaintext@.len() + HEADER_LEN + TAG_LEN
            &&& decryption(envelope@, key@) == Ok::<Seq<u8>, CryptoError>(plaintext@)
            &&& tag_verifies(key@, envelope@)
            &&& envelope@[0] == 0x01u8
        },
{
    let mut nonce = [0u8; NONCE_LEN];
    fill_random(&mut nonce);
    let r = encrypt_with_nonce(plaintext, key, nonce.as_slice());
    proof {
        if let Ok(envelope) = &r {
            assert(envelope@ == sealed_envelope(key@, nonce@, plaintext@));
        }
    }
    r
}

/// Decrypts a v1 envelope under `key`.
///
/// Errors:
/// - [`CryptoError::TooShort`] — envelope can't even hold header + tag.
/// - [`CryptoError::UnsupportedVersion`] — version byte is not v1.
/// - [`CryptoError::AuthFailure`] — tag did not verify (wrong key or tampered ciphertext).
pub fn decrypt(envelope: &[u8], key: &SecretKey) -> (r: Result<Vec<u8>, CryptoError>)
    requires
        decryptable_envelope(envelope@),
    ensures
        match r {
            Ok(plaintext) => decryption(envelope@, key@) == Ok::<Seq<u8>, CryptoError>(plaintext@),
            Err(e) => decryption(envelope@, key@) == Err::<Seq<u8>, CryptoError>(e),
        },
        r matches Ok(plaintext) ==> plaintext@.len() + HEADER_LEN + TAG_LEN == envelope@.len(),
        r matches Ok(plaintext) ==> envelope@ == sealed_envelope(key@, envelope@.subrange(1, HEADER_LEN as int), plaintext@),
        r is Ok ==> tag_verifies(key@, envelope@),
        envelope_parts(envelope@) is Ok && tag_verifies(key@, envelope@)
            && within_cipher_limit((envelope@.len() - HEADER_LEN - TAG_LEN) as nat) ==> r is Ok,
{
    let (nonce, sealed) = match parse_envelope(envelope) {
        Ok(parts) => parts,
        Err(e) => return Err(e),
    };
    proof {
        lemma_framed_of_parts(envelope@);
        let e = envelope@;
        assert(sealed@.subrange(0, sealed@.len() - TAG_LEN) =~= e.subrange(HEADER_LEN as int, e.len() - TAG_LEN));
        assert(sealed@.subrange(sealed@.len() - TAG_LEN, sealed@.len() as int) =~= e.subrange(e.len() - TAG_LEN, e.len() as int));
    }
    match xchacha20poly1305_decrypt(key.expose(), nonce, sealed) {
        Ok(plaintext) => Ok(plaintext),
        Err(_) => Err(CryptoError::AuthFailure),
    }
}

/// Parsing undoes framing: a framed envelope whose sealed part can hold a tag
/// splits back into the nonce and the sealed message it was made of.
pub proof fn lemma_parts_of_framed(nonce: Seq<u8>, sealed: Seq<u8>)
    requires
        nonce.len() == NONCE_LEN,
        sealed.len() >= TAG_LEN,
    ensures
        envelope_parts(envelope_of(nonce, sealed)) == Ok::<(Seq<u8>, Seq<u8>), CryptoError>((nonce, sealed)),
{
    let e = envelope_of(nonce, sealed);
    assert(e.subrange(1, HEADER_LEN as int) =~= nonce);
    assert(e.subrange(HEADER_LEN as int, e.len() as int) =~= sealed);
}

/// Framing undoes parsing: an envelope that parses is exactly the framing of
/// its nonce and sealed message.
pub proof fn lemma_framed_of_parts(envelope: Seq<u8>)
    requires
        envelope_parts(envelope) is Ok,
    ensures
        envelope_parts(envelope) matches Ok((nonce, sealed)) && envelope_of(nonce, sealed) == envelope
            && nonce.len() == NONCE_LEN,
{
    let nonce = envelope.subrange(1, HEADER_LEN as int);
    let sealed = envelope.subrange(HEADER_LEN as int, envelope.len() as int);
    assert(envelope_of(nonce, sealed) =~= envelope);
}

/// Decryption reads back what framing wrote: decrypting the framing of a nonce
/// and a sealed message (long enough to hold a tag) opens exactly that sealed
/// message under exactly that nonce, and reports a failed opening as
/// `AuthFailure`.
pub proof fn lemma_decryption_of_framed(key: Seq<u8>, nonce: Seq<u8>, sealed: Seq<u8>)
    requires
        nonce.len() == NONCE_LEN,
        sealed.len() >= TAG_LEN,
    ensures
        decryption(envelope_of(nonce, sealed), key) == match xchacha20poly1305_open(key, nonce, sealed) {
            Some(plaintext) => Ok::<Seq<u8>, CryptoError>(plaintext),
            None => Err(CryptoError::AuthFailure),
        },
{
    lemma_parts_of_framed(nonce, sealed);
}

/// Every envelope written opens with the v1 version byte `0x01`, followed by
/// the nonce and then the sealed message, whatever their lengths.
pub proof fn lemma_envelope_layout(nonce: Seq<u8>, sealed: Seq<u8>)
    ensures
        envelope_of(nonce, sealed).len() == 1 + nonce.len() + sealed.len(),
        envelope_of(nonce, sealed)[0] == 0x01u8,
        envelope_of(nonce, sealed).subrange(1, 1 + nonce.len() as int) == nonce,
        envelope_of(nonce, sealed).subrange(1 + nonce.len() as int, 1 + nonce.len() + sealed.len() as int) == sealed,
{
    let e = envelope_of(nonce, sealed);
    assert(e.subrange(1, 1 + nonce.len() as int) =~= nonce);
    assert(e.subrange(1 + nonce.len() as int, 1 + nonce.len() + sealed.len() as int) =~= sealed);
}

/// Every envelope of at least `HEADER_LEN + TAG_LEN` bytes whose first byte is
/// `0x01` passes the framing check, whatever its length, and splits into the
/// 24 bytes after the version byte and everything after them.
pub proof fn lemma_v1_envelopes_parse(envelope: Seq<u8>)
    requires
        envelope.len() >= HEADER_LEN + TAG_LEN,
        envelope[0] == 0x01u8,
    ensures
        envelope_parts(envelope) == Ok::<(Seq<u8>, Seq<u8>), CryptoError>(
            (envelope.subrange(1, 25), envelope.subrange(25, envelope.len() as int)),
        ),
{
}

/// Only envelopes of at least `HEADER_LEN + TAG_LEN` bytes with first byte
/// `0x01` pass the framing check: a shorter one is `TooShort` with its length
/// and the minimum 41, a long enough one with another first byte is
/// `UnsupportedVersion` of that byte.
pub proof fn lemma_framing_refusals(envelope: Seq<u8>)
    ensures
        envelope.len() < 41 ==> envelope_parts(envelope) == Err::<(Seq<u8>, Seq<u8>), CryptoError>(
            CryptoError::TooShort { len: envelope.len() as usize, min: 41 },
        ),
        envelope.len() >= 41 && envelope[0] != 0x01u8 ==> envelope_parts(envelope) == Err::<(Seq<u8>, Seq<u8>), CryptoError>(
            CryptoError::UnsupportedVersion(envelope[0]),
        ),
{
}

/// A changed tag byte is refused: an envelope whose tag verifies under `key`
/// no longer verifies once any byte of its tag is replaced by another value,
/// since the ciphertext the tag must match is unchanged.
pub proof fn lemma_changed_tag_fails(key: Seq<u8>, envelope: Seq<u8>, i: int, b: u8)
    requires
        tag_verifies(key, envelope),
        envelope.len() - TAG_LEN <= i < envelope.len(),
        b != envelope[i],
    ensures
        !tag_verifies(key, envelope.update(i, b)),
{
    let e2 = envelope.update(i, b);
    let len = envelope.len() as int;
    assert(e2.subrange(1, HEADER_LEN as int) =~= envelope.subrange(1, HEADER_LEN as int));
    assert(e2.subrange(HEADER_LEN as int, len - TAG_LEN) =~= envelope.subrange(HEADER_LEN as int, len - TAG_LEN));
    assert(e2.subrange(len - TAG_LEN, len)[i - (len - TAG_LEN)] == b);
    assert(envelope.subrange(len - TAG_LEN, len)[i - (len - TAG_LEN)] == envelope[i]);
}

} // verus!
