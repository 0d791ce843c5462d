//! AES-256-CTR + HMAC-SHA256 encryption for the Google Messages Bugle
//! protocol.
//!
//! Wire format: `ciphertext || IV (16 bytes) || HMAC-SHA256(ciphertext || IV) (32 bytes)`.

use aes::Aes256;
use ctr::cipher::{KeyIvInit, StreamCipher};
use hmac::{Hmac, Mac};
use rand_core::{OsRng, RngCore};
use sha2::Sha256;
use vstd::prelude::*;

verus! {

/// Length of the CTR initialisation vector carried on the wire.
pub const IV_LEN: usize = 16;

/// Length of the HMAC-SHA256 tag carried on the wire.
pub const TAG_LEN: usize = 32;

/// The minimum length of an encrypted payload: 16-byte IV + 32-byte HMAC tag.
pub const MIN_DATA_LEN: usize = 48;

/// AES-256 key and HMAC-SHA256 key pair used by the Bugle protocol.
#[derive(Debug, Clone)]
pub struct BugleCryptoKeys {
    /// 256-bit AES key for CTR-mode encryption/decryption.
    pub aes_key: [u8; 32],
    /// 256-bit HMAC key for authenticating ciphertext.
    pub hmac_key: [u8; 32],
}

/// Errors that can occur during Bugle crypto operations.
#[derive(Debug, Clone, PartialEq, Eq)]
pub enum CryptoError {
    /// The input data is shorter than the minimum required length (16 IV + 32 HMAC bytes).
    DataTooShort(usize),
    /// The HMAC tag did not match — data is corrupt or has been tampered with.
    HmacMismatch,
}

// ---------------------------------------------------------------------------
// Outside primitives
// ---------------------------------------------------------------------------

/// The AES-256-CTR keystream (128-bit big-endian counter starting at `iv`)
/// for `key`, XORed onto `data`.
pub uninterp spec fn aes256_ctr(key: Seq<u8>, iv: Seq<u8>, data: Seq<u8>) -> Seq<u8>;

/// The HMAC-SHA256 tag of `msg` under `key`.
pub uninterp spec fn hmac_sha256(key: Seq<u8>, msg: Seq<u8>) -> Seq<u8>;

/// Applies the AES-256-CTR keystream of the `aes` and `ctr` crates
/// (`Ctr128BE<Aes256>::new` then `StreamCipher::apply_keystream`) to a copy
/// of `data`. The claim: the result is the named keystream transform of
/// `data`, has the length of `data`, and applying the same keystream again
/// gives `data` back (CTR mode XORs a keystream that depends only on the key
/// and IV). The 128-bit counter starts at zero, so the keystream cannot run
/// out and the call does not panic.
#[verifier::external_body]
fn aes256_ctr_apply(key: &[u8], iv: &[u8], data: &[u8]) -> (r: Vec<u8>)
    requires
        key@.len() == 32,
        iv@.len() == IV_LEN,
    ensures
        r@ == aes256_ctr(key@, iv@, data@),
        r@.len() == data@.len(),
        aes256_ctr(key@, iv@, r@) == data@,
{
    let mut out = data.to_vec();
    let mut cipher = ctr::Ctr128BE::<Aes256>::new(key.into(), iv.into());
    cipher.apply_keystream(&mut out);
    out
}

/// Computes HMAC-SHA256 over `ct || iv` with the `hmac` and `sha2` crates
/// (`Hmac::<Sha256>::new_from_slice`, two `update` calls, `finalize`). The
/// claim: the result is the named tag of the concatenation and is 32 bytes
/// long. HMAC accepts keys of any length, so `new_from_slice` cannot fail.
#[verifier::external_body]
fn hmac_sha256_tag(key: &[u8], ct: &[u8], iv: &[u8]) -> (r: Vec<u8>)
    ensures
        r@ == hmac_sha256(key@, ct@ + iv@),
        r@.len() == TAG_LEN,
{
    let mut mac = Hmac::<Sha256>::new_from_slice(key).expect("HMAC accepts any key length");
    mac.update(ct);
    mac.update(iv);
    mac.finalize().into_bytes().to_vec()
}

/// Checks `tag` against HMAC-SHA256 over `ct || iv` with the `hmac` crate's
/// constant-time `Mac::verify_slice`. The claim: it succeeds exactly when
/// `tag` equals the named tag of the concatenation (the source rejects tags
/// of another length, and compares the full 32 bytes otherwise).
#[verifier::external_body]
fn hmac_sha256_verify(key: &[u8], ct: &[u8], iv: &[u8], tag: &[u8]) -> (r: bool)
    ensures
        r == (tag@ == hmac_sha256(key@, ct@ + iv@)),
{
    let mut mac = Hmac::<Sha256>::new_from_slice(key).expect("HMAC accepts any key length");
    mac.update(ct);
    mac.update(iv);
    mac.verify_slice(tag).is_ok()
}

/// Draws 16 bytes from the operating system's random source
/// (`rand_core::OsRng::fill_bytes`). Nothing is stated of the bytes.
#[verifier::external_body]
fn random_iv() -> (iv: Vec<u8>)
    ensures
        iv@.len() == IV_LEN,
{
    let mut iv = [0u8; IV_LEN];
    OsRng.fill_bytes(&mut iv);
    iv.to_vec()
}

// ---------------------------------------------------------------------------
// Wire format
// ---------------------------------------------------------------------------

/// The wire encoding of `plaintext` under the keys and the given IV.
pub open spec fn wire_encoding(aes_key: Seq<u8>, hmac_key: Seq<u8>, iv: Seq<u8>, plaintext: Seq<u8>) -> Seq<u8> {
    let ct = aes256_ctr(aes_key, iv, plaintext);
    ct + iv + hmac_sha256(hmac_key, ct + iv)
}

/// Whether a payload carries a valid tag: it is at least 48 bytes long
/// and its last 32 bytes are the HMAC-SHA256, under `hmac_key`, of its
/// ciphertext followed by its IV (all the bytes before the tag).
pub open spec fn authentic(hmac_key: Seq<u8>, data: Seq<u8>) -> bool {
    &&& data.len() >= MIN_DATA_LEN
    &&& data.subrange(data.len() - TAG_LEN, data.len() as int) == hmac_sha256(
        hmac_key,
        data.subrange(0, data.len() - MIN_DATA_LEN) + data.subrange(data.len() - MIN_DATA_LEN, data.len() - TAG_LEN),
    )
}

/// Decryption accepts exactly the authentic payloads: those whose last 32
/// bytes are the HMAC of the ciphertext followed by the IV. The plaintext
/// of an accepted payload is the keystream of its IV applied to its
/// ciphertext, and a refused one is refused as too short or as a tag
/// mismatch.
pub proof fn lemma_decrypt_accepts_exactly_authentic(aes_key: Seq<u8>, hmac_key: Seq<u8>, data: Seq<u8>)
    ensures
        decrypt_spec(aes_key, hmac_key, data) is Ok <==> authentic(hmac_key, data),
        authentic(hmac_key, data) ==> decrypt_spec(aes_key, hmac_key, data) == Ok::<Seq<u8>, CryptoError>(
            aes256_ctr(
                aes_key,
                data.subrange(data.len() - MIN_DATA_LEN, data.len() - TAG_LEN),
                data.subrange(0, data.len() - MIN_DATA_LEN),
            ),
        ),
        data.len() < MIN_DATA_LEN ==> decrypt_spec(aes_key, hmac_key, data) == Err::<Seq<u8>, CryptoError>(
            CryptoError::DataTooShort(data.len() as usize),
        ),
        (data.len() >= MIN_DATA_LEN && !authentic(hmac_key, data)) ==> decrypt_spec(aes_key, hmac_key, data)
            == Err::<Seq<u8>, CryptoError>(CryptoError::HmacMismatch),
{
}

/// What [`decrypt`] returns for `data`.
pub open spec fn decrypt_spec(aes_key: Seq<u8>, hmac_key: Seq<u8>, data: Seq<u8>) -> Result<Seq<u8>, CryptoError> {
    if data.len() < MIN_DATA_LEN {
        Err(CryptoError::DataTooShort(data.len() as usize))
    } else {
        let tag_start = data.len() - TAG_LEN;
        let iv_start = tag_start - IV_LEN;
        let ct = data.subrange(0, iv_start);
        let iv = data.subrange(iv_start, tag_start);
        let tag = data.subrange(tag_start, data.len() as int);
        if tag == hmac_sha256(hmac_key, ct + iv) {
            Ok(aes256_ctr(aes_key, iv, ct))
        } else {
            Err(CryptoError::HmacMismatch)
        }
    }
}

/// Copies `data[from..to]` into a new vector.
fn copy_range(data: &[u8], from: usize, to: usize) -> (r: Vec<u8>)
    requires
        from <= to <= data@.len(),
    ensures
        r@ == data@.subrange(from as int, to as int),
{
    let mut r: Vec<u8> = Vec::new();
    let mut i = from;
    while i < to
        invariant
            from <= i <= to <= data@.len(),
            r@ == data@.subrange(from as int, i as int),
        decreases to - i,
    {
        r.push(data[i]);
        assert(data@.subrange(from as int, i + 1) == data@.subrange(from as int, i as int).push(data@[i as int]));
        i = i + 1;
    }
    r
}

/// Appends the bytes of `src` to `dst`.
fn extend_bytes(dst: &mut Vec<u8>, src: &[u8])
    ensures
        final(dst)@ == old(dst)@ + src@,
{
    let mut i: usize = 0;
    while i < src.len()
        invariant
            i <= src@.len(),
            dst@ == old(dst)@ + src@.take(i as int),
        decreases src.len() - i,
    {
        dst.push(src[i]);
        assert(src@.take(i + 1) == src@.take(i as int).push(src@[i as int]));
        i = i + 1;
    }
    assert(src@.take(src.len() as int) == src@);
}

/// Encrypts `plaintext` under the given IV and assembles the wire format
/// `ciphertext || IV || HMAC-SHA256(ciphertext || IV)`.
pub fn encrypt_with_iv(keys: &BugleCryptoKeys, iv: &[u8], plaintext: &[u8]) -> (r: Vec<u8>)
    requires
        iv@.len() == IV_LEN,
    ensures
        r@ == wire_encoding(keys.aes_key@, keys.hmac_key@, iv@, plaintext@),
        r@.len() == plaintext@.len() + MIN_DATA_LEN,
        r@.subrange(plaintext@.len() as int, plaintext@.len() + IV_LEN) == iv@,
        decrypt_spec(keys.aes_key@, keys.hmac_key@, r@) == Ok::<Seq<u8>, CryptoError>(plaintext@),
        r@.subrange(0, plaintext@.len() as int) == aes256_ctr(keys.aes_key@, iv@, plaintext@),
        r@.subrange(r@.len() - TAG_LEN, r@.len() as int) == hmac_sha256(
            keys.hmac_key@,
            r@.subrange(0, r@.len() - MIN_DATA_LEN) + r@.subrange(r@.len() - MIN_DATA_LEN, r@.len() - TAG_LEN),
        ),
{
    let ciphertext = aes256_ctr_apply(keys.aes_key.as_slice(), iv, plaintext);
    let tag = hmac_sha256_tag(keys.hmac_key.as_slice(), &ciphertext, iv);
    let mut output = ciphertext.clone();
    extend_bytes(&mut output, iv);
    extend_bytes(&mut output, &tag);
    proof {
        let data = output@;
        let n = data.len();
        assert(data.subrange(0, n - 48) =~= ciphertext@);
        assert(data.subrange(n - 48, n - 32) =~= iv@);
        assert(data.subrange(n - 32, n as int) =~= tag@);
        assert(data.subrange(plaintext@.len() as int, plaintext@.len() + IV_LEN) =~= iv@);
    }
    output
}

/// Encrypts `plaintext` using AES-256-CTR with a fresh random IV, then
/// appends the IV and an HMAC-SHA256 tag over `ciphertext || IV`.
///
/// The output decrypts back to `plaintext` under the same keys.
pub fn encrypt(keys: &BugleCryptoKeys, plaintext: &[u8]) -> (r: Vec<u8>)
    ensures
        r@.len() == plaintext@.len() + MIN_DATA_LEN,
        r@ == wire_encoding(
            keys.aes_key@,
            keys.hmac_key@,
            r@.subrange(plaintext@.len() as int, plaintext@.len() + IV_LEN),
            plaintext@,
        ),
        decrypt_spec(keys.aes_key@, keys.hmac_key@, r@) == Ok::<Seq<u8>, CryptoError>(plaintext@),
        r@.subrange(0, plaintext@.len() as int) == aes256_ctr(
            keys.aes_key@,
            r@.subrange(plaintext@.len() as int, plaintext@.len() + IV_LEN),
            plaintext@,
        ),
        r@.subrange(r@.len() - TAG_LEN, r@.len() as int) == hmac_sha256(
            keys.hmac_key@,
            r@.subrange(0, r@.len() - MIN_DATA_LEN) + r@.subrange(r@.len() - MIN_DATA_LEN, r@.len() - TAG_LEN),
        ),
{
    let iv = random_iv();
    let r = encrypt_with_iv(keys, &iv, plaintext);
    r
}

/// Decrypts a payload produced by [`encrypt`].
///
/// Verifies the HMAC-SHA256 tag first, then decrypts with AES-256-CTR.
/// Returns [`CryptoError::DataTooShort`] if `data` is fewer than 48 bytes
/// and [`CryptoError::HmacMismatch`] if the tag does not match.
pub fn decrypt(keys: &BugleCryptoKeys, data: &[u8]) -> (r: Result<Vec<u8>, CryptoError>)
    ensures
        match r {
            Ok(p) => decrypt_spec(keys.aes_key@, keys.hmac_key@, data@) == Ok::<Seq<u8>, CryptoError>(p@),
            Err(e) => decrypt_spec(keys.aes_key@, keys.hmac_key@, data@) == Err::<Seq<u8>, CryptoError>(e),
        },
        r matches Ok(p) ==> data@.len() >= MIN_DATA_LEN && p@.len() == data@.len() - MIN_DATA_LEN,
        r is Ok <==> authentic(keys.hmac_key@, data@),
        r matches Ok(p) ==> p@ == aes256_ctr(
            keys.aes_key@,
            data@.subrange(data@.len() - MIN_DATA_LEN, data@.len() - TAG_LEN),
            data@.subrange(0, data@.len() - MIN_DATA_LEN),
        ),
        data@.len() < MIN_DATA_LEN ==> r == Err::<Vec<u8>, CryptoError>(CryptoError::DataTooShort(data@.len() as usize)),
        (data@.len() >= MIN_DATA_LEN && !authentic(keys.hmac_key@, data@)) ==> r == Err::<Vec<u8>, CryptoError>(
            CryptoError::HmacMismatch,
        ),
{
    if data.len() < MIN_DATA_LEN {
        return Err(CryptoError::DataTooShort(data.len()));
    }
    let tag_start = data.len() - TAG_LEN;
    let iv_start = tag_start - IV_LEN;
    let ciphertext = copy_range(data, 0, iv_start);
    let iv = copy_range(data, iv_start, tag_start);
    let expected_tag = copy_range(data, tag_start, data.len());
    if !hmac_sha256_verify(keys.hmac_key.as_slice(), &ciphertext, &iv, &expected_tag) {
        return Err(CryptoError::HmacMismatch);
    }
    let plaintext = aes256_ctr_apply(keys.aes_key.as_slice(), &iv, &ciphertext);
    Ok(plaintext)
}

impl CryptoError {
    /// Human-readable description of the error.
    pub fn message(&self) -> (s: String)
        ensures
            s@ == crypto_error_message(*self),
    {
        match self {
            CryptoError::DataTooShort(n) => {
                let mut s = crate::text::owned("data too short: need at least 48 bytes, got ");
                let d = crate::text::decimal_string(*n as u64);
                crate::text::push_str(&mut s, d.as_str());
                s
            },
            CryptoError::HmacMismatch => crate::text::owned("HMAC verification failed"),
        }
    }
}

/// The text of [`CryptoError::message`].
pub open spec fn crypto_error_message(e: CryptoError) -> Seq<char> {
    match e {
        CryptoError::DataTooShort(n) => "data too short: need at least 48 bytes, got "@ + crate::text::decimal(n as nat),
        CryptoError::HmacMismatch => "HMAC verification failed"@,
    }
}

} // verus!
