//! Signatures over the raw bytes of a notification: an HMAC-SHA256 under the
//! shared secret, written as `sha256=` and 64 hexadecimal digits.

use crate::codec::{hex_encode, hex_of, lemma_ascii_is_utf8, lemma_hex_is_ascii, text_from_utf8};
use hmac::Mac;
use vstd::prelude::*;
use vstd::utf8::{encode_utf8, encode_utf8_valid_utf8, valid_utf8, valid_utf8_concat};

verus! {

/// The HMAC-SHA256 code of `message` under `key`.
pub uninterp spec fn hmac_sha256(key: Seq<u8>, message: Seq<u8>) -> Seq<u8>;

/// The bytes of `sha256=`, which every signature begins with.
pub open spec fn signature_prefix() -> Seq<u8> {
    encode_utf8("sha256="@)
}

/// The signature that stands for an authentication code.
pub open spec fn signature_of_code(code: Seq<u8>) -> Seq<u8> {
    signature_prefix() + hex_of(code)
}

/// The signature of `payload` under `secret`.
pub open spec fn expected_signature(secret: Seq<u8>, payload: Seq<u8>) -> Seq<u8> {
    signature_of_code(hmac_sha256(secret, payload))
}

/// Whether `signature` is the one that `payload` has under `secret`.
pub open spec fn signature_accepted(payload: Seq<u8>, signature: Seq<u8>, secret: Seq<u8>) -> bool {
    signature == expected_signature(secret, payload)
}

/// Whatever the payload and the secret are, the signature made for them is
/// accepted for them.
pub proof fn lemma_own_signature_accepted(payload: Seq<u8>, secret: Seq<u8>)
    ensures
        signature_accepted(payload, expected_signature(secret, payload), secret),
{
}

/// A signature is made of text.
pub proof fn lemma_signature_is_text(code: Seq<u8>)
    ensures
        valid_utf8(signature_of_code(code)),
        signature_of_code(code).len() == signature_prefix().len() + 2 * code.len(),
        signature_prefix().is_prefix_of(signature_of_code(code)),
{
    lemma_hex_is_ascii(code);
    lemma_ascii_is_utf8(hex_of(code));
    encode_utf8_valid_utf8("sha256="@);
    valid_utf8_concat(signature_prefix(), hex_of(code));
}

/// Computes an HMAC-SHA256 with the crates `hmac` and `sha2`: `new_from_slice`,
/// `update`, `finalize` and `into_bytes`.
///
/// Trusted: the code depends on the key and the message alone, so it has a
/// name, `hmac_sha256`, and it has the 32 bytes of a SHA-256 digest. HMAC takes
/// a key of any length, so that `new_from_slice` returns no error.
#[verifier::external_body]
pub(crate) fn hmac_sha256_code(key: &[u8], message: &[u8]) -> (code: Vec<u8>)
    ensures
        code@ == hmac_sha256(key@, message@),
        code@.len() == 32,
{
    let mut mac = hmac::Hmac::<sha2::Sha256>::new_from_slice(key).expect(
        "HMAC takes a key of any length",
    );
    mac.update(message);
    mac.finalize().into_bytes().to_vec()
}

/// Whether `a` and `b` hold the same bytes. For equal lengths the time taken
/// does not depend on where they differ.
pub fn constant_time_eq(a: &[u8], b: &[u8]) -> (same: bool)
    ensures
        same == (a@ == b@),
{
    let n = a.len();
    if n != b.len() {
        return false;
    }
    let mut diff: u8 = 0;
    let mut i: usize = 0;
    while i < n
        invariant
            n == a@.len(),
            n == b@.len(),
            i <= n,
            diff == 0 <==> (forall|k: int| 0 <= k < i ==> a@[k] == b@[k]),
        decreases n - i,
    {
        let x = a[i];
        let y = b[i];
        let d = diff;
        assert((d | (x ^ y)) == 0 <==> (d == 0 && x == y)) by (bit_vector);
        diff = diff | (x ^ y);
        i += 1;
    }
    assert(diff == 0 ==> a@ =~= b@);
    diff == 0
}

/// Writes an authentication code as a signature.
pub fn signature_for_code(code: &[u8]) -> (signature: Vec<u8>)
    ensures
        signature@ == signature_of_code(code@),
{
    let prefix = "sha256=".as_bytes();
    let digits = hex_encode(code);
    let mut signature: Vec<u8> = Vec::new();
    let mut i: usize = 0;
    while i < prefix.len()
        invariant
            i <= prefix@.len(),
            signature@ == prefix@.take(i as int),
        decreases prefix@.len() - i,
    {
        signature.push(prefix[i]);
        i += 1;
    }
    let mut j: usize = 0;
    while j < digits.len()
        invariant
            j <= digits@.len(),
            signature@ == prefix@ + digits@.take(j as int),
        decreases digits@.len() - j,
    {
        signature.push(digits[j]);
        j += 1;
    }
    signature
}

/// Whether `signature` is the one that stands for `code`.
pub fn matches_code(signature: &str, code: &[u8]) -> (ok: bool)
    ensures
        ok == (encode_utf8(signature@) == signature_of_code(code@)),
{
    let expected = signature_for_code(code);
    constant_time_eq(signature.as_bytes(), expected.as_slice())
}

/// The signature of `payload` under `secret`, as it stands in the header of a
/// notification.
pub fn sign(payload: &[u8], secret: &str) -> (signature: String)
    ensures
        encode_utf8(signature@) == expected_signature(encode_utf8(secret@), payload@),
{
    let code = hmac_sha256_code(secret.as_bytes(), payload);
    let bytes = signature_for_code(code.as_slice());
    proof {
        lemma_signature_is_text(code@);
        vstd::utf8::decode_utf8_encode_utf8(bytes@);
    }
    match text_from_utf8(bytes) {
        Some(signature) => signature,
        None => String::new(),
    }
}

/// Whether `signature` is the signature of `payload` under `secret`. A text
/// of another length or without `sha256=` in front is not.
pub fn verify(payload: &[u8], signature: &str, secret: &str) -> (ok: bool)
    ensures
        ok == signature_accepted(payload@, encode_utf8(signature@), encode_utf8(secret@)),
        ok ==> encode_utf8(signature@).len() == signature_prefix().len() + 64,
        ok ==> signature_prefix().is_prefix_of(encode_utf8(signature@)),
{
    let code = hmac_sha256_code(secret.as_bytes(), payload);
    proof {
        lemma_signature_is_text(code@);
    }
    matches_code(signature, code.as_slice())
}

} // verus!
