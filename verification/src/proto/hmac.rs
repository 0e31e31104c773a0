//! HMAC-SHA256. The comparison of tags takes the same time for all tags.

use crate::proto::error::{ProtoError, ProtoErrorView};
use vstd::prelude::*;

verus! {

/// The length of a tag in bytes.
pub const HMAC_LEN: usize = 32;

/// The length up to which SHA-256 digests a key or a message, in bytes. The digest
/// itself goes a little further.
pub const MAX_INPUT_LEN: u64 = 0x1000_0000_0000_0000;

/// The HMAC-SHA256 tag of a message under a key.
pub uninterp spec fn hmac_sha256(key: Seq<u8>, message: Seq<u8>) -> Seq<u8>;

/// `ring::hmac::sign` with HMAC-SHA256. The contract names the tag. It panics on a key
/// or a message that is too long to be digested.
#[verifier::external_body]
fn tag_of(key: &[u8], message: &[u8]) -> (r: [u8; 32])
    requires
        key@.len() <= MAX_INPUT_LEN,
        message@.len() <= MAX_INPUT_LEN,
    ensures
        r@ == hmac_sha256(key@, message@),
{
    let k = ring::hmac::Key::new(ring::hmac::HMAC_SHA256, key);
    let mut out = [0u8; 32];
    out.copy_from_slice(ring::hmac::sign(&k, message).as_ref());
    out
}

/// `ring::hmac::verify` with HMAC-SHA256: it accepts exactly the tag that
/// `ring::hmac::sign` computes for the same key and message.
#[verifier::external_body]
fn tag_matches(key: &[u8], message: &[u8], tag: &[u8]) -> (r: bool)
    requires
        key@.len() <= MAX_INPUT_LEN,
        message@.len() <= MAX_INPUT_LEN,
    ensures
        r == (tag@ == hmac_sha256(key@, message@)),
{
    let k = ring::hmac::Key::new(ring::hmac::HMAC_SHA256, key);
    ring::hmac::verify(&k, message, tag).is_ok()
}

/// The tag of `message` under `key`.
#[must_use]
pub fn sign(key: &[u8], message: &[u8]) -> (r: [u8; 32])
    requires
        key@.len() <= MAX_INPUT_LEN,
        message@.len() <= MAX_INPUT_LEN,
    ensures
        r@ == hmac_sha256(key@, message@),
{
    tag_of(key, message)
}

/// Checks the tag of a message. Anything but the tag that [`sign`] gives is an error.
pub fn verify(key: &[u8], message: &[u8], tag: &[u8]) -> (r: Result<(), ProtoError>)
    requires
        key@.len() <= MAX_INPUT_LEN,
        message@.len() <= MAX_INPUT_LEN,
    ensures
        r is Ok <==> tag@.len() == HMAC_LEN && tag@ == hmac_sha256(key@, message@),
        r is Err ==> r->Err_0@ == ProtoErrorView::HmacFailed,
{
    if tag.len() != HMAC_LEN {
        return Err(ProtoError::HmacFailed);
    }
    if tag_matches(key, message, tag) {
        Ok(())
    } else {
        Err(ProtoError::HmacFailed)
    }
}

} // verus!
