//! AES-256-GCM with a nonce that the caller supplies.

use crate::outcome;
use crate::proto::error::{ProtoError, ProtoErrorView};
use vstd::prelude::*;

verus! {

/// The length of a key in bytes.
pub const KEY_LEN: usize = 32;

/// The length of a nonce in bytes.
pub const NONCE_LEN: usize = 12;

/// The length of an authentication tag in bytes.
pub const TAG_LEN: usize = 16;

/// The length up to which sealing is known to succeed, in bytes. The cipher
/// itself goes further.
pub const MAX_SEALED_LEN: usize = 0xffff_ffff;

/// What AES-256-GCM makes of a plaintext: the ciphertext with its tag.
pub uninterp spec fn aes_gcm_seal(
    key: Seq<u8>,
    nonce: Seq<u8>,
    aad: Seq<u8>,
    plaintext: Seq<u8>,
) -> Option<Seq<u8>>;

/// What AES-256-GCM makes of a ciphertext with its tag: the plaintext, or
/// nothing where the tag does not match.
pub uninterp spec fn aes_gcm_open(
    key: Seq<u8>,
    nonce: Seq<u8>,
    aad: Seq<u8>,
    sealed: Seq<u8>,
) -> Option<Seq<u8>>;

/// The view of the bytes in an option.
pub open spec fn opt_bytes(v: Option<Vec<u8>>) -> Option<Seq<u8>> {
    match v {
        Some(b) => Some(b@),
        None => None,
    }
}

/// `ring::aead::LessSafeKey::seal_in_place_append_tag` with AES-256-GCM. The
/// contract names the result. It fails on a key of another length and on an input
/// that is too long for the cipher, and on nothing else; what it gives is longer
/// than the plaintext by the tag; and opening that gives the plaintext back.
#[verifier::external_body]
fn seal_bytes(key: &[u8], nonce: &[u8; 12], aad: &[u8], plaintext: &[u8]) -> (r: Option<Vec<u8>>)
    ensures
        opt_bytes(r) == aes_gcm_seal(key@, nonce@, aad@, plaintext@),
        key@.len() == KEY_LEN && aad@.len() <= MAX_SEALED_LEN && plaintext@.len() <= MAX_SEALED_LEN
            ==> r is Some,
        r is Some ==> r->0@.len() == plaintext@.len() + TAG_LEN,
        r is Some ==> aes_gcm_open(key@, nonce@, aad@, r->0@) == Some(plaintext@),
{
    let key = ring::aead::UnboundKey::new(&ring::aead::AES_256_GCM, key).ok()?;
    let nonce = ring::aead::Nonce::assume_unique_for_key(*nonce);
    let mut buf = plaintext.to_vec();
    ring::aead::LessSafeKey::new(key)
        .seal_in_place_append_tag(nonce, ring::aead::Aad::from(aad), &mut buf)
        .ok()?;
    Some(buf)
}

/// `ring::aead::LessSafeKey::open_in_place` with AES-256-GCM. The contract names
/// the result. A plaintext is shorter than its input by the tag.
#[verifier::external_body]
fn open_bytes(key: &[u8], nonce: &[u8; 12], aad: &[u8], sealed: &[u8]) -> (r: Option<Vec<u8>>)
    ensures
        opt_bytes(r) == aes_gcm_open(key@, nonce@, aad@, sealed@),
        r is Some ==> r->0@.len() + TAG_LEN == sealed@.len(),
{
    let key = ring::aead::UnboundKey::new(&ring::aead::AES_256_GCM, key).ok()?;
    let nonce = ring::aead::Nonce::assume_unique_for_key(*nonce);
    let mut buf = sealed.to_vec();
    let plaintext = ring::aead::LessSafeKey::new(key)
        .open_in_place(nonce, ring::aead::Aad::from(aad), &mut buf)
        .ok()?;
    Some(plaintext.to_vec())
}

/// `ring::rand::SystemRandom`: bytes from the generator of the operating system,
/// or nothing where that fails. Nothing is claimed of the bytes.
#[verifier::external_body]
fn random_bytes<const N: usize>() -> (r: Option<[u8; N]>) {
    let mut out = [0u8; N];
    ring::rand::SecureRandom::fill(&ring::rand::SystemRandom::new(), &mut out).ok()?;
    Some(out)
}

/// Whether the random generator of the operating system can give a draw: bytes, or
/// nothing where it fails.
pub closed spec fn generator_gives<const N: usize>(drawn: Option<[u8; N]>) -> bool {
    call_ensures(random_bytes::<N>, (), drawn)
}

/// Draws bytes from the random generator of the operating system.
pub(crate) fn draw<const N: usize>() -> (r: Option<[u8; N]>)
    ensures
        generator_gives(r),
{
    random_bytes::<N>()
}

/// The nonce in a draw, or the error where the generator failed.
pub fn nonce_of(drawn: Option<[u8; 12]>) -> (r: Result<[u8; 12], ProtoError>)
    ensures
        match drawn {
            Some(nonce) => r == Ok::<[u8; 12], ProtoError>(nonce),
            None => r is Err && r->Err_0@ == ProtoErrorView::AeadFailed,
        },
{
    match drawn {
        Some(nonce) => Ok(nonce),
        None => Err(ProtoError::AeadFailed),
    }
}

/// A nonce from the random generator of the operating system: the bytes that the
/// generator gave, as they came. The one failure is that of the generator.
pub fn generate_nonce() -> (r: Result<[u8; 12], ProtoError>)
    ensures
        exists|drawn: Option<[u8; 12]>| #[trigger]
            generator_gives(drawn) && match drawn {
                Some(nonce) => r == Ok::<[u8; 12], ProtoError>(nonce),
                None => r is Err && r->Err_0@ == ProtoErrorView::AeadFailed,
            },
{
    nonce_of(draw::<12>())
}

/// The sealed form of a plaintext, or the error where it cannot be sealed.
pub open spec fn sealed(
    key: Seq<u8>,
    nonce: Seq<u8>,
    aad: Seq<u8>,
    plaintext: Seq<u8>,
) -> Result<Seq<u8>, ProtoErrorView> {
    match aes_gcm_seal(key, nonce, aad, plaintext) {
        Some(c) if key.len() == KEY_LEN => Ok(c),
        _ => Err(ProtoErrorView::AeadFailed),
    }
}

/// The plaintext of a ciphertext with its tag, or the error where it has none.
pub open spec fn opened(
    key: Seq<u8>,
    nonce: Seq<u8>,
    aad: Seq<u8>,
    bytes: Seq<u8>,
) -> Result<Seq<u8>, ProtoErrorView> {
    if key.len() != KEY_LEN || bytes.len() < TAG_LEN {
        Err(ProtoErrorView::AeadFailed)
    } else {
        match aes_gcm_open(key, nonce, aad, bytes) {
            Some(p) => Ok(p),
            None => Err(ProtoErrorView::AeadFailed),
        }
    }
}

/// Encrypts `plaintext` and binds `aad` to it. The result is the ciphertext with
/// its tag; opening it under the same key, nonce and `aad` gives `plaintext`.
pub fn seal(key: &[u8], nonce: &[u8; 12], aad: &[u8], plaintext: &[u8]) -> (r: Result<
    Vec<u8>,
    ProtoError,
>)
    ensures
        match r {
            Ok(c) => outcome::gives(sealed(key@, nonce@, aad@, plaintext@), c@),
            Err(e) => outcome::fails(sealed(key@, nonce@, aad@, plaintext@), e@),
        },
        key@.len() == KEY_LEN && aad@.len() <= MAX_SEALED_LEN && plaintext@.len() <= MAX_SEALED_LEN
            ==> r is Ok,
        r is Ok ==> r->Ok_0@.len() == plaintext@.len() + TAG_LEN,
        r is Ok ==> outcome::gives(opened(key@, nonce@, aad@, r->Ok_0@), plaintext@),
{
    if key.len() != KEY_LEN {
        return Err(ProtoError::AeadFailed);
    }
    match seal_bytes(key, nonce, aad, plaintext) {
        Some(c) => Ok(c),
        None => Err(ProtoError::AeadFailed),
    }
}

/// Decrypts a ciphertext with its tag.
pub fn open(
    key: &[u8],
    nonce: &[u8; 12],
    aad: &[u8],
    ciphertext_and_tag: &[u8],
) -> (r: Result<Vec<u8>, ProtoError>)
    ensures
        match r {
            Ok(p) => outcome::gives(opened(key@, nonce@, aad@, ciphertext_and_tag@), p@),
            Err(e) => outcome::fails(opened(key@, nonce@, aad@, ciphertext_and_tag@), e@),
        },
        r is Ok ==> r->Ok_0@.len() + TAG_LEN == ciphertext_and_tag@.len(),
{
    if key.len() != KEY_LEN {
        return Err(ProtoError::AeadFailed);
    }
    if ciphertext_and_tag.len() < TAG_LEN {
        return Err(ProtoError::AeadFailed);
    }
    match open_bytes(key, nonce, aad, ciphertext_and_tag) {
        Some(p) => Ok(p),
        None => Err(ProtoError::AeadFailed),
    }
}

/// Sealing and opening hand the key, the nonce, the bound bytes and the text to the cipher as
/// they are, and give what it gives.
pub proof fn law_cipher_gets_what_was_given(
    key: Seq<u8>,
    nonce: Seq<u8>,
    aad: Seq<u8>,
    bytes: Seq<u8>,
    out: Seq<u8>,
)
    ensures
        outcome::gives(sealed(key, nonce, aad, bytes), out) <==> key.len() == 32 && aes_gcm_seal(
            key,
            nonce,
            aad,
            bytes,
        ) == Some(out),
        outcome::gives(opened(key, nonce, aad, bytes), out) <==> key.len() == 32 && bytes.len()
            >= 16 && aes_gcm_open(key, nonce, aad, bytes) == Some(out),
        sealed(key, nonce, aad, bytes) is Err ==> sealed(key, nonce, aad, bytes)->Err_0
            == ProtoErrorView::AeadFailed,
        opened(key, nonce, aad, bytes) is Err ==> opened(key, nonce, aad, bytes)->Err_0
            == ProtoErrorView::AeadFailed,
{
}

/// What was sealed opens to what it was made of, under the same key, nonce and bound bytes.
pub proof fn law_sealed_opens(
    key: &[u8],
    nonce: [u8; 12],
    aad: &[u8],
    plaintext: &[u8],
    c: Vec<u8>,
    received: &[u8],
    r: Result<Vec<u8>, ProtoError>,
)
    requires
        call_ensures(seal, (key, &nonce, aad, plaintext), Ok(c)),
        received@ == c@,
        call_ensures(open, (key, &nonce, aad, received), r),
    ensures
        r is Ok,
        r->Ok_0@ == plaintext@,
        c@.len() == plaintext@.len() + 16,
{
}

} // verus!
