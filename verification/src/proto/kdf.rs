//! Derivation of the subkeys with HKDF-SHA256.
//!
//! From one master key come two subkeys, one for encryption and one for
//! authentication. The salt and the info text keep them apart.

use crate::proto::error::ProtoError;
use crate::proto::hmac;
use crate::proto::hmac::MAX_INPUT_LEN;
use vstd::prelude::*;
use vstd::string::*;

verus! {

/// The length of a subkey in bytes.
pub const SUBKEY_LEN: usize = 32;

/// The first 32 bytes of HKDF-SHA256 for a secret, a salt and an info text: the tag of
/// the secret under the salt is the key for the tag of the info text and the number of
/// the block, which is 1.
pub open spec fn hkdf_sha256(secret: Seq<u8>, salt: Seq<u8>, info: Seq<u8>) -> Seq<u8> {
    hmac::hmac_sha256(hmac::hmac_sha256(salt, secret), info.push(1u8))
}

/// `ring::hkdf`: extraction with `Salt::extract`, expansion with `Prk::expand` and
/// `Okm::fill`. The output is the first block of HKDF, which is as long as the digest.
/// Asking for that many bytes is within the limit of the expansion, which then does not
/// fail. It panics on an input that is too long to be digested.
#[verifier::external_body]
fn expand(secret: &[u8], salt: &[u8], info: &[u8]) -> (r: Option<[u8; 32]>)
    requires
        secret@.len() <= MAX_INPUT_LEN,
        salt@.len() <= MAX_INPUT_LEN,
        info@.len() <= MAX_INPUT_LEN,
    ensures
        r is Some,
        r->0@ == hkdf_sha256(secret@, salt@, info@),
{
    let prk = ring::hkdf::Salt::new(ring::hkdf::HKDF_SHA256, salt).extract(secret);
    let mut out = [0u8; 32];
    prk.expand(&[info], ring::hkdf::HKDF_SHA256).ok()?.fill(&mut out).ok()?;
    Some(out)
}

/// `zeroize::Zeroize::zeroize` on an array: every byte becomes zero.
#[verifier::external_body]
pub(crate) fn zero_bytes(bytes: &mut [u8; 32])
    ensures
        final(bytes)@ == Seq::new(32, |i: int| 0u8),
{
    zeroize::Zeroize::zeroize(bytes)
}

/// A derived key.
pub struct SubKey {
    bytes: [u8; 32],
}

impl View for SubKey {
    type V = Seq<u8>;

    closed spec fn view(&self) -> Seq<u8> {
        self.bytes@
    }
}

impl SubKey {
    /// The key made of the given bytes.
    pub fn new(bytes: [u8; 32]) -> (r: SubKey)
        ensures
            r@ == bytes@,
    {
        SubKey { bytes }
    }

    /// The bytes of the key.
    #[must_use]
    pub fn as_bytes(&self) -> (r: &[u8])
        ensures
            r@ == self@,
            r@.len() == SUBKEY_LEN,
    {
        self.bytes.as_slice()
    }

    /// Overwrites the key with zeros.
    pub fn wipe(&mut self)
        ensures
            final(self)@ == Seq::new(32, |i: int| 0u8),
    {
        zero_bytes(&mut self.bytes);
    }

    /// What a log may show of the key, which is none of its bytes.
    pub fn debug_text(&self) -> (r: String)
        ensures
            r@ == "SubKey(<redacted>)"@,
    {
        "SubKey(<redacted>)".to_owned()
    }
}

/// The two keys derived from a master key.
pub struct DerivedKeys {
    /// The key for AES-256-GCM.
    pub enc: SubKey,
    /// The key for HMAC-SHA256.
    pub hmac: SubKey,
}

/// The encryption key that belongs to a master key.
pub open spec fn enc_key(master: Seq<u8>) -> Seq<u8> {
    hkdf_sha256(master, "fwknox-enc-v1".spec_bytes(), "encryption".spec_bytes())
}

/// The authentication key that belongs to a master key.
pub open spec fn hmac_key(master: Seq<u8>) -> Seq<u8> {
    hkdf_sha256(master, "fwknox-hmac-v1".spec_bytes(), "authentication".spec_bytes())
}

impl DerivedKeys {
    /// Derives both keys from a master key.
    pub fn derive(master_key: &[u8]) -> (r: Result<DerivedKeys, ProtoError>)
        requires
            master_key@.len() <= MAX_INPUT_LEN,
        ensures
            r is Ok,
            r->Ok_0.enc@ == enc_key(master_key@),
            r->Ok_0.hmac@ == hmac_key(master_key@),
            r->Ok_0.enc@.len() == SUBKEY_LEN,
            r->Ok_0.hmac@.len() == SUBKEY_LEN,
    {
        proof {
            reveal_strlit("fwknox-enc-v1");
            reveal_strlit("encryption");
            reveal_strlit("fwknox-hmac-v1");
            reveal_strlit("authentication");
            is_ascii_spec_bytes("fwknox-enc-v1");
            is_ascii_spec_bytes("encryption");
            is_ascii_spec_bytes("fwknox-hmac-v1");
            is_ascii_spec_bytes("authentication");
        }
        let enc = match derive_one(master_key, "fwknox-enc-v1", "encryption") {
            Ok(k) => k,
            Err(e) => return Err(e),
        };
        let hmac = match derive_one(master_key, "fwknox-hmac-v1", "authentication") {
            Ok(k) => k,
            Err(e) => return Err(e),
        };
        Ok(DerivedKeys { enc, hmac })
    }

    /// Overwrites both keys with zeros.
    pub fn wipe(&mut self)
        ensures
            final(self).enc@ == Seq::new(32, |i: int| 0u8),
            final(self).hmac@ == Seq::new(32, |i: int| 0u8),
    {
        self.enc.wipe();
        self.hmac.wipe();
    }
}

/// Derives the key for one salt and one info text.
fn derive_one(master_key: &[u8], salt: &str, info: &str) -> (r: Result<SubKey, ProtoError>)
    requires
        master_key@.len() <= MAX_INPUT_LEN,
        salt.spec_bytes().len() <= MAX_INPUT_LEN,
        info.spec_bytes().len() <= MAX_INPUT_LEN,
    ensures
        r is Ok,
        r->Ok_0@ == hkdf_sha256(master_key@, salt.spec_bytes(), info.spec_bytes()),
        r->Ok_0@.len() == SUBKEY_LEN,
{
    match expand(master_key, salt.as_bytes(), info.as_bytes()) {
        Some(bytes) => Ok(SubKey { bytes }),
        None => Err(ProtoError::HkdfFailed),
    }
}

/// The bytes of the four texts from which the keys are made, by their codes.
proof fn lemma_text_bytes()
    ensures
        "fwknox-enc-v1".spec_bytes() == seq![
            102u8, 119, 107, 110, 111, 120, 45, 101, 110, 99, 45, 118, 49,
        ],
        "encryption".spec_bytes() == seq![101u8, 110, 99, 114, 121, 112, 116, 105, 111, 110],
        "fwknox-hmac-v1".spec_bytes() == seq![
            102u8, 119, 107, 110, 111, 120, 45, 104, 109, 97, 99, 45, 118, 49,
        ],
        "authentication".spec_bytes() == seq![
            97u8, 117, 116, 104, 101, 110, 116, 105, 99, 97, 116, 105, 111, 110,
        ],
{
    reveal_strlit("fwknox-enc-v1");
    reveal_strlit("encryption");
    reveal_strlit("fwknox-hmac-v1");
    reveal_strlit("authentication");
    is_ascii_spec_bytes("fwknox-enc-v1");
    is_ascii_spec_bytes("encryption");
    is_ascii_spec_bytes("fwknox-hmac-v1");
    is_ascii_spec_bytes("authentication");
    assert("fwknox-enc-v1".spec_bytes() =~= seq![
        102u8, 119, 107, 110, 111, 120, 45, 101, 110, 99, 45, 118, 49,
    ]);
    assert("encryption".spec_bytes() =~= seq![
        101u8, 110, 99, 114, 121, 112, 116, 105, 111, 110,
    ]);
    assert("fwknox-hmac-v1".spec_bytes() =~= seq![
        102u8, 119, 107, 110, 111, 120, 45, 104, 109, 97, 99, 45, 118, 49,
    ]);
    assert("authentication".spec_bytes() =~= seq![
        97u8, 117, 116, 104, 101, 110, 116, 105, 99, 97, 116, 105, 111, 110,
    ]);
}

/// The two keys as tags of tags: the master key is tagged under the bytes of the salt, and
/// the bytes of the info text with a 1 behind them are tagged under the result.
pub proof fn law_keys_by_their_bytes(master: Seq<u8>)
    ensures
        enc_key(master) == hmac::hmac_sha256(
            hmac::hmac_sha256(
                seq![102u8, 119, 107, 110, 111, 120, 45, 101, 110, 99, 45, 118, 49],
                master,
            ),
            seq![101u8, 110, 99, 114, 121, 112, 116, 105, 111, 110, 1],
        ),
        hmac_key(master) == hmac::hmac_sha256(
            hmac::hmac_sha256(
                seq![102u8, 119, 107, 110, 111, 120, 45, 104, 109, 97, 99, 45, 118, 49],
                master,
            ),
            seq![97u8, 117, 116, 104, 101, 110, 116, 105, 99, 97, 116, 105, 111, 110, 1],
        ),
{
    lemma_text_bytes();
    assert(seq![101u8, 110, 99, 114, 121, 112, 116, 105, 111, 110].push(1u8) =~= seq![
        101u8, 110, 99, 114, 121, 112, 116, 105, 111, 110, 1,
    ]);
    assert(seq![97u8, 117, 116, 104, 101, 110, 116, 105, 99, 97, 116, 105, 111, 110].push(1u8)
        =~= seq![97u8, 117, 116, 104, 101, 110, 116, 105, 99, 97, 116, 105, 111, 110, 1]);
}

} // verus!
