//! Generating master keys.

use crate::client::error::{ClientError, ClientErrorView};
use crate::config::shared;
use crate::config::shared::Base64Key;
use crate::proto::aead;
use crate::proto::aead::draw;
use vstd::prelude::*;

verus! {

/// The length of a master key in bytes.
pub const MASTER_KEY_LEN: usize = 32;

/// The error for a random generator that fails.
pub open spec fn csprng_error() -> ClientErrorView {
    ClientErrorView::InvalidArgument("csprng"@, "system random number generator failed"@)
}

/// The error for a random generator that fails.
pub(crate) fn csprng_failed() -> (r: ClientError)
    ensures
        r@ == csprng_error(),
{
    ClientError::InvalidArgument {
        field: "csprng",
        reason: "system random number generator failed".to_owned(),
    }
}

/// The master key in a draw, or the error where the generator failed.
pub fn master_key_of(drawn: Option<[u8; 32]>) -> (r: Result<[u8; 32], ClientError>)
    ensures
        match drawn {
            Some(key) => r == Ok::<[u8; 32], ClientError>(key),
            None => r is Err && r->Err_0@ == csprng_error(),
        },
{
    match drawn {
        Some(key) => Ok(key),
        None => Err(csprng_failed()),
    }
}

/// A master key from the random generator of the operating system: the bytes that the
/// generator gave, as they came. The one failure is that of the generator.
pub fn generate_master_key() -> (r: Result<[u8; 32], ClientError>)
    ensures
        exists|drawn: Option<[u8; 32]>| #[trigger]
            aead::generator_gives(drawn) && match drawn {
                Some(key) => r == Ok::<[u8; 32], ClientError>(key),
                None => r is Err && r->Err_0@ == csprng_error(),
            },
{
    master_key_of(draw::<32>())
}

/// A master key from the random generator of the operating system, in base64. What it
/// gives is the text of a key, which a configuration accepts.
pub fn generate_master_key_base64() -> (r: Result<String, ClientError>)
    ensures
        exists|drawn: Option<[u8; 32]>| #[trigger]
            aead::generator_gives(drawn) && match drawn {
                Some(key) => r is Ok && r->Ok_0@ == shared::base64_text(key@)
                    && shared::key_of_text(r->Ok_0@) == Ok::<Seq<u8>, Seq<char>>(key@),
                None => r is Err && r->Err_0@ == csprng_error(),
            },
{
    match generate_master_key() {
        Ok(key) => Ok(Base64Key(key).encode()),
        Err(e) => Err(e),
    }
}

} // verus!
