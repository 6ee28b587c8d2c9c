//! The calls this library makes into other crates. Their contracts are
//! assumed, not proved.

use hmac::{Hmac, Mac};
use rand::rngs::OsRng;
use rand::RngCore;
use sha2::Sha256;
use vstd::prelude::*;

verus! {

/// The HMAC-SHA-256 authentication tag of `data` under `key`.
pub uninterp spec fn hmac_sha256_tag(key: Seq<u8>, data: Seq<u8>) -> Seq<u8>;

/// `constant_time_eq::constant_time_eq` answers whether the two byte strings
/// have the same length and the same bytes; on equal lengths it looks at
/// every byte before it answers.
pub assume_specification[ constant_time_eq::constant_time_eq ](a: &[u8], b: &[u8]) -> (same: bool)
    ensures
        same == (a@ == b@),
;

/// Runs `hmac::Hmac<sha2::Sha256>` over `data` with `key`: `new_from_slice`,
/// `update`, `finalize`. The tag is a function of the two byte strings alone.
/// `new_from_slice` of this MAC takes a key of every length, so the
/// `expect` never fires.
#[verifier::external_body]
pub(crate) fn hmac_sha256(key: &[u8], data: &[u8]) -> (tag: [u8; 32])
    ensures
        tag@ == hmac_sha256_tag(key@, data@),
{
    let mut mac = Hmac::<Sha256>::new_from_slice(key).expect("HMAC takes a key of any length");
    mac.update(data);
    mac.finalize().into_bytes().into()
}

/// Asks `rand::rngs::OsRng` for 128 random bits through `try_fill_bytes`.
/// `None` when the operating system's source fails. Nothing is promised of
/// the bytes.
#[verifier::external_body]
pub(crate) fn os_random_secret() -> (secret: Option<[u8; 16]>)
{
    let mut buf = [0u8; 16];
    match OsRng.try_fill_bytes(&mut buf) {
        Ok(()) => Some(buf),
        Err(_) => None,
    }
}

/// `String::from_utf8` on bytes that are all ASCII gives the string whose
/// characters are those bytes, one for one. On other input nothing is
/// promised.
#[verifier::external_body]
pub(crate) fn string_from_ascii(bytes: Vec<u8>) -> (text: Option<String>)
    ensures
        (forall|i: int| 0 <= i < bytes@.len() ==> bytes@[i] < 128) ==> text is Some
            && text->0@ == bytes@.map_values(|b: u8| b as char),
{
    match String::from_utf8(bytes) {
        Ok(text) => Some(text),
        Err(_) => None,
    }
}

} // verus!
