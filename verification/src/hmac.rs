//! The digest engine: HMAC-SHA1 over the shared secret and an 8-byte
//! message, supplied by a cryptographic library.

use vstd::prelude::*;
use crypto::hmac::Hmac;
use crypto::mac::Mac;
use crypto::sha1::Sha1;

verus! {

/// The HMAC-SHA1 digest of `msg` keyed by `key`. The digest is a function of
/// the key and message bytes alone; its definition (RFC 2104 over SHA-1) is
/// left to the cryptographic library.
pub uninterp spec fn hmac_sha1_of(key: Seq<u8>, msg: Seq<u8>) -> Seq<u8>;

/// Relies on crypto::hmac::Hmac over crypto::sha1::Sha1: `raw_result` fills
/// the buffer with the HMAC-SHA1 of everything passed to `input`, keyed by
/// the key given to `new`. The digest is 20 bytes (SHA-1's output size) and
/// is determined by the key and message bytes alone. An empty key is legal
/// per HMAC semantics and is not special-cased.
#[verifier::external_body]
pub(crate) fn hmac_sha1_bytes(key: &Vec<u8>, msg: &Vec<u8>) -> (d: Vec<u8>)
    ensures
        d@ == hmac_sha1_of(key@, msg@),
        d@.len() == 20,
{
    let mut mac = Hmac::new(Sha1::new(), key.as_slice());
    mac.input(msg.as_slice());
    let mut out: [u8; 20] = [0u8; 20];
    mac.raw_result(&mut out);
    out.to_vec()
}

} // verus!
