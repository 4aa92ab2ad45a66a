//! Keys for encrypting a packaged application, drawn from a seed.

use crate::text::{decimal, decimal_of, join2};
use vstd::prelude::*;
use vstd::utf8::encode_utf8;

verus! {

/// The MD5 digest of `data` as the `md5` crate computes it, written as 32
/// lowercase hexadecimal digits.
pub uninterp spec fn md5_hex(data: Seq<u8>) -> Seq<char>;

/// Computes the digest of `data` with `md5::compute` and writes it with the
/// digest's lowercase hexadecimal formatting. Nothing is claimed beyond this:
/// the result is a function of the data, named `md5_hex`.
#[verifier::external_body]
fn md5_hex_digest(data: &[u8]) -> (r: String)
    ensures
        r@ == md5_hex(data@),
{
    format!("{:x}", md5::compute(data))
}

/// The seed that a moment and a process give: the nanoseconds since the epoch
/// and the process number, both in decimal, one after the other.
pub open spec fn seed_of(nanos: u128, pid: u32) -> Seq<char> {
    decimal_of(nanos as nat) + decimal_of(pid as nat)
}

/// The key made of a digest: the digest twice.
pub open spec fn key_of(digest: Seq<char>) -> Seq<char> {
    digest + digest
}

/// Writes the seed of the moment `nanos` and the process `pid`.
pub fn seed_text(nanos: u128, pid: u32) -> (r: String)
    ensures
        r@ == seed_of(nanos, pid),
{
    join2(decimal(nanos).as_str(), decimal(pid as u128).as_str())
}

/// Makes the key of a digest by writing the digest twice.
pub fn key_from_digest(digest: &str) -> (r: String)
    ensures
        r@ == key_of(digest@),
{
    join2(digest, digest)
}

/// Draws an encryption key from the moment `nanos`, in nanoseconds since the
/// epoch, and the process number `pid`: the digest of their seed, twice.
pub fn generate_encryption_key(nanos: u128, pid: u32) -> (r: String)
    ensures
        r@ == key_of(md5_hex(encode_utf8(seed_of(nanos, pid)))),
{
    let seed = seed_text(nanos, pid);
    let digest = md5_hex_digest(seed.as_str().as_bytes());
    key_from_digest(digest.as_str())
}

} // verus!
