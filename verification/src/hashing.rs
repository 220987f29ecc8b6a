//! Task identifiers: the lowercase hex SHA-256 digest of a task's URL.
//! The digest itself comes from the `sha2` crate and the hex rendering
//! from the `hex` crate; everything around them is verified.

use vstd::prelude::*;
use sha2::Digest;

verus! {

/// The character for one hex digit value, lowercase.
pub open spec fn hex_digit_char(d: int) -> char {
    if d == 0 {
        '0'
    } else if d == 1 {
        '1'
    } else if d == 2 {
        '2'
    } else if d == 3 {
        '3'
    } else if d == 4 {
        '4'
    } else if d == 5 {
        '5'
    } else if d == 6 {
        '6'
    } else if d == 7 {
        '7'
    } else if d == 8 {
        '8'
    } else if d == 9 {
        '9'
    } else if d == 10 {
        'a'
    } else if d == 11 {
        'b'
    } else if d == 12 {
        'c'
    } else if d == 13 {
        'd'
    } else if d == 14 {
        'e'
    } else {
        'f'
    }
}

/// Lowercase hexadecimal of a byte string: two digits per byte, high
/// nibble first.
pub open spec fn hex_of(bytes: Seq<u8>) -> Seq<char> {
    Seq::new(
        bytes.len() * 2,
        |i: int|
            if i % 2 == 0 {
                hex_digit_char((bytes[i / 2] / 16) as int)
            } else {
                hex_digit_char((bytes[i / 2] % 16) as int)
            },
    )
}

/// The SHA-256 digest of a string's UTF-8 bytes. A digest is far too long
/// to state here; it is a function of the input alone, which is all the
/// contracts below need.
pub uninterp spec fn sha256_of(s: Seq<char>) -> Seq<u8>;

/// The identifier of the task for a URL.
pub open spec fn id_of(url: Seq<char>) -> Seq<char> {
    hex_of(sha256_of(url))
}

/// Relies on sha2's `Sha256::digest`: the 32-byte SHA-256 digest of the
/// input, a function of the input bytes alone.
#[verifier::external_body]
fn sha256_digest(s: &str) -> (r: Vec<u8>)
    ensures
        r@ == sha256_of(s@),
        r@.len() == 32,
{
    sha2::Sha256::digest(s.as_bytes()).to_vec()
}

/// Relies on `hex::encode`: lowercase hexadecimal, two digits per byte,
/// high nibble first.
#[verifier::external_body]
fn hex_encode(bytes: &[u8]) -> (r: String)
    ensures
        r@ == hex_of(bytes@),
{
    hex::encode(bytes)
}

/// Hash stability: the task identifier is a function of the URL string
/// alone, so any two operations that hash the same URL — an add, a
/// cancel, then an add again — name the same task.
pub proof fn lemma_id_stable(u: Seq<char>, v: Seq<char>)
    requires
        u == v,
    ensures
        id_of(u) == id_of(v),
{
}

/// Computes the task identifier for a URL: 64 lowercase hex characters,
/// determined by the URL string alone.
pub fn hash_url(url: &str) -> (r: String)
    ensures
        r@ == id_of(url@),
        r@.len() == 64,
{
    let digest = sha256_digest(url);
    hex_encode(digest.as_slice())
}

} // verus!
