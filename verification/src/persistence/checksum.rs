//! SHA-256 checksums of stored states, as lower-case hexadecimal.

use vstd::prelude::*;
use sha2::Digest;
use crate::error::{CinemaError, Result};
use crate::text::{push_char, str_eq};

verus! {

/// The SHA-256 digest of `data`.
pub uninterp spec fn spec_sha256(data: Seq<u8>) -> Seq<u8>;

/// `sha2::Sha256::digest`: the 32-byte SHA-256 digest of the data.
#[verifier::external_body]
fn sha256(data: &[u8]) -> (r: Vec<u8>)
    ensures
        r@ == spec_sha256(data@),
        r@.len() == 32,
{
    sha2::Sha256::digest(data).to_vec()
}

pub open spec fn spec_hex_char(d: nat) -> char {
    if d < 10 {
        (('0' as nat) + d) as char
    } else {
        (('a' as nat) + (d - 10)) as char
    }
}

/// Two lower-case hexadecimal digits per byte, most significant first.
pub open spec fn spec_hex(bytes: Seq<u8>) -> Seq<char>
    decreases bytes.len(),
{
    if bytes.len() == 0 {
        Seq::empty()
    } else {
        spec_hex(bytes.drop_last()).push(spec_hex_char((bytes.last() / 16) as nat)).push(
            spec_hex_char((bytes.last() % 16) as nat),
        )
    }
}

fn hex_char(d: u8) -> (c: char)
    requires
        d < 16,
    ensures
        c == spec_hex_char(d as nat),
{
    if d == 0 { '0' }
    else if d == 1 { '1' }
    else if d == 2 { '2' }
    else if d == 3 { '3' }
    else if d == 4 { '4' }
    else if d == 5 { '5' }
    else if d == 6 { '6' }
    else if d == 7 { '7' }
    else if d == 8 { '8' }
    else if d == 9 { '9' }
    else if d == 10 { 'a' }
    else if d == 11 { 'b' }
    else if d == 12 { 'c' }
    else if d == 13 { 'd' }
    else if d == 14 { 'e' }
    else { 'f' }
}

pub fn hex_lower(bytes: &Vec<u8>) -> (r: String)
    ensures
        r@ == spec_hex(bytes@),
{
    let mut s = String::new();
    let mut i: usize = 0;
    while i < bytes.len()
        invariant
            i <= bytes@.len(),
            s@ == spec_hex(bytes@.take(i as int)),
        decreases bytes@.len() - i,
    {
        let b = bytes[i];
        push_char(&mut s, hex_char(b / 16));
        push_char(&mut s, hex_char(b % 16));
        assert(bytes@.take(i + 1).drop_last() =~= bytes@.take(i as int));
        i = i + 1;
    }
    assert(bytes@.take(bytes@.len() as int) =~= bytes@);
    s
}

/// The checksum of the data: its SHA-256 digest in hexadecimal.
pub fn compute_checksum(data: &[u8]) -> (r: String)
    ensures
        r@ == spec_hex(spec_sha256(data@)),
{
    let digest = sha256(data);
    hex_lower(&digest)
}

/// Refuses data whose checksum is not `expected`.
pub fn verify_checksum(data: &[u8], expected: &str) -> (r: Result<()>)
    ensures
        r is Ok <==> spec_hex(spec_sha256(data@)) == expected@,
        r matches Err(e) ==> (e matches CinemaError::CorruptedState(m) && m@
            == "checksum mismatch — data may be corrupted"@),
{
    let actual = compute_checksum(data);
    if !str_eq(actual.as_str(), expected) {
        return Err(CinemaError::CorruptedState(String::from_str("checksum mismatch — data may be corrupted")));
    }
    Ok(())
}

} // verus!
