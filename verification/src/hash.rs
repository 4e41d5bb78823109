//! Content hashes: a SHA2-256 multihash written in base58, as entry addresses are.
use vstd::prelude::*;

verus! {

/// The multihash (SHA2-256) of `data`, as `multihash::encode(Hash::SHA2256, ..)` returns it.
pub uninterp spec fn multihash_sha2_256(data: Seq<u8>) -> Seq<u8>;

/// The Bitcoin base58 alphabet: digit `d` is written `base58_alphabet()[d]`.
pub open spec fn base58_alphabet() -> Seq<char> {
    "123456789ABCDEFGHJKLMNPQRSTUVWXYZabcdefghijkmnopqrstuvwxyz"@
}

/// The number that `bytes` write in base 256, most significant byte first.
pub open spec fn big_endian_value(bytes: Seq<u8>) -> nat
    decreases bytes.len(),
{
    if bytes.len() == 0 {
        0
    } else {
        big_endian_value(bytes.drop_last()) * 256 + bytes.last() as nat
    }
}

/// The number of zero bytes that `bytes` begins with.
pub open spec fn leading_zero_bytes(bytes: Seq<u8>) -> nat
    decreases bytes.len(),
{
    if bytes.len() == 0 || bytes[0] != 0 {
        0
    } else {
        1 + leading_zero_bytes(bytes.drop_first())
    }
}

/// The base58 digits of `v`, most significant first, none for 0.
pub open spec fn base58_digits(v: nat) -> Seq<char>
    decreases v,
{
    if v == 0 {
        Seq::empty()
    } else {
        base58_digits(v / 58).push(base58_alphabet()[(v % 58) as int])
    }
}

/// The base58 text of `bytes`, as `rust_base58::ToBase58::to_base58` writes it:
/// one `'1'` per leading zero byte, then the digits of their big-endian value.
pub open spec fn base58_text(bytes: Seq<u8>) -> Seq<char> {
    Seq::new(leading_zero_bytes(bytes), |i: int| '1') + base58_digits(big_endian_value(bytes))
}

/// Calls `multihash::encode` with `Hash::SHA2256`. Its source returns `Ok` for
/// this hash type, with a code byte 0x12, a size byte 32 and the 32 digest bytes;
/// the digest itself is only named here.
#[verifier::external_body]
fn encode_sha2_256(data: &[u8]) -> (r: Result<Vec<u8>, ()>)
    ensures
        match r {
            Ok(v) => v@ == multihash_sha2_256(data@) && v@.len() == 34 && v@[0] == 0x12u8
                && v@[1] == 32u8,
            Err(_) => false,
        },
{
    match multihash::encode(multihash::Hash::SHA2256, data) {
        Ok(v) => Ok(v),
        Err(_) => Err(()),
    }
}

/// Calls `rust_base58::ToBase58::to_base58` on a byte slice. Its source divides the
/// big-endian value of the bytes by 58 until it is zero, writing each remainder
/// as a digit of the Bitcoin alphabet, adds a `'1'` per leading zero byte, and
/// reverses the digits.
#[verifier::external_body]
fn to_base58(bytes: &[u8]) -> (s: String)
    ensures
        s@ == base58_text(bytes@),
{
    rust_base58::ToBase58::to_base58(bytes)
}

/// The hash address of a text: the base58 text of the SHA2-256 multihash of its UTF-8 bytes.
pub open spec fn hash_of_text(s: Seq<char>) -> Seq<char> {
    base58_text(multihash_sha2_256(vstd::utf8::encode_utf8(s)))
}

/// Hash string of a text with SHA2-256, as a Holochain `HashString` is made from a `&str`.
pub fn encode_from_str(s: &str) -> (h: String)
    ensures
        h@ == hash_of_text(s@),
{
    let bytes = s.as_bytes();
    match encode_sha2_256(bytes) {
        Ok(mh) => to_base58(mh.as_slice()),
        Err(_) => {
            proof {
                assert(false);
            }
            String::new()
        },
    }
}

} // verus!
