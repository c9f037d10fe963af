//! Address display encoding: raw chain-format address bytes are turned into
//! a checksummed, human-safe base58 string (the bytes followed by the first
//! four bytes of their double SHA-256 digest, base58-encoded).

use vstd::prelude::*;
use sha2::{Digest, Sha256};

verus! {

/// The base58 digit alphabet (Bitcoin convention: no `0`, `O`, `I` or `l`).
pub open spec fn b58_alphabet() -> Seq<char> {
    seq![
        '1', '2', '3', '4', '5', '6', '7', '8', '9', 'A', 'B', 'C', 'D', 'E', 'F', 'G', 'H', 'J',
        'K', 'L', 'M', 'N', 'P', 'Q', 'R', 'S', 'T', 'U', 'V', 'W', 'X', 'Y', 'Z', 'a', 'b', 'c',
        'd', 'e', 'f', 'g', 'h', 'i', 'j', 'k', 'm', 'n', 'o', 'p', 'q', 'r', 's', 't', 'u', 'v',
        'w', 'x', 'y', 'z',
    ]
}

/// The bytes of `s` read as one big-endian unsigned integer.
pub open spec fn be_value(s: Seq<u8>) -> nat
    decreases s.len(),
{
    if s.len() == 0 {
        0
    } else {
        (be_value(s.drop_last()) * 256 + s.last()) as nat
    }
}

/// Base58 digits of `n`, most significant first; empty for zero.
pub open spec fn b58_digits(n: nat) -> Seq<char>
    decreases n,
{
    if n == 0 {
        Seq::empty()
    } else {
        b58_digits(n / 58).push(b58_alphabet()[(n % 58) as int])
    }
}

/// The number of leading zero bytes of `s`.
pub open spec fn leading_zero_count(s: Seq<u8>) -> nat
    decreases s.len(),
{
    if s.len() == 0 || s[0] != 0 {
        0
    } else {
        (1 + leading_zero_count(s.drop_first())) as nat
    }
}

/// Base58 text of `s`: one `'1'` per leading zero byte, then the digits of
/// its big-endian value.
pub open spec fn base58_of(s: Seq<u8>) -> Seq<char> {
    Seq::new(leading_zero_count(s) as nat, |i: int| '1') + b58_digits(be_value(s))
}

/// The SHA-256 digest of a byte sequence, named but not written out: the
/// trusted wrapper below ties it to the outside implementation.
pub uninterp spec fn sha256_of(s: Seq<u8>) -> Seq<u8>;

/// Relies on `sha2::Sha256::digest`: the 32-byte digest depends on the input
/// bytes alone.
#[verifier::external_body]
fn sha256(bytes: &Vec<u8>) -> (r: Vec<u8>)
    ensures
        r@ == sha256_of(bytes@),
        r@.len() == 32,
{
    Sha256::digest(bytes).to_vec()
}

/// Relies on `bs58::encode` with its default (Bitcoin) alphabet: the result
/// is the base58 text of the bytes, leading zero bytes kept as `'1'` digits.
#[verifier::external_body]
fn base58_encode(bytes: &Vec<u8>) -> (r: String)
    ensures
        r@ == base58_of(bytes@),
{
    bs58::encode(bytes).into_string()
}

/// The checksummed display form of address bytes: the bytes, then the first
/// four bytes of their double SHA-256 digest, base58-encoded.
pub open spec fn base58check_of(a: Seq<u8>) -> Seq<char> {
    base58_of(a + sha256_of(sha256_of(a)).take(4))
}

/// Converts chain-format address bytes to the checksummed base58 display
/// form. The bytes are expected to already carry the network prefix; the
/// codec itself imposes no length constraint and never fails.
pub fn tron_address_to_base58(address: &Vec<u8>) -> (r: String)
    ensures
        r@ == base58check_of(address@),
{
    let h1 = sha256(address);
    let h2 = sha256(&h1);
    let mut payload: Vec<u8> = Vec::new();
    let mut i: usize = 0;
    while i < address.len()
        invariant
            i <= address@.len(),
            payload@ == address@.take(i as int),
        decreases address@.len() - i,
    {
        payload.push(address[i]);
        proof {
            assert(payload@ =~= address@.take(i + 1));
        }
        i = i + 1;
    }
    payload.push(h2[0]);
    payload.push(h2[1]);
    payload.push(h2[2]);
    payload.push(h2[3]);
    proof {
        assert(payload@ =~= address@ + sha256_of(sha256_of(address@)).take(4));
    }
    base58_encode(&payload)
}

/// The display encoding is deterministic: equal address bytes always yield
/// the same display string.
pub proof fn lemma_encode_deterministic(a: Seq<u8>, b: Seq<u8>)
    requires
        a == b,
    ensures
        base58check_of(a) == base58check_of(b),
{
}

} // verus!
