//! Content addressing: the multihash of a byte string, the network
//! identifier derived from a genesis file, and the storage key of contract
//! code.

use vstd::prelude::*;
use vstd::string::StringExecFns;

verus! {

/// The SHA-256 digest of a byte string.
pub uninterp spec fn sha256_of(data: Seq<u8>) -> Seq<u8>;

/// The Bitcoin base-58 alphabet.
pub open spec fn base58_alphabet() -> Seq<char> {
    "123456789ABCDEFGHJKLMNPQRSTUVWXYZabcdefghijkmnopqrstuvwxyz"@
}

/// The value of a byte string read as a big-endian number.
pub open spec fn big_endian(data: Seq<u8>) -> nat
    decreases data.len(),
{
    if data.len() == 0 {
        0
    } else {
        big_endian(data.drop_last()) * 256 + data.last() as nat
    }
}

/// The base-58 digits of a number, most significant first; none for zero.
pub open spec fn base58_digits(n: nat) -> Seq<char>
    decreases n,
{
    if n == 0 {
        Seq::empty()
    } else {
        base58_digits(n / 58).push(base58_alphabet()[(n % 58) as int])
    }
}

/// The number of zero bytes that a byte string starts with.
pub open spec fn leading_zero_bytes(data: Seq<u8>) -> nat
    decreases data.len(),
{
    if data.len() > 0 && data[0] == 0 {
        1 + leading_zero_bytes(data.subrange(1, data.len() as int))
    } else {
        0
    }
}

/// The base-58 text of a byte string: one `1` per leading zero byte, then
/// the digits of its big-endian value.
pub open spec fn base58_of(data: Seq<u8>) -> Seq<char> {
    Seq::new(leading_zero_bytes(data), |_i: int| '1') + base58_digits(big_endian(data))
}

/// Relies on ring's `digest::digest` with `digest::SHA256`: the result is
/// the 32-byte digest of the input.
#[verifier::external_body]
fn sha256(data: &[u8]) -> (r: Vec<u8>)
    ensures
        r@ == sha256_of(data@),
        r@.len() == 32,
{
    ring::digest::digest(&ring::digest::SHA256, data).as_ref().to_vec()
}

/// Relies on bs58's `encode(..).into_string()`: the base-58 text of the
/// input in the Bitcoin alphabet, one `1` per leading zero byte followed by
/// the digits of the input's big-endian value.
#[verifier::external_body]
fn base58(data: &[u8]) -> (r: String)
    ensures
        r@ == base58_of(data@),
{
    bs58::encode(data).into_string()
}

/// The lowercase hexadecimal digit of a value below 16.
pub open spec fn hex_digit(v: nat) -> char {
    if v < 10 {
        crate::text::digit_char(v)
    } else if v == 10 {
        'a'
    } else if v == 11 {
        'b'
    } else if v == 12 {
        'c'
    } else if v == 13 {
        'd'
    } else if v == 14 {
        'e'
    } else {
        'f'
    }
}

/// Lowercase hexadecimal text of a byte string: two digits per byte, the
/// high nibble first.
pub open spec fn hex_text(data: Seq<u8>) -> Seq<char>
    decreases data.len(),
{
    if data.len() == 0 {
        Seq::empty()
    } else {
        let b = data.last();
        hex_text(data.drop_last()) + seq![hex_digit((b / 16) as nat), hex_digit((b % 16) as nat)]
    }
}

/// Relies on hex's `encode`: two lowercase hexadecimal digits per byte, in
/// order.
#[verifier::external_body]
pub(crate) fn hex_encode(data: &[u8]) -> (r: String)
    ensures
        r@ == hex_text(data@),
{
    hex::encode(data)
}

/// Multihash code of SHA-256.
pub const SHA256_CODE: u8 = 0x12;

/// Digest length tag of a SHA-256 multihash.
pub const SHA256_LEN_TAG: u8 = 0x20;

/// The SHA-256 multihash of a byte string: code, length, digest.
pub open spec fn multihash(data: Seq<u8>) -> Seq<u8> {
    seq![SHA256_CODE, SHA256_LEN_TAG] + sha256_of(data)
}

/// The network identifier of a genesis file: the base-58 text of the
/// multihash of its bytes.
pub open spec fn network_name(data: Seq<u8>) -> Seq<char> {
    base58_of(multihash(data))
}

/// The SHA-256 multihash of `data`.
pub fn content_hash(data: &[u8]) -> (r: Vec<u8>)
    ensures
        r@ == multihash(data@),
        r@.len() == 34,
{
    let mut r: Vec<u8> = Vec::new();
    r.push(SHA256_CODE);
    r.push(SHA256_LEN_TAG);
    let mut digest = sha256(data);
    r.append(&mut digest);
    assert(r@ == multihash(data@));
    r
}

/// The network identifier derived from the bytes of a genesis file.
pub fn calculate_network_name(data: &[u8]) -> (r: String)
    ensures
        r@ == network_name(data@),
{
    let hash = content_hash(data);
    base58(hash.as_slice())
}

/// Two genesis files with the same bytes give the same network identifier.
pub proof fn lemma_network_name_deterministic(a: Seq<u8>, b: Seq<u8>)
    requires
        a == b,
    ensures
        network_name(a) == network_name(b),
{
}

/// Prefix of the storage key under which contract code is kept.
pub open spec fn code_key_prefix() -> Seq<char> {
    "contracts:code:"@
}

/// The storage key of a contract whose code hashes to `hash`.
pub open spec fn code_key(hash: Seq<u8>) -> Seq<char> {
    code_key_prefix() + hex_text(hash)
}

/// The storage key of the contract code with the given multihash.
pub fn contract_code_key(hash: &[u8]) -> (r: String)
    ensures
        r@ == code_key(hash@),
{
    let key = String::from_str("contracts:code:");
    let digits = hex_encode(hash);
    key.concat(digits.as_str())
}

/// The file under which a genesis bundle fetched from a peer is stored:
/// `data/<network identifier>.bin`.
pub open spec fn fetched_genesis_path(data: Seq<u8>) -> Seq<char> {
    "data/"@ + network_name(data) + ".bin"@
}

/// The network identifier of a fetched genesis bundle, and the path of the
/// file where it is kept.
pub fn fetched_genesis_location(data: &[u8]) -> (r: (String, String))
    ensures
        r.0@ == network_name(data@),
        r.1@ == fetched_genesis_path(data@),
{
    let name = calculate_network_name(data);
    let path = String::from_str("data/").concat(name.as_str()).concat(".bin");
    (name, path)
}

} // verus!
