//! URL-safe base64 for content references, and the byte layout of prices.
use vstd::prelude::*;

use base64::engine::general_purpose::URL_SAFE;
use base64::Engine;

use crate::error::Error;

verus! {

/// The bytes that URL-safe base64 (with padding) decodes `s` to, or `None`
/// where `s` is not such an encoding.
pub uninterp spec fn url_safe_decoded(s: Seq<char>) -> Option<Seq<u8>>;

/// The URL-safe base64 text (with padding) of `b`.
pub uninterp spec fn url_safe_encoded(b: Seq<u8>) -> Seq<char>;

/// Relies on base64's `URL_SAFE.decode`: the result depends on the text
/// alone, and since that engine demands canonical padding and no trailing
/// bits, whatever it accepts is exactly the encoding of what it returns.
#[verifier::external_body]
fn url_safe_decode(s: &str) -> (r: Option<Vec<u8>>)
    ensures
        r is Some <==> url_safe_decoded(s@) is Some,
        r is Some ==> r->0@ == url_safe_decoded(s@)->0,
        r is Some ==> url_safe_encoded(r->0@) == s@,
{
    URL_SAFE.decode(s).ok()
}

/// Relies on base64's `URL_SAFE.encode`: the result depends on the bytes
/// alone, and since it always writes canonical padding with zero trailing
/// bits, the same engine decodes it back to the bytes.
#[verifier::external_body]
fn url_safe_encode(b: &[u8]) -> (r: String)
    ensures
        r@ == url_safe_encoded(b@),
        url_safe_decoded(r@) == Some(b@),
{
    URL_SAFE.encode(b)
}

/// Decodes a content reference sent as URL-safe base64.
///
/// Fails with `InvalidURLFormat` exactly where the text is not such an
/// encoding; on success, encoding the result again gives the text back.
pub fn decode_base64_url(input: &str) -> (r: Result<Vec<u8>, Error>)
    ensures
        r is Ok <==> url_safe_decoded(input@) is Some,
        r is Ok ==> r->Ok_0@ == url_safe_decoded(input@)->0,
        r is Ok ==> url_safe_encoded(r->Ok_0@) == input@,
        r is Err ==> r->Err_0 == Error::InvalidURLFormat,
{
    match url_safe_decode(input) {
        Some(bytes) => Ok(bytes),
        None => Err(Error::InvalidURLFormat),
    }
}

/// Encodes bytes as URL-safe base64, the form in which content references
/// travel; decoding the result gives the bytes back.
pub fn encode_base64_url(bytes: &[u8]) -> (r: String)
    ensures
        r@ == url_safe_encoded(bytes@),
        url_safe_decoded(r@) == Some(bytes@),
{
    url_safe_encode(bytes)
}

/// The eight little-endian bytes of `x`.
pub open spec fn le_bytes(x: u64) -> Seq<u8> {
    seq![
        (x & 0xff) as u8,
        ((x >> 8u64) & 0xff) as u8,
        ((x >> 16u64) & 0xff) as u8,
        ((x >> 24u64) & 0xff) as u8,
        ((x >> 32u64) & 0xff) as u8,
        ((x >> 40u64) & 0xff) as u8,
        ((x >> 48u64) & 0xff) as u8,
        ((x >> 56u64) & 0xff) as u8,
    ]
}

/// The value whose little-endian bytes are the first eight of `b`.
pub open spec fn le_value(b: Seq<u8>) -> u64
    recommends
        b.len() == 8,
{
    (b[0] as u64) | ((b[1] as u64) << 8u64) | ((b[2] as u64) << 16u64) | ((b[3] as u64)
        << 24u64) | ((b[4] as u64) << 32u64) | ((b[5] as u64) << 40u64) | ((b[6] as u64)
        << 48u64) | ((b[7] as u64) << 56u64)
}

/// Reading back the bytes of a value gives the value.
pub proof fn lemma_le_round_trip(x: u64)
    ensures
        le_value(le_bytes(x)) == x,
{
    assert(((x & 0xff) as u8) as u64 | ((((x >> 8u64) & 0xff) as u8) as u64) << 8u64 | ((((x
        >> 16u64) & 0xff) as u8) as u64) << 16u64 | ((((x >> 24u64) & 0xff) as u8) as u64)
        << 24u64 | ((((x >> 32u64) & 0xff) as u8) as u64) << 32u64 | ((((x >> 40u64) & 0xff)
        as u8) as u64) << 40u64 | ((((x >> 48u64) & 0xff) as u8) as u64) << 48u64 | ((((x
        >> 56u64) & 0xff) as u8) as u64) << 56u64 == x) by (bit_vector);
}

/// The stored form of a price: its eight little-endian bytes.
pub fn price_to_le(x: u64) -> (r: Vec<u8>)
    ensures
        r@ == le_bytes(x),
{
    let r = vec![
        (x & 0xff) as u8,
        ((x >> 8u64) & 0xff) as u8,
        ((x >> 16u64) & 0xff) as u8,
        ((x >> 24u64) & 0xff) as u8,
        ((x >> 32u64) & 0xff) as u8,
        ((x >> 40u64) & 0xff) as u8,
        ((x >> 48u64) & 0xff) as u8,
        ((x >> 56u64) & 0xff) as u8,
    ];
    assert(r@ =~= le_bytes(x));
    r
}

/// The price whose stored form is `b`.
pub fn price_from_le(b: &[u8]) -> (r: u64)
    requires
        b@.len() == 8,
    ensures
        r == le_value(b@),
{
    (b[0] as u64) | ((b[1] as u64) << 8u64) | ((b[2] as u64) << 16u64) | ((b[3] as u64)
        << 24u64) | ((b[4] as u64) << 32u64) | ((b[5] as u64) << 40u64) | ((b[6] as u64)
        << 48u64) | ((b[7] as u64) << 56u64)
}

} // verus!
