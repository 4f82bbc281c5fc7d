//! Digests and encodings computed by outside crates, with what the launcher
//! relies on of each.

use vstd::prelude::*;

verus! {

/// The SHA-1 digest of `data`.
pub uninterp spec fn sha1_of(data: Seq<u8>) -> Seq<u8>;

/// Relies on `sha1::Sha1` through `digest::Digest::digest`: the SHA-1 digest
/// of the input, which is 20 bytes long.
#[verifier::external_body]
pub(crate) fn sha1_digest(data: &[u8]) -> (r: Vec<u8>)
    ensures
        r@ == sha1_of(data@),
        r@.len() == 20,
{
    <sha1::Sha1 as sha1::Digest>::digest(data).to_vec()
}

/// The lowercase hexadecimal digit for `d < 16`.
pub open spec fn hex_digit_lower(d: int) -> char {
    seq!['0', '1', '2', '3', '4', '5', '6', '7', '8', '9', 'a', 'b', 'c', 'd', 'e', 'f'][d]
}

/// The uppercase hexadecimal digit for `d < 16`.
pub open spec fn hex_digit_upper(d: int) -> char {
    seq!['0', '1', '2', '3', '4', '5', '6', '7', '8', '9', 'A', 'B', 'C', 'D', 'E', 'F'][d]
}

/// Two lowercase hexadecimal digits per byte, high half first.
pub open spec fn hex_lower(b: Seq<u8>) -> Seq<char>
    decreases b.len(),
{
    if b.len() == 0 {
        seq![]
    } else {
        seq![hex_digit_lower(b[0] as int / 16), hex_digit_lower(b[0] as int % 16)] + hex_lower(
            b.drop_first(),
        )
    }
}

/// Two uppercase hexadecimal digits per byte, high half first.
pub open spec fn hex_upper(b: Seq<u8>) -> Seq<char>
    decreases b.len(),
{
    if b.len() == 0 {
        seq![]
    } else {
        seq![hex_digit_upper(b[0] as int / 16), hex_digit_upper(b[0] as int % 16)] + hex_upper(
            b.drop_first(),
        )
    }
}

/// Relies on `hex::encode`: two lowercase digits per byte, high half first.
#[verifier::external_body]
pub(crate) fn to_hex(b: &[u8]) -> (r: String)
    ensures
        r@ == hex_lower(b@),
{
    hex::encode(b)
}

/// Relies on `hex::encode_upper`: two uppercase digits per byte, high half
/// first.
#[verifier::external_body]
pub(crate) fn to_hex_upper(b: &[u8]) -> (r: String)
    ensures
        r@ == hex_upper(b@),
{
    hex::encode_upper(b)
}

/// The character of the standard Base64 alphabet for `d < 64`.
pub open spec fn base64_char(d: int) -> char {
    seq![
        'A', 'B', 'C', 'D', 'E', 'F', 'G', 'H', 'I', 'J', 'K', 'L', 'M', 'N', 'O', 'P', 'Q', 'R',
        'S', 'T', 'U', 'V', 'W', 'X', 'Y', 'Z', 'a', 'b', 'c', 'd', 'e', 'f', 'g', 'h', 'i', 'j',
        'k', 'l', 'm', 'n', 'o', 'p', 'q', 'r', 's', 't', 'u', 'v', 'w', 'x', 'y', 'z', '0', '1',
        '2', '3', '4', '5', '6', '7', '8', '9', '+', '/',
    ][d]
}

/// Padded Base64 in the standard alphabet: each group of three bytes
/// becomes four characters; a last group of two bytes becomes three
/// characters and `=`, one of a single byte two characters and `==`.
pub open spec fn base64_of(data: Seq<u8>) -> Seq<char>
    decreases data.len(),
{
    if data.len() == 0 {
        seq![]
    } else {
        let b0 = data[0] as int;
        let b1 = if data.len() > 1 { data[1] as int } else { 0 };
        let b2 = if data.len() > 2 { data[2] as int } else { 0 };
        let c0 = base64_char(b0 / 4);
        let c1 = base64_char((b0 % 4) * 16 + b1 / 16);
        let c2 = if data.len() > 1 { base64_char((b1 % 16) * 4 + b2 / 64) } else { '=' };
        let c3 = if data.len() > 2 { base64_char(b2 % 64) } else { '=' };
        seq![c0, c1, c2, c3] + if data.len() > 3 {
            base64_of(data.subrange(3, data.len() as int))
        } else {
            seq![]
        }
    }
}

/// Relies on `base64::Engine::encode` with the `STANDARD` engine: padded
/// Base64 in the standard alphabet.
#[verifier::external_body]
pub(crate) fn to_base64(data: &[u8]) -> (r: String)
    ensures
        r@ == base64_of(data@),
{
    base64::Engine::encode(&base64::engine::general_purpose::STANDARD, data)
}

/// Bytes that form encoding leaves as they are.
pub open spec fn form_unreserved(b: u8) -> bool {
    b == 0x2a || b == 0x2d || b == 0x2e || b == 0x5f || (0x30 <= b <= 0x39) || (0x41 <= b
        <= 0x5a) || (0x61 <= b <= 0x7a)
}

/// The `application/x-www-form-urlencoded` form of one byte.
pub open spec fn form_byte(b: u8) -> Seq<char> {
    if form_unreserved(b) {
        seq![b as char]
    } else if b == 0x20 {
        seq!['+']
    } else {
        seq!['%', hex_digit_upper(b as int / 16), hex_digit_upper(b as int % 16)]
    }
}

/// The `application/x-www-form-urlencoded` form of a byte string.
pub open spec fn form_encoded(b: Seq<u8>) -> Seq<char>
    decreases b.len(),
{
    if b.len() == 0 {
        seq![]
    } else {
        form_byte(b[0]) + form_encoded(b.drop_first())
    }
}

/// Relies on `form_urlencoded::byte_serialize` (re-exported by `url`): bytes
/// in `*-._0-9A-Za-z` stay, a space becomes `+`, any other byte becomes `%`
/// and two uppercase hexadecimal digits.
#[verifier::external_body]
pub(crate) fn form_encode(b: &[u8]) -> (r: String)
    ensures
        r@ == form_encoded(b@),
{
    url::form_urlencoded::byte_serialize(b).collect()
}

/// How std's `Debug` writes a duration of `nanos` nanoseconds with two
/// decimals (`1.50s`, `20.00ms`).
pub uninterp spec fn duration_text(nanos: nat) -> Seq<char>;

/// Relies on the `Debug` formatting of `std::time::Duration` with precision
/// 2: the text depends on the length of the duration alone.
#[verifier::external_body]
pub(crate) fn format_duration(nanos: u64) -> (r: String)
    ensures
        r@ == duration_text(nanos as nat),
{
    format!("{:.2?}", std::time::Duration::from_nanos(nanos))
}

} // verus!
