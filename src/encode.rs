//! The curve-tagged encoder's byte and hex-string forms.
use ark_serialize::CanonicalSerialize;
use ark_serialize::SerializationError;
use hex::FromHexError;
use vstd::prelude::*;

verus! {

#[verifier::external_type_specification]
#[verifier::external_body]
pub struct ExSerializationError(SerializationError);

#[verifier::external_type_specification]
#[verifier::external_body]
pub struct ExFromHexError(FromHexError);

/// Why a value could not be put into, or read back from, its wire form.
#[derive(Debug, Clone, Copy, PartialEq, Eq, Structural)]
pub enum EncodingError {
    /// The proof library could not serialize an in-memory value.
    Serialization,
    /// An encoding has another length than its curve and group prescribe.
    SizeMismatch { expected: usize, found: usize },
    /// A hex string lacks the `0x` prefix.
    MissingPrefix,
    /// A hex payload has an odd length or a character that is no hex digit.
    InvalidHex,
}

/// The lower-case hex digit of a value below sixteen.
pub open spec fn hex_digit(n: int) -> char {
    seq!['0', '1', '2', '3', '4', '5', '6', '7', '8', '9', 'a', 'b', 'c', 'd', 'e', 'f'][n]
}

/// Two lower-case hex digits per byte, high nibble first.
pub open spec fn hex_of(b: Seq<u8>) -> Seq<char> {
    Seq::new(
        2 * b.len(),
        |i: int|
            if i % 2 == 0 {
                hex_digit(b[i / 2] as int / 16)
            } else {
                hex_digit(b[i / 2] as int % 16)
            },
    )
}

/// The `0x`-prefixed hex form of a byte sequence.
pub open spec fn hex_string_of(b: Seq<u8>) -> Seq<char> {
    seq!['0', 'x'] + hex_of(b)
}

/// A hex digit of either case.
pub open spec fn is_hex_char(c: char) -> bool {
    ('0' <= c && c <= '9') || ('a' <= c && c <= 'f') || ('A' <= c && c <= 'F')
}

/// The value of a hex digit.
pub open spec fn hex_value(c: char) -> int {
    if '0' <= c && c <= '9' {
        c as int - '0' as int
    } else if 'a' <= c && c <= 'f' {
        c as int - 'a' as int + 10
    } else {
        c as int - 'A' as int + 10
    }
}

/// Whether a string is a hex payload: an even number of hex digits.
pub open spec fn is_hex(s: Seq<char>) -> bool {
    s.len() % 2 == 0 && forall|i: int| 0 <= i < s.len() ==> is_hex_char(#[trigger] s[i])
}

/// The bytes that a hex payload spells, one byte per pair of digits.
pub open spec fn unhex(s: Seq<char>) -> Seq<u8> {
    Seq::new(
        s.len() / 2,
        |i: int| (hex_value(s[2 * i]) * 16 + hex_value(s[2 * i + 1])) as u8,
    )
}

/// Relies on ark_serialize::CanonicalSerialize::serialize_uncompressed, which
/// writes the value's canonical uncompressed encoding into the given writer.
#[verifier::external_body]
fn serialize_uncompressed<T: CanonicalSerialize>(v: &T) -> (r: Result<Vec<u8>, SerializationError>) {
    let mut bytes: Vec<u8> = Vec::new();
    v.serialize_uncompressed(&mut bytes)?;
    Ok(bytes)
}

/// Relies on hex::encode: two lower-case digits per byte, high nibble first.
#[verifier::external_body]
fn hex_encode(b: &Vec<u8>) -> (r: String)
    ensures
        r@ == hex_of(b@),
{
    hex::encode(b)
}

/// Relies on hex::decode: an odd length or a byte that is no hex digit of
/// either case is an error; otherwise each pair of digits gives one byte.
#[verifier::external_body]
fn hex_decode(s: &str) -> (r: Result<Vec<u8>, FromHexError>)
    ensures
        match r {
            Ok(b) => is_hex(s@) && b@ == unhex(s@),
            Err(_) => !is_hex(s@),
        },
{
    hex::decode(s)
}

/// Canonical uncompressed bytes of a curve point or field element.
pub fn encode_uncompressed<T: CanonicalSerialize>(v: &T) -> (r: Result<Vec<u8>, EncodingError>)
    ensures
        r is Err ==> r == Err::<Vec<u8>, EncodingError>(EncodingError::Serialization),
{
    match serialize_uncompressed(v) {
        Ok(b) => Ok(b),
        Err(_) => Err(EncodingError::Serialization),
    }
}

/// Whether a string starts with the `0x` prefix.
pub open spec fn has_hex_prefix(s: Seq<char>) -> bool {
    s.len() >= 2 && s[0] == '0' && s[1] == 'x'
}

/// The bytes that a `0x`-prefixed hex string spells, if it is one.
pub open spec fn decode_hex_string(s: Seq<char>) -> Option<Seq<u8>> {
    if has_hex_prefix(s) && is_hex(s.subrange(2, s.len() as int)) {
        Some(unhex(s.subrange(2, s.len() as int)))
    } else {
        None
    }
}

/// The hex-string mode of the encoder: `0x` followed by the bytes in hex.
pub struct HexStringSerializer;

impl HexStringSerializer {
    /// The `0x`-prefixed lower-case hex form of `value`.
    pub fn serialize(value: &Vec<u8>) -> (r: String)
        ensures
            r@ == hex_string_of(value@),
    {
        let digits = hex_encode(value);
        let mut out = String::from_str("0x");
        proof {
            reveal_strlit("0x");
        }
        out.append(digits.as_str());
        out
    }

    /// The hex form of each value, in the given order.
    pub fn serialize_vec(values: &Vec<Vec<u8>>) -> (r: Vec<String>)
        ensures
            r@.len() == values@.len(),
            forall|i: int| 0 <= i < values@.len() ==> #[trigger] r@[i]@ == hex_string_of(values@[i]@),
    {
        let mut out: Vec<String> = Vec::new();
        let mut i: usize = 0;
        while i < values.len()
            invariant
                i <= values@.len(),
                out@.len() == i,
                forall|j: int| 0 <= j < i ==> #[trigger] out@[j]@ == hex_string_of(values@[j]@),
            decreases values@.len() - i,
        {
            out.push(HexStringSerializer::serialize(&values[i]));
            i = i + 1;
        }
        out
    }

    /// Reads back the bytes of a `0x`-prefixed hex string.
    pub fn deserialize(s: &str) -> (r: Result<Vec<u8>, EncodingError>)
        ensures
            match r {
                Ok(b) => decode_hex_string(s@) == Some(b@),
                Err(e) => decode_hex_string(s@) is None && (if has_hex_prefix(s@) {
                    e == EncodingError::InvalidHex
                } else {
                    e == EncodingError::MissingPrefix
                }),
            },
    {
        let n = s.unicode_len();
        if n < 2 || s.get_char(0) != '0' || s.get_char(1) != 'x' {
            return Err(EncodingError::MissingPrefix);
        }
        let payload = s.substring_char(2, n);
        match hex_decode(payload) {
            Ok(b) => Ok(b),
            Err(_) => Err(EncodingError::InvalidHex),
        }
    }
}

/// A hex digit is read back as the value it was written for.
pub proof fn lemma_hex_digit_value(n: int)
    requires
        0 <= n < 16,
    ensures
        is_hex_char(hex_digit(n)),
        hex_value(hex_digit(n)) == n,
{
    let d = seq!['0', '1', '2', '3', '4', '5', '6', '7', '8', '9', 'a', 'b', 'c', 'd', 'e', 'f'];
    assert(d[n] == hex_digit(n));
}

/// The hex-string form of `b` has an even-length payload after `0x`, twice
/// as long as `b`.
pub proof fn lemma_hex_string_length(b: Seq<u8>)
    ensures
        hex_string_of(b).len() == 2 + 2 * b.len(),
        has_hex_prefix(hex_string_of(b)),
        hex_string_of(b).subrange(2, hex_string_of(b).len() as int) == hex_of(b),
        hex_of(b).len() % 2 == 0,
{
    assert(hex_string_of(b).subrange(2, hex_string_of(b).len() as int) =~= hex_of(b));
}

/// Decoding the hex-string form of a byte sequence gives back that sequence.
pub proof fn lemma_hex_round_trip(b: Seq<u8>)
    ensures
        decode_hex_string(hex_string_of(b)) == Some(b),
{
    lemma_hex_string_length(b);
    let h = hex_of(b);
    assert forall|i: int| 0 <= i < h.len() implies is_hex_char(#[trigger] h[i]) by {
        lemma_hex_digit_value(b[i / 2] as int / 16);
        lemma_hex_digit_value(b[i / 2] as int % 16);
    }
    assert forall|i: int| 0 <= i < b.len() implies #[trigger] unhex(h)[i] == b[i] by {
        lemma_hex_digit_value(b[i] as int / 16);
        lemma_hex_digit_value(b[i] as int % 16);
        assert(h[2 * i] == hex_digit(b[i] as int / 16));
        assert(h[2 * i + 1] == hex_digit(b[i] as int % 16));
    }
    assert(unhex(h) =~= b);
}

} // verus!
