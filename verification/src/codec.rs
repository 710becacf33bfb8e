//! The persisted proof format: proofs are stored as lowercase hexadecimal
//! text. Encoding and decoding are delegated to an external codec behind
//! exact contracts.

use vstd::prelude::*;

use crate::model::DigitSumError;

verus! {

/// The lowercase hexadecimal character for a value below sixteen.
pub open spec fn hex_char_of(v: u8) -> char {
    if v == 0 {
        '0'
    } else if v == 1 {
        '1'
    } else if v == 2 {
        '2'
    } else if v == 3 {
        '3'
    } else if v == 4 {
        '4'
    } else if v == 5 {
        '5'
    } else if v == 6 {
        '6'
    } else if v == 7 {
        '7'
    } else if v == 8 {
        '8'
    } else if v == 9 {
        '9'
    } else if v == 10 {
        'a'
    } else if v == 11 {
        'b'
    } else if v == 12 {
        'c'
    } else if v == 13 {
        'd'
    } else if v == 14 {
        'e'
    } else {
        'f'
    }
}

/// The lowercase hexadecimal text for a byte sequence: two characters per
/// byte, high nibble first.
pub open spec fn hex_str_of(bytes: Seq<u8>) -> Seq<char> {
    Seq::new(
        bytes.len() * 2,
        |i: int|
            if i % 2 == 0 {
                hex_char_of(bytes[i / 2] / 16)
            } else {
                hex_char_of(bytes[i / 2] % 16)
            },
    )
}

/// Whether a byte is the ASCII code of a hexadecimal digit, in either case.
pub open spec fn is_hex_digit(b: u8) -> bool {
    (0x30 <= b <= 0x39) || (0x61 <= b <= 0x66) || (0x41 <= b <= 0x46)
}

/// The value of the hexadecimal digit whose ASCII code is `b`.
pub open spec fn hex_digit_value(b: u8) -> u8 {
    if 0x30 <= b <= 0x39 {
        (b - 0x30) as u8
    } else if 0x61 <= b <= 0x66 {
        (b - 0x61 + 10) as u8
    } else {
        (b - 0x41 + 10) as u8
    }
}

/// Whether a byte sequence is well-formed hexadecimal text: even length,
/// every byte a hexadecimal digit.
pub open spec fn valid_hex(s: Seq<u8>) -> bool {
    s.len() % 2 == 0 && forall|i: int| 0 <= i < s.len() ==> is_hex_digit(#[trigger] s[i])
}

/// The bytes denoted by well-formed hexadecimal text.
pub open spec fn decoded_hex(s: Seq<u8>) -> Seq<u8> {
    Seq::new(
        s.len() / 2,
        |i: int| (16 * hex_digit_value(s[2 * i]) + hex_digit_value(s[2 * i + 1])) as u8,
    )
}

/// Relies on hex::encode: the result is two lowercase hexadecimal digits
/// per input byte, high nibble first.
#[verifier::external_body]
fn hex_encode(bytes: &Vec<u8>) -> (r: String)
    ensures
        r@ == hex_str_of(bytes@),
{
    hex::encode(bytes.as_slice())
}

/// Relies on hex::decode: it succeeds exactly on even-length sequences of
/// hexadecimal digits (either case) and returns the denoted bytes; its
/// error is collapsed to the library's serialization failure.
#[verifier::external_body]
fn hex_decode(text: &Vec<u8>) -> (r: Result<Vec<u8>, DigitSumError>)
    ensures
        r is Ok <==> valid_hex(text@),
        r matches Ok(b) ==> b@ == decoded_hex(text@),
        r matches Err(e) ==> e == DigitSumError::SerializationError,
{
    hex::decode(text.as_slice()).map_err(|_| DigitSumError::SerializationError)
}

/// Encodes proof bytes as lowercase hexadecimal text, the form in which a
/// proof is persisted.
pub fn encode_proof(proof: &Vec<u8>) -> (r: String)
    ensures
        r@ == hex_str_of(proof@),
{
    hex_encode(proof)
}

/// Decodes a persisted proof from hexadecimal text, rejecting text that is
/// not well-formed hexadecimal.
pub fn decode_proof(text: &Vec<u8>) -> (r: Result<Vec<u8>, DigitSumError>)
    ensures
        r is Ok <==> valid_hex(text@),
        r matches Ok(b) ==> b@ == decoded_hex(text@),
        r matches Err(e) ==> e == DigitSumError::SerializationError,
{
    hex_decode(text)
}

} // verus!
