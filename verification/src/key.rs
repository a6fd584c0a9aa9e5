//! Reading the public key of the wallet owner from its hexadecimal text.

use crate::text::text_of;
use vstd::prelude::*;
use vstd::utf8::valid_utf8;

verus! {

/// The length of a public key in bytes.
pub const PUBLIC_KEY_LENGTH: usize = 32;

/// The value of a hexadecimal digit, in either case, given as its ASCII byte.
pub open spec fn hex_digit(c: u8) -> Option<int> {
    if 0x30 <= c <= 0x39 {
        Some(c - 0x30)
    } else if 0x41 <= c <= 0x46 {
        Some(c - 0x41 + 10)
    } else if 0x61 <= c <= 0x66 {
        Some(c - 0x61 + 10)
    } else {
        None
    }
}

/// Whether a text is a hexadecimal encoding of bytes: two digits for each.
pub open spec fn is_hex(text: Seq<u8>) -> bool {
    &&& text.len() % 2 == 0
    &&& forall|i: int| 0 <= i < text.len() ==> hex_digit(#[trigger] text[i]) is Some
}

/// The bytes that a hexadecimal text encodes, the high digit of each first.
pub open spec fn hex_value(text: Seq<u8>) -> Seq<u8>
    recommends
        is_hex(text),
{
    Seq::new(
        (text.len() / 2) as nat,
        |i: int| (16 * hex_digit(text[2 * i]).unwrap() + hex_digit(text[2 * i + 1]).unwrap()) as u8,
    )
}

/// Whether bytes are the compressed encoding of a point of the Edwards curve
/// that the signature scheme works on, as `ed25519_dalek` decides it.
pub uninterp spec fn is_curve_point(bytes: Seq<u8>) -> bool;

/// Decodes a hexadecimal text.
///
/// Calls `hex::decode`. Trusted: it succeeds exactly on a text of even length
/// that holds only the digits 0-9, a-f and A-F, and then returns one byte for
/// each pair of digits, with the first digit of the pair as its high half.
#[verifier::external_body]
fn hex_decode(text: &[u8]) -> (bytes: Option<Vec<u8>>)
    ensures
        bytes is Some <==> is_hex(text@),
        bytes matches Some(v) ==> v@ == hex_value(text@),
{
    match hex::decode(text) {
        Ok(v) => Some(v),
        Err(_) => None,
    }
}

/// Checks that bytes encode a public key.
///
/// Calls `ed25519_dalek::PublicKey::from_bytes` and, on the key it returns,
/// `to_bytes`. Trusted: whether the bytes are accepted depends on the bytes
/// alone, only 32 bytes are ever accepted, and the key keeps the bytes that it
/// was parsed from.
#[verifier::external_body]
fn parse_point(data: &[u8]) -> (point: Option<[u8; 32]>)
    ensures
        point is Some <==> is_curve_point(data@),
        point matches Some(b) ==> b@ == data@,
{
    match ed25519_dalek::PublicKey::from_bytes(data) {
        Ok(key) => Some(key.to_bytes()),
        Err(_) => None,
    }
}

/// A public key: 32 bytes that encode a point of the curve.
#[derive(Clone, Copy, Debug)]
pub struct PublicKey {
    bytes: [u8; 32],
}

impl View for PublicKey {
    type V = Seq<u8>;

    closed spec fn view(&self) -> Seq<u8> {
        self.bytes@
    }
}

impl PublicKey {
    #[verifier::type_invariant]
    spec fn on_curve(self) -> bool {
        is_curve_point(self.bytes@)
    }

    /// The key that the bytes encode, if they encode one.
    pub fn from_bytes(data: &[u8]) -> (key: Option<PublicKey>)
        ensures
            key is Some <==> is_curve_point(data@),
            key matches Some(k) ==> k@ == data@,
    {
        match parse_point(data) {
            Some(bytes) => Some(PublicKey { bytes }),
            None => None,
        }
    }

    /// The bytes of the key. They always encode a point of the curve.
    pub fn to_bytes(&self) -> (bytes: [u8; 32])
        ensures
            bytes@ == self@,
            is_curve_point(self@),
            self@.len() == PUBLIC_KEY_LENGTH,
    {
        proof {
            use_type_invariant(self);
        }
        self.bytes
    }
}

/// Why a text was not accepted as a public key.
#[derive(Copy, Clone, Debug, PartialEq, Eq, Structural)]
pub enum KeyError {
    /// No text was passed at all.
    NullPointerPassed,
    /// The bytes are not UTF-8 text.
    InvalidText,
    /// The text is not an even number of hexadecimal digits.
    InvalidHex,
    /// The decoded bytes are not 32 bytes that encode a point of the curve.
    InvalidPoint,
}

/// The bytes of the key that a text stands for, or the first reason for which
/// it stands for none.
pub open spec fn key_of(public_key: Option<Seq<u8>>) -> Result<Seq<u8>, KeyError> {
    match public_key {
        None => Err(KeyError::NullPointerPassed),
        Some(text) => {
            if !valid_utf8(text) {
                Err(KeyError::InvalidText)
            } else if !is_hex(text) {
                Err(KeyError::InvalidHex)
            } else if !is_curve_point(hex_value(text)) {
                Err(KeyError::InvalidPoint)
            } else {
                Ok(hex_value(text))
            }
        },
    }
}

/// The text that was passed, as a sequence of bytes.
pub open spec fn passed_text(public_key: Option<&[u8]>) -> Option<Seq<u8>> {
    match public_key {
        None => None,
        Some(text) => Some(text@),
    }
}

/// Reads a public key from the text that the host passed, `None` where it
/// passed a null pointer.
///
/// The text must be UTF-8, then hexadecimal, and the bytes it encodes must be
/// a point of the curve. The first of these that fails is the error. A key is
/// only ever read from a text of 64 digits.
pub fn read_public_key(public_key: Option<&[u8]>) -> (key: Result<PublicKey, KeyError>)
    ensures
        match key_of(passed_text(public_key)) {
            Ok(bytes) => key matches Ok(k) && k@ == bytes,
            Err(e) => key matches Err(f) && f == e,
        },
        key matches Ok(k) ==> k@.len() == PUBLIC_KEY_LENGTH,
        key is Ok ==> passed_text(public_key) is Some && passed_text(public_key)->0.len() == 2
            * PUBLIC_KEY_LENGTH,
{
    let text = match public_key {
        None => {
            return Err(KeyError::NullPointerPassed);
        },
        Some(text) => text,
    };
    if text_of(text).is_none() {
        return Err(KeyError::InvalidText);
    }
    let data = match hex_decode(text) {
        None => {
            return Err(KeyError::InvalidHex);
        },
        Some(data) => data,
    };
    match PublicKey::from_bytes(data.as_slice()) {
        None => Err(KeyError::InvalidPoint),
        Some(key) => {
            assert(key@.len() == PUBLIC_KEY_LENGTH);
            assert(hex_value(text@).len() == text@.len() / 2);
            Ok(key)
        },
    }
}

} // verus!
