//! Text encodings of byte strings: lowercase hexadecimal and Base64.

use vstd::bytes::{spec_u64_to_le_bytes, u64_to_le_bytes};
use vstd::prelude::*;
use vstd::utf8::{encode_utf8, encode_utf8_decode_utf8};

verus! {

/// The sixteen lowercase hexadecimal digits, in order of value.
pub open spec fn hex_alphabet() -> Seq<char> {
    seq!['0', '1', '2', '3', '4', '5', '6', '7', '8', '9', 'a', 'b', 'c', 'd', 'e', 'f']
}

/// The digit that stands at position `i` of the hexadecimal text of `bytes`:
/// even positions hold the high half of a byte, odd positions the low half.
pub open spec fn hex_digit_at(bytes: Seq<u8>, i: int) -> char {
    if i % 2 == 0 {
        hex_alphabet()[bytes[i / 2] as int / 16]
    } else {
        hex_alphabet()[bytes[i / 2] as int % 16]
    }
}

/// Lowercase hexadecimal text of `bytes`: two digits per byte, high half first.
pub open spec fn hex_text(bytes: Seq<u8>) -> Seq<char> {
    Seq::new(2 * bytes.len(), |i: int| hex_digit_at(bytes, i))
}

/// Calls `hex::encode`. Trusted: the text holds, for each byte in order, the
/// lowercase digit of its high four bits followed by that of its low four bits.
#[verifier::external_body]
pub(crate) fn hex_encode(bytes: &[u8]) -> (text: String)
    ensures
        text@ == hex_text(bytes@),
{
    hex::encode(bytes)
}

/// The Base64 text of a byte string, in the standard alphabet with padding.
pub uninterp spec fn base64_text(bytes: Seq<u8>) -> Seq<char>;

/// The byte string that a Base64 text stands for, where it stands for one.
pub uninterp spec fn base64_bytes(text: Seq<char>) -> Option<Seq<u8>>;

/// Makes `base64::DecodeError` known as an opaque type: why a text is not
/// Base64.
#[verifier::external_type_specification]
#[verifier::external_body]
pub struct ExDecodeError(base64::DecodeError);

/// Whether the Base64 text of `len` bytes, four characters for every three
/// bytes or part thereof, has a length that fits the machine.
pub open spec fn base64_fits(len: nat) -> bool {
    4 * ((len + 2) / 3) <= usize::MAX
}

/// Whether a text of `len` bytes is short enough to be decoded: the decoder
/// rounds the length up to a multiple of eight.
pub open spec fn base64_readable(len: nat) -> bool {
    len + 7 <= usize::MAX
}

/// Calls `base64::encode`. Trusted: the result is the standard Base64 text
/// of `bytes`. The call panics where the length of that text overflows,
/// which the precondition rules out.
#[verifier::external_body]
pub(crate) fn base64_encode(bytes: &[u8]) -> (text: String)
    requires
        base64_fits(bytes@.len()),
    ensures
        text@ == base64_text(bytes@),
{
    base64::encode(bytes)
}

/// Calls `base64::decode`. Trusted: whether the text decodes, and to what,
/// depends on the text alone. The call panics where rounding up the length
/// of the text overflows, which the precondition rules out.
#[verifier::external_body]
pub(crate) fn base64_decode(text: &str) -> (r: Result<Vec<u8>, base64::DecodeError>)
    requires
        base64_readable(encode_utf8(text@).len()),
    ensures
        match r {
            Ok(bytes) => base64_bytes(text@) == Some(bytes@),
            Err(_) => base64_bytes(text@) is None,
        },
{
    base64::decode(text)
}

/// Why a text could not be decoded.
#[derive(Clone, Copy, Debug, PartialEq, Eq, Structural)]
pub enum TransportError {
    /// The text is too long for this machine to decode.
    TooLong,
    /// The text is not Base64.
    Malformed,
}

/// What decoding a transport text gives.
pub open spec fn transport_payload(text: Seq<char>) -> Result<Seq<u8>, TransportError> {
    if !base64_readable(encode_utf8(text).len()) {
        Err(TransportError::TooLong)
    } else {
        match base64_bytes(text) {
            Some(bytes) => Ok(bytes),
            None => Err(TransportError::Malformed),
        }
    }
}

/// What encoding a payload for transport gives: nothing where the text would
/// be too long for this machine.
pub open spec fn transport_text(payload: Seq<u8>) -> Option<Seq<char>> {
    if base64_fits(payload.len()) {
        Some(base64_text(payload))
    } else {
        None
    }
}

/// Encodes `payload` as opaque text, fit to be passed around as a token.
pub fn encode_transport(payload: &[u8]) -> (text: Option<String>)
    ensures
        match text {
            Some(t) => transport_text(payload@) == Some(t@),
            None => transport_text(payload@) is None,
        },
{
    let len = payload.len();
    let groups = if len % 3 == 0 {
        len / 3
    } else {
        len / 3 + 1
    };
    assert(groups == (len + 2) / 3);
    if groups <= usize::MAX / 4 {
        Some(base64_encode(payload))
    } else {
        None
    }
}

/// Decodes text made by [`encode_transport`].
pub fn decode_transport(text: &str) -> (r: Result<Vec<u8>, TransportError>)
    ensures
        match r {
            Ok(payload) => transport_payload(text@) == Ok::<Seq<u8>, TransportError>(payload@),
            Err(e) => transport_payload(text@) == Err::<Seq<u8>, TransportError>(e),
        },
{
    if text.as_bytes().len() > usize::MAX - 7 {
        return Err(TransportError::TooLong);
    }
    match base64_decode(text) {
        Ok(payload) => Ok(payload),
        Err(_) => Err(TransportError::Malformed),
    }
}

/// Appends the UTF-8 bytes of `text` to `buffer`.
pub fn append_text(buffer: &mut Vec<u8>, text: &str)
    ensures
        final(buffer)@ == old(buffer)@ + encode_utf8(text@),
{
    buffer.extend_from_slice(text.as_bytes());
    assert(buffer@ =~= old(buffer)@ + encode_utf8(text@));
}

/// Appends the eight bytes of `value`, least significant first.
pub fn append_u64(buffer: &mut Vec<u8>, value: u64)
    ensures
        final(buffer)@ == old(buffer)@ + spec_u64_to_le_bytes(value),
{
    let bytes = u64_to_le_bytes(value);
    buffer.extend_from_slice(bytes.as_slice());
    assert(buffer@ =~= old(buffer)@ + spec_u64_to_le_bytes(value));
}

/// Appends the eight bytes of `value` in two's complement, least
/// significant first.
pub fn append_i64(buffer: &mut Vec<u8>, value: i64)
    ensures
        final(buffer)@ == old(buffer)@ + spec_u64_to_le_bytes(value as u64),
{
    append_u64(buffer, #[verifier::truncate] (value as u64));
}

/// Decides whether two texts are the same sequence of characters.
pub fn text_eq(a: &str, b: &str) -> (same: bool)
    ensures
        same == (a@ == b@),
{
    let x = a.as_bytes();
    let y = b.as_bytes();
    proof {
        encode_utf8_decode_utf8(a@);
        encode_utf8_decode_utf8(b@);
    }
    if x.len() != y.len() {
        return false;
    }
    let mut i: usize = 0;
    while i < x.len()
        invariant
            i <= x@.len(),
            x@.len() == y@.len(),
            x@ == encode_utf8(a@),
            y@ == encode_utf8(b@),
            forall|k: int| 0 <= k < i ==> x@[k] == y@[k],
        decreases x@.len() - i,
    {
        if x[i] != y[i] {
            return false;
        }
        i = i + 1;
    }
    assert(x@ =~= y@);
    true
}

} // verus!
