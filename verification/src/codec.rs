//! Text to bytes and back: whole strings through the code table.

use crate::table::{decoded, encoded, gdr_ascii_to_utf8, utf8_to_gdr_ascii};
use vstd::prelude::*;
use vstd::slice::slice_subrange;

verus! {

/// Errors that can happen while encoding or decoding
#[derive(Debug, Clone, Copy, PartialEq, Eq, Structural)]
pub enum EncodingError {
    /// The character is not representable in the target codec
    UnrepresentableCharacter,
    /// The input is not valid data encoded in the source codec and can't be decoded.
    InvalidInput,
}

/// Pre-configured Result used by failable functions in this crate.
pub type EncodingResult<T> = Result<T, EncodingError>;

/// The scalar that lossy encoding writes in place of one that the table lacks.
pub const FALLBACK: char = '?';

/// What lossy encoding writes for `c`: its own sequence, or that of the
/// fallback scalar where it has none.
pub open spec fn encoded_or_fallback(c: char) -> Seq<u8> {
    match encoded(c) {
        Some(bytes) => bytes,
        None => encoded(FALLBACK)->0,
    }
}

/// The lossy encoding of a text: the sequences of its scalars, in order.
pub open spec fn encoded_text(text: Seq<char>) -> Seq<u8>
    decreases text.len(),
{
    if text.len() == 0 {
        Seq::empty()
    } else {
        encoded_text(text.drop_last()) + encoded_or_fallback(text.last())
    }
}

/// Every scalar of `text` has a sequence of its own in the table.
pub open spec fn representable(text: Seq<char>) -> bool {
    forall|i: int| 0 <= i < text.len() ==> encoded(#[trigger] text[i]) is Some
}

/// Encode a single char
pub fn encode_char(character: char) -> (sequence: Option<&'static [u8]>)
    ensures
        match sequence {
            Some(bytes) => encoded(character) == Some(bytes@),
            None => encoded(character) is None,
        },
{
    utf8_to_gdr_ascii(character)
}

/// Encode a string.
/// Returns an Ok Result if all characters could be represented in the text coded, otherwise returns an Err.
pub fn try_encode(text: &str) -> (result: EncodingResult<Vec<u8>>)
    ensures
        match result {
            Ok(bytes) => representable(text@) && bytes@ == encoded_text(text@),
            Err(error) => !representable(text@) && error == EncodingError::UnrepresentableCharacter,
        },
{
    let mut out: Vec<u8> = Vec::with_capacity(text.len());

    for c in it: text.chars()
        invariant
            it.seq() == text@,
            representable(text@.take(it.index())),
            out@ == encoded_text(text@.take(it.index())),
    {
        let ghost before = out@;
        match utf8_to_gdr_ascii(c) {
            Some(encoded_char) => out.extend_from_slice(encoded_char),
            None => {
                assert(text@[it.index()] == c);
                return Err(EncodingError::UnrepresentableCharacter);
            },
        }
        proof {
            let longer = text@.take(it.index() + 1);
            assert(longer.drop_last() == text@.take(it.index()));
            assert(longer.last() == c);
            assert(out@ == before + encoded_or_fallback(c));
            assert forall|i: int| 0 <= i < longer.len() implies encoded(
                #[trigger] longer[i],
            ) is Some by {
                if i < it.index() {
                    assert(longer[i] == text@.take(it.index())[i]);
                }
            }
        }
    }

    assert(text@.take(text@.len() as int) == text@);
    Ok(out)
}

/// Encodes a string.
/// If characters could not be encoded, a questionmark character is written instead.
/// This function always succeeds.
pub fn encode(text: &str) -> (bytes: Vec<u8>)
    ensures
        bytes@ == encoded_text(text@),
{
    let mut out: Vec<u8> = Vec::with_capacity(text.len());

    for c in it: text.chars()
        invariant
            it.seq() == text@,
            out@ == encoded_text(text@.take(it.index())),
    {
        let ghost before = out@;
        let encoded_char = match utf8_to_gdr_ascii(c) {
            Some(encoded_char) => encoded_char,
            // the fallback is always part of the codec
            None => utf8_to_gdr_ascii(FALLBACK).unwrap(),
        };

        out.extend_from_slice(encoded_char);
        proof {
            let longer = text@.take(it.index() + 1);
            assert(longer.drop_last() == text@.take(it.index()));
            assert(longer.last() == c);
            assert(out@ == before + encoded_or_fallback(c));
        }
    }

    assert(text@.take(text@.len() as int) == text@);
    out
}

/// The length of the longest prefix of `bytes`, of three bytes at most, that
/// stands for a scalar; zero where none does.
pub open spec fn prefix_length(bytes: Seq<u8>) -> int {
    if bytes.len() >= 3 && decoded(bytes.take(3)) is Some {
        3
    } else if bytes.len() >= 2 && decoded(bytes.take(2)) is Some {
        2
    } else if bytes.len() >= 1 && decoded(bytes.take(1)) is Some {
        1
    } else {
        0
    }
}

/// The text that `bytes` stand for, read from the front by longest match:
/// at each position the longest sequence that the table knows is taken, and
/// a position where it knows none makes the whole input invalid.
pub open spec fn decoded_text(bytes: Seq<u8>) -> Option<Seq<char>>
    decreases bytes.len(),
{
    let length = prefix_length(bytes);
    if bytes.len() == 0 {
        Some(Seq::empty())
    } else if length == 0 {
        None
    } else {
        match decoded_text(bytes.skip(length)) {
            Some(rest) => Some(seq![decoded(bytes.take(length))->0] + rest),
            None => None,
        }
    }
}

/// Decode a single character.
/// This can handle multi-byte characters, but the sequence always needs to represent just one single character.
pub fn decode_char(character: &[u8]) -> (result: EncodingResult<char>)
    ensures
        match result {
            Ok(scalar) => decoded(character@) == Some(scalar),
            Err(error) => decoded(character@) is None && error == EncodingError::InvalidInput,
        },
{
    match gdr_ascii_to_utf8(character) {
        Some(scalar) => Ok(scalar),
        None => Err(EncodingError::InvalidInput),
    }
}

/// Decodes the longest sequence that `bytes` start with, and tells how many
/// bytes it took. Three bytes are tried first, then two, then one.
pub fn decode_prefix(bytes: &[u8]) -> (found: Option<(char, usize)>)
    ensures
        match found {
            Some((scalar, length)) => {
                &&& length == prefix_length(bytes@)
                &&& 1 <= length <= 3
                &&& length <= bytes@.len()
                &&& decoded(bytes@.take(length as int)) == Some(scalar)
            },
            None => prefix_length(bytes@) == 0,
        },
{
    let available: usize = bytes.len();
    if available >= 3 {
        if let Ok(scalar) = decode_char(slice_subrange(bytes, 0, 3)) {
            return Some((scalar, 3));
        }
    }
    if available >= 2 {
        if let Ok(scalar) = decode_char(slice_subrange(bytes, 0, 2)) {
            return Some((scalar, 2));
        }
    }
    if available >= 1 {
        if let Ok(scalar) = decode_char(slice_subrange(bytes, 0, 1)) {
            return Some((scalar, 1));
        }
    }
    None
}

/// `front`, then what `rest` holds, where it holds anything.
spec fn continued(front: Seq<char>, rest: Option<Seq<char>>) -> Option<Seq<char>> {
    match rest {
        Some(text) => Some(front + text),
        None => None,
    }
}

/// Decode bytes into a string.
/// This function never fails if the input is valid, that means only contains sequences defined in the decoding.
/// If that is not the case, it returns an Err.
pub fn decode(text: &[u8]) -> (result: EncodingResult<String>)
    ensures
        match result {
            Ok(string) => decoded_text(text@) == Some(string@),
            Err(error) => decoded_text(text@) is None && error == EncodingError::InvalidInput,
        },
{
    let mut out = String::new();

    let mut i: usize = 0;
    let input_len: usize = text.len();
    assert(text@.skip(0) == text@);
    while i < input_len
        invariant
            i <= input_len == text@.len(),
            decoded_text(text@) == continued(out@, decoded_text(text@.skip(i as int))),
        decreases input_len - i,
    {
        let ghost rest = text@.skip(i as int);
        let ghost before = out@;
        match decode_prefix(slice_subrange(text, i, input_len)) {
            Some((scalar, length)) => {
                out.push(scalar);
                i += length;
                proof {
                    assert(rest.skip(length as int) == text@.skip(i as int));
                    match decoded_text(text@.skip(i as int)) {
                        Some(later) => {
                            assert(before + (seq![scalar] + later) == out@ + later);
                        },
                        None => {},
                    }
                }
            },
            None => {
                return Err(EncodingError::InvalidInput);
            },
        }
    }

    assert(out@ + Seq::<char>::empty() == out@);
    Ok(out)
}

/// `String::push` appends the one scalar to the end of the string and leaves
/// what was there before as it was.
pub assume_specification[ String::push ](string: &mut String, ch: char)
    ensures
        final(string)@ == old(string)@.push(ch),
;

} // verus!
