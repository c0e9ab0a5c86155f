//! What holds of the code table, of the codec built on it, of the control
//! codes and of the way a read is told apart into text and control codes.

use crate::codec::{
    decoded_text, encoded_or_fallback, encoded_text, prefix_length, representable, FALLBACK,
};
use crate::control::ControlCode;
use crate::protocol::{classified, ErikaError, InputEvent};
use crate::table::{decoded, encoded};
use vstd::prelude::*;

verus! {

/// Every sequence of the table is one, two or three bytes long.
pub proof fn sequence_length(c: char)
    requires
        encoded(c) is Some,
    ensures
        1 <= encoded(c)->0.len() <= 3,
{
}

/// A scalar that is encoded and decoded again is the scalar that went in.
pub proof fn char_round_trip(c: char)
    requires
        encoded(c) is Some,
    ensures
        decoded(encoded(c)->0) == Some(c),
{
}

/// No two scalars share a byte sequence.
pub proof fn encoding_is_injective(a: char, b: char)
    requires
        encoded(a) is Some,
        encoded(a) == encoded(b),
    ensures
        a == b,
{
    char_round_trip(a);
    char_round_trip(b);
}

/// What a sequence decodes to is the scalar whose sequence it is. The one
/// exception are the two accent bytes that also decode when the byte that
/// completes them is missing.
pub proof fn decoded_is_encoded(bytes: Seq<u8>)
    requires
        decoded(bytes) is Some,
    ensures
        encoded(decoded(bytes)->0) == Some(bytes) || bytes == seq![0x29u8] || bytes == seq![0x2Bu8],
{
}

/// Decoding is encoding read backwards, and the two accent bytes besides:
/// a sequence decodes to a scalar exactly when it is that scalar's sequence,
/// or is the first byte of the sequence of one of the two accents.
pub proof fn decoding_inverts_encoding(bytes: Seq<u8>, c: char)
    ensures
        decoded(bytes) == Some(c) <==> encoded(c) == Some(bytes) || (bytes == seq![0x29u8] && c
            == '´') || (bytes == seq![0x2Bu8] && c == '`'),
{
    if encoded(c) == Some(bytes) {
        char_round_trip(c);
    }
    if decoded(bytes) == Some(c) {
        decoded_is_encoded(bytes);
    }
}

/// The encoding of two texts, one after the other, is the encoding of the
/// first followed by the encoding of the second.
pub proof fn encoding_distributes(front: Seq<char>, back: Seq<char>)
    ensures
        encoded_text(front + back) == encoded_text(front) + encoded_text(back),
    decreases back.len(),
{
    if back.len() == 0 {
        assert(front + back == front);
    } else {
        let whole = front + back;
        assert(whole.drop_last() == front + back.drop_last());
        assert(whole.last() == back.last());
        encoding_distributes(front, back.drop_last());
    }
}

/// The encoding of a text of one scalar is what is written for that scalar.
pub proof fn encoding_of_one(c: char)
    ensures
        encoded_text(seq![c]) == encoded_or_fallback(c),
{
    let text = seq![c];
    assert(text.drop_last() == Seq::<char>::empty());
    assert(encoded_text(text.drop_last()) == Seq::<u8>::empty());
    assert(Seq::<u8>::empty() + encoded_or_fallback(c) == encoded_or_fallback(c));
}

/// An encoding starts with the sequence of the first scalar; the encoding of
/// the others follows it.
pub proof fn encoding_starts_with_first(text: Seq<char>)
    requires
        text.len() > 0,
    ensures
        encoded_text(text) == encoded_or_fallback(text[0]) + encoded_text(text.skip(1)),
{
    let first = seq![text[0]];
    encoding_of_one(text[0]);
    assert(first + text.skip(1) == text);
    encoding_distributes(first, text.skip(1));
}

/// `text` holds 'C', a backspace and '=' directly one after the other. The
/// bytes of these three are, together, the bytes of the euro sign.
pub open spec fn spells_euro(text: Seq<char>) -> bool {
    exists|i: int|
        0 <= i && i + 2 < text.len() && #[trigger] text[i] == 'C' && text[i + 1] == '\x08'
            && text[i + 2] == '='
}

/// At the front of an encoding the decoder finds the first scalar, and takes
/// exactly its bytes: no longer sequence of the table begins there, unless
/// the text begins with the three scalars that spell the euro sign.
proof fn first_scalar_is_longest_match(text: Seq<char>)
    requires
        text.len() > 0,
        representable(text),
        !(text.len() >= 3 && text[0] == 'C' && text[1] == '\x08' && text[2] == '='),
    ensures
        prefix_length(encoded_text(text)) == encoded(text[0])->0.len(),
        decoded(encoded_text(text).take(prefix_length(encoded_text(text)))) == Some(text[0]),
        encoded_text(text).skip(prefix_length(encoded_text(text))) == encoded_text(text.skip(1)),
{
    let own = encoded(text[0])->0;
    let rest = text.skip(1);
    let tail = encoded_text(rest);
    let bytes = encoded_text(text);
    encoding_starts_with_first(text);
    assert(bytes == own + tail);
    assert(bytes.take(own.len() as int) == own);
    assert(bytes.skip(own.len() as int) == tail);
    char_round_trip(text[0]);
    if rest.len() > 0 {
        assert(encoded(rest[0]) is Some) by {
            assert(rest[0] == text[1]);
        }
        encoding_starts_with_first(rest);
        let second = encoded(rest[0])->0;
        let later = rest.skip(1);
        assert(tail == second + encoded_text(later));
        assert(tail[0] == second[0]);
        if later.len() > 0 && second.len() == 1 {
            assert(encoded(later[0]) is Some) by {
                assert(later[0] == text[2]);
            }
            encoding_starts_with_first(later);
            let third = encoded(later[0])->0;
            assert(tail[1] == third[0]);
        }
    }
    if own.len() == 1 {
        if bytes.len() >= 3 {
            assert(bytes.take(3) == seq![bytes[0], bytes[1], bytes[2]]);
            assert(decoded(bytes.take(3)) is None);
        }
        if bytes.len() >= 2 {
            assert(bytes.take(2) == seq![bytes[0], bytes[1]]);
            assert(decoded(bytes.take(2)) is None);
        }
    } else if own.len() == 2 {
        if bytes.len() >= 3 {
            assert(bytes.take(3) == seq![bytes[0], bytes[1], bytes[2]]);
            assert(decoded(bytes.take(3)) is None);
        }
    }
}

/// Text that is encoded and decoded again is the text that went in, if the
/// table has all its scalars and it does not spell the euro sign from the
/// three scalars whose bytes are the same as the sign's.
pub proof fn text_round_trip(text: Seq<char>)
    requires
        representable(text),
        !spells_euro(text),
    ensures
        decoded_text(encoded_text(text)) == Some(text),
    decreases text.len(),
{
    if text.len() == 0 {
    } else {
        let rest = text.skip(1);
        assert(representable(rest)) by {
            assert forall|i: int| 0 <= i < rest.len() implies encoded(#[trigger] rest[i]) is Some by {
                assert(rest[i] == text[i + 1]);
            }
        }
        assert(!spells_euro(rest)) by {
            if spells_euro(rest) {
                let i = choose|i: int|
                    0 <= i && i + 2 < rest.len() && #[trigger] rest[i] == 'C' && rest[i + 1]
                        == '\x08' && rest[i + 2] == '=';
                assert(text[i + 1] == 'C' && text[i + 2] == '\x08' && text[i + 3] == '=');
            }
        }
        assert(!(text.len() >= 3 && text[0] == 'C' && text[1] == '\x08' && text[2] == '='));
        first_scalar_is_longest_match(text);
        text_round_trip(rest);
        sequence_length(text[0]);
        assert(seq![text[0]] + rest == text);
    }
}

/// The sequence of one scalar decodes to that scalar alone, however many
/// bytes it has.
pub proof fn sequence_is_one_scalar(c: char)
    requires
        encoded(c) is Some,
    ensures
        decoded_text(encoded(c)->0) == Some(seq![c]),
{
    let text = seq![c];
    encoding_of_one(c);
    text_round_trip(text);
}

/// Every accent byte in `bytes` is followed by the byte that completes it.
pub open spec fn accents_complete(bytes: Seq<u8>) -> bool {
    forall|i: int|
        0 <= i < bytes.len() && (#[trigger] bytes[i] == 0x29 || bytes[i] == 0x2B) ==> i + 1
            < bytes.len() && bytes[i + 1] == 0x71
}

/// What decodes can be encoded again, without loss, and the bytes that come
/// out are the bytes that went in, if no accent byte stood alone among them.
pub proof fn decode_then_encode(bytes: Seq<u8>)
    requires
        decoded_text(bytes) is Some,
        accents_complete(bytes),
    ensures
        representable(decoded_text(bytes)->0),
        encoded_text(decoded_text(bytes)->0) == bytes,
    decreases bytes.len(),
{
    if bytes.len() == 0 {
    } else {
        let length = prefix_length(bytes);
        let own = bytes.take(length);
        let scalar = decoded(own)->0;
        let later = bytes.skip(length);
        let rest = decoded_text(later)->0;
        let text = decoded_text(bytes)->0;
        assert(text == seq![scalar] + rest);
        assert(accents_complete(later)) by {
            assert forall|i: int|
                0 <= i < later.len() && (#[trigger] later[i] == 0x29 || later[i]
                    == 0x2B) implies i + 1 < later.len() && later[i + 1] == 0x71 by {
                assert(bytes[i + length] == later[i]);
            }
        }
        decode_then_encode(later);
        decoded_is_encoded(own);
        assert(encoded(scalar) == Some(own)) by {
            if own == seq![0x29u8] || own == seq![0x2Bu8] {
                assert(bytes[0] == own[0]);
                assert(bytes.take(2) == seq![bytes[0], bytes[1]]);
                assert(decoded(bytes.take(2)) is Some);
            }
        }
        assert forall|i: int| 0 <= i < text.len() implies encoded(#[trigger] text[i]) is Some by {
            if i > 0 {
                assert(text[i] == rest[i - 1]);
            }
        }
        encoding_of_one(scalar);
        encoding_distributes(seq![scalar], rest);
        assert(own + later == bytes);
    }
}

/// `text` with the fallback in the place of each scalar that the table lacks.
pub open spec fn with_fallback(text: Seq<char>) -> Seq<char> {
    text.map_values(
        |c: char|
            if encoded(c) is Some {
                c
            } else {
                FALLBACK
            },
    )
}

/// Lossy encoding is strict encoding after the scalars that the table lacks
/// have given way to the fallback: the text that is then encoded has a
/// sequence for every scalar, and nothing else about it has changed.
pub proof fn lossy_is_strict_after_substitution(text: Seq<char>)
    ensures
        representable(with_fallback(text)),
        with_fallback(text).len() == text.len(),
        encoded_text(text) == encoded_text(with_fallback(text)),
        representable(text) ==> with_fallback(text) == text,
    decreases text.len(),
{
    if text.len() > 0 {
        lossy_is_strict_after_substitution(text.drop_last());
        assert(with_fallback(text).drop_last() == with_fallback(text.drop_last()));
    }
}

/// An encoding has at least one byte and at most three for each scalar of
/// the text.
pub proof fn encoding_length(text: Seq<char>)
    ensures
        text.len() <= encoded_text(text).len() <= 3 * text.len(),
    decreases text.len(),
{
    if text.len() > 0 {
        encoding_length(text.drop_last());
    }
}

/// Looking up the byte of a control code finds that code.
pub proof fn lookup_finds_code(code: ControlCode)
    ensures
        ControlCode::spec_lookup(code.spec_code()) == Some(code),
{
}

/// The code that a byte is looked up as is the code with that byte.
pub proof fn lookup_is_exact(byte: u8)
    requires
        ControlCode::spec_lookup(byte) is Some,
    ensures
        ControlCode::spec_lookup(byte)->0.spec_code() == byte,
{
}

/// Looking up is reading the codes backwards: a byte is looked up as a code
/// exactly when it is the byte of that code.
pub proof fn lookup_inverts_code(byte: u8, code: ControlCode)
    ensures
        ControlCode::spec_lookup(byte) == Some(code) <==> code.spec_code() == byte,
{
}

/// No two control codes share a byte.
pub proof fn codes_are_distinct(a: ControlCode, b: ControlCode)
    requires
        a.spec_code() == b.spec_code(),
    ensures
        a == b,
{
    lookup_finds_code(a);
    lookup_finds_code(b);
}

/// A control code is never text: no sequence of the table begins with the
/// byte of a control code.
pub proof fn control_codes_are_not_text(bytes: Seq<u8>)
    requires
        bytes.len() > 0,
        ControlCode::spec_lookup(bytes[0]) is Some,
    ensures
        prefix_length(bytes) == 0,
{
    if bytes.len() >= 3 {
        assert(bytes.take(3)[0] == bytes[0]);
    }
    if bytes.len() >= 2 {
        assert(bytes.take(2)[0] == bytes[0]);
    }
    assert(bytes.take(1)[0] == bytes[0]);
}

/// A read that delivered anything is never classified as no event.
pub proof fn something_read_is_never_nothing(received: Seq<u8>)
    requires
        received.len() > 0,
    ensures
        classified(received) != Ok::<Option<InputEvent>, ErikaError>(None),
{
}

/// A read is an unknown code exactly when its first byte begins no sequence
/// of the table and is no control code, and the error names that byte.
pub proof fn unknown_code_names_the_first_byte(received: Seq<u8>, byte: u8)
    ensures
        classified(received) == Err::<Option<InputEvent>, ErikaError>(
            ErikaError::UnknownCode(byte),
        ) <==> received.len() > 0 && received[0] == byte && prefix_length(received) == 0
            && ControlCode::spec_lookup(byte) is None,
{
}

/// A control code is read as that code, whatever follows it.
pub proof fn control_code_is_read_as_itself(code: ControlCode, following: Seq<u8>)
    ensures
        classified(seq![code.spec_code()] + following) == Ok::<Option<InputEvent>, ErikaError>(
            Some(InputEvent::ControlCode(code)),
        ),
{
    let received = seq![code.spec_code()] + following;
    assert(received[0] == code.spec_code());
    lookup_finds_code(code);
    control_codes_are_not_text(received);
}

/// The sequence of a scalar is read as that scalar.
pub proof fn sequence_is_read_as_its_scalar(c: char)
    requires
        encoded(c) is Some,
    ensures
        classified(encoded(c)->0) == Ok::<Option<InputEvent>, ErikaError>(
            Some(InputEvent::Character(c)),
        ),
{
    let text = seq![c];
    encoding_of_one(c);
    first_scalar_is_longest_match(text);
}

} // verus!
