use erika_3004::codec::{decode, decode_prefix, encode, encode_char, try_encode};
use erika_3004::codec::{EncodingError, EncodingResult};

#[test]
fn encode_hello_world() -> EncodingResult<()> {
    let encoded = try_encode("Hello World")?;
    assert_eq!(encoded, b"\x12\x5A\x4D\x4D\x5E\x71\x2D\x5E\x59\x4D\x53");

    Ok(())
}

#[test]
fn unrepresentable_character() {
    let result = try_encode("@");
    assert!(matches!(
        result,
        Err(EncodingError::UnrepresentableCharacter)
    ));
}

#[test]
fn ignore_errors() {
    let result = encode("@");
    assert_eq!(result, b"\x35");
}

#[test]
fn decode_test() -> EncodingResult<()> {
    let decoded =
        decode(b"\x12\x5A\x4D\x4D\x5E\x71\x20\x72\x2E\x71\x2D\x5E\x59\x4D\x53\x29\x71")?;
    assert_eq!(decoded, "Hello € World´");
    Ok(())
}

#[test]
fn decode_invalid() {
    let decoded = decode(b"asd89wesad");
    assert!(matches!(decoded, Err(EncodingError::InvalidInput)));
}

#[test]
fn encode_decode_lorem_ipsum() -> EncodingResult<()> {
    // This is a normal Lorem ipsum text with some multi-byte characters hidden in it,
    // To make sure the decoder never gets confused by them.
    let example_text = LOREM;

    let encoded = encode(example_text);
    let decoded = decode(&encoded)?;
    assert_eq!(decoded, example_text);
    Ok(())
}

#[test]
fn decode_char() -> EncodingResult<()> {
    let c = erika_3004::codec::decode_char(b"\x20\x72\x2E")?;
    assert_eq!(c, '€');

    let c = erika_3004::codec::decode_char(b"\x254");
    assert!(matches!(c, Err(EncodingError::InvalidInput)));

    let c = erika_3004::codec::decode_char(b"");
    assert!(matches!(c, Err(EncodingError::InvalidInput)));

    Ok(())
}

#[test]
fn every_table_entry_survives_the_round_trip() {
    let mut entries = 0;
    for scalar in '\0'..=char::MAX {
        if let Some(sequence) = encode_char(scalar) {
            entries += 1;
            assert!(1 <= sequence.len() && sequence.len() <= 3);
            assert_eq!(erika_3004::codec::decode_char(sequence), Ok(scalar));
        }
    }
    assert_eq!(entries, 109);
}

#[test]
fn no_two_scalars_share_a_sequence() {
    let mut seen: Vec<&[u8]> = Vec::new();
    for scalar in '\0'..=char::MAX {
        if let Some(sequence) = encode_char(scalar) {
            assert!(!seen.contains(&sequence));
            seen.push(sequence);
        }
    }
}

#[test]
fn encode_char_known_entries() {
    assert_eq!(encode_char('a'), Some(&b"\x61"[..]));
    assert_eq!(encode_char('?'), Some(&b"\x35"[..]));
    assert_eq!(encode_char('^'), Some(&b"\x19\x71"[..]));
    assert_eq!(encode_char('¨'), Some(&b"\x03\x71"[..]));
    assert_eq!(encode_char('€'), Some(&b"\x20\x72\x2E"[..]));
    assert_eq!(encode_char('@'), None);
    assert_eq!(encode_char('<'), None);
    assert_eq!(encode_char('\0'), None);
}

#[test]
fn diaeresis_decodes_from_its_two_bytes() {
    assert_eq!(erika_3004::codec::decode_char(b"\x03\x71"), Ok('¨'));
    assert_eq!(
        erika_3004::codec::decode_char(b"\x03"),
        Err(EncodingError::InvalidInput)
    );
    assert_eq!(decode(b"\x61\x03\x71\x61"), Ok(String::from("a¨a")));
}

#[test]
fn lone_accent_bytes_decode() {
    assert_eq!(erika_3004::codec::decode_char(b"\x29"), Ok('´'));
    assert_eq!(erika_3004::codec::decode_char(b"\x2B"), Ok('`'));
    assert_eq!(decode(b"\x29\x61"), Ok(String::from("´a")));
    assert_eq!(decode(b"\x2B\x71\x2B"), Ok(String::from("``")));
}

#[test]
fn decode_char_wants_the_whole_slice() {
    assert_eq!(
        erika_3004::codec::decode_char(b"\x61\x61"),
        Err(EncodingError::InvalidInput)
    );
    assert_eq!(
        erika_3004::codec::decode_char(b"\x20\x72\x2E\x61"),
        Err(EncodingError::InvalidInput)
    );
    assert_eq!(
        erika_3004::codec::decode_char(b"\x03x71"),
        Err(EncodingError::InvalidInput)
    );
}

#[test]
fn hello_world_round_trip() {
    assert_eq!(decode(&encode("Hello World")), Ok(String::from("Hello World")));
}

#[test]
fn combined_character_is_one_scalar() {
    let decoded = decode(b"\x20\x72\x2E").unwrap();
    assert_eq!(decoded.chars().count(), 1);
    assert_eq!(decoded, "€");
}

#[test]
fn longest_match_wins() {
    // 'C', backspace and '=' one after the other are the bytes of the euro sign
    assert_eq!(encode("C\x08="), b"\x20\x72\x2E");
    assert_eq!(decode(b"\x20\x72\x2E"), Ok(String::from("€")));
    assert_eq!(decode(b"\x20\x72"), Ok(String::from("C\x08")));
    assert_eq!(decode(b"\x20\x72\x2F"), Ok(String::from("C\x08P")));
}

#[test]
fn strict_fails_where_lossy_substitutes() {
    assert_eq!(
        try_encode("a@b"),
        Err(EncodingError::UnrepresentableCharacter)
    );
    assert_eq!(encode("a@b"), b"\x61\x35\x4E");
    assert_eq!(encode("a@b"), encode("a?b"));
    assert_eq!(try_encode("a?b"), Ok(encode("a@b")));
}

#[test]
fn strict_and_lossy_agree_on_representable_text() {
    let text = "Grüße, 10 € = 3² × ... nein: 3³!";
    assert!(try_encode(text).is_err());
    let text = "Grüße, 10 € = 3² ... nein: 3³!";
    assert_eq!(try_encode(text), Ok(encode(text)));
}

#[test]
fn empty_input() {
    assert_eq!(try_encode(""), Ok(Vec::new()));
    assert_eq!(encode(""), Vec::<u8>::new());
    assert_eq!(decode(b""), Ok(String::new()));
}

#[test]
fn decoding_stops_at_the_first_unknown_byte() {
    assert_eq!(decode(b"\x61\x00\x61"), Err(EncodingError::InvalidInput));
    assert_eq!(decode(b"\x61\x61\x73"), Err(EncodingError::InvalidInput));
    assert_eq!(decode(b"\x19"), Err(EncodingError::InvalidInput));
}

#[test]
fn prefix_is_the_longest_match() {
    assert_eq!(decode_prefix(b""), None);
    assert_eq!(decode_prefix(b"\x00"), None);
    assert_eq!(decode_prefix(b"\x61"), Some(('a', 1)));
    assert_eq!(decode_prefix(b"\x61\x61\x61\x61"), Some(('a', 1)));
    assert_eq!(decode_prefix(b"\x29\x71\x61"), Some(('´', 2)));
    assert_eq!(decode_prefix(b"\x29\x61"), Some(('´', 1)));
    assert_eq!(decode_prefix(b"\x20\x72\x2E\x61"), Some(('€', 3)));
    assert_eq!(decode_prefix(b"\x20\x72"), Some(('C', 1)));
}

const LOREM: &str = "Lorem ipsum dolor sit amet, consectetur adipiscing elit, sed do eiusmod tempor incididunt ut labore et dolore magna aliqua. Vel pharetra vel turpis nunc. Consequat interdum varius sit amet mattis vulputate enim. €Vel orci porta non pulvinar neque. Lobortis scelerisque fermentum dui faucibus. Porta nibh venenatis cras sed felis eget velit. Fusce ut placerat orci nulla pellentesque dignissim. Interdum consectetur libero id faucibus nisl. Vitae elementum curabitur vitae nunc. Justo donec enim diam vulputate. Maecenas volutpat blandit aliquam etiam erat velit scelerisque in dictum. ** Nec sagittis aliquam malesuada bibendum arcu. Dictum non consectetur a erat. Vivamus arcu felis bibendum ut. Blandit aliquam etiam erat velit scelerisque in. Pharetra et ultrices neque ornare aenean.

Convallis convallis tellus id interdum velit. Ante metus dictum at tempor commodo ullamcorper a lacus. Suspendisse interdum consectetur libero id faucibus nisl tincidunt. Suspendisse in est ante in nibh mauris cursus mattis. Massa sed elementum tempus egestas sed. Velit egestas dui id ornare arcu odio. Nam at lectus urna duis. Nisl ^suscipit adipiscing bibendum est ultricies integer quis auctor elit. Sagittis id consectetur purus ut faucibus pulvinar elementum integer. Egestas egestas fringilla phasellus faucibus. Cursus turpis massa tincidunt dui ut ornare. Arcu non odio euismod lacinia at. Amet nisl purus in mollis nunc sed.

Feugiat in ante metus dictum at. Urna et pharetra pharetra massa massa ultricies. Tellus in metus vulputate eu scelerisque felis imperdiet. Ut sem viverra aliquet eget sit amet tellus cras. Nunc sed augue lacus viverra vitae congue. Volutpat sed cras ornare arcu. Ut tristique et egestas quis ipsum suspendisse. Sit amet massa vitae tortor condimentum lacinia quis. Massa vitae tortor condimentum lacinia quis vel eros. Volutpat diam ut venenatis tellus in metus. Lobortis mattis aliquam faucibus purus in.

Vel eros donec ac odio tempor orci dapibus ultrices in. Nunc sed blandit libero volutpat sed cras ornare arcu. Fusce id velit ut tortor. Elit ut aliquam purus sit amet luctus. Sed blandit libero volutpat sed. Tortor id aliquet lectus proin nibh. Viverra justo nec ultrices dui sapien eget. Dignissim diam quis enim lobortis scelerisque fermentum dui faucibus. Diam vulputate ut pharetra sit amet. Amet consectetur adipiscing *elit pellentesque habitant morbi tristique senectus et. Augue eget arcu dictum varius duis at consectetur lorem donec. Sed turpis tincidunt id aliquet risus feugiat in ante. Vitae elementum curabitur vitae nunc sed velit. Adipiscing elit pellentesque habitant morbi tristique senectus et. Feugiat vivamus at augue eget arcu dictum varius duis. Erat imperdiet sed euismod nisi porta. Tempor id eu nisl nunc mi ipsum faucibus. Nisi scelerisque eu ultrices vitae auctor eu. Nibh cras pulvinar mattis nunc sed blandit libero volutpat. Ac tortor dignissim convallis aenean et tortor at risus.

Massa vitae tortor condimentum lacinia quis vel. Ullamcorper malesuada proin libero nunc consequat interdum varius sit. Dui faucibus in ornare quam viverra. Egestas diam in arcu cursus euismod quis viverra. Hac habitasse platea dictumst quisque sagittis. Integer enim neque volutpat ac tincidunt vitae semper quis. Eleifend donec pretium vulputate sapien nec sagittis. Risus pretium quam vulputate dignissim suspendisse in est. Scelerisque fermentum dui faucibus in. Facilisis volutpat est velit egestas dui. Aliquam eleifend mi in nulla posuere sollicitudin aliquam ultrices. Faucibus in ornare quam viverra orci sagittis eu volutpat. Proin sagittis nisl rhoncus mattis rhoncus urna neque viverra.";
