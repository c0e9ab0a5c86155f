//! The code table of the typewriter: which byte sequence stands for which
//! Unicode scalar value, in both directions.
//!
//! A scalar is written as one, two or three bytes. The table is closed: what
//! is not listed here cannot be printed, and a byte sequence that is not
//! listed here is not text.

use vstd::prelude::*;

verus! {

/// The byte sequence that the typewriter prints `c` from, if it can print it.
pub open spec fn encoded(c: char) -> Option<Seq<u8>> {
    match c {
        // control characters
        '\x08' => Some(seq![0x72u8]),  // backspace
        '\t' => Some(seq![0x79u8]),
        '\n' => Some(seq![0x77u8]),
        '\r' => Some(seq![0x78u8]),

        // punctuation
        ' ' => Some(seq![0x71u8]),
        '!' => Some(seq![0x42u8]),
        '"' => Some(seq![0x43u8]),
        '#' => Some(seq![0x41u8]),
        '$' => Some(seq![0x48u8]),
        '%' => Some(seq![0x04u8]),
        '&' => Some(seq![0x02u8]),
        '\'' => Some(seq![0x17u8]),
        '(' => Some(seq![0x1Du8]),
        ')' => Some(seq![0x1Fu8]),
        '*' => Some(seq![0x1Bu8]),
        '+' => Some(seq![0x25u8]),
        ',' => Some(seq![0x64u8]),
        '-' => Some(seq![0x62u8]),
        '.' => Some(seq![0x63u8]),
        '/' => Some(seq![0x40u8]),

        // digits
        '0' => Some(seq![0x0Du8]),
        '1' => Some(seq![0x11u8]),
        '2' => Some(seq![0x10u8]),
        '3' => Some(seq![0x0Fu8]),
        '4' => Some(seq![0x0Eu8]),
        '5' => Some(seq![0x0Cu8]),
        '6' => Some(seq![0x0Bu8]),
        '7' => Some(seq![0x0Au8]),
        '8' => Some(seq![0x09u8]),
        '9' => Some(seq![0x08u8]),

        // more punctuation
        ':' => Some(seq![0x13u8]),
        ';' => Some(seq![0x3Bu8]),
        '=' => Some(seq![0x2Eu8]),
        '?' => Some(seq![0x35u8]),

        // upper case letters
        'A' => Some(seq![0x30u8]),
        'B' => Some(seq![0x18u8]),
        'C' => Some(seq![0x20u8]),
        'D' => Some(seq![0x14u8]),
        'E' => Some(seq![0x34u8]),
        'F' => Some(seq![0x3Eu8]),
        'G' => Some(seq![0x1Cu8]),
        'H' => Some(seq![0x12u8]),
        'I' => Some(seq![0x21u8]),
        'J' => Some(seq![0x32u8]),
        'K' => Some(seq![0x24u8]),
        'L' => Some(seq![0x2Cu8]),
        'M' => Some(seq![0x16u8]),
        'N' => Some(seq![0x2Au8]),
        'O' => Some(seq![0x1Eu8]),
        'P' => Some(seq![0x2Fu8]),
        'Q' => Some(seq![0x1Au8]),
        'R' => Some(seq![0x36u8]),
        'S' => Some(seq![0x33u8]),
        'T' => Some(seq![0x37u8]),
        'U' => Some(seq![0x28u8]),
        'V' => Some(seq![0x22u8]),
        'W' => Some(seq![0x2Du8]),
        'X' => Some(seq![0x26u8]),
        'Y' => Some(seq![0x31u8]),
        'Z' => Some(seq![0x38u8]),

        // punctuation
        '^' => Some(seq![0x19u8, 0x71u8]),
        '_' => Some(seq![0x01u8]),
        '`' => Some(seq![0x2Bu8, 0x71u8]),

        // lower case letters
        'a' => Some(seq![0x61u8]),
        'b' => Some(seq![0x4Eu8]),
        'c' => Some(seq![0x57u8]),
        'd' => Some(seq![0x53u8]),
        'e' => Some(seq![0x5Au8]),
        'f' => Some(seq![0x49u8]),
        'g' => Some(seq![0x60u8]),
        'h' => Some(seq![0x55u8]),
        'i' => Some(seq![0x05u8]),
        'j' => Some(seq![0x4Bu8]),
        'k' => Some(seq![0x50u8]),
        'l' => Some(seq![0x4Du8]),
        'm' => Some(seq![0x4Au8]),
        'n' => Some(seq![0x5Cu8]),
        'o' => Some(seq![0x5Eu8]),
        'p' => Some(seq![0x5Bu8]),
        'q' => Some(seq![0x52u8]),
        'r' => Some(seq![0x59u8]),
        's' => Some(seq![0x58u8]),
        't' => Some(seq![0x56u8]),
        'u' => Some(seq![0x5Du8]),
        'v' => Some(seq![0x4Fu8]),
        'w' => Some(seq![0x4Cu8]),
        'x' => Some(seq![0x5Fu8]),
        'y' => Some(seq![0x51u8]),
        'z' => Some(seq![0x54u8]),

        // special chars
        '|' => Some(seq![0x27u8]),
        '£' => Some(seq![0x06u8]),
        '§' => Some(seq![0x3Du8]),
        '¨' => Some(seq![0x03u8, 0x71u8]),
        '°' => Some(seq![0x39u8]),
        '²' => Some(seq![0x15u8]),
        '³' => Some(seq![0x23u8]),

        // umlauts, accents
        'Ä' => Some(seq![0x3Fu8]),
        'Ö' => Some(seq![0x3Cu8]),
        'Ü' => Some(seq![0x3Au8]),
        'ß' => Some(seq![0x47u8]),
        'ä' => Some(seq![0x65u8]),
        'ç' => Some(seq![0x45u8]),
        'è' => Some(seq![0x46u8]),
        'é' => Some(seq![0x44u8]),
        'ö' => Some(seq![0x66u8]),
        'ü' => Some(seq![0x67u8]),
        '´' => Some(seq![0x29u8, 0x71u8]),
        'μ' => Some(seq![0x07u8]),

        // combined chars
        '€' => Some(seq![0x20u8, 0x72u8, 0x2Eu8]),

        _ => None,
    }
}

/// The scalar that a single byte stands for, if it stands for one.
pub open spec fn decoded_single(byte: u8) -> Option<char> {
    match byte {
        // control characters
        0x72 => Some('\x08'),  // backspace
        0x79 => Some('\t'),
        0x77 => Some('\n'),
        0x78 => Some('\r'),

        // punctuation
        0x71 => Some(' '),
        0x42 => Some('!'),
        0x43 => Some('"'),
        0x41 => Some('#'),
        0x48 => Some('$'),
        0x04 => Some('%'),
        0x02 => Some('&'),
        0x17 => Some('\''),
        0x1D => Some('('),
        0x1F => Some(')'),
        0x1B => Some('*'),
        0x25 => Some('+'),
        0x64 => Some(','),
        0x62 => Some('-'),
        0x63 => Some('.'),
        0x40 => Some('/'),

        // digits
        0x0D => Some('0'),
        0x11 => Some('1'),
        0x10 => Some('2'),
        0x0F => Some('3'),
        0x0E => Some('4'),
        0x0C => Some('5'),
        0x0B => Some('6'),
        0x0A => Some('7'),
        0x09 => Some('8'),
        0x08 => Some('9'),

        // more punctuation
        0x13 => Some(':'),
        0x3B => Some(';'),
        0x2E => Some('='),
        0x35 => Some('?'),

        // upper case letters
        0x30 => Some('A'),
        0x18 => Some('B'),
        0x20 => Some('C'),
        0x14 => Some('D'),
        0x34 => Some('E'),
        0x3E => Some('F'),
        0x1C => Some('G'),
        0x12 => Some('H'),
        0x21 => Some('I'),
        0x32 => Some('J'),
        0x24 => Some('K'),
        0x2C => Some('L'),
        0x16 => Some('M'),
        0x2A => Some('N'),
        0x1E => Some('O'),
        0x2F => Some('P'),
        0x1A => Some('Q'),
        0x36 => Some('R'),
        0x33 => Some('S'),
        0x37 => Some('T'),
        0x28 => Some('U'),
        0x22 => Some('V'),
        0x2D => Some('W'),
        0x26 => Some('X'),
        0x31 => Some('Y'),
        0x38 => Some('Z'),

        // punctuation
        0x01 => Some('_'),

        // lower case letters
        0x61 => Some('a'),
        0x4E => Some('b'),
        0x57 => Some('c'),
        0x53 => Some('d'),
        0x5A => Some('e'),
        0x49 => Some('f'),
        0x60 => Some('g'),
        0x55 => Some('h'),
        0x05 => Some('i'),
        0x4B => Some('j'),
        0x50 => Some('k'),
        0x4D => Some('l'),
        0x4A => Some('m'),
        0x5C => Some('n'),
        0x5E => Some('o'),
        0x5B => Some('p'),
        0x52 => Some('q'),
        0x59 => Some('r'),
        0x58 => Some('s'),
        0x56 => Some('t'),
        0x5D => Some('u'),
        0x4F => Some('v'),
        0x4C => Some('w'),
        0x5F => Some('x'),
        0x51 => Some('y'),
        0x54 => Some('z'),

        // special chars
        0x27 => Some('|'),
        0x06 => Some('£'),
        0x3D => Some('§'),
        0x39 => Some('°'),
        0x15 => Some('²'),
        0x23 => Some('³'),

        // umlauts, accents
        0x3F => Some('Ä'),
        0x3C => Some('Ö'),
        0x3A => Some('Ü'),
        0x47 => Some('ß'),
        0x65 => Some('ä'),
        0x45 => Some('ç'),
        0x46 => Some('è'),
        0x44 => Some('é'),
        0x66 => Some('ö'),
        0x67 => Some('ü'),
        0x07 => Some('μ'),

        // an accent byte that arrives without the 0x71 that completes it
        0x29 => Some('´'),
        0x2B => Some('`'),

        _ => None,
    }
}

/// The scalar that a sequence of two bytes stands for, if it stands for one.
pub open spec fn decoded_pair(first: u8, second: u8) -> Option<char> {
    match (first, second) {
        (0x19, 0x71) => Some('^'),
        (0x2B, 0x71) => Some('`'),
        (0x03, 0x71) => Some('¨'),
        (0x29, 0x71) => Some('´'),
        _ => None,
    }
}

/// The scalar that a sequence of three bytes stands for, if it stands for one.
pub open spec fn decoded_triple(first: u8, second: u8, third: u8) -> Option<char> {
    match (first, second, third) {
        (0x20, 0x72, 0x2E) => Some('€'),
        _ => None,
    }
}

/// The scalar that `bytes`, taken as a whole, stands for. Only sequences of
/// one to three bytes stand for anything.
pub open spec fn decoded(bytes: Seq<u8>) -> Option<char> {
    if bytes.len() == 1 {
        decoded_single(bytes[0])
    } else if bytes.len() == 2 {
        decoded_pair(bytes[0], bytes[1])
    } else if bytes.len() == 3 {
        decoded_triple(bytes[0], bytes[1], bytes[2])
    } else {
        None
    }
}

/// Looks `c` up in the table.
pub fn utf8_to_gdr_ascii(c: char) -> (sequence: Option<&'static [u8]>)
    ensures
        match sequence {
            Some(bytes) => encoded(c) == Some(bytes@),
            None => encoded(c) is None,
        },
{
    match c {
        // control characters
        '\x08' => Some(&[0x72]),  // backspace
        '\t' => Some(&[0x79]),
        '\n' => Some(&[0x77]),
        '\r' => Some(&[0x78]),

        // punctuation
        ' ' => Some(&[0x71]),
        '!' => Some(&[0x42]),
        '"' => Some(&[0x43]),
        '#' => Some(&[0x41]),
        '$' => Some(&[0x48]),
        '%' => Some(&[0x04]),
        '&' => Some(&[0x02]),
        '\'' => Some(&[0x17]),
        '(' => Some(&[0x1D]),
        ')' => Some(&[0x1F]),
        '*' => Some(&[0x1B]),
        '+' => Some(&[0x25]),
        ',' => Some(&[0x64]),
        '-' => Some(&[0x62]),
        '.' => Some(&[0x63]),
        '/' => Some(&[0x40]),

        // digits
        '0' => Some(&[0x0D]),
        '1' => Some(&[0x11]),
        '2' => Some(&[0x10]),
        '3' => Some(&[0x0F]),
        '4' => Some(&[0x0E]),
        '5' => Some(&[0x0C]),
        '6' => Some(&[0x0B]),
        '7' => Some(&[0x0A]),
        '8' => Some(&[0x09]),
        '9' => Some(&[0x08]),

        // more punctuation
        ':' => Some(&[0x13]),
        ';' => Some(&[0x3B]),
        '=' => Some(&[0x2E]),
        '?' => Some(&[0x35]),

        // upper case letters
        'A' => Some(&[0x30]),
        'B' => Some(&[0x18]),
        'C' => Some(&[0x20]),
        'D' => Some(&[0x14]),
        'E' => Some(&[0x34]),
        'F' => Some(&[0x3E]),
        'G' => Some(&[0x1C]),
        'H' => Some(&[0x12]),
        'I' => Some(&[0x21]),
        'J' => Some(&[0x32]),
        'K' => Some(&[0x24]),
        'L' => Some(&[0x2C]),
        'M' => Some(&[0x16]),
        'N' => Some(&[0x2A]),
        'O' => Some(&[0x1E]),
        'P' => Some(&[0x2F]),
        'Q' => Some(&[0x1A]),
        'R' => Some(&[0x36]),
        'S' => Some(&[0x33]),
        'T' => Some(&[0x37]),
        'U' => Some(&[0x28]),
        'V' => Some(&[0x22]),
        'W' => Some(&[0x2D]),
        'X' => Some(&[0x26]),
        'Y' => Some(&[0x31]),
        'Z' => Some(&[0x38]),

        // punctuation
        '^' => Some(&[0x19, 0x71]),
        '_' => Some(&[0x01]),
        '`' => Some(&[0x2B, 0x71]),

        // lower case letters
        'a' => Some(&[0x61]),
        'b' => Some(&[0x4E]),
        'c' => Some(&[0x57]),
        'd' => Some(&[0x53]),
        'e' => Some(&[0x5A]),
        'f' => Some(&[0x49]),
        'g' => Some(&[0x60]),
        'h' => Some(&[0x55]),
        'i' => Some(&[0x05]),
        'j' => Some(&[0x4B]),
        'k' => Some(&[0x50]),
        'l' => Some(&[0x4D]),
        'm' => Some(&[0x4A]),
        'n' => Some(&[0x5C]),
        'o' => Some(&[0x5E]),
        'p' => Some(&[0x5B]),
        'q' => Some(&[0x52]),
        'r' => Some(&[0x59]),
        's' => Some(&[0x58]),
        't' => Some(&[0x56]),
        'u' => Some(&[0x5D]),
        'v' => Some(&[0x4F]),
        'w' => Some(&[0x4C]),
        'x' => Some(&[0x5F]),
        'y' => Some(&[0x51]),
        'z' => Some(&[0x54]),

        // special chars
        '|' => Some(&[0x27]),
        '£' => Some(&[0x06]),
        '§' => Some(&[0x3D]),
        '¨' => Some(&[0x03, 0x71]),
        '°' => Some(&[0x39]),
        '²' => Some(&[0x15]),
        '³' => Some(&[0x23]),

        // umlauts, accents
        'Ä' => Some(&[0x3F]),
        'Ö' => Some(&[0x3C]),
        'Ü' => Some(&[0x3A]),
        'ß' => Some(&[0x47]),
        'ä' => Some(&[0x65]),
        'ç' => Some(&[0x45]),
        'è' => Some(&[0x46]),
        'é' => Some(&[0x44]),
        'ö' => Some(&[0x66]),
        'ü' => Some(&[0x67]),
        '´' => Some(&[0x29, 0x71]),
        'μ' => Some(&[0x07]),

        // combined chars
        '€' => Some(&[0x20, 0x72, 0x2E]),

        _ => None,
    }
}

fn single_to_utf8(byte: u8) -> (scalar: Option<char>)
    ensures
        scalar == decoded_single(byte),
{
    match byte {
        // control characters
        0x72 => Some('\x08'),  // backspace
        0x79 => Some('\t'),
        0x77 => Some('\n'),
        0x78 => Some('\r'),

        // punctuation
        0x71 => Some(' '),
        0x42 => Some('!'),
        0x43 => Some('"'),
        0x41 => Some('#'),
        0x48 => Some('$'),
        0x04 => Some('%'),
        0x02 => Some('&'),
        0x17 => Some('\''),
        0x1D => Some('('),
        0x1F => Some(')'),
        0x1B => Some('*'),
        0x25 => Some('+'),
        0x64 => Some(','),
        0x62 => Some('-'),
        0x63 => Some('.'),
        0x40 => Some('/'),

        // digits
        0x0D => Some('0'),
        0x11 => Some('1'),
        0x10 => Some('2'),
        0x0F => Some('3'),
        0x0E => Some('4'),
        0x0C => Some('5'),
        0x0B => Some('6'),
        0x0A => Some('7'),
        0x09 => Some('8'),
        0x08 => Some('9'),

        // more punctuation
        0x13 => Some(':'),
        0x3B => Some(';'),
        0x2E => Some('='),
        0x35 => Some('?'),

        // upper case letters
        0x30 => Some('A'),
        0x18 => Some('B'),
        0x20 => Some('C'),
        0x14 => Some('D'),
        0x34 => Some('E'),
        0x3E => Some('F'),
        0x1C => Some('G'),
        0x12 => Some('H'),
        0x21 => Some('I'),
        0x32 => Some('J'),
        0x24 => Some('K'),
        0x2C => Some('L'),
        0x16 => Some('M'),
        0x2A => Some('N'),
        0x1E => Some('O'),
        0x2F => Some('P'),
        0x1A => Some('Q'),
        0x36 => Some('R'),
        0x33 => Some('S'),
        0x37 => Some('T'),
        0x28 => Some('U'),
        0x22 => Some('V'),
        0x2D => Some('W'),
        0x26 => Some('X'),
        0x31 => Some('Y'),
        0x38 => Some('Z'),

        // punctuation
        0x01 => Some('_'),

        // lower case letters
        0x61 => Some('a'),
        0x4E => Some('b'),
        0x57 => Some('c'),
        0x53 => Some('d'),
        0x5A => Some('e'),
        0x49 => Some('f'),
        0x60 => Some('g'),
        0x55 => Some('h'),
        0x05 => Some('i'),
        0x4B => Some('j'),
        0x50 => Some('k'),
        0x4D => Some('l'),
        0x4A => Some('m'),
        0x5C => Some('n'),
        0x5E => Some('o'),
        0x5B => Some('p'),
        0x52 => Some('q'),
        0x59 => Some('r'),
        0x58 => Some('s'),
        0x56 => Some('t'),
        0x5D => Some('u'),
        0x4F => Some('v'),
        0x4C => Some('w'),
        0x5F => Some('x'),
        0x51 => Some('y'),
        0x54 => Some('z'),

        // special chars
        0x27 => Some('|'),
        0x06 => Some('£'),
        0x3D => Some('§'),
        0x39 => Some('°'),
        0x15 => Some('²'),
        0x23 => Some('³'),

        // umlauts, accents
        0x3F => Some('Ä'),
        0x3C => Some('Ö'),
        0x3A => Some('Ü'),
        0x47 => Some('ß'),
        0x65 => Some('ä'),
        0x45 => Some('ç'),
        0x46 => Some('è'),
        0x44 => Some('é'),
        0x66 => Some('ö'),
        0x67 => Some('ü'),
        0x07 => Some('μ'),

        // an accent byte that arrives without the 0x71 that completes it
        0x29 => Some('´'),
        0x2B => Some('`'),

        _ => None,
    }
}

fn pair_to_utf8(first: u8, second: u8) -> (scalar: Option<char>)
    ensures
        scalar == decoded_pair(first, second),
{
    if second != 0x71 {
        return None;
    }
    match first {
        0x19 => Some('^'),
        0x2B => Some('`'),
        0x03 => Some('¨'),
        0x29 => Some('´'),
        _ => None,
    }
}

fn triple_to_utf8(first: u8, second: u8, third: u8) -> (scalar: Option<char>)
    ensures
        scalar == decoded_triple(first, second, third),
{
    if first == 0x20 && second == 0x72 && third == 0x2E {
        Some('€')
    } else {
        None
    }
}

/// Looks a whole byte sequence up in the table.
pub fn gdr_ascii_to_utf8(bytes: &[u8]) -> (scalar: Option<char>)
    ensures
        scalar == decoded(bytes@),
{
    let length: usize = bytes.len();
    if length == 1 {
        single_to_utf8(bytes[0])
    } else if length == 2 {
        pair_to_utf8(bytes[0], bytes[1])
    } else if length == 3 {
        triple_to_utf8(bytes[0], bytes[1], bytes[2])
    } else {
        None
    }
}

} // verus!
