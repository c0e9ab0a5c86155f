//! The typewriter as a keyboard: which key, on a keyboard with the German
//! layout, stands for an input event, and which modifiers are held with it.
//!
//! Nothing here presses a key. `key_action` says what is to be done, and
//! whoever owns the emulated keyboard does it.

use crate::control::ControlCode;
use crate::protocol::InputEvent;
use vstd::prelude::*;

verus! {

/// A key of the emulated keyboard, named by where it sits on a keyboard with
/// the American layout, as the kernel names it. `Nd102` is the key that such
/// a keyboard lacks, between the left shift key and the first letter.
#[derive(Debug, Clone, Copy, PartialEq, Eq, Structural)]
pub enum Key {
    BackSpace,
    Up,
    Down,
    Left,
    Right,
    Home,
    End,
    Esc,
    Digit1,
    Digit2,
    Digit3,
    Digit4,
    Digit5,
    Digit6,
    Digit7,
    Digit8,
    Digit9,
    Digit0,
    Minus,
    LeftBrace,
    Apostrophe,
    SemiColon,
    RightBrace,
    Q,
    W,
    E,
    R,
    T,
    Z,
    U,
    I,
    O,
    P,
    A,
    S,
    D,
    F,
    G,
    H,
    J,
    K,
    L,
    Comma,
    BackSlash,
    Y,
    X,
    C,
    V,
    B,
    N,
    M,
    Dot,
    Slash,
    Space,
    Equal,
    Nd102,
}

/// One key, and the modifiers that are held while it is clicked.
#[derive(Debug, Clone, Copy, PartialEq, Eq, Structural)]
pub struct KeyStroke {
    pub key: Key,
    pub shift: bool,
    pub control: bool,
    pub alt_gr: bool,
}

/// What the emulated keyboard does for one input event.
#[derive(Debug, Clone, Copy, PartialEq, Eq, Structural)]
pub enum KeyAction {
    /// It clicks a key.
    Stroke(KeyStroke),
    /// It does nothing, and nothing is amiss.
    Ignored,
    /// It does nothing, because no key has been chosen for the event.
    Unassigned,
}

/// Whether Unicode counts `c` among the uppercase letters: what
/// `char::is_uppercase` answers for it.
pub uninterp spec fn is_uppercase(c: char) -> bool;

/// `char::is_uppercase`. Its answer depends on the scalar alone and is known
/// here only by its name.
#[verifier::external_body]
fn char_is_uppercase(c: char) -> (uppercase: bool)
    ensures
        uppercase == is_uppercase(c),
{
    c.is_uppercase()
}

/// The key that a control code of the typewriter stands for.
pub open spec fn key_of_code(code: ControlCode) -> Option<Key> {
    match code {
        ControlCode::DeleteLastChar => Some(Key::BackSpace),
        ControlCode::HalfstepUp => Some(Key::Up),
        ControlCode::HalfstepDown => Some(Key::Down),
        ControlCode::HalfstepLeft => Some(Key::Left),
        ControlCode::HalfstepRight => Some(Key::Right),
        ControlCode::MarginAllDel => Some(Key::Home),
        ControlCode::Relocate => Some(Key::End),
        ControlCode::MarginSet => Some(Key::Esc),
        _ => None,
    }
}

/// The control codes that are passed over in silence: no key stands for
/// them, and that is no fault.
pub open spec fn is_silent_code(code: ControlCode) -> bool {
    code == ControlCode::Row1 || code == ControlCode::GetPaper || code == ControlCode::Chars10PerInch
}

/// The key that types `c`, with or without modifiers.
pub open spec fn key_of_char(c: char) -> Option<Key> {
    match c {
        '1' | '!' => Some(Key::Digit1),
        '2' | '"' => Some(Key::Digit2),
        '3' | '§' => Some(Key::Digit3),
        '4' | '$' => Some(Key::Digit4),
        '5' | '%' => Some(Key::Digit5),
        '6' | '&' => Some(Key::Digit6),
        '7' | '/' => Some(Key::Digit7),
        '8' | '(' => Some(Key::Digit8),
        '9' | ')' => Some(Key::Digit9),
        '0' | '=' => Some(Key::Digit0),
        'ß' | '?' => Some(Key::Minus),
        'Ü' | 'ü' => Some(Key::LeftBrace),
        'Ä' | 'ä' => Some(Key::Apostrophe),
        'Ö' | 'ö' => Some(Key::SemiColon),
        '+' | '*' => Some(Key::RightBrace),
        'Q' | 'q' | '\x11' => Some(Key::Q),
        'W' | 'w' | '\x17' => Some(Key::W),
        'E' | 'e' | '\x05' => Some(Key::E),
        'R' | 'r' | '\x12' => Some(Key::R),
        'T' | 't' | '\x14' => Some(Key::T),
        'Y' | 'y' | '\x1A' => Some(Key::Z),
        'U' | 'u' | '\x15' => Some(Key::U),
        'I' | 'i' | '\x09' => Some(Key::I),
        'O' | 'o' | '\x0F' => Some(Key::O),
        'P' | 'p' | '\x10' => Some(Key::P),
        'A' | 'a' | '\x01' => Some(Key::A),
        'S' | 's' | '\x13' => Some(Key::S),
        'D' | 'd' | '\x04' => Some(Key::D),
        'F' | 'f' | '\x06' => Some(Key::F),
        'G' | 'g' | '\x07' => Some(Key::G),
        'H' | 'h' | '\x08' => Some(Key::H),
        'J' | 'j' | '\x0A' => Some(Key::J),
        'K' | 'k' | '\x0B' => Some(Key::K),
        'L' | 'l' | '\x0C' => Some(Key::L),
        ';' => Some(Key::Comma),
        '\'' | '#' => Some(Key::BackSlash),
        'Z' | 'z' | '\x19' => Some(Key::Y),
        'X' | 'x' | '\x18' => Some(Key::X),
        'C' | 'c' | '\x03' => Some(Key::C),
        'V' | 'v' | '\x16' => Some(Key::V),
        'B' | 'b' | '\x02' => Some(Key::B),
        'N' | 'n' | '\x0E' => Some(Key::N),
        'M' | 'm' | '\x0D' => Some(Key::M),
        ',' => Some(Key::Comma),
        '.' | ':' => Some(Key::Dot),
        '-' | '_' => Some(Key::Slash),
        ' ' => Some(Key::Space),
        '´' => Some(Key::Equal),
        '`' => Some(Key::Equal),
        _ => None,
    }
}

/// The symbols that are typed with the shift key held.
pub open spec fn is_shifted_symbol(c: char) -> bool {
    matches!(
        c,
        '!' | '"' | '§' | '$' | '%' | '&' | '/' | '(' | ')' | '=' | '?' | '`' | '_' | ';' | ':' | '\'' | '*'
    )
}

/// Whether the shift key is held for `input`.
pub open spec fn needs_shift(input: InputEvent) -> bool {
    input matches InputEvent::Character(c) && (is_uppercase(c) || is_shifted_symbol(c))
}

/// Whether the control key is held for `input`.
pub open spec fn needs_control(input: InputEvent) -> bool {
    input matches InputEvent::Character(c) && c < '\x20'
}

/// What is done for `input`, where `uppercase` says whether it is an
/// uppercase letter. The vertical bar sits on a key of its own, under the
/// right alt key; everything else is one key with shift or control.
pub open spec fn key_action_given(input: InputEvent, uppercase: bool) -> KeyAction {
    match input {
        InputEvent::Character('|') => KeyAction::Stroke(
            KeyStroke { key: Key::Nd102, shift: false, control: false, alt_gr: true },
        ),
        InputEvent::ControlCode(code) => match key_of_code(code) {
            Some(key) => KeyAction::Stroke(
                KeyStroke { key, shift: false, control: false, alt_gr: false },
            ),
            None => if is_silent_code(code) {
                KeyAction::Ignored
            } else {
                KeyAction::Unassigned
            },
        },
        InputEvent::Character(c) => match key_of_char(c) {
            Some(key) => KeyAction::Stroke(
                KeyStroke {
                    key,
                    shift: uppercase || is_shifted_symbol(c),
                    control: c < '\x20',
                    alt_gr: false,
                },
            ),
            None => KeyAction::Unassigned,
        },
    }
}

/// What is done for `input`.
pub open spec fn spec_key_action(input: InputEvent) -> KeyAction {
    key_action_given(input, input matches InputEvent::Character(c) && is_uppercase(c))
}

fn code_key(code: ControlCode) -> (key: Option<Key>)
    ensures
        key == key_of_code(code),
{
    match code {
        ControlCode::DeleteLastChar => Some(Key::BackSpace),
        ControlCode::HalfstepUp => Some(Key::Up),
        ControlCode::HalfstepDown => Some(Key::Down),
        ControlCode::HalfstepLeft => Some(Key::Left),
        ControlCode::HalfstepRight => Some(Key::Right),
        ControlCode::MarginAllDel => Some(Key::Home),
        ControlCode::Relocate => Some(Key::End),
        ControlCode::MarginSet => Some(Key::Esc),
        _ => None,
    }
}

fn char_key(c: char) -> (key: Option<Key>)
    ensures
        key == key_of_char(c),
{
    match c {
        '1' | '!' => Some(Key::Digit1),
        '2' | '"' => Some(Key::Digit2),
        '3' | '§' => Some(Key::Digit3),
        '4' | '$' => Some(Key::Digit4),
        '5' | '%' => Some(Key::Digit5),
        '6' | '&' => Some(Key::Digit6),
        '7' | '/' => Some(Key::Digit7),
        '8' | '(' => Some(Key::Digit8),
        '9' | ')' => Some(Key::Digit9),
        '0' | '=' => Some(Key::Digit0),
        'ß' | '?' => Some(Key::Minus),
        'Ü' | 'ü' => Some(Key::LeftBrace),
        'Ä' | 'ä' => Some(Key::Apostrophe),
        'Ö' | 'ö' => Some(Key::SemiColon),
        '+' | '*' => Some(Key::RightBrace),
        'Q' | 'q' | '\x11' => Some(Key::Q),
        'W' | 'w' | '\x17' => Some(Key::W),
        'E' | 'e' | '\x05' => Some(Key::E),
        'R' | 'r' | '\x12' => Some(Key::R),
        'T' | 't' | '\x14' => Some(Key::T),
        'Y' | 'y' | '\x1A' => Some(Key::Z),
        'U' | 'u' | '\x15' => Some(Key::U),
        'I' | 'i' | '\x09' => Some(Key::I),
        'O' | 'o' | '\x0F' => Some(Key::O),
        'P' | 'p' | '\x10' => Some(Key::P),
        'A' | 'a' | '\x01' => Some(Key::A),
        'S' | 's' | '\x13' => Some(Key::S),
        'D' | 'd' | '\x04' => Some(Key::D),
        'F' | 'f' | '\x06' => Some(Key::F),
        'G' | 'g' | '\x07' => Some(Key::G),
        'H' | 'h' | '\x08' => Some(Key::H),
        'J' | 'j' | '\x0A' => Some(Key::J),
        'K' | 'k' | '\x0B' => Some(Key::K),
        'L' | 'l' | '\x0C' => Some(Key::L),
        ';' => Some(Key::Comma),
        '\'' | '#' => Some(Key::BackSlash),
        'Z' | 'z' | '\x19' => Some(Key::Y),
        'X' | 'x' | '\x18' => Some(Key::X),
        'C' | 'c' | '\x03' => Some(Key::C),
        'V' | 'v' | '\x16' => Some(Key::V),
        'B' | 'b' | '\x02' => Some(Key::B),
        'N' | 'n' | '\x0E' => Some(Key::N),
        'M' | 'm' | '\x0D' => Some(Key::M),
        ',' => Some(Key::Comma),
        '.' | ':' => Some(Key::Dot),
        '-' | '_' => Some(Key::Slash),
        ' ' => Some(Key::Space),
        '´' => Some(Key::Equal),
        '`' => Some(Key::Equal),
        _ => None,
    }
}

fn shifted_symbol(c: char) -> (shifted: bool)
    ensures
        shifted == is_shifted_symbol(c),
{
    matches!(
        c,
        '!' | '"' | '§' | '$' | '%' | '&' | '/' | '(' | ')' | '=' | '?' | '`' | '_' | ';' | ':' | '\'' | '*'
    )
}

/// Whether the shift key is held for `input`.
pub fn needs_shift_pressed(input: InputEvent) -> (shift: bool)
    ensures
        shift == needs_shift(input),
{
    match input {
        InputEvent::Character(character) => char_is_uppercase(character) || shifted_symbol(
            character,
        ),
        InputEvent::ControlCode(_) => false,
    }
}

/// Whether the control key is held for `input`.
pub fn needs_ctrl_pressed(input: InputEvent) -> (control: bool)
    ensures
        control == needs_control(input),
{
    match input {
        InputEvent::Character(character) => character < '\x20',
        InputEvent::ControlCode(_) => false,
    }
}

/// Decides what is done for `input`, given whether it is an uppercase letter.
pub fn key_action_for(input: InputEvent, uppercase: bool) -> (action: KeyAction)
    ensures
        action == key_action_given(input, uppercase),
{
    match input {
        InputEvent::ControlCode(code) => match code_key(code) {
            Some(key) => KeyAction::Stroke(
                KeyStroke { key, shift: false, control: false, alt_gr: false },
            ),
            None => match code {
                ControlCode::Row1 | ControlCode::GetPaper | ControlCode::Chars10PerInch => KeyAction::Ignored,
                _ => KeyAction::Unassigned,
            },
        },
        InputEvent::Character(character) => {
            // Special case this key, it has no place among the letters
            if character == '|' {
                return KeyAction::Stroke(
                    KeyStroke { key: Key::Nd102, shift: false, control: false, alt_gr: true },
                );
            }
            match char_key(character) {
                Some(key) => KeyAction::Stroke(
                    KeyStroke {
                        key,
                        shift: uppercase || shifted_symbol(character),
                        control: needs_ctrl_pressed(input),
                        alt_gr: false,
                    },
                ),
                None => KeyAction::Unassigned,
            }
        },
    }
}

/// Decides what is done for `input`.
#[verifier::when_used_as_spec(spec_key_action)]
pub fn key_action(input: InputEvent) -> (action: KeyAction)
    ensures
        action == spec_key_action(input),
{
    let uppercase = match input {
        InputEvent::Character(character) => char_is_uppercase(character),
        InputEvent::ControlCode(_) => false,
    };
    key_action_for(input, uppercase)
}

} // verus!
