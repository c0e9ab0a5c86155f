//! The commands that the host sends and the events that it reads.
//!
//! Nothing here touches the serial line. A `TypewriterInterface` collects the
//! bytes that its methods write, and whoever owns the line takes them from it
//! and transmits them; what the line delivers is handed to `read_character`.
//! A command is queued whole or not at all, so no other write can fall
//! between a control code and its parameter.

use crate::codec::{decode_prefix, encode, encoded_text, prefix_length};
use crate::control::ControlCode;
use crate::table::decoded;
use vstd::prelude::*;

verus! {

/// What can go wrong between the host and the typewriter, short of the line
/// itself failing.
#[derive(Debug, Clone, Copy, PartialEq, Eq, Structural)]
pub enum ErikaError {
    /// A byte was received that is neither text nor a control code.
    UnknownCode(u8),
    /// The bell was asked to sound for longer than one byte of steps can say.
    InvalidBellDuration,
}

/// The digit that stands for `value`, which is less than ten.
pub open spec fn digit(value: int) -> char {
    ('0' as int + value) as char
}

/// `number` written in decimal digits, the most significant first.
pub open spec fn decimal(number: nat) -> Seq<char>
    decreases number,
{
    if number < 10 {
        seq![digit(number as int)]
    } else {
        decimal(number / 10).push(digit(number as int % 10))
    }
}

impl ErikaError {
    /// What `message` says of this error.
    pub open spec fn spec_message(self) -> Seq<char> {
        match self {
            ErikaError::UnknownCode(code) =>
                "Data received should either be in the codec range or a control code. This may indicate a character missing in the codec implementation. Code was "@
                    + decimal(code as nat),
            ErikaError::InvalidBellDuration => "Bell duration can not be encoded in a u8"@,
        }
    }

    /// The error in words, for whoever reads the log.
    pub fn message(&self) -> (text: String)
        ensures
            text@ == self.spec_message(),
    {
        match self {
            ErikaError::UnknownCode(code) => {
                let mut text =
                    "Data received should either be in the codec range or a control code. This may indicate a character missing in the codec implementation. Code was ".to_owned();
                let code: u8 = *code;
                if code >= 100 {
                    text.push(digit_of(code / 100));
                }
                if code >= 10 {
                    text.push(digit_of(code / 10 % 10));
                }
                text.push(digit_of(code % 10));
                proof {
                    reveal_with_fuel(decimal, 3);
                }
                text
            },
            ErikaError::InvalidBellDuration => "Bell duration can not be encoded in a u8".to_owned(),
        }
    }
}

fn digit_of(value: u8) -> (character: char)
    requires
        value < 10,
    ensures
        character == digit(value as int),
{
    (48u8 + value) as char
}

/// Classification of an input event
#[derive(Debug, Clone, Copy, PartialEq, Eq, Structural)]
pub enum InputEvent {
    ControlCode(ControlCode),
    Character(char),
}

/// Whether key presses print. The typewriter starts in `Local`; the
/// interface does not remember the mode, the caller does.
#[derive(Debug, Clone, Copy, PartialEq, Eq, Structural)]
pub enum DeviceMode {
    /// Key presses print directly.
    Local,
    /// Key presses are kept from the paper and only reported to the host.
    Remote,
}

impl Default for DeviceMode {
    /// The mode that the typewriter is in when it is switched on.
    fn default() -> (mode: DeviceMode)
        ensures
            mode == DeviceMode::Local,
    {
        DeviceMode::Local
    }
}

/// The length of one bell step, in milliseconds.
pub const BELL_STEP_MS: u128 = 20;

/// The number of steps that a bell of `millis` milliseconds lasts.
pub open spec fn bell_steps(millis: u128) -> int {
    millis as int / BELL_STEP_MS as int
}

/// A paper step that the typewriter accepts: anything but 2, 3, 4, 5 and 6.
pub open spec fn paper_step_allowed(step: u8) -> bool {
    !(2 <= step <= 6)
}

/// What the bytes of one read mean. Text is tried first, by longest match
/// over the first three bytes; then the first byte is looked up as a control
/// code. Nothing received means no event; a first byte that is neither is an
/// error, never no event.
pub open spec fn classified(received: Seq<u8>) -> Result<Option<InputEvent>, ErikaError> {
    if received.len() == 0 {
        Ok(None)
    } else if prefix_length(received) > 0 {
        Ok(Some(InputEvent::Character(decoded(received.take(prefix_length(received)))->0)))
    } else {
        match ControlCode::spec_lookup(received[0]) {
            Some(code) => Ok(Some(InputEvent::ControlCode(code))),
            None => Err(ErikaError::UnknownCode(received[0])),
        }
    }
}

/// Interface for receiving and sending text to the typewriter
pub struct TypewriterInterface {
    outgoing: Vec<u8>,
}

impl View for TypewriterInterface {
    type V = Seq<u8>;

    /// The bytes that were written and not taken yet, oldest first.
    closed spec fn view(&self) -> Seq<u8> {
        self.outgoing@
    }
}

impl TypewriterInterface {
    /// An interface with nothing written yet.
    pub fn new() -> (interface: TypewriterInterface)
        ensures
            interface@ == Seq::<u8>::empty(),
    {
        TypewriterInterface { outgoing: Vec::new() }
    }

    /// Hands over the bytes written so far, for transmission, and forgets them.
    pub fn take_outgoing(&mut self) -> (bytes: Vec<u8>)
        ensures
            bytes@ == old(self)@,
            final(self)@ == Seq::<u8>::empty(),
    {
        let mut bytes: Vec<u8> = Vec::new();
        std::mem::swap(&mut self.outgoing, &mut bytes);
        bytes
    }

    /// Send a unicode encoded rust string to the typewriter. The data will be encoded with the proprietary codec before sending.
    /// Returns the number of bytes written
    pub fn write_unicode(&mut self, text: &str) -> (written: usize)
        ensures
            final(self)@ == old(self)@ + encoded_text(text@),
            written == encoded_text(text@).len(),
    {
        let mut bytes = encode(text);
        let written: usize = bytes.len();
        self.outgoing.append(&mut bytes);
        written
    }

    /// Send a control code, followed by its parameter bytes
    pub fn send_control(&mut self, code: ControlCode, parameters: &[u8])
        ensures
            final(self)@ == old(self)@ + seq![code.spec_code()] + parameters@,
    {
        self.outgoing.push(code.code());
        self.outgoing.extend_from_slice(parameters);
    }

    /// Classifies what one read of up to three bytes delivered. The character is decoded along the way.
    pub fn read_character(&self, received: &[u8]) -> (event: Result<Option<InputEvent>, ErikaError>)
        ensures
            event == classified(received@),
    {
        if received.len() == 0 {
            return Ok(None);
        }
        match decode_prefix(received) {
            Some((scalar, _)) => Ok(Some(InputEvent::Character(scalar))),
            None => match ControlCode::lookup(received[0]) {
                Some(code) => Ok(Some(InputEvent::ControlCode(code))),
                None => Err(ErikaError::UnknownCode(received[0])),
            },
        }
    }

    /// Sound the bell
    pub fn bell(&mut self, millis: u128) -> (sent: Result<(), ErikaError>)
        ensures
            bell_steps(millis) <= u8::MAX ==> sent == Ok::<(), ErikaError>(()) && final(self)@
                == old(self)@ + seq![ControlCode::Bell.spec_code(), bell_steps(millis) as u8],
            bell_steps(millis) > u8::MAX ==> sent == Err::<(), ErikaError>(
                ErikaError::InvalidBellDuration,
            ) && final(self)@ == old(self)@,
    {
        // One step on the typewriter is 20ms
        match u8::try_from(millis / BELL_STEP_MS) {
            Ok(steps) => {
                self.send_control(ControlCode::Bell, &[steps]);
                Ok(())
            },
            Err(_) => Err(ErikaError::InvalidBellDuration),
        }
    }

    /// Set the size of a tab step. The byte goes out as it is.
    pub fn set_tab_size(&mut self, strength: u8)
        ensures
            final(self)@ == old(self)@ + seq![ControlCode::TabStep.spec_code(), strength],
    {
        self.send_control(ControlCode::TabStep, &[strength]);
    }

    /// Whether the typewriter accepts `step` as a paper step.
    pub fn paper_step_allowed(step: u8) -> (allowed: bool)
        ensures
            allowed == paper_step_allowed(step),
    {
        step < 2 || step > 6
    }

    /// Move the paper. The step size is 1/240.
    /// The steps 2, 3, 4, 5, 6 are invalid, and may not be used.
    pub fn move_paper(&mut self, step: u8)
        requires
            paper_step_allowed(step),
        ensures
            final(self)@ == old(self)@ + seq![ControlCode::MovePaper.spec_code(), step],
    {
        self.send_control(ControlCode::MovePaper, &[step]);
    }

    /// Split keyboard and printing. Key presses only be sent to the computer, not printed.
    pub fn enable_remote_mode(&mut self) -> (mode: DeviceMode)
        ensures
            final(self)@ == old(self)@ + seq![ControlCode::KeyboardOff.spec_code()],
            mode == DeviceMode::Remote,
    {
        self.send_control(ControlCode::KeyboardOff, &[]);
        DeviceMode::Remote
    }

    /// Connect keyboard and printing. Key presses will directly result in printing.
    pub fn disable_remote_mode(&mut self) -> (mode: DeviceMode)
        ensures
            final(self)@ == old(self)@ + seq![ControlCode::KeyboardOn.spec_code()],
            mode == DeviceMode::Local,
    {
        self.send_control(ControlCode::KeyboardOn, &[]);
        DeviceMode::Local
    }
}

} // verus!
