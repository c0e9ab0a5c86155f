//! The control codes of the typewriter: single bytes, outside the range that
//! the text codec uses, each of which names one operation of the device.

use vstd::prelude::*;

verus! {

/// Baud rates supported by the typewriter
#[derive(Debug, Clone, Copy, PartialEq, Eq, Structural)]
pub enum BoudRate {
    Rate1200,
    Rate2400,
    Rate4800,
    Rate9600,
    Rate19200,
}

impl BoudRate {
    /// The byte by which the typewriter knows this rate.
    pub open spec fn spec_code(self) -> u8 {
        match self {
            BoudRate::Rate1200 => 10,
            BoudRate::Rate2400 => 8,
            BoudRate::Rate4800 => 4,
            BoudRate::Rate9600 => 2,
            BoudRate::Rate19200 => 1,
        }
    }

    /// The byte by which the typewriter knows this rate.
    #[verifier::when_used_as_spec(spec_code)]
    pub fn code(self) -> (byte: u8)
        ensures
            byte == self.spec_code(),
    {
        match self {
            BoudRate::Rate1200 => 10,
            BoudRate::Rate2400 => 8,
            BoudRate::Rate4800 => 4,
            BoudRate::Rate9600 => 2,
            BoudRate::Rate19200 => 1,
        }
    }
}

/// Possible control codes to send
#[derive(Debug, Clone, Copy, PartialEq, Eq, Structural)]
pub enum ControlCode {
    // numbers before here are covered by the text codec
    HalfstepRight,
    HalfstepLeft,
    HalfstepDown,
    HalfstepUp,
    TabSet,
    TabDel,
    TabAllDel,
    TabStandard,
    MarginSet,
    MarginDel,
    MarginAllDel,
    MarginUnset,
    RowSizeDown,
    RowSizeUp,
    GetPaper,
    Row1,
    Row1Point5,
    Row2,
    Chars10PerInch,
    Chars12PerInch,
    Chars15PerInch,
    DeleteOff,
    DeleteOn,
    BackwardsOn,
    BackwardsOff,
    RightMarginOn,
    MarginSetOffInofficial,
    KeyboardOff,
    KeyboardOn,
    Reset,
    PrinterReady,
    SecondCharsetOff,
    SecondCharsetOn,
    AutorepeatOn,
    AutorepeatOff,
    AutorepeatOffAndPilgrimNormal,
    Pilgrim,
    LineDown,
    AutorepeatAllOn,
    BoudRate,
    KeyStrength,
    TabStep,
    MovePaper,
    RotateWheel,
    MoveTape,
    DoublePrint,
    Bell,
    KeyboardInput,
    KeyboardInput2,
    DeleteRelocate,
    DeleteLastChar,
    Relocate,
}

impl ControlCode {
    /// The byte that stands for this operation on the wire.
    pub open spec fn spec_code(self) -> u8 {
        match self {
            ControlCode::HalfstepRight => 0x73,
            ControlCode::HalfstepLeft => 0x74,
            ControlCode::HalfstepDown => 0x75,
            ControlCode::HalfstepUp => 0x76,
            ControlCode::TabSet => 0x7A,
            ControlCode::TabDel => 0x7B,
            ControlCode::TabAllDel => 0x7C,
            ControlCode::TabStandard => 0x7D,
            ControlCode::MarginSet => 0x7E,
            ControlCode::MarginDel => 0x7F,
            ControlCode::MarginAllDel => 0x80,
            ControlCode::MarginUnset => 0x81,
            ControlCode::RowSizeDown => 0x82,
            ControlCode::RowSizeUp => 0x83,
            ControlCode::GetPaper => 0x84,
            ControlCode::Row1 => 0x85,
            ControlCode::Row1Point5 => 0x86,
            ControlCode::Row2 => 0x87,
            ControlCode::Chars10PerInch => 0x88,
            ControlCode::Chars12PerInch => 0x89,
            ControlCode::Chars15PerInch => 0x8A,
            ControlCode::DeleteOff => 0x8B,
            ControlCode::DeleteOn => 0x8C,
            ControlCode::BackwardsOn => 0x8D,
            ControlCode::BackwardsOff => 0x8E,
            ControlCode::RightMarginOn => 0x8F,
            ControlCode::MarginSetOffInofficial => 0x90,
            ControlCode::KeyboardOff => 0x91,
            ControlCode::KeyboardOn => 0x92,
            ControlCode::Reset => 0x93,
            ControlCode::PrinterReady => 0x94,
            ControlCode::SecondCharsetOff => 0x95,
            ControlCode::SecondCharsetOn => 0x96,
            ControlCode::AutorepeatOn => 0x9B,
            ControlCode::AutorepeatOff => 0x9C,
            ControlCode::AutorepeatOffAndPilgrimNormal => 0x9D,
            ControlCode::Pilgrim => 0x9E,
            ControlCode::LineDown => 0x9F,
            ControlCode::AutorepeatAllOn => 0xA0,
            ControlCode::BoudRate => 0xA1,
            ControlCode::KeyStrength => 0xA3,
            ControlCode::TabStep => 0xA5,
            ControlCode::MovePaper => 0xA6,
            ControlCode::RotateWheel => 0xA7,
            ControlCode::MoveTape => 0xA8,
            ControlCode::DoublePrint => 0xA9,
            ControlCode::Bell => 0xAA,
            ControlCode::KeyboardInput => 0xAB,
            ControlCode::KeyboardInput2 => 0xAC,
            ControlCode::DeleteRelocate => 0xAD,
            ControlCode::DeleteLastChar => 0xAE,
            ControlCode::Relocate => 0xAF,
        }
    }

    /// The operation that a byte stands for, if it stands for one.
    pub open spec fn spec_lookup(byte: u8) -> Option<ControlCode> {
        match byte {
            0x73 => Some(ControlCode::HalfstepRight),
            0x74 => Some(ControlCode::HalfstepLeft),
            0x75 => Some(ControlCode::HalfstepDown),
            0x76 => Some(ControlCode::HalfstepUp),
            0x7A => Some(ControlCode::TabSet),
            0x7B => Some(ControlCode::TabDel),
            0x7C => Some(ControlCode::TabAllDel),
            0x7D => Some(ControlCode::TabStandard),
            0x7E => Some(ControlCode::MarginSet),
            0x7F => Some(ControlCode::MarginDel),
            0x80 => Some(ControlCode::MarginAllDel),
            0x81 => Some(ControlCode::MarginUnset),
            0x82 => Some(ControlCode::RowSizeDown),
            0x83 => Some(ControlCode::RowSizeUp),
            0x84 => Some(ControlCode::GetPaper),
            0x85 => Some(ControlCode::Row1),
            0x86 => Some(ControlCode::Row1Point5),
            0x87 => Some(ControlCode::Row2),
            0x88 => Some(ControlCode::Chars10PerInch),
            0x89 => Some(ControlCode::Chars12PerInch),
            0x8A => Some(ControlCode::Chars15PerInch),
            0x8B => Some(ControlCode::DeleteOff),
            0x8C => Some(ControlCode::DeleteOn),
            0x8D => Some(ControlCode::BackwardsOn),
            0x8E => Some(ControlCode::BackwardsOff),
            0x8F => Some(ControlCode::RightMarginOn),
            0x90 => Some(ControlCode::MarginSetOffInofficial),
            0x91 => Some(ControlCode::KeyboardOff),
            0x92 => Some(ControlCode::KeyboardOn),
            0x93 => Some(ControlCode::Reset),
            0x94 => Some(ControlCode::PrinterReady),
            0x95 => Some(ControlCode::SecondCharsetOff),
            0x96 => Some(ControlCode::SecondCharsetOn),
            0x9B => Some(ControlCode::AutorepeatOn),
            0x9C => Some(ControlCode::AutorepeatOff),
            0x9D => Some(ControlCode::AutorepeatOffAndPilgrimNormal),
            0x9E => Some(ControlCode::Pilgrim),
            0x9F => Some(ControlCode::LineDown),
            0xA0 => Some(ControlCode::AutorepeatAllOn),
            0xA1 => Some(ControlCode::BoudRate),
            0xA3 => Some(ControlCode::KeyStrength),
            0xA5 => Some(ControlCode::TabStep),
            0xA6 => Some(ControlCode::MovePaper),
            0xA7 => Some(ControlCode::RotateWheel),
            0xA8 => Some(ControlCode::MoveTape),
            0xA9 => Some(ControlCode::DoublePrint),
            0xAA => Some(ControlCode::Bell),
            0xAB => Some(ControlCode::KeyboardInput),
            0xAC => Some(ControlCode::KeyboardInput2),
            0xAD => Some(ControlCode::DeleteRelocate),
            0xAE => Some(ControlCode::DeleteLastChar),
            0xAF => Some(ControlCode::Relocate),
            _ => None,
        }
    }

    /// The byte that stands for this operation on the wire.
    #[verifier::when_used_as_spec(spec_code)]
    pub fn code(self) -> (byte: u8)
        ensures
            byte == self.spec_code(),
    {
        match self {
            ControlCode::HalfstepRight => 0x73,
            ControlCode::HalfstepLeft => 0x74,
            ControlCode::HalfstepDown => 0x75,
            ControlCode::HalfstepUp => 0x76,
            ControlCode::TabSet => 0x7A,
            ControlCode::TabDel => 0x7B,
            ControlCode::TabAllDel => 0x7C,
            ControlCode::TabStandard => 0x7D,
            ControlCode::MarginSet => 0x7E,
            ControlCode::MarginDel => 0x7F,
            ControlCode::MarginAllDel => 0x80,
            ControlCode::MarginUnset => 0x81,
            ControlCode::RowSizeDown => 0x82,
            ControlCode::RowSizeUp => 0x83,
            ControlCode::GetPaper => 0x84,
            ControlCode::Row1 => 0x85,
            ControlCode::Row1Point5 => 0x86,
            ControlCode::Row2 => 0x87,
            ControlCode::Chars10PerInch => 0x88,
            ControlCode::Chars12PerInch => 0x89,
            ControlCode::Chars15PerInch => 0x8A,
            ControlCode::DeleteOff => 0x8B,
            ControlCode::DeleteOn => 0x8C,
            ControlCode::BackwardsOn => 0x8D,
            ControlCode::BackwardsOff => 0x8E,
            ControlCode::RightMarginOn => 0x8F,
            ControlCode::MarginSetOffInofficial => 0x90,
            ControlCode::KeyboardOff => 0x91,
            ControlCode::KeyboardOn => 0x92,
            ControlCode::Reset => 0x93,
            ControlCode::PrinterReady => 0x94,
            ControlCode::SecondCharsetOff => 0x95,
            ControlCode::SecondCharsetOn => 0x96,
            ControlCode::AutorepeatOn => 0x9B,
            ControlCode::AutorepeatOff => 0x9C,
            ControlCode::AutorepeatOffAndPilgrimNormal => 0x9D,
            ControlCode::Pilgrim => 0x9E,
            ControlCode::LineDown => 0x9F,
            ControlCode::AutorepeatAllOn => 0xA0,
            ControlCode::BoudRate => 0xA1,
            ControlCode::KeyStrength => 0xA3,
            ControlCode::TabStep => 0xA5,
            ControlCode::MovePaper => 0xA6,
            ControlCode::RotateWheel => 0xA7,
            ControlCode::MoveTape => 0xA8,
            ControlCode::DoublePrint => 0xA9,
            ControlCode::Bell => 0xAA,
            ControlCode::KeyboardInput => 0xAB,
            ControlCode::KeyboardInput2 => 0xAC,
            ControlCode::DeleteRelocate => 0xAD,
            ControlCode::DeleteLastChar => 0xAE,
            ControlCode::Relocate => 0xAF,
        }
    }

    /// The operation that a byte stands for, if it stands for one. The answer
    /// depends on the byte alone.
    #[verifier::when_used_as_spec(spec_lookup)]
    pub fn lookup(byte: u8) -> (code: Option<ControlCode>)
        ensures
            code == ControlCode::spec_lookup(byte),
    {
        match byte {
            0x73 => Some(ControlCode::HalfstepRight),
            0x74 => Some(ControlCode::HalfstepLeft),
            0x75 => Some(ControlCode::HalfstepDown),
            0x76 => Some(ControlCode::HalfstepUp),
            0x7A => Some(ControlCode::TabSet),
            0x7B => Some(ControlCode::TabDel),
            0x7C => Some(ControlCode::TabAllDel),
            0x7D => Some(ControlCode::TabStandard),
            0x7E => Some(ControlCode::MarginSet),
            0x7F => Some(ControlCode::MarginDel),
            0x80 => Some(ControlCode::MarginAllDel),
            0x81 => Some(ControlCode::MarginUnset),
            0x82 => Some(ControlCode::RowSizeDown),
            0x83 => Some(ControlCode::RowSizeUp),
            0x84 => Some(ControlCode::GetPaper),
            0x85 => Some(ControlCode::Row1),
            0x86 => Some(ControlCode::Row1Point5),
            0x87 => Some(ControlCode::Row2),
            0x88 => Some(ControlCode::Chars10PerInch),
            0x89 => Some(ControlCode::Chars12PerInch),
            0x8A => Some(ControlCode::Chars15PerInch),
            0x8B => Some(ControlCode::DeleteOff),
            0x8C => Some(ControlCode::DeleteOn),
            0x8D => Some(ControlCode::BackwardsOn),
            0x8E => Some(ControlCode::BackwardsOff),
            0x8F => Some(ControlCode::RightMarginOn),
            0x90 => Some(ControlCode::MarginSetOffInofficial),
            0x91 => Some(ControlCode::KeyboardOff),
            0x92 => Some(ControlCode::KeyboardOn),
            0x93 => Some(ControlCode::Reset),
            0x94 => Some(ControlCode::PrinterReady),
            0x95 => Some(ControlCode::SecondCharsetOff),
            0x96 => Some(ControlCode::SecondCharsetOn),
            0x9B => Some(ControlCode::AutorepeatOn),
            0x9C => Some(ControlCode::AutorepeatOff),
            0x9D => Some(ControlCode::AutorepeatOffAndPilgrimNormal),
            0x9E => Some(ControlCode::Pilgrim),
            0x9F => Some(ControlCode::LineDown),
            0xA0 => Some(ControlCode::AutorepeatAllOn),
            0xA1 => Some(ControlCode::BoudRate),
            0xA3 => Some(ControlCode::KeyStrength),
            0xA5 => Some(ControlCode::TabStep),
            0xA6 => Some(ControlCode::MovePaper),
            0xA7 => Some(ControlCode::RotateWheel),
            0xA8 => Some(ControlCode::MoveTape),
            0xA9 => Some(ControlCode::DoublePrint),
            0xAA => Some(ControlCode::Bell),
            0xAB => Some(ControlCode::KeyboardInput),
            0xAC => Some(ControlCode::KeyboardInput2),
            0xAD => Some(ControlCode::DeleteRelocate),
            0xAE => Some(ControlCode::DeleteLastChar),
            0xAF => Some(ControlCode::Relocate),
            _ => None,
        }
    }
}

} // verus!
