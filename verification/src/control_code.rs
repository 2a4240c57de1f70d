//! The control characters that a session can send.

use vstd::prelude::*;
use vstd::std_specs::convert::FromSpecImpl;

verus! {

/// A control character of the terminal, by name.
#[derive(Debug, Clone, Copy, PartialEq, Eq, Structural)]
pub enum ControlCode {
    /// NUL.
    Null,
    /// SOH, Ctrl-A.
    StartOfHeading,
    /// ETX, Ctrl-C: interrupts the program in the foreground.
    EndOfText,
    /// EOT, Ctrl-D: ends the input.
    EndOfTransmission,
    /// BEL, Ctrl-G.
    Bell,
    /// BS, Ctrl-H.
    Backspace,
    /// HT, Ctrl-I.
    HorizontalTab,
    /// LF, Ctrl-J.
    LineFeed,
    /// CR, Ctrl-M.
    CarriageReturn,
    /// SUB, Ctrl-Z: suspends the program in the foreground.
    Substitute,
    /// ESC.
    Escape,
    /// GS, Ctrl-].
    GroupSeparator,
}

/// The byte that stands for a control character.
pub open spec fn code_byte(code: ControlCode) -> u8 {
    match code {
        ControlCode::Null => 0x00,
        ControlCode::StartOfHeading => 0x01,
        ControlCode::EndOfText => 0x03,
        ControlCode::EndOfTransmission => 0x04,
        ControlCode::Bell => 0x07,
        ControlCode::Backspace => 0x08,
        ControlCode::HorizontalTab => 0x09,
        ControlCode::LineFeed => 0x0A,
        ControlCode::CarriageReturn => 0x0D,
        ControlCode::Substitute => 0x1A,
        ControlCode::Escape => 0x1B,
        ControlCode::GroupSeparator => 0x1D,
    }
}

impl ControlCode {
    /// The byte that stands for the control character.
    pub fn byte(self) -> (b: u8)
        ensures
            b == code_byte(self),
    {
        match self {
            ControlCode::Null => 0x00,
            ControlCode::StartOfHeading => 0x01,
            ControlCode::EndOfText => 0x03,
            ControlCode::EndOfTransmission => 0x04,
            ControlCode::Bell => 0x07,
            ControlCode::Backspace => 0x08,
            ControlCode::HorizontalTab => 0x09,
            ControlCode::LineFeed => 0x0A,
            ControlCode::CarriageReturn => 0x0D,
            ControlCode::Substitute => 0x1A,
            ControlCode::Escape => 0x1B,
            ControlCode::GroupSeparator => 0x1D,
        }
    }
}

impl From<ControlCode> for u8 {
    fn from(code: ControlCode) -> (b: u8) {
        code.byte()
    }
}

impl FromSpecImpl<ControlCode> for u8 {
    open spec fn obeys_from_spec() -> bool {
        true
    }

    open spec fn from_spec(code: ControlCode) -> u8 {
        code_byte(code)
    }
}

/// Control characters with different names are different bytes, and each is
/// below the space character.
pub proof fn lemma_code_bytes_differ(a: ControlCode, b: ControlCode)
    ensures
        code_byte(a) == code_byte(b) ==> a == b,
        code_byte(a) < 0x20,
{
}

} // verus!
