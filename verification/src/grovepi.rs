//! The GrovePi analog/digital board: its command codes, request frames and
//! replies.

use vstd::prelude::*;

verus! {

/// Commands the GrovePi firmware understands.
#[derive(Debug, Clone, Copy, PartialEq, Eq, Structural)]
pub enum GrovePiCommand {
    DigitalRead,
    DigitalWrite,
    AnalogRead,
    AnalogWrite,
    PinMode,
}

/// The wire code of each command.
pub open spec fn command_code(c: GrovePiCommand) -> u8 {
    match c {
        GrovePiCommand::DigitalRead => 1,
        GrovePiCommand::DigitalWrite => 2,
        GrovePiCommand::AnalogRead => 3,
        GrovePiCommand::AnalogWrite => 4,
        GrovePiCommand::PinMode => 5,
    }
}

impl GrovePiCommand {
    /// The command's wire code.
    pub fn code(&self) -> (r: u8)
        ensures
            r == command_code(*self),
    {
        match self {
            GrovePiCommand::DigitalRead => 1,
            GrovePiCommand::DigitalWrite => 2,
            GrovePiCommand::AnalogRead => 3,
            GrovePiCommand::AnalogWrite => 4,
            GrovePiCommand::PinMode => 5,
        }
    }
}

/// Direction of a GrovePi pin.
#[derive(Debug, Clone, Copy, PartialEq, Eq, Structural)]
pub enum GrovePiPinMode {
    Input,
    Output,
}

impl GrovePiPinMode {
    /// The mode's wire code: 0 for input, 1 for output.
    pub fn code(&self) -> (r: u8)
        ensures
            r == (match *self { GrovePiPinMode::Input => 0u8, GrovePiPinMode::Output => 1u8 }),
    {
        match self {
            GrovePiPinMode::Input => 0,
            GrovePiPinMode::Output => 1,
        }
    }
}

/// The four-byte frame of a command on a pin.
pub fn command_frame(command: GrovePiCommand, pin: u8, arg: u8) -> (r: [u8; 4])
    ensures
        r@ == seq![command_code(command), pin, arg, 0u8],
{
    let r = [command.code(), pin, arg, 0];
    assert(r@ =~= seq![command_code(command), pin, arg, 0u8]);
    r
}

/// The frame that sets a pin's direction.
pub fn pin_mode_frame(pin: u8, mode: GrovePiPinMode) -> (r: [u8; 4])
    ensures
        r@ == seq![5u8, pin, (match mode { GrovePiPinMode::Input => 0u8, GrovePiPinMode::Output => 1u8 }), 0u8],
{
    command_frame(GrovePiCommand::PinMode, pin, mode.code())
}

/// The frame that asks for an analog reading.
pub fn analog_read_frame(pin: u8) -> (r: [u8; 4])
    ensures
        r@ == seq![3u8, pin, 0u8, 0u8],
{
    command_frame(GrovePiCommand::AnalogRead, pin, 0)
}

/// The frame that asks for a digital reading.
pub fn digital_read_frame(pin: u8) -> (r: [u8; 4])
    ensures
        r@ == seq![1u8, pin, 0u8, 0u8],
{
    command_frame(GrovePiCommand::DigitalRead, pin, 0)
}

/// The value of a three-byte analog reply: bytes 1 and 2, big-endian.
pub fn decode_analog(reply: &[u8; 3]) -> (r: u16)
    ensures
        r == reply@[1] as int * 256 + reply@[2] as int,
{
    let hi = reply[1] as u16;
    let lo = reply[2] as u16;
    let r = (hi << 8) | lo;
    assert(r == hi * 256 + lo) by (bit_vector)
        requires
            hi < 256,
            lo < 256,
            r == (hi << 8) | lo;
    r
}

/// The level of a one-byte digital reply: high unless 0 or 255 (no answer).
pub fn decode_digital(reply: u8) -> (r: bool)
    ensures
        r == (reply > 0 && reply != 255),
{
    reply > 0 && reply != 255
}

} // verus!
