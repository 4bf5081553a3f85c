//! The Grove RGB LCD's controller protocol: command and data registers, the
//! power-up sequence, and cursor addressing.

use vstd::prelude::*;

verus! {

/// Bus address of the LCD (0x7c >> 1).
pub const LCD_ADDR: u16 = 0x3E;
/// Register receiving commands.
pub const LCD_REG_COMMAND: u8 = 0x80;
/// Register receiving characters.
pub const LCD_REG_DATA: u8 = 0x40;

pub const LCD_CLEARDISPLAY: u8 = 0x01;
pub const LCD_ENTRYMODESET: u8 = 0x04;
pub const LCD_DISPLAYCONTROL: u8 = 0x08;
pub const LCD_FUNCTIONSET: u8 = 0x20;

pub const LCD_DISPLAYON: u8 = 0x04;
pub const LCD_CURSOROFF: u8 = 0x00;
pub const LCD_BLINKOFF: u8 = 0x00;
pub const LCD_ENTRYLEFT: u8 = 0x02;
pub const LCD_ENTRYSHIFTDECREMENT: u8 = 0x00;
pub const LCD_2LINE: u8 = 0x08;
pub const LCD_5X8DOTS: u8 = 0x00;

/// One step of the power-up sequence.
#[derive(Debug, Clone, Copy, PartialEq, Eq, Structural)]
pub enum InitStep {
    /// Send this command.
    Command(u8),
    /// Wait this many microseconds.
    WaitMicros(u64),
}

/// The power-up sequence: wait, function set four times (two lines, 5x8
/// dots) with the required pauses, display on without cursor or blinking,
/// clear (and its 2 ms), and left-to-right entry mode.
pub open spec fn init_sequence() -> Seq<InitStep> {
    let function_set = (LCD_FUNCTIONSET | (LCD_2LINE | LCD_5X8DOTS)) as u8;
    seq![
        InitStep::WaitMicros(50000),
        InitStep::Command(function_set),
        InitStep::WaitMicros(4500),
        InitStep::Command(function_set),
        InitStep::WaitMicros(150),
        InitStep::Command(function_set),
        InitStep::Command(function_set),
        InitStep::Command((LCD_DISPLAYCONTROL | (LCD_DISPLAYON | LCD_CURSOROFF | LCD_BLINKOFF)) as u8),
        InitStep::Command(LCD_CLEARDISPLAY),
        InitStep::WaitMicros(2000),
        InitStep::Command((LCD_ENTRYMODESET | (LCD_ENTRYLEFT | LCD_ENTRYSHIFTDECREMENT)) as u8),
    ]
}

/// The power-up sequence of the display.
pub fn init_steps() -> (r: Vec<InitStep>)
    ensures
        r@ == init_sequence(),
{
    let function_set = LCD_FUNCTIONSET | (LCD_2LINE | LCD_5X8DOTS);
    let mut r: Vec<InitStep> = Vec::new();
    r.push(InitStep::WaitMicros(50000));
    r.push(InitStep::Command(function_set));
    r.push(InitStep::WaitMicros(4500));
    r.push(InitStep::Command(function_set));
    r.push(InitStep::WaitMicros(150));
    r.push(InitStep::Command(function_set));
    r.push(InitStep::Command(function_set));
    r.push(InitStep::Command(LCD_DISPLAYCONTROL | (LCD_DISPLAYON | LCD_CURSOROFF | LCD_BLINKOFF)));
    r.push(InitStep::Command(LCD_CLEARDISPLAY));
    r.push(InitStep::WaitMicros(2000));
    r.push(InitStep::Command(LCD_ENTRYMODESET | (LCD_ENTRYLEFT | LCD_ENTRYSHIFTDECREMENT)));
    assert(r@ =~= init_sequence());
    r
}

/// The command that moves the cursor to column `col` of row 0 (base 0x80)
/// or of any other row (base 0xC0), wrapping modulo 256.
pub fn cursor_command(col: u8, row: u8) -> (r: u8)
    ensures
        r == (if row == 0 { (0x80 + col) % 256 } else { (0xC0 + col) % 256 }),
{
    if row == 0 {
        0x80u8.wrapping_add(col)
    } else {
        0xC0u8.wrapping_add(col)
    }
}

} // verus!
