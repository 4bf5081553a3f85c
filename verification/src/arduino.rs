//! The register protocol spoken with the Arduino over I2C.
//!
//! A write sends `[register, value]`. A read of `count` registers sends
//! `[register | READ_FLAG, count]` and receives `count` values followed by a
//! checksum byte: the sum of the values modulo 256.

use vstd::prelude::*;
use crate::arduino_consts::{Events, Register, register_address, known_event_bits, SecurityState, state_code};
use crate::text::{to_hex_upper, hex_upper, str_equal};

verus! {

/// Marks a register address as a read request.
pub const READ_FLAG: u8 = 0x80;

/// Number of UID bytes the RFID registers hold.
pub const RFID_UID_LEN: u8 = 6;

/// The sum of a sequence of bytes.
pub open spec fn byte_sum(s: Seq<u8>) -> int
    decreases s.len(),
{
    if s.len() == 0 {
        0
    } else {
        byte_sum(s.drop_last()) + s.last()
    }
}

/// A response of `count` values and a checksum is intact: the last byte is
/// the sum of the others modulo 256.
pub open spec fn checksum_ok(buf: Seq<u8>, count: int) -> bool {
    byte_sum(buf.take(count)) % 256 == buf[count] as int
}

/// The frame that writes `value` into register `reg`.
pub fn write_request(reg: Register, value: u8) -> (r: [u8; 2])
    ensures
        r@ == seq![register_address(reg), value],
{
    let r = [reg.address(), value];
    assert(r@ =~= seq![register_address(reg), value]);
    r
}

/// The frame that asks for `count` registers starting at `reg`.
pub fn read_request(reg: Register, count: u8) -> (r: [u8; 2])
    ensures
        r@ == seq![register_address(reg) | READ_FLAG, count],
{
    let r = [reg.address() | READ_FLAG, count];
    assert(r@ =~= seq![register_address(reg) | READ_FLAG, count]);
    r
}

/// The frame that writes a security state into the status register.
pub fn state_write_request(state: SecurityState) -> (r: [u8; 2])
    ensures
        r@ == seq![register_address(Register::Status), state_code(state)],
{
    write_request(Register::Status, state.code())
}

/// The length of the response to a read of `count` registers: the values
/// and one checksum byte.
pub fn response_len(count: u8) -> (n: usize)
    ensures
        n == count + 1,
{
    count as usize + 1
}

/// The sum of the bytes modulo 256.
pub fn checksum(values: &[u8]) -> (c: u8)
    ensures
        c == byte_sum(values@) % 256,
{
    let mut c: u8 = 0;
    let mut i: usize = 0;
    while i < values.len()
        invariant
            i <= values@.len(),
            c == byte_sum(values@.take(i as int)) % 256,
        decreases values@.len() - i,
    {
        proof {
            assert(values@.take(i + 1).drop_last() =~= values@.take(i as int));
        }
        c = ((c as u16 + values[i] as u16) % 256) as u8;
        i = i + 1;
    }
    proof {
        assert(values@.take(i as int) =~= values@);
    }
    c
}

/// The values of a read response, when its checksum is right.
pub fn check_response(buf: &[u8], count: u8) -> (r: Option<Vec<u8>>)
    requires
        buf@.len() == count + 1,
    ensures
        r is Some <==> checksum_ok(buf@, count as int),
        r matches Some(v) ==> v@ == buf@.take(count as int),
{
    let mut values: Vec<u8> = Vec::new();
    let mut i: usize = 0;
    while i < count as usize
        invariant
            buf@.len() == count + 1,
            i <= count,
            values@ == buf@.take(i as int),
        decreases count - i,
    {
        values.push(buf[i]);
        i = i + 1;
        proof {
            assert(values@ =~= buf@.take(i as int));
        }
    }
    let computed = checksum(values.as_slice());
    if computed != buf[count as usize] {
        None
    } else {
        Some(values)
    }
}

/// The pending events of an event-register read: the known flags of the
/// value, or no event when the read failed.
pub fn events_from_read(read: Option<u8>) -> (e: Events)
    ensures
        read matches Some(b) ==> e.spec_bits() == b & known_event_bits(),
        read is None ==> e.spec_bits() == 0,
{
    match read {
        Some(b) => Events::from_bits_truncate(b),
        None => Events::empty(),
    }
}

/// The UID of the RFID registers, in upper-case hexadecimal; none when every
/// byte reads as zero (no card).
pub fn rfid_uid_from_values(values: &[u8]) -> (r: Option<String>)
    ensures
        r is None <==> hex_upper(values@) == "000000000000"@,
        r matches Some(s) ==> s@ == hex_upper(values@),
{
    let hex = to_hex_upper(values);
    if str_equal(hex.as_str(), "000000000000") {
        None
    } else {
        Some(hex)
    }
}

/// The security state of a status-register value, if it names one.
pub fn state_from_status(value: u8) -> (r: Option<SecurityState>)
    ensures
        r matches Some(s) ==> state_code(s) == value,
        r is None <==> value > 2,
{
    SecurityState::from_code(value)
}

} // verus!
