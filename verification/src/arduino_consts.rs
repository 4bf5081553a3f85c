//! Register map and event flags shared with the Arduino acquisition unit.

use vstd::prelude::*;

verus! {

/// Register holding the security state.
pub const REG_STATUS: u8 = 0x00;
/// Register holding the pending event flags.
pub const REG_EVENTS: u8 = 0x01;
/// First register of the six RFID UID bytes.
pub const REG_RFID: u8 = 0x02;

/// Event flag: the arming button was pressed.
pub const EVENT_BTN_PRESSED: u8 = 0x01;
/// Event flag: the ultrasonic sensor detected motion.
pub const EVENT_MOTION_DETECTED: u8 = 0x02;
/// Event flag: an RFID badge was read.
pub const EVENT_RFID_READ: u8 = 0x04;

/// Security state of the alarm, as stored in the status register.
#[derive(Debug, PartialEq, Eq, Structural, Clone, Copy)]
pub enum SecurityState {
    /// Standby: intrusions are ignored.
    Disarmed,
    /// Surveillance: motion triggers the alarm.
    Armed,
    /// The alarm is ringing.
    Triggered,
}

/// The status-register value of each state.
pub open spec fn state_code(s: SecurityState) -> u8 {
    match s {
        SecurityState::Disarmed => 0,
        SecurityState::Armed => 1,
        SecurityState::Triggered => 2,
    }
}

impl SecurityState {
    /// The value written to the status register for this state.
    pub fn code(&self) -> (c: u8)
        ensures
            c == state_code(*self),
    {
        match self {
            SecurityState::Disarmed => 0,
            SecurityState::Armed => 1,
            SecurityState::Triggered => 2,
        }
    }

    /// Decodes a status-register value; values other than 0, 1, 2 name no state.
    pub fn from_code(c: u8) -> (r: Option<SecurityState>)
        ensures
            r matches Some(s) ==> state_code(s) == c,
            r is None <==> c > 2,
    {
        if c == 0 {
            Some(SecurityState::Disarmed)
        } else if c == 1 {
            Some(SecurityState::Armed)
        } else if c == 2 {
            Some(SecurityState::Triggered)
        } else {
            None
        }
    }
}

/// The registers of the Arduino's register map.
#[derive(Debug, PartialEq, Eq, Structural, Clone, Copy)]
pub enum Register {
    /// The security state (`REG_STATUS`).
    Status,
    /// The pending events (`REG_EVENTS`).
    Events,
    /// The RFID UID bytes (`REG_RFID`).
    Rfid,
}

/// The address of each register.
pub open spec fn register_address(r: Register) -> u8 {
    match r {
        Register::Status => REG_STATUS,
        Register::Events => REG_EVENTS,
        Register::Rfid => REG_RFID,
    }
}

impl Register {
    /// The register's address on the bus.
    pub fn address(&self) -> (a: u8)
        ensures
            a == register_address(*self),
    {
        match self {
            Register::Status => REG_STATUS,
            Register::Events => REG_EVENTS,
            Register::Rfid => REG_RFID,
        }
    }
}

/// The event flags that the Arduino knows.
pub open spec fn known_event_bits() -> u8 {
    EVENT_BTN_PRESSED | EVENT_MOTION_DETECTED | EVENT_RFID_READ
}

/// A set of pending event flags.
#[derive(Debug, PartialEq, Eq, Structural, Clone, Copy)]
pub struct Events {
    pub bits: u8,
}

impl Events {
    /// The flag bits of this set.
    pub open spec fn spec_bits(&self) -> u8 {
        self.bits
    }

    /// The flag bits of this set.
    pub fn bits(&self) -> (b: u8)
        ensures
            b == self.spec_bits(),
    {
        self.bits
    }

    /// No event.
    pub fn empty() -> (e: Events)
        ensures
            e.spec_bits() == 0,
            !has_flag(e, EVENT_BTN_PRESSED),
            !has_flag(e, EVENT_MOTION_DETECTED),
            !has_flag(e, EVENT_RFID_READ),
    {
        let e = Events { bits: 0 };
        proof { lemma_single_flags(); }
        e
    }

    /// The button-press event alone.
    pub fn btn_pressed() -> (e: Events)
        ensures
            e.spec_bits() == EVENT_BTN_PRESSED,
            has_flag(e, EVENT_BTN_PRESSED),
            !has_flag(e, EVENT_MOTION_DETECTED),
            !has_flag(e, EVENT_RFID_READ),
    {
        let e = Events { bits: EVENT_BTN_PRESSED };
        proof { lemma_single_flags(); }
        e
    }

    /// The motion event alone.
    pub fn motion_detected() -> (e: Events)
        ensures
            e.spec_bits() == EVENT_MOTION_DETECTED,
            has_flag(e, EVENT_MOTION_DETECTED),
            !has_flag(e, EVENT_BTN_PRESSED),
            !has_flag(e, EVENT_RFID_READ),
    {
        let e = Events { bits: EVENT_MOTION_DETECTED };
        proof { lemma_single_flags(); }
        e
    }

    /// The RFID-read event alone.
    pub fn rfid_read() -> (e: Events)
        ensures
            e.spec_bits() == EVENT_RFID_READ,
            has_flag(e, EVENT_RFID_READ),
            !has_flag(e, EVENT_BTN_PRESSED),
            !has_flag(e, EVENT_MOTION_DETECTED),
    {
        let e = Events { bits: EVENT_RFID_READ };
        proof { lemma_single_flags(); }
        e
    }

    /// The known flags of a register value; unknown bits are dropped.
    pub fn from_bits_truncate(b: u8) -> (e: Events)
        ensures
            e.spec_bits() == b & known_event_bits(),
    {
        Events { bits: b & (EVENT_BTN_PRESSED | EVENT_MOTION_DETECTED | EVENT_RFID_READ) }
    }

    /// Whether every flag of `other` is set here.
    pub open spec fn spec_contains(&self, other: Events) -> bool {
        self.bits & other.bits == other.bits
    }

    /// Whether every flag of `other` is set here.
    pub fn contains(&self, other: Events) -> (r: bool)
        ensures
            r == self.spec_contains(other),
    {
        self.bits & other.bits == other.bits
    }

    /// The union of two flag sets.
    pub fn union(&self, other: Events) -> (e: Events)
        ensures
            e.spec_bits() == self.spec_bits() | other.spec_bits(),
    {
        Events { bits: self.bits | other.bits }
    }
}

proof fn lemma_single_flags()
    ensures
        0u8 & 1u8 != 1u8, 0u8 & 2u8 != 2u8, 0u8 & 4u8 != 4u8,
        1u8 & 1u8 == 1u8, 1u8 & 2u8 != 2u8, 1u8 & 4u8 != 4u8,
        2u8 & 1u8 != 1u8, 2u8 & 2u8 == 2u8, 2u8 & 4u8 != 4u8,
        4u8 & 1u8 != 1u8, 4u8 & 2u8 != 2u8, 4u8 & 4u8 == 4u8,
{
    assert(0u8 & 1u8 != 1u8 && 0u8 & 2u8 != 2u8 && 0u8 & 4u8 != 4u8) by (bit_vector);
    assert(1u8 & 1u8 == 1u8 && 1u8 & 2u8 != 2u8 && 1u8 & 4u8 != 4u8) by (bit_vector);
    assert(2u8 & 1u8 != 1u8 && 2u8 & 2u8 == 2u8 && 2u8 & 4u8 != 4u8) by (bit_vector);
    assert(4u8 & 1u8 != 1u8 && 4u8 & 2u8 != 2u8 && 4u8 & 4u8 == 4u8) by (bit_vector);
}

/// Whether a set of flags holds a given single flag.
pub open spec fn has_flag(e: Events, flag: u8) -> bool {
    e.spec_bits() & flag == flag
}

} // verus!
