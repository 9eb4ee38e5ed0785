//! Identification registers (0x000 to 0x009): model, revisions and the
//! manufacturing timestamp.
use vstd::prelude::*;
use crate::codec::{FromByteArray, ReadableRegister, Register, be_u16, u16_from_be};
use crate::types::RegisterError;
use crate::units::{DateTime, civil_datetime, is_valid_datetime};
use vstd::arithmetic::div_mod::{lemma_fundamental_div_mod, lemma_fundamental_div_mod_converse};

verus! {

/// Model identification (0x000).
#[derive(Debug, Clone, Copy, PartialEq, Eq, Structural)]
pub enum ModelId {
    /// The VL6180X (0xB4).
    VL6180X,
    /// Any other model byte.
    Unknown(u8),
}

impl Register for ModelId {
    open spec fn spec_id() -> u16 {
        0x0000
    }

    fn id() -> (r: u16) {
        0x0000
    }
}

impl FromByteArray<1> for ModelId {
    open spec fn spec_from_bytes(bytes: Seq<u8>) -> Result<Self, RegisterError> {
        if bytes[0] == 0xB4 {
            Ok(ModelId::VL6180X)
        } else {
            Ok(ModelId::Unknown(bytes[0]))
        }
    }

    fn from_bytes(bytes: [u8; 1]) -> (r: Result<Self, RegisterError>) {
        Ok(
            match bytes[0] {
                0xB4 => Self::VL6180X,
                value => Self::Unknown(value),
            },
        )
    }
}

impl ReadableRegister<1> for ModelId {

}

/// Model revision (0x001 to 0x002).
#[derive(Debug, Clone, Copy, PartialEq, Eq, Structural)]
pub struct ModelRevision {
    /// Major revision.
    pub major: u8,
    /// Minor revision.
    pub minor: u8,
}

impl Register for ModelRevision {
    open spec fn spec_id() -> u16 {
        0x0001
    }

    fn id() -> (r: u16) {
        0x0001
    }
}

impl FromByteArray<2> for ModelRevision {
    open spec fn spec_from_bytes(bytes: Seq<u8>) -> Result<Self, RegisterError> {
        Ok(ModelRevision { major: bytes[0], minor: bytes[1] })
    }

    fn from_bytes(bytes: [u8; 2]) -> (r: Result<Self, RegisterError>) {
        Ok(Self { major: bytes[0], minor: bytes[1] })
    }
}

impl ReadableRegister<2> for ModelRevision {

}

/// Module revision (0x003 to 0x004).
#[derive(Debug, Clone, Copy, PartialEq, Eq, Structural)]
pub struct ModuleRevision {
    /// Major revision.
    pub major: u8,
    /// Minor revision.
    pub minor: u8,
}

impl Register for ModuleRevision {
    open spec fn spec_id() -> u16 {
        0x0003
    }

    fn id() -> (r: u16) {
        0x0003
    }
}

impl FromByteArray<2> for ModuleRevision {
    open spec fn spec_from_bytes(bytes: Seq<u8>) -> Result<Self, RegisterError> {
        Ok(ModuleRevision { major: bytes[0], minor: bytes[1] })
    }

    fn from_bytes(bytes: [u8; 2]) -> (r: Result<Self, RegisterError>) {
        Ok(Self { major: bytes[0], minor: bytes[1] })
    }
}

impl ReadableRegister<2> for ModuleRevision {

}

/// Date and time of manufacture (0x006 to 0x009).
///
/// Byte 0: year offset from 2010 in the high nibble, month in the low
/// nibble. Byte 1: day of month in the top five bits. Bytes 2 and 3: a
/// big-endian count of 2-second ticks since midnight.
#[derive(Debug, Clone, Copy, PartialEq, Eq, Structural)]
pub struct ModuleTimestamp {
    /// Manufacturing date and time.
    pub timestamp: DateTime,
}

impl Register for ModuleTimestamp {
    open spec fn spec_id() -> u16 {
        0x0006
    }

    fn id() -> (r: u16) {
        0x0006
    }
}

impl FromByteArray<4> for ModuleTimestamp {
    /// Fails with `InvalidTimestamp` where the fields name no date or time of
    /// day (month 0 or above 12, day 0 or past the month's end, hour 24 and
    /// up).
    open spec fn spec_from_bytes(bytes: Seq<u8>) -> Result<Self, RegisterError> {
        let year = 2010 + bytes[0] / 16;
        let month: int = (bytes[0] % 16) as int;
        let day: int = (bytes[1] / 8) as int;
        let seconds = be_u16(bytes[2], bytes[3]) * 2;
        let hour = seconds / 3600;
        let minute = seconds % 3600 / 60;
        let second = seconds % 60;
        if is_valid_datetime(year, month, day, hour, minute, second) {
            Ok(
                ModuleTimestamp {
                    timestamp: DateTime {
                        year: year as i16,
                        month: month as i8,
                        day: day as i8,
                        hour: hour as i8,
                        minute: minute as i8,
                        second: second as i8,
                    },
                },
            )
        } else {
            Err(RegisterError::InvalidTimestamp)
        }
    }

    fn from_bytes(bytes: [u8; 4]) -> (r: Result<Self, RegisterError>) {
        let date_hi = bytes[0];
        let date_lo = bytes[1];
        let ticks = u16_from_be(bytes[2], bytes[3]);

        let year = 2010 + (date_hi / 16) as i16;
        let month = (date_hi % 16) as i8;
        let day = (date_lo / 8) as i8;

        let seconds_since_midnight = (ticks as u32) * 2;
        assert(seconds_since_midnight / 3600 <= 36);
        let hour = (seconds_since_midnight / 3600) as i8;
        let minute = ((seconds_since_midnight % 3600) / 60) as i8;
        let second = (seconds_since_midnight % 60) as i8;

        match civil_datetime(year, month, day, hour, minute, second) {
            Ok(timestamp) => Ok(Self { timestamp }),
            Err(e) => Err(RegisterError::from(e)),
        }
    }
}

impl ReadableRegister<4> for ModuleTimestamp {

}

} // verus!

verus! {

/// The four bytes that pack a date-time: year offset and month, day, and the
/// count of 2-second ticks since midnight.
pub open spec fn timestamp_bytes(dt: DateTime) -> Seq<u8> {
    let ticks = (dt.hour * 3600 + dt.minute * 60 + dt.second) / 2;
    seq![
        ((dt.year - 2010) * 16 + dt.month) as u8,
        (dt.day * 8) as u8,
        (ticks / 256) as u8,
        (ticks % 256) as u8,
    ]
}

/// Every existing date-time in 2010 through 2025 that falls on an even second
/// is decoded back from its packed bytes.
pub proof fn lemma_timestamp_round_trip(dt: DateTime)
    requires
        is_valid_datetime(
            dt.year as int,
            dt.month as int,
            dt.day as int,
            dt.hour as int,
            dt.minute as int,
            dt.second as int,
        ),
        2010 <= dt.year <= 2025,
        dt.second % 2 == 0,
    ensures
        ModuleTimestamp::spec_from_bytes(timestamp_bytes(dt)) == Ok::<ModuleTimestamp, RegisterError>(
            ModuleTimestamp { timestamp: dt },
        ),
{
    let y = dt.year - 2010;
    let h = dt.hour as int;
    let m = dt.minute as int;
    let s = dt.second as int;
    let seconds = h * 3600 + m * 60 + s;
    let ticks = seconds / 2;
    let b = timestamp_bytes(dt);
    lemma_fundamental_div_mod_converse(seconds, 2, h * 1800 + m * 30 + s / 2, 0);
    assert(ticks * 2 == seconds);
    lemma_fundamental_div_mod(ticks, 256);
    assert(be_u16(b[2], b[3]) == ticks);
    lemma_fundamental_div_mod_converse(b[0] as int, 16, y, dt.month as int);
    lemma_fundamental_div_mod_converse(b[1] as int, 8, dt.day as int, 0);
    lemma_fundamental_div_mod_converse(seconds, 3600, h, m * 60 + s);
    lemma_fundamental_div_mod_converse(m * 60 + s, 60, m, s);
    lemma_fundamental_div_mod_converse(seconds, 60, h * 60 + m, s);
}

} // verus!
