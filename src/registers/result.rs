//! Result registers (0x04D to 0x066): measurement values and status.
use vstd::prelude::*;
use crate::codec::{FromByteArray, ReadableRegister, Register, be_u16, be_u32, u16_from_be, u32_from_be};
use crate::types::{AlsErrorCode, RangeErrorCode, RegisterError};
use crate::units::{Length, Span};

verus! {

/// Measured range (0x062), in millimetres.
#[derive(Debug, Clone, Copy, PartialEq, Eq, Structural)]
pub struct RangeResultValue {
    /// Measured distance.
    pub distance: Length,
}

impl Register for RangeResultValue {
    open spec fn spec_id() -> u16 {
        0x0062
    }

    fn id() -> (r: u16) {
        0x0062
    }
}

impl FromByteArray<1> for RangeResultValue {
    open spec fn spec_from_bytes(bytes: Seq<u8>) -> Result<Self, RegisterError> {
        Ok(RangeResultValue { distance: Length { millimeters: bytes[0] as u32 } })
    }

    fn from_bytes(bytes: [u8; 1]) -> (r: Result<Self, RegisterError>) {
        Ok(Self { distance: Length { millimeters: bytes[0] as u32 } })
    }
}

impl ReadableRegister<1> for RangeResultValue {

}

/// Ranging status (0x04D): error code in the high nibble, device ready in bit
/// 0.
#[derive(Debug, Clone, Copy, PartialEq, Eq, Structural)]
pub struct RangeResultStatus {
    /// Error code of the last measurement.
    pub error_code: RangeErrorCode,
    /// The device is ready for a new command.
    pub device_ready: bool,
}

impl Register for RangeResultStatus {
    open spec fn spec_id() -> u16 {
        0x004D
    }

    fn id() -> (r: u16) {
        0x004D
    }
}

impl FromByteArray<1> for RangeResultStatus {
    /// A high nibble that names no code (9 or 10) fails with that nibble.
    open spec fn spec_from_bytes(bytes: Seq<u8>) -> Result<Self, RegisterError> {
        match RangeErrorCode::spec_from_code(bytes[0] / 16) {
            Ok(error_code) => Ok(
                RangeResultStatus { error_code, device_ready: bytes[0] & 0x01 != 0 },
            ),
            Err(e) => Err(e),
        }
    }

    fn from_bytes(bytes: [u8; 1]) -> (r: Result<Self, RegisterError>) {
        let error_code = RangeErrorCode::try_from(bytes[0] / 16)?;
        let device_ready = bytes[0] & 0x01 != 0;
        Ok(Self { error_code, device_ready })
    }
}

impl ReadableRegister<1> for RangeResultStatus {

}

/// Interrupt status (0x04F): bit 2 ranging, bit 3 ambient light, bit 4
/// error.
#[derive(Debug, Clone, Copy, PartialEq, Eq, Structural)]
pub struct ResultInterruptStatusGpio {
    /// A ranging interrupt is pending.
    pub range_interrupt: bool,
    /// An ambient-light interrupt is pending.
    pub als_interrupt: bool,
    /// An error interrupt is pending.
    pub error_interrupt: bool,
}

impl Register for ResultInterruptStatusGpio {
    open spec fn spec_id() -> u16 {
        0x004F
    }

    fn id() -> (r: u16) {
        0x004F
    }
}

impl FromByteArray<1> for ResultInterruptStatusGpio {
    open spec fn spec_from_bytes(bytes: Seq<u8>) -> Result<Self, RegisterError> {
        Ok(
            ResultInterruptStatusGpio {
                range_interrupt: bytes[0] & 0x04 != 0,
                als_interrupt: bytes[0] & 0x08 != 0,
                error_interrupt: bytes[0] & 0x10 != 0,
            },
        )
    }

    fn from_bytes(bytes: [u8; 1]) -> (r: Result<Self, RegisterError>) {
        Ok(
            Self {
                range_interrupt: bytes[0] & 0x04 != 0,
                als_interrupt: bytes[0] & 0x08 != 0,
                error_interrupt: bytes[0] & 0x10 != 0,
            },
        )
    }
}

impl ReadableRegister<1> for ResultInterruptStatusGpio {

}

/// Ambient-light count (0x050 to 0x051), big-endian.
#[derive(Debug, Clone, Copy, PartialEq, Eq, Structural)]
pub struct AlsResultValue {
    /// Raw count.
    pub raw_count: u16,
}

impl Register for AlsResultValue {
    open spec fn spec_id() -> u16 {
        0x0050
    }

    fn id() -> (r: u16) {
        0x0050
    }
}

impl FromByteArray<2> for AlsResultValue {
    open spec fn spec_from_bytes(bytes: Seq<u8>) -> Result<Self, RegisterError> {
        Ok(AlsResultValue { raw_count: be_u16(bytes[0], bytes[1]) as u16 })
    }

    fn from_bytes(bytes: [u8; 2]) -> (r: Result<Self, RegisterError>) {
        Ok(Self { raw_count: u16_from_be(bytes[0], bytes[1]) })
    }
}

impl ReadableRegister<2> for AlsResultValue {

}

/// Ambient-light status (0x04E): error code in the high nibble, device ready
/// in bit 0.
#[derive(Debug, Clone, Copy, PartialEq, Eq, Structural)]
pub struct ResultAlsStatus {
    /// Error code of the last measurement.
    pub error_code: AlsErrorCode,
    /// The device is ready for a new command.
    pub device_ready: bool,
}

impl Register for ResultAlsStatus {
    open spec fn spec_id() -> u16 {
        0x004E
    }

    fn id() -> (r: u16) {
        0x004E
    }
}

impl FromByteArray<1> for ResultAlsStatus {
    /// A high nibble of 3 or more names no code and fails with that nibble.
    open spec fn spec_from_bytes(bytes: Seq<u8>) -> Result<Self, RegisterError> {
        match AlsErrorCode::spec_from_code(bytes[0] / 16) {
            Ok(error_code) => Ok(ResultAlsStatus { error_code, device_ready: bytes[0] & 0x01 != 0 }),
            Err(e) => Err(e),
        }
    }

    fn from_bytes(bytes: [u8; 1]) -> (r: Result<Self, RegisterError>) {
        let error_code = AlsErrorCode::try_from(bytes[0] / 16)?;
        let device_ready = bytes[0] & 0x01 != 0;
        Ok(Self { error_code, device_ready })
    }
}

impl ReadableRegister<1> for ResultAlsStatus {

}

/// Convergence time of the last range measurement (0x063 to 0x066), a
/// big-endian count of milliseconds.
#[derive(Debug, Clone, Copy, PartialEq, Eq, Structural)]
pub struct RangeResultConvergenceTime {
    /// Convergence time.
    pub time: Span,
}

impl Register for RangeResultConvergenceTime {
    open spec fn spec_id() -> u16 {
        0x0063
    }

    fn id() -> (r: u16) {
        0x0063
    }
}

impl FromByteArray<4> for RangeResultConvergenceTime {
    open spec fn spec_from_bytes(bytes: Seq<u8>) -> Result<Self, RegisterError> {
        Ok(
            RangeResultConvergenceTime {
                time: Span { milliseconds: be_u32(bytes[0], bytes[1], bytes[2], bytes[3]) as i64 },
            },
        )
    }

    fn from_bytes(bytes: [u8; 4]) -> (r: Result<Self, RegisterError>) {
        let time_ms = u32_from_be(bytes[0], bytes[1], bytes[2], bytes[3]);
        Ok(Self { time: Span { milliseconds: time_ms as i64 } })
    }
}

impl ReadableRegister<4> for RangeResultConvergenceTime {

}

} // verus!

verus! {

/// A ranging status whose error nibble is 9 or 10, which the datasheet leaves
/// undefined, fails with that nibble.
pub proof fn lemma_undefined_range_status(b: u8)
    requires
        b / 16 == 9 || b / 16 == 10,
    ensures
        RangeResultStatus::spec_from_bytes(seq![b]) == Err::<RangeResultStatus, RegisterError>(
            RegisterError::InvalidEnumValue(b / 16),
        ),
{
}

} // verus!
