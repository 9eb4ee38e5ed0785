//! Ambient-light configuration registers (0x038 to 0x040).
use vstd::prelude::*;
use crate::codec::{
    ByteCodec, FromByteArray, ReadableRegister, Register, ToByteArray, WritableRegister,
    be_bytes_u16, be_u16, lemma_be_u16_round_trip, lemma_low_bits, saturate_u16, u16_from_be,
    u16_to_be,
};
use crate::types::{AlsGain, RegisterError};
use crate::units::{Duration, Luminance};

verus! {

/// Starts an ambient-light measurement (0x038).
#[derive(Debug, Clone, Copy, PartialEq, Eq, Structural)]
pub enum AlsStart {
    /// Single-shot measurement (0x01).
    SingleShot,
    /// Continuous measurement (0x03).
    Continuous,
}

impl Register for AlsStart {
    open spec fn spec_id() -> u16 {
        0x0038
    }

    fn id() -> (r: u16) {
        0x0038
    }
}

impl FromByteArray<1> for AlsStart {
    /// `0x03` is continuous; every other byte falls back to single-shot.
    open spec fn spec_from_bytes(bytes: Seq<u8>) -> Result<Self, RegisterError> {
        if bytes[0] == 0x03 {
            Ok(AlsStart::Continuous)
        } else {
            Ok(AlsStart::SingleShot)
        }
    }

    fn from_bytes(bytes: [u8; 1]) -> (r: Result<Self, RegisterError>) {
        Ok(
            match bytes[0] {
                0x01 => Self::SingleShot,
                0x03 => Self::Continuous,
                _ => Self::SingleShot,
            },
        )
    }
}

impl ToByteArray<1> for AlsStart {
    open spec fn spec_to_bytes(self) -> Result<Seq<u8>, RegisterError> {
        match self {
            AlsStart::SingleShot => Ok(seq![0x01u8]),
            AlsStart::Continuous => Ok(seq![0x03u8]),
        }
    }

    fn to_bytes(self) -> (r: Result<[u8; 1], RegisterError>) {
        let value: u8 = match self {
            Self::SingleShot => 0x01,
            Self::Continuous => 0x03,
        };
        let b = [value];
        assert(b@ =~= seq![value]);
        Ok(b)
    }
}

impl ByteCodec<1> for AlsStart {
    open spec fn representable(self) -> bool {
        true
    }

    proof fn lemma_round_trip(self) {
    }
}

impl ReadableRegister<1> for AlsStart {

}

impl WritableRegister<1> for AlsStart {

}

/// High and low light thresholds for interrupts (0x03A to 0x03D), each a
/// big-endian count.
#[derive(Debug, Clone, Copy, PartialEq, Eq, Structural)]
pub struct AlsThresholds {
    /// High threshold.
    pub high: Luminance,
    /// Low threshold.
    pub low: Luminance,
}

impl Register for AlsThresholds {
    open spec fn spec_id() -> u16 {
        0x003A
    }

    fn id() -> (r: u16) {
        0x003A
    }
}

impl FromByteArray<4> for AlsThresholds {
    open spec fn spec_from_bytes(bytes: Seq<u8>) -> Result<Self, RegisterError> {
        Ok(
            AlsThresholds {
                high: Luminance { lux: be_u16(bytes[0], bytes[1]) as u32 },
                low: Luminance { lux: be_u16(bytes[2], bytes[3]) as u32 },
            },
        )
    }

    fn from_bytes(bytes: [u8; 4]) -> (r: Result<Self, RegisterError>) {
        let high_raw = u16_from_be(bytes[0], bytes[1]);
        let low_raw = u16_from_be(bytes[2], bytes[3]);
        Ok(Self { high: Luminance { lux: high_raw as u32 }, low: Luminance { lux: low_raw as u32 } })
    }
}

impl ToByteArray<4> for AlsThresholds {
    /// Levels beyond the 16-bit range saturate.
    open spec fn spec_to_bytes(self) -> Result<Seq<u8>, RegisterError> {
        Ok(be_bytes_u16(saturate_u16(self.high.lux)) + be_bytes_u16(saturate_u16(self.low.lux)))
    }

    fn to_bytes(self) -> (r: Result<[u8; 4], RegisterError>) {
        let high_raw: u16 = if self.high.lux > 0xFFFF {
            0xFFFF
        } else {
            self.high.lux as u16
        };
        let low_raw: u16 = if self.low.lux > 0xFFFF {
            0xFFFF
        } else {
            self.low.lux as u16
        };
        let h = u16_to_be(high_raw);
        let l = u16_to_be(low_raw);
        let b = [h[0], h[1], l[0], l[1]];
        assert(b@ =~= be_bytes_u16(high_raw) + be_bytes_u16(low_raw));
        Ok(b)
    }
}

impl ByteCodec<4> for AlsThresholds {
    open spec fn representable(self) -> bool {
        self.high.lux <= 0xFFFF && self.low.lux <= 0xFFFF
    }

    proof fn lemma_round_trip(self) {
        let b = self.spec_to_bytes()->Ok_0;
        lemma_be_u16_round_trip(self.high.lux as u16);
        lemma_be_u16_round_trip(self.low.lux as u16);
        assert(b[0] == be_bytes_u16(self.high.lux as u16)[0]);
        assert(b[3] == be_bytes_u16(self.low.lux as u16)[1]);
    }
}

impl ReadableRegister<4> for AlsThresholds {

}

impl WritableRegister<4> for AlsThresholds {

}

/// Delay between measurements in continuous mode (0x03E): a stored `v` stands
/// for `(v + 1) * 10` ms.
#[derive(Debug, Clone, Copy, PartialEq, Eq, Structural)]
pub struct AlsIntermeasurementPeriod {
    /// Period between measurements.
    pub period: Duration,
}

impl Register for AlsIntermeasurementPeriod {
    open spec fn spec_id() -> u16 {
        0x003E
    }

    fn id() -> (r: u16) {
        0x003E
    }
}

impl FromByteArray<1> for AlsIntermeasurementPeriod {
    open spec fn spec_from_bytes(bytes: Seq<u8>) -> Result<Self, RegisterError> {
        Ok(
            AlsIntermeasurementPeriod {
                period: Duration { milliseconds: ((bytes[0] + 1) * 10) as u64 },
            },
        )
    }

    fn from_bytes(bytes: [u8; 1]) -> (r: Result<Self, RegisterError>) {
        let milliseconds = (bytes[0] as u64 + 1) * 10;
        Ok(Self { period: Duration { milliseconds } })
    }
}

impl ToByteArray<1> for AlsIntermeasurementPeriod {
    /// Periods outside 10 ms to 2560 ms are refused; the others round to the
    /// nearest 10 ms step, halves up.
    open spec fn spec_to_bytes(self) -> Result<Seq<u8>, RegisterError> {
        let ms = self.period.milliseconds;
        if ms < 10 {
            Err(RegisterError::DurationTooShort)
        } else if ms > 2560 {
            Err(RegisterError::DurationTooLong)
        } else {
            Ok(seq![((ms + 5) / 10 - 1) as u8])
        }
    }

    fn to_bytes(self) -> (r: Result<[u8; 1], RegisterError>) {
        let total_ms = self.period.milliseconds;
        if total_ms < 10 {
            return Err(RegisterError::DurationTooShort);
        }
        if total_ms > 2560 {
            return Err(RegisterError::DurationTooLong);
        }
        let value = ((total_ms + 5) / 10 - 1) as u8;
        let b = [value];
        assert(b@ =~= seq![value]);
        Ok(b)
    }
}

impl ByteCodec<1> for AlsIntermeasurementPeriod {
    /// Whole multiples of 10 ms from 10 ms to 2560 ms.
    open spec fn representable(self) -> bool {
        10 <= self.period.milliseconds <= 2560 && self.period.milliseconds % 10 == 0
    }

    proof fn lemma_round_trip(self) {
    }
}

impl ReadableRegister<1> for AlsIntermeasurementPeriod {

}

impl WritableRegister<1> for AlsIntermeasurementPeriod {

}

/// Analogue gain of the ambient-light sensor (0x03F), in the low three bits.
#[derive(Debug, Clone, Copy, PartialEq, Eq, Structural)]
pub struct AlsAnalogueGain {
    /// Gain setting.
    pub gain: AlsGain,
}

impl Register for AlsAnalogueGain {
    open spec fn spec_id() -> u16 {
        0x003F
    }

    fn id() -> (r: u16) {
        0x003F
    }
}

impl FromByteArray<1> for AlsAnalogueGain {
    open spec fn spec_from_bytes(bytes: Seq<u8>) -> Result<Self, RegisterError> {
        match AlsGain::spec_from_code(bytes[0]) {
            Ok(gain) => Ok(AlsAnalogueGain { gain }),
            Err(e) => Err(e),
        }
    }

    fn from_bytes(bytes: [u8; 1]) -> (r: Result<Self, RegisterError>) {
        let gain = AlsGain::try_from(bytes[0])?;
        Ok(Self { gain })
    }
}

impl ToByteArray<1> for AlsAnalogueGain {
    open spec fn spec_to_bytes(self) -> Result<Seq<u8>, RegisterError> {
        Ok(seq![self.gain.spec_bits()])
    }

    fn to_bytes(self) -> (r: Result<[u8; 1], RegisterError>) {
        let b = [self.gain.bits()];
        assert(b@ =~= seq![self.gain.spec_bits()]);
        Ok(b)
    }
}

impl ByteCodec<1> for AlsAnalogueGain {
    open spec fn representable(self) -> bool {
        true
    }

    proof fn lemma_round_trip(self) {
        lemma_low_bits(self.gain.spec_bits());
    }
}

impl ReadableRegister<1> for AlsAnalogueGain {

}

impl WritableRegister<1> for AlsAnalogueGain {

}

/// Integration time of an ambient-light measurement (0x040), in
/// milliseconds.
#[derive(Debug, Clone, Copy, PartialEq, Eq, Structural)]
pub struct AlsIntegrationPeriod {
    /// Integration period.
    pub period: Duration,
}

impl Register for AlsIntegrationPeriod {
    open spec fn spec_id() -> u16 {
        0x0040
    }

    fn id() -> (r: u16) {
        0x0040
    }
}

impl FromByteArray<1> for AlsIntegrationPeriod {
    open spec fn spec_from_bytes(bytes: Seq<u8>) -> Result<Self, RegisterError> {
        Ok(AlsIntegrationPeriod { period: Duration { milliseconds: bytes[0] as u64 } })
    }

    fn from_bytes(bytes: [u8; 1]) -> (r: Result<Self, RegisterError>) {
        Ok(Self { period: Duration { milliseconds: bytes[0] as u64 } })
    }
}

impl ToByteArray<1> for AlsIntegrationPeriod {
    /// Periods outside 1 ms to 255 ms are refused.
    open spec fn spec_to_bytes(self) -> Result<Seq<u8>, RegisterError> {
        let ms = self.period.milliseconds;
        if ms < 1 {
            Err(RegisterError::DurationTooShort)
        } else if ms > 255 {
            Err(RegisterError::DurationTooLong)
        } else {
            Ok(seq![ms as u8])
        }
    }

    fn to_bytes(self) -> (r: Result<[u8; 1], RegisterError>) {
        let ms = self.period.milliseconds;
        if ms < 1 {
            return Err(RegisterError::DurationTooShort);
        }
        if ms > 255 {
            return Err(RegisterError::DurationTooLong);
        }
        let b = [ms as u8];
        assert(b@ =~= seq![ms as u8]);
        Ok(b)
    }
}

impl ByteCodec<1> for AlsIntegrationPeriod {
    /// From 1 ms to 255 ms.
    open spec fn representable(self) -> bool {
        1 <= self.period.milliseconds <= 255
    }

    proof fn lemma_round_trip(self) {
    }
}

impl ReadableRegister<1> for AlsIntegrationPeriod {

}

impl WritableRegister<1> for AlsIntegrationPeriod {

}

} // verus!

verus! {

/// A start-mode byte other than `0x03` reads as single-shot, never as an
/// error.
pub proof fn lemma_als_start_fallback(b: u8)
    requires
        b != 0x03,
    ensures
        AlsStart::spec_from_bytes(seq![b]) == Ok::<AlsStart, RegisterError>(AlsStart::SingleShot),
{
}

} // verus!
