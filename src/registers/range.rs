//! Ranging configuration registers (0x018 to 0x031).
use vstd::prelude::*;
use crate::codec::{
    ByteCodec, FromByteArray, ReadableRegister, Register, ToByteArray, WritableRegister,
    be_bytes_u16, be_u16, flag_bits, lemma_be_u16_round_trip, lemma_flag_bits3, saturate_u16,
    saturate_u8, u16_from_be, u16_to_be,
};
use crate::types::RegisterError;
use crate::units::{Length, Span};

verus! {

/// Starts a range measurement (0x018).
#[derive(Debug, Clone, Copy, PartialEq, Eq, Structural)]
pub enum RangeStart {
    /// Single-shot ranging (0x01).
    SingleShot,
    /// Continuous ranging (0x03).
    Continuous,
}

impl Register for RangeStart {
    open spec fn spec_id() -> u16 {
        0x0018
    }

    fn id() -> (r: u16) {
        0x0018
    }
}

impl FromByteArray<1> for RangeStart {
    /// `0x03` is continuous; every other byte falls back to single-shot.
    open spec fn spec_from_bytes(bytes: Seq<u8>) -> Result<Self, RegisterError> {
        if bytes[0] == 0x03 {
            Ok(RangeStart::Continuous)
        } else {
            Ok(RangeStart::SingleShot)
        }
    }

    fn from_bytes(bytes: [u8; 1]) -> (r: Result<Self, RegisterError>) {
        Ok(
            match bytes[0] {
                0x01 => Self::SingleShot,
                0x03 => Self::Continuous,
                _ => Self::SingleShot,
            },
        )
    }
}

impl ToByteArray<1> for RangeStart {
    open spec fn spec_to_bytes(self) -> Result<Seq<u8>, RegisterError> {
        match self {
            RangeStart::SingleShot => Ok(seq![0x01u8]),
            RangeStart::Continuous => Ok(seq![0x03u8]),
        }
    }

    fn to_bytes(self) -> (r: Result<[u8; 1], RegisterError>) {
        let value: u8 = match self {
            Self::SingleShot => 0x01,
            Self::Continuous => 0x03,
        };
        let b = [value];
        assert(b@ =~= seq![value]);
        Ok(b)
    }
}

impl ByteCodec<1> for RangeStart {
    open spec fn representable(self) -> bool {
        true
    }

    proof fn lemma_round_trip(self) {
    }
}

impl ReadableRegister<1> for RangeStart {

}

impl WritableRegister<1> for RangeStart {

}

/// High and low range thresholds for interrupts (0x019 to 0x01C), each a
/// big-endian count of millimetres.
#[derive(Debug, Clone, Copy, PartialEq, Eq, Structural)]
pub struct RangeThresholds {
    /// High threshold.
    pub high: Length,
    /// Low threshold.
    pub low: Length,
}

impl Register for RangeThresholds {
    open spec fn spec_id() -> u16 {
        0x0019
    }

    fn id() -> (r: u16) {
        0x0019
    }
}

impl FromByteArray<4> for RangeThresholds {
    open spec fn spec_from_bytes(bytes: Seq<u8>) -> Result<Self, RegisterError> {
        Ok(
            RangeThresholds {
                high: Length { millimeters: be_u16(bytes[0], bytes[1]) as u32 },
                low: Length { millimeters: be_u16(bytes[2], bytes[3]) as u32 },
            },
        )
    }

    fn from_bytes(bytes: [u8; 4]) -> (r: Result<Self, RegisterError>) {
        let high_mm = u16_from_be(bytes[0], bytes[1]);
        let low_mm = u16_from_be(bytes[2], bytes[3]);
        Ok(
            Self {
                high: Length { millimeters: high_mm as u32 },
                low: Length { millimeters: low_mm as u32 },
            },
        )
    }
}

impl ToByteArray<4> for RangeThresholds {
    /// Lengths beyond the 16-bit range saturate.
    open spec fn spec_to_bytes(self) -> Result<Seq<u8>, RegisterError> {
        Ok(
            be_bytes_u16(saturate_u16(self.high.millimeters)) + be_bytes_u16(
                saturate_u16(self.low.millimeters),
            ),
        )
    }

    fn to_bytes(self) -> (r: Result<[u8; 4], RegisterError>) {
        let high_mm: u16 = if self.high.millimeters > 0xFFFF {
            0xFFFF
        } else {
            self.high.millimeters as u16
        };
        let low_mm: u16 = if self.low.millimeters > 0xFFFF {
            0xFFFF
        } else {
            self.low.millimeters as u16
        };
        let h = u16_to_be(high_mm);
        let l = u16_to_be(low_mm);
        let b = [h[0], h[1], l[0], l[1]];
        assert(b@ =~= be_bytes_u16(high_mm) + be_bytes_u16(low_mm));
        Ok(b)
    }
}

impl ByteCodec<4> for RangeThresholds {
    open spec fn representable(self) -> bool {
        self.high.millimeters <= 0xFFFF && self.low.millimeters <= 0xFFFF
    }

    proof fn lemma_round_trip(self) {
        let b = self.spec_to_bytes()->Ok_0;
        lemma_be_u16_round_trip(self.high.millimeters as u16);
        lemma_be_u16_round_trip(self.low.millimeters as u16);
        assert(b[0] == be_bytes_u16(self.high.millimeters as u16)[0]);
        assert(b[3] == be_bytes_u16(self.low.millimeters as u16)[1]);
    }
}

impl ReadableRegister<4> for RangeThresholds {

}

impl WritableRegister<4> for RangeThresholds {

}

/// Delay between measurements in continuous ranging (0x01B): a stored `v`
/// stands for `(v + 1) * 10` ms.
#[derive(Debug, Clone, Copy, PartialEq, Eq, Structural)]
pub struct RangeIntermeasurementPeriod {
    /// Period between measurements.
    pub period: Span,
}

impl Register for RangeIntermeasurementPeriod {
    open spec fn spec_id() -> u16 {
        0x001B
    }

    fn id() -> (r: u16) {
        0x001B
    }
}

impl FromByteArray<1> for RangeIntermeasurementPeriod {
    open spec fn spec_from_bytes(bytes: Seq<u8>) -> Result<Self, RegisterError> {
        Ok(RangeIntermeasurementPeriod { period: Span { milliseconds: ((bytes[0] + 1) * 10) as i64 } })
    }

    fn from_bytes(bytes: [u8; 1]) -> (r: Result<Self, RegisterError>) {
        let milliseconds = (bytes[0] as i64 + 1) * 10;
        Ok(Self { period: Span { milliseconds } })
    }
}

impl ToByteArray<1> for RangeIntermeasurementPeriod {
    /// Periods outside 10 ms to 2560 ms (negative spans included) are
    /// refused; the others round to the nearest 10 ms step, halves up.
    open spec fn spec_to_bytes(self) -> Result<Seq<u8>, RegisterError> {
        let ms = self.period.milliseconds;
        if ms < 10 {
            Err(RegisterError::DurationTooShort)
        } else if ms > 2560 {
            Err(RegisterError::DurationTooLong)
        } else {
            Ok(seq![((ms + 5) / 10 - 1) as u8])
        }
    }

    fn to_bytes(self) -> (r: Result<[u8; 1], RegisterError>) {
        let total_ms = self.period.milliseconds;
        if total_ms < 10 {
            return Err(RegisterError::DurationTooShort);
        }
        if total_ms > 2560 {
            return Err(RegisterError::DurationTooLong);
        }
        let value = ((total_ms + 5) / 10 - 1) as u8;
        let b = [value];
        assert(b@ =~= seq![value]);
        Ok(b)
    }
}

impl ByteCodec<1> for RangeIntermeasurementPeriod {
    /// Whole multiples of 10 ms from 10 ms to 2560 ms.
    open spec fn representable(self) -> bool {
        10 <= self.period.milliseconds <= 2560 && self.period.milliseconds % 10 == 0
    }

    proof fn lemma_round_trip(self) {
    }
}

impl ReadableRegister<1> for RangeIntermeasurementPeriod {

}

impl WritableRegister<1> for RangeIntermeasurementPeriod {

}

/// Longest time a ranging measurement may run (0x01C), in milliseconds.
#[derive(Debug, Clone, Copy, PartialEq, Eq, Structural)]
pub struct RangeMaxConvergenceTime {
    /// Maximum convergence time.
    pub time: Span,
}

impl Register for RangeMaxConvergenceTime {
    open spec fn spec_id() -> u16 {
        0x001C
    }

    fn id() -> (r: u16) {
        0x001C
    }
}

impl FromByteArray<1> for RangeMaxConvergenceTime {
    open spec fn spec_from_bytes(bytes: Seq<u8>) -> Result<Self, RegisterError> {
        Ok(RangeMaxConvergenceTime { time: Span { milliseconds: bytes[0] as i64 } })
    }

    fn from_bytes(bytes: [u8; 1]) -> (r: Result<Self, RegisterError>) {
        Ok(Self { time: Span { milliseconds: bytes[0] as i64 } })
    }
}

impl ToByteArray<1> for RangeMaxConvergenceTime {
    /// Clamps to 1 ms through 63 ms.
    open spec fn spec_to_bytes(self) -> Result<Seq<u8>, RegisterError> {
        let ms = self.time.milliseconds;
        Ok(
            seq![
                if ms < 1 {
                    1u8
                } else if ms > 63 {
                    63u8
                } else {
                    ms as u8
                },
            ],
        )
    }

    fn to_bytes(self) -> (r: Result<[u8; 1], RegisterError>) {
        let ms = self.time.milliseconds;
        let value: u8 = if ms < 1 {
            1
        } else if ms > 63 {
            63
        } else {
            ms as u8
        };
        let b = [value];
        assert(b@ =~= self.spec_to_bytes()->Ok_0);
        Ok(b)
    }
}

impl ByteCodec<1> for RangeMaxConvergenceTime {
    /// From 1 ms to 63 ms.
    open spec fn representable(self) -> bool {
        1 <= self.time.milliseconds <= 63
    }

    proof fn lemma_round_trip(self) {
    }
}

impl ReadableRegister<1> for RangeMaxConvergenceTime {

}

impl WritableRegister<1> for RangeMaxConvergenceTime {

}

/// Crosstalk compensation rate (0x01E to 0x01F), a raw 9.7 fixed-point value.
#[derive(Debug, Clone, Copy, PartialEq, Eq, Structural)]
pub struct RangeCrosstalkCompensationRate {
    /// Compensation rate, 9 integer and 7 fraction bits.
    pub rate: u16,
}

impl Register for RangeCrosstalkCompensationRate {
    open spec fn spec_id() -> u16 {
        0x001E
    }

    fn id() -> (r: u16) {
        0x001E
    }
}

impl FromByteArray<2> for RangeCrosstalkCompensationRate {
    open spec fn spec_from_bytes(bytes: Seq<u8>) -> Result<Self, RegisterError> {
        Ok(RangeCrosstalkCompensationRate { rate: be_u16(bytes[0], bytes[1]) as u16 })
    }

    fn from_bytes(bytes: [u8; 2]) -> (r: Result<Self, RegisterError>) {
        Ok(Self { rate: u16_from_be(bytes[0], bytes[1]) })
    }
}

impl ToByteArray<2> for RangeCrosstalkCompensationRate {
    open spec fn spec_to_bytes(self) -> Result<Seq<u8>, RegisterError> {
        Ok(be_bytes_u16(self.rate))
    }

    fn to_bytes(self) -> (r: Result<[u8; 2], RegisterError>) {
        Ok(u16_to_be(self.rate))
    }
}

impl ByteCodec<2> for RangeCrosstalkCompensationRate {
    open spec fn representable(self) -> bool {
        true
    }

    proof fn lemma_round_trip(self) {
        lemma_be_u16_round_trip(self.rate);
    }
}

impl ReadableRegister<2> for RangeCrosstalkCompensationRate {

}

impl WritableRegister<2> for RangeCrosstalkCompensationRate {

}

/// Least range at which crosstalk compensation applies (0x021), in
/// millimetres.
#[derive(Debug, Clone, Copy, PartialEq, Eq, Structural)]
pub struct RangeCrosstalkValidHeight {
    /// Minimum valid height.
    pub height: Length,
}

impl Register for RangeCrosstalkValidHeight {
    open spec fn spec_id() -> u16 {
        0x0021
    }

    fn id() -> (r: u16) {
        0x0021
    }
}

impl FromByteArray<1> for RangeCrosstalkValidHeight {
    open spec fn spec_from_bytes(bytes: Seq<u8>) -> Result<Self, RegisterError> {
        Ok(RangeCrosstalkValidHeight { height: Length { millimeters: bytes[0] as u32 } })
    }

    fn from_bytes(bytes: [u8; 1]) -> (r: Result<Self, RegisterError>) {
        Ok(Self { height: Length { millimeters: bytes[0] as u32 } })
    }
}

impl ToByteArray<1> for RangeCrosstalkValidHeight {
    /// Heights beyond 255 mm saturate.
    open spec fn spec_to_bytes(self) -> Result<Seq<u8>, RegisterError> {
        Ok(seq![saturate_u8(self.height.millimeters)])
    }

    fn to_bytes(self) -> (r: Result<[u8; 1], RegisterError>) {
        let mm: u8 = if self.height.millimeters > 0xFF {
            0xFF
        } else {
            self.height.millimeters as u8
        };
        let b = [mm];
        assert(b@ =~= seq![mm]);
        Ok(b)
    }
}

impl ByteCodec<1> for RangeCrosstalkValidHeight {
    open spec fn representable(self) -> bool {
        self.height.millimeters <= 0xFF
    }

    proof fn lemma_round_trip(self) {
    }
}

impl ReadableRegister<1> for RangeCrosstalkValidHeight {

}

impl WritableRegister<1> for RangeCrosstalkValidHeight {

}

/// Early convergence estimate threshold (0x022 to 0x023), a raw 9.7
/// fixed-point value.
#[derive(Debug, Clone, Copy, PartialEq, Eq, Structural)]
pub struct RangeEarlyConvergenceEstimate {
    /// Estimate, 9 integer and 7 fraction bits.
    pub estimate: u16,
}

impl Register for RangeEarlyConvergenceEstimate {
    open spec fn spec_id() -> u16 {
        0x0022
    }

    fn id() -> (r: u16) {
        0x0022
    }
}

impl FromByteArray<2> for RangeEarlyConvergenceEstimate {
    open spec fn spec_from_bytes(bytes: Seq<u8>) -> Result<Self, RegisterError> {
        Ok(RangeEarlyConvergenceEstimate { estimate: be_u16(bytes[0], bytes[1]) as u16 })
    }

    fn from_bytes(bytes: [u8; 2]) -> (r: Result<Self, RegisterError>) {
        Ok(Self { estimate: u16_from_be(bytes[0], bytes[1]) })
    }
}

impl ToByteArray<2> for RangeEarlyConvergenceEstimate {
    open spec fn spec_to_bytes(self) -> Result<Seq<u8>, RegisterError> {
        Ok(be_bytes_u16(self.estimate))
    }

    fn to_bytes(self) -> (r: Result<[u8; 2], RegisterError>) {
        Ok(u16_to_be(self.estimate))
    }
}

impl ByteCodec<2> for RangeEarlyConvergenceEstimate {
    open spec fn representable(self) -> bool {
        true
    }

    proof fn lemma_round_trip(self) {
        lemma_be_u16_round_trip(self.estimate);
    }
}

impl ReadableRegister<2> for RangeEarlyConvergenceEstimate {

}

impl WritableRegister<2> for RangeEarlyConvergenceEstimate {

}

/// Range checks to enable (0x02D): bit 0 signal-to-noise, bit 1 range, bit 2
/// early convergence.
#[derive(Debug, Clone, Copy, PartialEq, Eq, Structural)]
pub struct RangeCheckEnables {
    /// Signal-to-noise check.
    pub enable_snr_check: bool,
    /// Range value check.
    pub enable_range_check: bool,
    /// Early convergence estimate check.
    pub enable_early_convergence_check: bool,
}

impl Register for RangeCheckEnables {
    open spec fn spec_id() -> u16 {
        0x002D
    }

    fn id() -> (r: u16) {
        0x002D
    }
}

impl FromByteArray<1> for RangeCheckEnables {
    open spec fn spec_from_bytes(bytes: Seq<u8>) -> Result<Self, RegisterError> {
        Ok(
            RangeCheckEnables {
                enable_snr_check: bytes[0] & 0x01 != 0,
                enable_range_check: bytes[0] & 0x02 != 0,
                enable_early_convergence_check: bytes[0] & 0x04 != 0,
            },
        )
    }

    fn from_bytes(bytes: [u8; 1]) -> (r: Result<Self, RegisterError>) {
        Ok(
            Self {
                enable_snr_check: bytes[0] & 0x01 != 0,
                enable_range_check: bytes[0] & 0x02 != 0,
                enable_early_convergence_check: bytes[0] & 0x04 != 0,
            },
        )
    }
}

impl ToByteArray<1> for RangeCheckEnables {
    open spec fn spec_to_bytes(self) -> Result<Seq<u8>, RegisterError> {
        Ok(
            seq![
                flag_bits(self.enable_snr_check, 0x01) | flag_bits(self.enable_range_check, 0x02)
                    | flag_bits(self.enable_early_convergence_check, 0x04),
            ],
        )
    }

    fn to_bytes(self) -> (r: Result<[u8; 1], RegisterError>) {
        let snr: u8 = if self.enable_snr_check {
            0x01
        } else {
            0
        };
        let range: u8 = if self.enable_range_check {
            0x02
        } else {
            0
        };
        let early: u8 = if self.enable_early_convergence_check {
            0x04
        } else {
            0
        };
        let b = [snr | range | early];
        assert(b@ =~= self.spec_to_bytes()->Ok_0);
        Ok(b)
    }
}

impl ByteCodec<1> for RangeCheckEnables {
    open spec fn representable(self) -> bool {
        true
    }

    proof fn lemma_round_trip(self) {
        assert(1u8 & 2 == 0 && 1u8 & 4 == 0 && 2u8 & 4 == 0) by (bit_vector);
        lemma_flag_bits3(
            self.enable_snr_check,
            self.enable_range_check,
            self.enable_early_convergence_check,
            1,
            2,
            4,
        );
    }
}

impl ReadableRegister<1> for RangeCheckEnables {

}

impl WritableRegister<1> for RangeCheckEnables {

}

/// VHV recalibration control (0x02E), raw.
#[derive(Debug, Clone, Copy, PartialEq, Eq, Structural)]
pub struct RangeVhvRecalibrate {
    /// Recalibration value.
    pub recalibrate: u8,
}

impl Register for RangeVhvRecalibrate {
    open spec fn spec_id() -> u16 {
        0x002E
    }

    fn id() -> (r: u16) {
        0x002E
    }
}

impl FromByteArray<1> for RangeVhvRecalibrate {
    open spec fn spec_from_bytes(bytes: Seq<u8>) -> Result<Self, RegisterError> {
        Ok(RangeVhvRecalibrate { recalibrate: bytes[0] })
    }

    fn from_bytes(bytes: [u8; 1]) -> (r: Result<Self, RegisterError>) {
        Ok(Self { recalibrate: bytes[0] })
    }
}

impl ToByteArray<1> for RangeVhvRecalibrate {
    open spec fn spec_to_bytes(self) -> Result<Seq<u8>, RegisterError> {
        Ok(seq![self.recalibrate])
    }

    fn to_bytes(self) -> (r: Result<[u8; 1], RegisterError>) {
        let b = [self.recalibrate];
        assert(b@ =~= seq![self.recalibrate]);
        Ok(b)
    }
}

impl ByteCodec<1> for RangeVhvRecalibrate {
    open spec fn representable(self) -> bool {
        true
    }

    proof fn lemma_round_trip(self) {
    }
}

impl ReadableRegister<1> for RangeVhvRecalibrate {

}

impl WritableRegister<1> for RangeVhvRecalibrate {

}

/// Rate of automatic VHV recalibration (0x031), raw.
#[derive(Debug, Clone, Copy, PartialEq, Eq, Structural)]
pub struct RangeVhvRepeatRate {
    /// Repeat rate.
    pub rate: u8,
}

impl Register for RangeVhvRepeatRate {
    open spec fn spec_id() -> u16 {
        0x0031
    }

    fn id() -> (r: u16) {
        0x0031
    }
}

impl FromByteArray<1> for RangeVhvRepeatRate {
    open spec fn spec_from_bytes(bytes: Seq<u8>) -> Result<Self, RegisterError> {
        Ok(RangeVhvRepeatRate { rate: bytes[0] })
    }

    fn from_bytes(bytes: [u8; 1]) -> (r: Result<Self, RegisterError>) {
        Ok(Self { rate: bytes[0] })
    }
}

impl ToByteArray<1> for RangeVhvRepeatRate {
    open spec fn spec_to_bytes(self) -> Result<Seq<u8>, RegisterError> {
        Ok(seq![self.rate])
    }

    fn to_bytes(self) -> (r: Result<[u8; 1], RegisterError>) {
        let b = [self.rate];
        assert(b@ =~= seq![self.rate]);
        Ok(b)
    }
}

impl ByteCodec<1> for RangeVhvRepeatRate {
    open spec fn representable(self) -> bool {
        true
    }

    proof fn lemma_round_trip(self) {
    }
}

impl ReadableRegister<1> for RangeVhvRepeatRate {

}

impl WritableRegister<1> for RangeVhvRepeatRate {

}

} // verus!

verus! {

/// A start-mode byte other than `0x03` reads as single-shot, never as an
/// error.
pub proof fn lemma_range_start_fallback(b: u8)
    requires
        b != 0x03,
    ensures
        RangeStart::spec_from_bytes(seq![b]) == Ok::<RangeStart, RegisterError>(RangeStart::SingleShot),
{
}

} // verus!
