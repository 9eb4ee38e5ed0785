//! Common types and enumerations shared by the register definitions.
use vstd::prelude::*;
use vstd::string::StringExecFns;

verus! {

/// Why a payload could not become a value, or a value could not become a
/// payload.
#[derive(Debug, Clone, Copy, PartialEq, Eq, Structural)]
pub enum RegisterError {
    /// A byte (or bit-field) that names no variant; holds the raw value.
    InvalidEnumValue(u8),
    /// A duration below what the register can hold.
    DurationTooShort,
    /// A duration above what the register can hold.
    DurationTooLong,
    /// A date or time of day that does not exist.
    InvalidTimestamp,
}

/// Upper-case hexadecimal digits.
pub open spec fn hex_digits() -> Seq<char> {
    seq!['0', '1', '2', '3', '4', '5', '6', '7', '8', '9', 'A', 'B', 'C', 'D', 'E', 'F']
}

/// The hexadecimal digit of a value below 16, as a one-character string.
fn hex_digit(d: u8) -> (r: &'static str)
    requires
        d < 16,
    ensures
        r@ == seq![hex_digits()[d as int]],
{
    proof {
        reveal_strlit("0");
        reveal_strlit("1");
        reveal_strlit("2");
        reveal_strlit("3");
        reveal_strlit("4");
        reveal_strlit("5");
        reveal_strlit("6");
        reveal_strlit("7");
        reveal_strlit("8");
        reveal_strlit("9");
        reveal_strlit("A");
        reveal_strlit("B");
        reveal_strlit("C");
        reveal_strlit("D");
        reveal_strlit("E");
        reveal_strlit("F");
    }
    let r = match d {
        0 => "0",
        1 => "1",
        2 => "2",
        3 => "3",
        4 => "4",
        5 => "5",
        6 => "6",
        7 => "7",
        8 => "8",
        9 => "9",
        10 => "A",
        11 => "B",
        12 => "C",
        13 => "D",
        14 => "E",
        _ => "F",
    };
    assert(r@ =~= seq![hex_digits()[d as int]]);
    r
}

impl RegisterError {
    /// The human-readable description of an error.
    pub open spec fn spec_message(self) -> Seq<char> {
        match self {
            RegisterError::InvalidEnumValue(v) => "Invalid enum value: 0x"@ + seq![
                hex_digits()[(v / 16) as int],
                hex_digits()[(v % 16) as int],
            ],
            RegisterError::DurationTooShort => "Duration is too short"@,
            RegisterError::DurationTooLong => "Duration is too long"@,
            RegisterError::InvalidTimestamp => "Invalid timestamp"@,
        }
    }

    /// The human-readable description of an error; an invalid value is shown
    /// as two upper-case hexadecimal digits.
    pub fn to_string(&self) -> (r: String)
        ensures
            r@ == self.spec_message(),
    {
        match self {
            RegisterError::InvalidEnumValue(v) => {
                let mut s = String::from_str("Invalid enum value: 0x");
                s.append(hex_digit(*v / 16));
                s.append(hex_digit(*v % 16));
                assert(s@ =~= self.spec_message());
                s
            },
            RegisterError::DurationTooShort => String::from_str("Duration is too short"),
            RegisterError::DurationTooLong => String::from_str("Duration is too long"),
            RegisterError::InvalidTimestamp => String::from_str("Invalid timestamp"),
        }
    }
}

impl From<jiff::Error> for RegisterError {
    fn from(e: jiff::Error) -> (r: Self)
        ensures
            r == RegisterError::InvalidTimestamp,
    {
        Self::InvalidTimestamp
    }
}

impl vstd::std_specs::convert::FromSpecImpl<jiff::Error> for RegisterError {
    open spec fn obeys_from_spec() -> bool {
        true
    }

    open spec fn from_spec(v: jiff::Error) -> Self {
        RegisterError::InvalidTimestamp
    }
}

/// Status codes of an ambient-light measurement.
#[derive(Debug, Clone, Copy, PartialEq, Eq, Structural)]
pub enum AlsErrorCode {
    /// Valid measurement.
    NoError,
    /// The count overflowed.
    Overflow,
    /// The count underflowed.
    Underflow,
}

impl AlsErrorCode {
    /// The code that a status nibble names; values 3 and up name none.
    pub open spec fn spec_from_code(value: u8) -> Result<AlsErrorCode, RegisterError> {
        match value {
            0 => Ok(AlsErrorCode::NoError),
            1 => Ok(AlsErrorCode::Overflow),
            2 => Ok(AlsErrorCode::Underflow),
            _ => Err(RegisterError::InvalidEnumValue(value)),
        }
    }
}

impl TryFrom<u8> for AlsErrorCode {
    type Error = RegisterError;

    fn try_from(value: u8) -> (r: Result<Self, Self::Error>)
        ensures
            r == Self::spec_from_code(value),
    {
        match value {
            0 => Ok(Self::NoError),
            1 => Ok(Self::Overflow),
            2 => Ok(Self::Underflow),
            _ => Err(RegisterError::InvalidEnumValue(value)),
        }
    }
}

impl vstd::std_specs::convert::TryFromSpecImpl<u8> for AlsErrorCode {
    open spec fn obeys_try_from_spec() -> bool {
        true
    }

    open spec fn try_from_spec(v: u8) -> Result<Self, RegisterError> {
        Self::spec_from_code(v)
    }
}

/// Status codes of a range measurement, as the datasheet tabulates them.
#[derive(Debug, Clone, Copy, PartialEq, Eq, Structural)]
pub enum RangeErrorCode {
    /// Valid measurement.
    NoError,
    /// VCSEL continuity test failure.
    VcselContinuityTest,
    /// VCSEL watchdog test failure.
    VcselWatchdogTest,
    /// VCSEL watchdog triggered.
    VcselWatchdog,
    /// PLL1 lock failure.
    Pll1Lock,
    /// PLL2 lock failure.
    Pll2Lock,
    /// Early convergence estimate: signal too weak.
    EarlyConvergenceEstimate,
    /// Maximum convergence time reached.
    MaxConvergence,
    /// Range ignored for low signal.
    NoTargetIgnore,
    /// Signal-to-noise ratio too low.
    SignalToNoiseRatio,
    /// Raw ranging algorithm underflow.
    RawRangingUnderflow,
    /// Raw ranging algorithm overflow.
    RawRangingOverflow,
    /// Ranging algorithm underflow.
    RangingUnderflow,
    /// Ranging algorithm overflow.
    RangingOverflow,
}

impl RangeErrorCode {
    /// The code that a status nibble names; 9, 10 and 16 and up name none.
    pub open spec fn spec_from_code(value: u8) -> Result<RangeErrorCode, RegisterError> {
        match value {
            0 => Ok(RangeErrorCode::NoError),
            1 => Ok(RangeErrorCode::VcselContinuityTest),
            2 => Ok(RangeErrorCode::VcselWatchdogTest),
            3 => Ok(RangeErrorCode::VcselWatchdog),
            4 => Ok(RangeErrorCode::Pll1Lock),
            5 => Ok(RangeErrorCode::Pll2Lock),
            6 => Ok(RangeErrorCode::EarlyConvergenceEstimate),
            7 => Ok(RangeErrorCode::MaxConvergence),
            8 => Ok(RangeErrorCode::NoTargetIgnore),
            11 => Ok(RangeErrorCode::SignalToNoiseRatio),
            12 => Ok(RangeErrorCode::RawRangingUnderflow),
            13 => Ok(RangeErrorCode::RawRangingOverflow),
            14 => Ok(RangeErrorCode::RangingUnderflow),
            15 => Ok(RangeErrorCode::RangingOverflow),
            _ => Err(RegisterError::InvalidEnumValue(value)),
        }
    }

    /// Whether this code reports a valid measurement.
    pub fn is_valid(&self) -> (r: bool)
        ensures
            r <==> *self == RangeErrorCode::NoError,
    {
        match self {
            Self::NoError => true,
            _ => false,
        }
    }
}

impl TryFrom<u8> for RangeErrorCode {
    type Error = RegisterError;

    fn try_from(value: u8) -> (r: Result<Self, Self::Error>)
        ensures
            r == Self::spec_from_code(value),
    {
        match value {
            0 => Ok(Self::NoError),
            1 => Ok(Self::VcselContinuityTest),
            2 => Ok(Self::VcselWatchdogTest),
            3 => Ok(Self::VcselWatchdog),
            4 => Ok(Self::Pll1Lock),
            5 => Ok(Self::Pll2Lock),
            6 => Ok(Self::EarlyConvergenceEstimate),
            7 => Ok(Self::MaxConvergence),
            8 => Ok(Self::NoTargetIgnore),
            11 => Ok(Self::SignalToNoiseRatio),
            12 => Ok(Self::RawRangingUnderflow),
            13 => Ok(Self::RawRangingOverflow),
            14 => Ok(Self::RangingUnderflow),
            15 => Ok(Self::RangingOverflow),
            _ => Err(RegisterError::InvalidEnumValue(value)),
        }
    }
}

impl vstd::std_specs::convert::TryFromSpecImpl<u8> for RangeErrorCode {
    open spec fn obeys_try_from_spec() -> bool {
        true
    }

    open spec fn try_from_spec(v: u8) -> Result<Self, RegisterError> {
        Self::spec_from_code(v)
    }
}

/// Analogue gain settings of the ambient-light sensor; register bits 0 to 7 in
/// declaration order.
#[derive(Debug, Clone, Copy, PartialEq, Eq, Structural)]
pub enum AlsGain {
    /// Gain 20.
    Gain20,
    /// Gain 10.
    Gain10,
    /// Gain 5.
    Gain5,
    /// Gain 2.5.
    Gain2_5,
    /// Gain 1.67.
    Gain1_67,
    /// Gain 1.25.
    Gain1_25,
    /// Gain 1 (the reset value).
    Gain1,
    /// Gain 40.
    Gain40,
}

impl Default for AlsGain {
    fn default() -> (r: Self)
        ensures
            r == AlsGain::Gain1,
    {
        AlsGain::Gain1
    }
}

impl AlsGain {
    /// The register bits of a gain.
    pub open spec fn spec_bits(self) -> u8 {
        match self {
            AlsGain::Gain20 => 0,
            AlsGain::Gain10 => 1,
            AlsGain::Gain5 => 2,
            AlsGain::Gain2_5 => 3,
            AlsGain::Gain1_67 => 4,
            AlsGain::Gain1_25 => 5,
            AlsGain::Gain1 => 6,
            AlsGain::Gain40 => 7,
        }
    }

    /// The register bits of a gain.
    pub fn bits(self) -> (r: u8)
        ensures
            r == self.spec_bits(),
    {
        match self {
            Self::Gain20 => 0,
            Self::Gain10 => 1,
            Self::Gain5 => 2,
            Self::Gain2_5 => 3,
            Self::Gain1_67 => 4,
            Self::Gain1_25 => 5,
            Self::Gain1 => 6,
            Self::Gain40 => 7,
        }
    }

    /// The gain that the low three bits of `value` select.
    pub open spec fn spec_from_code(value: u8) -> Result<AlsGain, RegisterError> {
        match value & 7 {
            0 => Ok(AlsGain::Gain20),
            1 => Ok(AlsGain::Gain10),
            2 => Ok(AlsGain::Gain5),
            3 => Ok(AlsGain::Gain2_5),
            4 => Ok(AlsGain::Gain1_67),
            5 => Ok(AlsGain::Gain1_25),
            6 => Ok(AlsGain::Gain1),
            7 => Ok(AlsGain::Gain40),
            _ => Err(RegisterError::InvalidEnumValue(value)),
        }
    }
}

impl TryFrom<u8> for AlsGain {
    type Error = RegisterError;

    fn try_from(value: u8) -> (r: Result<Self, Self::Error>)
        ensures
            r == Self::spec_from_code(value),
    {
        match value & 0b111 {
            0 => Ok(Self::Gain20),
            1 => Ok(Self::Gain10),
            2 => Ok(Self::Gain5),
            3 => Ok(Self::Gain2_5),
            4 => Ok(Self::Gain1_67),
            5 => Ok(Self::Gain1_25),
            6 => Ok(Self::Gain1),
            7 => Ok(Self::Gain40),
            _ => Err(RegisterError::InvalidEnumValue(value)),
        }
    }
}

impl vstd::std_specs::convert::TryFromSpecImpl<u8> for AlsGain {
    open spec fn obeys_try_from_spec() -> bool {
        true
    }

    open spec fn try_from_spec(v: u8) -> Result<Self, RegisterError> {
        Self::spec_from_code(v)
    }
}

/// Polarity of a GPIO pin.
#[derive(Debug, Clone, Copy, PartialEq, Eq, Structural)]
pub enum GpioPolarity {
    /// Active low (the reset value).
    ActiveLow,
    /// Active high.
    ActiveHigh,
}

impl Default for GpioPolarity {
    fn default() -> (r: Self)
        ensures
            r == GpioPolarity::ActiveLow,
    {
        GpioPolarity::ActiveLow
    }
}

impl GpioPolarity {
    /// The polarity that bit 0 of `value` selects.
    pub open spec fn spec_from_code(value: u8) -> Result<GpioPolarity, RegisterError> {
        match value & 1 {
            0 => Ok(GpioPolarity::ActiveLow),
            1 => Ok(GpioPolarity::ActiveHigh),
            _ => Err(RegisterError::InvalidEnumValue(value)),
        }
    }
}

impl TryFrom<u8> for GpioPolarity {
    type Error = RegisterError;

    fn try_from(value: u8) -> (r: Result<Self, Self::Error>)
        ensures
            r == Self::spec_from_code(value),
    {
        match value & 0b1 {
            0 => Ok(Self::ActiveLow),
            1 => Ok(Self::ActiveHigh),
            _ => Err(RegisterError::InvalidEnumValue(value)),
        }
    }
}

impl vstd::std_specs::convert::TryFromSpecImpl<u8> for GpioPolarity {
    open spec fn obeys_try_from_spec() -> bool {
        true
    }

    open spec fn try_from_spec(v: u8) -> Result<Self, RegisterError> {
        Self::spec_from_code(v)
    }
}

/// Function of a GPIO pin.
#[derive(Debug, Clone, Copy, PartialEq, Eq, Structural)]
pub enum GpioFunction {
    /// High-impedance off state (the reset value).
    Off,
    /// Interrupt output.
    InterruptOutput,
}

impl Default for GpioFunction {
    fn default() -> (r: Self)
        ensures
            r == GpioFunction::Off,
    {
        GpioFunction::Off
    }
}

impl GpioFunction {
    /// The function that bit 0 of `value` selects.
    pub open spec fn spec_from_code(value: u8) -> Result<GpioFunction, RegisterError> {
        match value & 1 {
            0 => Ok(GpioFunction::Off),
            1 => Ok(GpioFunction::InterruptOutput),
            _ => Err(RegisterError::InvalidEnumValue(value)),
        }
    }
}

impl TryFrom<u8> for GpioFunction {
    type Error = RegisterError;

    fn try_from(value: u8) -> (r: Result<Self, Self::Error>)
        ensures
            r == Self::spec_from_code(value),
    {
        match value & 0b1 {
            0 => Ok(Self::Off),
            1 => Ok(Self::InterruptOutput),
            _ => Err(RegisterError::InvalidEnumValue(value)),
        }
    }
}

impl vstd::std_specs::convert::TryFromSpecImpl<u8> for GpioFunction {
    open spec fn obeys_try_from_spec() -> bool {
        true
    }

    open spec fn try_from_spec(v: u8) -> Result<Self, RegisterError> {
        Self::spec_from_code(v)
    }
}

/// Interrupt mode of the ranging or the ambient-light channel; register bits
/// 0 to 4 in declaration order.
#[derive(Debug, Clone, Copy, PartialEq, Eq, Structural)]
pub enum InterruptMode {
    /// Interrupts disabled (the reset value).
    Disabled,
    /// Below the low threshold.
    LevelLow,
    /// Above the high threshold.
    LevelHigh,
    /// Below the low or above the high threshold.
    OutOfWindow,
    /// On every new sample.
    NewSampleReady,
}

impl Default for InterruptMode {
    fn default() -> (r: Self)
        ensures
            r == InterruptMode::Disabled,
    {
        InterruptMode::Disabled
    }
}

impl InterruptMode {
    /// The register bits of a mode.
    pub open spec fn spec_bits(self) -> u8 {
        match self {
            InterruptMode::Disabled => 0,
            InterruptMode::LevelLow => 1,
            InterruptMode::LevelHigh => 2,
            InterruptMode::OutOfWindow => 3,
            InterruptMode::NewSampleReady => 4,
        }
    }

    /// The register bits of a mode.
    pub fn bits(self) -> (r: u8)
        ensures
            r == self.spec_bits(),
    {
        match self {
            Self::Disabled => 0,
            Self::LevelLow => 1,
            Self::LevelHigh => 2,
            Self::OutOfWindow => 3,
            Self::NewSampleReady => 4,
        }
    }

    /// The mode that the low three bits of `value` select; 5 to 7 select
    /// none.
    pub open spec fn spec_from_code(value: u8) -> Result<InterruptMode, RegisterError> {
        match value & 7 {
            0 => Ok(InterruptMode::Disabled),
            1 => Ok(InterruptMode::LevelLow),
            2 => Ok(InterruptMode::LevelHigh),
            3 => Ok(InterruptMode::OutOfWindow),
            4 => Ok(InterruptMode::NewSampleReady),
            _ => Err(RegisterError::InvalidEnumValue(value)),
        }
    }
}

impl TryFrom<u8> for InterruptMode {
    type Error = RegisterError;

    fn try_from(value: u8) -> (r: Result<Self, Self::Error>)
        ensures
            r == Self::spec_from_code(value),
    {
        match value & 0b111 {
            0 => Ok(Self::Disabled),
            1 => Ok(Self::LevelLow),
            2 => Ok(Self::LevelHigh),
            3 => Ok(Self::OutOfWindow),
            4 => Ok(Self::NewSampleReady),
            _ => Err(RegisterError::InvalidEnumValue(value)),
        }
    }
}

impl vstd::std_specs::convert::TryFromSpecImpl<u8> for InterruptMode {
    open spec fn obeys_try_from_spec() -> bool {
        true
    }

    open spec fn try_from_spec(v: u8) -> Result<Self, RegisterError> {
        Self::spec_from_code(v)
    }
}

} // verus!
