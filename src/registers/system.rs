//! System registers (0x010 to 0x017): GPIO modes, interrupts, the reset flag
//! and the parameter hold.
use vstd::prelude::*;
use crate::codec::{
    ByteCodec, FromByteArray, ReadableRegister, Register, ToByteArray, WritableRegister,
    flag_bits, lemma_flag_bit0, lemma_flag_bits2, lemma_flag_bits3, lemma_low_bits,
};
use crate::types::{GpioFunction, GpioPolarity, InterruptMode, RegisterError};

verus! {

/// The byte of a GPIO mode register: bit 4 interrupt output, bit 0 active
/// high.
pub open spec fn gpio_mode_byte(function: GpioFunction, polarity: GpioPolarity) -> u8 {
    flag_bits(function == GpioFunction::InterruptOutput, 0x10) | flag_bits(
        polarity == GpioPolarity::ActiveHigh,
        0x01,
    )
}

/// The function that a GPIO mode byte selects.
pub open spec fn gpio_function_of(b: u8) -> GpioFunction {
    if b & 0x10 != 0 {
        GpioFunction::InterruptOutput
    } else {
        GpioFunction::Off
    }
}

/// The polarity that a GPIO mode byte selects.
pub open spec fn gpio_polarity_of(b: u8) -> GpioPolarity {
    if b & 0x01 != 0 {
        GpioPolarity::ActiveHigh
    } else {
        GpioPolarity::ActiveLow
    }
}

fn gpio_mode_decode(b: u8) -> (r: (GpioFunction, GpioPolarity))
    ensures
        r == (gpio_function_of(b), gpio_polarity_of(b)),
{
    let function = if b & 0x10 != 0 {
        GpioFunction::InterruptOutput
    } else {
        GpioFunction::Off
    };
    let polarity = if b & 0x01 != 0 {
        GpioPolarity::ActiveHigh
    } else {
        GpioPolarity::ActiveLow
    };
    (function, polarity)
}

fn gpio_mode_encode(function: GpioFunction, polarity: GpioPolarity) -> (r: [u8; 1])
    ensures
        r@ == seq![gpio_mode_byte(function, polarity)],
{
    let function_bit: u8 = match function {
        GpioFunction::Off => 0x00,
        GpioFunction::InterruptOutput => 0x10,
    };
    let polarity_bit: u8 = match polarity {
        GpioPolarity::ActiveLow => 0x00,
        GpioPolarity::ActiveHigh => 0x01,
    };
    let b = [function_bit | polarity_bit];
    assert(b@ =~= seq![gpio_mode_byte(function, polarity)]);
    b
}

proof fn lemma_gpio_mode_round_trip(function: GpioFunction, polarity: GpioPolarity)
    ensures
        gpio_function_of(gpio_mode_byte(function, polarity)) == function,
        gpio_polarity_of(gpio_mode_byte(function, polarity)) == polarity,
{
    assert(0x10u8 & 0x01 == 0) by (bit_vector);
    lemma_flag_bits2(
        function == GpioFunction::InterruptOutput,
        polarity == GpioPolarity::ActiveHigh,
        0x10,
        0x01,
    );
}

/// Function and polarity of pin GPIO0 (0x010).
#[derive(Debug, Clone, Copy, PartialEq, Eq, Structural)]
pub struct ModeGpio0 {
    /// Pin function.
    pub function: GpioFunction,
    /// Pin polarity.
    pub polarity: GpioPolarity,
}

impl Register for ModeGpio0 {
    open spec fn spec_id() -> u16 {
        0x0010
    }

    fn id() -> (r: u16) {
        0x0010
    }
}

impl FromByteArray<1> for ModeGpio0 {
    open spec fn spec_from_bytes(bytes: Seq<u8>) -> Result<Self, RegisterError> {
        Ok(
            ModeGpio0 {
                function: gpio_function_of(bytes[0]),
                polarity: gpio_polarity_of(bytes[0]),
            },
        )
    }

    fn from_bytes(bytes: [u8; 1]) -> (r: Result<Self, RegisterError>) {
        let (function, polarity) = gpio_mode_decode(bytes[0]);
        Ok(Self { function, polarity })
    }
}

impl ToByteArray<1> for ModeGpio0 {
    open spec fn spec_to_bytes(self) -> Result<Seq<u8>, RegisterError> {
        Ok(seq![gpio_mode_byte(self.function, self.polarity)])
    }

    fn to_bytes(self) -> (r: Result<[u8; 1], RegisterError>) {
        Ok(gpio_mode_encode(self.function, self.polarity))
    }
}

impl ByteCodec<1> for ModeGpio0 {
    open spec fn representable(self) -> bool {
        true
    }

    proof fn lemma_round_trip(self) {
        lemma_gpio_mode_round_trip(self.function, self.polarity);
    }
}

impl ReadableRegister<1> for ModeGpio0 {

}

impl WritableRegister<1> for ModeGpio0 {

}

/// Function and polarity of pin GPIO1 (0x011).
#[derive(Debug, Clone, Copy, PartialEq, Eq, Structural)]
pub struct ModeGpio1 {
    /// Pin function.
    pub function: GpioFunction,
    /// Pin polarity.
    pub polarity: GpioPolarity,
}

impl Register for ModeGpio1 {
    open spec fn spec_id() -> u16 {
        0x0011
    }

    fn id() -> (r: u16) {
        0x0011
    }
}

impl FromByteArray<1> for ModeGpio1 {
    open spec fn spec_from_bytes(bytes: Seq<u8>) -> Result<Self, RegisterError> {
        Ok(
            ModeGpio1 {
                function: gpio_function_of(bytes[0]),
                polarity: gpio_polarity_of(bytes[0]),
            },
        )
    }

    fn from_bytes(bytes: [u8; 1]) -> (r: Result<Self, RegisterError>) {
        let (function, polarity) = gpio_mode_decode(bytes[0]);
        Ok(Self { function, polarity })
    }
}

impl ToByteArray<1> for ModeGpio1 {
    open spec fn spec_to_bytes(self) -> Result<Seq<u8>, RegisterError> {
        Ok(seq![gpio_mode_byte(self.function, self.polarity)])
    }

    fn to_bytes(self) -> (r: Result<[u8; 1], RegisterError>) {
        Ok(gpio_mode_encode(self.function, self.polarity))
    }
}

impl ByteCodec<1> for ModeGpio1 {
    open spec fn representable(self) -> bool {
        true
    }

    proof fn lemma_round_trip(self) {
        lemma_gpio_mode_round_trip(self.function, self.polarity);
    }
}

impl ReadableRegister<1> for ModeGpio1 {

}

impl WritableRegister<1> for ModeGpio1 {

}

/// History buffer control (0x012): bit 0 enable, bit 1 clear.
#[derive(Debug, Clone, Copy, PartialEq, Eq, Structural)]
pub struct HistoryCtrl {
    /// Enable the history buffer.
    pub enable: bool,
    /// Clear the history buffer.
    pub clear: bool,
}

impl Register for HistoryCtrl {
    open spec fn spec_id() -> u16 {
        0x0012
    }

    fn id() -> (r: u16) {
        0x0012
    }
}

impl FromByteArray<1> for HistoryCtrl {
    open spec fn spec_from_bytes(bytes: Seq<u8>) -> Result<Self, RegisterError> {
        Ok(HistoryCtrl { enable: bytes[0] & 0x01 != 0, clear: bytes[0] & 0x02 != 0 })
    }

    fn from_bytes(bytes: [u8; 1]) -> (r: Result<Self, RegisterError>) {
        Ok(Self { enable: bytes[0] & 0x01 != 0, clear: bytes[0] & 0x02 != 0 })
    }
}

impl ToByteArray<1> for HistoryCtrl {
    open spec fn spec_to_bytes(self) -> Result<Seq<u8>, RegisterError> {
        Ok(seq![flag_bits(self.enable, 0x01) | flag_bits(self.clear, 0x02)])
    }

    fn to_bytes(self) -> (r: Result<[u8; 1], RegisterError>) {
        let enable: u8 = if self.enable {
            0x01
        } else {
            0
        };
        let clear: u8 = if self.clear {
            0x02
        } else {
            0
        };
        let b = [enable | clear];
        assert(b@ =~= self.spec_to_bytes()->Ok_0);
        Ok(b)
    }
}

impl ByteCodec<1> for HistoryCtrl {
    open spec fn representable(self) -> bool {
        true
    }

    proof fn lemma_round_trip(self) {
        assert(1u8 & 2 == 0) by (bit_vector);
        lemma_flag_bits2(self.enable, self.clear, 1, 2);
    }
}

impl ReadableRegister<1> for HistoryCtrl {

}

impl WritableRegister<1> for HistoryCtrl {

}

/// The interrupt mode that three register bits select; the unassigned values
/// 5 to 7 read as disabled.
pub open spec fn interrupt_mode_or_disabled(bits: u8) -> InterruptMode {
    match InterruptMode::spec_from_code(bits) {
        Ok(mode) => mode,
        Err(_) => InterruptMode::Disabled,
    }
}

fn interrupt_mode_decode(bits: u8) -> (r: InterruptMode)
    ensures
        r == interrupt_mode_or_disabled(bits),
{
    match InterruptMode::try_from(bits) {
        Ok(mode) => mode,
        Err(_) => InterruptMode::Disabled,
    }
}

/// Interrupt modes of both channels (0x014): bits 5..3 ranging, bits 2..0
/// ambient light.
#[derive(Debug, Clone, Copy, PartialEq, Eq, Structural)]
pub struct InterruptConfigGpio {
    /// Ranging interrupt mode.
    pub range_interrupt: InterruptMode,
    /// Ambient-light interrupt mode.
    pub als_interrupt: InterruptMode,
}

impl Register for InterruptConfigGpio {
    open spec fn spec_id() -> u16 {
        0x0014
    }

    fn id() -> (r: u16) {
        0x0014
    }
}

impl FromByteArray<1> for InterruptConfigGpio {
    open spec fn spec_from_bytes(bytes: Seq<u8>) -> Result<Self, RegisterError> {
        Ok(
            InterruptConfigGpio {
                range_interrupt: interrupt_mode_or_disabled((bytes[0] >> 3) & 0x07),
                als_interrupt: interrupt_mode_or_disabled(bytes[0] & 0x07),
            },
        )
    }

    fn from_bytes(bytes: [u8; 1]) -> (r: Result<Self, RegisterError>) {
        let range_mode = (bytes[0] >> 3) & 0x07;
        let als_mode = bytes[0] & 0x07;
        Ok(
            Self {
                range_interrupt: interrupt_mode_decode(range_mode),
                als_interrupt: interrupt_mode_decode(als_mode),
            },
        )
    }
}

impl ToByteArray<1> for InterruptConfigGpio {
    open spec fn spec_to_bytes(self) -> Result<Seq<u8>, RegisterError> {
        Ok(seq![(self.range_interrupt.spec_bits() << 3) | self.als_interrupt.spec_bits()])
    }

    fn to_bytes(self) -> (r: Result<[u8; 1], RegisterError>) {
        let range_bits = self.range_interrupt.bits() << 3;
        let als_bits = self.als_interrupt.bits();
        let b = [range_bits | als_bits];
        assert(b@ =~= self.spec_to_bytes()->Ok_0);
        Ok(b)
    }
}

impl ByteCodec<1> for InterruptConfigGpio {
    open spec fn representable(self) -> bool {
        true
    }

    proof fn lemma_round_trip(self) {
        let r = self.range_interrupt.spec_bits();
        let a = self.als_interrupt.spec_bits();
        assert((((r << 3) | a) >> 3) & 7 == r && ((r << 3) | a) & 7 == a) by (bit_vector)
            requires
                r < 8,
                a < 8,
        ;
        lemma_low_bits(r);
        lemma_low_bits(a);
    }
}

impl ReadableRegister<1> for InterruptConfigGpio {

}

impl WritableRegister<1> for InterruptConfigGpio {

}

/// Clears interrupt flags (0x015): bit 0 ranging, bit 1 ambient light, bit 2
/// error.
#[derive(Debug, Clone, Copy, PartialEq, Eq, Structural)]
pub struct InterruptClear {
    /// Clear the ranging interrupt.
    pub clear_range: bool,
    /// Clear the ambient-light interrupt.
    pub clear_als: bool,
    /// Clear the error interrupt.
    pub clear_error: bool,
}

impl Register for InterruptClear {
    open spec fn spec_id() -> u16 {
        0x0015
    }

    fn id() -> (r: u16) {
        0x0015
    }
}

impl FromByteArray<1> for InterruptClear {
    open spec fn spec_from_bytes(bytes: Seq<u8>) -> Result<Self, RegisterError> {
        Ok(
            InterruptClear {
                clear_range: bytes[0] & 0x01 != 0,
                clear_als: bytes[0] & 0x02 != 0,
                clear_error: bytes[0] & 0x04 != 0,
            },
        )
    }

    fn from_bytes(bytes: [u8; 1]) -> (r: Result<Self, RegisterError>) {
        Ok(
            Self {
                clear_range: bytes[0] & 0x01 != 0,
                clear_als: bytes[0] & 0x02 != 0,
                clear_error: bytes[0] & 0x04 != 0,
            },
        )
    }
}

impl ToByteArray<1> for InterruptClear {
    open spec fn spec_to_bytes(self) -> Result<Seq<u8>, RegisterError> {
        Ok(
            seq![
                flag_bits(self.clear_range, 0x01) | flag_bits(self.clear_als, 0x02) | flag_bits(
                    self.clear_error,
                    0x04,
                ),
            ],
        )
    }

    fn to_bytes(self) -> (r: Result<[u8; 1], RegisterError>) {
        let range: u8 = if self.clear_range {
            0x01
        } else {
            0
        };
        let als: u8 = if self.clear_als {
            0x02
        } else {
            0
        };
        let error: u8 = if self.clear_error {
            0x04
        } else {
            0
        };
        let b = [range | als | error];
        assert(b@ =~= self.spec_to_bytes()->Ok_0);
        Ok(b)
    }
}

impl ByteCodec<1> for InterruptClear {
    open spec fn representable(self) -> bool {
        true
    }

    proof fn lemma_round_trip(self) {
        assert(1u8 & 2 == 0 && 1u8 & 4 == 0 && 2u8 & 4 == 0) by (bit_vector);
        lemma_flag_bits3(self.clear_range, self.clear_als, self.clear_error, 1, 2, 4);
    }
}

impl ReadableRegister<1> for InterruptClear {

}

impl WritableRegister<1> for InterruptClear {

}

/// Set after power-on or reset, cleared by software (0x016, bit 0).
#[derive(Debug, Clone, Copy, PartialEq, Eq, Structural)]
pub struct FreshOutOfReset {
    /// The device is fresh out of reset.
    pub fresh: bool,
}

impl Register for FreshOutOfReset {
    open spec fn spec_id() -> u16 {
        0x0016
    }

    fn id() -> (r: u16) {
        0x0016
    }
}

impl FromByteArray<1> for FreshOutOfReset {
    open spec fn spec_from_bytes(bytes: Seq<u8>) -> Result<Self, RegisterError> {
        Ok(FreshOutOfReset { fresh: bytes[0] & 0x01 != 0 })
    }

    fn from_bytes(bytes: [u8; 1]) -> (r: Result<Self, RegisterError>) {
        Ok(Self { fresh: bytes[0] & 0x01 != 0 })
    }
}

impl ToByteArray<1> for FreshOutOfReset {
    open spec fn spec_to_bytes(self) -> Result<Seq<u8>, RegisterError> {
        Ok(seq![flag_bits(self.fresh, 0x01)])
    }

    fn to_bytes(self) -> (r: Result<[u8; 1], RegisterError>) {
        let b = [
            if self.fresh {
                0x01
            } else {
                0x00
            },
        ];
        assert(b@ =~= self.spec_to_bytes()->Ok_0);
        Ok(b)
    }
}

impl ByteCodec<1> for FreshOutOfReset {
    open spec fn representable(self) -> bool {
        true
    }

    proof fn lemma_round_trip(self) {
        lemma_flag_bit0(self.fresh);
    }
}

impl ReadableRegister<1> for FreshOutOfReset {

}

impl WritableRegister<1> for FreshOutOfReset {

}

/// Holds parameter updates so that they apply together (0x017, bit 0).
#[derive(Debug, Clone, Copy, PartialEq, Eq, Structural)]
pub struct GroupedParameterHold {
    /// Hold updates (set) or apply them at once (clear).
    pub hold: bool,
}

impl Register for GroupedParameterHold {
    open spec fn spec_id() -> u16 {
        0x0017
    }

    fn id() -> (r: u16) {
        0x0017
    }
}

impl FromByteArray<1> for GroupedParameterHold {
    open spec fn spec_from_bytes(bytes: Seq<u8>) -> Result<Self, RegisterError> {
        Ok(GroupedParameterHold { hold: bytes[0] & 0x01 != 0 })
    }

    fn from_bytes(bytes: [u8; 1]) -> (r: Result<Self, RegisterError>) {
        Ok(Self { hold: bytes[0] & 0x01 != 0 })
    }
}

impl ToByteArray<1> for GroupedParameterHold {
    open spec fn spec_to_bytes(self) -> Result<Seq<u8>, RegisterError> {
        Ok(seq![flag_bits(self.hold, 0x01)])
    }

    fn to_bytes(self) -> (r: Result<[u8; 1], RegisterError>) {
        let b = [
            if self.hold {
                0x01
            } else {
                0x00
            },
        ];
        assert(b@ =~= self.spec_to_bytes()->Ok_0);
        Ok(b)
    }
}

impl ByteCodec<1> for GroupedParameterHold {
    open spec fn representable(self) -> bool {
        true
    }

    proof fn lemma_round_trip(self) {
        lemma_flag_bit0(self.hold);
    }
}

impl ReadableRegister<1> for GroupedParameterHold {

}

impl WritableRegister<1> for GroupedParameterHold {

}

} // verus!
