//! Typed register access for the VL6180X time-of-flight ranging and
//! ambient-light sensor.
//!
//! Every register is a value type with a fixed 16-bit address and a fixed
//! payload length. Its codec turns payload bytes into the value and back; the
//! [`Device`] frames the address, hands the exchange to the bus and classifies
//! the outcome.
pub mod codec;
pub mod device;
pub mod registers;
pub mod types;
pub mod units;

pub use codec::{ByteCodec, FromByteArray, ReadableRegister, Register, ToByteArray, WritableRegister};
pub use device::{DEFAULT_ADDRESS, Device, ReadRequest, WriteRequest, read_outcome, write_outcome};
pub use types::{
    AlsErrorCode, AlsGain, GpioFunction, GpioPolarity, InterruptMode, RangeErrorCode,
    RegisterError,
};
pub use units::{DateTime, Duration, Length, Luminance, Span};
