//! The transaction engine: one addressed read or write per call.
//!
//! The engine decides what goes on the bus and what the outcome means; the
//! bus exchange itself belongs to whoever owns the transport. A read is one
//! "write the address frame, then read the payload" exchange; a write is one
//! atomic transaction of two frames, the address frame and the payload.
use vstd::prelude::*;
use crate::codec::{
    FromByteArray, ReadableRegister, Register, ToByteArray, WritableRegister, be_bytes_u16,
    u16_to_be,
};
use crate::types::RegisterError;

pub use regiface::errors::Error;

verus! {

/// Failures of a register transaction, as regiface defines them: the bus
/// failed, a value did not encode, or a payload did not decode.
#[verifier::external_type_specification]
pub struct ExError(regiface::errors::Error);

/// Default 7-bit bus address of the sensor.
pub const DEFAULT_ADDRESS: u8 = 0x29;

/// A sensor on the bus: the exclusively owned transport handle and the
/// peripheral's bus address.
pub struct Device<I2C> {
    i2c: I2C,
    address: u8,
}

/// The "write, then read" exchange that reads a register: write `frame` to
/// the peripheral at `address`, then read the register's payload.
#[derive(Debug, Clone, Copy)]
pub struct ReadRequest {
    /// Peripheral bus address.
    pub address: u8,
    /// The register address, big-endian.
    pub frame: [u8; 2],
}

/// The atomic transaction that writes a register: `frame`, then `payload`,
/// to the peripheral at `address`, with nothing in between.
#[derive(Debug, Clone, Copy)]
pub struct WriteRequest<const N: usize> {
    /// Peripheral bus address.
    pub address: u8,
    /// The register address, big-endian.
    pub frame: [u8; 2],
    /// The encoded value.
    pub payload: [u8; N],
}

/// What a read of `R` returns once the bus has answered with `bus`: a bus
/// failure, else the decoded value, else a decode failure.
pub open spec fn read_result<const N: usize, R: FromByteArray<N>, E>(bus: Result<[u8; N], E>) -> Result<R, Error> {
    match bus {
        Err(_) => Err(Error::BusError),
        Ok(bytes) => match R::spec_from_bytes(bytes@) {
            Ok(v) => Ok(v),
            Err(_) => Err(Error::DeserializationError),
        },
    }
}

impl<I2C> Device<I2C> {
    /// The transport handle held.
    pub closed spec fn spec_i2c(&self) -> I2C {
        self.i2c
    }

    /// The peripheral's 7-bit bus address.
    pub closed spec fn spec_address(&self) -> u8 {
        self.address
    }

    /// A device at the default address.
    pub fn new(i2c: I2C) -> (r: Self)
        ensures
            r.spec_i2c() == i2c,
            r.spec_address() == DEFAULT_ADDRESS,
    {
        Self::new_with_address(i2c, DEFAULT_ADDRESS)
    }

    /// A device at `address`.
    pub fn new_with_address(i2c: I2C, address: u8) -> (r: Self)
        ensures
            r.spec_i2c() == i2c,
            r.spec_address() == address,
    {
        Self { i2c, address }
    }

    /// Gives the transport handle back, unchanged.
    pub fn release(self) -> (r: I2C)
        ensures
            r == self.spec_i2c(),
    {
        self.i2c
    }

    /// The peripheral's 7-bit bus address.
    pub fn address(&self) -> (r: u8)
        ensures
            r == self.spec_address(),
    {
        self.address
    }

    /// The transport handle, for the one exchange of a transaction.
    pub fn bus(&mut self) -> (r: &mut I2C)
        ensures
            *r == old(self).spec_i2c(),
            final(self).spec_i2c() == *final(r),
            final(self).spec_address() == old(self).spec_address(),
    {
        &mut self.i2c
    }

    /// The exchange that reads register `R`.
    pub fn read_request<const N: usize, R: ReadableRegister<N>>(&self) -> (r: ReadRequest)
        ensures
            r.address == self.spec_address(),
            r.frame@ == be_bytes_u16(R::spec_id()),
    {
        ReadRequest { address: self.address, frame: u16_to_be(R::id()) }
    }

    /// The transaction that writes `value`, encoded before anything goes on
    /// the bus.
    ///
    /// A value that does not encode is a `SerializationError`, and then
    /// there is no transaction at all. Otherwise the address frame and the
    /// payload travel together in one transaction.
    pub fn write_request<const N: usize, R: WritableRegister<N>>(&self, value: R) -> (r: Result<
        WriteRequest<N>,
        Error,
    >)
        ensures
            value.spec_to_bytes() is Err <==> r == Err::<WriteRequest<N>, Error>(
                Error::SerializationError,
            ),
            value.spec_to_bytes() is Ok <==> r is Ok,
            r is Ok ==> {
                &&& r->Ok_0.address == self.spec_address()
                &&& r->Ok_0.frame@ == be_bytes_u16(R::spec_id())
                &&& value.spec_to_bytes() == Ok::<Seq<u8>, RegisterError>(r->Ok_0.payload@)
            },
    {
        let frame = u16_to_be(R::id());
        match value.to_bytes() {
            Err(_) => Err(Error::SerializationError),
            Ok(payload) => Ok(WriteRequest { address: self.address, frame, payload }),
        }
    }
}

/// The result of a read of `R`, given what the bus answered.
///
/// A failed exchange is a `BusError`, whatever else; a payload that does not
/// decode is a `DeserializationError`.
pub fn read_outcome<const N: usize, R: ReadableRegister<N>, E>(bus: Result<[u8; N], E>) -> (r: Result<R, Error>)
    ensures
        r == read_result::<N, R, E>(bus),
{
    match bus {
        Err(_) => Err(Error::BusError),
        Ok(bytes) => match R::from_bytes(bytes) {
            Ok(v) => Ok(v),
            Err(_) => Err(Error::DeserializationError),
        },
    }
}

/// The result of a write, given what the bus answered: any failure of the
/// transaction is a `BusError`.
pub fn write_outcome<E>(bus: Result<(), E>) -> (r: Result<(), Error>)
    ensures
        bus is Ok ==> r is Ok,
        bus is Err ==> r == Err::<(), Error>(Error::BusError),
{
    match bus {
        Ok(()) => Ok(()),
        Err(_) => Err(Error::BusError),
    }
}

} // verus!
