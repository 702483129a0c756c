//! The bus operator: the wire-level register protocol, written against an
//! abstract bus transport.
//!
//! The transport is the one external collaborator of this driver. It is
//! supplied by the surrounding program (typically backed by an SPI bus
//! peripheral) and performs single whole-buffer transactions; everything
//! the operator promises holds for any transport that keeps the buffer
//! length across an exchange, which a full-duplex exchange does by nature.

use vstd::prelude::*;

use crate::registers::access::{ReadError, ReadFromRegister, WriteError, WriteToRegister};
use crate::registers::addressable::Address;

verus! {

/// The raw bus transaction capability required from the surrounding
/// program.
pub trait Transport {
    /// The transport's own failure type, opaque to the driver.
    type Error;

    /// Send the bytes of `frame` on the bus in one transaction.
    fn write_bytes(&mut self, frame: &Vec<u8>) -> Result<(), Self::Error>;

    /// Exchange `buffer` full duplex in one transaction: every byte is
    /// sent and each slot is filled with the byte received in its place,
    /// so the buffer keeps its length whatever the outcome.
    fn exchange(&mut self, buffer: &mut Vec<u8>) -> (r: Result<(), Self::Error>)
        ensures
            final(buffer)@.len() == old(buffer)@.len(),
    ;
}

/// Performs the device's register protocol over a [`Transport`].
pub struct Operator<Spi: Transport> {
    spi: Spi,
}

impl<Spi: Transport> Operator<Spi> {
    /// Wrap a transport in an operator.
    pub fn new(spi: Spi) -> Operator<Spi> {
        Operator { spi }
    }

    /// One streaming ("loop read-back") exchange: set the buffer's first
    /// byte to the read-tagged `address` and exchange the whole buffer;
    /// the bytes after the first are then the received payload.
    pub fn stream(&mut self, address: Address, buffer: &mut Vec<u8>) -> (r: Result<
        (),
        ReadError<Spi::Error>,
    >)
        requires
            old(buffer)@.len() >= 1,
        ensures
            final(buffer)@.len() == old(buffer)@.len(),
    {
        let command = address | (1u8 << 7);
        buffer.set(0, command);
        match self.spi.exchange(buffer) {
            Ok(()) => Ok(()),
            Err(e) => Err(ReadError::SpiTransferError(e)),
        }
    }
}

impl<Spi: Transport> WriteToRegister<Address, u8, Spi::Error> for Operator<Spi> {
    /// One register write: send the address byte followed by the data
    /// byte.
    fn write(&mut self, address: Address, data: u8) -> Result<(), WriteError<Spi::Error>> {
        let frame: Vec<u8> = vec![address, data];
        match self.spi.write_bytes(&frame) {
            Ok(()) => Ok(()),
            Err(e) => Err(WriteError::SpiTransferError(e)),
        }
    }
}

impl<Spi: Transport> ReadFromRegister<Address, u8, Spi::Error> for Operator<Spi> {
    /// One register read: exchange the read-tagged address with a dummy
    /// byte; the second received byte is the register value.
    fn read(&mut self, address: Address) -> Result<u8, ReadError<Spi::Error>> {
        let command = address | (1u8 << 7);
        let mut buffer: Vec<u8> = vec![command, 0xff];
        match self.spi.exchange(&mut buffer) {
            Ok(()) => Ok(buffer[1]),
            Err(e) => Err(ReadError::SpiTransferError(e)),
        }
    }
}

} // verus!
