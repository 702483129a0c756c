//! Register access capabilities: writing one byte to a register and
//! reading one byte back, both fallible with a transport-specific error.

use vstd::prelude::*;

verus! {

/// Write `data` to `register`.
pub trait WriteToRegister<Register, Data, SpiError> {
    fn write(&mut self, register: Register, data: Data) -> Result<(), WriteError<SpiError>>;
}

/// A register write failed at the transport level.
#[derive(Debug)]
pub enum WriteError<SpiError> {
    SpiTransferError(SpiError),
}

/// Read the current value of `register`.
pub trait ReadFromRegister<Register, Data, SpiError> {
    fn read(&mut self, register: Register) -> Result<Data, ReadError<SpiError>>;
}

/// A register read failed at the transport level.
#[derive(Debug)]
pub enum ReadError<SpiError> {
    SpiTransferError(SpiError),
}

} // verus!
