//! Device initialization: an initializer writes an application-specific
//! sequence of register values to bring the device into a known
//! configuration.

use vstd::prelude::*;

use crate::registers::access::WriteError;

verus! {

/// Initialize the device for a given application profile.
pub trait Initializer<Application> {
    /// The transport's failure type, passed through the write errors.
    type SpiError;

    fn init(&mut self, application: Application) -> Result<(), InitializeError<Self::SpiError>>;
}

/// The standard 3-lead ECG application profile.
pub struct Application3Lead;

/// Initialization failed: one of the register writes failed at the
/// transport level. The failing address and data are carried along.
#[derive(Debug)]
pub enum InitializeError<SpiError> {
    WriteError { source: WriteError<SpiError>, address: u8, data: u8 },
}

/// The register address/data pairs written, in order, to initialize the
/// device for the 3-lead ECG application.
pub open spec fn init_sequence_3_lead() -> Seq<(u8, u8)> {
    seq![
        (0x01u8, 0x11u8),
        (0x02u8, 0x19u8),
        (0x0Au8, 0x07u8),
        (0x0Cu8, 0x04u8),
        (0x12u8, 0x04u8),
        (0x14u8, 0x24u8),
        (0x21u8, 0x02u8),
        (0x22u8, 0x02u8),
        (0x23u8, 0x02u8),
        (0x27u8, 0x08u8),
        (0x2Fu8, 0x31u8),
        (0x00u8, 0x01u8),
    ]
}

} // verus!
