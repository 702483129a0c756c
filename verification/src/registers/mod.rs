//! The register map consumed by the driver: the addressable registers, the
//! marker types used to pick a typed read, and the tagged values decoded
//! from a streaming frame.

pub mod access;
pub mod addressable;
pub mod data;

use vstd::prelude::*;

use self::addressable::{Address, Addressable};
use self::data::DataStatus;

verus! {

/// The registers the driver knows by name.
pub enum Register {
    CONFIG,
    CH_CNFG,
    DATA_STATUS,
    DATA_LOOP,
}

/// Marker for the main configuration register.
pub struct CONFIG;

/// Marker for the channel-configuration (loop read-back) register.
pub struct CH_CNFG;

/// Marker for the data-ready status register.
pub struct DATA_STATUS;

/// Marker for the streaming-data (loop read-back) register.
pub struct DATA_LOOP;

impl Addressable for CONFIG {
    open spec fn spec_address(&self) -> Address {
        0x01
    }

    fn get_address(&self) -> Address {
        0x01
    }
}

impl Addressable for CH_CNFG {
    open spec fn spec_address(&self) -> Address {
        0x2F
    }

    fn get_address(&self) -> Address {
        0x2F
    }
}

impl Addressable for DATA_STATUS {
    open spec fn spec_address(&self) -> Address {
        0x30
    }

    fn get_address(&self) -> Address {
        0x30
    }
}

impl Addressable for DATA_LOOP {
    open spec fn spec_address(&self) -> Address {
        0x50
    }

    fn get_address(&self) -> Address {
        0x50
    }
}

/// One decoded streaming field, tagged with its kind. The three ECG
/// channels carry 24-bit values, held in a `u32` below `0x100_0000`.
#[derive(Clone, Copy, Debug, PartialEq, Eq, Structural)]
pub enum DataRegister {
    DATA_STATUS(DataStatus),
    DATA_CH1_PACE(u16),
    DATA_CH2_PACE(u16),
    DATA_CH3_PACE(u16),
    DATA_CH1_ECG(u32),
    DATA_CH2_ECG(u32),
    DATA_CH3_ECG(u32),
}

} // verus!
