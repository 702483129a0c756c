//! Register addressing: every addressable register resolves to one 8-bit
//! bus address.

use vstd::prelude::*;

verus! {

/// An 8-bit register address on the device's bus.
pub type Address = u8;

/// A register (or register marker type) with a fixed bus address.
pub trait Addressable {
    /// The address the register resolves to.
    spec fn spec_address(&self) -> Address;

    /// Return the register's bus address.
    fn get_address(&self) -> (a: Address)
        ensures
            a == self.spec_address(),
    ;
}

impl Addressable for Address {
    open spec fn spec_address(&self) -> Address {
        *self
    }

    #[inline]
    fn get_address(&self) -> Address {
        *self
    }
}

} // verus!
