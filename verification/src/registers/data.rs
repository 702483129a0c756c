//! Bit-level views of the device's scalar status and configuration
//! registers. Each type wraps the raw register byte; the accessors expose
//! single bits, specified through [`bit_set`](crate::fields::bit_set).

use vstd::prelude::*;

use crate::fields::bit_set;

verus! {

/// Replace bit `i` of `b` by `v`, leaving every other bit unchanged.
fn with_bit(b: u8, i: u8, v: bool) -> (r: u8)
    requires
        i < 8,
    ensures
        forall|j: u8| j < 8 ==> (bit_set(r, j) <==> (if j == i {
            v
        } else {
            bit_set(b, j)
        })),
{
    if v {
        let r = b | (1u8 << i);
        assert(forall|j: u8|
            j < 8 ==> (bit_set(r, j) <==> (if j == i {
                true
            } else {
                bit_set(b, j)
            }))) by (bit_vector)
            requires
                i < 8,
                r == b | (1u8 << i),
        ;
        r
    } else {
        let r = b & !(1u8 << i);
        assert(forall|j: u8|
            j < 8 ==> (bit_set(r, j) <==> (if j == i {
                false
            } else {
                bit_set(b, j)
            }))) by (bit_vector)
            requires
                i < 8,
                r == b & !(1u8 << i),
        ;
        r
    }
}

/// The device's main configuration register byte.
#[derive(Clone, Copy, Debug, PartialEq, Eq, Structural)]
pub struct MainConfig(pub u8);

impl MainConfig {
    pub fn power_down(&self) -> (r: bool)
        ensures
            r == bit_set(self.0, 2),
    {
        (self.0 >> 2) & 1 == 1
    }

    pub fn set_power_down(&mut self, v: bool)
        ensures
            forall|j: u8| j < 8 ==> (bit_set(final(self).0, j) <==> (if j == 2 {
                v
            } else {
                bit_set(old(self).0, j)
            })),
    {
        self.0 = with_bit(self.0, 2, v);
    }

    pub fn standby(&self) -> (r: bool)
        ensures
            r == bit_set(self.0, 1),
    {
        (self.0 >> 1) & 1 == 1
    }

    pub fn set_standby(&mut self, v: bool)
        ensures
            forall|j: u8| j < 8 ==> (bit_set(final(self).0, j) <==> (if j == 1 {
                v
            } else {
                bit_set(old(self).0, j)
            })),
    {
        self.0 = with_bit(self.0, 1, v);
    }

    pub fn start_conversion(&self) -> (r: bool)
        ensures
            r == bit_set(self.0, 0),
    {
        (self.0 >> 0) & 1 == 1
    }

    pub fn set_start_conversion(&mut self, v: bool)
        ensures
            forall|j: u8| j < 8 ==> (bit_set(final(self).0, j) <==> (if j == 0 {
                v
            } else {
                bit_set(old(self).0, j)
            })),
    {
        self.0 = with_bit(self.0, 0, v);
    }
}

/// The channel-configuration ("loop read-back") register byte. Bits 0
/// through 6 enable the seven streaming fields in domain order; bit 7 is
/// unused and must be zero.
#[derive(Clone, Copy, Debug, PartialEq, Eq, Structural)]
pub struct LoopReadBackConfig(pub u8);

impl LoopReadBackConfig {
    pub fn sts_en(&self) -> (r: bool)
        ensures
            r == bit_set(self.0, 0),
    {
        (self.0 >> 0) & 1 == 1
    }

    pub fn p1_en(&self) -> (r: bool)
        ensures
            r == bit_set(self.0, 1),
    {
        (self.0 >> 1) & 1 == 1
    }

    pub fn p2_en(&self) -> (r: bool)
        ensures
            r == bit_set(self.0, 2),
    {
        (self.0 >> 2) & 1 == 1
    }

    pub fn p3_en(&self) -> (r: bool)
        ensures
            r == bit_set(self.0, 3),
    {
        (self.0 >> 3) & 1 == 1
    }

    pub fn e1_en(&self) -> (r: bool)
        ensures
            r == bit_set(self.0, 4),
    {
        (self.0 >> 4) & 1 == 1
    }

    pub fn e2_en(&self) -> (r: bool)
        ensures
            r == bit_set(self.0, 5),
    {
        (self.0 >> 5) & 1 == 1
    }

    pub fn e3_en(&self) -> (r: bool)
        ensures
            r == bit_set(self.0, 6),
    {
        (self.0 >> 6) & 1 == 1
    }
}

/// The device's error status register byte.
#[derive(Clone, Copy, Debug, PartialEq, Eq, Structural)]
pub struct ErrorStatus(pub u8);

impl ErrorStatus {
    pub fn common_mode_level_out_of_range(&self) -> (r: bool)
        ensures
            r == bit_set(self.0, 0),
    {
        (self.0 >> 0) & 1 == 1
    }

    pub fn rld_near_rail(&self) -> (r: bool)
        ensures
            r == bit_set(self.0, 1),
    {
        (self.0 >> 1) & 1 == 1
    }

    pub fn low_battery(&self) -> (r: bool)
        ensures
            r == bit_set(self.0, 2),
    {
        (self.0 >> 2) & 1 == 1
    }

    pub fn lead_off(&self) -> (r: bool)
        ensures
            r == bit_set(self.0, 3),
    {
        (self.0 >> 3) & 1 == 1
    }

    pub fn ch1_error(&self) -> (r: bool)
        ensures
            r == bit_set(self.0, 4),
    {
        (self.0 >> 4) & 1 == 1
    }

    pub fn ch2_error(&self) -> (r: bool)
        ensures
            r == bit_set(self.0, 5),
    {
        (self.0 >> 5) & 1 == 1
    }

    pub fn ch3_error(&self) -> (r: bool)
        ensures
            r == bit_set(self.0, 6),
    {
        (self.0 >> 6) & 1 == 1
    }

    pub fn sync_error(&self) -> (r: bool)
        ensures
            r == bit_set(self.0, 7),
    {
        (self.0 >> 7) & 1 == 1
    }
}

/// The data-ready status register byte, also streamed as the one-byte
/// status field of the loop read-back frame.
#[derive(Clone, Copy, Debug, PartialEq, Eq, Structural)]
pub struct DataStatus(pub u8);

impl DataStatus {
    pub fn is_alarm_active(&self) -> (r: bool)
        ensures
            r == bit_set(self.0, 1),
    {
        (self.0 >> 1) & 1 == 1
    }

    pub fn p1_data_ready(&self) -> (r: bool)
        ensures
            r == bit_set(self.0, 2),
    {
        (self.0 >> 2) & 1 == 1
    }

    pub fn p2_data_ready(&self) -> (r: bool)
        ensures
            r == bit_set(self.0, 3),
    {
        (self.0 >> 3) & 1 == 1
    }

    pub fn p3_data_ready(&self) -> (r: bool)
        ensures
            r == bit_set(self.0, 4),
    {
        (self.0 >> 4) & 1 == 1
    }

    pub fn e1_data_ready(&self) -> (r: bool)
        ensures
            r == bit_set(self.0, 5),
    {
        (self.0 >> 5) & 1 == 1
    }

    pub fn e2_data_ready(&self) -> (r: bool)
        ensures
            r == bit_set(self.0, 6),
    {
        (self.0 >> 6) & 1 == 1
    }

    pub fn e3_data_ready(&self) -> (r: bool)
        ensures
            r == bit_set(self.0, 7),
    {
        (self.0 >> 7) & 1 == 1
    }
}

} // verus!
