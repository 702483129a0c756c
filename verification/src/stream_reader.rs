//! The streaming session: reads the channel configuration once, derives
//! the enabled field set and the transfer buffer once, and reuses both
//! across repeated streaming reads.
//!
//! The session does not re-read the configuration register. If the
//! device's channel configuration is written after the session is built,
//! later reads will mis-decode without an error signal: discard the
//! session and build a new one after any write to the configuration
//! register.

use vstd::prelude::*;

use crate::driver::{StreamError, ADS1293};
use crate::fields::{enabled_fields, enabled_seq, lemma_enabled_fields, new_transfer_buffer,
    total_width, valid_field_set};
use crate::frame::{decode_frame_at, spec_decode_frame};
use crate::operator::Transport;
use crate::registers::access::ReadFromRegister;
use crate::registers::addressable::Addressable;
use crate::registers::data::LoopReadBackConfig;
use crate::registers::{DataRegister, CH_CNFG, DATA_LOOP};

verus! {

/// A streaming session over the ADS1293's loop read-back mode.
///
/// Holds the channel configuration read at construction, the enabled
/// field set derived from it, and a transfer buffer sized to match. The
/// buffer is mutated in place by every read; the field set and the
/// configuration never change for the session's lifetime.
pub struct StreamReader {
    config: LoopReadBackConfig,
    enabled_fields: Vec<u8>,
    buffer: Vec<u8>,
}

impl StreamReader {
    /// The held channel configuration, as specification-level state.
    pub closed spec fn spec_config(self) -> LoopReadBackConfig {
        self.config
    }

    /// The held enabled field set, as specification-level state.
    pub closed spec fn spec_fields(self) -> Seq<u8> {
        self.enabled_fields@
    }

    /// The held transfer buffer's bytes, as specification-level state.
    pub closed spec fn spec_buffer(self) -> Seq<u8> {
        self.buffer@
    }

    /// Well-formedness: the configuration byte has its unused high bit
    /// clear, the field set is exactly the one the configuration enables,
    /// and the buffer is sized for one command byte plus the fields.
    pub open spec fn wf(self) -> bool {
        &&& self.spec_config().0 < 128
        &&& self.spec_fields() == enabled_seq(self.spec_config().0)
        &&& valid_field_set(self.spec_fields())
        &&& self.spec_buffer().len() == 1 + total_width(self.spec_fields())
    }

    /// The channel configuration the session was built from.
    pub fn config(&self) -> (c: LoopReadBackConfig)
        ensures
            c == self.spec_config(),
    {
        self.config
    }

    /// The enabled field set the session decodes against, as domain
    /// indices in ascending order.
    pub fn enabled_field_indices(&self) -> (fields: &Vec<u8>)
        ensures
            fields@ == self.spec_fields(),
    {
        &self.enabled_fields
    }

    /// Build a session: read the channel configuration once and derive
    /// the enabled field set and the transfer buffer from it.
    ///
    /// On a transport failure, or when the configuration byte read back
    /// has its unused high bit set, no session is produced.
    pub fn new<Spi: Transport>(driver: &mut ADS1293<Spi>) -> (r: Result<
        StreamReader,
        StreamError<Spi::Error>,
    >)
        ensures
            r matches Ok(reader) ==> reader.wf(),
            r matches Err(StreamError::InconsistentConfig(c)) ==> c >= 128,
    {
        let config = match driver.read(CH_CNFG) {
            Ok(c) => c,
            Err(e) => {
                return Err(StreamError::ReadConfigError(e));
            },
        };
        let fields = match enabled_fields(config.0) {
            Some(f) => f,
            None => {
                return Err(StreamError::InconsistentConfig(config.0));
            },
        };
        proof {
            lemma_enabled_fields(config.0);
        }
        let buffer = new_transfer_buffer(&fields);
        Ok(StreamReader { config, enabled_fields: fields, buffer })
    }

    /// One streaming read: run one exchange through the held transfer
    /// buffer and decode the returned payload against the held field set.
    ///
    /// Neither the configuration, the field set, nor the buffer's size
    /// change, whatever the outcome: after a transport failure
    /// (`StreamingAbort`, the only error this can return) the session
    /// stays usable as it is. A returned frame is exactly the decoding of
    /// the buffer's payload bytes against the session's field set.
    pub fn read<Spi: Transport>(&mut self, driver: &mut ADS1293<Spi>) -> (r: Result<
        Vec<DataRegister>,
        StreamError<Spi::Error>,
    >)
        requires
            old(self).wf(),
        ensures
            final(self).wf(),
            final(self).spec_config() == old(self).spec_config(),
            final(self).spec_fields() == old(self).spec_fields(),
            final(self).spec_buffer().len() == old(self).spec_buffer().len(),
            r matches Ok(frame) ==> {
                &&& frame@ == spec_decode_frame(
                    old(self).spec_fields(),
                    final(self).spec_buffer().skip(1),
                )
                &&& frame@.len() == old(self).spec_fields().len()
            },
            r matches Err(e) ==> e is StreamingAbort,
    {
        match driver.operator.stream(DATA_LOOP.get_address(), &mut self.buffer) {
            Ok(()) => {},
            Err(e) => {
                return Err(StreamError::StreamingAbort(e));
            },
        }
        let frame = decode_frame_at(&self.enabled_fields, &self.buffer, 1);
        Ok(frame)
    }
}

} // verus!
