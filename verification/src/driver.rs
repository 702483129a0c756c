//! The device driver: typed register reads, the application initialization
//! sequence, and the one-shot streaming read.

use vstd::prelude::*;

use crate::fields::{enabled_fields, enabled_seq, lemma_enabled_fields, new_transfer_buffer,
    total_width};
use crate::frame::{decode_frame_at, spec_decode_frame};
use crate::initialization::{init_sequence_3_lead, Application3Lead, InitializeError, Initializer};
use crate::operator::{Operator, Transport};
use crate::registers::access::{ReadError, ReadFromRegister, WriteToRegister};
use crate::registers::addressable::{Address, Addressable};
use crate::registers::data::{DataStatus, LoopReadBackConfig, MainConfig};
use crate::registers::{DataRegister, CH_CNFG, CONFIG, DATA_LOOP, DATA_STATUS};

verus! {

/// The device driver, owning the bus operator for its whole lifetime.
pub struct ADS1293<Spi: Transport> {
    pub operator: Operator<Spi>,
}

/// A streaming read failed.
#[derive(Debug)]
pub enum StreamError<SpiError> {
    /// The channel-configuration read failed at the transport level; no
    /// field set could be derived.
    ReadConfigError(ReadError<SpiError>),
    /// The streaming exchange failed at the transport level; the attempted
    /// read yields no frame.
    StreamingAbort(ReadError<SpiError>),
    /// The channel-configuration byte read back with its unused high bit
    /// set: a device/protocol inconsistency, carried with the offending
    /// byte.
    InconsistentConfig(u8),
}

impl<Spi: Transport> ADS1293<Spi> {
    /// Wrap a transport in a driver.
    pub fn new(spi: Spi) -> ADS1293<Spi> {
        ADS1293 { operator: Operator::new(spi) }
    }

    /// One self-contained streaming read: read the channel configuration,
    /// derive the enabled field set and the transfer buffer from it, run
    /// one streaming exchange and decode the returned payload.
    ///
    /// Any frame returned is the exact decoding of some payload against
    /// the enabled field set of a well-formed configuration byte; an
    /// `InconsistentConfig` error is returned exactly when the byte read
    /// back has its unused high bit set.
    pub fn stream_one(&mut self) -> (r: Result<Vec<DataRegister>, StreamError<Spi::Error>>)
        ensures
            r matches Ok(frame) ==> exists|config: u8, payload: Seq<u8>|
                {
                    &&& config < 128
                    &&& payload.len() == total_width(enabled_seq(config))
                    &&& frame@ == #[trigger] spec_decode_frame(enabled_seq(config), payload)
                    &&& frame@.len() == enabled_seq(config).len()
                },
            r matches Err(StreamError::InconsistentConfig(c)) ==> c >= 128,
    {
        let config = match self.read(CH_CNFG) {
            Ok(c) => c,
            Err(e) => {
                return Err(StreamError::ReadConfigError(e));
            },
        };
        let fields = match enabled_fields(config.0) {
            Some(f) => f,
            None => {
                return Err(StreamError::InconsistentConfig(config.0));
            },
        };
        proof {
            lemma_enabled_fields(config.0);
        }
        let mut buffer = new_transfer_buffer(&fields);
        match self.operator.stream(DATA_LOOP.get_address(), &mut buffer) {
            Ok(()) => {},
            Err(e) => {
                return Err(StreamError::StreamingAbort(e));
            },
        }
        let frame = decode_frame_at(&fields, &buffer, 1);
        proof {
            assert(buffer@.skip(1).len() == total_width(enabled_seq(config.0)));
            assert(frame@ == spec_decode_frame(enabled_seq(config.0), buffer@.skip(1)));
        }
        Ok(frame)
    }
}

impl<Spi: Transport> Initializer<Application3Lead> for ADS1293<Spi> {
    type SpiError = Spi::Error;

    /// Write the 3-lead application's register values in order, stopping
    /// at the first transport failure; a failure is reported with the
    /// address and data of the write that failed, which is always one of
    /// the sequence's entries.
    fn init(&mut self, _application: Application3Lead) -> (r: Result<
        (),
        InitializeError<Spi::Error>,
    >)
        ensures
            r matches Err(InitializeError::WriteError { source: _, address, data }) ==> exists|
                k: int,
            | 0 <= k < init_sequence_3_lead().len() && init_sequence_3_lead()[k] == (address, data),
    {
        let pairs: Vec<(u8, u8)> = vec![
            (0x01u8, 0x11u8),
            (0x02u8, 0x19u8),
            (0x0Au8, 0x07u8),
            (0x0Cu8, 0x04u8),
            (0x12u8, 0x04u8),
            (0x14u8, 0x24u8),
            (0x21u8, 0x02u8),
            (0x22u8, 0x02u8),
            (0x23u8, 0x02u8),
            (0x27u8, 0x08u8),
            (0x2Fu8, 0x31u8),
            (0x00u8, 0x01u8),
        ];
        proof {
            assert(pairs@ =~= init_sequence_3_lead());
        }
        let mut k: usize = 0;
        while k < pairs.len()
            invariant
                pairs@ =~= init_sequence_3_lead(),
                k <= pairs@.len(),
            decreases pairs@.len() - k,
        {
            let (address, data) = pairs[k];
            match self.operator.write(address, data) {
                Ok(()) => {},
                Err(source) => {
                    return Err(InitializeError::WriteError { source, address, data });
                },
            }
            k = k + 1;
        }
        Ok(())
    }
}

impl<Spi: Transport> ReadFromRegister<CONFIG, MainConfig, Spi::Error> for ADS1293<Spi> {
    fn read(&mut self, register: CONFIG) -> Result<MainConfig, ReadError<Spi::Error>> {
        match self.operator.read(register.get_address()) {
            Ok(data) => Ok(MainConfig(data)),
            Err(e) => Err(e),
        }
    }
}

impl<Spi: Transport> ReadFromRegister<DATA_STATUS, DataStatus, Spi::Error> for ADS1293<Spi> {
    fn read(&mut self, register: DATA_STATUS) -> Result<DataStatus, ReadError<Spi::Error>> {
        match self.operator.read(register.get_address()) {
            Ok(data) => Ok(DataStatus(data)),
            Err(e) => Err(e),
        }
    }
}

impl<Spi: Transport> ReadFromRegister<CH_CNFG, LoopReadBackConfig, Spi::Error> for ADS1293<Spi> {
    fn read(&mut self, register: CH_CNFG) -> Result<LoopReadBackConfig, ReadError<Spi::Error>> {
        match self.operator.read(register.get_address()) {
            Ok(data) => Ok(LoopReadBackConfig(data)),
            Err(e) => Err(e),
        }
    }
}

impl<Spi: Transport> ReadFromRegister<Address, u8, Spi::Error> for ADS1293<Spi> {
    fn read(&mut self, register: Address) -> Result<u8, ReadError<Spi::Error>> {
        self.operator.read(register)
    }
}

} // verus!
