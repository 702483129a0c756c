//! Driver and streaming-session behavior over a scripted bus transport.

use ads1293::driver::{StreamError, ADS1293};
use ads1293::initialization::{Application3Lead, InitializeError, Initializer};
use ads1293::operator::Transport;
use ads1293::registers::access::{ReadFromRegister, WriteError};
use ads1293::registers::data::DataStatus;
use ads1293::registers::{DataRegister, CH_CNFG};
use ads1293::stream_reader::StreamReader;
use std::cell::RefCell;
use std::rc::Rc;

/// Everything a scripted transport was asked to send.
#[derive(Default)]
struct BusLog {
    exchanged: Vec<Vec<u8>>,
    written: Vec<Vec<u8>>,
}

/// A scripted transport: replays a fixed list of exchange outcomes, and
/// records every transaction in a log the test keeps a handle to.
struct ScriptedTransport {
    /// For each expected `exchange` call, either the bytes the device
    /// answers with (they must keep the buffer length) or a transport
    /// error.
    exchanges: Vec<Result<Vec<u8>, u8>>,
    /// For each expected `write_bytes` call, its outcome.
    writes: Vec<Result<(), u8>>,
    log: Rc<RefCell<BusLog>>,
}

impl ScriptedTransport {
    fn new(
        exchanges: Vec<Result<Vec<u8>, u8>>,
        writes: Vec<Result<(), u8>>,
    ) -> (Self, Rc<RefCell<BusLog>>) {
        let log = Rc::new(RefCell::new(BusLog::default()));
        (ScriptedTransport { exchanges, writes, log: Rc::clone(&log) }, log)
    }
}

impl Transport for ScriptedTransport {
    type Error = u8;

    fn write_bytes(&mut self, frame: &Vec<u8>) -> Result<(), u8> {
        self.log.borrow_mut().written.push(frame.clone());
        self.writes.remove(0)
    }

    fn exchange(&mut self, buffer: &mut Vec<u8>) -> Result<(), u8> {
        self.log.borrow_mut().exchanged.push(buffer.clone());
        match self.exchanges.remove(0) {
            Ok(reply) => {
                assert_eq!(reply.len(), buffer.len(), "scripted reply must keep the length");
                *buffer = reply;
                Ok(())
            }
            Err(e) => Err(e),
        }
    }
}

fn driver_with(
    exchanges: Vec<Result<Vec<u8>, u8>>,
) -> (ADS1293<ScriptedTransport>, Rc<RefCell<BusLog>>) {
    let (transport, log) = ScriptedTransport::new(exchanges, Vec::new());
    (ADS1293::new(transport), log)
}

#[test]
fn register_read_sends_read_tagged_address() {
    let (mut driver, log) = driver_with(vec![Ok(vec![0x00, 0x42])]);
    let config = driver.read(CH_CNFG).unwrap();
    assert_eq!(config.0, 0x42);
    // the channel-configuration register sits at 0x2F; the command byte
    // carries the read flag, followed by one dummy byte
    assert_eq!(log.borrow().exchanged, vec![vec![0xAF, 0xFF]]);
}

#[test]
fn stream_one_decodes_a_status_and_pace_frame() {
    let (mut driver, _log) = driver_with(vec![
        Ok(vec![0x00, 0x05]),
        Ok(vec![0xFF, 0x02, 0x12, 0x34]),
    ]);
    let frame = driver.stream_one().unwrap();
    assert_eq!(
        frame,
        vec![
            DataRegister::DATA_STATUS(DataStatus(0x02)),
            DataRegister::DATA_CH2_PACE(0x1234),
        ]
    );
}

#[test]
fn stream_one_streams_from_the_loop_address() {
    let (mut driver, log) = driver_with(vec![
        Ok(vec![0x00, 0x01]),
        Ok(vec![0xFF, 0x07]),
    ]);
    let frame = driver.stream_one().unwrap();
    assert_eq!(frame, vec![DataRegister::DATA_STATUS(DataStatus(0x07))]);
    // the streaming exchange sends the read-tagged loop address 0x50
    let log = log.borrow();
    assert_eq!(log.exchanged[1][0], 0xD0);
    assert_eq!(log.exchanged[1].len(), 2);
}

#[test]
fn stream_one_wraps_a_config_read_failure() {
    let (mut driver, _log) = driver_with(vec![Err(7)]);
    let r = driver.stream_one();
    assert!(matches!(r, Err(StreamError::ReadConfigError(_))));
}

#[test]
fn stream_one_rejects_a_high_bit_config() {
    let (mut driver, _log) = driver_with(vec![Ok(vec![0x00, 0x80])]);
    let r = driver.stream_one();
    assert!(matches!(r, Err(StreamError::InconsistentConfig(0x80))));
}

#[test]
fn stream_one_wraps_a_streaming_failure() {
    let (mut driver, _log) = driver_with(vec![Ok(vec![0x00, 0x05]), Err(9)]);
    let r = driver.stream_one();
    assert!(matches!(r, Err(StreamError::StreamingAbort(_))));
}

#[test]
fn failed_config_read_produces_no_session() {
    let (mut driver, _log) = driver_with(vec![Err(3)]);
    let r = StreamReader::new(&mut driver);
    assert!(matches!(r, Err(StreamError::ReadConfigError(_))));
}

#[test]
fn session_survives_a_streaming_failure() {
    let (mut driver, log) = driver_with(vec![
        Ok(vec![0x00, 0x05]),
        Ok(vec![0xFF, 0x02, 0x12, 0x34]),
        Err(11),
        Ok(vec![0xFF, 0x05, 0x43, 0x21]),
    ]);
    let mut reader = StreamReader::new(&mut driver).unwrap();
    assert_eq!(reader.config().0, 0x05);
    assert_eq!(reader.enabled_field_indices(), &vec![0, 2]);

    let first = reader.read(&mut driver).unwrap();
    assert_eq!(
        first,
        vec![
            DataRegister::DATA_STATUS(DataStatus(0x02)),
            DataRegister::DATA_CH2_PACE(0x1234),
        ]
    );

    let aborted = reader.read(&mut driver);
    assert!(matches!(aborted, Err(StreamError::StreamingAbort(_))));

    // the session stays usable: the same field set and buffer serve the
    // next read, and the configuration register is never read again
    let second = reader.read(&mut driver).unwrap();
    assert_eq!(
        second,
        vec![
            DataRegister::DATA_STATUS(DataStatus(0x05)),
            DataRegister::DATA_CH2_PACE(0x4321),
        ]
    );
    let log = log.borrow();
    assert_eq!(log.exchanged.len(), 4);
    assert_eq!(log.exchanged[0], vec![0xAF, 0xFF]);
    for stream in &log.exchanged[1..] {
        assert_eq!(stream[0], 0xD0);
        assert_eq!(stream.len(), 4);
    }
}

#[test]
fn session_rejects_a_high_bit_config() {
    let (mut driver, _log) = driver_with(vec![Ok(vec![0x00, 0xC1])]);
    let r = StreamReader::new(&mut driver);
    assert!(matches!(r, Err(StreamError::InconsistentConfig(0xC1))));
}

#[test]
fn empty_session_decodes_empty_frames() {
    let (mut driver, _log) = driver_with(vec![Ok(vec![0x00, 0x00]), Ok(vec![0xFF])]);
    let mut reader = StreamReader::new(&mut driver).unwrap();
    assert_eq!(reader.enabled_field_indices().len(), 0);
    let frame = reader.read(&mut driver).unwrap();
    assert_eq!(frame.len(), 0);
}

#[test]
fn init_writes_the_whole_sequence_in_order() {
    let (transport, log) = ScriptedTransport::new(Vec::new(), vec![Ok(()); 12]);
    let mut driver = ADS1293::new(transport);
    driver.init(Application3Lead).unwrap();
    let expected: Vec<Vec<u8>> = vec![
        vec![0x01, 0x11],
        vec![0x02, 0x19],
        vec![0x0A, 0x07],
        vec![0x0C, 0x04],
        vec![0x12, 0x04],
        vec![0x14, 0x24],
        vec![0x21, 0x02],
        vec![0x22, 0x02],
        vec![0x23, 0x02],
        vec![0x27, 0x08],
        vec![0x2F, 0x31],
        vec![0x00, 0x01],
    ];
    assert_eq!(log.borrow().written, expected);
}

#[test]
fn init_reports_the_failing_write() {
    let mut writes = vec![Ok(()); 12];
    writes[4] = Err(5);
    let (transport, log) = ScriptedTransport::new(Vec::new(), writes);
    let mut driver = ADS1293::new(transport);
    let r = driver.init(Application3Lead);
    match r {
        Err(InitializeError::WriteError { source: WriteError::SpiTransferError(e), address, data }) => {
            assert_eq!(e, 5);
            assert_eq!(address, 0x12);
            assert_eq!(data, 0x04);
        }
        _ => panic!("expected the fifth write to fail"),
    }
    // writes stop at the failure
    assert_eq!(log.borrow().written.len(), 5);
}
