//! The I2C dispatcher over the mock backend.

use openprot::i2c::backend::{I2cBackend, ResponseCode, SlaveEventKind};
use openprot::i2c::mock::{Backend, LastCall, MockI2cBackend, RX_PROGRAM_LEN, SLAVE_TX_LEN};
use openprot::i2c::server::{dispatch_request, I2cOp, I2cReply, I2cRequestHeader};

fn header(op: I2cOp, write_len: u16, read_len: u16) -> Option<I2cRequestHeader> {
    Some(I2cRequestHeader {
        op: Some(op),
        bus: 2,
        address: 0x50,
        write_len,
        read_len,
    })
}

#[test]
fn undecoded_requests_are_server_errors() {
    let mut mock = MockI2cBackend::new();
    let mut body = [0u8; 4];
    assert_eq!(
        dispatch_request(&mut mock, None, &[], &mut body),
        I2cReply::Error(ResponseCode::ServerError)
    );
    let unknown = Some(I2cRequestHeader {
        op: None,
        bus: 0,
        address: 0,
        write_len: 0,
        read_len: 0,
    });
    assert_eq!(
        dispatch_request(&mut mock, unknown, &[], &mut body),
        I2cReply::Error(ResponseCode::ServerError)
    );
    assert_eq!(
        dispatch_request(&mut mock, header(I2cOp::Transaction, 0, 0), &[], &mut body),
        I2cReply::Error(ResponseCode::ServerError)
    );
    assert_eq!(mock.last_call, LastCall::NoCall);
}

#[test]
fn writes_pass_the_announced_bytes() {
    let mut mock = MockI2cBackend::default();
    let mut body = [0u8; 4];
    assert_eq!(
        dispatch_request(&mut mock, header(I2cOp::Write, 2, 0), &[1, 2, 3], &mut body),
        I2cReply::Data(0)
    );
    assert_eq!(
        mock.last_call,
        LastCall::Write {
            bus: 2,
            addr: 0x50,
            len: 2
        }
    );
    assert_eq!(
        dispatch_request(&mut mock, header(I2cOp::Write, 4, 0), &[1, 2, 3], &mut body),
        I2cReply::Error(ResponseCode::BufferTooSmall)
    );
}

#[test]
fn reads_replay_the_program_and_zeros() {
    let mut mock = Backend::new();
    mock.program_rx(&[7, 8, 9]);
    let mut body = [0xFFu8; 6];
    assert_eq!(
        dispatch_request(&mut mock, header(I2cOp::Read, 0, 5), &[], &mut body),
        I2cReply::Data(5)
    );
    assert_eq!(body, [7, 8, 9, 0, 0, 0xFF]);
    assert_eq!(
        mock.last_call,
        LastCall::Read {
            bus: 2,
            addr: 0x50,
            len: 5
        }
    );
    assert_eq!(
        dispatch_request(&mut mock, header(I2cOp::Read, 0, 7), &[], &mut body),
        I2cReply::Error(ResponseCode::BufferTooLarge)
    );
}

#[test]
fn combined_transactions() {
    let mut mock = MockI2cBackend::new();
    mock.program_rx(&[1, 2, 3]);
    let mut body = [0u8; 2];
    assert_eq!(
        dispatch_request(&mut mock, header(I2cOp::WriteRead, 1, 2), &[5], &mut body),
        I2cReply::Data(2)
    );
    assert_eq!(body, [1, 2]);
    assert_eq!(
        mock.last_call,
        LastCall::WriteRead {
            bus: 2,
            addr: 0x50,
            write_len: 1,
            read_len: 2
        }
    );
    assert_eq!(
        dispatch_request(&mut mock, header(I2cOp::WriteRead, 2, 3), &[5], &mut body),
        I2cReply::Error(ResponseCode::BufferTooSmall)
    );
    assert_eq!(
        dispatch_request(&mut mock, header(I2cOp::WriteRead, 1, 3), &[5], &mut body),
        I2cReply::Error(ResponseCode::BufferTooLarge)
    );
}

#[test]
fn the_length_fields_carry_the_speed() {
    let mut mock = MockI2cBackend::new();
    let hz: u32 = 400_000;
    assert_eq!(
        dispatch_request(
            &mut mock,
            header(I2cOp::ConfigureSpeed, (hz >> 16) as u16, hz as u16),
            &[],
            &mut []
        ),
        I2cReply::Data(0)
    );
    assert_eq!(mock.last_call, LastCall::ConfigureSpeed { bus: 2, hz });
}

#[test]
fn plain_operations_reach_the_backend() {
    let mut mock = MockI2cBackend::new();
    assert_eq!(
        dispatch_request(&mut mock, header(I2cOp::Probe, 0, 0), &[], &mut []),
        I2cReply::Data(0)
    );
    assert_eq!(mock.last_call, LastCall::Probe { bus: 2, addr: 0x50 });
    assert_eq!(
        dispatch_request(&mut mock, header(I2cOp::RecoverBus, 0, 0), &[], &mut []),
        I2cReply::Data(0)
    );
    assert_eq!(mock.last_call, LastCall::Recover { bus: 2 });
    for op in [I2cOp::ConfigureSlave, I2cOp::EnableSlave, I2cOp::DisableSlave] {
        assert_eq!(
            dispatch_request(&mut mock, header(op, 0, 0), &[], &mut []),
            I2cReply::Data(0)
        );
    }
    assert_eq!(
        dispatch_request(
            &mut mock,
            header(I2cOp::EnableSlaveNotification, 0, 0),
            &[],
            &mut []
        ),
        I2cReply::Data(0)
    );
    assert!(mock.notification_enabled);
    dispatch_request(
        &mut mock,
        header(I2cOp::DisableSlaveNotification, 0, 0),
        &[],
        &mut [],
    );
    assert!(!mock.notification_enabled);
}

#[test]
fn a_slave_response_comes_back_as_slave_input() {
    let mut mock = MockI2cBackend::new();
    let mut body = [0xEEu8; 8];
    assert_eq!(
        dispatch_request(
            &mut mock,
            header(I2cOp::SlaveSetResponse, 3, 0),
            &[4, 5, 6],
            &mut body
        ),
        I2cReply::Data(0)
    );
    assert_eq!(
        dispatch_request(
            &mut mock,
            header(I2cOp::SlaveSetResponse, 4, 0),
            &[4, 5, 6],
            &mut body
        ),
        I2cReply::Error(ResponseCode::BufferTooSmall)
    );
    assert_eq!(
        dispatch_request(&mut mock, header(I2cOp::SlaveReceive, 0, 8), &[], &mut body),
        I2cReply::Data(3)
    );
    assert_eq!(body[..4], [4, 5, 6, 0xEE]);
    assert_eq!(
        dispatch_request(&mut mock, header(I2cOp::SlaveReceive, 0, 9), &[], &mut body),
        I2cReply::Error(ResponseCode::BufferTooLarge)
    );
    assert_eq!(mock.drain_slave_rx(0), Ok(3));
}

#[test]
fn slave_events_leave_room_for_their_kind() {
    let mut mock = MockI2cBackend::new();
    mock.slave_set_response(0, &[1, 2, 3, 4]).unwrap();
    let mut body = [0xEEu8; 4];
    let reply = dispatch_request(&mut mock, header(I2cOp::SlaveWaitEvent, 0, 100), &[], &mut body);
    assert_eq!(reply, I2cReply::Event(SlaveEventKind::DataReceived, 3));
    assert_eq!(reply.body_len(), 4);
    assert_eq!(reply.announced_len(), 4);
    assert_eq!(body, [0xEE, 1, 2, 3]);
    let reply = dispatch_request(&mut mock, header(I2cOp::SlaveWaitEvent, 0, 2), &[], &mut body);
    assert_eq!(reply, I2cReply::Event(SlaveEventKind::DataReceived, 2));
    let mut one = [0u8; 1];
    let reply = dispatch_request(&mut mock, header(I2cOp::SlaveWaitEvent, 0, 9), &[], &mut one);
    assert_eq!(reply, I2cReply::Event(SlaveEventKind::DataReceived, 0));
}

#[test]
fn reply_sizes() {
    assert_eq!(I2cReply::Error(ResponseCode::Busy).body_len(), 0);
    assert_eq!(I2cReply::Data(9).body_len(), 9);
    assert_eq!(I2cReply::Data(65537).announced_len(), 1);
}

#[test]
fn the_mock_keeps_what_fits() {
    let mut mock = MockI2cBackend::new();
    mock.program_rx(&[3; 100]);
    assert_eq!(mock.rx_program_len, RX_PROGRAM_LEN);
    mock.slave_set_response(0, &[4; 100]).unwrap();
    assert_eq!(mock.slave_tx_len, SLAVE_TX_LEN);
    assert_eq!(mock.drain_slave_rx(0), Ok(SLAVE_TX_LEN));
    let mut buf = [1u8; 70];
    mock.read(0, 0, &mut buf).unwrap();
    assert_eq!(buf[..64], [3; 64]);
    assert_eq!(buf[64..], [0; 6]);
    mock.program_rx(&[9]);
    mock.read(0, 0, &mut buf[..2]).unwrap();
    assert_eq!(buf[..3], [9, 0, 3]);
}

/// A backend on which everything fails.
struct Broken;

impl I2cBackend for Broken {
    fn write(&mut self, _b: u8, _a: u8, _d: &[u8]) -> Result<(), ResponseCode> {
        Err(ResponseCode::NoDevice)
    }
    fn read(&mut self, _b: u8, _a: u8, _d: &mut [u8]) -> Result<(), ResponseCode> {
        Err(ResponseCode::Timeout)
    }
    fn write_read(
        &mut self,
        _b: u8,
        _a: u8,
        _w: &[u8],
        _r: &mut [u8],
    ) -> Result<(), ResponseCode> {
        Err(ResponseCode::ArbitrationLost)
    }
    fn probe(&mut self, _b: u8, _a: u8) -> Result<(), ResponseCode> {
        Err(ResponseCode::InvalidAddress)
    }
    fn configure_speed(&mut self, _b: u8, _s: u32) -> Result<(), ResponseCode> {
        Err(ResponseCode::Busy)
    }
    fn recover_bus(&mut self, _b: u8) -> Result<(), ResponseCode> {
        Err(ResponseCode::BusStuck)
    }
    fn configure_slave(&mut self, _b: u8, _a: u8) -> Result<(), ResponseCode> {
        Err(ResponseCode::InvalidBus)
    }
    fn enable_slave(&mut self, _b: u8) -> Result<(), ResponseCode> {
        Err(ResponseCode::IoError)
    }
    fn disable_slave(&mut self, _b: u8) -> Result<(), ResponseCode> {
        Err(ResponseCode::IoError)
    }
    fn slave_receive(&mut self, _b: u8, _d: &mut [u8]) -> Result<usize, ResponseCode> {
        Err(ResponseCode::Timeout)
    }
    fn slave_wait_event(
        &mut self,
        _b: u8,
        _d: &mut [u8],
    ) -> Result<(SlaveEventKind, usize), ResponseCode> {
        Err(ResponseCode::Timeout)
    }
    fn slave_set_response(&mut self, _b: u8, _d: &[u8]) -> Result<(), ResponseCode> {
        Err(ResponseCode::Busy)
    }
    fn enable_slave_notification(&mut self, _b: u8) -> Result<(), ResponseCode> {
        Err(ResponseCode::InvalidBus)
    }
    fn disable_slave_notification(&mut self, _b: u8) -> Result<(), ResponseCode> {
        Err(ResponseCode::InvalidBus)
    }
    fn drain_slave_rx(&mut self, _b: u8) -> Result<usize, ResponseCode> {
        Err(ResponseCode::InvalidBus)
    }
}

#[test]
fn backend_failures_are_replies() {
    let cases = [
        (I2cOp::Write, ResponseCode::NoDevice),
        (I2cOp::Read, ResponseCode::Timeout),
        (I2cOp::WriteRead, ResponseCode::ArbitrationLost),
        (I2cOp::Probe, ResponseCode::InvalidAddress),
        (I2cOp::ConfigureSpeed, ResponseCode::Busy),
        (I2cOp::RecoverBus, ResponseCode::BusStuck),
        (I2cOp::ConfigureSlave, ResponseCode::InvalidBus),
        (I2cOp::EnableSlave, ResponseCode::IoError),
        (I2cOp::DisableSlave, ResponseCode::IoError),
        (I2cOp::SlaveReceive, ResponseCode::Timeout),
        (I2cOp::SlaveWaitEvent, ResponseCode::Timeout),
        (I2cOp::SlaveSetResponse, ResponseCode::Busy),
        (I2cOp::EnableSlaveNotification, ResponseCode::InvalidBus),
        (I2cOp::DisableSlaveNotification, ResponseCode::InvalidBus),
    ];
    for (op, code) in cases {
        let mut body = [0u8; 2];
        assert_eq!(
            dispatch_request(&mut Broken, header(op, 1, 1), &[0], &mut body),
            I2cReply::Error(code)
        );
    }
}
