//! The flash dispatcher over a small part.

use openprot::flash::{
    dispatch_request, DispatchOutcome, FlashBackend, FlashFailure, FlashInfo, FlashOp, FlashReply,
    FlashRequestHeader, MAX_REQUEST_SIZE, MAX_RESPONSE_SIZE,
};

struct Part {
    bytes: Vec<u8>,
    fail: bool,
}

impl FlashBackend for Part {
    type Error = &'static str;

    fn info(&mut self) -> FlashInfo {
        FlashInfo {
            capacity: self.bytes.len() as u32,
            chunk_size: 16,
        }
    }

    fn read(&mut self, address: u32, buf: &mut [u8]) -> Result<usize, &'static str> {
        if self.fail {
            return Err("busy");
        }
        let from = address as usize;
        let n = buf.len().min(self.bytes.len() - from);
        buf[..n].copy_from_slice(&self.bytes[from..from + n]);
        Ok(n)
    }

    fn write(&mut self, address: u32, data: &[u8]) -> Result<usize, &'static str> {
        if self.fail {
            return Err("locked");
        }
        let at = address as usize;
        self.bytes[at..at + data.len()].copy_from_slice(data);
        Ok(data.len())
    }

    fn erase(&mut self, address: u32, length: u32) -> Result<(), &'static str> {
        if self.fail {
            return Err("worn");
        }
        for b in &mut self.bytes[address as usize..(address + length) as usize] {
            *b = 0xFF;
        }
        Ok(())
    }
}

fn part() -> Part {
    Part {
        bytes: (0..64).collect(),
        fail: false,
    }
}

fn header(op: FlashOp, payload_len: usize, address: u32, length: u32) -> Option<FlashRequestHeader> {
    Some(FlashRequestHeader {
        op: Some(op),
        payload_len,
        address,
        length,
    })
}

fn run(
    part: &mut Part,
    header: Option<FlashRequestHeader>,
    rest: &[u8],
    body: &mut [u8],
) -> FlashReply<&'static str> {
    match dispatch_request(part, header, rest, body) {
        DispatchOutcome::Respond(reply) => reply,
    }
}

fn value(value: u32) -> FlashReply<&'static str> {
    FlashReply::Success {
        value,
        payload_len: 0,
    }
}

#[test]
fn queries() {
    let mut p = part();
    assert_eq!(run(&mut p, header(FlashOp::Exists, 0, 0, 0), &[], &mut []), value(0));
    assert_eq!(
        run(&mut p, header(FlashOp::GetCapacity, 0, 0, 0), &[], &mut []),
        value(64)
    );
    assert_eq!(
        run(&mut p, header(FlashOp::GetChunkSize, 0, 0, 0), &[], &mut []),
        value(16)
    );
    assert_eq!((MAX_REQUEST_SIZE, MAX_RESPONSE_SIZE), (512, 512));
}

#[test]
fn reads_fill_the_body() {
    let mut p = part();
    let mut body = [0xEEu8; 4];
    assert_eq!(
        run(&mut p, header(FlashOp::Read, 0, 8, 3), &[], &mut body),
        FlashReply::Success {
            value: 3,
            payload_len: 3
        }
    );
    assert_eq!(body, [8, 9, 10, 0xEE]);
    // A read is cut to the body.
    assert_eq!(
        run(&mut p, header(FlashOp::Read, 0, 8, 9), &[], &mut body),
        FlashReply::Success {
            value: 4,
            payload_len: 4
        }
    );
    // The part may have less.
    assert_eq!(
        run(&mut p, header(FlashOp::Read, 0, 62, 4), &[], &mut body),
        FlashReply::Success {
            value: 2,
            payload_len: 2
        }
    );
    assert_eq!(body, [62, 63, 10, 11]);
}

#[test]
fn reads_are_cut_to_what_a_reply_can_announce() {
    let mut p = Part {
        bytes: vec![5; 70_000],
        fail: false,
    };
    let mut body = vec![0u8; 70_000];
    assert_eq!(
        run(&mut p, header(FlashOp::Read, 0, 0, u32::MAX), &[], &mut body),
        FlashReply::Success {
            value: 65_535,
            payload_len: 65_535
        }
    );
    assert_eq!(body[65_534], 5);
    assert_eq!(body[65_535], 0);
}

#[test]
fn writes_and_erases() {
    let mut p = part();
    assert_eq!(
        run(&mut p, header(FlashOp::Write, 2, 4, 2), &[0xAA, 0xBB, 0xCC], &mut []),
        value(2)
    );
    assert_eq!(p.bytes[3..7], [3, 0xAA, 0xBB, 6]);
    assert_eq!(
        run(&mut p, header(FlashOp::Write, 2, 4, 3), &[1, 2, 3], &mut []),
        FlashReply::Error(FlashFailure::InvalidLength)
    );
    assert_eq!(
        run(&mut p, header(FlashOp::Erase, 0, 0, 4), &[], &mut []),
        value(4)
    );
    assert_eq!(p.bytes[..5], [0xFF, 0xFF, 0xFF, 0xFF, 0xAA]);
}

#[test]
fn malformed_requests() {
    let mut p = part();
    assert_eq!(
        run(&mut p, None, &[], &mut []),
        FlashReply::Error(FlashFailure::InvalidOperation)
    );
    assert_eq!(
        run(&mut p, header(FlashOp::Exists, 1, 0, 0), &[], &mut []),
        FlashReply::Error(FlashFailure::InvalidOperation)
    );
    let unknown = Some(FlashRequestHeader {
        op: None,
        payload_len: 9,
        address: 0,
        length: 0,
    });
    assert_eq!(
        run(&mut p, unknown, &[], &mut []),
        FlashReply::Error(FlashFailure::UnknownOperation)
    );
    assert_eq!(p.bytes, part().bytes);
}

#[test]
fn backend_failures_are_passed_on() {
    let mut p = part();
    p.fail = true;
    let mut body = [0u8; 4];
    assert_eq!(
        run(&mut p, header(FlashOp::Read, 0, 0, 1), &[], &mut body),
        FlashReply::Error(FlashFailure::Backend("busy"))
    );
    assert_eq!(
        run(&mut p, header(FlashOp::Write, 0, 0, 0), &[], &mut body),
        FlashReply::Error(FlashFailure::Backend("locked"))
    );
    assert_eq!(
        run(&mut p, header(FlashOp::Erase, 0, 0, 1), &[], &mut body),
        FlashReply::Error(FlashFailure::Backend("worn"))
    );
}
