//! Contract of an I2C backend.

use vstd::prelude::*;

verus! {

/// Status of an operation that did not succeed.
#[derive(Debug, Clone, Copy, PartialEq, Eq, Structural)]
pub enum ResponseCode {
    ServerError,
    BufferTooSmall,
    BufferTooLarge,
    NoDevice,
    Timeout,
    ArbitrationLost,
    Busy,
    InvalidAddress,
    InvalidBus,
    BusStuck,
    IoError,
}

/// What happened to a bus in slave mode.
#[derive(Debug, Clone, Copy, PartialEq, Eq, Structural)]
pub enum SlaveEventKind {
    DataReceived,
    ReadRequest,
    Stop,
}

/// One call of a backend. `buf` is what an output buffer held before the call.
pub enum I2cCall {
    Write { bus: u8, addr: u8, data: Seq<u8> },
    Read { bus: u8, addr: u8, buf: Seq<u8> },
    WriteRead { bus: u8, addr: u8, data: Seq<u8>, buf: Seq<u8> },
    Probe { bus: u8, addr: u8 },
    ConfigureSpeed { bus: u8, hz: u32 },
    RecoverBus { bus: u8 },
    ConfigureSlave { bus: u8, addr: u8 },
    EnableSlave { bus: u8 },
    DisableSlave { bus: u8 },
    SlaveReceive { bus: u8, buf: Seq<u8> },
    SlaveWaitEvent { bus: u8, buf: Seq<u8> },
    SlaveSetResponse { bus: u8, data: Seq<u8> },
    EnableSlaveNotification { bus: u8 },
    DisableSlaveNotification { bus: u8 },
    DrainSlaveRx { bus: u8 },
}

/// Outcome of a call: what it reports, and the output buffer as it left it.
pub struct I2cOutcome {
    /// How many bytes of the output the call produced, or why it failed.
    pub result: Result<usize, ResponseCode>,
    /// The slave event, for a call that waits for one.
    pub event: Option<SlaveEventKind>,
    pub buf: Seq<u8>,
}

impl I2cOutcome {
    /// The outcome of a call without output.
    pub open spec fn plain(r: Result<(), ResponseCode>) -> Self {
        I2cOutcome {
            result: match r {
                Ok(_) => Ok(0),
                Err(code) => Err(code),
            },
            event: None,
            buf: Seq::empty(),
        }
    }

    /// The outcome of a call that fills its output buffer or fails.
    pub open spec fn filled(r: Result<(), ResponseCode>, buf: Seq<u8>) -> Self {
        I2cOutcome {
            result: match r {
                Ok(_) => Ok(buf.len() as usize),
                Err(code) => Err(code),
            },
            event: None,
            buf,
        }
    }

    /// The outcome of a call that reports how many bytes it produced.
    pub open spec fn counted(r: Result<usize, ResponseCode>, buf: Seq<u8>) -> Self {
        I2cOutcome { result: r, event: None, buf }
    }

    /// The outcome of a wait for a slave event.
    pub open spec fn waited(
        r: Result<(SlaveEventKind, usize), ResponseCode>,
        buf: Seq<u8>,
    ) -> Self {
        match r {
            Ok((kind, n)) => I2cOutcome { result: Ok(n), event: Some(kind), buf },
            Err(code) => I2cOutcome { result: Err(code), event: None, buf },
        }
    }
}

impl I2cCall {
    /// Whether an outcome has the shape of this call: a call that fills a buffer
    /// and succeeds produces as many bytes as were asked for, one that reports a
    /// number of bytes reports no more than the buffer holds, a slave event comes
    /// from a wait for one alone, and a call without output produces nothing. An
    /// output buffer keeps its size.
    pub open spec fn admits(self, outcome: I2cOutcome) -> bool {
        match self {
            I2cCall::Read { buf, .. } | I2cCall::WriteRead { buf, .. } => {
                &&& outcome.event is None
                &&& outcome.buf.len() == buf.len()
                &&& outcome.result matches Ok(n) ==> n == buf.len()
            },
            I2cCall::SlaveReceive { buf, .. } => {
                &&& outcome.event is None
                &&& outcome.buf.len() == buf.len()
                &&& outcome.result matches Ok(n) ==> n <= buf.len()
            },
            I2cCall::SlaveWaitEvent { buf, .. } => {
                &&& outcome.event is Some <==> outcome.result is Ok
                &&& outcome.buf.len() == buf.len()
                &&& outcome.result matches Ok(n) ==> n <= buf.len()
            },
            I2cCall::DrainSlaveRx { .. } => outcome.event is None && outcome.buf.len() == 0,
            _ => {
                &&& outcome.event is None
                &&& outcome.buf.len() == 0
                &&& outcome.result matches Ok(n) ==> n == 0
            },
        }
    }
}

/// Backend contract: one implementation per platform.
///
/// An implementation says by the spec predicate what its methods may do; one
/// that leaves it out says nothing of them. A method that reports a number of
/// bytes reports no more than its output buffer holds.
pub trait I2cBackend: Sized {
    /// Whether a call may take `pre` to `post` with the outcome `outcome`.
    open spec fn serves(pre: Self, post: Self, call: I2cCall, outcome: I2cOutcome) -> bool {
        true
    }

    /// Write `data` to `addr` on `bus`.
    fn write(&mut self, bus: u8, addr: u8, data: &[u8]) -> (r: Result<(), ResponseCode>)
        ensures
            Self::serves(
                *old(self),
                *final(self),
                (I2cCall::Write { bus, addr, data: data@ }),
                I2cOutcome::plain(r),
            ),
    ;

    /// Read from `addr` on `bus` until `buf` is full.
    fn read(&mut self, bus: u8, addr: u8, buf: &mut [u8]) -> (r: Result<(), ResponseCode>)
        ensures
            final(buf)@.len() == old(buf)@.len(),
            Self::serves(
                *old(self),
                *final(self),
                (I2cCall::Read { bus, addr, buf: old(buf)@ }),
                I2cOutcome::filled(r, final(buf)@),
            ),
    ;

    /// Write `write_data`, then read until `read_buf` is full, in one transaction.
    fn write_read(&mut self, bus: u8, addr: u8, write_data: &[u8], read_buf: &mut [u8]) -> (r:
        Result<(), ResponseCode>)
        ensures
            final(read_buf)@.len() == old(read_buf)@.len(),
            Self::serves(
                *old(self),
                *final(self),
                (I2cCall::WriteRead { bus, addr, data: write_data@, buf: old(read_buf)@ }),
                I2cOutcome::filled(r, final(read_buf)@),
            ),
    ;

    /// Probe for a device at `addr` on `bus`.
    fn probe(&mut self, bus: u8, addr: u8) -> (r: Result<(), ResponseCode>)
        ensures
            Self::serves(
                *old(self),
                *final(self),
                (I2cCall::Probe { bus, addr }),
                I2cOutcome::plain(r),
            ),
    ;

    /// Set the clock of `bus`.
    fn configure_speed(&mut self, bus: u8, speed_hz: u32) -> (r: Result<(), ResponseCode>)
        ensures
            Self::serves(
                *old(self),
                *final(self),
                (I2cCall::ConfigureSpeed { bus, hz: speed_hz }),
                I2cOutcome::plain(r),
            ),
    ;

    /// Attempt to recover `bus`.
    fn recover_bus(&mut self, bus: u8) -> (r: Result<(), ResponseCode>)
        ensures
            Self::serves(
                *old(self),
                *final(self),
                (I2cCall::RecoverBus { bus }),
                I2cOutcome::plain(r),
            ),
    ;

    /// Make `bus` a slave that answers to `addr`.
    fn configure_slave(&mut self, bus: u8, addr: u8) -> (r: Result<(), ResponseCode>)
        ensures
            Self::serves(
                *old(self),
                *final(self),
                (I2cCall::ConfigureSlave { bus, addr }),
                I2cOutcome::plain(r),
            ),
    ;

    /// Enable slave reception on `bus`.
    fn enable_slave(&mut self, bus: u8) -> (r: Result<(), ResponseCode>)
        ensures
            Self::serves(
                *old(self),
                *final(self),
                (I2cCall::EnableSlave { bus }),
                I2cOutcome::plain(r),
            ),
    ;

    /// Disable slave reception on `bus`.
    fn disable_slave(&mut self, bus: u8) -> (r: Result<(), ResponseCode>)
        ensures
            Self::serves(
                *old(self),
                *final(self),
                (I2cCall::DisableSlave { bus }),
                I2cOutcome::plain(r),
            ),
    ;

    /// Take buffered slave bytes of `bus` into `buf`. Returns how many.
    fn slave_receive(&mut self, bus: u8, buf: &mut [u8]) -> (r: Result<usize, ResponseCode>)
        ensures
            final(buf)@.len() == old(buf)@.len(),
            r matches Ok(n) ==> n <= old(buf)@.len(),
            Self::serves(
                *old(self),
                *final(self),
                (I2cCall::SlaveReceive { bus, buf: old(buf)@ }),
                I2cOutcome::counted(r, final(buf)@),
            ),
    ;

    /// Wait for the next slave event on `bus`. Bytes that came with it go into
    /// `rx_buf`, and their number is returned.
    fn slave_wait_event(&mut self, bus: u8, rx_buf: &mut [u8]) -> (r: Result<
        (SlaveEventKind, usize),
        ResponseCode,
    >)
        ensures
            final(rx_buf)@.len() == old(rx_buf)@.len(),
            r matches Ok((_, n)) ==> n <= old(rx_buf)@.len(),
            Self::serves(
                *old(self),
                *final(self),
                (I2cCall::SlaveWaitEvent { bus, buf: old(rx_buf)@ }),
                I2cOutcome::waited(r, final(rx_buf)@),
            ),
    ;

    /// Load `data` as the answer to the next read by a master on `bus`.
    fn slave_set_response(&mut self, bus: u8, data: &[u8]) -> (r: Result<(), ResponseCode>)
        ensures
            Self::serves(
                *old(self),
                *final(self),
                (I2cCall::SlaveSetResponse { bus, data: data@ }),
                I2cOutcome::plain(r),
            ),
    ;

    /// Arm reception notifications on `bus`.
    fn enable_slave_notification(&mut self, bus: u8) -> (r: Result<(), ResponseCode>)
        ensures
            Self::serves(
                *old(self),
                *final(self),
                (I2cCall::EnableSlaveNotification { bus }),
                I2cOutcome::plain(r),
            ),
    ;

    /// Disarm reception notifications on `bus`.
    fn disable_slave_notification(&mut self, bus: u8) -> (r: Result<(), ResponseCode>)
        ensures
            Self::serves(
                *old(self),
                *final(self),
                (I2cCall::DisableSlaveNotification { bus }),
                I2cOutcome::plain(r),
            ),
    ;

    /// Move received bytes of `bus` into the buffer of the backend. Returns how
    /// many are buffered.
    fn drain_slave_rx(&mut self, bus: u8) -> (r: Result<usize, ResponseCode>)
        ensures
            Self::serves(
                *old(self),
                *final(self),
                (I2cCall::DrainSlaveRx { bus }),
                I2cOutcome::counted(r, Seq::empty()),
            ),
    ;
}

/// An outcome reports what the call returned: a failure keeps its code, whatever the
/// call; a success counts no bytes, the whole buffer or as many as were reported; and a
/// slave event comes with a wait alone.
pub proof fn outcomes_report_what_was_returned(
    r: Result<(), ResponseCode>,
    counted: Result<usize, ResponseCode>,
    waited: Result<(SlaveEventKind, usize), ResponseCode>,
    buf: Seq<u8>,
    code: ResponseCode,
    kind: SlaveEventKind,
    n: usize,
)
    requires
        buf.len() <= usize::MAX,
    ensures
        r is Ok ==> I2cOutcome::plain(r).result == Ok::<usize, ResponseCode>(0),
        r == Err::<(), ResponseCode>(code) ==> I2cOutcome::plain(r).result == Err::<
            usize,
            ResponseCode,
        >(code),
        I2cOutcome::plain(r).buf.len() == 0 && I2cOutcome::plain(r).event is None,
        I2cOutcome::filled(r, buf).result is Ok <==> r is Ok,
        I2cOutcome::filled(r, buf).result matches Ok(k) ==> k == buf.len(),
        r == Err::<(), ResponseCode>(code) ==> I2cOutcome::filled(r, buf).result == Err::<
            usize,
            ResponseCode,
        >(code),
        I2cOutcome::filled(r, buf).buf == buf && I2cOutcome::filled(r, buf).event is None,
        I2cOutcome::counted(counted, buf).result == counted,
        I2cOutcome::counted(counted, buf).buf == buf && I2cOutcome::counted(
            counted,
            buf,
        ).event is None,
        waited == Ok::<(SlaveEventKind, usize), ResponseCode>((kind, n)) ==> I2cOutcome::waited(
            waited,
            buf,
        ).result == Ok::<usize, ResponseCode>(n) && I2cOutcome::waited(waited, buf).event == Some(
            kind,
        ),
        waited == Err::<(SlaveEventKind, usize), ResponseCode>(code) ==> I2cOutcome::waited(
            waited,
            buf,
        ).result == Err::<usize, ResponseCode>(code),
        I2cOutcome::waited(waited, buf).buf == buf,
{
}

} // verus!
