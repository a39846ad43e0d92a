//! Inspectable I2C backend without hardware.
//!
//! It records the last controller call, replays a programmed byte sequence on
//! reads, and hands the last slave response back as slave input.

use crate::bytes;
use crate::i2c::backend::{I2cBackend, I2cCall, I2cOutcome, ResponseCode, SlaveEventKind};
use vstd::prelude::*;

verus! {

/// The backend under the name by which a server takes it.
pub type Backend = MockI2cBackend;

/// Size of the read program.
pub const RX_PROGRAM_LEN: usize = 64;

/// Size of the slave response.
pub const SLAVE_TX_LEN: usize = 32;

/// Last controller call.
#[derive(Debug, Clone, Copy, PartialEq, Eq, Structural)]
pub enum LastCall {
    NoCall,
    Write { bus: u8, addr: u8, len: usize },
    Read { bus: u8, addr: u8, len: usize },
    WriteRead { bus: u8, addr: u8, write_len: usize, read_len: usize },
    Probe { bus: u8, addr: u8 },
    ConfigureSpeed { bus: u8, hz: u32 },
    Recover { bus: u8 },
}

/// The mock backend.
pub struct MockI2cBackend {
    /// The last controller call.
    pub last_call: LastCall,
    /// What reads hand back.
    pub rx_program: [u8; 64],
    pub rx_program_len: usize,
    /// The last slave response.
    pub slave_tx: [u8; 32],
    pub slave_tx_len: usize,
    /// Whether notifications are armed.
    pub notification_enabled: bool,
}

/// What a [`MockI2cBackend`] holds.
pub struct MockView {
    pub last_call: LastCall,
    pub rx: Seq<u8>,
    pub rx_len: usize,
    pub tx: Seq<u8>,
    pub tx_len: usize,
    pub notification_enabled: bool,
}

impl View for MockI2cBackend {
    type V = MockView;

    open spec fn view(&self) -> MockView {
        MockView {
            last_call: self.last_call,
            rx: self.rx_program@,
            rx_len: self.rx_program_len,
            tx: self.slave_tx@,
            tx_len: self.slave_tx_len,
            notification_enabled: self.notification_enabled,
        }
    }
}

impl MockView {
    /// Whether the recorded sizes lie within their buffers.
    pub open spec fn wf(self) -> bool {
        self.rx_len <= RX_PROGRAM_LEN && self.tx_len <= SLAVE_TX_LEN
    }

    /// Whether nothing was called, programmed or armed yet.
    pub open spec fn fresh(self) -> bool {
        &&& self.last_call == LastCall::NoCall
        &&& self.rx =~= Seq::new(64, |i: int| 0u8)
        &&& self.rx_len == 0
        &&& self.tx =~= Seq::new(32, |i: int| 0u8)
        &&& self.tx_len == 0
        &&& !self.notification_enabled
    }

    /// How many of `len` bytes are replayed from a store of `held` bytes.
    pub open spec fn replayed(len: nat, held: usize, store: nat) -> nat {
        if len <= held && len <= store {
            len
        } else if held <= store {
            held as nat
        } else {
            store
        }
    }

    /// The buffer that a read leaves: the program, then zeros.
    pub open spec fn read_back(self, len: nat) -> Seq<u8> {
        let n = MockView::replayed(len, self.rx_len, self.rx.len());
        Seq::new(
            len,
            |i: int|
                if i < n {
                    self.rx[i]
                } else {
                    0
                },
        )
    }

    /// How many bytes of slave input go into a buffer of `len` bytes.
    pub open spec fn slave_count(self, len: nat) -> usize {
        MockView::replayed(len, self.tx_len, self.tx.len()) as usize
    }

    /// The buffer that slave input leaves of `buf`.
    pub open spec fn slave_input(self, buf: Seq<u8>) -> Seq<u8> {
        let n = self.slave_count(buf.len()) as int;
        self.tx.take(n) + buf.skip(n)
    }

    /// What a call leaves behind.
    pub open spec fn after(self, call: I2cCall) -> MockView {
        match call {
            I2cCall::Write { bus, addr, data } => MockView {
                last_call: LastCall::Write { bus, addr, len: data.len() as usize },
                ..self
            },
            I2cCall::Read { bus, addr, buf } => MockView {
                last_call: LastCall::Read { bus, addr, len: buf.len() as usize },
                ..self
            },
            I2cCall::WriteRead { bus, addr, data, buf } => MockView {
                last_call: LastCall::WriteRead {
                    bus,
                    addr,
                    write_len: data.len() as usize,
                    read_len: buf.len() as usize,
                },
                ..self
            },
            I2cCall::Probe { bus, addr } => MockView {
                last_call: LastCall::Probe { bus, addr },
                ..self
            },
            I2cCall::ConfigureSpeed { bus, hz } => MockView {
                last_call: LastCall::ConfigureSpeed { bus, hz },
                ..self
            },
            I2cCall::RecoverBus { bus } => MockView {
                last_call: LastCall::Recover { bus },
                ..self
            },
            I2cCall::SlaveSetResponse { bus, data } => {
                let n = if data.len() <= SLAVE_TX_LEN {
                    data.len() as int
                } else {
                    SLAVE_TX_LEN as int
                };
                MockView {
                    tx: bytes::splice(self.tx, 0, data.take(n)),
                    tx_len: n as usize,
                    ..self
                }
            },
            I2cCall::EnableSlaveNotification { bus } => MockView {
                notification_enabled: true,
                ..self
            },
            I2cCall::DisableSlaveNotification { bus } => MockView {
                notification_enabled: false,
                ..self
            },
            _ => self,
        }
    }

    /// The outcome of a call. No call fails.
    pub open spec fn outcome(self, call: I2cCall) -> I2cOutcome {
        match call {
            I2cCall::Read { buf, .. } | I2cCall::WriteRead { buf, .. } => I2cOutcome::filled(
                Ok(()),
                self.read_back(buf.len()),
            ),
            I2cCall::SlaveReceive { buf, .. } => I2cOutcome::counted(
                Ok(self.slave_count(buf.len())),
                self.slave_input(buf),
            ),
            I2cCall::SlaveWaitEvent { buf, .. } => I2cOutcome::waited(
                Ok((SlaveEventKind::DataReceived, self.slave_count(buf.len()))),
                self.slave_input(buf),
            ),
            I2cCall::DrainSlaveRx { .. } => I2cOutcome::counted(Ok(self.tx_len), Seq::empty()),
            _ => I2cOutcome::plain(Ok(())),
        }
    }
}

impl Default for MockI2cBackend {
    fn default() -> (mock: Self)
        ensures
            mock@.wf(),
            mock@.fresh(),
    {
        MockI2cBackend::new()
    }
}

/// The smaller of two sizes.
fn smaller(a: usize, b: usize) -> (r: usize)
    ensures
        r == (if a <= b {
            a
        } else {
            b
        }),
{
    if a <= b {
        a
    } else {
        b
    }
}

impl MockI2cBackend {
    /// A backend on which nothing was called yet.
    pub fn new() -> (mock: Self)
        ensures
            mock@.wf(),
            mock@.fresh(),
    {
        MockI2cBackend {
            last_call: LastCall::NoCall,
            rx_program: [0u8; 64],
            rx_program_len: 0,
            slave_tx: [0u8; 32],
            slave_tx_len: 0,
            notification_enabled: false,
        }
    }

    /// Load the bytes that reads hand back. What does not fit is dropped.
    pub fn program_rx(&mut self, data: &[u8])
        ensures
            final(self)@ == (MockView {
                rx: bytes::splice(
                    old(self)@.rx,
                    0,
                    data@.take(
                        if data@.len() <= RX_PROGRAM_LEN {
                            data@.len() as int
                        } else {
                            RX_PROGRAM_LEN as int
                        },
                    ),
                ),
                rx_len: if data@.len() <= RX_PROGRAM_LEN {
                    data@.len() as usize
                } else {
                    RX_PROGRAM_LEN
                },
                ..old(self)@
            }),
            old(self)@.wf() ==> final(self)@.wf(),
    {
        let n: usize = smaller(data.len(), RX_PROGRAM_LEN);
        let head: &[u8] = vstd::slice::slice_subrange(data, 0, n);
        bytes::copy_into(&mut self.rx_program, 0, head);
        self.rx_program_len = n;
    }

    /// Fill a read buffer from the program.
    fn replay(&self, buf: &mut [u8])
        ensures
            final(buf)@ == self@.read_back(old(buf)@.len()),
            final(buf)@.len() == old(buf)@.len(),
    {
        let n: usize = smaller(smaller(buf.len(), self.rx_program_len), RX_PROGRAM_LEN);
        let len: usize = buf.len();
        let mut i: usize = 0;
        while i < len
            invariant
                i <= len,
                len == buf@.len(),
                buf@.len() == old(buf)@.len(),
                n <= 64,
                n == MockView::replayed(len as nat, self@.rx_len, self@.rx.len()),
                forall|j: int|
                    0 <= j < i ==> buf@[j] == (if j < n {
                        self@.rx[j]
                    } else {
                        0
                    }),
            decreases len - i,
        {
            buf[i] = if i < n {
                self.rx_program[i]
            } else {
                0
            };
            i += 1;
        }
    }

    /// Hand the slave response back as slave input.
    fn feed(&self, buf: &mut [u8]) -> (n: usize)
        ensures
            final(buf)@ == self@.slave_input(old(buf)@),
            final(buf)@.len() == old(buf)@.len(),
            n == self@.slave_count(old(buf)@.len()),
            n <= old(buf)@.len(),
    {
        let n: usize = smaller(smaller(buf.len(), self.slave_tx_len), SLAVE_TX_LEN);
        let head: &[u8] = vstd::slice::slice_subrange(self.slave_tx.as_slice(), 0, n);
        bytes::copy_into(buf, 0, head);
        n
    }
}

impl I2cBackend for MockI2cBackend {
    open spec fn serves(pre: Self, post: Self, call: I2cCall, outcome: I2cOutcome) -> bool {
        post@ == pre@.after(call) && outcome == pre@.outcome(call)
    }

    fn write(&mut self, bus: u8, addr: u8, data: &[u8]) -> (r: Result<(), ResponseCode>) {
        self.last_call = LastCall::Write { bus, addr, len: data.len() };
        Ok(())
    }

    fn read(&mut self, bus: u8, addr: u8, buf: &mut [u8]) -> (r: Result<(), ResponseCode>) {
        self.last_call = LastCall::Read { bus, addr, len: buf.len() };
        self.replay(buf);
        Ok(())
    }

    fn write_read(&mut self, bus: u8, addr: u8, write_data: &[u8], read_buf: &mut [u8]) -> (r:
        Result<(), ResponseCode>) {
        self.last_call = LastCall::WriteRead {
            bus,
            addr,
            write_len: write_data.len(),
            read_len: read_buf.len(),
        };
        self.replay(read_buf);
        Ok(())
    }

    fn probe(&mut self, bus: u8, addr: u8) -> (r: Result<(), ResponseCode>) {
        self.last_call = LastCall::Probe { bus, addr };
        Ok(())
    }

    fn configure_speed(&mut self, bus: u8, speed_hz: u32) -> (r: Result<(), ResponseCode>) {
        self.last_call = LastCall::ConfigureSpeed { bus, hz: speed_hz };
        Ok(())
    }

    fn recover_bus(&mut self, bus: u8) -> (r: Result<(), ResponseCode>) {
        self.last_call = LastCall::Recover { bus };
        Ok(())
    }

    fn configure_slave(&mut self, _bus: u8, _addr: u8) -> (r: Result<(), ResponseCode>) {
        Ok(())
    }

    fn enable_slave(&mut self, _bus: u8) -> (r: Result<(), ResponseCode>) {
        Ok(())
    }

    fn disable_slave(&mut self, _bus: u8) -> (r: Result<(), ResponseCode>) {
        Ok(())
    }

    fn slave_receive(&mut self, _bus: u8, buf: &mut [u8]) -> (r: Result<usize, ResponseCode>) {
        Ok(self.feed(buf))
    }

    fn slave_wait_event(&mut self, _bus: u8, rx_buf: &mut [u8]) -> (r: Result<
        (SlaveEventKind, usize),
        ResponseCode,
    >) {
        let n: usize = self.feed(rx_buf);
        Ok((SlaveEventKind::DataReceived, n))
    }

    fn slave_set_response(&mut self, _bus: u8, data: &[u8]) -> (r: Result<(), ResponseCode>) {
        let n: usize = smaller(data.len(), SLAVE_TX_LEN);
        let head: &[u8] = vstd::slice::slice_subrange(data, 0, n);
        bytes::copy_into(&mut self.slave_tx, 0, head);
        self.slave_tx_len = n;
        Ok(())
    }

    fn enable_slave_notification(&mut self, _bus: u8) -> (r: Result<(), ResponseCode>) {
        self.notification_enabled = true;
        Ok(())
    }

    fn disable_slave_notification(&mut self, _bus: u8) -> (r: Result<(), ResponseCode>) {
        self.notification_enabled = false;
        Ok(())
    }

    fn drain_slave_rx(&mut self, _bus: u8) -> (r: Result<usize, ResponseCode>) {
        Ok(self.slave_tx_len)
    }
}

/// A slave response that fits is what a slave reception with room for it gives
/// back.
pub proof fn slave_response_is_replayed(mock: MockView, bus: u8, data: Seq<u8>, buf: Seq<u8>)
    requires
        mock.tx.len() == SLAVE_TX_LEN,
        data.len() <= SLAVE_TX_LEN,
        data.len() <= buf.len(),
    ensures
        ({
            let loaded = mock.after(I2cCall::SlaveSetResponse { bus, data });
            loaded.outcome(I2cCall::SlaveReceive { bus, buf }) == I2cOutcome::counted(
                Ok(data.len() as usize),
                data + buf.skip(data.len() as int),
            )
        }),
{
    let loaded = mock.after(I2cCall::SlaveSetResponse { bus, data });
    assert(loaded.tx.take(data.len() as int) =~= data);
}

/// A controller call is recorded under its own name, with its arguments and the sizes
/// of its buffers; a slave call leaves the record alone.
pub proof fn controller_calls_are_recorded(
    mock: MockView,
    bus: u8,
    addr: u8,
    hz: u32,
    data: Seq<u8>,
    buf: Seq<u8>,
)
    requires
        data.len() <= usize::MAX,
        buf.len() <= usize::MAX,
    ensures
        mock.after(I2cCall::Write { bus, addr, data }).last_call matches LastCall::Write {
            bus: b,
            addr: a,
            len,
        } && b == bus && a == addr && len == data.len(),
        mock.after(I2cCall::Read { bus, addr, buf }).last_call matches LastCall::Read {
            bus: b,
            addr: a,
            len,
        } && b == bus && a == addr && len == buf.len(),
        mock.after(I2cCall::WriteRead { bus, addr, data, buf }).last_call
            matches LastCall::WriteRead { bus: b, addr: a, write_len, read_len } && b == bus && a
            == addr && write_len == data.len() && read_len == buf.len(),
        mock.after(I2cCall::Probe { bus, addr }).last_call == (LastCall::Probe { bus, addr }),
        mock.after(I2cCall::ConfigureSpeed { bus, hz }).last_call == (LastCall::ConfigureSpeed {
            bus,
            hz,
        }),
        mock.after(I2cCall::RecoverBus { bus }).last_call == (LastCall::Recover { bus }),
        mock.after(I2cCall::ConfigureSlave { bus, addr }).last_call == mock.last_call,
        mock.after(I2cCall::EnableSlave { bus }).last_call == mock.last_call,
        mock.after(I2cCall::DisableSlave { bus }).last_call == mock.last_call,
        mock.after(I2cCall::SlaveReceive { bus, buf }).last_call == mock.last_call,
        mock.after(I2cCall::SlaveWaitEvent { bus, buf }).last_call == mock.last_call,
        mock.after(I2cCall::SlaveSetResponse { bus, data }).last_call == mock.last_call,
        mock.after(I2cCall::EnableSlaveNotification { bus }).last_call == mock.last_call,
        mock.after(I2cCall::DisableSlaveNotification { bus }).last_call == mock.last_call,
        mock.after(I2cCall::DrainSlaveRx { bus }).last_call == mock.last_call,
{
}

/// What a call leaves alone: no call touches the read program, only a slave response
/// replaces the slave response, and only the two notification calls arm and disarm.
pub proof fn calls_touch_little(mock: MockView, call: I2cCall)
    ensures
        mock.after(call).rx == mock.rx,
        mock.after(call).rx_len == mock.rx_len,
        call !is SlaveSetResponse ==> mock.after(call).tx == mock.tx && mock.after(call).tx_len
            == mock.tx_len,
        mock.after(call).notification_enabled <==> call is EnableSlaveNotification || (
        mock.notification_enabled && call !is DisableSlaveNotification),
{
}

/// A slave response is kept from its first byte on, up to the size of the store; the
/// store behind it stays as it was.
pub proof fn slave_responses_are_kept(mock: MockView, bus: u8, data: Seq<u8>, i: int)
    requires
        mock.tx.len() == 32,
        0 <= i < 32,
    ensures
        ({
            let loaded = mock.after(I2cCall::SlaveSetResponse { bus, data });
            &&& loaded.tx.len() == 32
            &&& i < data.len() ==> loaded.tx[i] == data[i]
            &&& i >= data.len() ==> loaded.tx[i] == mock.tx[i]
            &&& data.len() <= 32 ==> loaded.tx_len == data.len()
            &&& data.len() > 32 ==> loaded.tx_len == 32
        }),
{
}

/// A read fills its buffer from the first programmed byte on, one after the other, and
/// with zeros where the program ends. So does the read of a combined transaction.
pub proof fn reads_replay_the_program(
    mock: MockView,
    bus: u8,
    addr: u8,
    data: Seq<u8>,
    buf: Seq<u8>,
    i: int,
)
    requires
        buf.len() <= usize::MAX,
        0 <= i < buf.len(),
    ensures
        ({
            let read = mock.outcome(I2cCall::Read { bus, addr, buf });
            &&& read.result matches Ok(n) && n == buf.len()
            &&& read.event is None
            &&& read.buf.len() == buf.len()
            &&& i < mock.rx_len && i < mock.rx.len() ==> read.buf[i] == mock.rx[i]
            &&& i >= mock.rx_len || i >= mock.rx.len() ==> read.buf[i] == 0
            &&& mock.outcome(I2cCall::WriteRead { bus, addr, data, buf }) == read
        }),
{
}

/// Slave input is the slave response, as much of it as there is and as fits; the
/// buffer behind it stays as it was. A wait reports it as received data.
pub proof fn slave_input_is_the_response(mock: MockView, bus: u8, buf: Seq<u8>, i: int)
    requires
        mock.tx_len <= mock.tx.len(),
        0 <= i < buf.len(),
    ensures
        ({
            let taken = mock.outcome(I2cCall::SlaveReceive { bus, buf });
            let waited = mock.outcome(I2cCall::SlaveWaitEvent { bus, buf });
            &&& taken.result is Ok && taken.event is None
            &&& buf.len() <= mock.tx_len ==> taken.result->Ok_0 == buf.len()
            &&& buf.len() > mock.tx_len ==> taken.result->Ok_0 == mock.tx_len
            &&& taken.buf.len() == buf.len()
            &&& i < mock.tx_len ==> taken.buf[i] == mock.tx[i]
            &&& i >= mock.tx_len ==> taken.buf[i] == buf[i]
            &&& waited.result == taken.result && waited.buf == taken.buf
            &&& waited.event == Some(SlaveEventKind::DataReceived)
            &&& mock.outcome(I2cCall::DrainSlaveRx { bus }).result == Ok::<usize, ResponseCode>(
                mock.tx_len,
            )
        }),
{
}

/// No call fails, and one without output produces nothing.
pub proof fn no_call_fails(mock: MockView, call: I2cCall)
    ensures
        mock.outcome(call).result is Ok,
        call !is Read && call !is WriteRead && call !is SlaveReceive && call !is SlaveWaitEvent
            && call !is DrainSlaveRx ==> mock.outcome(call).result == Ok::<usize, ResponseCode>(0)
            && mock.outcome(call).buf.len() == 0 && mock.outcome(call).event is None,
{
}

/// A fresh backend has recorded nothing, reads zeros, has no slave input and is not
/// armed; and the sizes of the stores are those that the program and the response may
/// use in full.
pub proof fn a_fresh_backend_is_silent(mock: MockI2cBackend, len: nat, i: int)
    requires
        mock@.fresh(),
        0 <= i < len,
    ensures
        mock.last_call == LastCall::NoCall,
        mock@.read_back(len)[i] == 0,
        mock@.slave_count(len) == 0,
        !mock.notification_enabled,
        mock.rx_program@.len() == RX_PROGRAM_LEN,
        mock.slave_tx@.len() == SLAVE_TX_LEN,
{
}

/// Programming replaces the front of the program, as far as it fits; what reads hand
/// back afterwards starts with it. Nothing else changes.
pub proof fn the_program_is_what_was_loaded(mock: &mut MockI2cBackend, data: &[u8], i: int)
    requires
        call_ensures(MockI2cBackend::program_rx, (mock, data), ()),
        0 <= i < 64,
    ensures
        data@.len() <= 64 ==> final(mock)@.rx_len == data@.len(),
        data@.len() > 64 ==> final(mock)@.rx_len == 64,
        i < data@.len() ==> final(mock)@.rx[i] == data@[i],
        i >= data@.len() ==> final(mock)@.rx[i] == old(mock)@.rx[i],
        final(mock)@.last_call == old(mock)@.last_call,
        final(mock)@.tx == old(mock)@.tx && final(mock)@.tx_len == old(mock)@.tx_len,
        final(mock)@.notification_enabled == old(mock)@.notification_enabled,
{
}

/// The controller methods of the backend: every one succeeds and is recorded, and the
/// two that read fill their buffer from the program.
pub proof fn controller_methods_record_and_replay(
    mock: &mut MockI2cBackend,
    bus: u8,
    addr: u8,
    hz: u32,
    data: &[u8],
    buf: &mut [u8],
    r: Result<(), ResponseCode>,
    i: int,
)
    requires
        0 <= i < old(buf)@.len() <= usize::MAX,
        data@.len() <= usize::MAX,
    ensures
        ({
            let last = final(mock)@.last_call;
            let programmed = i < old(mock)@.rx_len && i < 64;
            let replayed = final(buf)@.len() == old(buf)@.len() && (programmed ==> final(buf)@[i]
                == old(mock)@.rx[i]) && (!programmed ==> final(buf)@[i] == 0);
            &&& call_ensures(<MockI2cBackend as I2cBackend>::write, (mock, bus, addr, data), r)
                ==> r is Ok && last == (LastCall::Write { bus, addr, len: data@.len() as usize })
            &&& call_ensures(<MockI2cBackend as I2cBackend>::read, (mock, bus, addr, buf), r)
                ==> r is Ok && replayed && last == (LastCall::Read {
                bus,
                addr,
                len: old(buf)@.len() as usize,
            })
            &&& call_ensures(
                <MockI2cBackend as I2cBackend>::write_read,
                (mock, bus, addr, data, buf),
                r,
            ) ==> r is Ok && replayed && last == (LastCall::WriteRead {
                bus,
                addr,
                write_len: data@.len() as usize,
                read_len: old(buf)@.len() as usize,
            })
            &&& call_ensures(<MockI2cBackend as I2cBackend>::probe, (mock, bus, addr), r)
                ==> r is Ok && last == (LastCall::Probe { bus, addr })
            &&& call_ensures(<MockI2cBackend as I2cBackend>::configure_speed, (mock, bus, hz), r)
                ==> r is Ok && last == (LastCall::ConfigureSpeed { bus, hz })
            &&& call_ensures(<MockI2cBackend as I2cBackend>::recover_bus, (mock, bus), r)
                ==> r is Ok && last == (LastCall::Recover { bus })
        }),
{
    let pre = old(mock)@;
    let len = old(buf)@.len();
    assert(pre.rx.len() == 64);
    assert(pre.read_back(len)[i] == (if i < pre.rx_len && i < 64 {
        pre.rx[i]
    } else {
        0
    }));
}

/// The slave methods of the backend: a response is kept, and comes back as slave input
/// with its size, as far as the buffer holds it.
pub proof fn slave_methods_keep_and_feed(
    mock: &mut MockI2cBackend,
    bus: u8,
    data: &[u8],
    buf: &mut [u8],
    r: Result<(), ResponseCode>,
    taken: Result<usize, ResponseCode>,
    waited: Result<(SlaveEventKind, usize), ResponseCode>,
)
    requires
        old(mock)@.wf(),
    ensures
        ({
            let held = old(mock)@.tx_len;
            let n = if old(buf)@.len() <= held {
                old(buf)@.len() as int
            } else {
                held as int
            };
            let fed = final(buf)@ == old(mock)@.tx.take(n) + old(buf)@.skip(n);
            &&& call_ensures(
                <MockI2cBackend as I2cBackend>::slave_set_response,
                (mock, bus, data),
                r,
            ) && data@.len() <= 32 ==> r is Ok && final(mock)@.tx_len == data@.len() && (
            final(mock)@.tx.take(data@.len() as int) == data@)
            &&& call_ensures(<MockI2cBackend as I2cBackend>::slave_receive, (mock, bus, buf), taken)
                ==> taken is Ok && taken->Ok_0 == n && fed
            &&& call_ensures(
                <MockI2cBackend as I2cBackend>::slave_wait_event,
                (mock, bus, buf),
                waited,
            ) ==> waited is Ok && waited->Ok_0.0 == SlaveEventKind::DataReceived && waited->Ok_0.1
                == n && fed
            &&& call_ensures(<MockI2cBackend as I2cBackend>::drain_slave_rx, (mock, bus), taken)
                ==> taken == Ok::<usize, ResponseCode>(held)
            &&& call_ensures(
                <MockI2cBackend as I2cBackend>::enable_slave_notification,
                (mock, bus),
                r,
            ) ==> r is Ok && final(mock)@.notification_enabled
            &&& call_ensures(
                <MockI2cBackend as I2cBackend>::disable_slave_notification,
                (mock, bus),
                r,
            ) ==> r is Ok && !final(mock)@.notification_enabled
        }),
{
    if data@.len() <= 32 {
        let loaded = old(mock)@.after(I2cCall::SlaveSetResponse { bus, data: data@ });
        assert(loaded.tx.take(data@.len() as int) =~= data@);
    }
}

} // verus!
