//! The connection interface shared by Waveshare e-paper displays: besides
//! the SPI device, a busy input pin, a Data/Command output pin and a reset
//! output pin.
//!
//! The interface holds the pins and the polling delay; every operation
//! appends the bus steps it performs to a [`Program`], which the caller
//! carries out on the hardware, stopping at the first failed SPI write.
use vstd::prelude::*;

use crate::bus::{
    bytewise_writes, cmd_ops, cmd_with_data_ops, data_ops, pause_ops, repeated_data_ops, Level, Op,
    Program, Step,
};
use crate::framing::{lemma_quiet_well_framed, well_framed};
use crate::received::{lemma_received_single, received};
use crate::traits::Command;

verus! {

/// Polling delay, in microseconds, when none is given.
pub const DEFAULT_DELAY_US: u32 = 10_000;

/// How long the reset pin is held high after a reset, in microseconds.
pub const RESET_SETTLE_US: u32 = 200_000;

/// The connection interface of a Waveshare e-paper display.
///
/// `SINGLE_BYTE_WRITE` tells whether a data block is written byte by byte or
/// as one block to the SPI device.
pub struct DisplayInterface<BUSY, DC, RST, const SINGLE_BYTE_WRITE: bool> {
    /// Busy input pin.
    pub busy: BUSY,
    /// Data/Command output pin (high for data, low for commands).
    pub dc: DC,
    /// Reset output pin.
    pub rst: RST,
    /// Microseconds to pause between two polls of the busy pin.
    pub delay_us: u32,
}

/// The polling delay that `DisplayInterface::new` settles on.
pub open spec fn delay_or_default(delay_us: Option<u32>) -> u32 {
    match delay_us {
        Some(d) => d,
        None => DEFAULT_DELAY_US,
    }
}

/// The reset pulse: reset high, pause, reset low for `duration`, reset high
/// again and let the panel settle.
pub open spec fn reset_ops(initial_delay: u32, duration: u32) -> Seq<Op> {
    seq![
        Op::SetRst(Level::High),
        Op::DelayUs(initial_delay),
        Op::SetRst(Level::Low),
        Op::DelayUs(duration),
        Op::SetRst(Level::High),
        Op::DelayUs(RESET_SETTLE_US),
    ]
}

impl<BUSY, DC, RST, const SINGLE_BYTE_WRITE: bool> DisplayInterface<BUSY, DC, RST, SINGLE_BYTE_WRITE> {
    /// The interface that `new` creates.
    pub open spec fn new_spec(busy: BUSY, dc: DC, rst: RST, delay_us: Option<u32>) -> Self {
        DisplayInterface { busy, dc, rst, delay_us: delay_or_default(delay_us) }
    }

    /// Creates a new interface over the given pins.
    ///
    /// If no delay is given, a default delay of 10ms is used.
    pub fn new(busy: BUSY, dc: DC, rst: RST, delay_us: Option<u32>) -> (s: Self)
        ensures
            s == Self::new_spec(busy, dc, rst, delay_us),
    {
        let delay_us = match delay_us {
            Some(d) => d,
            None => DEFAULT_DELAY_US,
        };
        DisplayInterface { busy, dc, rst, delay_us }
    }

    /// The steps of waiting until the panel is idle.
    pub open spec fn wait_ops(&self, is_busy_low: bool) -> Seq<Op> {
        seq![Op::WaitUntilIdle { is_busy_low, delay_us: self.delay_us }]
    }

    /// The steps of one probe of a device that needs a command before its
    /// busy pin is read: the status command, then the polling pause.
    pub open spec fn probe_ops(&self, address: u8) -> Seq<Op> {
        cmd_ops(address) + pause_ops(self.delay_us)
    }

    /// Sends a command: the Data/Command pin goes low, then the command's
    /// address is written.
    pub fn cmd<T: Command>(&self, out: &mut Program, command: T)
        ensures
            final(out)@ == old(out)@ + cmd_ops(command.spec_address()),
    {
        out.push(Step::SetDc(Level::Low));
        let address = [command.address()];
        assert(address@ =~= seq![command.spec_address()]);
        self.write(out, &address);
        assert(final(out)@ =~= old(out)@ + cmd_ops(command.spec_address()));
    }

    /// Sends a block of data: the Data/Command pin goes high, then the bytes
    /// are written, one transaction per byte when `SINGLE_BYTE_WRITE` holds,
    /// else in one transaction.
    pub fn data(&self, out: &mut Program, data: &[u8])
        ensures
            final(out)@ == old(out)@ + data_ops(data@, SINGLE_BYTE_WRITE),
    {
        out.push(Step::SetDc(Level::High));
        if SINGLE_BYTE_WRITE {
            let ghost start = out@;
            let mut i: usize = 0;
            while i < data.len()
                invariant
                    i <= data.len(),
                    out@ == start + bytewise_writes(data@.take(i as int)),
                decreases data.len() - i,
            {
                let b = data[i];
                let one = [b];
                assert(one@ =~= seq![b]);
                self.write(out, &one);
                i = i + 1;
                assert(bytewise_writes(data@.take(i as int)) =~= bytewise_writes(
                    data@.take(i - 1),
                ).push(Op::Write(seq![b])));
                assert(out@ =~= start + bytewise_writes(data@.take(i as int)));
            }
            assert(data@.take(i as int) =~= data@);
        } else {
            self.write(out, data);
        }
        assert(final(out)@ =~= old(out)@ + data_ops(data@, SINGLE_BYTE_WRITE));
    }

    /// Sends a command followed by its data.
    pub fn cmd_with_data<T: Command>(&self, out: &mut Program, command: T, data: &[u8])
        ensures
            final(out)@ == old(out)@ + cmd_with_data_ops(
                command.spec_address(),
                data@,
                SINGLE_BYTE_WRITE,
            ),
    {
        self.cmd(out, command);
        self.data(out, data);
        assert(final(out)@ =~= old(out)@ + cmd_with_data_ops(
            command.spec_address(),
            data@,
            SINGLE_BYTE_WRITE,
        ));
    }

    /// Sends the same byte of data `repetitions` times, one transaction each.
    pub fn data_x_times(&self, out: &mut Program, val: u8, repetitions: u32)
        ensures
            final(out)@ == old(out)@ + repeated_data_ops(val, repetitions as nat),
    {
        out.push(Step::SetDc(Level::High));
        let ghost start = out@;
        let mut i: u32 = 0;
        while i < repetitions
            invariant
                i <= repetitions,
                out@ == start + Seq::new(i as nat, |k: int| Op::Write(seq![val])),
            decreases repetitions - i,
        {
            let one = [val];
            assert(one@ =~= seq![val]);
            self.write(out, &one);
            i = i + 1;
            assert(out@ =~= start + Seq::new(i as nat, |k: int| Op::Write(seq![val])));
        }
        assert(final(out)@ =~= old(out)@ + repeated_data_ops(val, repetitions as nat));
    }

    /// One SPI write transaction.
    fn write(&self, out: &mut Program, data: &[u8])
        ensures
            final(out)@ == old(out)@.push(Op::Write(data@)),
    {
        let mut bytes: Vec<u8> = Vec::new();
        let mut i: usize = 0;
        while i < data.len()
            invariant
                i <= data.len(),
                bytes@ == data@.take(i as int),
            decreases data.len() - i,
        {
            bytes.push(data[i]);
            i = i + 1;
            assert(bytes@ =~= data@.take(i as int));
        }
        assert(data@.take(i as int) =~= data@);
        out.push(Step::Write(bytes));
    }

    /// Waits until the panel is not busy any more.
    ///
    /// `is_busy_low` tells which level of the busy pin means busy: low for
    /// epd4in2, epd2in13, epd2in7, epd5in83, epd7in5; high for epd2in9,
    /// epd1in54.
    pub fn wait_until_idle(&self, out: &mut Program, is_busy_low: bool)
        ensures
            final(out)@ == old(out)@ + self.wait_ops(is_busy_low),
    {
        out.push(Step::WaitUntilIdle { is_busy_low, delay_us: self.delay_us });
        assert(final(out)@ =~= old(out)@ + self.wait_ops(is_busy_low));
    }

    /// The probe that a device needing a command to update its busy pin
    /// repeats while it is busy: the status command, then the polling pause.
    pub fn status_probe<T: Command>(&self, out: &mut Program, status_command: T)
        ensures
            final(out)@ == old(out)@ + self.probe_ops(status_command.spec_address()),
    {
        self.cmd(out, status_command);
        if self.delay_us > 0 {
            out.push(Step::DelayUs(self.delay_us));
        }
        assert(final(out)@ =~= old(out)@ + self.probe_ops(status_command.spec_address()));
    }

    /// Same as `wait_until_idle` for a device that needs a command to update
    /// its busy pin: one probe, then polling, with a probe before each
    /// further poll.
    pub fn wait_until_idle_with_cmd<T: Command>(
        &self,
        out: &mut Program,
        is_busy_low: bool,
        status_command: T,
    )
        ensures
            final(out)@ == old(out)@ + self.probe_ops(status_command.spec_address()) + seq![
                Op::WaitUntilIdleWithCmd {
                    is_busy_low,
                    delay_us: self.delay_us,
                    command: status_command.spec_address(),
                },
            ],
    {
        self.status_probe(out, status_command);
        let address = status_command.address();
        out.push(Step::WaitUntilIdleWithCmd { is_busy_low, delay_us: self.delay_us, command: address });
    }

    /// Resets the device: reset high for `initial_delay`, low for
    /// `duration`, then high again for 200ms.
    pub fn reset(&self, out: &mut Program, initial_delay: u32, duration: u32)
        ensures
            final(out)@ == old(out)@ + reset_ops(initial_delay, duration),
    {
        out.push(Step::SetRst(Level::High));
        out.push(Step::DelayUs(initial_delay));
        out.push(Step::SetRst(Level::Low));
        out.push(Step::DelayUs(duration));
        out.push(Step::SetRst(Level::High));
        out.push(Step::DelayUs(RESET_SETTLE_US));
        assert(final(out)@ =~= old(out)@ + reset_ops(initial_delay, duration));
    }
}

/// A reset pulse is well framed.
pub broadcast proof fn lemma_reset_well_framed(initial_delay: u32, duration: u32)
    ensures
        #[trigger] well_framed(reset_ops(initial_delay, duration)),
{
    lemma_quiet_well_framed(reset_ops(initial_delay, duration));
}

/// Waiting for the panel is well framed.
pub broadcast proof fn lemma_wait_well_framed<BUSY, DC, RST, const SINGLE_BYTE_WRITE: bool>(
    interface: DisplayInterface<BUSY, DC, RST, SINGLE_BYTE_WRITE>,
    is_busy_low: bool,
)
    ensures
        #[trigger] well_framed(interface.wait_ops(is_busy_low)),
{
    lemma_quiet_well_framed(interface.wait_ops(is_busy_low));
}

/// Waiting for the panel hands it no byte.
pub broadcast proof fn lemma_received_wait<BUSY, DC, RST, const SINGLE_BYTE_WRITE: bool>(
    interface: DisplayInterface<BUSY, DC, RST, SINGLE_BYTE_WRITE>,
    is_busy_low: bool,
    dc: Level,
)
    ensures
        #[trigger] received(interface.wait_ops(is_busy_low), dc) == Seq::<(Level, u8)>::empty(),
{
    lemma_received_single(Op::WaitUntilIdle { is_busy_low, delay_us: interface.delay_us }, dc);
}

/// The level of the busy pin to ask for: `is_low` when the panel signals
/// busy by pulling the pin low, `is_high` otherwise.
pub fn busy_level(is_busy_low: bool) -> (l: Level)
    ensures
        l == (if is_busy_low { Level::Low } else { Level::High }),
{
    if is_busy_low {
        Level::Low
    } else {
        Level::High
    }
}

/// Whether the panel is busy, given the answer of the busy pin to the
/// question that `busy_level` picks (`None` when reading the pin failed).
/// A failed reading counts as not busy.
pub fn is_busy(reading: Option<bool>) -> (b: bool)
    ensures
        b == (reading == Some(true)),
{
    match reading {
        Some(r) => r,
        None => false,
    }
}

/// What a poll loop does after one reading of the busy pin.
#[derive(Clone, Copy, Debug, PartialEq, Eq, Structural)]
pub enum PollStep {
    /// The panel is idle: the wait is over.
    Finished,
    /// The panel is busy: pause this many microseconds, then poll again.
    PauseThenPoll(u32),
    /// The panel is busy: poll again at once.
    PollAgain,
}

/// The decision of the polling loop after one reading of the busy pin.
pub fn poll_step(reading: Option<bool>, delay_us: u32) -> (s: PollStep)
    ensures
        reading != Some(true) ==> s == PollStep::Finished,
        reading == Some(true) && delay_us > 0 ==> s == PollStep::PauseThenPoll(delay_us),
        reading == Some(true) && delay_us == 0 ==> s == PollStep::PollAgain,
{
    if !is_busy(reading) {
        PollStep::Finished
    } else if delay_us > 0 {
        PollStep::PauseThenPoll(delay_us)
    } else {
        PollStep::PollAgain
    }
}

} // verus!
