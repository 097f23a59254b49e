//! The operations a driver call performs on the display's wires, recorded in
//! order so that they can be stated, checked and then carried out on hardware.
use vstd::prelude::*;

verus! {

/// Logic level of an output pin.
#[derive(Clone, Copy, Debug, PartialEq, Eq, Structural)]
pub enum Level {
    Low,
    High,
}

/// What one bus step does, as a mathematical value.
pub enum Op {
    /// Drive the Data/Command pin (low: command byte follows, high: data follows).
    SetDc(Level),
    /// Drive the reset pin.
    SetRst(Level),
    /// One write transaction on the SPI device.
    Write(Seq<u8>),
    /// Pause for the given number of microseconds.
    DelayUs(u32),
    /// Poll the busy pin until the panel is idle, pausing the given number of
    /// microseconds between polls when it is not zero.
    WaitUntilIdle { is_busy_low: bool, delay_us: u32 },
    /// Like `WaitUntilIdle`, but each further poll is preceded by sending
    /// the status command and pausing.
    WaitUntilIdleWithCmd { is_busy_low: bool, delay_us: u32, command: u8 },
}

/// One bus step, ready to be carried out.
#[derive(Debug, PartialEq, Eq)]
pub enum Step {
    SetDc(Level),
    SetRst(Level),
    Write(Vec<u8>),
    DelayUs(u32),
    WaitUntilIdle { is_busy_low: bool, delay_us: u32 },
    WaitUntilIdleWithCmd { is_busy_low: bool, delay_us: u32, command: u8 },
}

impl View for Step {
    type V = Op;

    open spec fn view(&self) -> Op {
        match self {
            Step::SetDc(l) => Op::SetDc(*l),
            Step::SetRst(l) => Op::SetRst(*l),
            Step::Write(bytes) => Op::Write(bytes@),
            Step::DelayUs(us) => Op::DelayUs(*us),
            Step::WaitUntilIdle { is_busy_low, delay_us } => Op::WaitUntilIdle {
                is_busy_low: *is_busy_low,
                delay_us: *delay_us,
            },
            Step::WaitUntilIdleWithCmd { is_busy_low, delay_us, command } => Op::WaitUntilIdleWithCmd {
                is_busy_low: *is_busy_low,
                delay_us: *delay_us,
                command: *command,
            },
        }
    }
}

impl Clone for Step {
    fn clone(&self) -> (s: Step)
        ensures
            s@ == self@,
    {
        match self {
            Step::SetDc(l) => Step::SetDc(*l),
            Step::SetRst(l) => Step::SetRst(*l),
            Step::Write(bytes) => {
                let copy = bytes.clone();
                assert(copy@ =~= bytes@);
                Step::Write(copy)
            },
            Step::DelayUs(us) => Step::DelayUs(*us),
            Step::WaitUntilIdle { is_busy_low, delay_us } => Step::WaitUntilIdle {
                is_busy_low: *is_busy_low,
                delay_us: *delay_us,
            },
            Step::WaitUntilIdleWithCmd { is_busy_low, delay_us, command } => Step::WaitUntilIdleWithCmd {
                is_busy_low: *is_busy_low,
                delay_us: *delay_us,
                command: *command,
            },
        }
    }
}

/// An ordered list of bus steps.
#[derive(Debug, PartialEq, Eq)]
pub struct Program {
    pub steps: Vec<Step>,
}

impl View for Program {
    type V = Seq<Op>;

    open spec fn view(&self) -> Seq<Op> {
        self.steps@.map_values(|s: Step| s@)
    }
}

impl Program {
    /// An empty program.
    pub fn new() -> (p: Program)
        ensures
            p@ == Seq::<Op>::empty(),
    {
        let p = Program { steps: Vec::new() };
        assert(p@ =~= Seq::<Op>::empty());
        p
    }

    /// Appends one step.
    pub fn push(&mut self, step: Step)
        ensures
            final(self)@ == old(self)@.push(step@),
    {
        let ghost s = step@;
        self.steps.push(step);
        assert(self@ =~= old(self)@.push(s));
    }

    /// Number of steps.
    pub fn len(&self) -> (n: usize)
        ensures
            n == self@.len(),
    {
        self.steps.len()
    }
}

/// Each byte of `data` in a write transaction of its own.
pub open spec fn bytewise_writes(data: Seq<u8>) -> Seq<Op> {
    data.map_values(|b: u8| Op::Write(seq![b]))
}

/// A command: the Data/Command pin goes low, then the command's address is
/// written in one transaction.
pub open spec fn cmd_ops(address: u8) -> Seq<Op> {
    seq![Op::SetDc(Level::Low), Op::Write(seq![address])]
}

/// A block of data: the Data/Command pin goes high, then the bytes follow,
/// one transaction per byte when `single_byte_write` holds, else all of them
/// in one transaction.
pub open spec fn data_ops(data: Seq<u8>, single_byte_write: bool) -> Seq<Op> {
    seq![Op::SetDc(Level::High)] + if single_byte_write {
        bytewise_writes(data)
    } else {
        seq![Op::Write(data)]
    }
}

/// A command followed by its data.
pub open spec fn cmd_with_data_ops(address: u8, data: Seq<u8>, single_byte_write: bool) -> Seq<Op> {
    cmd_ops(address) + data_ops(data, single_byte_write)
}

/// The same byte sent `repetitions` times as data, one transaction each.
pub open spec fn repeated_data_ops(val: u8, repetitions: nat) -> Seq<Op> {
    seq![Op::SetDc(Level::High)] + Seq::new(repetitions, |i: int| Op::Write(seq![val]))
}

/// A pause of `delay_us` microseconds, left out when it is zero.
pub open spec fn pause_ops(delay_us: u32) -> Seq<Op> {
    if delay_us > 0 {
        seq![Op::DelayUs(delay_us)]
    } else {
        Seq::empty()
    }
}

} // verus!
