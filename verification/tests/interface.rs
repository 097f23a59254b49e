use epd_waveshare::bus::{Level, Program, Step};
use epd_waveshare::transfer::{transfer_chunks, MAX_SPI_TRANSFER};
use epd_waveshare::color::Color;
use epd_waveshare::interface::{
    busy_level, is_busy, poll_step, DisplayInterface, PollStep, DEFAULT_DELAY_US, RESET_SETTLE_US,
};

type Bytewise = DisplayInterface<(), (), (), true>;
type Blockwise = DisplayInterface<(), (), (), false>;

fn w(bytes: &[u8]) -> Step {
    Step::Write(bytes.to_vec())
}

#[test]
fn new_uses_default_delay() {
    let i = Bytewise::new((), (), (), None);
    assert_eq!(i.delay_us, 10_000);
    assert_eq!(DEFAULT_DELAY_US, 10_000);
    let j = Bytewise::new((), (), (), Some(42));
    assert_eq!(j.delay_us, 42);
    let k = DisplayInterface::<u8, u16, u32, true>::new(1, 2, 3, Some(0));
    assert_eq!((k.busy, k.dc, k.rst, k.delay_us), (1, 2, 3, 0));
}

#[test]
fn command_sets_dc_low_and_writes_address() {
    let i = Bytewise::new((), (), (), None);
    let mut p = Program::new();
    i.cmd(&mut p, 0x12u8);
    assert_eq!(p.steps, vec![Step::SetDc(Level::Low), w(&[0x12])]);
}

#[test]
fn data_bytewise_or_blockwise() {
    let mut p = Program::new();
    Bytewise::new((), (), (), None).data(&mut p, &[1, 2, 3]);
    assert_eq!(p.steps, vec![Step::SetDc(Level::High), w(&[1]), w(&[2]), w(&[3])]);
    let mut q = Program::new();
    Blockwise::new((), (), (), None).data(&mut q, &[1, 2, 3]);
    assert_eq!(q.steps, vec![Step::SetDc(Level::High), w(&[1, 2, 3])]);
    let mut e = Program::new();
    Bytewise::new((), (), (), None).data(&mut e, &[]);
    assert_eq!(e.steps, vec![Step::SetDc(Level::High)]);
}

#[test]
fn cmd_with_data_is_cmd_then_data() {
    let i = Blockwise::new((), (), (), None);
    let mut p = Program::new();
    i.cmd_with_data(&mut p, 0x44u8, &[7, 8]);
    assert_eq!(
        p.steps,
        vec![Step::SetDc(Level::Low), w(&[0x44]), Step::SetDc(Level::High), w(&[7, 8])]
    );
}

#[test]
fn data_x_times_repeats_byte() {
    let i = Blockwise::new((), (), (), None);
    let mut p = Program::new();
    i.data_x_times(&mut p, Color::White.get_byte_value(), 3);
    assert_eq!(p.steps, vec![Step::SetDc(Level::High), w(&[0xff]), w(&[0xff]), w(&[0xff])]);
    let mut q = Program::new();
    i.data_x_times(&mut q, 0, 0);
    assert_eq!(q.steps, vec![Step::SetDc(Level::High)]);
}

#[test]
fn reset_pulse() {
    let i = Bytewise::new((), (), (), None);
    let mut p = Program::new();
    i.reset(&mut p, 10_000, 2_000);
    assert_eq!(
        p.steps,
        vec![
            Step::SetRst(Level::High),
            Step::DelayUs(10_000),
            Step::SetRst(Level::Low),
            Step::DelayUs(2_000),
            Step::SetRst(Level::High),
            Step::DelayUs(RESET_SETTLE_US),
        ]
    );
    assert_eq!(RESET_SETTLE_US, 200_000);
}

#[test]
fn wait_until_idle_records_poll() {
    let i = Bytewise::new((), (), (), Some(5));
    let mut p = Program::new();
    i.wait_until_idle(&mut p, true);
    assert_eq!(p.steps, vec![Step::WaitUntilIdle { is_busy_low: true, delay_us: 5 }]);
}

#[test]
fn wait_with_cmd_probes_first() {
    let i = Bytewise::new((), (), (), Some(5));
    let mut p = Program::new();
    i.wait_until_idle_with_cmd(&mut p, false, 0x71u8);
    assert_eq!(
        p.steps,
        vec![
            Step::SetDc(Level::Low),
            w(&[0x71]),
            Step::DelayUs(5),
            Step::WaitUntilIdleWithCmd { is_busy_low: false, delay_us: 5, command: 0x71 },
        ]
    );
    let j = Bytewise::new((), (), (), Some(0));
    let mut q = Program::new();
    j.status_probe(&mut q, 0x71u8);
    assert_eq!(q.steps, vec![Step::SetDc(Level::Low), w(&[0x71])]);
}

#[test]
fn busy_reading() {
    assert_eq!(busy_level(true), Level::Low);
    assert_eq!(busy_level(false), Level::High);
    assert!(is_busy(Some(true)));
    assert!(!is_busy(Some(false)));
    assert!(!is_busy(None));
}

#[test]
fn poll_decisions() {
    assert_eq!(poll_step(Some(false), 10), PollStep::Finished);
    assert_eq!(poll_step(None, 10), PollStep::Finished);
    assert_eq!(poll_step(Some(true), 10), PollStep::PauseThenPoll(10));
    assert_eq!(poll_step(Some(true), 0), PollStep::PollAgain);
}

#[test]
fn chunks_of_transfers() {
    assert_eq!(MAX_SPI_TRANSFER, 4096);
    assert_eq!(transfer_chunks(0), vec![]);
    assert_eq!(transfer_chunks(1), vec![(0, 1)]);
    assert_eq!(transfer_chunks(4096), vec![(0, 4096)]);
    assert_eq!(transfer_chunks(4097), vec![(0, 4096), (4096, 4097)]);
    assert_eq!(transfer_chunks(10000), vec![(0, 4096), (4096, 8192), (8192, 10000)]);
}

#[test]
fn chunks_reassemble_the_write() {
    let data: Vec<u8> = (0..9000u32).map(|v| (v % 251) as u8).collect();
    let mut joined = Vec::new();
    for (s, e) in transfer_chunks(data.len()) {
        assert!(e > s && e - s <= MAX_SPI_TRANSFER);
        joined.extend_from_slice(&data[s..e]);
    }
    assert_eq!(joined, data);
    let std_chunks: Vec<(usize, usize)> = data
        .chunks(4096)
        .scan(0usize, |start, c| {
            let r = (*start, *start + c.len());
            *start += c.len();
            Some(r)
        })
        .collect();
    assert_eq!(transfer_chunks(data.len()), std_chunks);
}

#[test]
fn color_bytes() {
    assert_eq!(Color::White.get_byte_value(), 0xff);
    assert_eq!(Color::Black.get_byte_value(), 0x00);
}

/// The bytes a program hands the panel, each with the Data/Command level.
fn received(p: &Program) -> Vec<(Level, u8)> {
    let mut dc = Level::Low;
    let mut out = Vec::new();
    for s in &p.steps {
        match s {
            Step::SetDc(l) => dc = *l,
            Step::Write(b) => out.extend(b.iter().map(|x| (dc, *x))),
            _ => {}
        }
    }
    out
}

#[test]
fn write_mode_does_not_change_received_bytes() {
    let data = [9u8, 8, 7, 6];
    let mut a = Program::new();
    let mut b = Program::new();
    Bytewise::new((), (), (), None).cmd_with_data(&mut a, 0x24u8, &data);
    Blockwise::new((), (), (), None).cmd_with_data(&mut b, 0x24u8, &data);
    assert_ne!(a, b);
    let expected = vec![
        (Level::Low, 0x24),
        (Level::High, 9),
        (Level::High, 8),
        (Level::High, 7),
        (Level::High, 6),
    ];
    assert_eq!(received(&a), expected);
    assert_eq!(received(&b), expected);
}
