use epd_waveshare::bus::{Level, Program, Step};
use epd_waveshare::color::Color;
use epd_waveshare::epd2in7_v2::{
    Epd2in7, DEFAULT_BACKGROUND_COLOR, FRAME_BYTES, HEIGHT, IS_BUSY_LOW, WIDTH,
};
use epd_waveshare::traits::RefreshLut;

/// What a program says on the bus, grouped: commands with the data that
/// follows them, and the steps that do not touch the bus. Panics when the
/// program is not well framed.
#[derive(Debug, PartialEq)]
enum Frame {
    Cmd(u8, Vec<u8>),
    Data(Vec<u8>),
    Other(Step),
}

fn frames(p: &Program) -> Vec<Frame> {
    let mut out = Vec::new();
    let mut i = 0;
    while i < p.steps.len() {
        match &p.steps[i] {
            Step::SetDc(Level::Low) => {
                let addr = match &p.steps[i + 1] {
                    Step::Write(b) => {
                        assert_eq!(b.len(), 1);
                        b[0]
                    }
                    s => panic!("command without address: {:?}", s),
                };
                out.push(Frame::Cmd(addr, Vec::new()));
                i += 2;
            }
            Step::SetDc(Level::High) => {
                i += 1;
                while i < p.steps.len() {
                    if let Step::Write(b) = &p.steps[i] {
                        match out.last_mut() {
                            Some(Frame::Cmd(_, d)) | Some(Frame::Data(d)) => d.extend_from_slice(b),
                            _ => out.push(Frame::Data(b.clone())),
                        }
                        i += 1;
                    } else {
                        break;
                    }
                }
            }
            Step::Write(_) => panic!("write before the Data/Command pin was set"),
            s => {
                out.push(Frame::Other(s.clone()));
                i += 1;
            }
        }
    }
    out
}

fn wait() -> Frame {
    Frame::Other(Step::WaitUntilIdle { is_busy_low: false, delay_us: 10_000 })
}

fn new_epd() -> Epd2in7<(), (), ()> {
    let mut p = Program::new();
    Epd2in7::new(&mut p, (), (), (), None)
}

fn full_frame() -> Vec<Frame> {
    vec![
        Frame::Cmd(0x44, vec![0x00, 0x15]),
        Frame::Cmd(0x45, vec![0x00, 0x00, 0x07, 0x01]),
        wait(),
        Frame::Cmd(0x4e, vec![0x00]),
        Frame::Cmd(0x4f, vec![0x00, 0x00]),
    ]
}

#[test]
fn mod_epd_size() {
    assert_eq!(WIDTH, 176);
    assert_eq!(HEIGHT, 264);
    assert_eq!(DEFAULT_BACKGROUND_COLOR, Color::White);
}

#[test]
fn v2_frame_bytes_and_busy_level() {
    assert_eq!(FRAME_BYTES, WIDTH / 8 * HEIGHT);
    assert_eq!(FRAME_BYTES, 5808);
    assert!(!IS_BUSY_LOW);
}

#[test]
fn v2_new_sets_defaults_and_initializes() {
    let mut p = Program::new();
    let epd = Epd2in7::new(&mut p, 7u8, 8u8, 9u8, Some(0));
    assert_eq!(epd.interface.busy, 7);
    assert_eq!(epd.interface.delay_us, 0);
    assert_eq!(*epd.background_color(), Color::White);
    assert_eq!(epd.refresh, RefreshLut::Full);
    let mut expected = vec![
        Frame::Other(Step::SetRst(Level::High)),
        Frame::Other(Step::DelayUs(200_000)),
        Frame::Other(Step::SetRst(Level::Low)),
        Frame::Other(Step::DelayUs(2_000)),
        Frame::Other(Step::SetRst(Level::High)),
        Frame::Other(Step::DelayUs(200_000)),
        Frame::Other(Step::WaitUntilIdle { is_busy_low: false, delay_us: 0 }),
        Frame::Cmd(0x12, vec![]),
        Frame::Other(Step::WaitUntilIdle { is_busy_low: false, delay_us: 0 }),
        Frame::Cmd(0x44, vec![0x00, 0x15]),
        Frame::Cmd(0x45, vec![0x00, 0x00, 0x07, 0x01]),
        Frame::Other(Step::WaitUntilIdle { is_busy_low: false, delay_us: 0 }),
        Frame::Cmd(0x4e, vec![0x00]),
        Frame::Cmd(0x4f, vec![0x00, 0x00]),
    ];
    expected.push(Frame::Cmd(0x11, vec![0x03]));
    assert_eq!(frames(&p), expected);
}

#[test]
fn v2_wake_up_repeats_init() {
    let epd = new_epd();
    let mut a = Program::new();
    let mut b = Program::new();
    epd.init(&mut a);
    epd.wake_up(&mut b);
    assert_eq!(a, b);
}

#[test]
fn v2_sleep_sequence() {
    let epd = new_epd();
    let mut p = Program::new();
    epd.sleep(&mut p);
    assert_eq!(frames(&p), vec![wait(), Frame::Cmd(0x10, vec![0x01])]);
}

#[test]
fn v2_update_frame_writes_ram() {
    let epd = new_epd();
    let mut p = Program::new();
    epd.update_frame(&mut p, &[5, 6]);
    let mut expected = vec![wait()];
    expected.extend(full_frame());
    expected.push(Frame::Cmd(0x24, vec![5, 6]));
    assert_eq!(frames(&p), expected);
}

#[test]
fn v2_partial_frame_window() {
    let epd = new_epd();
    let mut p = Program::new();
    epd.update_partial_frame(&mut p, &[1], 16, 300, 32, 10);
    assert_eq!(
        frames(&p),
        vec![
            wait(),
            Frame::Cmd(0x44, vec![2, 6]),
            Frame::Cmd(0x45, vec![0x2c, 0x01, 0x36, 0x01]),
            wait(),
            Frame::Cmd(0x4e, vec![16]),
            Frame::Cmd(0x4f, vec![0x2c, 0x01]),
            Frame::Cmd(0x24, vec![1]),
        ]
    );
}

#[test]
fn v2_display_frame_follows_refresh_mode() {
    let mut epd = new_epd();
    let mut p = Program::new();
    epd.display_frame(&mut p);
    assert_eq!(
        frames(&p),
        vec![wait(), Frame::Cmd(0x22, vec![0xf7]), Frame::Cmd(0x20, vec![]), wait()]
    );
    let mut none = Program::new();
    epd.set_lut(&mut none, Some(RefreshLut::Quick));
    assert_eq!(none.len(), 0);
    assert_eq!(epd.refresh, RefreshLut::Quick);
    let mut q = Program::new();
    epd.display_frame(&mut q);
    assert_eq!(
        frames(&q),
        vec![wait(), Frame::Cmd(0x22, vec![0xc7]), Frame::Cmd(0x20, vec![]), wait()]
    );
    epd.set_lut(&mut none, None);
    assert_eq!(epd.refresh, RefreshLut::Quick);
}

#[test]
fn v2_update_and_display_frame_is_update_then_display() {
    let epd = new_epd();
    let mut p = Program::new();
    epd.update_and_display_frame(&mut p, &[3]);
    let mut q = Program::new();
    epd.update_frame(&mut q, &[3]);
    epd.display_frame(&mut q);
    assert_eq!(p, q);
}

#[test]
fn v2_clear_frame_paints_ram() {
    let mut epd = new_epd();
    epd.set_background_color(Color::Black);
    assert_eq!(*epd.background_color(), Color::Black);
    let mut p = Program::new();
    epd.clear_frame(&mut p);
    let mut expected = vec![wait()];
    expected.extend(full_frame());
    expected.push(Frame::Cmd(0x24, vec![0x00; 5808]));
    assert_eq!(frames(&p), expected);
    assert_eq!(epd.width(), 176);
    assert_eq!(epd.height(), 264);
}

#[test]
fn v2_ram_bytes_decode() {
    // RAM columns are counted in bytes of eight pixels; rows take nine bits
    let epd = new_epd();
    for (x, y) in [(0u32, 0u32), (8, 255), (168, 256), (175, 263)] {
        let mut p = Program::new();
        epd.set_ram_area(&mut p, x, y, x + 1, y + 1);
        let f = frames(&p);
        assert_eq!(f[0], Frame::Cmd(0x44, vec![(x / 8) as u8, ((x + 1) / 8) as u8]));
        match &f[1] {
            Frame::Cmd(0x45, d) => {
                assert_eq!(d[0] as u32 + 256 * d[1] as u32, y);
                assert_eq!(d[2] as u32 + 256 * d[3] as u32, y + 1);
            }
            other => panic!("unexpected {:?}", other),
        }
    }
}
