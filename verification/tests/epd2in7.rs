use epd_waveshare::bus::{Level, Program, Step};
use epd_waveshare::color::Color;
use epd_waveshare::epd2in7::constants::{LUT_BB, LUT_BW, LUT_VCOM_DC, LUT_WB, LUT_WW};
use epd_waveshare::epd2in7::{
    Epd2in7, DEFAULT_BACKGROUND_COLOR, FRAME_BYTES, HEIGHT, IS_BUSY_LOW, WIDTH,
};
use epd_waveshare::traits::RefreshLut;

/// What a program says on the bus, grouped: commands with the data that
/// follows them, and the steps that do not touch the bus. Panics when the
/// program is not well framed.
#[derive(Debug, PartialEq)]
enum Frame {
    Cmd(u8, Vec<u8>),
    Data(Vec<u8>),
    Other(Step),
}

fn frames(p: &Program) -> Vec<Frame> {
    let mut out = Vec::new();
    let mut i = 0;
    while i < p.steps.len() {
        match &p.steps[i] {
            Step::SetDc(Level::Low) => {
                let addr = match &p.steps[i + 1] {
                    Step::Write(b) => {
                        assert_eq!(b.len(), 1);
                        b[0]
                    }
                    s => panic!("command without address: {:?}", s),
                };
                out.push(Frame::Cmd(addr, Vec::new()));
                i += 2;
            }
            Step::SetDc(Level::High) => {
                i += 1;
                while i < p.steps.len() {
                    if let Step::Write(b) = &p.steps[i] {
                        match out.last_mut() {
                            Some(Frame::Cmd(_, d)) | Some(Frame::Data(d)) => d.extend_from_slice(b),
                            _ => out.push(Frame::Data(b.clone())),
                        }
                        i += 1;
                    } else {
                        break;
                    }
                }
            }
            Step::Write(_) => panic!("write before the Data/Command pin was set"),
            s => {
                out.push(Frame::Other(s.clone()));
                i += 1;
            }
        }
    }
    out
}

fn wait() -> Frame {
    Frame::Other(Step::WaitUntilIdle { is_busy_low: true, delay_us: 10_000 })
}

fn new_epd() -> Epd2in7<(), (), ()> {
    let mut p = Program::new();
    Epd2in7::new(&mut p, (), (), (), None)
}

#[test]
fn epd_size() {
    assert_eq!(WIDTH, 176);
    assert_eq!(HEIGHT, 264);
    assert_eq!(DEFAULT_BACKGROUND_COLOR, Color::White);
}

#[test]
fn frame_bytes_is_one_bit_per_pixel() {
    assert_eq!(FRAME_BYTES, WIDTH * HEIGHT / 8);
    assert_eq!(FRAME_BYTES, 5808);
    assert!(IS_BUSY_LOW);
}

#[test]
fn new_sets_defaults_and_initializes() {
    let mut p = Program::new();
    let epd = Epd2in7::new(&mut p, 1u8, 2u8, 3u8, Some(500));
    assert_eq!(epd.interface.busy, 1);
    assert_eq!(epd.interface.dc, 2);
    assert_eq!(epd.interface.rst, 3);
    assert_eq!(epd.interface.delay_us, 500);
    assert_eq!(*epd.background_color(), Color::White);
    assert_eq!(p.len(), 308);
    let mut again = Program::new();
    epd.init(&mut again);
    assert_eq!(p, again);
}

#[test]
fn init_sequence() {
    let epd = new_epd();
    let mut p = Program::new();
    epd.init(&mut p);
    let w = wait();
    let expected = vec![
        Frame::Other(Step::SetRst(Level::High)),
        Frame::Other(Step::DelayUs(10_000)),
        Frame::Other(Step::SetRst(Level::Low)),
        Frame::Other(Step::DelayUs(2_000)),
        Frame::Other(Step::SetRst(Level::High)),
        Frame::Other(Step::DelayUs(200_000)),
        Frame::Cmd(0x01, vec![0x03, 0x00, 0x2b, 0x2b, 0x09]),
        Frame::Cmd(0x06, vec![0x07, 0x07, 0x17]),
        Frame::Cmd(0xf8, vec![0x60, 0xa5]),
        Frame::Cmd(0xf8, vec![0x89, 0xa5]),
        Frame::Cmd(0xf8, vec![0x90, 0x00]),
        Frame::Cmd(0xf8, vec![0x93, 0x2a]),
        Frame::Cmd(0xf8, vec![0xa0, 0xa5]),
        Frame::Cmd(0xf8, vec![0xa1, 0x00]),
        Frame::Cmd(0xf8, vec![0x73, 0x41]),
        Frame::Cmd(0x16, vec![0x00]),
        Frame::Cmd(0x04, vec![]),
        Frame::Other(Step::DelayUs(5000)),
        wait(),
        Frame::Cmd(0x00, vec![0xaf]),
        Frame::Cmd(0x30, vec![0x3a]),
        Frame::Cmd(0x50, vec![0x57]),
        Frame::Cmd(0x82, vec![0x12]),
        wait(),
        Frame::Cmd(0x20, LUT_VCOM_DC.to_vec()),
        Frame::Cmd(0x21, LUT_WW.to_vec()),
        Frame::Cmd(0x22, LUT_BW.to_vec()),
        Frame::Cmd(0x23, LUT_WB.to_vec()),
        Frame::Cmd(0x24, LUT_BB.to_vec()),
        w,
    ];
    assert_eq!(frames(&p), expected);
}

#[test]
fn wake_up_repeats_init() {
    let epd = new_epd();
    let mut a = Program::new();
    let mut b = Program::new();
    epd.init(&mut a);
    epd.wake_up(&mut b);
    assert_eq!(a, b);
}

#[test]
fn sleep_sequence() {
    let epd = new_epd();
    let mut p = Program::new();
    epd.sleep(&mut p);
    assert_eq!(
        frames(&p),
        vec![wait(), Frame::Cmd(0x50, vec![0xf7]), Frame::Cmd(0x02, vec![]), wait(), Frame::Cmd(0x07, vec![0xa5])]
    );
}

#[test]
fn update_frame_fills_old_frame_with_background() {
    let mut epd = new_epd();
    epd.set_background_color(Color::Black);
    let mut p = Program::new();
    epd.update_frame(&mut p, &[1, 2, 3]);
    assert_eq!(
        frames(&p),
        vec![Frame::Cmd(0x10, vec![0x00; 5808]), Frame::Cmd(0x13, vec![1, 2, 3])]
    );
    // one transaction per byte
    assert_eq!(p.len(), 2 + 1 + 5808 + 2 + 1 + 3);
}

#[test]
fn update_and_display_frame_starts_refresh_without_waiting() {
    let epd = new_epd();
    let mut p = Program::new();
    epd.update_and_display_frame(&mut p, &[0xaa]);
    let mut q = Program::new();
    epd.update_frame(&mut q, &[0xaa]);
    epd.command(&mut q, epd_waveshare::epd2in7::command::Command::DisplayRefresh);
    assert_eq!(p, q);
    assert_eq!(frames(&p).last(), Some(&Frame::Cmd(0x12, vec![])));
}

#[test]
fn display_frame_refreshes_and_waits() {
    let epd = new_epd();
    let mut p = Program::new();
    epd.display_frame(&mut p);
    assert_eq!(frames(&p), vec![Frame::Cmd(0x12, vec![]), wait()]);
}

#[test]
fn partial_frame_window_bytes() {
    let epd = new_epd();
    let mut p = Program::new();
    epd.update_partial_frame(&mut p, &[9, 8], 0x1234, 0x0567, 0x00ff, 0x0102);
    assert_eq!(
        frames(&p),
        vec![
            Frame::Cmd(0x14, vec![0x12, 0x30, 0x05, 0x67, 0x00, 0xf8, 0x01, 0x02]),
            wait(),
            Frame::Data(vec![9, 8]),
        ]
    );
    // each geometry byte is a data block of its own
    assert_eq!(p.len(), 2 + 8 * 2 + 1 + 1 + 2);
}

#[test]
fn clear_frame_paints_both_frames() {
    let epd = new_epd();
    let mut p = Program::new();
    epd.clear_frame(&mut p);
    assert_eq!(
        frames(&p),
        vec![wait(), Frame::Cmd(0x10, vec![0xff; 5808]), Frame::Cmd(0x13, vec![0xff; 5808])]
    );
}

#[test]
fn background_color_round_trip() {
    let mut epd = new_epd();
    assert_eq!(*epd.background_color(), Color::White);
    epd.set_background_color(Color::Black);
    assert_eq!(*epd.background_color(), Color::Black);
    epd.set_background_color(Color::White);
    assert_eq!(*epd.background_color(), Color::White);
    assert_eq!(epd.width(), 176);
    assert_eq!(epd.height(), 264);
}

#[test]
fn set_lut_ignores_refresh_rate() {
    let epd = new_epd();
    let mut a = Program::new();
    let mut b = Program::new();
    epd.set_lut(&mut a, Some(RefreshLut::Quick));
    epd.set_lut(&mut b, None);
    assert_eq!(a, b);
    assert_eq!(frames(&a)[0], wait());
    assert_eq!(frames(&a).len(), 6);
}

#[test]
fn column_and_row_bytes_decode() {
    // the geometry bytes of a partial window give the values back, columns
    // rounded down to a multiple of 8
    for v in [0u32, 7, 8, 255, 256, 0x1234, 0xffff] {
        let epd = new_epd();
        let mut p = Program::new();
        epd.update_partial_frame(&mut p, &[], v, v, v, v);
        let bytes = match &frames(&p)[0] {
            Frame::Cmd(0x14, d) => d.clone(),
            f => panic!("unexpected {:?}", f),
        };
        let column = bytes[0] as u32 * 256 + bytes[1] as u32;
        let row = bytes[2] as u32 * 256 + bytes[3] as u32;
        assert_eq!(column, v - v % 8);
        assert_eq!(row, v);
        assert_eq!(bytes[4] as u32 * 256 + bytes[5] as u32, v - v % 8);
        assert_eq!(bytes[6] as u32 * 256 + bytes[7] as u32, v);
    }
}
