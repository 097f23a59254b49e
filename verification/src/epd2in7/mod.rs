//! A simple driver for the Waveshare 2.7" e-ink display via SPI.
//!
//! [Documentation](https://www.waveshare.com/wiki/2.7inch_e-Paper_HAT)
use vstd::prelude::*;

use crate::bus::Level;
use crate::bus::{cmd_ops, cmd_with_data_ops, data_ops, repeated_data_ops, Op, Program, Step};
use crate::color::Color;
use crate::framing::{group_well_framed, lemma_quiet_well_framed, well_framed};
use crate::interface::{
    lemma_received_wait, lemma_reset_well_framed, lemma_wait_well_framed, reset_ops, DisplayInterface,
};
use crate::received::{group_received, received};
use crate::traits::Command as _;
use crate::traits::RefreshLut;

pub mod command;
pub mod constants;

use self::command::Command;
use self::constants::{LUT_BB, LUT_BW, LUT_VCOM_DC, LUT_WB, LUT_WW};

verus! {

/// Width of the display.
pub const WIDTH: u32 = 176;

/// Height of the display.
pub const HEIGHT: u32 = 264;

/// Default background color.
pub const DEFAULT_BACKGROUND_COLOR: Color = Color::White;

/// The panel pulls its busy pin low while it is busy.
pub const IS_BUSY_LOW: bool = true;

/// Data blocks are written to the SPI device one byte at a time.
pub const SINGLE_BYTE_WRITE: bool = true;

/// Bytes of a full frame: one bit per pixel.
pub const FRAME_BYTES: u32 = 5808;

/// The steps of a command without data.
pub open spec fn command_ops(command: Command) -> Seq<Op> {
    cmd_ops(command.spec_address())
}

/// The steps of a block of data.
pub open spec fn send_data_ops(data: Seq<u8>) -> Seq<Op> {
    data_ops(data, SINGLE_BYTE_WRITE)
}

/// The steps of a command with its data.
pub open spec fn command_data_ops(command: Command, data: Seq<u8>) -> Seq<Op> {
    cmd_with_data_ops(command.spec_address(), data, SINGLE_BYTE_WRITE)
}

/// The two bytes that give a horizontal position or a width of a partial
/// window: the high byte, then the low byte rounded down to a multiple of 8.
pub open spec fn column_bytes(v: u32) -> (u8, u8) {
    ((v >> 8u32) as u8, (v & 0xf8u32) as u8)
}

/// The two bytes that give a vertical position or a height of a partial
/// window: the high byte, then the low byte.
pub open spec fn row_bytes(v: u32) -> (u8, u8) {
    ((v >> 8u32) as u8, (v & 0xffu32) as u8)
}

/// Each byte of a partial window's geometry, sent as a data block of its own.
pub open spec fn partial_window_ops(x: u32, y: u32, width: u32, height: u32) -> Seq<Op> {
    send_data_ops(seq![column_bytes(x).0]) + send_data_ops(seq![column_bytes(x).1])
        + send_data_ops(seq![row_bytes(y).0]) + send_data_ops(seq![row_bytes(y).1])
        + send_data_ops(seq![column_bytes(width).0]) + send_data_ops(seq![column_bytes(width).1])
        + send_data_ops(seq![row_bytes(height).0]) + send_data_ops(seq![row_bytes(height).1])
}

/// For positions and widths below 65536, the two bytes of a column give the
/// column back rounded down to a multiple of 8.
pub proof fn lemma_column_bytes_round_down(v: u32)
    requires
        v < 0x10000,
    ensures
        column_bytes(v).0 as int * 256 + column_bytes(v).1 as int == v - v % 8,
{
    assert(((v >> 8u32) as u8) as u32 * 256 + ((v & 0xf8u32) as u8) as u32 == v - v % 8) by (bit_vector)
        requires
            v < 0x10000,
    ;
}

/// For positions and heights below 65536, the two bytes of a row give the
/// row back.
pub proof fn lemma_row_bytes_exact(v: u32)
    requires
        v < 0x10000,
    ensures
        row_bytes(v).0 as int * 256 + row_bytes(v).1 as int == v,
{
    assert(((v >> 8u32) as u8) as u32 * 256 + ((v & 0xffu32) as u8) as u32 == v) by (bit_vector)
        requires
            v < 0x10000,
    ;
}

/// Epd2in7 driver.
pub struct Epd2in7<BUSY, DC, RST> {
    /// Connection interface.
    pub interface: DisplayInterface<BUSY, DC, RST, SINGLE_BYTE_WRITE>,
    /// Background color.
    pub color: Color,
}

impl<BUSY, DC, RST> Epd2in7<BUSY, DC, RST> {
    /// The background color.
    pub open spec fn background(&self) -> Color {
        self.color
    }

    /// The steps of waiting until the panel is idle.
    pub open spec fn wait_ops(&self) -> Seq<Op> {
        self.interface.wait_ops(IS_BUSY_LOW)
    }

    /// The steps that load the look-up tables.
    pub open spec fn lut_ops(&self) -> Seq<Op> {
        self.wait_ops() + command_data_ops(Command::LutForVcom, LUT_VCOM_DC@)
            + command_data_ops(Command::LutWhiteToWhite, LUT_WW@)
            + command_data_ops(Command::LutBlackToWhite, LUT_BW@)
            + command_data_ops(Command::LutWhiteToBlack, LUT_WB@)
            + command_data_ops(Command::LutBlackToBlack, LUT_BB@)
    }

    /// The steps that power the panel up and configure it.
    pub open spec fn init_ops(&self) -> Seq<Op> {
        reset_ops(10_000, 2_000)
            + command_data_ops(Command::PowerSetting, seq![0x03, 0x00, 0x2b, 0x2b, 0x09])
            + command_data_ops(Command::BoosterSoftStart, seq![0x07, 0x07, 0x17])
            + command_data_ops(Command::PowerOptimization, seq![0x60, 0xa5])
            + command_data_ops(Command::PowerOptimization, seq![0x89, 0xa5])
            + command_data_ops(Command::PowerOptimization, seq![0x90, 0x00])
            + command_data_ops(Command::PowerOptimization, seq![0x93, 0x2a])
            + command_data_ops(Command::PowerOptimization, seq![0xa0, 0xa5])
            + command_data_ops(Command::PowerOptimization, seq![0xa1, 0x00])
            + command_data_ops(Command::PowerOptimization, seq![0x73, 0x41])
            + command_data_ops(Command::PartialDisplayRefresh, seq![0x00])
            + command_ops(Command::PowerOn) + seq![Op::DelayUs(5000)] + self.wait_ops()
            + command_data_ops(Command::PanelSetting, seq![0xaf])
            + command_data_ops(Command::PllControl, seq![0x3a])
            + command_data_ops(Command::VcomAndDataIntervalSetting, seq![0x57])
            + command_data_ops(Command::VcmDcSetting, seq![0x12])
            + self.lut_ops() + self.wait_ops()
    }

    /// The steps that put the panel to deep sleep.
    pub open spec fn sleep_ops(&self) -> Seq<Op> {
        self.wait_ops() + command_data_ops(Command::VcomAndDataIntervalSetting, seq![0xf7])
            + command_ops(Command::PowerOff) + self.wait_ops()
            + command_data_ops(Command::DeepSleep, seq![0xa5])
    }

    /// The steps that fill both frame memories: the old frame with the
    /// background color, the new frame with `buffer`.
    pub open spec fn update_frame_ops(&self, buffer: Seq<u8>) -> Seq<Op> {
        command_ops(Command::DataStartTransmission1)
            + repeated_data_ops(self.background().byte_value(), FRAME_BYTES as nat)
            + command_ops(Command::DataStartTransmission2) + send_data_ops(buffer)
    }

    /// The steps that write `buffer` into a partial window.
    pub open spec fn update_partial_frame_ops(
        &self,
        buffer: Seq<u8>,
        x: u32,
        y: u32,
        width: u32,
        height: u32,
    ) -> Seq<Op> {
        command_ops(Command::PartialDataStartTransmission1)
            + partial_window_ops(x, y, width, height) + self.wait_ops() + send_data_ops(buffer)
    }

    /// The steps that show the frame memory on the panel.
    pub open spec fn display_frame_ops(&self) -> Seq<Op> {
        command_ops(Command::DisplayRefresh) + self.wait_ops()
    }

    /// The steps that fill both frame memories with the background color.
    pub open spec fn clear_frame_ops(&self) -> Seq<Op> {
        self.wait_ops() + command_ops(Command::DataStartTransmission1)
            + repeated_data_ops(self.background().byte_value(), FRAME_BYTES as nat)
            + command_ops(Command::DataStartTransmission2)
            + repeated_data_ops(self.background().byte_value(), FRAME_BYTES as nat)
    }

    /// Creates the driver over the given pins and initializes the panel.
    /// The background color is white; without a polling delay, 10ms is used.
    pub fn new(out: &mut Program, busy: BUSY, dc: DC, rst: RST, delay_us: Option<u32>) -> (epd: Self)
        ensures
            epd.interface == DisplayInterface::<BUSY, DC, RST, SINGLE_BYTE_WRITE>::new_spec(busy, dc, rst, delay_us),
            epd.background() == DEFAULT_BACKGROUND_COLOR,
            final(out)@ == old(out)@ + epd.init_ops(),
    {
        let interface = DisplayInterface::new(busy, dc, rst, delay_us);
        let epd = Epd2in7 { interface, color: DEFAULT_BACKGROUND_COLOR };
        epd.init(out);
        epd
    }

    /// Wakes the panel from deep sleep: the same steps as `init`.
    pub fn wake_up(&self, out: &mut Program)
        ensures
            final(out)@ == old(out)@ + self.init_ops(),
    {
        self.init(out);
    }

    /// Puts the panel to deep sleep; only a reset wakes it again.
    pub fn sleep(&self, out: &mut Program)
        ensures
            final(out)@ == old(out)@ + self.sleep_ops(),
    {
        let ghost o = out@;
        self.wait_until_idle(out);
        self.interface.cmd_with_data(out, Command::VcomAndDataIntervalSetting, &[0xf7]);
        self.command(out, Command::PowerOff);
        self.wait_until_idle(out);
        self.interface.cmd_with_data(out, Command::DeepSleep, &[0xa5]);
        assert(out@ =~= o + self.sleep_ops());
    }

    /// Writes a full frame: the old frame memory gets the background color,
    /// the new one gets `buffer`.
    pub fn update_frame(&self, out: &mut Program, buffer: &[u8])
        ensures
            final(out)@ == old(out)@ + self.update_frame_ops(buffer@),
    {
        let ghost o = out@;
        self.interface.cmd(out, Command::DataStartTransmission1);
        self.interface.data_x_times(out, self.color.get_byte_value(), WIDTH * HEIGHT / 8);
        self.interface.cmd(out, Command::DataStartTransmission2);
        self.send_data(out, buffer);
        assert(out@ =~= o + self.update_frame_ops(buffer@));
    }

    /// Writes `buffer` into the window at (`x`, `y`) of the given size. The
    /// horizontal position and the width are rounded down to a multiple of 8.
    pub fn update_partial_frame(
        &self,
        out: &mut Program,
        buffer: &[u8],
        x: u32,
        y: u32,
        width: u32,
        height: u32,
    )
        ensures
            final(out)@ == old(out)@ + self.update_partial_frame_ops(buffer@, x, y, width, height),
    {
        let ghost o = out@;
        self.interface.cmd(out, Command::PartialDataStartTransmission1);
        self.send_data(out, &[(x >> 8) as u8]);
        self.send_data(out, &[(x & 0xf8) as u8]);
        self.send_data(out, &[(y >> 8) as u8]);
        self.send_data(out, &[(y & 0xff) as u8]);
        assert(out@ =~= o + command_ops(Command::PartialDataStartTransmission1)
            + send_data_ops(seq![column_bytes(x).0]) + send_data_ops(seq![column_bytes(x).1])
            + send_data_ops(seq![row_bytes(y).0]) + send_data_ops(seq![row_bytes(y).1]));
        self.send_data(out, &[(width >> 8) as u8]);
        self.send_data(out, &[(width & 0xf8) as u8]);
        self.send_data(out, &[(height >> 8) as u8]);
        self.send_data(out, &[(height & 0xff) as u8]);
        self.wait_until_idle(out);
        self.send_data(out, buffer);
        assert(out@ =~= o + self.update_partial_frame_ops(buffer@, x, y, width, height));
    }

    /// Shows the frame memory on the panel and waits until it is done.
    pub fn display_frame(&self, out: &mut Program)
        ensures
            final(out)@ == old(out)@ + self.display_frame_ops(),
    {
        let ghost o = out@;
        self.command(out, Command::DisplayRefresh);
        self.wait_until_idle(out);
        assert(out@ =~= o + self.display_frame_ops());
    }

    /// Writes a full frame, then starts the refresh without waiting for it.
    pub fn update_and_display_frame(&self, out: &mut Program, buffer: &[u8])
        ensures
            final(out)@ == old(out)@ + self.update_frame_ops(buffer@) + command_ops(Command::DisplayRefresh),
    {
        self.update_frame(out, buffer);
        self.command(out, Command::DisplayRefresh);
    }

    /// Fills both frame memories with the background color.
    pub fn clear_frame(&self, out: &mut Program)
        ensures
            final(out)@ == old(out)@ + self.clear_frame_ops(),
    {
        let ghost o = out@;
        self.wait_until_idle(out);
        let color_value = self.color.get_byte_value();
        self.interface.cmd(out, Command::DataStartTransmission1);
        self.interface.data_x_times(out, color_value, WIDTH * HEIGHT / 8);
        self.interface.cmd(out, Command::DataStartTransmission2);
        self.interface.data_x_times(out, color_value, WIDTH * HEIGHT / 8);
        assert(out@ =~= o + self.clear_frame_ops());
    }

    /// Sets the background color.
    pub fn set_background_color(&mut self, color: Color)
        ensures
            final(self).background() == color,
            final(self).interface == old(self).interface,
    {
        self.color = color;
    }

    /// The background color.
    pub fn background_color(&self) -> (c: &Color)
        ensures
            *c == self.background(),
    {
        &self.color
    }

    /// Width of the display.
    pub fn width(&self) -> (w: u32)
        ensures
            w == WIDTH,
    {
        WIDTH
    }

    /// Height of the display.
    pub fn height(&self) -> (h: u32)
        ensures
            h == HEIGHT,
    {
        HEIGHT
    }

    /// Resets the panel and configures it.
    pub fn init(&self, out: &mut Program)
        ensures
            final(out)@ == old(out)@ + self.init_ops(),
    {
        let ghost o = out@;
        self.interface.reset(out, 10_000, 2_000);
        self.cmd_with_data(out, Command::PowerSetting, &[0x03, 0x00, 0x2b, 0x2b, 0x09]);
        self.cmd_with_data(out, Command::BoosterSoftStart, &[0x07, 0x07, 0x17]);
        self.cmd_with_data(out, Command::PowerOptimization, &[0x60, 0xa5]);
        assert(out@ =~= o + (reset_ops(10_000, 2_000)
            + command_data_ops(Command::PowerSetting, seq![0x03, 0x00, 0x2b, 0x2b, 0x09])
            + command_data_ops(Command::BoosterSoftStart, seq![0x07, 0x07, 0x17])
            + command_data_ops(Command::PowerOptimization, seq![0x60, 0xa5])));
        self.cmd_with_data(out, Command::PowerOptimization, &[0x89, 0xa5]);
        self.cmd_with_data(out, Command::PowerOptimization, &[0x90, 0x00]);
        self.cmd_with_data(out, Command::PowerOptimization, &[0x93, 0x2a]);
        self.cmd_with_data(out, Command::PowerOptimization, &[0xa0, 0xa5]);
        assert(out@ =~= o + (reset_ops(10_000, 2_000)
            + command_data_ops(Command::PowerSetting, seq![0x03, 0x00, 0x2b, 0x2b, 0x09])
            + command_data_ops(Command::BoosterSoftStart, seq![0x07, 0x07, 0x17])
            + command_data_ops(Command::PowerOptimization, seq![0x60, 0xa5])
            + command_data_ops(Command::PowerOptimization, seq![0x89, 0xa5])
            + command_data_ops(Command::PowerOptimization, seq![0x90, 0x00])
            + command_data_ops(Command::PowerOptimization, seq![0x93, 0x2a])
            + command_data_ops(Command::PowerOptimization, seq![0xa0, 0xa5])));
        self.cmd_with_data(out, Command::PowerOptimization, &[0xa1, 0x00]);
        self.cmd_with_data(out, Command::PowerOptimization, &[0x73, 0x41]);
        self.cmd_with_data(out, Command::PartialDisplayRefresh, &[0x00]);
        self.command(out, Command::PowerOn);
        assert(out@ =~= o + (reset_ops(10_000, 2_000)
            + command_data_ops(Command::PowerSetting, seq![0x03, 0x00, 0x2b, 0x2b, 0x09])
            + command_data_ops(Command::BoosterSoftStart, seq![0x07, 0x07, 0x17])
            + command_data_ops(Command::PowerOptimization, seq![0x60, 0xa5])
            + command_data_ops(Command::PowerOptimization, seq![0x89, 0xa5])
            + command_data_ops(Command::PowerOptimization, seq![0x90, 0x00])
            + command_data_ops(Command::PowerOptimization, seq![0x93, 0x2a])
            + command_data_ops(Command::PowerOptimization, seq![0xa0, 0xa5])
            + command_data_ops(Command::PowerOptimization, seq![0xa1, 0x00])
            + command_data_ops(Command::PowerOptimization, seq![0x73, 0x41])
            + command_data_ops(Command::PartialDisplayRefresh, seq![0x00])
            + command_ops(Command::PowerOn)));
        out.push(Step::DelayUs(5000));
        self.wait_until_idle(out);
        self.cmd_with_data(out, Command::PanelSetting, &[0xaf]);
        self.cmd_with_data(out, Command::PllControl, &[0x3a]);
        assert(out@ =~= o + (reset_ops(10_000, 2_000)
            + command_data_ops(Command::PowerSetting, seq![0x03, 0x00, 0x2b, 0x2b, 0x09])
            + command_data_ops(Command::BoosterSoftStart, seq![0x07, 0x07, 0x17])
            + command_data_ops(Command::PowerOptimization, seq![0x60, 0xa5])
            + command_data_ops(Command::PowerOptimization, seq![0x89, 0xa5])
            + command_data_ops(Command::PowerOptimization, seq![0x90, 0x00])
            + command_data_ops(Command::PowerOptimization, seq![0x93, 0x2a])
            + command_data_ops(Command::PowerOptimization, seq![0xa0, 0xa5])
            + command_data_ops(Command::PowerOptimization, seq![0xa1, 0x00])
            + command_data_ops(Command::PowerOptimization, seq![0x73, 0x41])
            + command_data_ops(Command::PartialDisplayRefresh, seq![0x00])
            + command_ops(Command::PowerOn) + seq![Op::DelayUs(5000)] + self.wait_ops()
            + command_data_ops(Command::PanelSetting, seq![0xaf])
            + command_data_ops(Command::PllControl, seq![0x3a])));
        self.cmd_with_data(out, Command::VcomAndDataIntervalSetting, &[0x57]);
        self.cmd_with_data(out, Command::VcmDcSetting, &[0x12]);
        self.set_lut(out, None);
        self.wait_until_idle(out);
        assert(out@ =~= o + self.init_ops());
    }

    /// Loads the look-up tables. The panel has one set of tables, so the
    /// refresh rate asked for is not used.
    pub fn set_lut(&self, out: &mut Program, _refresh_rate: Option<RefreshLut>)
        ensures
            final(out)@ == old(out)@ + self.lut_ops(),
    {
        self.wait_until_idle(out);
        self.cmd_with_data(out, Command::LutForVcom, &LUT_VCOM_DC);
        self.cmd_with_data(out, Command::LutWhiteToWhite, &LUT_WW);
        self.cmd_with_data(out, Command::LutBlackToWhite, &LUT_BW);
        self.cmd_with_data(out, Command::LutWhiteToBlack, &LUT_WB);
        self.cmd_with_data(out, Command::LutBlackToBlack, &LUT_BB);
        assert(final(out)@ =~= old(out)@ + self.lut_ops());
    }

    /// Waits until the panel is idle.
    pub fn wait_until_idle(&self, out: &mut Program)
        ensures
            final(out)@ == old(out)@ + self.wait_ops(),
    {
        self.interface.wait_until_idle(out, IS_BUSY_LOW);
    }

    /// Sends a command without data.
    pub fn command(&self, out: &mut Program, command: Command)
        ensures
            final(out)@ == old(out)@ + command_ops(command),
    {
        self.interface.cmd(out, command);
    }

    /// Sends a block of data.
    pub fn send_data(&self, out: &mut Program, data: &[u8])
        ensures
            final(out)@ == old(out)@ + send_data_ops(data@),
    {
        self.interface.data(out, data);
    }

    /// Sends a command followed by its data.
    pub fn cmd_with_data(&self, out: &mut Program, command: Command, data: &[u8])
        ensures
            final(out)@ == old(out)@ + command_data_ops(command, data@),
    {
        self.interface.cmd_with_data(out, command, data);
    }
}

/// Every program of the driver is well framed: no SPI write happens before
/// the Data/Command pin is set, and every write made while it is low is one
/// command byte.
pub proof fn lemma_programs_well_framed<BUSY, DC, RST>(
    epd: Epd2in7<BUSY, DC, RST>,
    buffer: Seq<u8>,
    x: u32,
    y: u32,
    width: u32,
    height: u32,
)
    ensures
        well_framed(epd.init_ops()),
        well_framed(epd.sleep_ops()),
        well_framed(epd.lut_ops()),
        well_framed(epd.update_frame_ops(buffer)),
        well_framed(epd.update_partial_frame_ops(buffer, x, y, width, height)),
        well_framed(epd.display_frame_ops()),
        well_framed(epd.update_frame_ops(buffer) + command_ops(Command::DisplayRefresh)),
        well_framed(epd.clear_frame_ops()),
{
    broadcast use group_well_framed, lemma_reset_well_framed, lemma_wait_well_framed;
    lemma_quiet_well_framed(seq![Op::DelayUs(5000)]);
}

/// The byte that paints eight pixels of `color`.
pub open spec fn paint(color: Color) -> u8 {
    if color == Color::Black {
        0x00
    } else {
        0xff
    }
}

/// Clearing the frame hands the panel command 0x10 (old frame), the
/// background byte once per eight pixels, command 0x13 (new frame) and the
/// background byte again once per eight pixels: both frame memories are
/// painted with the background color, whatever it is.
pub proof fn lemma_clear_frame_paints_background<BUSY, DC, RST>(epd: Epd2in7<BUSY, DC, RST>, dc: Level)
    ensures
        ({
            let r = received(epd.clear_frame_ops(), dc);
            &&& r.len() == 2 + 2 * (WIDTH * HEIGHT / 8)
            &&& r[0] == (Level::Low, 0x10u8)
            &&& r[5809] == (Level::Low, 0x13u8)
            &&& forall|i: int| 1 <= i < 5809 ==> r[i] == (Level::High, paint(epd.color))
            &&& forall|i: int| 5810 <= i < r.len() ==> r[i] == (Level::High, paint(epd.color))
        }),
{
    broadcast use group_received, lemma_received_wait;

    let v = epd.color.byte_value();
    assert(received(epd.clear_frame_ops(), dc) =~= seq![(Level::Low, 0x10u8)] + Seq::new(
        5808,
        |i: int| (Level::High, v),
    ) + seq![(Level::Low, 0x13u8)] + Seq::new(5808, |i: int| (Level::High, v)));
}

/// Writing a full frame hands the panel command 0x10 (old frame) and the
/// background byte once per eight pixels, then command 0x13 (new frame) and
/// the buffer, byte for byte; showing it at once adds the refresh command
/// 0x12.
pub proof fn lemma_update_frame_writes_background_then_buffer<BUSY, DC, RST>(
    epd: Epd2in7<BUSY, DC, RST>,
    buffer: Seq<u8>,
    dc: Level,
)
    ensures
        ({
            let r = received(epd.update_frame_ops(buffer), dc);
            &&& r.len() == 2 + WIDTH * HEIGHT / 8 + buffer.len()
            &&& r[0] == (Level::Low, 0x10u8)
            &&& forall|i: int| 1 <= i < 5809 ==> r[i] == (Level::High, paint(epd.color))
            &&& r[5809] == (Level::Low, 0x13u8)
            &&& forall|i: int| 0 <= i < buffer.len() ==> r[5810 + i] == (Level::High, buffer[i])
        }),
        received(epd.update_frame_ops(buffer) + command_ops(Command::DisplayRefresh), dc) == received(
            epd.update_frame_ops(buffer),
            dc,
        ) + seq![(Level::Low, 0x12u8)],
{
    broadcast use group_received, lemma_received_wait;

    let v = epd.color.byte_value();
    let r = received(epd.update_frame_ops(buffer), dc);
    assert(r =~= seq![(Level::Low, 0x10u8)] + Seq::new(5808, |i: int| (Level::High, v)) + seq![
        (Level::Low, 0x13u8),
    ] + buffer.map_values(|b: u8| (Level::High, b)));
    assert(received(epd.update_frame_ops(buffer) + command_ops(Command::DisplayRefresh), dc)
        =~= r + seq![(Level::Low, 0x12u8)]);
}

/// Writing a partial window hands the panel command 0x14, then the eight
/// geometry bytes in the order x, y, width, height (high byte first; x and
/// the width rounded down to a multiple of 8), then, after the wait, the
/// buffer byte for byte. For values below 65536 the geometry bytes give the
/// arguments back.
pub proof fn lemma_partial_window_geometry<BUSY, DC, RST>(
    epd: Epd2in7<BUSY, DC, RST>,
    buffer: Seq<u8>,
    x: u32,
    y: u32,
    width: u32,
    height: u32,
    dc: Level,
)
    ensures
        ({
            let r = received(epd.update_partial_frame_ops(buffer, x, y, width, height), dc);
            &&& r.len() == 9 + buffer.len()
            &&& r[0] == (Level::Low, 0x14u8)
            &&& r[1] == (Level::High, (x >> 8u32) as u8)
            &&& r[2] == (Level::High, (x & 0xf8u32) as u8)
            &&& r[3] == (Level::High, (y >> 8u32) as u8)
            &&& r[4] == (Level::High, (y & 0xffu32) as u8)
            &&& r[5] == (Level::High, (width >> 8u32) as u8)
            &&& r[6] == (Level::High, (width & 0xf8u32) as u8)
            &&& r[7] == (Level::High, (height >> 8u32) as u8)
            &&& r[8] == (Level::High, (height & 0xffu32) as u8)
            &&& (x < 0x10000 ==> r[1].1 * 256 + r[2].1 == x - x % 8)
            &&& (y < 0x10000 ==> r[3].1 * 256 + r[4].1 == y)
            &&& (width < 0x10000 ==> r[5].1 * 256 + r[6].1 == width - width % 8)
            &&& (height < 0x10000 ==> r[7].1 * 256 + r[8].1 == height)
            &&& forall|i: int| 0 <= i < buffer.len() ==> r[9 + i] == (Level::High, buffer[i])
        }),
{
    broadcast use group_received, lemma_received_wait;

    let r = received(epd.update_partial_frame_ops(buffer, x, y, width, height), dc);
    assert(r =~= seq![
        (Level::Low, 0x14u8),
        (Level::High, (x >> 8u32) as u8),
        (Level::High, (x & 0xf8u32) as u8),
        (Level::High, (y >> 8u32) as u8),
        (Level::High, (y & 0xffu32) as u8),
        (Level::High, (width >> 8u32) as u8),
        (Level::High, (width & 0xf8u32) as u8),
        (Level::High, (height >> 8u32) as u8),
        (Level::High, (height & 0xffu32) as u8),
    ] + buffer.map_values(|b: u8| (Level::High, b)));
    if x < 0x10000 {
        lemma_column_bytes_round_down(x);
    }
    if y < 0x10000 {
        lemma_row_bytes_exact(y);
    }
    if width < 0x10000 {
        lemma_column_bytes_round_down(width);
    }
    if height < 0x10000 {
        lemma_row_bytes_exact(height);
    }
}

} // verus!
