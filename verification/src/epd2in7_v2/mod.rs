//! A simple driver for the Waveshare 2.7" v2 e-paper HAT display via SPI.
//!
//! 4 Gray support and partial refresh is not fully implemented yet.
//!
//! # References
//!
//! - [Datasheet](https://www.waveshare.com/wiki/2.7inch_e-Paper_HAT_Manual)
//! - [Waveshare C driver](https://github.com/waveshareteam/e-Paper/blob/master/RaspberryPi_JetsonNano/c/lib/e-Paper/EPD_2in7_V2.c)
//! - [Waveshare Python driver](https://github.com/waveshareteam/e-Paper/blob/master/RaspberryPi_JetsonNano/python/lib/waveshare_epd/epd2in7_V2.py)
use vstd::prelude::*;

use crate::bus::Level;
use crate::bus::{cmd_ops, cmd_with_data_ops, repeated_data_ops, Op, Program};
use crate::framing::{group_well_framed, well_framed};
use crate::color::Color;
use crate::interface::{
    lemma_received_wait, lemma_reset_well_framed, lemma_wait_well_framed, reset_ops, DisplayInterface,
};
use crate::received::{group_received, received};
use crate::epd2in7::paint;
use crate::traits::Command as _;
use crate::traits::RefreshLut;
use crate::type_a::command::Command;

verus! {

/// Width of the display.
pub const WIDTH: u32 = 176;

/// Height of the display.
pub const HEIGHT: u32 = 264;

/// Default background color.
pub const DEFAULT_BACKGROUND_COLOR: Color = Color::White;

/// The panel drives its busy pin high while it is busy.
pub const IS_BUSY_LOW: bool = false;

/// Data blocks are written to the SPI device one byte at a time.
pub const SINGLE_BYTE_WRITE: bool = true;

/// Bytes of a full frame: one bit per pixel.
pub const FRAME_BYTES: u32 = 5808;

/// The steps of a command without data.
pub open spec fn command_ops(command: Command) -> Seq<Op> {
    cmd_ops(command.spec_address())
}

/// The steps of a command with its data.
pub open spec fn command_data_ops(command: Command, data: Seq<u8>) -> Seq<Op> {
    cmd_with_data_ops(command.spec_address(), data, SINGLE_BYTE_WRITE)
}

/// The first and last RAM column of a window, in bytes of eight pixels.
pub open spec fn ram_x_bytes(start_x: u32, end_x: u32) -> Seq<u8> {
    seq![(start_x >> 3u32) as u8, (end_x >> 3u32) as u8]
}

/// The two bytes of a RAM row: the low eight bits, then the ninth bit.
pub open spec fn ram_row_bytes(y: u32) -> Seq<u8> {
    seq![(y & 0xffu32) as u8, ((y >> 8u32) & 0x01u32) as u8]
}

/// The steps that select the RAM window written next.
pub open spec fn set_ram_area_ops(start_x: u32, start_y: u32, end_x: u32, end_y: u32) -> Seq<Op> {
    command_data_ops(Command::SetRamXAddressStartEndPosition, ram_x_bytes(start_x, end_x))
        + command_data_ops(
        Command::SetRamYAddressStartEndPosition,
        ram_row_bytes(start_y) + ram_row_bytes(end_y),
    )
}

/// The data byte of a display update sequence: full or quick refresh.
pub open spec fn update_sequence_byte(refresh: RefreshLut) -> u8 {
    match refresh {
        RefreshLut::Full => 0xf7,
        RefreshLut::Quick => 0xc7,
    }
}

/// For columns below 2048, the RAM column bytes are the columns divided by 8
/// (each RAM byte holds eight pixels).
pub proof fn lemma_ram_x_bytes_divide(start_x: u32, end_x: u32)
    requires
        start_x < 2048,
        end_x < 2048,
    ensures
        ram_x_bytes(start_x, end_x)[0] as int == start_x / 8,
        ram_x_bytes(start_x, end_x)[1] as int == end_x / 8,
{
    assert(((start_x >> 3u32) as u8) as u32 == start_x / 8) by (bit_vector)
        requires
            start_x < 2048,
    ;
    assert(((end_x >> 3u32) as u8) as u32 == end_x / 8) by (bit_vector)
        requires
            end_x < 2048,
    ;
}

/// For rows below 512, the two bytes of a RAM row give the row back.
pub proof fn lemma_ram_row_bytes_exact(y: u32)
    requires
        y < 512,
    ensures
        ram_row_bytes(y)[0] as int + 256 * ram_row_bytes(y)[1] as int == y,
{
    assert(((y & 0xffu32) as u8) as u32 + 256 * (((y >> 8u32) & 0x01u32) as u8) as u32 == y) by (bit_vector)
        requires
            y < 512,
    ;
}

/// Epd2in7 v2 driver.
pub struct Epd2in7<BUSY, DC, RST> {
    /// Connection interface.
    pub interface: DisplayInterface<BUSY, DC, RST, SINGLE_BYTE_WRITE>,
    /// Background color.
    pub color: Color,
    /// Refresh mode of the next display update.
    pub refresh: RefreshLut,
}

impl<BUSY, DC, RST> Epd2in7<BUSY, DC, RST> {
    /// The background color.
    pub open spec fn background(&self) -> Color {
        self.color
    }

    /// The steps of waiting until the panel is idle.
    pub open spec fn wait_ops(&self) -> Seq<Op> {
        self.interface.wait_ops(IS_BUSY_LOW)
    }

    /// The steps that move the RAM address counter.
    pub open spec fn set_ram_counter_ops(&self, x: u32, y: u32) -> Seq<Op> {
        self.wait_ops() + command_data_ops(Command::SetRamXAddressCounter, seq![(x & 0xffu32) as u8])
            + command_data_ops(Command::SetRamYAddressCounter, ram_row_bytes(y))
    }

    /// The steps that select the whole RAM and move the counter to its start.
    pub open spec fn use_full_frame_ops(&self) -> Seq<Op> {
        set_ram_area_ops(0, 0, (WIDTH - 1) as u32, (HEIGHT - 1) as u32) + self.set_ram_counter_ops(0, 0)
    }

    /// The steps that reset the panel and configure it.
    pub open spec fn init_ops(&self) -> Seq<Op> {
        reset_ops(200_000, 2_000) + self.wait_ops() + command_ops(Command::SwReset) + self.wait_ops()
            + self.use_full_frame_ops() + command_data_ops(Command::DataEntryModeSetting, seq![0x03])
    }

    /// The steps that put the panel to deep sleep.
    pub open spec fn sleep_ops(&self) -> Seq<Op> {
        self.wait_ops() + command_data_ops(Command::DeepSleepMode, seq![0x01])
    }

    /// The steps that write a full frame.
    pub open spec fn update_frame_ops(&self, buffer: Seq<u8>) -> Seq<Op> {
        self.wait_ops() + self.use_full_frame_ops() + command_data_ops(Command::WriteRam, buffer)
    }

    /// The steps that write `buffer` into a partial window.
    pub open spec fn update_partial_frame_ops(
        &self,
        buffer: Seq<u8>,
        x: u32,
        y: u32,
        width: u32,
        height: u32,
    ) -> Seq<Op> {
        self.wait_ops() + set_ram_area_ops(x, y, (x + width) as u32, (y + height) as u32)
            + self.set_ram_counter_ops(x, y) + command_data_ops(Command::WriteRam, buffer)
    }

    /// The steps that show the RAM on the panel.
    pub open spec fn display_frame_ops(&self) -> Seq<Op> {
        self.wait_ops() + command_data_ops(
            Command::DisplayUpdateControl2,
            seq![update_sequence_byte(self.refresh)],
        ) + command_ops(Command::MasterActivation) + self.wait_ops()
    }

    /// The steps that fill the RAM with the background color.
    pub open spec fn clear_frame_ops(&self) -> Seq<Op> {
        self.wait_ops() + self.use_full_frame_ops() + command_ops(Command::WriteRam)
            + repeated_data_ops(self.background().byte_value(), FRAME_BYTES as nat)
    }

    /// Resets the panel and configures it.
    pub fn init(&self, out: &mut Program)
        ensures
            final(out)@ == old(out)@ + self.init_ops(),
    {
        let ghost o = out@;
        self.interface.reset(out, 200_000, 2_000);
        self.wait_until_idle(out);
        self.command(out, Command::SwReset);
        self.wait_until_idle(out);
        self.use_full_frame(out);
        self.interface.cmd_with_data(out, Command::DataEntryModeSetting, &[0x03]);
        assert(out@ =~= o + self.init_ops());
    }

    /// Creates the driver over the given pins and initializes the panel.
    /// The background color is white and the refresh mode full; without a
    /// polling delay, 10ms is used.
    pub fn new(out: &mut Program, busy: BUSY, dc: DC, rst: RST, delay_us: Option<u32>) -> (epd: Self)
        ensures
            epd.interface == DisplayInterface::<BUSY, DC, RST, SINGLE_BYTE_WRITE>::new_spec(busy, dc, rst, delay_us),
            epd.background() == DEFAULT_BACKGROUND_COLOR,
            epd.refresh == RefreshLut::Full,
            final(out)@ == old(out)@ + epd.init_ops(),
    {
        let interface = DisplayInterface::new(busy, dc, rst, delay_us);
        let epd = Epd2in7 { interface, color: DEFAULT_BACKGROUND_COLOR, refresh: RefreshLut::Full };
        epd.init(out);
        epd
    }

    /// Wakes the panel from deep sleep: the same steps as `init`.
    pub fn wake_up(&self, out: &mut Program)
        ensures
            final(out)@ == old(out)@ + self.init_ops(),
    {
        self.init(out);
    }

    /// Puts the panel to deep sleep.
    pub fn sleep(&self, out: &mut Program)
        ensures
            final(out)@ == old(out)@ + self.sleep_ops(),
    {
        self.wait_until_idle(out);
        self.interface.cmd_with_data(out, Command::DeepSleepMode, &[0x01]);
    }

    /// Writes a full frame into the RAM.
    pub fn update_frame(&self, out: &mut Program, buffer: &[u8])
        ensures
            final(out)@ == old(out)@ + self.update_frame_ops(buffer@),
    {
        self.wait_until_idle(out);
        self.use_full_frame(out);
        self.interface.cmd_with_data(out, Command::WriteRam, buffer);
    }

    /// Writes `buffer` into the window at (`x`, `y`) of the given size.
    pub fn update_partial_frame(
        &self,
        out: &mut Program,
        buffer: &[u8],
        x: u32,
        y: u32,
        width: u32,
        height: u32,
    )
        requires
            0 < width,
            0 < height,
            x + width <= u32::MAX,
            y + height <= u32::MAX,
        ensures
            final(out)@ == old(out)@ + self.update_partial_frame_ops(buffer@, x, y, width, height),
    {
        let ghost o = out@;
        self.wait_until_idle(out);
        self.set_ram_area(out, x, y, x + width, y + height);
        self.set_ram_counter(out, x, y);
        self.interface.cmd_with_data(out, Command::WriteRam, buffer);
        assert(out@ =~= o + self.update_partial_frame_ops(buffer@, x, y, width, height));
    }

    /// Shows the RAM on the panel with the current refresh mode and waits
    /// until it is done.
    pub fn display_frame(&self, out: &mut Program)
        ensures
            final(out)@ == old(out)@ + self.display_frame_ops(),
    {
        let ghost o = out@;
        self.wait_until_idle(out);
        match self.refresh {
            RefreshLut::Full => {
                self.interface.cmd_with_data(out, Command::DisplayUpdateControl2, &[0xf7]);
            },
            RefreshLut::Quick => {
                self.interface.cmd_with_data(out, Command::DisplayUpdateControl2, &[0xc7]);
            },
        }
        self.interface.cmd(out, Command::MasterActivation);
        self.wait_until_idle(out);
        assert(out@ =~= o + self.display_frame_ops());
    }

    /// Writes a full frame, then shows it.
    pub fn update_and_display_frame(&self, out: &mut Program, buffer: &[u8])
        ensures
            final(out)@ == old(out)@ + self.update_frame_ops(buffer@) + self.display_frame_ops(),
    {
        self.update_frame(out, buffer);
        self.display_frame(out);
    }

    /// Fills the RAM with the background color.
    pub fn clear_frame(&self, out: &mut Program)
        ensures
            final(out)@ == old(out)@ + self.clear_frame_ops(),
    {
        let ghost o = out@;
        self.wait_until_idle(out);
        self.use_full_frame(out);
        let color = self.color.get_byte_value();
        self.interface.cmd(out, Command::WriteRam);
        self.interface.data_x_times(out, color, WIDTH / 8 * HEIGHT);
        assert(out@ =~= o + self.clear_frame_ops());
    }

    /// Sets the background color.
    pub fn set_background_color(&mut self, color: Color)
        ensures
            final(self).background() == color,
            final(self).interface == old(self).interface,
            final(self).refresh == old(self).refresh,
    {
        self.color = color;
    }

    /// The background color.
    pub fn background_color(&self) -> (c: &Color)
        ensures
            *c == self.background(),
    {
        &self.color
    }

    /// Width of the display.
    pub fn width(&self) -> (w: u32)
        ensures
            w == WIDTH,
    {
        WIDTH
    }

    /// Height of the display.
    pub fn height(&self) -> (h: u32)
        ensures
            h == HEIGHT,
    {
        HEIGHT
    }

    /// Chooses the refresh mode of the next display updates; `None` keeps
    /// the current one. Nothing is sent to the panel.
    pub fn set_lut(&mut self, out: &mut Program, refresh_rate: Option<RefreshLut>)
        ensures
            final(self).refresh == (match refresh_rate {
                Some(r) => r,
                None => old(self).refresh,
            }),
            final(self).interface == old(self).interface,
            final(self).background() == old(self).background(),
            final(out)@ == old(out)@,
    {
        if let Some(refresh_lut) = refresh_rate {
            self.refresh = refresh_lut;
        }
    }

    /// Waits until the panel is idle.
    pub fn wait_until_idle(&self, out: &mut Program)
        ensures
            final(out)@ == old(out)@ + self.wait_ops(),
    {
        self.interface.wait_until_idle(out, IS_BUSY_LOW);
    }

    /// Sends a command without data.
    pub fn command(&self, out: &mut Program, command: Command)
        ensures
            final(out)@ == old(out)@ + command_ops(command),
    {
        self.interface.cmd(out, command);
    }

    /// Selects the RAM window written next. Both ends are inclusive.
    pub fn set_ram_area(&self, out: &mut Program, start_x: u32, start_y: u32, end_x: u32, end_y: u32)
        requires
            start_x < end_x,
            start_y < end_y,
        ensures
            final(out)@ == old(out)@ + set_ram_area_ops(start_x, start_y, end_x, end_y),
    {
        let ghost o = out@;
        self.interface.cmd_with_data(
            out,
            Command::SetRamXAddressStartEndPosition,
            &[(start_x >> 3) as u8, (end_x >> 3) as u8],
        );
        self.interface.cmd_with_data(
            out,
            Command::SetRamYAddressStartEndPosition,
            &[
                (start_y & 0xff) as u8,
                ((start_y >> 8) & 0x01) as u8,
                (end_y & 0xff) as u8,
                ((end_y >> 8) & 0x01) as u8,
            ],
        );
        assert(ram_row_bytes(start_y) + ram_row_bytes(end_y) =~= seq![
            (start_y & 0xff) as u8,
            ((start_y >> 8) & 0x01) as u8,
            (end_y & 0xff) as u8,
            ((end_y >> 8) & 0x01) as u8,
        ]);
        assert(out@ =~= o + set_ram_area_ops(start_x, start_y, end_x, end_y));
    }

    /// Moves the RAM address counter to (`x`, `y`).
    pub fn set_ram_counter(&self, out: &mut Program, x: u32, y: u32)
        ensures
            final(out)@ == old(out)@ + self.set_ram_counter_ops(x, y),
    {
        let ghost o = out@;
        self.wait_until_idle(out);
        self.interface.cmd_with_data(out, Command::SetRamXAddressCounter, &[(x & 0xff) as u8]);
        self.interface.cmd_with_data(
            out,
            Command::SetRamYAddressCounter,
            &[(y & 0xff) as u8, ((y >> 8) & 0x01) as u8],
        );
        assert(out@ =~= o + self.set_ram_counter_ops(x, y));
    }

    /// Selects the whole RAM and moves the counter to its start.
    pub fn use_full_frame(&self, out: &mut Program)
        ensures
            final(out)@ == old(out)@ + self.use_full_frame_ops(),
    {
        let ghost o = out@;
        self.set_ram_area(out, 0, 0, WIDTH - 1, HEIGHT - 1);
        self.set_ram_counter(out, 0, 0);
        assert(out@ =~= o + self.use_full_frame_ops());
    }
}

/// Every program of the driver is well framed: no SPI write happens before
/// the Data/Command pin is set, and every write made while it is low is one
/// command byte.
pub proof fn lemma_programs_well_framed<BUSY, DC, RST>(
    epd: Epd2in7<BUSY, DC, RST>,
    buffer: Seq<u8>,
    x: u32,
    y: u32,
    width: u32,
    height: u32,
)
    ensures
        well_framed(epd.init_ops()),
        well_framed(epd.sleep_ops()),
        well_framed(epd.update_frame_ops(buffer)),
        well_framed(epd.update_partial_frame_ops(buffer, x, y, width, height)),
        well_framed(epd.display_frame_ops()),
        well_framed(epd.update_frame_ops(buffer) + epd.display_frame_ops()),
        well_framed(epd.clear_frame_ops()),
{
    broadcast use group_well_framed, lemma_reset_well_framed, lemma_wait_well_framed;
}

/// The bytes that select a RAM window.
proof fn lemma_received_set_ram_area(start_x: u32, start_y: u32, end_x: u32, end_y: u32, dc: Level)
    ensures
        received(set_ram_area_ops(start_x, start_y, end_x, end_y), dc) == seq![
            (Level::Low, 0x44u8),
            (Level::High, (start_x >> 3u32) as u8),
            (Level::High, (end_x >> 3u32) as u8),
            (Level::Low, 0x45u8),
            (Level::High, (start_y & 0xffu32) as u8),
            (Level::High, ((start_y >> 8u32) & 1u32) as u8),
            (Level::High, (end_y & 0xffu32) as u8),
            (Level::High, ((end_y >> 8u32) & 1u32) as u8),
        ],
{
    broadcast use group_received;

    let rows = ram_row_bytes(start_y) + ram_row_bytes(end_y);
    assert(rows =~= seq![
        (start_y & 0xffu32) as u8,
        ((start_y >> 8u32) & 1u32) as u8,
        (end_y & 0xffu32) as u8,
        ((end_y >> 8u32) & 1u32) as u8,
    ]);
    assert(received(set_ram_area_ops(start_x, start_y, end_x, end_y), dc) =~= seq![
        (Level::Low, 0x44u8),
        (Level::High, (start_x >> 3u32) as u8),
        (Level::High, (end_x >> 3u32) as u8),
        (Level::Low, 0x45u8),
        (Level::High, (start_y & 0xffu32) as u8),
        (Level::High, ((start_y >> 8u32) & 1u32) as u8),
        (Level::High, (end_y & 0xffu32) as u8),
        (Level::High, ((end_y >> 8u32) & 1u32) as u8),
    ]);
}

/// The bytes that move the RAM address counter.
proof fn lemma_received_set_ram_counter<BUSY, DC, RST>(epd: Epd2in7<BUSY, DC, RST>, x: u32, y: u32, dc: Level)
    ensures
        received(epd.set_ram_counter_ops(x, y), dc) == seq![
            (Level::Low, 0x4eu8),
            (Level::High, (x & 0xffu32) as u8),
            (Level::Low, 0x4fu8),
            (Level::High, (y & 0xffu32) as u8),
            (Level::High, ((y >> 8u32) & 1u32) as u8),
        ],
{
    broadcast use group_received, lemma_received_wait;

    assert(received(epd.set_ram_counter_ops(x, y), dc) =~= seq![
        (Level::Low, 0x4eu8),
        (Level::High, (x & 0xffu32) as u8),
        (Level::Low, 0x4fu8),
        (Level::High, (y & 0xffu32) as u8),
        (Level::High, ((y >> 8u32) & 1u32) as u8),
    ]);
}

/// The bytes that select the whole RAM and move the counter to its start:
/// columns 0 to 21 (in bytes), rows 0 to 263, counter at (0, 0).
pub open spec fn full_frame_bytes() -> Seq<(Level, u8)> {
    seq![
        (Level::Low, 0x44u8),
        (Level::High, 0u8),
        (Level::High, 21u8),
        (Level::Low, 0x45u8),
        (Level::High, 0u8),
        (Level::High, 0u8),
        (Level::High, 7u8),
        (Level::High, 1u8),
        (Level::Low, 0x4eu8),
        (Level::High, 0u8),
        (Level::Low, 0x4fu8),
        (Level::High, 0u8),
        (Level::High, 0u8),
    ]
}

/// Clearing the frame selects the whole RAM, sends command 0x24 (write
/// RAM) and then the background byte once per eight pixels: the RAM is
/// painted with the background color, whatever it is.
pub proof fn lemma_clear_frame_paints_background<BUSY, DC, RST>(epd: Epd2in7<BUSY, DC, RST>, dc: Level)
    ensures
        ({
            let r = received(epd.clear_frame_ops(), dc);
            &&& r.len() == 14 + WIDTH / 8 * HEIGHT
            &&& r.subrange(0, 13) == full_frame_bytes()
            &&& r[13] == (Level::Low, 0x24u8)
            &&& forall|i: int| 14 <= i < r.len() ==> r[i] == (Level::High, paint(epd.color))
        }),
{
    broadcast use group_received, lemma_received_wait;

    let v = epd.color.byte_value();
    let r = received(epd.clear_frame_ops(), dc);
    lemma_received_set_ram_area(0, 0, 175, 263, dc);
    lemma_received_set_ram_counter(epd, 0, 0, dc);
    assert(((0u32 >> 3u32) as u8) == 0u8 && ((175u32 >> 3u32) as u8) == 21u8 && ((0u32 & 0xffu32) as u8) == 0u8
        && (((0u32 >> 8u32) & 1u32) as u8) == 0u8 && ((263u32 & 0xffu32) as u8) == 7u8
        && (((263u32 >> 8u32) & 1u32) as u8) == 1u8) by (bit_vector);
    assert(received(epd.use_full_frame_ops(), dc) =~= full_frame_bytes());
    assert(r =~= full_frame_bytes() + seq![(Level::Low, 0x24u8)] + Seq::new(
        5808,
        |i: int| (Level::High, v),
    ));
    assert(r.subrange(0, 13) =~= full_frame_bytes());
}

/// Writing a partial window selects the RAM window from column byte x/8 to
/// (x + width)/8 and from row y to y + height, moves the address counter to
/// (x, y), sends command 0x24 (write RAM) and the buffer byte for byte. The
/// bytes give the arguments back: columns below 2048 in bytes of eight
/// pixels, counter columns below 256 exactly, rows below 512 exactly.
pub proof fn lemma_partial_frame_window_and_counter<BUSY, DC, RST>(
    epd: Epd2in7<BUSY, DC, RST>,
    buffer: Seq<u8>,
    x: u32,
    y: u32,
    width: u32,
    height: u32,
    dc: Level,
)
    requires
        x + width <= u32::MAX,
        y + height <= u32::MAX,
    ensures
        ({
            let r = received(epd.update_partial_frame_ops(buffer, x, y, width, height), dc);
            let end_x = (x + width) as u32;
            let end_y = (y + height) as u32;
            &&& r == seq![
                (Level::Low, 0x44u8),
                (Level::High, (x >> 3u32) as u8),
                (Level::High, (end_x >> 3u32) as u8),
                (Level::Low, 0x45u8),
                (Level::High, (y & 0xffu32) as u8),
                (Level::High, ((y >> 8u32) & 1u32) as u8),
                (Level::High, (end_y & 0xffu32) as u8),
                (Level::High, ((end_y >> 8u32) & 1u32) as u8),
                (Level::Low, 0x4eu8),
                (Level::High, (x & 0xffu32) as u8),
                (Level::Low, 0x4fu8),
                (Level::High, (y & 0xffu32) as u8),
                (Level::High, ((y >> 8u32) & 1u32) as u8),
                (Level::Low, 0x24u8),
            ] + buffer.map_values(|b: u8| (Level::High, b))
            &&& (x + width < 2048 ==> r[1].1 == x / 8 && r[2].1 == (x + width) / 8)
            &&& (y + height < 512 ==> r[4].1 + 256 * r[5].1 == y && r[6].1 + 256 * r[7].1 == y + height)
            &&& (x < 256 ==> r[9].1 == x)
            &&& (y < 512 ==> r[11].1 + 256 * r[12].1 == y)
        }),
{
    broadcast use group_received, lemma_received_wait;

    let r = received(epd.update_partial_frame_ops(buffer, x, y, width, height), dc);
    let end_x = (x + width) as u32;
    let end_y = (y + height) as u32;
    lemma_received_set_ram_area(x, y, end_x, end_y, dc);
    lemma_received_set_ram_counter(epd, x, y, dc);
    assert(r =~= seq![
        (Level::Low, 0x44u8),
        (Level::High, (x >> 3u32) as u8),
        (Level::High, (end_x >> 3u32) as u8),
        (Level::Low, 0x45u8),
        (Level::High, (y & 0xffu32) as u8),
        (Level::High, ((y >> 8u32) & 1u32) as u8),
        (Level::High, (end_y & 0xffu32) as u8),
        (Level::High, ((end_y >> 8u32) & 1u32) as u8),
        (Level::Low, 0x4eu8),
        (Level::High, (x & 0xffu32) as u8),
        (Level::Low, 0x4fu8),
        (Level::High, (y & 0xffu32) as u8),
        (Level::High, ((y >> 8u32) & 1u32) as u8),
        (Level::Low, 0x24u8),
    ] + buffer.map_values(|b: u8| (Level::High, b)));
    if x + width < 2048 {
        lemma_ram_x_bytes_divide(x, end_x);
    }
    if y + height < 512 {
        lemma_ram_row_bytes_exact(y);
        lemma_ram_row_bytes_exact(end_y);
    }
    if x < 256 {
        assert(((x & 0xffu32) as u8) as u32 == x) by (bit_vector)
            requires
                x < 256,
        ;
    }
    if y < 512 {
        lemma_ram_row_bytes_exact(y);
    }
}

} // verus!
