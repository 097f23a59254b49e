//! Verified drivers for the Waveshare 2.7" e-paper displays (the original
//! panel and its v2 successor).
//!
//! A driver call does not touch the hardware itself: it appends the bus
//! steps it performs (Data/Command and reset pin levels, SPI writes, pauses,
//! waits for the busy pin) to a [`bus::Program`], whose contents every
//! contract states exactly. Carrying a program out on an SPI device and its
//! pins is left to the caller, which stops at the first failed SPI write and
//! takes the decisions of the busy-pin polling loop from
//! [`interface::poll_step`].

pub mod bus;
pub mod color;
pub mod epd2in7;
pub mod epd2in7_v2;
pub mod framing;
pub mod interface;
pub mod received;
pub mod traits;
pub mod transfer;
pub mod type_a;
