# epd_waveshare

Drivers for the Waveshare 2.7" e-paper displays (`epd2in7` and `epd2in7_v2`),
verified with Verus.

- `src/` is the verified library. A driver call appends the bus steps it
  performs (Data/Command and reset pin levels, SPI writes, pauses, waits for
  the busy pin) to a `bus::Program`; each contract states that program
  exactly. `framing`, `received` and `transfer` hold the laws about programs:
  every program is well framed, the write mode does not change the bytes the
  panel receives, and cutting writes into Linux-sized transfers neither.
- `app/` carries programs out on `embedded-hal` devices and offers the usual
  driver API (`Epd2in7::new`, `update_frame`, `display_frame`, ...).
- `tests/` runs the library on concrete values.
