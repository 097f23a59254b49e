//! Commands of the SSD16xx controllers ("type A" panels).
use vstd::prelude::*;

use crate::traits;

verus! {

/// Commands of the display controller.
#[derive(Clone, Copy, Debug, PartialEq, Eq, Structural)]
pub enum Command {
    /// Gate lines, scanning order.
    DriverOutputControl,
    /// Gate driving voltage.
    GateDrivingVoltageControl,
    /// Source driving voltages.
    SourceDrivingVoltageControl,
    /// Booster soft-start phases.
    BoosterSoftStartControl,
    /// First gate line scanned.
    GateScanStartPosition,
    /// Enters deep sleep.
    DeepSleepMode,
    /// Address counter direction after each byte.
    DataEntryModeSetting,
    /// Software reset.
    SwReset,
    /// Writes the temperature register.
    TemperatureSensorControlWrite,
    /// Reads the temperature register.
    TemperatureSensorControlRead,
    /// Runs the display update sequence.
    MasterActivation,
    /// RAM content options of the update.
    DisplayUpdateControl1,
    /// Steps of the display update sequence.
    DisplayUpdateControl2,
    /// Writes to the black/white RAM.
    WriteRam,
    /// VCOM register.
    WriteVcomRegister,
    /// Writes the waveform look-up table.
    WriteLutRegister,
    /// Dummy line period.
    SetDummyLinePeriod,
    /// Gate line width.
    SetGateLineWidth,
    /// Border waveform.
    BorderWaveformControl,
    /// First and last RAM column (in bytes).
    SetRamXAddressStartEndPosition,
    /// First and last RAM row.
    SetRamYAddressStartEndPosition,
    /// RAM column address counter.
    SetRamXAddressCounter,
    /// RAM row address counter.
    SetRamYAddressCounter,
    /// No operation; ends a data write.
    Nop,
}

impl traits::Command for Command {
    open spec fn spec_address(self) -> u8 {
        match self {
            Command::DriverOutputControl => 0x01,
            Command::GateDrivingVoltageControl => 0x03,
            Command::SourceDrivingVoltageControl => 0x04,
            Command::BoosterSoftStartControl => 0x0c,
            Command::GateScanStartPosition => 0x0f,
            Command::DeepSleepMode => 0x10,
            Command::DataEntryModeSetting => 0x11,
            Command::SwReset => 0x12,
            Command::TemperatureSensorControlWrite => 0x1a,
            Command::TemperatureSensorControlRead => 0x1b,
            Command::MasterActivation => 0x20,
            Command::DisplayUpdateControl1 => 0x21,
            Command::DisplayUpdateControl2 => 0x22,
            Command::WriteRam => 0x24,
            Command::WriteVcomRegister => 0x2c,
            Command::WriteLutRegister => 0x32,
            Command::SetDummyLinePeriod => 0x3a,
            Command::SetGateLineWidth => 0x3b,
            Command::BorderWaveformControl => 0x3c,
            Command::SetRamXAddressStartEndPosition => 0x44,
            Command::SetRamYAddressStartEndPosition => 0x45,
            Command::SetRamXAddressCounter => 0x4e,
            Command::SetRamYAddressCounter => 0x4f,
            Command::Nop => 0xff,
        }
    }

    fn address(self) -> (a: u8) {
        match self {
            Command::DriverOutputControl => 0x01,
            Command::GateDrivingVoltageControl => 0x03,
            Command::SourceDrivingVoltageControl => 0x04,
            Command::BoosterSoftStartControl => 0x0c,
            Command::GateScanStartPosition => 0x0f,
            Command::DeepSleepMode => 0x10,
            Command::DataEntryModeSetting => 0x11,
            Command::SwReset => 0x12,
            Command::TemperatureSensorControlWrite => 0x1a,
            Command::TemperatureSensorControlRead => 0x1b,
            Command::MasterActivation => 0x20,
            Command::DisplayUpdateControl1 => 0x21,
            Command::DisplayUpdateControl2 => 0x22,
            Command::WriteRam => 0x24,
            Command::WriteVcomRegister => 0x2c,
            Command::WriteLutRegister => 0x32,
            Command::SetDummyLinePeriod => 0x3a,
            Command::SetGateLineWidth => 0x3b,
            Command::BorderWaveformControl => 0x3c,
            Command::SetRamXAddressStartEndPosition => 0x44,
            Command::SetRamYAddressStartEndPosition => 0x45,
            Command::SetRamXAddressCounter => 0x4e,
            Command::SetRamYAddressCounter => 0x4f,
            Command::Nop => 0xff,
        }
    }
}

} // verus!
