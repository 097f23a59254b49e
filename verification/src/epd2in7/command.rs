//! Commands of the IL91874 controller of the Waveshare 2.7" panel.
use vstd::prelude::*;

use crate::traits;

verus! {

/// Commands of the display controller.
#[derive(Clone, Copy, Debug, PartialEq, Eq, Structural)]
pub enum Command {
    /// Resolution, scan direction and booster switch.
    PanelSetting,
    /// Power-source selection and driving voltages.
    PowerSetting,
    /// Turns the driving power off.
    PowerOff,
    /// Timing of the power-off sequence.
    PowerOffSequenceSetting,
    /// Turns the driving power on.
    PowerOn,
    /// Turns the power on to measure the temperature.
    PowerOnMeasure,
    /// Booster soft-start phases.
    BoosterSoftStart,
    /// Enters deep sleep; only a reset wakes the panel.
    DeepSleep,
    /// Starts the transfer of the old frame.
    DataStartTransmission1,
    /// Ends a data transfer.
    DataStop,
    /// Refreshes the panel from its frame memory.
    DisplayRefresh,
    /// Starts the transfer of the new frame.
    DataStartTransmission2,
    /// Starts the transfer of a partial window, old frame.
    PartialDataStartTransmission1,
    /// Starts the transfer of a partial window, new frame.
    PartialDataStartTransmission2,
    /// Refreshes a partial window.
    PartialDisplayRefresh,
    /// Look-up table of the VCOM voltage.
    LutForVcom,
    /// Look-up table for white to white.
    LutWhiteToWhite,
    /// Look-up table for black to white.
    LutBlackToWhite,
    /// Look-up table for white to black.
    LutWhiteToBlack,
    /// Look-up table for black to black.
    LutBlackToBlack,
    /// Frame rate.
    PllControl,
    /// Reads the temperature sensor.
    TemperatureSensorCommand,
    /// Selects the temperature sensor.
    TemperatureSensorCalibration,
    /// Writes to an external temperature sensor.
    TemperatureSensorWrite,
    /// Reads from an external temperature sensor.
    TemperatureSensorRead,
    /// Border output and data interval.
    VcomAndDataIntervalSetting,
    /// Low power voltage detection.
    LowPowerDetection,
    /// Gate/source non-overlap period.
    TconSetting,
    /// Display resolution.
    TconResolution,
    /// First active source and gate.
    SourceAndGateStartSetting,
    /// Reads the status flags.
    GetStatus,
    /// Automatic VCOM measurement.
    AutoMeasurementVcom,
    /// Reads the measured VCOM value.
    VcomValue,
    /// VCOM DC level.
    VcmDcSetting,
    /// Enters OTP programming mode.
    ProgramMode,
    /// Programs the OTP.
    ActiveProgram,
    /// Reads the OTP.
    ReadOtpData,
    /// Power optimization registers.
    PowerOptimization,
}

impl traits::Command for Command {
    open spec fn spec_address(self) -> u8 {
        match self {
            Command::PanelSetting => 0x00,
            Command::PowerSetting => 0x01,
            Command::PowerOff => 0x02,
            Command::PowerOffSequenceSetting => 0x03,
            Command::PowerOn => 0x04,
            Command::PowerOnMeasure => 0x05,
            Command::BoosterSoftStart => 0x06,
            Command::DeepSleep => 0x07,
            Command::DataStartTransmission1 => 0x10,
            Command::DataStop => 0x11,
            Command::DisplayRefresh => 0x12,
            Command::DataStartTransmission2 => 0x13,
            Command::PartialDataStartTransmission1 => 0x14,
            Command::PartialDataStartTransmission2 => 0x15,
            Command::PartialDisplayRefresh => 0x16,
            Command::LutForVcom => 0x20,
            Command::LutWhiteToWhite => 0x21,
            Command::LutBlackToWhite => 0x22,
            Command::LutWhiteToBlack => 0x23,
            Command::LutBlackToBlack => 0x24,
            Command::PllControl => 0x30,
            Command::TemperatureSensorCommand => 0x40,
            Command::TemperatureSensorCalibration => 0x41,
            Command::TemperatureSensorWrite => 0x42,
            Command::TemperatureSensorRead => 0x43,
            Command::VcomAndDataIntervalSetting => 0x50,
            Command::LowPowerDetection => 0x51,
            Command::TconSetting => 0x60,
            Command::TconResolution => 0x61,
            Command::SourceAndGateStartSetting => 0x62,
            Command::GetStatus => 0x71,
            Command::AutoMeasurementVcom => 0x80,
            Command::VcomValue => 0x81,
            Command::VcmDcSetting => 0x82,
            Command::ProgramMode => 0xa0,
            Command::ActiveProgram => 0xa1,
            Command::ReadOtpData => 0xa2,
            Command::PowerOptimization => 0xf8,
        }
    }

    fn address(self) -> (a: u8) {
        match self {
            Command::PanelSetting => 0x00,
            Command::PowerSetting => 0x01,
            Command::PowerOff => 0x02,
            Command::PowerOffSequenceSetting => 0x03,
            Command::PowerOn => 0x04,
            Command::PowerOnMeasure => 0x05,
            Command::BoosterSoftStart => 0x06,
            Command::DeepSleep => 0x07,
            Command::DataStartTransmission1 => 0x10,
            Command::DataStop => 0x11,
            Command::DisplayRefresh => 0x12,
            Command::DataStartTransmission2 => 0x13,
            Command::PartialDataStartTransmission1 => 0x14,
            Command::PartialDataStartTransmission2 => 0x15,
            Command::PartialDisplayRefresh => 0x16,
            Command::LutForVcom => 0x20,
            Command::LutWhiteToWhite => 0x21,
            Command::LutBlackToWhite => 0x22,
            Command::LutWhiteToBlack => 0x23,
            Command::LutBlackToBlack => 0x24,
            Command::PllControl => 0x30,
            Command::TemperatureSensorCommand => 0x40,
            Command::TemperatureSensorCalibration => 0x41,
            Command::TemperatureSensorWrite => 0x42,
            Command::TemperatureSensorRead => 0x43,
            Command::VcomAndDataIntervalSetting => 0x50,
            Command::LowPowerDetection => 0x51,
            Command::TconSetting => 0x60,
            Command::TconResolution => 0x61,
            Command::SourceAndGateStartSetting => 0x62,
            Command::GetStatus => 0x71,
            Command::AutoMeasurementVcom => 0x80,
            Command::VcomValue => 0x81,
            Command::VcmDcSetting => 0x82,
            Command::ProgramMode => 0xa0,
            Command::ActiveProgram => 0xa1,
            Command::ReadOtpData => 0xa2,
            Command::PowerOptimization => 0xf8,
        }
    }
}

} // verus!
