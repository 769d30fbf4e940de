//! The DEVICE_CONFIG register: operating mode, averaging and the temperature
//! channel.
//!
//! | bits   | field              |
//! |--------|--------------------|
//! | 14..12 | CONV_AVG           |
//! | 9..8   | MAG_TEMPCO         |
//! | 6..4   | OPERATING_MODE     |
//! | 3      | T_CH_EN            |
//! | 2      | T_RATE             |
//! | 1      | T_HLT_EN           |
//! | 0      | TEMP_COMP_EN       |

use vstd::prelude::*;
use crate::bits::{flag, flag_code, put_field, replaces_field, with_field};

verus! {

/// Number of samples that are averaged into one result, which trades speed
/// for noise.
#[derive(Clone, Copy, Debug, PartialEq, Eq)]
pub enum ConvAvg {
    /// 1x: 13.33 kSPS on three axes, 40 kSPS on one.
    Avg1x,
    /// 2x: 6.65 kSPS on three axes, 20 kSPS on one.
    Avg2x,
    /// 4x: 3.33 kSPS on three axes, 10 kSPS on one.
    Avg4x,
    /// 8x: 1.66 kSPS on three axes, 5 kSPS on one.
    Avg8x,
    /// 16x: 0.833 kSPS on three axes, 2.5 kSPS on one.
    Avg16x,
    /// 32x: 0.417 kSPS on three axes, 1.25 kSPS on one.
    Avg32x,
}

impl ConvAvg {
    /// The code of the setting in its field.
    pub open spec fn spec_code(self) -> u16 {
        match self {
            ConvAvg::Avg1x => 0x00,
            ConvAvg::Avg2x => 0x01,
            ConvAvg::Avg4x => 0x02,
            ConvAvg::Avg8x => 0x03,
            ConvAvg::Avg16x => 0x04,
            ConvAvg::Avg32x => 0x05,
        }
    }

    /// Returns the code of the setting in its field.
    #[verifier::when_used_as_spec(spec_code)]
    pub fn code(self) -> (c: u16)
        ensures
            c == self.spec_code(),
    {
        match self {
            ConvAvg::Avg1x => 0x00,
            ConvAvg::Avg2x => 0x01,
            ConvAvg::Avg4x => 0x02,
            ConvAvg::Avg8x => 0x03,
            ConvAvg::Avg16x => 0x04,
            ConvAvg::Avg32x => 0x05,
        }
    }
}

/// Temperature coefficient of the magnet that is sensed.
#[derive(Clone, Copy, Debug, PartialEq, Eq)]
pub enum MagTempco {
    /// 0 %/°C, for current sensing.
    CurrentSensor,
    /// 0.12 %/°C, for NdBFe magnets.
    NdBFe,
    /// 0.2 %/°C, for ceramic magnets.
    Ceramic,
}

impl MagTempco {
    /// The code of the setting in its field.
    pub open spec fn spec_code(self) -> u16 {
        match self {
            MagTempco::CurrentSensor => 0x00,
            MagTempco::NdBFe => 0x01,
            MagTempco::Ceramic => 0x03,
        }
    }

    /// Returns the code of the setting in its field.
    #[verifier::when_used_as_spec(spec_code)]
    pub fn code(self) -> (c: u16)
        ensures
            c == self.spec_code(),
    {
        match self {
            MagTempco::CurrentSensor => 0x00,
            MagTempco::NdBFe => 0x01,
            MagTempco::Ceramic => 0x03,
        }
    }
}

/// Operating mode of the sensor.
#[derive(Clone, Copy, Debug, PartialEq, Eq)]
pub enum OperatingMode {
    /// Configuration mode, the default; conversions start on a trigger.
    Configuration,
    /// Stand-by mode; conversions start on a trigger.
    Standby,
    /// Active measure mode with continuous conversion.
    Active,
    /// Active trigger mode; conversions start on a trigger.
    ActiveTrigger,
    /// Duty-cycled wake-up and sleep mode.
    WakeupAndSleep,
    /// Sleep mode.
    Sleep,
    /// Deep sleep mode, left on a chip-select pulse.
    DeepSleep,
}

impl OperatingMode {
    /// The code of the setting in its field.
    pub open spec fn spec_code(self) -> u16 {
        match self {
            OperatingMode::Configuration => 0x00,
            OperatingMode::Standby => 0x01,
            OperatingMode::Active => 0x02,
            OperatingMode::ActiveTrigger => 0x03,
            OperatingMode::WakeupAndSleep => 0x04,
            OperatingMode::Sleep => 0x05,
            OperatingMode::DeepSleep => 0x06,
        }
    }

    /// Returns the code of the setting in its field.
    #[verifier::when_used_as_spec(spec_code)]
    pub fn code(self) -> (c: u16)
        ensures
            c == self.spec_code(),
    {
        match self {
            OperatingMode::Configuration => 0x00,
            OperatingMode::Standby => 0x01,
            OperatingMode::Active => 0x02,
            OperatingMode::ActiveTrigger => 0x03,
            OperatingMode::WakeupAndSleep => 0x04,
            OperatingMode::Sleep => 0x05,
            OperatingMode::DeepSleep => 0x06,
        }
    }
}

/// Conversion rate of the temperature channel, relative to `ConvAvg`.
#[derive(Clone, Copy, Debug, PartialEq, Eq)]
pub enum TRate {
    /// The same rate as the magnetic channels, the default.
    SameRate,
    /// Once per conversion set.
    OncePerConvSet,
}

impl TRate {
    /// The code of the setting in its field.
    pub open spec fn spec_code(self) -> u16 {
        match self {
            TRate::SameRate => 0x00,
            TRate::OncePerConvSet => 0x01,
        }
    }

    /// Returns the code of the setting in its field.
    #[verifier::when_used_as_spec(spec_code)]
    pub fn code(self) -> (c: u16)
        ensures
            c == self.spec_code(),
    {
        match self {
            TRate::SameRate => 0x00,
            TRate::OncePerConvSet => 0x01,
        }
    }
}

/// A value for the DEVICE_CONFIG register.
#[derive(Clone, Copy, Debug, PartialEq, Eq)]
pub struct DeviceConfig {
    config: u16,
}

impl View for DeviceConfig {
    type V = u16;

    /// The register word.
    closed spec fn view(&self) -> u16 {
        self.config
    }
}

impl DeviceConfig {
    /// Creates the default value, with every field at zero.
    pub fn new() -> (r: Self)
        ensures
            r@ == 0,
    {
        DeviceConfig { config: 0x00 }
    }

    /// Creates the value that stands for the register word `config`.
    pub fn form_u16(config: u16) -> (r: Self)
        ensures
            r@ == config,
    {
        DeviceConfig { config }
    }

    /// Returns the register word.
    pub fn to_u16(&self) -> (word: u16)
        ensures
            word == self@,
    {
        self.config
    }

    /// Sets the CONV_AVG field, bits 14..12.
    pub fn set_conv_avg(self, conv_avg: ConvAvg) -> (r: Self)
        ensures
            r@ == with_field(self@, 0b111, 12, conv_avg.code()),
            replaces_field(self@, r@, 0b111, 12, conv_avg.code()),
    {
        DeviceConfig { config: put_field(self.config, 0b111, 12, conv_avg.code()) }
    }

    /// Sets the MAG_TEMPCO field, bits 9..8.
    pub fn set_mag_tempco(self, mag_tempco: MagTempco) -> (r: Self)
        ensures
            r@ == with_field(self@, 0b11, 8, mag_tempco.code()),
            replaces_field(self@, r@, 0b11, 8, mag_tempco.code()),
    {
        DeviceConfig { config: put_field(self.config, 0b11, 8, mag_tempco.code()) }
    }

    /// Sets the OPERATING_MODE field, bits 6..4.
    pub fn set_operating_mode(self, operating_mode: OperatingMode) -> (r: Self)
        ensures
            r@ == with_field(self@, 0b111, 4, operating_mode.code()),
            replaces_field(self@, r@, 0b111, 4, operating_mode.code()),
    {
        DeviceConfig { config: put_field(self.config, 0b111, 4, operating_mode.code()) }
    }

    /// Enables or disables data acquisition of the temperature channel, bit 3.
    pub fn set_t_en(self, t_en: bool) -> (r: Self)
        ensures
            r@ == with_field(self@, 0b1, 3, flag(t_en)),
            replaces_field(self@, r@, 0b1, 3, flag(t_en)),
    {
        DeviceConfig { config: put_field(self.config, 0b1, 3, flag_code(t_en)) }
    }

    /// Sets the T_RATE field, bit 2.
    pub fn set_t_rate(self, t_rate: TRate) -> (r: Self)
        ensures
            r@ == with_field(self@, 0b1, 2, t_rate.code()),
            replaces_field(self@, r@, 0b1, 2, t_rate.code()),
    {
        DeviceConfig { config: put_field(self.config, 0b1, 2, t_rate.code()) }
    }

    /// Enables or disables the temperature limit check, bit 1.
    pub fn set_t_limit_check_en(self, t_limit_check_en: bool) -> (r: Self)
        ensures
            r@ == with_field(self@, 0b1, 1, flag(t_limit_check_en)),
            replaces_field(self@, r@, 0b1, 1, flag(t_limit_check_en)),
    {
        DeviceConfig { config: put_field(self.config, 0b1, 1, flag_code(t_limit_check_en)) }
    }

    /// Enables or disables the temperature compensation of the magnetic
    /// results, bit 0.
    pub fn set_t_comp_en(self, comp_en: bool) -> (r: Self)
        ensures
            r@ == with_field(self@, 0b1, 0, flag(comp_en)),
            replaces_field(self@, r@, 0b1, 0, flag(comp_en)),
    {
        DeviceConfig { config: put_field(self.config, 0b1, 0, flag_code(comp_en)) }
    }
}

} // verus!
