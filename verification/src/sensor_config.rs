//! The SENSOR_CONFIG register: angle calculation, sleep time, channels and
//! ranges.
//!
//! | bits   | field      |
//! |--------|------------|
//! | 15..14 | ANGLE_EN   |
//! | 13..10 | SLEEPTIME  |
//! | 9..6   | MAG_CH_EN  |
//! | 5..4   | Z_RANGE    |
//! | 3..2   | Y_RANGE    |
//! | 1..0   | X_RANGE    |

use vstd::prelude::*;
use crate::bits::{put_field, replaces_field, with_field};

verus! {

/// Pair of axes from which the angle is calculated.
#[derive(Clone, Copy, Debug, PartialEq, Eq)]
pub enum AngleEn {
    /// No angle calculation, the default.
    NoAngle,
    /// Angle between X and Y.
    XY,
    /// Angle between Y and Z.
    YZ,
    /// Angle between Z and X.
    ZX,
}

impl AngleEn {
    /// The code of the setting in its field.
    pub open spec fn spec_code(self) -> u16 {
        match self {
            AngleEn::NoAngle => 0x00,
            AngleEn::XY => 0x01,
            AngleEn::YZ => 0x02,
            AngleEn::ZX => 0x03,
        }
    }

    /// Returns the code of the setting in its field.
    #[verifier::when_used_as_spec(spec_code)]
    pub fn code(self) -> (c: u16)
        ensures
            c == self.spec_code(),
    {
        match self {
            AngleEn::NoAngle => 0x00,
            AngleEn::XY => 0x01,
            AngleEn::YZ => 0x02,
            AngleEn::ZX => 0x03,
        }
    }
}

/// Time spent in low power between two conversions in the duty-cycled mode.
#[derive(Clone, Copy, Debug, PartialEq, Eq)]
pub enum SleepTime {
    /// 1 ms.
    Ms1,
    /// 5 ms.
    Ms5,
    /// 10 ms.
    Ms10,
    /// 15 ms.
    Ms15,
    /// 20 ms.
    Ms20,
    /// 30 ms.
    Ms30,
    /// 50 ms.
    Ms50,
    /// 100 ms.
    Ms100,
    /// 500 ms.
    Ms500,
    /// 1000 ms.
    Ms1000,
}

impl SleepTime {
    /// The code of the setting in its field.
    pub open spec fn spec_code(self) -> u16 {
        match self {
            SleepTime::Ms1 => 0x00,
            SleepTime::Ms5 => 0x01,
            SleepTime::Ms10 => 0x02,
            SleepTime::Ms15 => 0x03,
            SleepTime::Ms20 => 0x04,
            SleepTime::Ms30 => 0x05,
            SleepTime::Ms50 => 0x06,
            SleepTime::Ms100 => 0x07,
            SleepTime::Ms500 => 0x08,
            SleepTime::Ms1000 => 0x09,
        }
    }

    /// Returns the code of the setting in its field.
    #[verifier::when_used_as_spec(spec_code)]
    pub fn code(self) -> (c: u16)
        ensures
            c == self.spec_code(),
    {
        match self {
            SleepTime::Ms1 => 0x00,
            SleepTime::Ms5 => 0x01,
            SleepTime::Ms10 => 0x02,
            SleepTime::Ms15 => 0x03,
            SleepTime::Ms20 => 0x04,
            SleepTime::Ms30 => 0x05,
            SleepTime::Ms50 => 0x06,
            SleepTime::Ms100 => 0x07,
            SleepTime::Ms500 => 0x08,
            SleepTime::Ms1000 => 0x09,
        }
    }
}

/// Magnetic channels that are converted, in the order of conversion.
#[derive(Clone, Copy, Debug, PartialEq, Eq)]
pub enum MagChEn {
    /// No magnetic channel.
    Off,
    /// X.
    X,
    /// Y.
    Y,
    /// X, Y.
    XY,
    /// Z.
    Z,
    /// Z, X.
    ZX,
    /// Y, Z.
    YZ,
    /// X, Y, Z.
    XYZ,
    /// X, Y, X.
    XYX,
    /// Y, X, Y.
    YXY,
    /// Y, Z, Y.
    YZY,
    /// Z, Y, Z.
    ZYZ,
    /// Z, X, Z.
    ZXZ,
    /// X, Z, X.
    XZX,
    /// X, Y, Z, Y, X.
    XYZYX,
    /// X, Y, Z, Z, Y, X.
    XYZZYX,
}

impl MagChEn {
    /// The code of the setting in its field.
    pub open spec fn spec_code(self) -> u16 {
        match self {
            MagChEn::Off => 0x00,
            MagChEn::X => 0x01,
            MagChEn::Y => 0x02,
            MagChEn::XY => 0x03,
            MagChEn::Z => 0x04,
            MagChEn::ZX => 0x05,
            MagChEn::YZ => 0x06,
            MagChEn::XYZ => 0x07,
            MagChEn::XYX => 0x08,
            MagChEn::YXY => 0x09,
            MagChEn::YZY => 0x0A,
            MagChEn::ZYZ => 0x0B,
            MagChEn::ZXZ => 0x0C,
            MagChEn::XZX => 0x0D,
            MagChEn::XYZYX => 0x0E,
            MagChEn::XYZZYX => 0x0F,
        }
    }

    /// Returns the code of the setting in its field.
    #[verifier::when_used_as_spec(spec_code)]
    pub fn code(self) -> (c: u16)
        ensures
            c == self.spec_code(),
    {
        match self {
            MagChEn::Off => 0x00,
            MagChEn::X => 0x01,
            MagChEn::Y => 0x02,
            MagChEn::XY => 0x03,
            MagChEn::Z => 0x04,
            MagChEn::ZX => 0x05,
            MagChEn::YZ => 0x06,
            MagChEn::XYZ => 0x07,
            MagChEn::XYX => 0x08,
            MagChEn::YXY => 0x09,
            MagChEn::YZY => 0x0A,
            MagChEn::ZYZ => 0x0B,
            MagChEn::ZXZ => 0x0C,
            MagChEn::XZX => 0x0D,
            MagChEn::XYZYX => 0x0E,
            MagChEn::XYZZYX => 0x0F,
        }
    }
}

/// Magnetic range of one axis; the first figure holds for the TMAG5170A1, the
/// second for the TMAG5170A2.
#[allow(non_camel_case_types)]
#[derive(Clone, Copy, Debug, PartialEq, Eq)]
pub enum Range {
    /// ±50 mT on the A1, ±200 mT on the A2.
    A1_50mT_A2_200mT,
    /// ±25 mT on the A1, ±133 mT on the A2.
    A1_25mT_A2_133mT,
    /// ±100 mT on the A1, ±300 mT on the A2.
    A1_100mT_A2_300mT,
}

impl Range {
    /// The code of the setting in its field.
    pub open spec fn spec_code(self) -> u16 {
        match self {
            Range::A1_50mT_A2_200mT => 0x00,
            Range::A1_25mT_A2_133mT => 0x01,
            Range::A1_100mT_A2_300mT => 0x02,
        }
    }

    /// Returns the code of the setting in its field.
    #[verifier::when_used_as_spec(spec_code)]
    pub fn code(self) -> (c: u16)
        ensures
            c == self.spec_code(),
    {
        match self {
            Range::A1_50mT_A2_200mT => 0x00,
            Range::A1_25mT_A2_133mT => 0x01,
            Range::A1_100mT_A2_300mT => 0x02,
        }
    }
}

/// A value for the SENSOR_CONFIG register.
#[derive(Clone, Copy, Debug, PartialEq, Eq)]
pub struct SensorConfig {
    config: u16,
}

impl View for SensorConfig {
    type V = u16;

    /// The register word.
    closed spec fn view(&self) -> u16 {
        self.config
    }
}

impl SensorConfig {
    /// Creates the default value, with every field at zero.
    pub fn new() -> (r: Self)
        ensures
            r@ == 0,
    {
        SensorConfig { config: 0x00 }
    }

    /// Creates the value that stands for the register word `config`.
    pub fn form_u16(config: u16) -> (r: Self)
        ensures
            r@ == config,
    {
        SensorConfig { config }
    }

    /// Returns the register word.
    pub fn to_u16(&self) -> (word: u16)
        ensures
            word == self@,
    {
        self.config
    }

    /// Sets the ANGLE_EN field, bits 15..14.
    pub fn set_angle_en(self, angle_en: AngleEn) -> (r: Self)
        ensures
            r@ == with_field(self@, 0b11, 14, angle_en.code()),
            replaces_field(self@, r@, 0b11, 14, angle_en.code()),
    {
        SensorConfig { config: put_field(self.config, 0b11, 14, angle_en.code()) }
    }

    /// Sets the SLEEPTIME field, bits 13..10.
    pub fn set_sleep_time(self, sleep_time: SleepTime) -> (r: Self)
        ensures
            r@ == with_field(self@, 0b1111, 10, sleep_time.code()),
            replaces_field(self@, r@, 0b1111, 10, sleep_time.code()),
    {
        SensorConfig { config: put_field(self.config, 0b1111, 10, sleep_time.code()) }
    }

    /// Sets the MAG_CH_EN field, bits 9..6.
    pub fn set_mag_ch_en(self, mag_ch_en: MagChEn) -> (r: Self)
        ensures
            r@ == with_field(self@, 0b1111, 6, mag_ch_en.code()),
            replaces_field(self@, r@, 0b1111, 6, mag_ch_en.code()),
    {
        SensorConfig { config: put_field(self.config, 0b1111, 6, mag_ch_en.code()) }
    }

    /// Sets the Z_RANGE field, bits 5..4.
    pub fn set_z_range(self, z_range: Range) -> (r: Self)
        ensures
            r@ == with_field(self@, 0b11, 4, z_range.code()),
            replaces_field(self@, r@, 0b11, 4, z_range.code()),
    {
        SensorConfig { config: put_field(self.config, 0b11, 4, z_range.code()) }
    }

    /// Sets the Y_RANGE field, bits 3..2.
    pub fn set_y_range(self, y_range: Range) -> (r: Self)
        ensures
            r@ == with_field(self@, 0b11, 2, y_range.code()),
            replaces_field(self@, r@, 0b11, 2, y_range.code()),
    {
        SensorConfig { config: put_field(self.config, 0b11, 2, y_range.code()) }
    }

    /// Sets the X_RANGE field, bits 1..0.
    pub fn set_x_range(self, x_range: Range) -> (r: Self)
        ensures
            r@ == with_field(self@, 0b11, 0, x_range.code()),
            replaces_field(self@, r@, 0b11, 0, x_range.code()),
    {
        SensorConfig { config: put_field(self.config, 0b11, 0, x_range.code()) }
    }
}

} // verus!
