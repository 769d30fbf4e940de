//! The SYSTEM_CONFIG register: diagnostics, trigger source and result format.
//!
//! | bits   | field        |
//! |--------|--------------|
//! | 13..12 | DIAG_SEL     |
//! | 10..9  | TRIGGER_MODE |
//! | 8..6   | DATA_TYPE    |
//! | 5      | DIAG_EN      |
//! | 2      | Z_HLT_EN     |
//! | 1      | Y_HLT_EN     |
//! | 0      | X_HLT_EN     |

use vstd::prelude::*;
use crate::bits::{flag, flag_code, put_field, replaces_field, with_field};

verus! {

/// Which data path diagnostics run, and how.
#[derive(Clone, Copy, Debug, PartialEq, Eq)]
pub enum DiagSel {
    /// All data path diagnostics together, the default.
    AllData,
    /// The enabled data path diagnostics together.
    EnabledData,
    /// All data path diagnostics one after the other.
    AllDataInSeq,
    /// The enabled data path diagnostics one after the other.
    EnabledDataInSeq,
}

impl DiagSel {
    /// The code of the setting in its field.
    pub open spec fn spec_code(self) -> u16 {
        match self {
            DiagSel::AllData => 0x00,
            DiagSel::EnabledData => 0x01,
            DiagSel::AllDataInSeq => 0x02,
            DiagSel::EnabledDataInSeq => 0x03,
        }
    }

    /// Returns the code of the setting in its field.
    #[verifier::when_used_as_spec(spec_code)]
    pub fn code(self) -> (c: u16)
        ensures
            c == self.spec_code(),
    {
        match self {
            DiagSel::AllData => 0x00,
            DiagSel::EnabledData => 0x01,
            DiagSel::AllDataInSeq => 0x02,
            DiagSel::EnabledDataInSeq => 0x03,
        }
    }
}

/// What starts a single conversion.
#[derive(Clone, Copy, Debug, PartialEq, Eq)]
pub enum TriggerMode {
    /// The command bits of a frame, the default.
    SPI,
    /// A pulse on the chip-select line.
    CS,
    /// A pulse on the ALERT line.
    ALERT,
}

impl TriggerMode {
    /// The code of the setting in its field.
    pub open spec fn spec_code(self) -> u16 {
        match self {
            TriggerMode::SPI => 0x00,
            TriggerMode::CS => 0x01,
            TriggerMode::ALERT => 0x02,
        }
    }

    /// Returns the code of the setting in its field.
    #[verifier::when_used_as_spec(spec_code)]
    pub fn code(self) -> (c: u16)
        ensures
            c == self.spec_code(),
    {
        match self {
            TriggerMode::SPI => 0x00,
            TriggerMode::CS => 0x01,
            TriggerMode::ALERT => 0x02,
        }
    }
}

/// Format in which results are read.
#[derive(Clone, Copy, Debug, PartialEq, Eq)]
pub enum DataType {
    /// Plain register access, the default.
    Default,
    /// Twelve-bit X and Y in one frame.
    XY,
    /// Twelve-bit X and Z in one frame.
    XZ,
    /// Twelve-bit Z and Y in one frame.
    ZY,
    /// Twelve-bit X and temperature in one frame.
    XT,
    /// Twelve-bit Y and temperature in one frame.
    YT,
    /// Twelve-bit Z and temperature in one frame.
    ZT,
    /// Twelve-bit angle and magnitude in one frame.
    AM,
}

impl DataType {
    /// The code of the setting in its field.
    pub open spec fn spec_code(self) -> u16 {
        match self {
            DataType::Default => 0x00,
            DataType::XY => 0x01,
            DataType::XZ => 0x02,
            DataType::ZY => 0x03,
            DataType::XT => 0x04,
            DataType::YT => 0x05,
            DataType::ZT => 0x06,
            DataType::AM => 0x07,
        }
    }

    /// Returns the code of the setting in its field.
    #[verifier::when_used_as_spec(spec_code)]
    pub fn code(self) -> (c: u16)
        ensures
            c == self.spec_code(),
    {
        match self {
            DataType::Default => 0x00,
            DataType::XY => 0x01,
            DataType::XZ => 0x02,
            DataType::ZY => 0x03,
            DataType::XT => 0x04,
            DataType::YT => 0x05,
            DataType::ZT => 0x06,
            DataType::AM => 0x07,
        }
    }
}

/// A value for the SYSTEM_CONFIG register.
#[derive(Clone, Copy, Debug, PartialEq, Eq)]
pub struct SystemConfig {
    config: u16,
}

impl View for SystemConfig {
    type V = u16;

    /// The register word.
    closed spec fn view(&self) -> u16 {
        self.config
    }
}

impl SystemConfig {
    /// Creates the default value, with every field at zero.
    pub fn new() -> (r: Self)
        ensures
            r@ == 0,
    {
        SystemConfig { config: 0x00 }
    }

    /// Creates the value that stands for the register word `config`.
    pub fn form_u16(config: u16) -> (r: Self)
        ensures
            r@ == config,
    {
        SystemConfig { config }
    }

    /// Returns the register word.
    pub fn to_u16(&self) -> (word: u16)
        ensures
            word == self@,
    {
        self.config
    }

    /// Sets the DIAG_SEL field, bits 13..12.
    pub fn set_diag_sel(self, diag_sel: DiagSel) -> (r: Self)
        ensures
            r@ == with_field(self@, 0b11, 12, diag_sel.code()),
            replaces_field(self@, r@, 0b11, 12, diag_sel.code()),
    {
        SystemConfig { config: put_field(self.config, 0b11, 12, diag_sel.code()) }
    }

    /// Sets the TRIGGER_MODE field, bits 10..9.
    pub fn set_trigger_mode(self, trigger_mode: TriggerMode) -> (r: Self)
        ensures
            r@ == with_field(self@, 0b11, 9, trigger_mode.code()),
            replaces_field(self@, r@, 0b11, 9, trigger_mode.code()),
    {
        SystemConfig { config: put_field(self.config, 0b11, 9, trigger_mode.code()) }
    }

    /// Sets the DATA_TYPE field, bits 8..6.
    pub fn set_data_type(self, data_type: DataType) -> (r: Self)
        ensures
            r@ == with_field(self@, 0b111, 6, data_type.code()),
            replaces_field(self@, r@, 0b111, 6, data_type.code()),
    {
        SystemConfig { config: put_field(self.config, 0b111, 6, data_type.code()) }
    }

    /// Enables or disables the diagnostic tests of the analog front end,
    /// bit 5.
    pub fn set_diag_en(self, diag_en: bool) -> (r: Self)
        ensures
            r@ == with_field(self@, 0b1, 5, flag(diag_en)),
            replaces_field(self@, r@, 0b1, 5, flag(diag_en)),
    {
        SystemConfig { config: put_field(self.config, 0b1, 5, flag_code(diag_en)) }
    }

    /// Enables or disables the field limit check on the Z axis, bit 2.
    pub fn set_t_z_limit_check(self, z_limit_check: bool) -> (r: Self)
        ensures
            r@ == with_field(self@, 0b1, 2, flag(z_limit_check)),
            replaces_field(self@, r@, 0b1, 2, flag(z_limit_check)),
    {
        SystemConfig { config: put_field(self.config, 0b1, 2, flag_code(z_limit_check)) }
    }

    /// Enables or disables the field limit check on the Y axis, bit 1.
    pub fn set_t_y_limit_check(self, y_limit_check: bool) -> (r: Self)
        ensures
            r@ == with_field(self@, 0b1, 1, flag(y_limit_check)),
            replaces_field(self@, r@, 0b1, 1, flag(y_limit_check)),
    {
        SystemConfig { config: put_field(self.config, 0b1, 1, flag_code(y_limit_check)) }
    }

    /// Enables or disables the field limit check on the X axis, bit 0.
    pub fn set_t_x_limit_check(self, x_limit_check: bool) -> (r: Self)
        ensures
            r@ == with_field(self@, 0b1, 0, flag(x_limit_check)),
            replaces_field(self@, r@, 0b1, 0, flag(x_limit_check)),
    {
        SystemConfig { config: put_field(self.config, 0b1, 0, flag_code(x_limit_check)) }
    }
}

} // verus!
