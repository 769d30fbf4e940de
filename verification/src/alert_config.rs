//! The ALERT_CONFIG register: sources and behaviour of the ALERT output.
//!
//! | bits | field          |
//! |------|----------------|
//! | 13   | ALERT_LATCH    |
//! | 12   | ALERT_MODE     |
//! | 11   | STATUS_ALRT    |
//! | 8    | RSLT_ALRT      |
//! | 5..4 | THRX_COUNT     |
//! | 3    | T_THRX_ALRT    |
//! | 2    | Z_THRX_ALRT    |
//! | 1    | Y_THRX_ALRT    |
//! | 0    | X_THRX_ALRT    |

use vstd::prelude::*;
use crate::bits::{flag, flag_code, put_field, replaces_field, with_field};

verus! {

/// Whether the sources of an alert are latched.
#[derive(Clone, Copy, Debug, PartialEq, Eq)]
pub enum AlertLatch {
    /// ALERT is asserted only while its source is present.
    NotLatched,
    /// ALERT stays asserted until the register that reports its source is
    /// read.
    Latched,
}

impl AlertLatch {
    /// The code of the setting in its field.
    pub open spec fn spec_code(self) -> u16 {
        match self {
            AlertLatch::NotLatched => 0x00,
            AlertLatch::Latched => 0x01,
        }
    }

    /// Returns the code of the setting in its field.
    #[verifier::when_used_as_spec(spec_code)]
    pub fn code(self) -> (c: u16)
        ensures
            c == self.spec_code(),
    {
        match self {
            AlertLatch::NotLatched => 0x00,
            AlertLatch::Latched => 0x01,
        }
    }
}

/// How the ALERT output works.
#[derive(Clone, Copy, Debug, PartialEq, Eq)]
pub enum AlertMode {
    /// As an interrupt.
    Interrupt,
    /// As a comparator: a Hall switch on the thresholds, which overrides the
    /// interrupt function.
    Comparator,
}

impl AlertMode {
    /// The code of the setting in its field.
    pub open spec fn spec_code(self) -> u16 {
        match self {
            AlertMode::Interrupt => 0x00,
            AlertMode::Comparator => 0x01,
        }
    }

    /// Returns the code of the setting in its field.
    #[verifier::when_used_as_spec(spec_code)]
    pub fn code(self) -> (c: u16)
        ensures
            c == self.spec_code(),
    {
        match self {
            AlertMode::Interrupt => 0x00,
            AlertMode::Comparator => 0x01,
        }
    }
}

/// Number of conversions beyond a threshold before ALERT responds.
#[derive(Clone, Copy, Debug, PartialEq, Eq)]
pub enum ThrxCount {
    /// One conversion result.
    ConvResult1,
    /// Two conversion results.
    ConvResult2,
    /// Three conversion results.
    ConvResult3,
    /// Four conversion results.
    ConvResult4,
}

impl ThrxCount {
    /// The code of the setting in its field.
    pub open spec fn spec_code(self) -> u16 {
        match self {
            ThrxCount::ConvResult1 => 0x00,
            ThrxCount::ConvResult2 => 0x01,
            ThrxCount::ConvResult3 => 0x02,
            ThrxCount::ConvResult4 => 0x03,
        }
    }

    /// Returns the code of the setting in its field.
    #[verifier::when_used_as_spec(spec_code)]
    pub fn code(self) -> (c: u16)
        ensures
            c == self.spec_code(),
    {
        match self {
            ThrxCount::ConvResult1 => 0x00,
            ThrxCount::ConvResult2 => 0x01,
            ThrxCount::ConvResult3 => 0x02,
            ThrxCount::ConvResult4 => 0x03,
        }
    }
}

/// A value for the ALERT_CONFIG register.
#[derive(Clone, Copy, Debug, PartialEq, Eq)]
pub struct AlertConfig {
    config: u16,
}

impl View for AlertConfig {
    type V = u16;

    /// The register word.
    closed spec fn view(&self) -> u16 {
        self.config
    }
}

impl AlertConfig {
    /// Creates the default value, with every field at zero.
    pub fn new() -> (r: Self)
        ensures
            r@ == 0,
    {
        AlertConfig { config: 0x00 }
    }

    /// Creates the value that stands for the register word `config`.
    pub fn form_u16(config: u16) -> (r: Self)
        ensures
            r@ == config,
    {
        AlertConfig { config }
    }

    /// Returns the register word.
    pub fn to_u16(&self) -> (word: u16)
        ensures
            word == self@,
    {
        self.config
    }

    /// Sets the ALERT_LATCH field, bit 13.
    pub fn set_alert_latch(self, alert_latch: AlertLatch) -> (r: Self)
        ensures
            r@ == with_field(self@, 0b1, 13, alert_latch.code()),
            replaces_field(self@, r@, 0b1, 13, alert_latch.code()),
    {
        AlertConfig { config: put_field(self.config, 0b1, 13, alert_latch.code()) }
    }

    /// Sets the ALERT_MODE field, bit 12.
    pub fn set_alert_mode(self, alert_mode: AlertMode) -> (r: Self)
        ensures
            r@ == with_field(self@, 0b1, 12, alert_mode.code()),
            replaces_field(self@, r@, 0b1, 12, alert_mode.code()),
    {
        AlertConfig { config: put_field(self.config, 0b1, 12, alert_mode.code()) }
    }

    /// Enables or disables the alert on a flag of the status registers,
    /// bit 11.
    pub fn set_status_alrt_enable(self, status_alrt_enable: bool) -> (r: Self)
        ensures
            r@ == with_field(self@, 0b1, 11, flag(status_alrt_enable)),
            replaces_field(self@, r@, 0b1, 11, flag(status_alrt_enable)),
    {
        AlertConfig { config: put_field(self.config, 0b1, 11, flag_code(status_alrt_enable)) }
    }

    /// Enables or disables the alert on a finished conversion, bit 8.
    pub fn set_rslt_alrt_enable(self, rslt_alrt_enable: bool) -> (r: Self)
        ensures
            r@ == with_field(self@, 0b1, 8, flag(rslt_alrt_enable)),
            replaces_field(self@, r@, 0b1, 8, flag(rslt_alrt_enable)),
    {
        AlertConfig { config: put_field(self.config, 0b1, 8, flag_code(rslt_alrt_enable)) }
    }

    /// Sets the THRX_COUNT field, bits 5..4.
    pub fn set_thrx_count(self, thrx_count: ThrxCount) -> (r: Self)
        ensures
            r@ == with_field(self@, 0b11, 4, thrx_count.code()),
            replaces_field(self@, r@, 0b11, 4, thrx_count.code()),
    {
        AlertConfig { config: put_field(self.config, 0b11, 4, thrx_count.code()) }
    }

    /// Enables or disables the alert on the temperature thresholds, bit 3.
    pub fn set_t_thrx_alrt_enable(self, t_thrx_alrt_enable: bool) -> (r: Self)
        ensures
            r@ == with_field(self@, 0b1, 3, flag(t_thrx_alrt_enable)),
            replaces_field(self@, r@, 0b1, 3, flag(t_thrx_alrt_enable)),
    {
        AlertConfig { config: put_field(self.config, 0b1, 3, flag_code(t_thrx_alrt_enable)) }
    }

    /// Enables or disables the alert on the thresholds of the Z axis, bit 2.
    pub fn set_z_thrx_alrt_enable(self, z_thrx_alrt_enable: bool) -> (r: Self)
        ensures
            r@ == with_field(self@, 0b1, 2, flag(z_thrx_alrt_enable)),
            replaces_field(self@, r@, 0b1, 2, flag(z_thrx_alrt_enable)),
    {
        AlertConfig { config: put_field(self.config, 0b1, 2, flag_code(z_thrx_alrt_enable)) }
    }

    /// Enables or disables the alert on the thresholds of the Y axis, bit 1.
    pub fn set_y_thrx_alrt_enable(self, y_thrx_alrt_enable: bool) -> (r: Self)
        ensures
            r@ == with_field(self@, 0b1, 1, flag(y_thrx_alrt_enable)),
            replaces_field(self@, r@, 0b1, 1, flag(y_thrx_alrt_enable)),
    {
        AlertConfig { config: put_field(self.config, 0b1, 1, flag_code(y_thrx_alrt_enable)) }
    }

    /// Enables or disables the alert on the thresholds of the X axis, bit 0.
    pub fn set_x_thrx_alrt_enable(self, x_thrx_alrt_enable: bool) -> (r: Self)
        ensures
            r@ == with_field(self@, 0b1, 0, flag(x_thrx_alrt_enable)),
            replaces_field(self@, r@, 0b1, 0, flag(x_thrx_alrt_enable)),
    {
        AlertConfig { config: put_field(self.config, 0b1, 0, flag_code(x_thrx_alrt_enable)) }
    }
}

} // verus!
