//! The sensor's register map.

use vstd::prelude::*;

verus! {

/// Largest address that names a register.
pub const LAST_ADDRESS: u8 = 0x14;

/// A register of the sensor.
#[allow(non_camel_case_types)]
#[derive(Clone, Copy, Debug, PartialEq, Eq, Structural)]
pub enum Register {
    /// Operating mode, averaging and temperature channel.
    DEVICE_CONFIG,
    /// Angle calculation, sleep time, channels and ranges.
    SENSOR_CONFIG,
    /// Diagnostics, trigger source and result format.
    SYSTEM_CONFIG,
    /// Sources and behaviour of the ALERT output.
    ALERT_CONFIG,
    /// Thresholds of the X channel.
    X_THRX_CONFIG,
    /// Thresholds of the Y channel.
    Y_THRX_CONFIG,
    /// Thresholds of the Z channel.
    Z_THRX_CONFIG,
    /// Thresholds of the temperature channel.
    T_THRX_CONFIG,
    /// Conversion status.
    CONV_STATUS,
    /// Result of the X channel.
    X_CH_RESULT,
    /// Result of the Y channel.
    Y_CH_RESULT,
    /// Result of the Z channel.
    Z_CH_RESULT,
    /// Result of the temperature channel.
    TEMP_RESULT,
    /// Status of the analog front end.
    AFE_STATUS,
    /// Status of the system.
    SYS_STATUS,
    /// Test configuration.
    TEST_CONFIG,
    /// Oscillator monitor.
    OSC_MONITOR,
    /// Gain correction of the magnetic channels.
    MAG_GAIN_CONFIG,
    /// Calculated angle.
    ANGLE_RESULT,
    /// Calculated magnitude.
    MAGNITUDE_RESULT,
}

impl Register {
    /// The address of the register on the wire.
    pub open spec fn spec_addr(self) -> u8 {
        match self {
            Register::DEVICE_CONFIG => 0x00,
            Register::SENSOR_CONFIG => 0x01,
            Register::SYSTEM_CONFIG => 0x02,
            Register::ALERT_CONFIG => 0x03,
            Register::X_THRX_CONFIG => 0x04,
            Register::Y_THRX_CONFIG => 0x05,
            Register::Z_THRX_CONFIG => 0x06,
            Register::T_THRX_CONFIG => 0x07,
            Register::CONV_STATUS => 0x08,
            Register::X_CH_RESULT => 0x09,
            Register::Y_CH_RESULT => 0x0A,
            Register::Z_CH_RESULT => 0x0B,
            Register::TEMP_RESULT => 0x0C,
            Register::AFE_STATUS => 0x0D,
            Register::SYS_STATUS => 0x0E,
            Register::TEST_CONFIG => 0x0F,
            Register::OSC_MONITOR => 0x10,
            Register::MAG_GAIN_CONFIG => 0x11,
            Register::ANGLE_RESULT => 0x13,
            Register::MAGNITUDE_RESULT => 0x14,
        }
    }

    /// Returns the address of the register on the wire.
    #[verifier::when_used_as_spec(spec_addr)]
    pub fn addr(self) -> (a: u8)
        ensures
            a == self.spec_addr(),
            a <= LAST_ADDRESS,
    {
        match self {
            Register::DEVICE_CONFIG => 0x00,
            Register::SENSOR_CONFIG => 0x01,
            Register::SYSTEM_CONFIG => 0x02,
            Register::ALERT_CONFIG => 0x03,
            Register::X_THRX_CONFIG => 0x04,
            Register::Y_THRX_CONFIG => 0x05,
            Register::Z_THRX_CONFIG => 0x06,
            Register::T_THRX_CONFIG => 0x07,
            Register::CONV_STATUS => 0x08,
            Register::X_CH_RESULT => 0x09,
            Register::Y_CH_RESULT => 0x0A,
            Register::Z_CH_RESULT => 0x0B,
            Register::TEMP_RESULT => 0x0C,
            Register::AFE_STATUS => 0x0D,
            Register::SYS_STATUS => 0x0E,
            Register::TEST_CONFIG => 0x0F,
            Register::OSC_MONITOR => 0x10,
            Register::MAG_GAIN_CONFIG => 0x11,
            Register::ANGLE_RESULT => 0x13,
            Register::MAGNITUDE_RESULT => 0x14,
        }
    }

    /// The register that lives at address `a`, if there is one.
    pub open spec fn spec_from_addr(a: u8) -> Option<Register> {
        if a == 0x00 {
            Some(Register::DEVICE_CONFIG)
        } else if a == 0x01 {
            Some(Register::SENSOR_CONFIG)
        } else if a == 0x02 {
            Some(Register::SYSTEM_CONFIG)
        } else if a == 0x03 {
            Some(Register::ALERT_CONFIG)
        } else if a == 0x04 {
            Some(Register::X_THRX_CONFIG)
        } else if a == 0x05 {
            Some(Register::Y_THRX_CONFIG)
        } else if a == 0x06 {
            Some(Register::Z_THRX_CONFIG)
        } else if a == 0x07 {
            Some(Register::T_THRX_CONFIG)
        } else if a == 0x08 {
            Some(Register::CONV_STATUS)
        } else if a == 0x09 {
            Some(Register::X_CH_RESULT)
        } else if a == 0x0A {
            Some(Register::Y_CH_RESULT)
        } else if a == 0x0B {
            Some(Register::Z_CH_RESULT)
        } else if a == 0x0C {
            Some(Register::TEMP_RESULT)
        } else if a == 0x0D {
            Some(Register::AFE_STATUS)
        } else if a == 0x0E {
            Some(Register::SYS_STATUS)
        } else if a == 0x0F {
            Some(Register::TEST_CONFIG)
        } else if a == 0x10 {
            Some(Register::OSC_MONITOR)
        } else if a == 0x11 {
            Some(Register::MAG_GAIN_CONFIG)
        } else if a == 0x13 {
            Some(Register::ANGLE_RESULT)
        } else if a == 0x14 {
            Some(Register::MAGNITUDE_RESULT)
        } else {
            None
        }
    }

    /// Looks up the register that lives at address `a`.
    ///
    /// Every address up to `LAST_ADDRESS` names a register, except the unused
    /// `0x12`; no address above it does.
    #[verifier::when_used_as_spec(spec_from_addr)]
    pub fn from_addr(a: u8) -> (r: Option<Register>)
        ensures
            r == Register::spec_from_addr(a),
            r is Some <==> a <= LAST_ADDRESS && a != 0x12,
    {
        match a {
            0x00 => Some(Register::DEVICE_CONFIG),
            0x01 => Some(Register::SENSOR_CONFIG),
            0x02 => Some(Register::SYSTEM_CONFIG),
            0x03 => Some(Register::ALERT_CONFIG),
            0x04 => Some(Register::X_THRX_CONFIG),
            0x05 => Some(Register::Y_THRX_CONFIG),
            0x06 => Some(Register::Z_THRX_CONFIG),
            0x07 => Some(Register::T_THRX_CONFIG),
            0x08 => Some(Register::CONV_STATUS),
            0x09 => Some(Register::X_CH_RESULT),
            0x0A => Some(Register::Y_CH_RESULT),
            0x0B => Some(Register::Z_CH_RESULT),
            0x0C => Some(Register::TEMP_RESULT),
            0x0D => Some(Register::AFE_STATUS),
            0x0E => Some(Register::SYS_STATUS),
            0x0F => Some(Register::TEST_CONFIG),
            0x10 => Some(Register::OSC_MONITOR),
            0x11 => Some(Register::MAG_GAIN_CONFIG),
            0x13 => Some(Register::ANGLE_RESULT),
            0x14 => Some(Register::MAGNITUDE_RESULT),
            _ => None,
        }
    }
}

/// The lookup by address is the inverse of `addr`: a register is found at its
/// own address, and what is found at an address has that address.
pub proof fn lemma_from_addr_inverts_addr(reg: Register, a: u8)
    ensures
        Register::from_addr(reg.addr()) == Some(reg),
        Register::from_addr(a) == Some(reg) <==> reg.addr() == a,
{
}

/// No two registers share an address.
pub proof fn lemma_addr_injective(a: Register, b: Register)
    requires
        a.addr() == b.addr(),
    ensures
        a == b,
{
}

} // verus!
