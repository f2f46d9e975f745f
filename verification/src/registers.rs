//! Symbolic names for the device's registers and their one-byte addresses.

use vstd::prelude::*;

verus! {

/// The fixed bus address of the device; every transaction is directed at it.
pub const ADDRESS: u8 = 0x0E;

/// The device's registers. Each register is a one-byte-addressable storage
/// location inside the device, readable or writable via bus transactions.
#[allow(non_camel_case_types)]
#[derive(Copy, Clone, PartialEq, Eq, Structural, Debug)]
pub enum Register {
    /// Data ready status per axis
    DR_STATUS,
    /// Bits [15:8] of X measurement
    OUT_X_MSB,
    /// Bits [7:0] of X measurement
    OUT_X_LSB,
    /// Bits [15:8] of Y measurement
    OUT_Y_MSB,
    /// Bits [7:0] of Y measurement
    OUT_Y_LSB,
    /// Bits [15:8] of Z measurement
    OUT_Z_MSB,
    /// Bits [7:0] of Z measurement
    OUT_Z_LSB,
    /// Device ID number
    WHO_AM_I,
    /// Current system mode
    SYSMOD,
    /// Bits [14:7] of user X offset
    OFF_X_MSB,
    /// Bits [6:0] of user X offset
    OFF_X_LSB,
    /// Bits [14:7] of user Y offset
    OFF_Y_MSB,
    /// Bits [6:0] of user Y offset
    OFF_Y_LSB,
    /// Bits [14:7] of user Z offset
    OFF_Z_MSB,
    /// Bits [6:0] of user Z offset
    OFF_Z_LSB,
    /// Temperature, signed 8 bits in degrees Celsius
    DIE_TEMP,
    /// Operation modes
    CTRL_REG1,
    /// Operation modes
    CTRL_REG2,
}

impl Register {
    /// The one-byte address of the register, as the device documents it.
    pub open spec fn addr_spec(self) -> u8 {
        match self {
            Register::DR_STATUS => 0x00,
            Register::OUT_X_MSB => 0x01,
            Register::OUT_X_LSB => 0x02,
            Register::OUT_Y_MSB => 0x03,
            Register::OUT_Y_LSB => 0x04,
            Register::OUT_Z_MSB => 0x05,
            Register::OUT_Z_LSB => 0x06,
            Register::WHO_AM_I => 0x07,
            Register::SYSMOD => 0x08,
            Register::OFF_X_MSB => 0x09,
            Register::OFF_X_LSB => 0x0A,
            Register::OFF_Y_MSB => 0x0B,
            Register::OFF_Y_LSB => 0x0C,
            Register::OFF_Z_MSB => 0x0D,
            Register::OFF_Z_LSB => 0x0E,
            Register::DIE_TEMP => 0x0F,
            Register::CTRL_REG1 => 0x10,
            Register::CTRL_REG2 => 0x11,
        }
    }

    /// Returns the one-byte address of the register.
    pub fn addr(&self) -> (r: u8)
        ensures
            r == self.addr_spec(),
    {
        match self {
            Register::DR_STATUS => 0x00,
            Register::OUT_X_MSB => 0x01,
            Register::OUT_X_LSB => 0x02,
            Register::OUT_Y_MSB => 0x03,
            Register::OUT_Y_LSB => 0x04,
            Register::OUT_Z_MSB => 0x05,
            Register::OUT_Z_LSB => 0x06,
            Register::WHO_AM_I => 0x07,
            Register::SYSMOD => 0x08,
            Register::OFF_X_MSB => 0x09,
            Register::OFF_X_LSB => 0x0A,
            Register::OFF_Y_MSB => 0x0B,
            Register::OFF_Y_LSB => 0x0C,
            Register::OFF_Z_MSB => 0x0D,
            Register::OFF_Z_LSB => 0x0E,
            Register::DIE_TEMP => 0x0F,
            Register::CTRL_REG1 => 0x10,
            Register::CTRL_REG2 => 0x11,
        }
    }
}

} // verus!
