//! Bus addresses, register addresses and fixed values of the sensor package.
use vstd::prelude::*;

verus! {

/// Bus address of the inertial sub-device (accelerometer and gyroscope).
pub const IMU_ADDR: u8 = 0x68;

/// Bus address of the magnetic sub-device, reachable once pass-through is on.
pub const MAG_ADDR: u8 = 0x0c;

/// Inertial identity register.
pub const IMU_WHO_AM_I: u8 = 0x00;

/// Value that the inertial identity register must hold.
pub const IMU_ID: u8 = 0xEA;

/// User control register; its bit `I2C_MST_RST` resets the internal bus master.
pub const IMU_USER_CTRL: u8 = 0x03;

/// Bit of `IMU_USER_CTRL` that resets the internal bus master.
pub const I2C_MST_RST: u8 = 0x02;

/// Power management register: sleep control and clock source.
pub const IMU_PWR_MGMT_1: u8 = 0x06;

/// Value of `IMU_PWR_MGMT_1` that leaves sleep with the clock chosen automatically.
pub const IMU_AWAKE: u8 = 0x01;

/// Interrupt pin configuration register; holds the pass-through bit.
pub const IMU_INT_PIN_CFG: u8 = 0x0F;

/// Bit of `IMU_INT_PIN_CFG` that bridges the magnetic sub-device onto the bus.
pub const BYPASS_EN: u8 = 0x02;

/// First register of the inertial sample block.
pub const IMU_ACCEL_XOUT_H: u8 = 0x2D;

/// Register that selects the register bank.
pub const IMU_REG_BANK_SEL: u8 = 0x7F;

/// Length of the inertial sample block: three acceleration lanes, then three
/// angular-rate lanes, two bytes each.
pub const IMU_BLOCK_LEN: usize = 12;

/// Magnetic identity registers (two bytes, low byte first).
pub const MAG_WIA: u8 = 0x00;

/// Value that the two magnetic identity registers must hold.
pub const MAG_ID: u16 = 0x0948;

/// First register of the magnetic sample block (the first status register).
pub const MAG_ST1: u8 = 0x10;

/// Length of the magnetic sample block: a status byte, three lanes of two bytes,
/// a padding byte and a second status byte.
pub const MAG_BLOCK_LEN: usize = 9;

/// Magnetic control register that selects the measurement mode.
pub const MAG_CNTL2: u8 = 0x31;

/// Continuous measurement at 100 Hz.
pub const MAG_CONTINUOUS_100HZ: u8 = 0x08;

/// Acceleration counts per gravity at the default full scale.
pub const ACC_LSB_PER_G: u16 = 16384;

/// Angular-rate counts per degree per second at the default full scale.
pub const GYRO_LSB_PER_DPS: u16 = 131;

} // verus!
