//! Driver and telemetry pipeline for a combined accelerometer, gyroscope and
//! magnetometer package on a register-oriented bus.

pub mod bus;
pub mod codec;
pub mod driver;
pub mod registers;
pub mod schedule;
pub mod telemetry;
