//! SPI over the Linux `spidev` character device.
//!
//! The library turns bus-level and device-level SPI operations into the
//! transfer descriptors that one submission to the kernel driver accepts,
//! and decides how a transaction proceeds once the driver has answered.
//! It performs no I/O itself: the caller owns the device handle, hands the
//! library the lengths of its buffers and the driver's answers, and gets
//! descriptors and results back.

pub mod adapter;
pub mod descriptor;
pub mod error;
pub mod exchange;
pub mod planner;
pub mod transaction;
