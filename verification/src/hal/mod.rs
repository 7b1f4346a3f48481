//! Hardware abstraction layer for the BCM2837.
pub mod cache;
pub mod i2c;
pub mod mailbox;
pub mod pmem;
pub mod serial;
