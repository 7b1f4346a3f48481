//! Peripheral logic for the Raspberry Pi 3 (BCM2837): physical memory
//! regions, the VideoCore mailbox property protocol, serial and I2C
//! configuration, and framebuffer pixel addressing.
pub mod hal;
pub mod bcm2837;
pub mod mailbox;
pub mod console;
pub mod display;
pub mod eg_display;
pub mod bar_graph;
