//! Cache-related address bits.
pub mod bus_address_bits;
