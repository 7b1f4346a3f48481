//! Response codes written by the VideoCore into word 1 of the buffer
use vstd::prelude::*;

verus! {

/// The request was processed successfully.
pub const SUCCESS: u32 = 0x8000_0000;

/// Error parsing the request buffer (partial response).
pub const ERROR: u32 = 0x8000_0001;

} // verus!
