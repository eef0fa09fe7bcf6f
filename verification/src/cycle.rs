//! Primitives of the cycle-stepped CPU core: page-crossing addresses, the
//! status register with its stack encoding, and the bus requests a cycle
//! issues.

pub mod address;
pub mod cpu;
pub mod status;
pub mod types;

use vstd::prelude::*;

verus! {

/// The bus access a CPU cycle asks for.
#[derive(Clone, Copy, Debug)]
pub enum IoRequest {
    Read(u16),
    Write(u16, u8),
}

} // verus!
