//! Port I/O as data: what is to be written, to which port.

use vstd::prelude::*;

verus! {

/// One byte to be written to one I/O port.
#[derive(Debug, Clone, Copy, PartialEq, Eq, Structural)]
pub struct PortWrite {
    pub port: u16,
    pub value: u8,
}

/// One 32-bit value to be written to one I/O port.
#[derive(Debug, Clone, Copy, PartialEq, Eq, Structural)]
pub struct PortWrite32 {
    pub port: u16,
    pub value: u32,
}

} // verus!
