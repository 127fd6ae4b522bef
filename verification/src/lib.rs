//! Hardware bring-up logic of a small x86-64 kernel, as pure verified code.
//!
//! Every module computes on plain values: pixels, register images, port
//! programs, cursor positions. Touching the machine itself (port I/O, table
//! loads, memory-mapped registers) is left to the caller, who is told what to
//! do and in which order.

use vstd::prelude::*;

pub mod ahci;
pub mod command;
pub mod cpu;
pub mod fis;
pub mod font;
pub mod framebuffer;
pub mod gdt;
pub mod interrupts;
pub mod io;
pub mod pic;
pub mod qemu;
pub mod serial;
pub mod text;
pub mod textwriter;

verus! {

/// The privileged steps that bring the machine from the boot loader's state
/// to running with interrupts, in order.
pub fn init() -> (plan: Vec<cpu::BootAction>)
    ensures
        plan@ == cpu::init_plan(),
{
    cpu::init()
}

} // verus!
