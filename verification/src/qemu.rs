//! Diagnostic exit: the code word that tells an emulator's debug exit device
//! to end the run.

use vstd::prelude::*;
use crate::io::PortWrite32;

verus! {

/// I/O port of the debug exit device.
pub const EXIT_PORT: u16 = 0xf4;

/// What is said on the serial line before a failed run ends.
pub const FAILED_BANNER: &'static str = "[failed]\n";

/// How a run ended.
#[derive(Debug, Clone, Copy, PartialEq, Eq, Structural)]
pub enum ExitCode {
    Success,
    Failed,
}

impl ExitCode {
    /// The code word written to the exit device.
    pub open spec fn spec_code(self) -> u32 {
        match self {
            ExitCode::Success => 0x10,
            ExitCode::Failed => 0x11,
        }
    }

    /// The status with which the emulator's process ends once the code word
    /// is written: the code word shifted left by one, with the low bit set.
    pub open spec fn spec_process_status(self) -> u32 {
        match self {
            ExitCode::Success => 33,
            ExitCode::Failed => 35,
        }
    }

    /// The code word written to the exit device.
    pub fn code(self) -> (c: u32)
        ensures
            c == self.spec_code(),
    {
        match self {
            ExitCode::Success => 0x10,
            ExitCode::Failed => 0x11,
        }
    }

    /// The status with which the emulator's process ends.
    pub fn process_status(self) -> (s: u32)
        ensures
            s == self.spec_process_status(),
            s == self.spec_code() * 2 + 1,
    {
        self.code() * 2 + 1
    }
}

/// The write that ends the run with `exit_code`. The processor is halted
/// after it, for the case that nothing listens on the port.
pub fn exit(exit_code: ExitCode) -> (w: PortWrite32)
    ensures
        w == (PortWrite32 { port: EXIT_PORT, value: exit_code.spec_code() }),
{
    PortWrite32 { port: EXIT_PORT, value: exit_code.code() }
}

/// The write that ends a successful run.
pub fn exit_success() -> (w: PortWrite32)
    ensures
        w == (PortWrite32 { port: 0xf4, value: 0x10 }),
{
    exit(ExitCode::Success)
}

/// The write that ends a failed run, to be performed after the failure
/// banner went out on the serial line.
pub fn exit_failed() -> (w: PortWrite32)
    ensures
        w == (PortWrite32 { port: 0xf4, value: 0x11 }),
{
    exit(ExitCode::Failed)
}

} // verus!
