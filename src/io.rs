//! Device-facing parts: the console grid, its laws, and the emulator's exit codes.
use vstd::prelude::*;

pub mod vga_buffer;
pub mod console_laws;

verus! {

/// The I/O port that the emulator's exit device listens on.
pub const EXIT_PORT: u16 = 0xf4;

/// Status reported to the emulator's exit device.
#[derive(Debug, Clone, Copy, PartialEq, Eq, Structural)]
pub enum ExitCode {
    Success,
    Failed,
}

impl ExitCode {
    /// The value written to the exit port for this status.
    pub open spec fn spec_code(self) -> u32 {
        match self {
            ExitCode::Success => 0x10,
            ExitCode::Failed => 0x11,
        }
    }

    pub fn code(self) -> (r: u32)
        ensures
            r == self.spec_code(),
    {
        match self {
            ExitCode::Success => 0x10,
            ExitCode::Failed => 0x11,
        }
    }
}

} // verus!
