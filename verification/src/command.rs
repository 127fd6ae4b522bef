//! The serial command line: what a line that was read asks for.

use vstd::prelude::*;

verus! {

/// First of the two numbers shown for an empty line.
pub const NUMBER_X: i32 = 239423889;

/// Second of the two numbers shown for an empty line.
pub const NUMBER_Y: i32 = 123456678;

/// Number of bytes in the prefix of a print command.
pub const PRINT_PREFIX_LEN: usize = 6;

/// What a line asks for.
#[derive(Debug, Clone, Copy, PartialEq, Eq, Structural)]
pub enum Command {
    /// Print the rest of the line, which starts at this offset.
    Print { text_at: usize },
    /// Show the two numbers.
    Numbers,
    /// Nothing that is known; the line is reported as it is.
    Unknown,
}

/// The prefix of a print command: `print` and one space.
pub open spec fn print_prefix() -> Seq<u8> {
    seq![112u8, 114u8, 105u8, 110u8, 116u8, 32u8]
}

/// Whether `line` starts with the print prefix.
pub open spec fn is_print(line: Seq<u8>) -> bool {
    line.len() >= PRINT_PREFIX_LEN && line.subrange(0, PRINT_PREFIX_LEN as int) == print_prefix()
}

/// What `line` asks for: a line that starts with the print prefix asks to
/// print what follows it, the empty line asks for the numbers, and every
/// other line is unknown.
pub open spec fn spec_parse(line: Seq<u8>) -> Command {
    if is_print(line) {
        Command::Print { text_at: PRINT_PREFIX_LEN }
    } else if line.len() == 0 {
        Command::Numbers
    } else {
        Command::Unknown
    }
}

/// Tells what a line asks for.
pub fn parse(line: &[u8]) -> (command: Command)
    ensures
        command == spec_parse(line@),
{
    if line.len() >= PRINT_PREFIX_LEN && line[0] == 112 && line[1] == 114 && line[2] == 105
        && line[3] == 110 && line[4] == 116 && line[5] == 32 {
        assert(line@.subrange(0, PRINT_PREFIX_LEN as int) =~= print_prefix());
        Command::Print { text_at: PRINT_PREFIX_LEN }
    } else {
        assert(!is_print(line@)) by {
            if line@.len() >= PRINT_PREFIX_LEN {
                let head = line@.subrange(0, PRINT_PREFIX_LEN as int);
                assert(head[0] == line@[0] && head[1] == line@[1] && head[2] == line@[2]);
                assert(head[3] == line@[3] && head[4] == line@[4] && head[5] == line@[5]);
            }
        }
        if line.len() == 0 {
            Command::Numbers
        } else {
            Command::Unknown
        }
    }
}

} // verus!
