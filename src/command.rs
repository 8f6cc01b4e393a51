//! Checking a command's text before it is handed to the shell, and reading
//! the status the shell reports when the command ends.
use vstd::prelude::*;
use vstd::string::StringSliceAdditionalSpecFns;
use crate::error::Error;

verus! {

/// A command can be handed to the shell unless its UTF-8 bytes hold a NUL
/// byte, which the shell's interface cannot carry: then the error names the
/// byte position of the first one.
pub fn check_command(cmd: &str) -> (r: Result<(), Error>)
    ensures
        r is Ok <==> forall|i: int| 0 <= i < cmd.spec_bytes().len() ==> cmd.spec_bytes()[i] != 0,
        r matches Err(e) ==> (e matches Error::Nul(p) && p < cmd.spec_bytes().len()
            && cmd.spec_bytes()[p as int] == 0 && forall|j: int|
            0 <= j < p ==> cmd.spec_bytes()[j] != 0),
{
    let bytes = cmd.as_bytes();
    let mut i: usize = 0;
    while i < bytes.len()
        invariant
            bytes@ == cmd.spec_bytes(),
            i <= bytes@.len(),
            forall|j: int| 0 <= j < i ==> cmd.spec_bytes()[j] != 0,
        decreases bytes@.len() - i,
    {
        if bytes[i] == 0 {
            return Err(Error::Nul(i));
        }
        i = i + 1;
    }
    Ok(())
}

/// The exit code in a status that the C library's `system` reports for a
/// child that ended: bits 8 to 15.
pub open spec fn exit_code_of(status: i32) -> i32 {
    (status >> 8u32) & 0xffi32
}

/// The exit code, from 0 to 255, in the status of a finished command.
pub fn exit_code(status: i32) -> (r: i32)
    ensures
        r == exit_code_of(status),
        0 <= r <= 255,
{
    let r = (status >> 8u32) & 0xffi32;
    assert(0 <= r <= 255) by (bit_vector)
        requires
            r == (status >> 8u32) & 0xffi32,
    ;
    r
}

/// How a command that ran has ended.
#[derive(Debug)]
pub struct CommandOutcome {
    /// From 0 to 255; 0 means success.
    pub exit_code: i32,
}

/// How a command ended, from the status that the shell reported.
pub fn command_outcome(status: i32) -> (r: CommandOutcome)
    ensures
        r.exit_code == exit_code_of(status),
{
    CommandOutcome { exit_code: exit_code(status) }
}

} // verus!
