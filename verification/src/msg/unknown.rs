//! The response to an unrecognized command.

use crate::text::{ascii_bytes, push_bytes, push_str};
use vstd::prelude::*;

verus! {

/// The echo of an unrecognized command line, followed by a pointer to `help`.
pub open spec fn spec_unknown_command_message(cmd: Seq<u8>) -> Seq<u8> {
    ascii_bytes("Command received: '"@) + cmd + ascii_bytes(
        "'\r\nType 'help' to see available commands\r\n"@,
    )
}

/// Append the echo of an unrecognized command line.
pub fn send_unknown_command_message(uart: &mut Vec<u8>, cmd: &[u8])
    ensures
        final(uart)@ == old(uart)@ + spec_unknown_command_message(cmd@),
{
    push_str(uart, "Command received: '");
    push_bytes(uart, cmd);
    push_str(uart, "'\r\nType 'help' to see available commands\r\n");
    assert(uart@ =~= old(uart)@ + spec_unknown_command_message(cmd@));
}

} // verus!
