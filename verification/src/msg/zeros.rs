//! Messages for the difficulty (`zeros`) command.

use crate::text::{ascii_bytes, dec_bytes, push_dec_u8, push_str};
use vstd::prelude::*;

verus! {

/// The confirmation for a completed `zeros` command.
pub open spec fn spec_zeros_message(zeros: nat) -> Seq<u8> {
    ascii_bytes("ZEROS: "@) + dec_bytes(zeros) + ascii_bytes(" zeros configured for mining\r\n"@)
}

/// Append the confirmation for a completed `zeros` command.
pub fn send_zeros_message(uart: &mut Vec<u8>, zeros: u8)
    ensures
        final(uart)@ == old(uart)@ + spec_zeros_message(zeros as nat),
{
    push_str(uart, "ZEROS: ");
    push_dec_u8(uart, zeros);
    push_str(uart, " zeros configured for mining\r\n");
    assert(uart@ =~= old(uart)@ + spec_zeros_message(zeros as nat));
}

/// The report of an invalid `zeros` command.
pub open spec fn spec_zeros_error_message(error: Seq<char>) -> Seq<u8> {
    ascii_bytes("ZEROS_ERROR: "@) + ascii_bytes(error) + ascii_bytes("\r\n"@)
}

/// Append the report of an invalid `zeros` command.
pub fn send_zeros_error_message(uart: &mut Vec<u8>, error: &str)
    ensures
        final(uart)@ == old(uart)@ + spec_zeros_error_message(error@),
{
    push_str(uart, "ZEROS_ERROR: ");
    push_str(uart, error);
    push_str(uart, "\r\n");
    assert(uart@ =~= old(uart)@ + spec_zeros_error_message(error@));
}

} // verus!
