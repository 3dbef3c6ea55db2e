//! Messages for the entropy command.

use crate::text::{ascii_bytes, dec_bytes, push_dec_u8, push_str};
use vstd::prelude::*;

verus! {

/// The confirmation for a completed `entropy` command.
pub open spec fn spec_entropy_message(entropy: nat) -> Seq<u8> {
    ascii_bytes("ENTROPY: "@) + dec_bytes(entropy) + ascii_bytes(" configured for mining\r\n"@)
}

/// Append the confirmation for a completed `entropy` command.
pub fn send_entropy_message(uart: &mut Vec<u8>, entropy: u8)
    ensures
        final(uart)@ == old(uart)@ + spec_entropy_message(entropy as nat),
{
    push_str(uart, "ENTROPY: ");
    push_dec_u8(uart, entropy);
    push_str(uart, " configured for mining\r\n");
    assert(uart@ =~= old(uart)@ + spec_entropy_message(entropy as nat));
}

/// The report of an invalid `entropy` command.
pub open spec fn spec_entropy_error_message(error: Seq<char>) -> Seq<u8> {
    ascii_bytes("ENTROPY_ERROR: "@) + ascii_bytes(error) + ascii_bytes("\r\n"@)
}

/// Append the report of an invalid `entropy` command.
pub fn send_entropy_error_message(uart: &mut Vec<u8>, error: &str)
    ensures
        final(uart)@ == old(uart)@ + spec_entropy_error_message(error@),
{
    push_str(uart, "ENTROPY_ERROR: ");
    push_str(uart, error);
    push_str(uart, "\r\n");
    assert(uart@ =~= old(uart)@ + spec_entropy_error_message(error@));
}

} // verus!
