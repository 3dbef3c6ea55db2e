//! Messages emitted around and during a mining search.

use crate::text::{ascii_bytes, dec_bytes, push_dec_u32, push_dec_u8, push_str};
use vstd::prelude::*;

verus! {

/// The announcement written when a search begins.
pub open spec fn spec_mine_start_message(zeros: nat, entropy: nat) -> Seq<u8> {
    ascii_bytes("MINE_START: mining with "@) + dec_bytes(zeros) + ascii_bytes(
        " zeros and entropy "@,
    ) + dec_bytes(entropy) + ascii_bytes("\r\n"@)
}

/// Append the announcement written when a search begins.
pub fn send_mine_start_message(uart: &mut Vec<u8>, zeros: u8, entropy: u8)
    ensures
        final(uart)@ == old(uart)@ + spec_mine_start_message(zeros as nat, entropy as nat),
{
    push_str(uart, "MINE_START: mining with ");
    push_dec_u8(uart, zeros);
    push_str(uart, " zeros and entropy ");
    push_dec_u8(uart, entropy);
    push_str(uart, "\r\n");
    assert(uart@ =~= old(uart)@ + spec_mine_start_message(zeros as nat, entropy as nat));
}

/// The report of a nonce found by a completed search.
pub open spec fn spec_mine_result_message(nonce: nat) -> Seq<u8> {
    ascii_bytes("MINE_RESULT: nonce found: "@) + dec_bytes(nonce) + ascii_bytes("\r\n"@)
}

/// Append the report of a nonce found by a completed search.
pub fn send_mine_result_message(uart: &mut Vec<u8>, nonce: u32)
    ensures
        final(uart)@ == old(uart)@ + spec_mine_result_message(nonce as nat),
{
    push_str(uart, "MINE_RESULT: nonce found: ");
    push_dec_u32(uart, nonce);
    push_str(uart, "\r\n");
    assert(uart@ =~= old(uart)@ + spec_mine_result_message(nonce as nat));
}

/// The report of a search that could not run or did not find a nonce.
pub open spec fn spec_mine_error_message(error: Seq<char>) -> Seq<u8> {
    ascii_bytes("MINE_ERROR: "@) + ascii_bytes(error) + ascii_bytes("\r\n"@)
}

/// Append the report of a search that could not run or did not find a nonce.
pub fn send_mine_error_message(uart: &mut Vec<u8>, error: &str)
    ensures
        final(uart)@ == old(uart)@ + spec_mine_error_message(error@),
{
    push_str(uart, "MINE_ERROR: ");
    push_str(uart, error);
    push_str(uart, "\r\n");
    assert(uart@ =~= old(uart)@ + spec_mine_error_message(error@));
}

/// One periodic progress line of a running search.
pub open spec fn spec_mine_progress_message(nonce: nat, entropy: nat) -> Seq<u8> {
    ascii_bytes("MINE_PROGRESS: nonce="@) + dec_bytes(nonce) + ascii_bytes(", entropy="@)
        + dec_bytes(entropy) + ascii_bytes("\r\n"@)
}

/// Append one periodic progress line of a running search.
pub fn send_mine_progress_message(uart: &mut Vec<u8>, nonce: u32, entropy: u8)
    ensures
        final(uart)@ == old(uart)@ + spec_mine_progress_message(nonce as nat, entropy as nat),
{
    push_str(uart, "MINE_PROGRESS: nonce=");
    push_dec_u32(uart, nonce);
    push_str(uart, ", entropy=");
    push_dec_u8(uart, entropy);
    push_str(uart, "\r\n");
    assert(uart@ =~= old(uart)@ + spec_mine_progress_message(nonce as nat, entropy as nat));
}

} // verus!
