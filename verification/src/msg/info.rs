//! The device and mining-state summary.

use crate::mining::MiningState;
use crate::msg::hash::spec_algorithm_name;
use crate::text::{ascii_bytes, dec_bytes, push_dec_u32, push_dec_u8, push_str};
use vstd::prelude::*;

verus! {

/// The decimal rendering of the last nonce, or `-1` when none was found yet.
pub open spec fn spec_last_nonce_text(last_nonce: Option<u32>) -> Seq<u8> {
    match last_nonce {
        Some(nonce) => dec_bytes(nonce as nat),
        None => ascii_bytes("-1"@),
    }
}

/// The multi-line status block answering the `info` command.
pub open spec fn spec_info_message(s: MiningState) -> Seq<u8> {
    ascii_bytes(
        "=== Device Info ===\r\nDevice: console miner\r\nTransport: character stream\r\n=== Mining State ===\r\nAlgorithm: "@,
    ) + spec_algorithm_name(s.hash_algorithm) + ascii_bytes("\r\nZeros: "@) + dec_bytes(
        s.zeros as nat,
    ) + ascii_bytes("\r\nEntropy: "@) + dec_bytes(s.entropy as nat) + ascii_bytes(
        "\r\nLast nonce: "@,
    ) + spec_last_nonce_text(s.last_nonce) + ascii_bytes("\r\n====================\r\n"@)
}

/// Append the status block answering the `info` command.
pub fn send_info_message(uart: &mut Vec<u8>, mining_state: &MiningState)
    ensures
        final(uart)@ == old(uart)@ + spec_info_message(*mining_state),
{
    push_str(
        uart,
        "=== Device Info ===\r\nDevice: console miner\r\nTransport: character stream\r\n=== Mining State ===\r\nAlgorithm: ",
    );
    push_str(uart, mining_state.get_hash_algorithm().as_str());
    push_str(uart, "\r\nZeros: ");
    push_dec_u8(uart, mining_state.zeros);
    push_str(uart, "\r\nEntropy: ");
    push_dec_u8(uart, mining_state.entropy);
    push_str(uart, "\r\nLast nonce: ");
    match mining_state.last_nonce {
        Some(nonce) => push_dec_u32(uart, nonce),
        None => push_str(uart, "-1"),
    }
    push_str(uart, "\r\n====================\r\n");
    assert(uart@ =~= old(uart)@ + spec_info_message(*mining_state));
}

} // verus!
