//! The `reset` command: return the mining state to its defaults and confirm.

use crate::mining::MiningState;
use crate::text::{ascii_bytes, push_str};
use vstd::prelude::*;

verus! {

/// The confirmation block written after a reset; the values shown are the
/// defaults the state was just returned to.
pub open spec fn spec_reset_message() -> Seq<u8> {
    ascii_bytes(
        "=== Reset Done ===\r\nMining state returned to defaults:\r\nZeros: 0\r\nEntropy: 0\r\nConfigured: false\r\nLast nonce: none\r\nReset completed!\r\n"@,
    )
}

/// Reset the mining state to its defaults and append the confirmation block.
pub fn send_reset_message(uart: &mut Vec<u8>, mining_state: &mut MiningState)
    ensures
        *final(mining_state) == MiningState::spec_default(),
        final(uart)@ == old(uart)@ + spec_reset_message(),
{
    mining_state.reset();
    push_str(
        uart,
        "=== Reset Done ===\r\nMining state returned to defaults:\r\nZeros: 0\r\nEntropy: 0\r\nConfigured: false\r\nLast nonce: none\r\nReset completed!\r\n",
    );
}

} // verus!
