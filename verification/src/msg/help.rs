//! The static help text.

use crate::text::{ascii_bytes, push_str};
use vstd::prelude::*;

verus! {

/// The help text listing every command the console understands.
pub open spec fn spec_help_message() -> Seq<u8> {
    ascii_bytes(
        "\r\n=== Available Commands ===\r\nhelp     - Show this help\r\ninfo     - Device information\r\nreset    - Reset mining state\r\n\r\n=== Mining Commands ===\r\nzeros N  - Set number of zeros (ex: zeros 8)\r\nentropy N- Set entropy (ex: entropy 5)\r\nhash H   - Select hash algorithm (sha256, keccak256)\r\nhash     - Show current hash algorithm\r\nmine     - Start mining\r\n============================\r\n\r\n"@,
    )
}

/// Append the help text.
pub fn send_help_message(uart: &mut Vec<u8>)
    ensures
        final(uart)@ == old(uart)@ + spec_help_message(),
{
    push_str(
        uart,
        "\r\n=== Available Commands ===\r\nhelp     - Show this help\r\ninfo     - Device information\r\nreset    - Reset mining state\r\n\r\n=== Mining Commands ===\r\nzeros N  - Set number of zeros (ex: zeros 8)\r\nentropy N- Set entropy (ex: entropy 5)\r\nhash H   - Select hash algorithm (sha256, keccak256)\r\nhash     - Show current hash algorithm\r\nmine     - Start mining\r\n============================\r\n\r\n",
    );
}

} // verus!
