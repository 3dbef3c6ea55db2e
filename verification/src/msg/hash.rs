//! The hash-algorithm selection command and its messages.

use crate::text::{ascii_bytes, eq_ignore_ascii_case, push_str, token_matches};
use vstd::prelude::*;

verus! {

/// The digest families a search can use.
#[derive(Debug, Clone, Copy, PartialEq, Eq, Structural)]
pub enum HashAlgorithm {
    Sha256,
    Keccak256,
}

/// The canonical display name of an algorithm, as bytes.
pub open spec fn spec_algorithm_name(a: HashAlgorithm) -> Seq<u8> {
    match a {
        HashAlgorithm::Sha256 => ascii_bytes("SHA256"@),
        HashAlgorithm::Keccak256 => ascii_bytes("Keccak-256"@),
    }
}

/// Which algorithm, if any, a token names: `sha256` for SHA-256, and
/// `keccak256` or `keccak` for Keccak-256, all compared ignoring ASCII case.
pub open spec fn spec_parse_algorithm(s: Seq<u8>) -> Option<HashAlgorithm> {
    if eq_ignore_ascii_case(s, ascii_bytes("sha256"@)) {
        Some(HashAlgorithm::Sha256)
    } else if eq_ignore_ascii_case(s, ascii_bytes("keccak256"@)) || eq_ignore_ascii_case(
        s,
        ascii_bytes("keccak"@),
    ) {
        Some(HashAlgorithm::Keccak256)
    } else {
        None
    }
}

impl HashAlgorithm {
    /// Parse an algorithm name, ignoring ASCII case.
    pub fn from_str(s: &[u8]) -> (r: Option<Self>)
        ensures
            r == spec_parse_algorithm(s@),
    {
        if token_matches(s, "sha256") {
            Some(HashAlgorithm::Sha256)
        } else if token_matches(s, "keccak256") || token_matches(s, "keccak") {
            Some(HashAlgorithm::Keccak256)
        } else {
            None
        }
    }

    /// The canonical display name of the algorithm.
    pub fn as_str(&self) -> (r: &'static str)
        ensures
            ascii_bytes(r@) == spec_algorithm_name(*self),
    {
        match self {
            HashAlgorithm::Sha256 => "SHA256",
            HashAlgorithm::Keccak256 => "Keccak-256",
        }
    }
}

/// The confirmation for a completed algorithm change.
pub open spec fn spec_hash_message(a: HashAlgorithm) -> Seq<u8> {
    ascii_bytes("[HASH] Algorithm changed to: "@) + spec_algorithm_name(a) + ascii_bytes("\r\n"@)
}

/// Append the confirmation for a completed algorithm change.
pub fn send_hash_message(uart: &mut Vec<u8>, algorithm: HashAlgorithm)
    ensures
        final(uart)@ == old(uart)@ + spec_hash_message(algorithm),
{
    push_str(uart, "[HASH] Algorithm changed to: ");
    push_str(uart, algorithm.as_str());
    push_str(uart, "\r\n");
    assert(uart@ =~= old(uart)@ + spec_hash_message(algorithm));
}

/// The report of a failed algorithm selection.
pub open spec fn spec_hash_error_message(error: Seq<char>) -> Seq<u8> {
    ascii_bytes("[HASH_ERROR] "@) + ascii_bytes(error) + ascii_bytes("\r\n"@)
}

/// Append the report of a failed algorithm selection.
pub fn send_hash_error_message(uart: &mut Vec<u8>, error: &str)
    ensures
        final(uart)@ == old(uart)@ + spec_hash_error_message(error@),
{
    push_str(uart, "[HASH_ERROR] ");
    push_str(uart, error);
    push_str(uart, "\r\n");
    assert(uart@ =~= old(uart)@ + spec_hash_error_message(error@));
}

/// The answer to an algorithm query.
pub open spec fn spec_current_hash_message(a: HashAlgorithm) -> Seq<u8> {
    ascii_bytes("[HASH_INFO] Current algorithm: "@) + spec_algorithm_name(a) + ascii_bytes(
        "\r\n"@,
    )
}

/// Append the answer to an algorithm query.
pub fn send_current_hash_message(uart: &mut Vec<u8>, algorithm: HashAlgorithm)
    ensures
        final(uart)@ == old(uart)@ + spec_current_hash_message(algorithm),
{
    push_str(uart, "[HASH_INFO] Current algorithm: ");
    push_str(uart, algorithm.as_str());
    push_str(uart, "\r\n");
    assert(uart@ =~= old(uart)@ + spec_current_hash_message(algorithm));
}

} // verus!
