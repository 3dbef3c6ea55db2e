use kalesp::mining::MiningState;
use kalesp::msg::{
    send_current_hash_message, send_entropy_error_message, send_entropy_message,
    send_hash_error_message, send_hash_message, send_help_message, send_info_message,
    send_mine_error_message, send_mine_progress_message, send_mine_result_message,
    send_mine_start_message, send_reset_message, send_unknown_command_message,
    send_zeros_error_message, send_zeros_message, HashAlgorithm,
};
use kalesp::text::{push_bytes, push_dec_u32, push_dec_u8, push_hex, push_str, token_matches};

fn rendered(f: impl FnOnce(&mut Vec<u8>)) -> String {
    let mut out: Vec<u8> = Vec::new();
    f(&mut out);
    String::from_utf8(out).unwrap()
}

#[test]
fn test_zeros_messages() {
    assert_eq!(
        rendered(|out| send_zeros_message(out, 8)),
        "ZEROS: 8 zeros configured for mining\r\n"
    );
    assert_eq!(
        rendered(|out| send_zeros_error_message(out, "bad value")),
        "ZEROS_ERROR: bad value\r\n"
    );
}

#[test]
fn test_entropy_messages() {
    assert_eq!(
        rendered(|out| send_entropy_message(out, 255)),
        "ENTROPY: 255 configured for mining\r\n"
    );
    assert_eq!(
        rendered(|out| send_entropy_error_message(out, "bad value")),
        "ENTROPY_ERROR: bad value\r\n"
    );
}

#[test]
fn test_hash_messages() {
    assert_eq!(
        rendered(|out| send_hash_message(out, HashAlgorithm::Sha256)),
        "[HASH] Algorithm changed to: SHA256\r\n"
    );
    assert_eq!(
        rendered(|out| send_current_hash_message(out, HashAlgorithm::Keccak256)),
        "[HASH_INFO] Current algorithm: Keccak-256\r\n"
    );
    assert_eq!(
        rendered(|out| send_hash_error_message(out, "unknown algorithm")),
        "[HASH_ERROR] unknown algorithm\r\n"
    );
}

#[test]
fn test_mine_messages() {
    assert_eq!(
        rendered(|out| send_mine_start_message(out, 1, 7)),
        "MINE_START: mining with 1 zeros and entropy 7\r\n"
    );
    assert_eq!(
        rendered(|out| send_mine_result_message(out, 4294967295)),
        "MINE_RESULT: nonce found: 4294967295\r\n"
    );
    assert_eq!(
        rendered(|out| send_mine_error_message(out, "mining failed")),
        "MINE_ERROR: mining failed\r\n"
    );
    assert_eq!(
        rendered(|out| send_mine_progress_message(out, 50000, 9)),
        "MINE_PROGRESS: nonce=50000, entropy=9\r\n"
    );
}

#[test]
fn test_unknown_and_help_messages() {
    assert_eq!(
        rendered(|out| send_unknown_command_message(out, b"ping")),
        "Command received: 'ping'\r\nType 'help' to see available commands\r\n"
    );
    let help = rendered(|out| send_help_message(out));
    assert!(help.starts_with("\r\n=== Available Commands ===\r\n"));
    assert!(help.contains("zeros N  - Set number of zeros (ex: zeros 8)\r\n"));
}

#[test]
fn test_info_message_shows_state() {
    let mut state = MiningState::new();
    state.set_zeros(3);
    state.set_entropy(200);
    state.set_hash_algorithm(HashAlgorithm::Sha256);
    let info = rendered(|out| send_info_message(out, &state));
    assert!(info.contains("Algorithm: SHA256\r\n"));
    assert!(info.contains("Zeros: 3\r\n"));
    assert!(info.contains("Entropy: 200\r\n"));
    assert!(info.contains("Last nonce: -1\r\n"));

    state.set_last_nonce(12345);
    let info = rendered(|out| send_info_message(out, &state));
    assert!(info.contains("Last nonce: 12345\r\n"));
}

#[test]
fn test_reset_message_resets_the_state() {
    let mut state = MiningState::new();
    state.set_zeros(3);
    state.set_entropy(200);
    let text = rendered(|out| send_reset_message(out, &mut state));
    assert!(text.contains("Zeros: 0\r\n"));
    assert!(text.contains("Entropy: 0\r\n"));
    assert!(text.ends_with("Reset completed!\r\n"));
    assert!(!state.is_ready_to_mine());
}

#[test]
fn test_decimal_rendering() {
    for (n, s) in [(0u32, "0"), (7, "7"), (10, "10"), (255, "255"), (50000, "50000"),
        (4294967295, "4294967295")]
    {
        assert_eq!(rendered(|out| push_dec_u32(out, n)), s);
    }
    assert_eq!(rendered(|out| push_dec_u8(out, 200)), "200");
}

#[test]
fn test_hex_rendering() {
    assert_eq!(rendered(|out| push_hex(out, &[])), "");
    assert_eq!(rendered(|out| push_hex(out, &[0x00, 0xab, 0xff, 0x10])), "00abff10");
}

#[test]
fn test_text_building_blocks() {
    assert_eq!(rendered(|out| push_str(out, "abc")), "abc");
    assert_eq!(rendered(|out| push_bytes(out, b"xyz")), "xyz");
    assert!(token_matches(b"HeLp", "help"));
    assert!(!token_matches(b"helper", "help"));
    assert!(!token_matches(b"hel", "help"));
}
