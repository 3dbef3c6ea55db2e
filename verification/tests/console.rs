use kalesp::console::Console;
use kalesp::mining::ActivityIndicator;
use kalesp::msg::HashAlgorithm;
use sha2::Digest;

struct CountingLed(u32);

impl ActivityIndicator for CountingLed {
    fn toggle(&mut self) {
        self.0 += 1;
    }
}

/// Feed a whole string of transport bytes and collect the responses.
fn drive(console: &mut Console, input: &str, uart: &mut Vec<u8>) {
    let mut led = CountingLed(0);
    console.process_bytes(input.as_bytes(), uart, &mut led);
}

fn responses(console: &mut Console, input: &str) -> String {
    let mut uart: Vec<u8> = Vec::new();
    drive(console, input, &mut uart);
    String::from_utf8(uart).unwrap()
}

#[test]
fn test_hash_selection_then_query_reports_canonical_name() {
    let mut console = Console::new();
    let out = responses(&mut console, "hash keccak\rhash\r");
    assert!(out.contains("[HASH] Algorithm changed to: Keccak-256\r\n"));
    assert!(out.contains("[HASH_INFO] Current algorithm: Keccak-256\r\n"));
    assert_eq!(console.state.get_hash_algorithm(), HashAlgorithm::Keccak256);
}

#[test]
fn test_overlong_line_is_silently_dropped() {
    let mut console = Console::new();
    let long_line: String = "a".repeat(129);
    let out = responses(&mut console, &long_line);
    assert_eq!(console.buffer.len(), 0);
    assert_eq!(out, "");
}

#[test]
fn test_line_of_exactly_capacity_still_parses() {
    let mut console = Console::new();
    let line: String = "b".repeat(128);
    let out = responses(&mut console, &format!("{}\r", line));
    // The echoed text of an unrecognized command is truncated to 64 bytes.
    let expected_echo = format!("Command received: '{}'", "b".repeat(64));
    assert!(out.contains(&expected_echo));
    assert_eq!(console.buffer.len(), 0);
}

#[test]
fn test_mine_on_default_state_reports_error_and_keeps_last_nonce() {
    let mut console = Console::new();
    let out = responses(&mut console, "mine\r");
    assert!(out.contains("MINE_ERROR: configure zeros and entropy first\r\n"));
    assert!(!out.contains("MINE_START"));
    assert_eq!(console.state.last_nonce, None);
}

#[test]
fn test_terminator_on_empty_buffer_is_a_no_op() {
    let mut console = Console::new();
    let out = responses(&mut console, "\r\n\r\n");
    assert_eq!(out, "");
    assert_eq!(console.buffer.len(), 0);
}

#[test]
fn test_non_printable_bytes_are_ignored() {
    let mut console = Console::new();
    let mut uart: Vec<u8> = Vec::new();
    let mut led = CountingLed(0);
    console.process_bytes(&[7u8, 1, 200, 31, 127], &mut uart, &mut led);
    assert_eq!(console.buffer.len(), 0);
    assert!(uart.is_empty());
    // Printable bytes do accumulate.
    console.process_bytes(&[104, 105], &mut uart, &mut led);
    assert_eq!(console.buffer, b"hi".to_vec());
}

#[test]
fn test_full_mining_session_over_the_console() {
    let entropy = 7u8;
    let expected = {
        let mut nonce = 0u32;
        loop {
            let mut msg = vec![entropy];
            msg.extend_from_slice(&nonce.to_le_bytes());
            let digest: [u8; 32] = sha2::Sha256::digest(&msg).into();
            if digest[0] == 0 {
                break nonce;
            }
            nonce += 1;
        }
    };

    let mut console = Console::new();
    let out = responses(&mut console, "zeros 1\rentropy 7\rhash sha256\rmine\r");
    assert!(out.contains("ZEROS: 1 zeros configured for mining\r\n"));
    assert!(out.contains("ENTROPY: 7 configured for mining\r\n"));
    assert!(out.contains("[HASH] Algorithm changed to: SHA256\r\n"));
    assert!(out.contains("MINE_START: mining with 1 zeros and entropy 7\r\n"));
    assert!(out.contains(&format!("FOUND: nonce={}", expected)));
    assert!(out.contains(&format!("MINE_RESULT: nonce found: {}\r\n", expected)));
    assert_eq!(console.state.last_nonce, Some(expected));

    // The info block reflects the finished search.
    let info = responses(&mut console, "info\r");
    assert!(info.contains("Algorithm: SHA256"));
    assert!(info.contains("Zeros: 1"));
    assert!(info.contains("Entropy: 7"));
    assert!(info.contains(&format!("Last nonce: {}", expected)));
}

#[test]
fn test_reset_returns_state_and_algorithm_to_defaults() {
    let mut console = Console::new();
    let out = responses(&mut console, "zeros 2\rentropy 9\rhash sha256\rreset\rhash\r");
    assert!(out.contains("Reset completed!"));
    assert!(!console.state.is_ready_to_mine());
    assert_eq!(console.state.zeros, 0);
    assert_eq!(console.state.entropy, 0);
    assert_eq!(console.state.last_nonce, None);
    // The algorithm query after the reset names the default family again.
    assert!(out.contains("[HASH_INFO] Current algorithm: Keccak-256\r\n"));
}

#[test]
fn test_unknown_command_is_echoed_with_help_pointer() {
    let mut console = Console::new();
    let out = responses(&mut console, "frobnicate now\r");
    assert!(out.contains("Command received: 'frobnicate now'\r\n"));
    assert!(out.contains("Type 'help' to see available commands\r\n"));

    let help = responses(&mut console, "help\r");
    assert!(help.contains("=== Available Commands ==="));
    assert!(help.contains("mine     - Start mining"));
}
