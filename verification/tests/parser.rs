use kalesp::msg::{parse_u8, tokenize, trim, Command, HashAlgorithm};

fn parse(line: &str) -> Command {
    Command::from_str(line.as_bytes())
}

fn unrecognized(text: &str) -> Command {
    Command::Unrecognized(text.as_bytes().to_vec())
}

#[test]
fn test_parse_zeros_round_trip() {
    assert_eq!(parse("zeros 8"), Command::SetZeros(8));
    assert_eq!(parse("zeros"), unrecognized("zeros"));
    assert_eq!(parse("zeros abc"), unrecognized("zeros abc"));
}

#[test]
fn test_parse_hash_round_trip() {
    assert_eq!(parse("hash sha256"), Command::SetHashAlgorithm(HashAlgorithm::Sha256));
    assert_eq!(parse("hash"), Command::QueryHashAlgorithm);
    assert_eq!(parse("hash keccak"), Command::SetHashAlgorithm(HashAlgorithm::Keccak256));
    assert_eq!(parse("hash keccak256"), Command::SetHashAlgorithm(HashAlgorithm::Keccak256));
    assert_eq!(parse("hash md5"), unrecognized("hash md5"));
}

#[test]
fn test_parse_is_case_insensitive() {
    assert_eq!(parse("MINE"), Command::Mine);
    assert_eq!(parse("Help"), Command::Help);
    assert_eq!(parse("INFO"), Command::Info);
    assert_eq!(parse("ReSeT"), Command::Reset);
    assert_eq!(parse("HASH SHA256"), Command::SetHashAlgorithm(HashAlgorithm::Sha256));
    assert_eq!(parse("ZEROS 3"), Command::SetZeros(3));
}

#[test]
fn test_parse_keyword_commands() {
    assert_eq!(parse("help"), Command::Help);
    assert_eq!(parse("info"), Command::Info);
    assert_eq!(parse("reset"), Command::Reset);
    assert_eq!(parse("mine"), Command::Mine);
    assert_eq!(parse("entropy 5"), Command::SetEntropy(5));
    assert_eq!(parse("entropy 0"), Command::SetEntropy(0));
    assert_eq!(parse("entropy"), unrecognized("entropy"));
    assert_eq!(parse("entropy -1"), unrecognized("entropy -1"));
}

#[test]
fn test_parse_trims_and_splits_whitespace() {
    assert_eq!(parse("   mine   "), Command::Mine);
    assert_eq!(parse("zeros   8"), Command::SetZeros(8));
    // Extra tokens beyond the two consulted are ignored.
    assert_eq!(parse("zeros 8 extra"), Command::SetZeros(8));
    assert_eq!(parse("help me now"), Command::Help);
    // The echoed text is the trimmed line.
    assert_eq!(parse("  what  "), unrecognized("what"));
}

#[test]
fn test_parse_empty_and_garbage() {
    assert_eq!(parse(""), unrecognized(""));
    assert_eq!(parse("   "), unrecognized(""));
    assert_eq!(parse("frobnicate"), unrecognized("frobnicate"));
}

#[test]
fn test_parse_numeric_bounds() {
    assert_eq!(parse("zeros 0"), Command::SetZeros(0));
    assert_eq!(parse("zeros 255"), Command::SetZeros(255));
    assert_eq!(parse("zeros 256"), unrecognized("zeros 256"));
    assert_eq!(parse("zeros +8"), Command::SetZeros(8));
    assert_eq!(parse("zeros 007"), Command::SetZeros(7));
    assert_eq!(parse("zeros +"), unrecognized("zeros +"));
    assert_eq!(parse("zeros 99999999999999999999"), unrecognized("zeros 99999999999999999999"));
}

#[test]
fn test_unrecognized_text_truncates_to_64_bytes() {
    let long: String = "x".repeat(80);
    let expected: String = "x".repeat(64);
    assert_eq!(parse(&long), unrecognized(&expected));
    let exact: String = "y".repeat(64);
    assert_eq!(parse(&exact), unrecognized(&exact));
}

#[test]
fn test_parse_u8_token() {
    assert_eq!(parse_u8(b"0"), Some(0));
    assert_eq!(parse_u8(b"255"), Some(255));
    assert_eq!(parse_u8(b"256"), None);
    assert_eq!(parse_u8(b"+17"), Some(17));
    assert_eq!(parse_u8(b""), None);
    assert_eq!(parse_u8(b"+"), None);
    assert_eq!(parse_u8(b"1 2"), None);
    assert_eq!(parse_u8(b"-1"), None);
    assert_eq!(parse_u8(b"12a"), None);
}

#[test]
fn test_trim_and_tokenize() {
    assert_eq!(trim(b"  a b  "), b"a b");
    assert_eq!(trim(b"\t x \t"), b"x");
    assert_eq!(trim(b"    "), b"");
    let toks = tokenize(b" one  two three ");
    assert_eq!(toks, vec![b"one".to_vec(), b"two".to_vec(), b"three".to_vec()]);
    assert_eq!(tokenize(b""), Vec::<Vec<u8>>::new());
}

#[test]
fn test_algorithm_names_round_trip() {
    for (name, algo) in [
        ("sha256", HashAlgorithm::Sha256),
        ("SHA256", HashAlgorithm::Sha256),
        ("Sha256", HashAlgorithm::Sha256),
        ("keccak256", HashAlgorithm::Keccak256),
        ("KECCAK256", HashAlgorithm::Keccak256),
        ("keccak", HashAlgorithm::Keccak256),
        ("Keccak", HashAlgorithm::Keccak256),
    ] {
        assert_eq!(HashAlgorithm::from_str(name.as_bytes()), Some(algo));
    }
    for bad in ["", "sha", "sha-256", "keccak-256", "sha2566", "md5"] {
        assert_eq!(HashAlgorithm::from_str(bad.as_bytes()), None);
    }
    assert_eq!(HashAlgorithm::Sha256.as_str(), "SHA256");
    assert_eq!(HashAlgorithm::Keccak256.as_str(), "Keccak-256");
}
