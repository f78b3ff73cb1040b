use db_toolkit_shell::handshake::parse_handshake_line;
use db_toolkit_shell::handshake::scan_lines;
use db_toolkit_shell::handshake::HandshakeScanner;

#[test]
fn parses_plain_handshake() {
    assert_eq!(parse_handshake_line("BACKEND_PORT: 54231"), Some(54231));
}

#[test]
fn parses_handshake_without_space() {
    assert_eq!(parse_handshake_line("BACKEND_PORT:8080"), Some(8080));
}

#[test]
fn parses_handshake_with_extra_whitespace() {
    assert_eq!(parse_handshake_line("BACKEND_PORT: \t 123 \r"), Some(123));
}

#[test]
fn parses_leading_zeros() {
    assert_eq!(parse_handshake_line("BACKEND_PORT: 00080"), Some(80));
}

#[test]
fn parses_largest_port() {
    assert_eq!(parse_handshake_line("BACKEND_PORT: 65535"), Some(65535));
}

#[test]
fn rejects_port_out_of_range() {
    assert_eq!(parse_handshake_line("BACKEND_PORT: 65536"), None);
    assert_eq!(parse_handshake_line("BACKEND_PORT: 999999999999999999999"), None);
}

#[test]
fn rejects_malformed_number() {
    assert_eq!(parse_handshake_line("BACKEND_PORT: notanumber"), None);
    assert_eq!(parse_handshake_line("BACKEND_PORT: +123"), None);
    assert_eq!(parse_handshake_line("BACKEND_PORT: -1"), None);
    assert_eq!(parse_handshake_line("BACKEND_PORT: 12 34"), None);
    assert_eq!(parse_handshake_line("BACKEND_PORT: 80x"), None);
}

#[test]
fn rejects_empty_remainder() {
    assert_eq!(parse_handshake_line("BACKEND_PORT:"), None);
    assert_eq!(parse_handshake_line("BACKEND_PORT:   "), None);
}

#[test]
fn rejects_wrong_prefix() {
    assert_eq!(parse_handshake_line("starting up"), None);
    assert_eq!(parse_handshake_line(""), None);
    assert_eq!(parse_handshake_line("backend_port: 80"), None);
    assert_eq!(parse_handshake_line(" BACKEND_PORT: 80"), None);
    assert_eq!(parse_handshake_line("XBACKEND_PORT: 80"), None);
    assert_eq!(parse_handshake_line("BACKEND_PORT 80"), None);
}

#[test]
fn scan_finds_the_one_handshake_among_noise() {
    let lines: Vec<String> = vec![
        "starting up".to_string(),
        "loading config".to_string(),
        "BACKEND_PORT: 4100".to_string(),
        "serving requests".to_string(),
    ];
    assert_eq!(scan_lines(&lines), Some(4100));
}

#[test]
fn scan_takes_the_first_well_formed_line() {
    let lines: Vec<String> = vec![
        "BACKEND_PORT: notanumber".to_string(),
        "BACKEND_PORT: 4200".to_string(),
        "BACKEND_PORT: 4300".to_string(),
    ];
    assert_eq!(scan_lines(&lines), Some(4200));
}

#[test]
fn scan_of_transcript_without_handshake_is_empty() {
    let lines: Vec<String> = vec![
        "starting up".to_string(),
        "BACKEND_PORT: notanumber".to_string(),
        "shutting down".to_string(),
    ];
    assert_eq!(scan_lines(&lines), None);
    let no_lines: Vec<String> = Vec::new();
    assert_eq!(scan_lines(&no_lines), None);
}

#[test]
fn scanner_signals_once_and_only_once() {
    let mut scanner = HandshakeScanner::new();
    assert_eq!(scanner.offer_line("starting up"), None);
    assert_eq!(scanner.sent, None);
    assert_eq!(scanner.offer_line("BACKEND_PORT: notanumber"), None);
    assert_eq!(scanner.offer_line("BACKEND_PORT: 54231"), Some(54231));
    assert_eq!(scanner.sent, Some(54231));
    assert_eq!(scanner.offer_line("BACKEND_PORT: 999"), None);
    assert_eq!(scanner.sent, Some(54231));
    assert_eq!(scanner.offer_line("more logs"), None);
    assert_eq!(scanner.sent, Some(54231));
}
