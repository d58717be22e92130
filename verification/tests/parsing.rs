use jlink_config::jlink::nickname::{last_non_empty_line, write_failed, write_succeeded};
use jlink_config::jlink::runner::parse_version;

#[test]
fn parse_version_from_banner() {
    let out = "SEGGER J-Link Commander V7.94e (Compiled Dec 13 2023 17:08:55)\nDLL version V7.94e, compiled Dec 13 2023\n";
    assert_eq!(parse_version(out), Some("SEGGER J-Link Commander V7.94e".to_string()));
}

#[test]
fn parse_version_none_without_banner() {
    assert_eq!(parse_version("DLL version V7.94e\nConnecting to J-Link\n"), None);
    assert_eq!(parse_version(""), None);
}

#[test]
fn parse_version_needs_a_v() {
    assert_eq!(parse_version("SEGGER J-Link Commander 7.94e\n"), None);
}

#[test]
fn parse_version_skips_empty_token() {
    let out = "SEGGER J-Link Commander V   \nSEGGER J-Link Commander V8.10 (Compiled)\n";
    assert_eq!(parse_version(out), Some("SEGGER J-Link Commander V8.10".to_string()));
}

#[test]
fn parse_version_stops_at_next_v() {
    assert_eq!(
        parse_version("SEGGER J-Link Commander V7.94eV2 x"),
        Some("SEGGER J-Link Commander V7.94e".to_string())
    );
}

#[test]
fn parse_version_crlf_lines() {
    assert_eq!(
        parse_version("Hello\r\nSEGGER J-Link Commander V7.80\r\n"),
        Some("SEGGER J-Link Commander V7.80".to_string())
    );
}

#[test]
fn parse_version_banner_later_in_line() {
    assert_eq!(
        parse_version("  >> SEGGER J-Link Commander V6.12a"),
        Some("SEGGER J-Link Commander V6.12a".to_string())
    );
}

#[test]
fn write_succeeded_patterns() {
    assert!(write_succeeded("Probe nickname was set."));
    assert!(write_succeeded("nickname was unset"));
    assert!(write_succeeded("Probe configured successfully."));
    assert!(write_succeeded("Nickname set to x"));
    assert!(write_succeeded("Nickname unset"));
    assert!(!write_succeeded("Nickname: x"));
    assert!(!write_succeeded(""));
}

#[test]
fn write_failed_patterns() {
    assert!(write_failed("Unknown command. '?' for help."));
    assert!(write_failed("Syntax error"));
    assert!(write_failed("Command not supported by connected probe."));
    assert!(write_failed("No emulator connected"));
    assert!(write_failed("\"x\" is not a valid nickname"));
    assert!(!write_failed("Nickname was set"));
}

#[test]
fn last_non_empty_line_picks_last() {
    assert_eq!(last_non_empty_line("a\n  b  \n\n   \n"), "b");
    assert_eq!(last_non_empty_line("first\r\nsecond\r\n"), "second");
}

#[test]
fn last_non_empty_line_no_output() {
    assert_eq!(last_non_empty_line(""), "(no output)");
    assert_eq!(last_non_empty_line(" \n\t\n"), "(no output)");
}

#[test]
fn parse_version_result_reads_back_as_itself() {
    for out in [
        "SEGGER J-Link Commander V7.94e (Compiled Dec 13 2023 17:08:55)\n",
        "x\r\n  SEGGER J-Link Commander V8.10a\tmore",
    ] {
        let v = parse_version(out).unwrap();
        assert_eq!(parse_version(&v), Some(v.clone()));
        assert!(v.starts_with("SEGGER J-Link Commander V"));
        assert!(v.len() > "SEGGER J-Link Commander V".len());
    }
}
