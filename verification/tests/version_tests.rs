//! Version parsing from introspection output.

use isoterm::version::{parse_glibc_version_output, parse_helix_version_tag};

#[test]
fn test_glibc_version_from_ldd_line() {
    let output = "ldd (Ubuntu GLIBC 2.35-0ubuntu3.8) 2.35\nCopyright (C) 2022";
    assert_eq!(parse_glibc_version_output(output), Some((2, 35)));
}

#[test]
fn test_glibc_version_takes_last_token_of_first_line() {
    let output = "ldd (GNU libc) 2.31\nsomething 9.99";
    assert_eq!(parse_glibc_version_output(output), Some((2, 31)));
}

#[test]
fn test_glibc_version_none_without_token() {
    assert_eq!(parse_glibc_version_output("no version here"), None);
    assert_eq!(parse_glibc_version_output(""), None);
    assert_eq!(parse_glibc_version_output("just 42 alone"), None);
}

#[test]
fn test_glibc_version_overflow_is_none() {
    let output = "ldd 99999999999999999999.1";
    assert_eq!(parse_glibc_version_output(output), None);
}

#[test]
fn test_glibc_version_crlf_line() {
    let output = "ldd (GNU libc) 2.28\r\nmore";
    assert_eq!(parse_glibc_version_output(output), Some((2, 28)));
}

#[test]
fn test_helix_tag_parsed() {
    let output = "helix 24.03 (8839eb1)";
    assert_eq!(parse_helix_version_tag(output), Some(String::from("24.03")));
}

#[test]
fn test_helix_tag_first_occurrence_with_version_wins() {
    let output = "helix editor\nhelix 25.1.2 (deadbee)";
    assert_eq!(parse_helix_version_tag(output), Some(String::from("25.1")));
}

#[test]
fn test_helix_tag_missing_is_none() {
    assert_eq!(parse_helix_version_tag("hx 24.03"), None);
    assert_eq!(parse_helix_version_tag("helix unknown"), None);
    assert_eq!(parse_helix_version_tag(""), None);
}
