//! Path transforms, text utilities and the command line's meaning.

use isoterm::cli::{default_dest_dir, log_filter};
use isoterm::errors::UserError;
use isoterm::paths::{base_name_of, parent_dir_of, strip_top_component, subtree_suffix_of};
use isoterm::text::{chars_to_string, contains_chars, ends_with_chars, lower_chars, str_to_chars};

fn transform(f: impl Fn(&Vec<char>) -> Vec<char>, s: &str) -> String {
    chars_to_string(&f(&str_to_chars(s)))
}

#[test]
fn test_strip_top_component() {
    assert_eq!(transform(|v| strip_top_component(v), "wrap/bin/tool"), "bin/tool");
    assert_eq!(transform(|v| strip_top_component(v), "plain"), "plain");
    assert_eq!(transform(|v| strip_top_component(v), "dir/"), "dir/");
    assert_eq!(transform(|v| strip_top_component(v), "a/b"), "b");
}

#[test]
fn test_base_name() {
    assert_eq!(transform(|v| base_name_of(v), "a/b/c"), "c");
    assert_eq!(transform(|v| base_name_of(v), "plain"), "plain");
    assert_eq!(transform(|v| base_name_of(v), "dir/"), "");
}

#[test]
fn test_parent_dir() {
    assert_eq!(transform(|v| parent_dir_of(v), "/env/bin/tool"), "/env/bin");
    assert_eq!(transform(|v| parent_dir_of(v), "tool"), "");
    assert_eq!(transform(|v| parent_dir_of(v), "/tool"), "/");
}

#[test]
fn test_subtree_suffix() {
    let path = str_to_chars("fish-3.7.1/share/completions/git.fish");
    let seg = str_to_chars("share");
    let suffix = subtree_suffix_of(&path, &seg).unwrap();
    assert_eq!(chars_to_string(&suffix), "completions/git.fish");

    let no_seg = str_to_chars("fish-3.7.1/bin/fish");
    assert!(subtree_suffix_of(&no_seg, &seg).is_none());

    // The segment must be delimited by slashes on both sides.
    let undelimited = str_to_chars("share/top.fish");
    assert!(subtree_suffix_of(&undelimited, &seg).is_none());
}

#[test]
fn test_lowercase_and_contains() {
    let lowered = lower_chars(&str_to_chars("RipGrep-14.1.0"));
    assert_eq!(chars_to_string(&lowered), "ripgrep-14.1.0");
    assert!(contains_chars(&lowered, &str_to_chars("ripgrep")));
    assert!(!contains_chars(&lowered, &str_to_chars("zoxide")));
    assert!(contains_chars(&lowered, &str_to_chars("")));
    assert!(ends_with_chars(&lowered, &str_to_chars("14.1.0")));
    assert!(!ends_with_chars(&lowered, &str_to_chars("14.1.1")));
}

#[test]
fn test_release_request_paths() {
    let latest = isoterm::release::release_request_path("BurntSushi/ripgrep", None);
    assert_eq!(latest, "/repos/BurntSushi/ripgrep/releases/latest");
    let tag = String::from("24.03");
    let by_tag = isoterm::release::release_request_path("helix-editor/helix", Some(&tag));
    assert_eq!(by_tag, "/repos/helix-editor/helix/releases/tags/24.03");
}

#[test]
fn test_source_tarball_selection() {
    let json = "{\"tag_name\": \"3.7.1\", \"tarball_url\": \"https://example.com/src\", \"assets\": []}";
    let (url, tag) = isoterm::release::select_source_tarball(json).unwrap();
    assert_eq!(url, "https://example.com/src");
    assert_eq!(tag, "3.7.1");

    let no_tag = "{\"tarball_url\": \"https://example.com/src\"}";
    let (_, tag) = isoterm::release::select_source_tarball(no_tag).unwrap();
    assert_eq!(tag, "source");

    let no_url = "{\"tag_name\": \"3.7.1\"}";
    assert!(isoterm::release::select_source_tarball(no_url).is_err());
}

#[test]
fn test_default_dest_dir() {
    assert_eq!(default_dest_dir(), "~/.isoterm");
}

#[test]
fn test_log_filter_levels() {
    assert_eq!(log_filter(0), None);
    assert_eq!(log_filter(1), Some("info"));
    assert_eq!(log_filter(2), Some("info,isoterm=debug"));
    assert_eq!(log_filter(3), Some("debug,isoterm=trace"));
    assert_eq!(log_filter(4), Some("trace"));
    assert_eq!(log_filter(255), Some("trace"));
}

#[test]
fn test_error_messages() {
    let e = UserError::AssetNotFound {
        name: String::from("ripgrep"),
        os: String::from("linux"),
        arch: String::from("x86_64"),
    };
    assert_eq!(
        e.message(),
        "Could not find a compatible release asset for 'ripgrep' on your platform (linux x86_64)."
    );
    let e = UserError::BinaryNotFoundInArchive { binary_name: String::from("rg") };
    assert_eq!(
        e.message(),
        "Could not find the binary 'rg' inside the downloaded archive."
    );
    let e = UserError::UnsupportedPlatform {
        name: String::from("fish"),
        os: String::from("plan9"),
    };
    assert_eq!(e.message(), "Your platform (plan9) is not supported for 'fish'.");
    assert_eq!(
        UserError::GitHubApiError.message(),
        "Failed to query the GitHub API. Please check your network connection."
    );
}
