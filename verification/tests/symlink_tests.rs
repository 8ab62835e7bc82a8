//! Relative symlink planning.

use isoterm::symlink::plan_symlink;
use isoterm::errors::UserError;

#[test]
fn test_symlink_target_is_relative() {
    // The link at bin/my_binary_link points at my_tool/my_binary through a
    // relative path, so the tree survives relocation.
    let plan = plan_symlink("/env/my_tool/my_binary", "/env/bin/my_binary_link").unwrap();
    assert_eq!(plan.link, "/env/bin/my_binary_link");
    assert_eq!(plan.target, "../my_tool/my_binary");
}

#[test]
fn test_symlink_within_one_directory() {
    let plan = plan_symlink("/env/bin/fish", "/env/bin/shell").unwrap();
    assert_eq!(plan.target, "fish");
}

#[test]
fn test_symlink_impossible_without_common_form() {
    // A relative base against an absolute original has no relative path.
    let err = plan_symlink("relative/original", "/env/bin/link").unwrap_err();
    assert!(matches!(err, UserError::SymlinkFailed));
}
