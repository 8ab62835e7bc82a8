//! Asset selection against release listings.

use isoterm::release::select_release_asset;
use isoterm::resolver::{find_best_asset_match, prefer_gnu, ReleaseAsset};
use isoterm::errors::UserError;

fn ripgrep_listing() -> String {
    String::from(
        "{\"assets\": [\
         {\"name\": \"decoy-asset-14.1.0-x86_64-unknown-linux-musl.tar.gz\",\
          \"browser_download_url\": \"https://example.com/decoy.tar.gz\"},\
         {\"name\": \"ripgrep-14.1.0-x86_64-unknown-linux-musl.tar.gz\",\
          \"browser_download_url\": \"https://example.com/ripgrep.tar.gz\"}\
         ]}",
    )
}

#[test]
fn test_find_github_release_asset_url_ripgrep_logic() {
    let json = ripgrep_listing();
    let asset = select_release_asset("ripgrep", &json, "linux", "x86_64", false)
        .expect("an asset should be selected");
    assert_eq!(
        asset.name, "ripgrep-14.1.0-x86_64-unknown-linux-musl.tar.gz",
        "The correct asset should be selected"
    );
    assert_eq!(
        asset.url, "https://example.com/ripgrep.tar.gz",
        "The correct asset URL should be selected"
    );
}

#[test]
fn test_decoy_never_selected_with_either_libc_preference() {
    let json = ripgrep_listing();
    for gnu_preferred in [false, true] {
        let asset = select_release_asset("ripgrep", &json, "linux", "x86_64", gnu_preferred)
            .expect("an asset should be selected");
        assert_eq!(asset.name, "ripgrep-14.1.0-x86_64-unknown-linux-musl.tar.gz");
    }
}

#[test]
fn test_asset_matching_is_deterministic() {
    let assets = vec![
        ReleaseAsset {
            name: String::from("tool-1.0-x86_64-unknown-linux-gnu.tar.gz"),
            url: String::from("https://example.com/gnu.tar.gz"),
        },
        ReleaseAsset {
            name: String::from("tool-1.0-x86_64-unknown-linux-musl.tar.gz"),
            url: String::from("https://example.com/musl.tar.gz"),
        },
    ];
    let first = find_best_asset_match("tool", &assets, "linux", "x86_64", true).unwrap();
    let second = find_best_asset_match("tool", &assets, "linux", "x86_64", true).unwrap();
    assert_eq!(first.name, second.name);
    assert_eq!(first.url, second.url);
    assert_eq!(first.name, "tool-1.0-x86_64-unknown-linux-gnu.tar.gz");
}

#[test]
fn test_libc_preference_orders_targets() {
    let assets = vec![
        ReleaseAsset {
            name: String::from("tool-1.0-x86_64-unknown-linux-gnu.tar.gz"),
            url: String::from("https://example.com/gnu.tar.gz"),
        },
        ReleaseAsset {
            name: String::from("tool-1.0-x86_64-unknown-linux-musl.tar.gz"),
            url: String::from("https://example.com/musl.tar.gz"),
        },
    ];
    let gnu = find_best_asset_match("tool", &assets, "linux", "x86_64", true).unwrap();
    assert_eq!(gnu.name, "tool-1.0-x86_64-unknown-linux-gnu.tar.gz");
    let musl = find_best_asset_match("tool", &assets, "linux", "x86_64", false).unwrap();
    assert_eq!(musl.name, "tool-1.0-x86_64-unknown-linux-musl.tar.gz");
}

#[test]
fn test_fish_and_helix_use_generic_linux_token() {
    let assets = vec![ReleaseAsset {
        name: String::from("fish-3.7.1-linux-x86_64.tar.xz"),
        url: String::from("https://example.com/fish.tar.xz"),
    }];
    let asset = find_best_asset_match("fish", &assets, "linux", "x86_64", true).unwrap();
    assert_eq!(asset.name, "fish-3.7.1-linux-x86_64.tar.xz");
}

#[test]
fn test_repo_name_matches_by_base_segment() {
    // Only the repo's base segment has to occur in the asset name; the
    // part before the slash never does.
    let assets = vec![ReleaseAsset {
        name: String::from("sometool-24.03-x86_64-unknown-linux-gnu.tar.gz"),
        url: String::from("https://example.com/sometool.tar.gz"),
    }];
    let asset =
        find_best_asset_match("acme/sometool", &assets, "linux", "x86_64", true).unwrap();
    assert_eq!(asset.name, "sometool-24.03-x86_64-unknown-linux-gnu.tar.gz");
}

#[test]
fn test_matching_is_case_insensitive() {
    let assets = vec![ReleaseAsset {
        name: String::from("Tool-1.0-X86_64-UNKNOWN-LINUX-GNU.tar.gz"),
        url: String::from("https://example.com/t.tar.gz"),
    }];
    let asset = find_best_asset_match("Tool", &assets, "linux", "x86_64", true).unwrap();
    assert_eq!(asset.url, "https://example.com/t.tar.gz");
}

#[test]
fn test_asset_without_url_is_never_selected() {
    let assets = vec![
        ReleaseAsset {
            name: String::from("tool-1.0-x86_64-unknown-linux-gnu.tar.gz"),
            url: String::new(),
        },
        ReleaseAsset {
            name: String::from("tool-1.1-x86_64-unknown-linux-gnu.tar.gz"),
            url: String::from("https://example.com/ok.tar.gz"),
        },
    ];
    let asset = find_best_asset_match("tool", &assets, "linux", "x86_64", true).unwrap();
    assert_eq!(asset.url, "https://example.com/ok.tar.gz");
}

#[test]
fn test_unsupported_os_is_reported() {
    let assets: Vec<ReleaseAsset> = Vec::new();
    let err = find_best_asset_match("tool", &assets, "plan9", "x86_64", true).unwrap_err();
    assert!(matches!(err, UserError::UnsupportedPlatform { .. }));
}

#[test]
fn test_no_matching_asset_is_reported() {
    let assets = vec![ReleaseAsset {
        name: String::from("tool-1.0-aarch64-apple-darwin.tar.gz"),
        url: String::from("https://example.com/t.tar.gz"),
    }];
    let err = find_best_asset_match("tool", &assets, "linux", "x86_64", true).unwrap_err();
    assert!(matches!(err, UserError::AssetNotFound { .. }));
}

#[test]
fn test_listing_without_assets_is_an_api_error() {
    let err =
        select_release_asset("tool", "{\"tag_name\": \"v1\"}", "linux", "x86_64", true)
            .unwrap_err();
    assert!(matches!(err, UserError::GitHubApiError));
    let err = select_release_asset("tool", "not json", "linux", "x86_64", true).unwrap_err();
    assert!(matches!(err, UserError::GitHubApiError));
}

#[test]
fn test_macos_and_windows_tokens() {
    let assets = vec![
        ReleaseAsset {
            name: String::from("tool-1.0-x86_64-apple-darwin.tar.gz"),
            url: String::from("https://example.com/mac.tar.gz"),
        },
        ReleaseAsset {
            name: String::from("tool-1.0-x86_64-pc-windows-msvc.zip"),
            url: String::from("https://example.com/win.zip"),
        },
    ];
    let mac = find_best_asset_match("tool", &assets, "macos", "x86_64", true).unwrap();
    assert_eq!(mac.url, "https://example.com/mac.tar.gz");
    let win = find_best_asset_match("tool", &assets, "windows", "x86_64", true).unwrap();
    assert_eq!(win.url, "https://example.com/win.zip");
}

#[test]
fn test_helix_expects_zip_on_macos() {
    let assets = vec![
        ReleaseAsset {
            name: String::from("helix-24.03-x86_64-apple-darwin.tar.gz"),
            url: String::from("https://example.com/wrong.tar.gz"),
        },
        ReleaseAsset {
            name: String::from("helix-24.03-x86_64-apple-darwin.zip"),
            url: String::from("https://example.com/right.zip"),
        },
    ];
    let asset = find_best_asset_match("helix", &assets, "macos", "x86_64", true).unwrap();
    assert_eq!(asset.url, "https://example.com/right.zip");
}

#[test]
fn test_prefer_gnu_thresholds() {
    assert!(prefer_gnu(Some((2, 35))));
    assert!(prefer_gnu(Some((2, 36))));
    assert!(prefer_gnu(Some((3, 0))));
    assert!(!prefer_gnu(Some((2, 34))));
    assert!(!prefer_gnu(Some((1, 99))));
    assert!(!prefer_gnu(None));
}
