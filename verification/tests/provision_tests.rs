//! The provisioner state machine: the three-tier policy, retry bounds,
//! per-tool hooks and the run-level transaction.

use std::io::Write;

use isoterm::provision::{
    provision_step, run_disposition, run_tool_machine, start_provision, ProvisionAction,
    ProvisionEvent, ProvisionOutcome, ProvisionState, RootDisposition,
};
use isoterm::errors::UserError;
use isoterm::tools::{declared_tools, Atuin, Fish, Helix, Ripgrep, Starship, Zoxide};

fn tar_gz(entries: &[(&str, &[u8])]) -> Vec<u8> {
    let mut builder = tar::Builder::new(Vec::new());
    for (path, data) in entries {
        let mut header = tar::Header::new_gnu();
        header.set_size(data.len() as u64);
        header.set_mode(0o644);
        header.set_cksum();
        builder.append_data(&mut header, path, *data).unwrap();
    }
    let tar_bytes = builder.into_inner().unwrap();
    let mut encoder = flate2::write::GzEncoder::new(Vec::new(), flate2::Compression::default());
    encoder.write_all(&tar_bytes).unwrap();
    encoder.finish().unwrap()
}

fn tar_xz(entries: &[(&str, &[u8])]) -> Vec<u8> {
    let mut builder = tar::Builder::new(Vec::new());
    for (path, data) in entries {
        let mut header = tar::Header::new_gnu();
        header.set_size(data.len() as u64);
        header.set_mode(0o644);
        header.set_cksum();
        builder.append_data(&mut header, path, *data).unwrap();
    }
    let tar_bytes = builder.into_inner().unwrap();
    let mut encoder = xz2::write::XzEncoder::new(Vec::new(), 6);
    encoder.write_all(&tar_bytes).unwrap();
    encoder.finish().unwrap()
}

fn is_network_action(action: &ProvisionAction) -> bool {
    matches!(
        action,
        ProvisionAction::FetchRelease { .. } | ProvisionAction::Download { .. }
    )
}

fn listing_for(tool_name: &str, arch_suffix: &str, url: &str) -> String {
    let mut s = String::from("{\"assets\": [{\"name\": \"");
    s.push_str(tool_name);
    s.push_str(arch_suffix);
    s.push_str("\", \"browser_download_url\": \"");
    s.push_str(url);
    s.push_str("\"}]}");
    s
}

#[test]
fn test_tool_names_and_repos() {
    assert_eq!(Fish.name(), "fish");
    assert_eq!(Fish.repo(), "fish-shell/fish-shell");
    assert_eq!(Fish.binary_name(), "fish");
    assert_eq!(Starship.repo(), "starship/starship");
    assert_eq!(Zoxide.repo(), "ajeetdsouza/zoxide");
    assert_eq!(Atuin.repo(), "atuinsh/atuin");
    assert_eq!(Ripgrep.binary_name(), "rg");
    assert_eq!(Helix.binary_name(), "hx");
    assert_eq!(Helix.path_in_archive(), Some("hx"));
    assert_eq!(declared_tools().len(), 6);
}

#[test]
fn test_preseeded_binaries_make_zero_network_calls() {
    // Every tool binary already stands under the environment's bin
    // directory: each machine reports it as already present without any
    // network action.
    for tool in declared_tools() {
        let (outcome, actions) = run_tool_machine(
            &tool,
            "linux",
            "x86_64",
            true,
            vec![ProvisionEvent::BinExists(true)],
        );
        assert!(matches!(outcome, Some(ProvisionOutcome::AlreadyPresent)));
        assert!(actions.iter().all(|a| !is_network_action(a)));
        let finishes = actions
            .iter()
            .filter(|a| matches!(a, ProvisionAction::Finish(_)))
            .count();
        assert_eq!(finishes, 1);
    }
}

#[test]
fn test_fresh_install_from_release_for_simple_tools() {
    // No tool is present locally or on the search path, and the release
    // listing offers one matching asset: every single-binary tool installs
    // from the release, and its planned binary is executable under bin.
    for tool in declared_tools() {
        if tool.path_in_archive.is_some() {
            continue;
        }
        let asset_name = format!(
            "{}-1.0.0-x86_64-unknown-linux-musl.tar.gz",
            tool.name
        );
        let json = listing_for(&tool.name, "-1.0.0-x86_64-unknown-linux-musl.tar.gz", "u://a");
        let wrapped = format!("{}-1.0.0/{}", tool.name, tool.binary_name);
        let archive = tar_gz(&[(wrapped.as_str(), b"binary".as_slice())]);
        let (outcome, actions) = run_tool_machine(
            &tool,
            "linux",
            "x86_64",
            false,
            vec![
                ProvisionEvent::BinExists(false),
                ProvisionEvent::SystemPath(None),
                ProvisionEvent::ReleaseJson(Some(json)),
                ProvisionEvent::Downloaded(Some(archive)),
                ProvisionEvent::StepOk(true),
            ],
        );
        assert!(
            matches!(outcome, Some(ProvisionOutcome::InstalledFromRelease)),
            "tool {} (asset {}) should install from the release",
            tool.name,
            asset_name
        );
        let write = actions
            .iter()
            .find_map(|a| match a {
                ProvisionAction::WriteEntries { dir, entries } => Some((dir.clone(), entries)),
                _ => None,
            })
            .expect("a write action is planned");
        assert_eq!(write.0, "bin");
        assert_eq!(write.1.len(), 1);
        assert_eq!(write.1[0].path, tool.binary_name);
        assert_eq!(write.1[0].mode, Some(0o755));
        assert_eq!(write.1[0].data, b"binary");
    }
}

#[test]
fn test_fresh_install_for_helix_full_archive() {
    let tool = Helix.tool_spec();
    let json = listing_for("helix", "-24.03-x86_64-linux.tar.xz", "u://h");
    let archive = tar_xz(&[
        ("helix-24.03/hx", b"editor".as_slice()),
        ("helix-24.03/runtime/themes/base.toml", b"theme".as_slice()),
    ]);
    let (outcome, actions) = run_tool_machine(
        &tool,
        "linux",
        "x86_64",
        true,
        vec![
            ProvisionEvent::BinExists(false),
            ProvisionEvent::SystemPath(None),
            ProvisionEvent::ReleaseJson(Some(json)),
            ProvisionEvent::Downloaded(Some(archive)),
            ProvisionEvent::StepOk(true),
            ProvisionEvent::StepOk(true),
        ],
    );
    assert!(matches!(outcome, Some(ProvisionOutcome::InstalledFromRelease)));
    let write = actions
        .iter()
        .find_map(|a| match a {
            ProvisionAction::WriteEntries { dir, entries } => Some((dir.clone(), entries)),
            _ => None,
        })
        .expect("a write action is planned");
    assert_eq!(write.0, "helix");
    assert_eq!(write.1[0].path, "hx");
    let link = actions
        .iter()
        .find_map(|a| match a {
            ProvisionAction::MakeSymlink { original, link } => {
                Some((original.clone(), link.clone()))
            },
            _ => None,
        })
        .expect("the installed binary is symlinked");
    assert_eq!(link.0, "helix/hx");
    assert_eq!(link.1, "bin/hx");
}

#[test]
fn test_fresh_install_for_fish_fetches_missing_share() {
    let tool = Fish.tool_spec();
    let json = listing_for("fish", "-3.7.1-linux-x86_64.tar.xz", "u://f");
    let archive = tar_xz(&[("fish-3.7.1/bin/fish", b"shell".as_slice())]);
    let source_json = String::from(
        "{\"tag_name\": \"3.7.1\", \"tarball_url\": \"u://src\", \"assets\": []}",
    );
    let source = tar_gz(&[(
        "fish-shell-fish-3.7.1/share/completions/git.fish",
        b"completions".as_slice(),
    )]);
    let (outcome, actions) = run_tool_machine(
        &tool,
        "linux",
        "x86_64",
        true,
        vec![
            ProvisionEvent::BinExists(false),
            ProvisionEvent::SystemPath(None),
            ProvisionEvent::ReleaseJson(Some(json)),
            ProvisionEvent::Downloaded(Some(archive)),
            ProvisionEvent::StepOk(true),
            ProvisionEvent::StepOk(true),
            ProvisionEvent::DirExists(false),
            ProvisionEvent::ReleaseJson(Some(source_json)),
            ProvisionEvent::Downloaded(Some(source)),
            ProvisionEvent::StepOk(true),
        ],
    );
    assert!(matches!(outcome, Some(ProvisionOutcome::InstalledFromRelease)));
    let share_write = actions
        .iter()
        .filter_map(|a| match a {
            ProvisionAction::WriteEntries { dir, entries } => Some((dir.clone(), entries)),
            _ => None,
        })
        .find(|(dir, _)| dir == "fish_runtime/share")
        .expect("the share sub-tree is written");
    assert_eq!(share_write.1.len(), 1);
    assert_eq!(share_write.1[0].path, "completions/git.fish");
    assert_eq!(share_write.1[0].data, b"completions");
}

#[test]
fn test_system_tool_is_symlinked() {
    let tool = Ripgrep.tool_spec();
    let (outcome, actions) = run_tool_machine(
        &tool,
        "linux",
        "x86_64",
        true,
        vec![
            ProvisionEvent::BinExists(false),
            ProvisionEvent::SystemPath(Some(String::from("/usr/bin/rg"))),
            ProvisionEvent::StepOk(true),
        ],
    );
    assert!(matches!(outcome, Some(ProvisionOutcome::SymlinkedFromSystem)));
    let link = actions
        .iter()
        .find_map(|a| match a {
            ProvisionAction::MakeSymlink { original, link } => {
                Some((original.clone(), link.clone()))
            },
            _ => None,
        })
        .unwrap();
    assert_eq!(link.0, "/usr/bin/rg");
    assert_eq!(link.1, "bin/rg");
    assert!(actions.iter().all(|a| !is_network_action(a)));
}

#[test]
fn test_failed_symlink_does_not_fall_through_to_download() {
    // Committing to a discovered system tool is authoritative: when its
    // symlink fails, the tool fails rather than installing from a release.
    let tool = Starship.tool_spec();
    let (outcome, actions) = run_tool_machine(
        &tool,
        "linux",
        "x86_64",
        true,
        vec![
            ProvisionEvent::BinExists(false),
            ProvisionEvent::SystemPath(Some(String::from("/usr/bin/starship"))),
            ProvisionEvent::StepOk(false),
        ],
    );
    assert!(matches!(
        outcome,
        Some(ProvisionOutcome::Failed(UserError::SymlinkFailed))
    ));
    assert!(actions.iter().all(|a| !is_network_action(a)));
}

#[test]
fn test_helix_hook_provisions_version_locked_runtime() {
    let tool = Helix.tool_spec();
    let json = listing_for("helix", "-24.03-x86_64-linux.tar.xz", "u://h");
    let runtime = tar_xz(&[(
        "helix-24.03/runtime/themes/base.toml",
        b"theme".as_slice(),
    )]);
    let (outcome, actions) = run_tool_machine(
        &tool,
        "linux",
        "x86_64",
        true,
        vec![
            ProvisionEvent::BinExists(false),
            ProvisionEvent::SystemPath(Some(String::from("/usr/bin/hx"))),
            ProvisionEvent::StepOk(true),
            ProvisionEvent::DirExists(false),
            ProvisionEvent::ProbeOutput(Some(String::from("helix 24.03 (8839eb1)"))),
            ProvisionEvent::ReleaseJson(Some(json)),
            ProvisionEvent::Downloaded(Some(runtime)),
            ProvisionEvent::StepOk(true),
        ],
    );
    assert!(matches!(outcome, Some(ProvisionOutcome::SymlinkedFromSystem)));
    let fetch_tag = actions
        .iter()
        .find_map(|a| match a {
            ProvisionAction::FetchRelease { specifier, .. } => match specifier {
                isoterm::provision::ReleaseSpecifier::Tag(t) => Some(t.clone()),
                _ => None,
            },
            _ => None,
        })
        .expect("the release is fetched by the probed tag");
    assert_eq!(fetch_tag, "24.03");
    let write = actions
        .iter()
        .find_map(|a| match a {
            ProvisionAction::WriteEntries { dir, entries } => Some((dir.clone(), entries)),
            _ => None,
        })
        .unwrap();
    assert_eq!(write.0, "helix/runtime");
    assert_eq!(write.1[0].path, "themes/base.toml");
}

#[test]
fn test_helix_hook_skipped_when_user_runtime_exists() {
    let tool = Helix.tool_spec();
    let (outcome, actions) = run_tool_machine(
        &tool,
        "linux",
        "x86_64",
        true,
        vec![
            ProvisionEvent::BinExists(false),
            ProvisionEvent::SystemPath(Some(String::from("/usr/bin/hx"))),
            ProvisionEvent::StepOk(true),
            ProvisionEvent::DirExists(true),
        ],
    );
    assert!(matches!(outcome, Some(ProvisionOutcome::SymlinkedFromSystem)));
    assert!(actions.iter().all(|a| !is_network_action(a)));
}

#[test]
fn test_download_retries_are_bounded() {
    let tool = Zoxide.tool_spec();
    let json = listing_for("zoxide", "-1.0-x86_64-unknown-linux-musl.tar.gz", "u://z");
    let (outcome, actions) = run_tool_machine(
        &tool,
        "linux",
        "x86_64",
        false,
        vec![
            ProvisionEvent::BinExists(false),
            ProvisionEvent::SystemPath(None),
            ProvisionEvent::ReleaseJson(Some(json)),
            ProvisionEvent::Downloaded(None),
            ProvisionEvent::Downloaded(None),
            ProvisionEvent::Downloaded(None),
            ProvisionEvent::Downloaded(None),
        ],
    );
    assert!(matches!(
        outcome,
        Some(ProvisionOutcome::Failed(UserError::DownloadFailed { .. }))
    ));
    let downloads = actions
        .iter()
        .filter(|a| matches!(a, ProvisionAction::Download { .. }))
        .count();
    assert_eq!(downloads, 4);
}

#[test]
fn test_match_failure_on_fetched_listing_is_not_retried() {
    // The listing parsed but nothing matches the platform: the failure is
    // deterministic, so the machine fails at once instead of fetching
    // again.
    let tool = Atuin.tool_spec();
    let json = listing_for("atuin", "-1.0-aarch64-apple-darwin.tar.gz", "u://a");
    let (outcome, actions) = run_tool_machine(
        &tool,
        "linux",
        "x86_64",
        false,
        vec![
            ProvisionEvent::BinExists(false),
            ProvisionEvent::SystemPath(None),
            ProvisionEvent::ReleaseJson(Some(json)),
        ],
    );
    assert!(matches!(
        outcome,
        Some(ProvisionOutcome::Failed(UserError::AssetNotFound { .. }))
    ));
    let fetches = actions
        .iter()
        .filter(|a| matches!(a, ProvisionAction::FetchRelease { .. }))
        .count();
    assert_eq!(fetches, 1);
}

#[test]
fn test_failed_version_probe_fails_the_tool() {
    let tool = Helix.tool_spec();
    let (outcome, _) = run_tool_machine(
        &tool,
        "linux",
        "x86_64",
        true,
        vec![
            ProvisionEvent::BinExists(false),
            ProvisionEvent::SystemPath(Some(String::from("/usr/bin/hx"))),
            ProvisionEvent::StepOk(true),
            ProvisionEvent::DirExists(false),
            ProvisionEvent::ProbeOutput(None),
        ],
    );
    assert!(matches!(
        outcome,
        Some(ProvisionOutcome::Failed(UserError::CommandFailed { .. }))
    ));
}

#[test]
fn test_unsupported_archive_extension_fails_the_tool() {
    // The asset name carries the expected fragments but ends in an
    // extension the codec does not take.
    let tool = Ripgrep.tool_spec();
    let json = listing_for(
        "ripgrep",
        "-14.1.0-x86_64-unknown-linux-musl.tar.gz.sig",
        "u://sig",
    );
    let (outcome, _) = run_tool_machine(
        &tool,
        "linux",
        "x86_64",
        false,
        vec![
            ProvisionEvent::BinExists(false),
            ProvisionEvent::SystemPath(None),
            ProvisionEvent::ReleaseJson(Some(json)),
            ProvisionEvent::Downloaded(Some(vec![0u8])),
        ],
    );
    assert!(matches!(
        outcome,
        Some(ProvisionOutcome::Failed(UserError::UnsupportedArchiveFormat { .. }))
    ));
}

#[test]
fn test_fetch_retries_are_bounded() {
    let tool = Starship.tool_spec();
    let (outcome, actions) = run_tool_machine(
        &tool,
        "linux",
        "x86_64",
        true,
        vec![
            ProvisionEvent::BinExists(false),
            ProvisionEvent::SystemPath(None),
            ProvisionEvent::ReleaseJson(None),
            ProvisionEvent::ReleaseJson(None),
            ProvisionEvent::ReleaseJson(None),
            ProvisionEvent::ReleaseJson(None),
        ],
    );
    assert!(matches!(
        outcome,
        Some(ProvisionOutcome::Failed(UserError::GitHubApiError))
    ));
    let fetches = actions
        .iter()
        .filter(|a| matches!(a, ProvisionAction::FetchRelease { .. }))
        .count();
    assert_eq!(fetches, 4);
}

#[test]
fn test_start_provision_checks_bin_first() {
    let tool = Ripgrep.tool_spec();
    let (state, action) = start_provision(&tool);
    assert!(matches!(state, ProvisionState::CheckingBin));
    match action {
        ProvisionAction::CheckBinExists { link } => assert_eq!(link, "bin/rg"),
        other => panic!("unexpected first action: {:?}", other),
    }
}

#[test]
fn test_step_is_absorbing_once_done() {
    let tool = Ripgrep.tool_spec();
    let (next, action) = provision_step(
        &tool,
        "linux",
        "x86_64",
        true,
        ProvisionState::Done(ProvisionOutcome::AlreadyPresent),
        ProvisionEvent::BinExists(false),
    );
    assert!(matches!(
        next,
        ProvisionState::Done(ProvisionOutcome::AlreadyPresent)
    ));
    assert!(matches!(
        action,
        ProvisionAction::Finish(ProvisionOutcome::AlreadyPresent)
    ));
}

#[test]
fn test_disposition_keeps_root_only_without_failures() {
    let all_ok = vec![
        ProvisionOutcome::AlreadyPresent,
        ProvisionOutcome::SymlinkedFromSystem,
        ProvisionOutcome::InstalledFromRelease,
    ];
    assert_eq!(run_disposition(&all_ok), RootDisposition::Keep);

    let with_failure = vec![
        ProvisionOutcome::AlreadyPresent,
        ProvisionOutcome::Failed(UserError::GitHubApiError),
        ProvisionOutcome::InstalledFromRelease,
    ];
    assert_eq!(run_disposition(&with_failure), RootDisposition::Remove);

    let none: Vec<ProvisionOutcome> = Vec::new();
    assert_eq!(run_disposition(&none), RootDisposition::Keep);
}

#[test]
fn test_mismatched_event_yields_no_outcome() {
    // An event that does not answer the machine's question stops the run
    // without an outcome.
    let tool = Ripgrep.tool_spec();
    let (outcome, actions) = run_tool_machine(
        &tool,
        "linux",
        "x86_64",
        true,
        vec![ProvisionEvent::StepOk(true)],
    );
    assert!(outcome.is_none());
    assert!(actions
        .iter()
        .all(|a| !matches!(a, ProvisionAction::Finish(_))));
}

#[test]
fn test_retry_backoff_schedule() {
    // Exponential from a 500ms base: the three retries back off by
    // 500^1, 500^2 and 500^3 milliseconds before jitter.
    assert_eq!(isoterm::provision::retry_delay_ms(1), 500);
    assert_eq!(isoterm::provision::retry_delay_ms(2), 250_000);
    assert_eq!(isoterm::provision::retry_delay_ms(3), 125_000_000);
    assert_eq!(isoterm::provision::RETRY_BASE_MS, 500);
    assert_eq!(isoterm::provision::FETCH_ATTEMPTS, 4);
}
