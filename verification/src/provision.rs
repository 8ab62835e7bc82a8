//! Tool provisioner: the three-tier acquisition policy for one tool, as an
//! explicit state machine.
//!
//! The machine decides; the surrounding process acts. Every step takes the
//! current state and the result of the last action (the event) and returns
//! the next state with the next action: check the environment, look up the
//! search path, make a symlink, fetch a release listing, download, write
//! planned files, or finish with the tool's one outcome. Network fetches
//! and downloads are retried a bounded number of times; a match failure on
//! data already fetched is deterministic and never retried. Committing to
//! a discovered system tool is authoritative: a failed symlink or hook
//! fails the tool rather than falling through to a download.

use vstd::prelude::*;

use crate::codec::{
    archive_type_of, decode_archive, decoded_entries, no_single_match, plan_full_tree,
    plan_sub_tree, single_plan_ok, spec_plan_full, spec_plan_sub, lemma_full_plan_is_map,
    planned_models, ArchiveType, PlannedEntry,
};
use crate::errors::{ErrorModel, UserError};
use crate::release::{
    select_release_asset, select_source_tarball, spec_release_selection, spec_tarball_selection,
    SelectionModel, TarballModel,
};
use crate::text::{chars_to_string, concat_chars, str_to_chars};
use crate::version::helix_tag_from;
use crate::codec::clone_string;

verus! {

/// How many times one network fetch or download is attempted in all: one
/// initial try and three retries.
pub const FETCH_ATTEMPTS: u32 = 4;

/// The base of the exponential backoff between network attempts, in
/// milliseconds.
pub const RETRY_BASE_MS: u64 = 500;

/// The full backoff after `attempt` failed tries: the base raised to that
/// power, in milliseconds — 500, 250000, 125000000 for the three retries.
/// The caller multiplies it by a random fraction (jitter) before sleeping.
pub open spec fn spec_retry_delay_ms(attempt: u32) -> nat
    decreases attempt,
{
    if attempt == 0 {
        1
    } else {
        RETRY_BASE_MS as nat * spec_retry_delay_ms((attempt - 1) as u32)
    }
}

/// The capped exponential backoff, in milliseconds, before the retry that
/// follows `attempt` failed tries. The attempt count itself is bounded by
/// `FETCH_ATTEMPTS`, so the schedule has exactly three delays.
pub fn retry_delay_ms(attempt: u32) -> (r: u64)
    requires
        1 <= attempt < FETCH_ATTEMPTS,
    ensures
        r as nat == spec_retry_delay_ms(attempt),
{
    proof {
        assert(spec_retry_delay_ms(0) == 1);
        assert(spec_retry_delay_ms(1) == 500);
        assert(spec_retry_delay_ms(2) == 250000);
        assert(spec_retry_delay_ms(3) == 125000000);
    }
    if attempt == 1 {
        500
    } else if attempt == 2 {
        250_000
    } else {
        125_000_000
    }
}

/// The tool-specific behavior variants.
#[derive(Debug, Clone, Copy, PartialEq, Eq, Structural)]
pub enum ToolVariant {
    /// Nothing beyond the three-tier policy.
    Simple,
    /// After a release install, a missing data directory is fetched from
    /// the release's source tarball.
    RequiresAuxData,
    /// When satisfied from the system, a missing user-global runtime is
    /// fetched for the exact version of the system binary.
    VersionLockedRuntime,
}

/// The immutable description of one tool: its id, release repository,
/// binary name, where a full-archive install lands, the binary's path
/// inside that install, and its behavior variant.
#[derive(Debug)]
pub struct ToolSpec {
    pub name: String,
    pub repo: String,
    pub binary_name: String,
    pub install_dir: String,
    pub path_in_archive: Option<String>,
    pub variant: ToolVariant,
}

/// Exactly one of these is produced for a tool in a run.
#[derive(Debug)]
pub enum ProvisionOutcome {
    AlreadyPresent,
    SymlinkedFromSystem,
    InstalledFromRelease,
    Failed(UserError),
}

/// The mathematical model of an outcome.
pub enum OutcomeModel {
    AlreadyPresent,
    SymlinkedFromSystem,
    InstalledFromRelease,
    Failed(ErrorModel),
}

impl View for ProvisionOutcome {
    type V = OutcomeModel;

    open spec fn view(&self) -> OutcomeModel {
        match self {
            ProvisionOutcome::AlreadyPresent => OutcomeModel::AlreadyPresent,
            ProvisionOutcome::SymlinkedFromSystem => OutcomeModel::SymlinkedFromSystem,
            ProvisionOutcome::InstalledFromRelease => OutcomeModel::InstalledFromRelease,
            ProvisionOutcome::Failed(e) => OutcomeModel::Failed(e@),
        }
    }
}

impl ProvisionOutcome {
    /// Copies an outcome, preserving its model.
    pub fn duplicate(&self) -> (r: ProvisionOutcome)
        ensures
            r@ == self@,
    {
        match self {
            ProvisionOutcome::AlreadyPresent => ProvisionOutcome::AlreadyPresent,
            ProvisionOutcome::SymlinkedFromSystem => ProvisionOutcome::SymlinkedFromSystem,
            ProvisionOutcome::InstalledFromRelease => ProvisionOutcome::InstalledFromRelease,
            ProvisionOutcome::Failed(e) => ProvisionOutcome::Failed(e.duplicate()),
        }
    }
}

/// Specifies which release to target: the latest, or one by tag.
#[derive(Debug)]
pub enum ReleaseSpecifier {
    Latest,
    Tag(String),
}

/// Where the machine stands for one tool.
#[derive(Debug)]
pub enum ProvisionState {
    /// Asking whether `bin/<binary>` already exists in the environment.
    CheckingBin,
    /// Asking whether the binary is on the ambient search path.
    LookingUp,
    /// A symlink to the discovered system binary is being made.
    Linking { system_path: String },
    /// Asking whether the user-global runtime directory exists.
    HookCheckingRuntime { system_path: String },
    /// The system binary's version is being probed.
    HookProbing,
    /// The release for the probed tag is being fetched.
    HookResolving { attempt: u32, tag: String },
    /// The version-locked runtime archive is being downloaded.
    HookDownloading { attempt: u32, tag: String, url: String, asset_name: String },
    /// The runtime sub-tree is being written.
    HookWriting,
    /// The latest release listing is being fetched.
    Resolving { attempt: u32 },
    /// The selected asset is being downloaded.
    Downloading { attempt: u32, url: String, asset_name: String },
    /// The planned install files are being written.
    WritingInstall,
    /// The installed binary is being symlinked into `bin/`.
    LinkingInstalled,
    /// Asking whether the auxiliary data directory exists.
    AuxCheckingShare,
    /// The release listing for the source tarball is being fetched.
    AuxResolving { attempt: u32 },
    /// The source tarball is being downloaded.
    AuxDownloading { attempt: u32, url: String, tag: String },
    /// The auxiliary sub-tree is being written.
    AuxWriting,
    /// The tool's one outcome is fixed.
    Done(ProvisionOutcome),
}

/// What the caller did, and what came of it.
#[derive(Debug)]
pub enum ProvisionEvent {
    /// Whether `bin/<binary>` exists in the environment.
    BinExists(bool),
    /// The system path of the binary, where the search path has one.
    SystemPath(Option<String>),
    /// Whether a symlink or write action succeeded.
    StepOk(bool),
    /// Whether an asked-about directory exists.
    DirExists(bool),
    /// The probed version output, where the probe succeeded.
    ProbeOutput(Option<String>),
    /// The fetched release listing text, where the fetch succeeded.
    ReleaseJson(Option<String>),
    /// The downloaded bytes, held in memory for decoding, where the
    /// download succeeded.
    Downloaded(Option<Vec<u8>>),
}

/// What the caller must do next. Paths are relative to the environment
/// root, except a system path or a user path, which are taken as given.
#[derive(Debug)]
pub enum ProvisionAction {
    /// Report whether the link path exists.
    CheckBinExists { link: String },
    /// Look the binary up on the ambient search path.
    LookupSystemPath { binary_name: String },
    /// Create the planned relative symlink.
    MakeSymlink { original: String, link: String },
    /// Report whether the directory exists.
    CheckDirExists { dir: String },
    /// Run the binary with a version flag and report its output.
    RunVersionProbe { binary: String },
    /// Fetch the release listing, retrying only the network.
    FetchRelease { repo: String, specifier: ReleaseSpecifier },
    /// Download the URL to memory. Before a retry the caller sleeps for
    /// `retry_delay_ms` of the failed tries, multiplied by a random
    /// fraction.
    Download { url: String },
    /// Write the planned entries under the directory. The caller checks
    /// the plan with `check_plan_safety` first and refuses an unsafe plan
    /// whole, failing the tool.
    WriteEntries { dir: String, entries: Vec<PlannedEntry> },
    /// The tool is finished with this outcome.
    Finish(ProvisionOutcome),
}

/// The link path of a binary inside the environment.
pub open spec fn spec_bin_link(binary_name: Seq<char>) -> Seq<char> {
    "bin/"@ + binary_name
}

/// Builds the link path of a tool's binary.
pub fn bin_link(tool: &ToolSpec) -> (r: String)
    ensures
        r@ == spec_bin_link(tool.binary_name@),
{
    let a = str_to_chars("bin/");
    let b = str_to_chars(tool.binary_name.as_str());
    chars_to_string(&concat_chars(&a, &b))
}

/// Joins two environment-relative path pieces with a slash.
pub fn join_rel(a: &str, b: &str) -> (r: String)
    ensures
        r@ == a@ + "/"@ + b@,
{
    let av = str_to_chars(a);
    let sep = str_to_chars("/");
    let bv = str_to_chars(b);
    chars_to_string(&concat_chars(&concat_chars(&av, &sep), &bv))
}

/// Which events answer which states.
pub open spec fn spec_event_fits(state: ProvisionState, event: ProvisionEvent) -> bool {
    match (state, event) {
        (ProvisionState::CheckingBin, ProvisionEvent::BinExists(_)) => true,
        (ProvisionState::LookingUp, ProvisionEvent::SystemPath(_)) => true,
        (ProvisionState::Linking { .. }, ProvisionEvent::StepOk(_)) => true,
        (ProvisionState::HookCheckingRuntime { .. }, ProvisionEvent::DirExists(_)) => true,
        (ProvisionState::HookProbing, ProvisionEvent::ProbeOutput(_)) => true,
        (ProvisionState::HookResolving { .. }, ProvisionEvent::ReleaseJson(_)) => true,
        (ProvisionState::HookDownloading { .. }, ProvisionEvent::Downloaded(_)) => true,
        (ProvisionState::HookWriting, ProvisionEvent::StepOk(_)) => true,
        (ProvisionState::Resolving { .. }, ProvisionEvent::ReleaseJson(_)) => true,
        (ProvisionState::Downloading { .. }, ProvisionEvent::Downloaded(_)) => true,
        (ProvisionState::WritingInstall, ProvisionEvent::StepOk(_)) => true,
        (ProvisionState::LinkingInstalled, ProvisionEvent::StepOk(_)) => true,
        (ProvisionState::AuxCheckingShare, ProvisionEvent::DirExists(_)) => true,
        (ProvisionState::AuxResolving { .. }, ProvisionEvent::ReleaseJson(_)) => true,
        (ProvisionState::AuxDownloading { .. }, ProvisionEvent::Downloaded(_)) => true,
        (ProvisionState::AuxWriting, ProvisionEvent::StepOk(_)) => true,
        (ProvisionState::Done(_), _) => true,
        _ => false,
    }
}

/// Whether an event answers a state.
pub fn event_fits(state: &ProvisionState, event: &ProvisionEvent) -> (r: bool)
    ensures
        r == spec_event_fits(*state, *event),
{
    match (state, event) {
        (ProvisionState::CheckingBin, ProvisionEvent::BinExists(_)) => true,
        (ProvisionState::LookingUp, ProvisionEvent::SystemPath(_)) => true,
        (ProvisionState::Linking { .. }, ProvisionEvent::StepOk(_)) => true,
        (ProvisionState::HookCheckingRuntime { .. }, ProvisionEvent::DirExists(_)) => true,
        (ProvisionState::HookProbing, ProvisionEvent::ProbeOutput(_)) => true,
        (ProvisionState::HookResolving { .. }, ProvisionEvent::ReleaseJson(_)) => true,
        (ProvisionState::HookDownloading { .. }, ProvisionEvent::Downloaded(_)) => true,
        (ProvisionState::HookWriting, ProvisionEvent::StepOk(_)) => true,
        (ProvisionState::Resolving { .. }, ProvisionEvent::ReleaseJson(_)) => true,
        (ProvisionState::Downloading { .. }, ProvisionEvent::Downloaded(_)) => true,
        (ProvisionState::WritingInstall, ProvisionEvent::StepOk(_)) => true,
        (ProvisionState::LinkingInstalled, ProvisionEvent::StepOk(_)) => true,
        (ProvisionState::AuxCheckingShare, ProvisionEvent::DirExists(_)) => true,
        (ProvisionState::AuxResolving { .. }, ProvisionEvent::ReleaseJson(_)) => true,
        (ProvisionState::AuxDownloading { .. }, ProvisionEvent::Downloaded(_)) => true,
        (ProvisionState::AuxWriting, ProvisionEvent::StepOk(_)) => true,
        (ProvisionState::Done(_), _) => true,
        _ => false,
    }
}

/// The step finishes with this outcome.
pub open spec fn is_done(next: ProvisionState, action: ProvisionAction, o: OutcomeModel) -> bool {
    &&& next matches ProvisionState::Done(d) && d@ == o
    &&& action matches ProvisionAction::Finish(f) && f@ == o
}

/// The exact transition relation of the provisioner: what the next state
/// and action are for every state and event. The first applicable tier
/// wins; a committed system link never falls through to a download; only
/// network fetches and downloads are retried, at most `FETCH_ATTEMPTS`
/// times in all.
pub open spec fn spec_step_ok(
    tool: ToolSpec,
    os: Seq<char>,
    arch: Seq<char>,
    gnu_preferred: bool,
    state: ProvisionState,
    event: ProvisionEvent,
    next: ProvisionState,
    action: ProvisionAction,
) -> bool {
    match (state, event) {
        (ProvisionState::CheckingBin, ProvisionEvent::BinExists(true)) => is_done(
            next,
            action,
            OutcomeModel::AlreadyPresent,
        ),
        (ProvisionState::CheckingBin, ProvisionEvent::BinExists(false)) => {
            &&& next matches ProvisionState::LookingUp
            &&& action matches ProvisionAction::LookupSystemPath { binary_name } && binary_name@
                == tool.binary_name@
        },
        (ProvisionState::LookingUp, ProvisionEvent::SystemPath(Some(p))) => {
            &&& next matches ProvisionState::Linking { system_path } && system_path@ == p@
            &&& action matches ProvisionAction::MakeSymlink { original, link } && original@ == p@
                && link@ == spec_bin_link(tool.binary_name@)
        },
        (ProvisionState::LookingUp, ProvisionEvent::SystemPath(None)) => {
            &&& next matches ProvisionState::Resolving { attempt: 1u32 }
            &&& action matches ProvisionAction::FetchRelease { repo, specifier } && repo@
                == tool.repo@ && specifier matches ReleaseSpecifier::Latest
        },
        (ProvisionState::Linking { system_path }, ProvisionEvent::StepOk(false)) => is_done(
            next,
            action,
            OutcomeModel::Failed(ErrorModel::SymlinkFailed),
        ),
        (ProvisionState::Linking { system_path }, ProvisionEvent::StepOk(true)) => match tool
            .variant {
            ToolVariant::VersionLockedRuntime => {
                &&& next matches ProvisionState::HookCheckingRuntime { system_path: p } && p@
                    == system_path@
                &&& action matches ProvisionAction::CheckDirExists { dir } && dir@
                    == "~/.config/helix/runtime"@
            },
            _ => is_done(next, action, OutcomeModel::SymlinkedFromSystem),
        },
        (ProvisionState::HookCheckingRuntime { system_path }, ProvisionEvent::DirExists(true)) =>
            is_done(next, action, OutcomeModel::SymlinkedFromSystem),
        (ProvisionState::HookCheckingRuntime { system_path }, ProvisionEvent::DirExists(false)) => {
            &&& next matches ProvisionState::HookProbing
            &&& action matches ProvisionAction::RunVersionProbe { binary } && binary@
                == system_path@
        },
        (ProvisionState::HookProbing, ProvisionEvent::ProbeOutput(None)) => is_done(
            next,
            action,
            OutcomeModel::Failed(ErrorModel::CommandFailed { command: tool.binary_name@ }),
        ),
        (ProvisionState::HookProbing, ProvisionEvent::ProbeOutput(Some(out))) => match
            helix_tag_from(out@, 0) {
            Some(t) => {
                &&& next matches ProvisionState::HookResolving { attempt: 1u32, tag } && tag@ == t
                &&& action matches ProvisionAction::FetchRelease { repo, specifier } && repo@
                    == tool.repo@ && (specifier matches ReleaseSpecifier::Tag(tg) && tg@ == t)
            },
            None => is_done(
                next,
                action,
                OutcomeModel::Failed(ErrorModel::CommandFailed { command: tool.binary_name@ }),
            ),
        },
        (ProvisionState::HookResolving { attempt, tag }, ProvisionEvent::ReleaseJson(None)) => if
            attempt < FETCH_ATTEMPTS {
            &&& next matches ProvisionState::HookResolving { attempt: a, tag: t } && a == attempt
                + 1 && t@ == tag@
            &&& action matches ProvisionAction::FetchRelease { repo, specifier } && repo@
                == tool.repo@ && (specifier matches ReleaseSpecifier::Tag(tg) && tg@ == tag@)
        } else {
            is_done(next, action, OutcomeModel::Failed(ErrorModel::GitHubApiError))
        },
        (ProvisionState::HookResolving { attempt, tag }, ProvisionEvent::ReleaseJson(Some(json)))
            => match spec_release_selection(tool.name@, json@, os, arch, gnu_preferred) {
            SelectionModel::Picked(a) => {
                &&& next matches ProvisionState::HookDownloading {
                    attempt: 1u32,
                    tag: t,
                    url,
                    asset_name,
                } && t@ == tag@ && url@ == a.url && asset_name@ == a.name
                &&& action matches ProvisionAction::Download { url: u } && u@ == a.url
            },
            SelectionModel::NoJson => is_done(
                next,
                action,
                OutcomeModel::Failed(ErrorModel::GitHubApiError),
            ),
            SelectionModel::NoAssets => is_done(
                next,
                action,
                OutcomeModel::Failed(ErrorModel::GitHubApiError),
            ),
            SelectionModel::BadOs => is_done(
                next,
                action,
                OutcomeModel::Failed(ErrorModel::UnsupportedPlatform { name: tool.name@, os }),
            ),
            SelectionModel::NoMatch => is_done(
                next,
                action,
                OutcomeModel::Failed(
                    ErrorModel::AssetNotFound { name: tool.name@, os, arch },
                ),
            ),
        },
        (
            ProvisionState::HookDownloading { attempt, tag, url, asset_name },
            ProvisionEvent::Downloaded(None),
        ) => if attempt < FETCH_ATTEMPTS {
            &&& next matches ProvisionState::HookDownloading {
                attempt: a,
                tag: t,
                url: u,
                asset_name: an,
            } && a == attempt + 1 && t@ == tag@ && u@ == url@ && an@ == asset_name@
            &&& action matches ProvisionAction::Download { url: u2 } && u2@ == url@
        } else {
            is_done(
                next,
                action,
                OutcomeModel::Failed(ErrorModel::DownloadFailed { url: url@ }),
            )
        },
        (
            ProvisionState::HookDownloading { attempt, tag, url, asset_name },
            ProvisionEvent::Downloaded(Some(bytes)),
        ) => match archive_type_of(asset_name@) {
            None => is_done(
                next,
                action,
                OutcomeModel::Failed(
                    ErrorModel::UnsupportedArchiveFormat { name: asset_name@ },
                ),
            ),
            Some(kind) => match decoded_entries(kind, bytes@) {
                None => is_done(
                    next,
                    action,
                    OutcomeModel::Failed(ErrorModel::ArchiveExtractionFailed),
                ),
                Some(es) => {
                    &&& next matches ProvisionState::HookWriting
                    &&& action matches ProvisionAction::WriteEntries { dir, entries } && dir@
                        == tool.install_dir@ + "/"@ + "runtime"@ && planned_models(entries@)
                        == spec_plan_sub(es, "runtime"@)
                },
            },
        },
        (ProvisionState::HookWriting, ProvisionEvent::StepOk(ok)) => if ok {
            is_done(next, action, OutcomeModel::SymlinkedFromSystem)
        } else {
            is_done(next, action, OutcomeModel::Failed(ErrorModel::ArchiveExtractionFailed))
        },
        (ProvisionState::Resolving { attempt }, ProvisionEvent::ReleaseJson(None)) => if attempt
            < FETCH_ATTEMPTS {
            &&& next matches ProvisionState::Resolving { attempt: a } && a == attempt + 1
            &&& action matches ProvisionAction::FetchRelease { repo, specifier } && repo@
                == tool.repo@ && specifier matches ReleaseSpecifier::Latest
        } else {
            is_done(next, action, OutcomeModel::Failed(ErrorModel::GitHubApiError))
        },
        (ProvisionState::Resolving { attempt }, ProvisionEvent::ReleaseJson(Some(json))) => match
            spec_release_selection(tool.name@, json@, os, arch, gnu_preferred) {
            SelectionModel::Picked(a) => {
                &&& next matches ProvisionState::Downloading { attempt: 1u32, url, asset_name }
                    && url@ == a.url && asset_name@ == a.name
                &&& action matches ProvisionAction::Download { url: u } && u@ == a.url
            },
            SelectionModel::NoJson => is_done(
                next,
                action,
                OutcomeModel::Failed(ErrorModel::GitHubApiError),
            ),
            SelectionModel::NoAssets => is_done(
                next,
                action,
                OutcomeModel::Failed(ErrorModel::GitHubApiError),
            ),
            SelectionModel::BadOs => is_done(
                next,
                action,
                OutcomeModel::Failed(ErrorModel::UnsupportedPlatform { name: tool.name@, os }),
            ),
            SelectionModel::NoMatch => is_done(
                next,
                action,
                OutcomeModel::Failed(
                    ErrorModel::AssetNotFound { name: tool.name@, os, arch },
                ),
            ),
        },
        (
            ProvisionState::Downloading { attempt, url, asset_name },
            ProvisionEvent::Downloaded(None),
        ) => if attempt < FETCH_ATTEMPTS {
            &&& next matches ProvisionState::Downloading { attempt: a, url: u, asset_name: an }
                && a == attempt + 1 && u@ == url@ && an@ == asset_name@
            &&& action matches ProvisionAction::Download { url: u2 } && u2@ == url@
        } else {
            is_done(
                next,
                action,
                OutcomeModel::Failed(ErrorModel::DownloadFailed { url: url@ }),
            )
        },
        (
            ProvisionState::Downloading { attempt, url, asset_name },
            ProvisionEvent::Downloaded(Some(bytes)),
        ) => match archive_type_of(asset_name@) {
            None => is_done(
                next,
                action,
                OutcomeModel::Failed(
                    ErrorModel::UnsupportedArchiveFormat { name: asset_name@ },
                ),
            ),
            Some(kind) => match decoded_entries(kind, bytes@) {
                None => is_done(
                    next,
                    action,
                    OutcomeModel::Failed(ErrorModel::ArchiveExtractionFailed),
                ),
                Some(es) => match tool.path_in_archive {
                    None => if no_single_match(es, tool.binary_name@) {
                        is_done(
                            next,
                            action,
                            OutcomeModel::Failed(
                                ErrorModel::BinaryNotFoundInArchive {
                                    binary_name: tool.binary_name@,
                                },
                            ),
                        )
                    } else {
                        &&& next matches ProvisionState::WritingInstall
                        &&& action matches ProvisionAction::WriteEntries { dir, entries } && dir@
                            == "bin"@ && single_plan_ok(
                            es,
                            tool.binary_name@,
                            planned_models(entries@),
                        )
                    },
                    Some(_) => {
                        &&& next matches ProvisionState::WritingInstall
                        &&& action matches ProvisionAction::WriteEntries { dir, entries } && dir@
                            == tool.install_dir@ && planned_models(entries@) == spec_plan_full(es)
                    },
                },
            },
        },
        (ProvisionState::WritingInstall, ProvisionEvent::StepOk(false)) => is_done(
            next,
            action,
            OutcomeModel::Failed(ErrorModel::ArchiveExtractionFailed),
        ),
        (ProvisionState::WritingInstall, ProvisionEvent::StepOk(true)) => match tool
            .path_in_archive {
            None => is_done(next, action, OutcomeModel::InstalledFromRelease),
            Some(pia) => {
                &&& next matches ProvisionState::LinkingInstalled
                &&& action matches ProvisionAction::MakeSymlink { original, link } && original@
                    == tool.install_dir@ + "/"@ + pia@ && link@ == spec_bin_link(
                    tool.binary_name@,
                )
            },
        },
        (ProvisionState::LinkingInstalled, ProvisionEvent::StepOk(false)) => is_done(
            next,
            action,
            OutcomeModel::Failed(ErrorModel::SymlinkFailed),
        ),
        (ProvisionState::LinkingInstalled, ProvisionEvent::StepOk(true)) => match tool.variant {
            ToolVariant::RequiresAuxData => {
                &&& next matches ProvisionState::AuxCheckingShare
                &&& action matches ProvisionAction::CheckDirExists { dir } && dir@
                    == tool.install_dir@ + "/"@ + "share"@
            },
            _ => is_done(next, action, OutcomeModel::InstalledFromRelease),
        },
        (ProvisionState::AuxCheckingShare, ProvisionEvent::DirExists(true)) => is_done(
            next,
            action,
            OutcomeModel::InstalledFromRelease,
        ),
        (ProvisionState::AuxCheckingShare, ProvisionEvent::DirExists(false)) => {
            &&& next matches ProvisionState::AuxResolving { attempt: 1u32 }
            &&& action matches ProvisionAction::FetchRelease { repo, specifier } && repo@
                == tool.repo@ && specifier matches ReleaseSpecifier::Latest
        },
        (ProvisionState::AuxResolving { attempt }, ProvisionEvent::ReleaseJson(None)) => if attempt
            < FETCH_ATTEMPTS {
            &&& next matches ProvisionState::AuxResolving { attempt: a } && a == attempt + 1
            &&& action matches ProvisionAction::FetchRelease { repo, specifier } && repo@
                == tool.repo@ && specifier matches ReleaseSpecifier::Latest
        } else {
            is_done(next, action, OutcomeModel::Failed(ErrorModel::GitHubApiError))
        },
        (ProvisionState::AuxResolving { attempt }, ProvisionEvent::ReleaseJson(Some(json))) =>
            match spec_tarball_selection(json@) {
            TarballModel::Got(url, tag) => {
                &&& next matches ProvisionState::AuxDownloading { attempt: 1u32, url: u, tag: t }
                    && u@ == url && t@ == tag
                &&& action matches ProvisionAction::Download { url: u2 } && u2@ == url
            },
            TarballModel::NoJson => is_done(
                next,
                action,
                OutcomeModel::Failed(ErrorModel::GitHubApiError),
            ),
            TarballModel::NoUrl => is_done(
                next,
                action,
                OutcomeModel::Failed(ErrorModel::GitHubApiError),
            ),
        },
        (
            ProvisionState::AuxDownloading { attempt, url, tag },
            ProvisionEvent::Downloaded(None),
        ) => if attempt < FETCH_ATTEMPTS {
            &&& next matches ProvisionState::AuxDownloading { attempt: a, url: u, tag: t } && a
                == attempt + 1 && u@ == url@ && t@ == tag@
            &&& action matches ProvisionAction::Download { url: u2 } && u2@ == url@
        } else {
            is_done(
                next,
                action,
                OutcomeModel::Failed(ErrorModel::DownloadFailed { url: url@ }),
            )
        },
        (
            ProvisionState::AuxDownloading { attempt, url, tag },
            ProvisionEvent::Downloaded(Some(bytes)),
        ) => match decoded_entries(ArchiveType::TarGz, bytes@) {
            None => is_done(
                next,
                action,
                OutcomeModel::Failed(ErrorModel::ArchiveExtractionFailed),
            ),
            Some(es) => {
                &&& next matches ProvisionState::AuxWriting
                &&& action matches ProvisionAction::WriteEntries { dir, entries } && dir@
                    == tool.install_dir@ + "/"@ + "share"@ && planned_models(entries@)
                    == spec_plan_sub(es, "share"@)
            },
        },
        (ProvisionState::AuxWriting, ProvisionEvent::StepOk(ok)) => if ok {
            is_done(next, action, OutcomeModel::InstalledFromRelease)
        } else {
            is_done(next, action, OutcomeModel::Failed(ErrorModel::ArchiveExtractionFailed))
        },
        (ProvisionState::Done(o), _) => is_done(next, action, o@),
        _ => false,
    }
}

/// Fixes a tool's outcome.
fn finish(o: ProvisionOutcome) -> (r: (ProvisionState, ProvisionAction))
    ensures
        is_done(r.0, r.1, o@),
{
    let copy = o.duplicate();
    (ProvisionState::Done(o), ProvisionAction::Finish(copy))
}

/// One step of the provisioner: from the current state and the result of
/// the last action to the next state and action, exactly as
/// `spec_step_ok` relates them. The gnu-versus-musl preference is computed
/// once per run and passed in explicitly.
pub fn provision_step(
    tool: &ToolSpec,
    os: &str,
    arch: &str,
    gnu_preferred: bool,
    state: ProvisionState,
    event: ProvisionEvent,
) -> (r: (ProvisionState, ProvisionAction))
    requires
        spec_event_fits(state, event),
    ensures
        spec_step_ok(*tool, os@, arch@, gnu_preferred, state, event, r.0, r.1),
{
    match (state, event) {
        (ProvisionState::CheckingBin, ProvisionEvent::BinExists(true)) => finish(
            ProvisionOutcome::AlreadyPresent,
        ),
        (ProvisionState::CheckingBin, ProvisionEvent::BinExists(false)) => (
            ProvisionState::LookingUp,
            ProvisionAction::LookupSystemPath { binary_name: clone_string(&tool.binary_name) },
        ),
        (ProvisionState::LookingUp, ProvisionEvent::SystemPath(Some(p))) => {
            let link = bin_link(tool);
            let original = clone_string(&p);
            (
                ProvisionState::Linking { system_path: p },
                ProvisionAction::MakeSymlink { original, link },
            )
        },
        (ProvisionState::LookingUp, ProvisionEvent::SystemPath(None)) => (
            ProvisionState::Resolving { attempt: 1 },
            ProvisionAction::FetchRelease {
                repo: clone_string(&tool.repo),
                specifier: ReleaseSpecifier::Latest,
            },
        ),
        (ProvisionState::Linking { system_path }, ProvisionEvent::StepOk(false)) => finish(
            ProvisionOutcome::Failed(UserError::SymlinkFailed),
        ),
        (ProvisionState::Linking { system_path }, ProvisionEvent::StepOk(true)) => match tool
            .variant {
            ToolVariant::VersionLockedRuntime => (
                ProvisionState::HookCheckingRuntime { system_path },
                ProvisionAction::CheckDirExists { dir: "~/.config/helix/runtime".to_owned() },
            ),
            _ => finish(ProvisionOutcome::SymlinkedFromSystem),
        },
        (ProvisionState::HookCheckingRuntime { system_path }, ProvisionEvent::DirExists(true)) =>
            finish(ProvisionOutcome::SymlinkedFromSystem),
        (ProvisionState::HookCheckingRuntime { system_path }, ProvisionEvent::DirExists(false)) => (
            ProvisionState::HookProbing,
            ProvisionAction::RunVersionProbe { binary: system_path },
        ),
        (ProvisionState::HookProbing, ProvisionEvent::ProbeOutput(None)) => finish(
            ProvisionOutcome::Failed(
                UserError::CommandFailed { command: clone_string(&tool.binary_name) },
            ),
        ),
        (ProvisionState::HookProbing, ProvisionEvent::ProbeOutput(Some(out))) => match
            crate::version::parse_helix_version_tag(out.as_str()) {
            Some(tag) => {
                let tag2 = clone_string(&tag);
                (
                    ProvisionState::HookResolving { attempt: 1, tag },
                    ProvisionAction::FetchRelease {
                        repo: clone_string(&tool.repo),
                        specifier: ReleaseSpecifier::Tag(tag2),
                    },
                )
            },
            None => finish(
                ProvisionOutcome::Failed(
                    UserError::CommandFailed { command: clone_string(&tool.binary_name) },
                ),
            ),
        },
        (ProvisionState::HookResolving { attempt, tag }, ProvisionEvent::ReleaseJson(None)) => if
            attempt < FETCH_ATTEMPTS {
            let tag2 = clone_string(&tag);
            (
                ProvisionState::HookResolving { attempt: attempt + 1, tag },
                ProvisionAction::FetchRelease {
                    repo: clone_string(&tool.repo),
                    specifier: ReleaseSpecifier::Tag(tag2),
                },
            )
        } else {
            finish(ProvisionOutcome::Failed(UserError::GitHubApiError))
        },
        (ProvisionState::HookResolving { attempt, tag }, ProvisionEvent::ReleaseJson(Some(json)))
            => match select_release_asset(
            tool.name.as_str(),
            json.as_str(),
            os,
            arch,
            gnu_preferred,
        ) {
            Ok(asset) => {
                let url2 = clone_string(&asset.url);
                (
                    ProvisionState::HookDownloading {
                        attempt: 1,
                        tag,
                        url: asset.url,
                        asset_name: asset.name,
                    },
                    ProvisionAction::Download { url: url2 },
                )
            },
            Err(e) => finish(ProvisionOutcome::Failed(e)),
        },
        (
            ProvisionState::HookDownloading { attempt, tag, url, asset_name },
            ProvisionEvent::Downloaded(None),
        ) => if attempt < FETCH_ATTEMPTS {
            let url2 = clone_string(&url);
            (
                ProvisionState::HookDownloading { attempt: attempt + 1, tag, url, asset_name },
                ProvisionAction::Download { url: url2 },
            )
        } else {
            finish(ProvisionOutcome::Failed(UserError::DownloadFailed { url }))
        },
        (
            ProvisionState::HookDownloading { attempt, tag, url, asset_name },
            ProvisionEvent::Downloaded(Some(bytes)),
        ) => match ArchiveType::from_asset_name(asset_name.as_str()) {
            Err(e) => finish(ProvisionOutcome::Failed(e)),
            Ok(kind) => match decode_archive(kind, &bytes) {
                Err(e) => finish(ProvisionOutcome::Failed(e)),
                Ok(entries) => {
                    let planned = plan_sub_tree(&entries, "runtime");
                    let dir = join_rel(tool.install_dir.as_str(), "runtime");
                    (
                        ProvisionState::HookWriting,
                        ProvisionAction::WriteEntries { dir, entries: planned },
                    )
                },
            },
        },
        (ProvisionState::HookWriting, ProvisionEvent::StepOk(ok)) => if ok {
            finish(ProvisionOutcome::SymlinkedFromSystem)
        } else {
            finish(ProvisionOutcome::Failed(UserError::ArchiveExtractionFailed))
        },
        (ProvisionState::Resolving { attempt }, ProvisionEvent::ReleaseJson(None)) => if attempt
            < FETCH_ATTEMPTS {
            (
                ProvisionState::Resolving { attempt: attempt + 1 },
                ProvisionAction::FetchRelease {
                    repo: clone_string(&tool.repo),
                    specifier: ReleaseSpecifier::Latest,
                },
            )
        } else {
            finish(ProvisionOutcome::Failed(UserError::GitHubApiError))
        },
        (ProvisionState::Resolving { attempt }, ProvisionEvent::ReleaseJson(Some(json))) => match
            select_release_asset(tool.name.as_str(), json.as_str(), os, arch, gnu_preferred) {
            Ok(asset) => {
                let url2 = clone_string(&asset.url);
                (
                    ProvisionState::Downloading {
                        attempt: 1,
                        url: asset.url,
                        asset_name: asset.name,
                    },
                    ProvisionAction::Download { url: url2 },
                )
            },
            Err(e) => finish(ProvisionOutcome::Failed(e)),
        },
        (
            ProvisionState::Downloading { attempt, url, asset_name },
            ProvisionEvent::Downloaded(None),
        ) => if attempt < FETCH_ATTEMPTS {
            let url2 = clone_string(&url);
            (
                ProvisionState::Downloading { attempt: attempt + 1, url, asset_name },
                ProvisionAction::Download { url: url2 },
            )
        } else {
            finish(ProvisionOutcome::Failed(UserError::DownloadFailed { url }))
        },
        (
            ProvisionState::Downloading { attempt, url, asset_name },
            ProvisionEvent::Downloaded(Some(bytes)),
        ) => match ArchiveType::from_asset_name(asset_name.as_str()) {
            Err(e) => finish(ProvisionOutcome::Failed(e)),
            Ok(kind) => match decode_archive(kind, &bytes) {
                Err(e) => finish(ProvisionOutcome::Failed(e)),
                Ok(entries) => match &tool.path_in_archive {
                    None => match crate::codec::find_single_file(
                        &entries,
                        tool.binary_name.as_str(),
                    ) {
                        Ok(i) => {
                            let one = PlannedEntry {
                                path: clone_string(&tool.binary_name),
                                data: crate::codec::clone_bytes(&entries[i].data),
                                is_dir: false,
                                mode: Some(0o755),
                            };
                            let mut planned: Vec<PlannedEntry> = Vec::new();
                            planned.push(one);
                            proof {
                                let es = crate::codec::models(entries@);
                                assert(planned_models(planned@) =~= seq![planned@[0]@]);
                                assert(es[i as int] == entries@[i as int]@);
                                assert(crate::paths::base_name(es[i as int].path)
                                    == tool.binary_name@);
                                assert forall|j: int| 0 <= j < i implies crate::paths::base_name(
                                    (#[trigger] es[j]).path,
                                ) != tool.binary_name@ by {
                                    assert(es[j] == entries@[j]@);
                                }
                                assert(single_plan_ok(
                                    es,
                                    tool.binary_name@,
                                    planned_models(planned@),
                                ));
                            }
                            (
                                ProvisionState::WritingInstall,
                                ProvisionAction::WriteEntries {
                                    dir: "bin".to_owned(),
                                    entries: planned,
                                },
                            )
                        },
                        Err(e) => {
                            proof {
                                let es = crate::codec::models(entries@);
                                assert forall|j: int| 0 <= j < es.len() implies
                                    crate::paths::base_name((#[trigger] es[j]).path)
                                    != tool.binary_name@ by {
                                    assert(es[j] == entries@[j]@);
                                }
                            }
                            finish(ProvisionOutcome::Failed(e))
                        },
                    },
                    Some(_) => {
                        let planned = plan_full_tree(&entries);
                        proof {
                            lemma_full_plan_is_map(
                                crate::codec::models(entries@),
                                planned_models(planned@),
                            );
                        }
                        (
                            ProvisionState::WritingInstall,
                            ProvisionAction::WriteEntries {
                                dir: clone_string(&tool.install_dir),
                                entries: planned,
                            },
                        )
                    },
                },
            },
        },
        (ProvisionState::WritingInstall, ProvisionEvent::StepOk(false)) => finish(
            ProvisionOutcome::Failed(UserError::ArchiveExtractionFailed),
        ),
        (ProvisionState::WritingInstall, ProvisionEvent::StepOk(true)) => match
            &tool.path_in_archive {
            None => finish(ProvisionOutcome::InstalledFromRelease),
            Some(pia) => {
                let original = join_rel(tool.install_dir.as_str(), pia.as_str());
                let link = bin_link(tool);
                (
                    ProvisionState::LinkingInstalled,
                    ProvisionAction::MakeSymlink { original, link },
                )
            },
        },
        (ProvisionState::LinkingInstalled, ProvisionEvent::StepOk(false)) => finish(
            ProvisionOutcome::Failed(UserError::SymlinkFailed),
        ),
        (ProvisionState::LinkingInstalled, ProvisionEvent::StepOk(true)) => match tool.variant {
            ToolVariant::RequiresAuxData => (
                ProvisionState::AuxCheckingShare,
                ProvisionAction::CheckDirExists {
                    dir: join_rel(tool.install_dir.as_str(), "share"),
                },
            ),
            _ => finish(ProvisionOutcome::InstalledFromRelease),
        },
        (ProvisionState::AuxCheckingShare, ProvisionEvent::DirExists(true)) => finish(
            ProvisionOutcome::InstalledFromRelease,
        ),
        (ProvisionState::AuxCheckingShare, ProvisionEvent::DirExists(false)) => (
            ProvisionState::AuxResolving { attempt: 1 },
            ProvisionAction::FetchRelease {
                repo: clone_string(&tool.repo),
                specifier: ReleaseSpecifier::Latest,
            },
        ),
        (ProvisionState::AuxResolving { attempt }, ProvisionEvent::ReleaseJson(None)) => if attempt
            < FETCH_ATTEMPTS {
            (
                ProvisionState::AuxResolving { attempt: attempt + 1 },
                ProvisionAction::FetchRelease {
                    repo: clone_string(&tool.repo),
                    specifier: ReleaseSpecifier::Latest,
                },
            )
        } else {
            finish(ProvisionOutcome::Failed(UserError::GitHubApiError))
        },
        (ProvisionState::AuxResolving { attempt }, ProvisionEvent::ReleaseJson(Some(json))) =>
            match select_source_tarball(json.as_str()) {
            Ok(pair) => {
                let (url, tag) = pair;
                let url2 = clone_string(&url);
                (
                    ProvisionState::AuxDownloading { attempt: 1, url, tag },
                    ProvisionAction::Download { url: url2 },
                )
            },
            Err(e) => finish(ProvisionOutcome::Failed(e)),
        },
        (
            ProvisionState::AuxDownloading { attempt, url, tag },
            ProvisionEvent::Downloaded(None),
        ) => if attempt < FETCH_ATTEMPTS {
            let url2 = clone_string(&url);
            (
                ProvisionState::AuxDownloading { attempt: attempt + 1, url, tag },
                ProvisionAction::Download { url: url2 },
            )
        } else {
            finish(ProvisionOutcome::Failed(UserError::DownloadFailed { url }))
        },
        (
            ProvisionState::AuxDownloading { attempt, url, tag },
            ProvisionEvent::Downloaded(Some(bytes)),
        ) => match decode_archive(ArchiveType::TarGz, &bytes) {
            Err(e) => finish(ProvisionOutcome::Failed(e)),
            Ok(entries) => {
                let planned = plan_sub_tree(&entries, "share");
                let dir = join_rel(tool.install_dir.as_str(), "share");
                (
                    ProvisionState::AuxWriting,
                    ProvisionAction::WriteEntries { dir, entries: planned },
                )
            },
        },
        (ProvisionState::AuxWriting, ProvisionEvent::StepOk(ok)) => if ok {
            finish(ProvisionOutcome::InstalledFromRelease)
        } else {
            finish(ProvisionOutcome::Failed(UserError::ArchiveExtractionFailed))
        },
        (ProvisionState::Done(o), _) => finish(o),
        _ => vstd::pervasive::unreached(),
    }
}

/// A step leaves the machine finished exactly when it emits the finishing
/// action, and the two carry the same outcome.
pub proof fn lemma_step_done_iff_finish(
    tool: ToolSpec,
    os: Seq<char>,
    arch: Seq<char>,
    gnu_preferred: bool,
    state: ProvisionState,
    event: ProvisionEvent,
    next: ProvisionState,
    action: ProvisionAction,
)
    requires
        spec_event_fits(state, event),
        spec_step_ok(tool, os, arch, gnu_preferred, state, event, next, action),
    ensures
        (next matches ProvisionState::Done(_)) <==> (action matches ProvisionAction::Finish(_)),
        next matches ProvisionState::Done(d) ==> action matches ProvisionAction::Finish(f) && f@
            == d@,
{
}

/// Exactly one outcome per tool per run: once a tool's outcome is fixed,
/// every further step returns that same outcome and nothing else.
pub proof fn lemma_outcome_is_stable(
    tool: ToolSpec,
    os: Seq<char>,
    arch: Seq<char>,
    gnu_preferred: bool,
    o: ProvisionOutcome,
    event: ProvisionEvent,
    next: ProvisionState,
    action: ProvisionAction,
)
    requires
        spec_step_ok(
            tool,
            os,
            arch,
            gnu_preferred,
            ProvisionState::Done(o),
            event,
            next,
            action,
        ),
    ensures
        next matches ProvisionState::Done(d) && d@ == o@,
        action matches ProvisionAction::Finish(f) && f@ == o@,
{
}

/// A tool already provisioned in the environment needs nothing else: the
/// machine finishes at once with `AlreadyPresent`, asking for no network
/// action.
pub proof fn lemma_present_tool_is_done_at_once(
    tool: ToolSpec,
    os: Seq<char>,
    arch: Seq<char>,
    gnu_preferred: bool,
    next: ProvisionState,
    action: ProvisionAction,
)
    requires
        spec_step_ok(
            tool,
            os,
            arch,
            gnu_preferred,
            ProvisionState::CheckingBin,
            ProvisionEvent::BinExists(true),
            next,
            action,
        ),
    ensures
        is_done(next, action, OutcomeModel::AlreadyPresent),
{
}

/// Committing to a discovered system tool is authoritative: when its
/// symlink fails, the tool fails outright; the machine never falls back to
/// downloading.
pub proof fn lemma_no_fallthrough_on_symlink_failure(
    tool: ToolSpec,
    os: Seq<char>,
    arch: Seq<char>,
    gnu_preferred: bool,
    state: ProvisionState,
    next: ProvisionState,
    action: ProvisionAction,
)
    requires
        state matches ProvisionState::Linking { .. },
        spec_step_ok(
            tool,
            os,
            arch,
            gnu_preferred,
            state,
            ProvisionEvent::StepOk(false),
            next,
            action,
        ),
    ensures
        is_done(next, action, OutcomeModel::Failed(ErrorModel::SymlinkFailed)),
{
}

/// The machine's starting point: checking whether the binary already
/// stands in the environment.
pub fn start_provision(tool: &ToolSpec) -> (r: (ProvisionState, ProvisionAction))
    ensures
        r.0 matches ProvisionState::CheckingBin,
        r.1 matches ProvisionAction::CheckBinExists { link } && link@ == spec_bin_link(
            tool.binary_name@,
        ),
{
    (ProvisionState::CheckingBin, ProvisionAction::CheckBinExists { link: bin_link(tool) })
}

/// A valid run of one tool's machine: `trace[k]` is the state before the
/// k-th event, starting at the bin check; `actions[0]` is the starting
/// action and `actions[k + 1]` the action of step k; every consumed event
/// answers its state, every step obeys the transition relation, and only
/// the final state may be finished.
pub open spec fn run_trace_ok(
    tool: ToolSpec,
    os: Seq<char>,
    arch: Seq<char>,
    gnu_preferred: bool,
    events: Seq<ProvisionEvent>,
    trace: Seq<ProvisionState>,
    actions: Seq<ProvisionAction>,
) -> bool {
    &&& 1 <= trace.len() <= events.len() + 1
    &&& actions.len() == trace.len()
    &&& trace[0] matches ProvisionState::CheckingBin
    &&& actions[0] matches ProvisionAction::CheckBinExists { link } && link@ == spec_bin_link(
        tool.binary_name@,
    )
    &&& forall|k: int| 0 <= k < trace.len() - 1 ==> spec_event_fits(
        #[trigger] trace[k],
        events[k],
    )
    &&& forall|k: int| 0 <= k < trace.len() - 1 ==> spec_step_ok(
        tool,
        os,
        arch,
        gnu_preferred,
        #[trigger] trace[k],
        events[k],
        trace[k + 1],
        actions[k + 1],
    )
    &&& forall|k: int| 0 <= k < trace.len() - 1 ==> !(#[trigger] trace[k]
        matches ProvisionState::Done(_))
}

/// The outcome and actions of a legitimate run over the given events: some
/// valid trace — the starting bin check followed by one transition of
/// `spec_step_ok` per consumed event — produces exactly these actions, and
/// the outcome is `Some` exactly when the trace reaches a finished state,
/// with the finished state's outcome; it is `None` only when the events
/// end before the machine finishes, or the next event does not answer its
/// state.
pub open spec fn machine_run_ok(
    tool: ToolSpec,
    os: Seq<char>,
    arch: Seq<char>,
    gnu_preferred: bool,
    events: Seq<ProvisionEvent>,
    outcome: Option<ProvisionOutcome>,
    actions: Seq<ProvisionAction>,
) -> bool {
    exists|trace: Seq<ProvisionState>|
        {
            &&& #[trigger] run_trace_ok(tool, os, arch, gnu_preferred, events, trace, actions)
            &&& match outcome {
                Some(o) => trace.last() matches ProvisionState::Done(d) && d@ == o@,
                None => !(trace.last() matches ProvisionState::Done(_)) && (trace.len()
                    == events.len() + 1 || !spec_event_fits(
                    trace.last(),
                    events[trace.len() - 1],
                )),
            }
        }
}

/// Drives one tool's machine over a sequence of events, collecting the
/// actions it asks for. The result is a legitimate run (`machine_run_ok`):
/// the returned actions are the starting bin check followed by one
/// transition of the machine per consumed event, and exactly one outcome
/// is produced per completed run — the run's one finishing action carries
/// it. A run whose events end early, or answer the wrong question,
/// produces none.
#[verifier::rlimit(60)]
pub fn run_tool_machine(
    tool: &ToolSpec,
    os: &str,
    arch: &str,
    gnu_preferred: bool,
    events: Vec<ProvisionEvent>,
) -> (r: (Option<ProvisionOutcome>, Vec<ProvisionAction>))
    ensures
        match r.0 {
            Some(o) => r.1@.len() >= 1 && (r.1@.last() matches ProvisionAction::Finish(f) && f@
                == o@) && forall|i: int|
                0 <= i < r.1@.len() - 1 ==> !((#[trigger] r.1@[i])
                    matches ProvisionAction::Finish(_)),
            None => forall|i: int|
                0 <= i < r.1@.len() ==> !((#[trigger] r.1@[i])
                    matches ProvisionAction::Finish(_)),
        },
        machine_run_ok(*tool, os@, arch@, gnu_preferred, events@, r.0, r.1@),
{
    let ghost all_events = events@;
    let (start_state, start_action) = start_provision(tool);
    let mut state = start_state;
    let mut actions: Vec<ProvisionAction> = Vec::new();
    actions.push(start_action);
    let ghost mut trace: Seq<ProvisionState> = seq![state];
    let mut evs = events;
    proof {
        assert(evs@ =~= all_events.skip(0));
    }
    while evs.len() > 0
        invariant
            all_events == events@,
            trace.len() == actions@.len(),
            1 <= trace.len() <= all_events.len() + 1,
            evs@ == all_events.skip(trace.len() - 1),
            trace.last() == state,
            trace[0] matches ProvisionState::CheckingBin,
            actions@[0] matches ProvisionAction::CheckBinExists { link } && link@ == spec_bin_link(
                tool.binary_name@,
            ),
            !(state matches ProvisionState::Done(_)),
            forall|k: int| 0 <= k < trace.len() - 1 ==> spec_event_fits(
                #[trigger] trace[k],
                all_events[k],
            ),
            forall|k: int| 0 <= k < trace.len() - 1 ==> spec_step_ok(
                *tool,
                os@,
                arch@,
                gnu_preferred,
                #[trigger] trace[k],
                all_events[k],
                trace[k + 1],
                actions@[k + 1],
            ),
            forall|k: int| 0 <= k < trace.len() - 1 ==> !(#[trigger] trace[k]
                matches ProvisionState::Done(_)),
            forall|i: int|
                0 <= i < actions@.len() ==> !((#[trigger] actions@[i])
                    matches ProvisionAction::Finish(_)),
        decreases evs@.len(),
    {
        let ghost i = trace.len() - 1;
        let ev = evs.remove(0);
        proof {
            assert(ev == all_events[i]);
            assert(evs@ =~= all_events.skip(i + 1));
        }
        if !event_fits(&state, &ev) {
            proof {
                assert(machine_run_ok(
                    *tool,
                    os@,
                    arch@,
                    gnu_preferred,
                    all_events,
                    None,
                    actions@,
                )) by {
                    assert(run_trace_ok(
                        *tool,
                        os@,
                        arch@,
                        gnu_preferred,
                        all_events,
                        trace,
                        actions@,
                    ));
                    assert(!spec_event_fits(trace.last(), all_events[trace.len() - 1]));
                }
            }
            return (None, actions);
        }
        let ghost prev_state = state;
        let ghost prev_ev = ev;
        let (next, action) = provision_step(tool, os, arch, gnu_preferred, state, ev);
        proof {
            lemma_step_done_iff_finish(
                *tool,
                os@,
                arch@,
                gnu_preferred,
                prev_state,
                prev_ev,
                next,
                action,
            );
        }
        state = next;
        proof {
            trace = trace.push(state);
        }
        let is_final = match &state {
            ProvisionState::Done(_) => true,
            _ => false,
        };
        if is_final {
            let outcome = match &state {
                ProvisionState::Done(o) => o.duplicate(),
                _ => ProvisionOutcome::AlreadyPresent,
            };
            actions.push(action);
            proof {
                assert(machine_run_ok(
                    *tool,
                    os@,
                    arch@,
                    gnu_preferred,
                    all_events,
                    Some(outcome),
                    actions@,
                )) by {
                    assert(run_trace_ok(
                        *tool,
                        os@,
                        arch@,
                        gnu_preferred,
                        all_events,
                        trace,
                        actions@,
                    ));
                    assert(trace.last() matches ProvisionState::Done(d) && d@ == outcome@);
                }
            }
            return (Some(outcome), actions);
        }
        actions.push(action);
    }
    proof {
        assert(trace.len() == all_events.len() + 1);
        assert(machine_run_ok(
            *tool,
            os@,
            arch@,
            gnu_preferred,
            all_events,
            None,
            actions@,
        )) by {
            assert(run_trace_ok(*tool, os@, arch@, gnu_preferred, all_events, trace, actions@));
            assert(trace.len() == all_events.len() + 1);
        }
    }
    (None, actions)
}

/// What becomes of the environment root after a run: kept only when every
/// declared tool succeeded, removed entirely otherwise.
#[derive(Debug, Clone, Copy, PartialEq, Eq, Structural)]
pub enum RootDisposition {
    Keep,
    Remove,
}

/// Decides the fate of the environment root from the tools' outcomes: kept
/// exactly when no tool failed.
pub fn run_disposition(outcomes: &Vec<ProvisionOutcome>) -> (r: RootDisposition)
    ensures
        (r == RootDisposition::Keep) <==> (forall|i: int|
            0 <= i < outcomes@.len() ==> !((#[trigger] outcomes@[i])
                matches ProvisionOutcome::Failed(_))),
{
    let n = outcomes.len();
    for i in 0..n
        invariant
            n == outcomes@.len(),
            forall|k: int|
                0 <= k < i ==> !((#[trigger] outcomes@[k]) matches ProvisionOutcome::Failed(_)),
    {
        let failed = match &outcomes[i] {
            ProvisionOutcome::Failed(_) => true,
            _ => false,
        };
        if failed {
            return RootDisposition::Remove;
        }
    }
    RootDisposition::Keep
}

/// If any tool fails, the environment root does not survive the run: a
/// disposition computed from outcomes with a failure among them is
/// `Remove`.
pub proof fn lemma_failure_removes_root(
    outcomes: Seq<ProvisionOutcome>,
    r: RootDisposition,
    i: int,
)
    requires
        (r == RootDisposition::Keep) <==> (forall|k: int|
            0 <= k < outcomes.len() ==> !((#[trigger] outcomes[k])
                matches ProvisionOutcome::Failed(_))),
        0 <= i < outcomes.len(),
        outcomes[i] matches ProvisionOutcome::Failed(_),
    ensures
        r == RootDisposition::Remove,
{
}

} // verus!
