//! Release listings: the parsed shape of a release-hosting API answer, and
//! the verified selection of a download from it.
//!
//! JSON parsing is serde_json's work behind one trusted wrapper; everything
//! that decides which asset or tarball is taken is verified against the
//! resolver's selection function.

use vstd::prelude::*;
use vstd::string::StringExecFns;

use crate::errors::UserError;
use crate::resolver::{
    asset_models, find_best_asset_match, os_targets, spec_best_asset, AssetModel, ReleaseAsset,
};

verus! {

/// A release listing: its tag, its source-tarball URL where the API gives
/// one, and its downloadable assets. `has_assets` records whether the
/// listing carried an asset array at all.
#[derive(Debug)]
pub struct ReleaseInfo {
    pub tag_name: Option<String>,
    pub tarball_url: Option<String>,
    pub has_assets: bool,
    pub assets: Vec<ReleaseAsset>,
}

/// The mathematical model of a release listing.
pub struct ReleaseModel {
    pub tag_name: Option<Seq<char>>,
    pub tarball_url: Option<Seq<char>>,
    pub has_assets: bool,
    pub assets: Seq<AssetModel>,
}

impl View for ReleaseInfo {
    type V = ReleaseModel;

    open spec fn view(&self) -> ReleaseModel {
        ReleaseModel {
            tag_name: match self.tag_name {
                Some(t) => Some(t@),
                None => None,
            },
            tarball_url: match self.tarball_url {
                Some(t) => Some(t@),
                None => None,
            },
            has_assets: self.has_assets,
            assets: asset_models(self.assets@),
        }
    }
}

/// What a release listing parses to; `None` when the text is not JSON at
/// all.
pub uninterp spec fn release_of(s: Seq<char>) -> Option<ReleaseModel>;

/// The model of an optional parsed listing.
pub open spec fn opt_release(r: Option<ReleaseInfo>) -> Option<ReleaseModel> {
    match r {
        Some(info) => Some(info@),
        None => None,
    }
}

/// Relies on serde_json's `from_str` and `Value` accessors: parsing is a
/// function of the text alone. The wrapper reads `tag_name`,
/// `tarball_url`, and for each element of `assets` its `name` and
/// `browser_download_url`; a missing name or URL becomes the empty string,
/// exactly as an unusable asset is modeled.
#[verifier::external_body]
fn parse_release_opt(text: &str) -> (r: Option<ReleaseInfo>)
    ensures
        release_of(text@) == opt_release(r),
{
    let v: serde_json::Value = serde_json::from_str(text).ok()?;
    let tag_name = v["tag_name"].as_str().map(str::to_owned);
    let tarball_url = v["tarball_url"].as_str().map(str::to_owned);
    let arr = v["assets"].as_array();
    let has_assets = arr.is_some();
    let mut assets = Vec::new();
    for item in arr.map(|a| a.as_slice()).unwrap_or(&[]) {
        let name = item["name"].as_str().unwrap_or("").to_owned();
        let url = item["browser_download_url"].as_str().unwrap_or("").to_owned();
        assets.push(ReleaseAsset { name, url });
    }
    Some(ReleaseInfo { tag_name, tarball_url, has_assets, assets })
}

/// Parses a release listing, reporting text that is not JSON as an API
/// error.
fn parse_release_json(text: &str) -> (r: Result<ReleaseInfo, UserError>)
    ensures
        match r {
            Ok(info) => release_of(text@) == Some(info@),
            Err(e) => release_of(text@) is None && e matches UserError::GitHubApiError,
        },
{
    match parse_release_opt(text) {
        Some(info) => Ok(info),
        None => Err(UserError::GitHubApiError),
    }
}

/// The outcome of selecting a release asset from a listing's text.
pub enum SelectionModel {
    /// The listing parsed, and this asset was selected.
    Picked(AssetModel),
    /// The text was not JSON.
    NoJson,
    /// The listing carried no asset array.
    NoAssets,
    /// The host OS is unsupported.
    BadOs,
    /// No asset matched the platform.
    NoMatch,
}

/// The selection an asset lookup makes on a listing's text, as a function
/// of the text and the platform inputs alone.
pub open spec fn spec_release_selection(
    name: Seq<char>,
    json: Seq<char>,
    os: Seq<char>,
    arch: Seq<char>,
    gnu_preferred: bool,
) -> SelectionModel {
    match release_of(json) {
        None => SelectionModel::NoJson,
        Some(rel) => if !rel.has_assets {
            SelectionModel::NoAssets
        } else if os_targets(name, os, gnu_preferred) is None {
            SelectionModel::BadOs
        } else {
            match spec_best_asset(name, rel.assets, os, arch, gnu_preferred) {
                Some(i) => SelectionModel::Picked(rel.assets[i]),
                None => SelectionModel::NoMatch,
            }
        },
    }
}

/// Parses a release listing and selects the asset for the platform.
///
/// Errors say exactly why: the listing was unusable, the OS is
/// unsupported, or nothing matched. A match failure on a listing already
/// fetched is deterministic, so callers never retry it.
pub fn select_release_asset(
    name: &str,
    json: &str,
    os: &str,
    arch: &str,
    gnu_preferred: bool,
) -> (r: Result<ReleaseAsset, UserError>)
    ensures
        match r {
            Ok(a) => spec_release_selection(name@, json@, os@, arch@, gnu_preferred)
                == SelectionModel::Picked(a@),
            Err(e) => match e {
                UserError::GitHubApiError => spec_release_selection(
                    name@,
                    json@,
                    os@,
                    arch@,
                    gnu_preferred,
                ) == SelectionModel::NoJson || spec_release_selection(
                    name@,
                    json@,
                    os@,
                    arch@,
                    gnu_preferred,
                ) == SelectionModel::NoAssets,
                UserError::UnsupportedPlatform { name: n, os: o } => spec_release_selection(
                    name@,
                    json@,
                    os@,
                    arch@,
                    gnu_preferred,
                ) == SelectionModel::BadOs && n@ == name@ && o@ == os@,
                UserError::AssetNotFound { name: n, os: o, arch: ar } => spec_release_selection(
                    name@,
                    json@,
                    os@,
                    arch@,
                    gnu_preferred,
                ) == SelectionModel::NoMatch && n@ == name@ && o@ == os@ && ar@ == arch@,
                _ => false,
            },
        },
{
    let info = parse_release_json(json)?;
    if !info.has_assets {
        return Err(UserError::GitHubApiError);
    }
    find_best_asset_match(name, &info.assets, os, arch, gnu_preferred)
}

/// The outcome of looking up a release's source tarball.
pub enum TarballModel {
    /// The listing parsed and carries a tarball URL; the tag falls back to
    /// "source" where the listing has none.
    Got(Seq<char>, Seq<char>),
    /// The text was not JSON.
    NoJson,
    /// The listing carries no tarball URL.
    NoUrl,
}

/// The tarball lookup's result on a listing's text.
pub open spec fn spec_tarball_selection(json: Seq<char>) -> TarballModel {
    match release_of(json) {
        None => TarballModel::NoJson,
        Some(rel) => match rel.tarball_url {
            Some(url) => TarballModel::Got(
                url,
                match rel.tag_name {
                    Some(t) => t,
                    None => "source"@,
                },
            ),
            None => TarballModel::NoUrl,
        },
    }
}

/// Parses a release listing and takes its source-tarball URL, with the tag
/// name standing in as the download's display name.
pub fn select_source_tarball(json: &str) -> (r: Result<(String, String), UserError>)
    ensures
        match r {
            Ok(p) => spec_tarball_selection(json@) == TarballModel::Got(p.0@, p.1@),
            Err(e) => (spec_tarball_selection(json@) == TarballModel::NoJson
                || spec_tarball_selection(json@) == TarballModel::NoUrl) && e matches
                UserError::GitHubApiError,
        },
{
    let info = parse_release_json(json)?;
    match info.tarball_url {
        Some(url) => {
            let tag = match info.tag_name {
                Some(t) => t,
                None => "source".to_owned(),
            };
            Ok((url, tag))
        },
        None => Err(UserError::GitHubApiError),
    }
}

/// One formatted API path for a release lookup, relative to the API base:
/// the latest release, or a release by tag.
pub fn release_request_path(repo: &str, tag: Option<&String>) -> (r: String)
    ensures
        match tag {
            Some(t) => r@ == "/repos/"@ + repo@ + "/releases/tags/"@ + t@,
            None => r@ == "/repos/"@ + repo@ + "/releases/latest"@,
        },
{
    let mut s = "/repos/".to_owned();
    s.append(repo);
    match tag {
        Some(t) => {
            s.append("/releases/tags/");
            s.append(t.as_str());
        },
        None => {
            s.append("/releases/latest");
        },
    }
    s
}

} // verus!
