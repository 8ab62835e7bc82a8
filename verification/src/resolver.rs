//! Release resolver: selects the release asset that fits the host
//! platform by name-convention matching.
//!
//! An ordered list of OS-target tokens is built, most specific first; the
//! first asset whose lowercased file name contains the tool's base name,
//! the CPU architecture, the token and the archive extension — and that
//! carries a download URL — wins. The whole selection is a function of its
//! inputs; nothing here touches the network.

use vstd::prelude::*;

use crate::errors::UserError;
use crate::paths::{base_name, base_name_of};
use crate::text::{contains_chars, contains_seq, lower, lower_chars, str_to_chars};
use crate::codec::{clone_string, eq_chars};

verus! {

/// One downloadable file attached to a release: its file name and its
/// download URL. An asset whose URL is empty stands for one the release
/// listing carried without a usable URL; it is never selected.
#[derive(Debug, Clone)]
pub struct ReleaseAsset {
    pub name: String,
    pub url: String,
}

/// The mathematical model of a release asset.
pub struct AssetModel {
    pub name: Seq<char>,
    pub url: Seq<char>,
}

impl View for ReleaseAsset {
    type V = AssetModel;

    open spec fn view(&self) -> AssetModel {
        AssetModel { name: self.name@, url: self.url@ }
    }
}

/// The models of a vector of assets.
pub open spec fn asset_models(assets: Seq<ReleaseAsset>) -> Seq<AssetModel> {
    assets.map_values(|a: ReleaseAsset| a@)
}

/// Whether the GNU build is preferred on this host: true exactly when the
/// probed C-library version is known and at least 2.35, the minimum the
/// tools' GNU binaries are built against. An unknown version defaults to
/// the safer musl choice.
pub open spec fn spec_prefer_gnu(glibc: Option<(u32, u32)>) -> bool {
    match glibc {
        Some((major, minor)) => major > 2 || (major == 2 && minor >= 35),
        None => false,
    }
}

/// Computes the gnu-versus-musl preference from the probed C-library
/// version.
pub fn prefer_gnu(glibc: Option<(u32, u32)>) -> (r: bool)
    ensures
        r == spec_prefer_gnu(glibc),
{
    match glibc {
        Some((major, minor)) => major > 2 || (major == 2 && minor >= 35),
        None => false,
    }
}

/// The OS-target tokens tried on a linux-like host, most specific first.
/// Tools that ship one generic "linux" token get exactly that; otherwise
/// the preferred libc flavor comes first.
pub open spec fn linux_like_targets(name: Seq<char>, gnu_preferred: bool) -> Seq<Seq<char>> {
    if name == "fish"@ || name == "helix"@ {
        seq!["linux"@]
    } else if gnu_preferred {
        seq!["unknown-linux-gnu"@, "unknown-linux-musl"@]
    } else {
        seq!["unknown-linux-musl"@, "unknown-linux-gnu"@]
    }
}

/// The ordered OS-target token list for a host OS; `None` when the OS is
/// unsupported. Android carries no glibc, so musl is preferred there.
pub open spec fn os_targets(name: Seq<char>, os: Seq<char>, gnu_preferred: bool) -> Option<
    Seq<Seq<char>>,
> {
    if os == "linux"@ {
        Some(linux_like_targets(name, gnu_preferred))
    } else if os == "android"@ {
        Some(linux_like_targets(name, false))
    } else if os == "macos"@ {
        Some(seq!["apple-darwin"@])
    } else if os == "windows"@ {
        Some(seq!["pc-windows-msvc"@])
    } else {
        None
    }
}

/// The archive extension expected for a tool on a host OS, with the
/// per-tool overrides.
pub open spec fn archive_ext(name: Seq<char>, os: Seq<char>) -> Seq<char> {
    if os == "windows"@ {
        "zip"@
    } else if name == "helix"@ && os == "linux"@ {
        "tar.xz"@
    } else if name == "helix"@ && os == "macos"@ {
        "zip"@
    } else if name == "fish"@ {
        "tar.xz"@
    } else {
        "tar.gz"@
    }
}

/// An asset name matches when its lowercased form contains all four
/// fragments: the tool's base name, the architecture, the OS target token
/// and the extension, each lowercased. Lowercasing is ASCII-only: released
/// asset names and the fragments are ASCII, and a non-ASCII character
/// passes through unchanged rather than going through full case folding.
pub open spec fn asset_matches(
    asset_name: Seq<char>,
    name: Seq<char>,
    arch: Seq<char>,
    target: Seq<char>,
    ext: Seq<char>,
) -> bool {
    let l = lower(asset_name);
    &&& contains_seq(l, lower(base_name(name)))
    &&& contains_seq(l, lower(arch))
    &&& contains_seq(l, lower(target))
    &&& contains_seq(l, lower(ext))
}

/// An asset is selectable for a target when its name matches and it
/// carries a download URL.
pub open spec fn selectable(
    a: AssetModel,
    name: Seq<char>,
    arch: Seq<char>,
    target: Seq<char>,
    ext: Seq<char>,
) -> bool {
    asset_matches(a.name, name, arch, target, ext) && a.url.len() > 0
}

/// Index of the first selectable asset for one target token.
pub open spec fn first_match(
    assets: Seq<AssetModel>,
    name: Seq<char>,
    arch: Seq<char>,
    target: Seq<char>,
    ext: Seq<char>,
) -> Option<int>
    decreases assets.len(),
{
    if assets.len() == 0 {
        None
    } else if selectable(assets[0], name, arch, target, ext) {
        Some(0int)
    } else {
        match first_match(assets.drop_first(), name, arch, target, ext) {
            Some(i) => Some(i + 1),
            None => None,
        }
    }
}

/// `first_match` returns the least index of a selectable asset, and `None`
/// exactly when no asset is selectable.
pub proof fn lemma_first_match(
    assets: Seq<AssetModel>,
    name: Seq<char>,
    arch: Seq<char>,
    target: Seq<char>,
    ext: Seq<char>,
)
    ensures
        match first_match(assets, name, arch, target, ext) {
            Some(i) => 0 <= i < assets.len() && selectable(assets[i], name, arch, target, ext)
                && forall|j: int|
                0 <= j < i ==> !selectable(#[trigger] assets[j], name, arch, target, ext),
            None => forall|j: int|
                0 <= j < assets.len() ==> !selectable(
                    #[trigger] assets[j],
                    name,
                    arch,
                    target,
                    ext,
                ),
        },
    decreases assets.len(),
{
    if assets.len() == 0 {
    } else if selectable(assets[0], name, arch, target, ext) {
    } else {
        let rest = assets.drop_first();
        lemma_first_match(rest, name, arch, target, ext);
        assert forall|j: int| 1 <= j < assets.len() implies assets[j] == #[trigger] rest[j - 1]
        by {}
        match first_match(rest, name, arch, target, ext) {
            Some(i) => {
                assert(assets[i + 1] == rest[i]);
                assert forall|j: int| 0 <= j < i + 1 implies !selectable(
                    #[trigger] assets[j],
                    name,
                    arch,
                    target,
                    ext,
                ) by {
                    if j >= 1 {
                        assert(assets[j] == rest[j - 1]);
                    }
                }
            },
            None => {
                assert forall|j: int| 0 <= j < assets.len() implies !selectable(
                    #[trigger] assets[j],
                    name,
                    arch,
                    target,
                    ext,
                ) by {
                    if j >= 1 {
                        assert(assets[j] == rest[j - 1]);
                    }
                }
            },
        }
    }
}

/// Index of the selected asset: targets are tried in order, and the first
/// target with a selectable asset decides.
pub open spec fn select_for_targets(
    assets: Seq<AssetModel>,
    name: Seq<char>,
    arch: Seq<char>,
    targets: Seq<Seq<char>>,
    ext: Seq<char>,
) -> Option<int>
    decreases targets.len(),
{
    if targets.len() == 0 {
        None
    } else {
        match first_match(assets, name, arch, targets[0], ext) {
            Some(i) => Some(i),
            None => select_for_targets(assets, name, arch, targets.drop_first(), ext),
        }
    }
}

/// When every target before `t` has no selectable asset, selection over the
/// whole target list equals selection over the rest.
pub proof fn lemma_select_skip(
    assets: Seq<AssetModel>,
    name: Seq<char>,
    arch: Seq<char>,
    targets: Seq<Seq<char>>,
    ext: Seq<char>,
    t: int,
)
    requires
        0 <= t <= targets.len(),
        forall|u: int|
            0 <= u < t ==> first_match(assets, name, arch, #[trigger] targets[u], ext) is None,
    ensures
        select_for_targets(assets, name, arch, targets, ext) == select_for_targets(
            assets,
            name,
            arch,
            targets.skip(t),
            ext,
        ),
    decreases t,
{
    if t == 0 {
        assert(targets.skip(0) =~= targets);
    } else {
        lemma_select_skip(assets, name, arch, targets, ext, t - 1);
        let rest = targets.skip(t - 1);
        assert(rest[0] == targets[t - 1]);
        assert(first_match(assets, name, arch, rest[0], ext) is None);
        assert(rest.drop_first() =~= targets.skip(t));
    }
}

/// What selection means: a selected index is the first selectable asset of
/// some target token, every earlier token having none; `None` means no
/// token has a selectable asset.
pub proof fn lemma_select_characterization(
    assets: Seq<AssetModel>,
    name: Seq<char>,
    arch: Seq<char>,
    targets: Seq<Seq<char>>,
    ext: Seq<char>,
)
    ensures
        match select_for_targets(assets, name, arch, targets, ext) {
            Some(i) => 0 <= i < assets.len() && exists|t: int|
                {
                    &&& 0 <= t < targets.len()
                    &&& first_match(assets, name, arch, #[trigger] targets[t], ext) == Some(i)
                    &&& selectable(assets[i], name, arch, targets[t], ext)
                },
            None => forall|t: int|
                0 <= t < targets.len() ==> first_match(assets, name, arch, #[trigger] targets[t], ext)
                    is None,
        },
    decreases targets.len(),
{
    if targets.len() > 0 {
        lemma_first_match(assets, name, arch, targets[0], ext);
        let rest = targets.drop_first();
        lemma_select_characterization(assets, name, arch, rest, ext);
        match first_match(assets, name, arch, targets[0], ext) {
            Some(i) => {
                assert(first_match(assets, name, arch, targets[0], ext) == Some(i));
            },
            None => {
                match select_for_targets(assets, name, arch, rest, ext) {
                    Some(i) => {
                        let t = choose|t: int|
                            {
                                &&& 0 <= t < rest.len()
                                &&& first_match(assets, name, arch, #[trigger] rest[t], ext)
                                    == Some(i)
                                &&& selectable(assets[i], name, arch, rest[t], ext)
                            };
                        assert(rest[t] == targets[t + 1]);
                    },
                    None => {
                        assert forall|t: int| 0 <= t < targets.len() implies first_match(
                            assets,
                            name,
                            arch,
                            #[trigger] targets[t],
                            ext,
                        ) is None by {
                            if t >= 1 {
                                assert(targets[t] == rest[t - 1]);
                            }
                        }
                    },
                }
            },
        }
    }
}

/// The selection, as a function of the inputs alone; `None` both when the
/// OS is unsupported and when no asset matches.
pub open spec fn spec_best_asset(
    name: Seq<char>,
    assets: Seq<AssetModel>,
    os: Seq<char>,
    arch: Seq<char>,
    gnu_preferred: bool,
) -> Option<int> {
    match os_targets(name, os, gnu_preferred) {
        Some(targets) => select_for_targets(assets, name, arch, targets, archive_ext(name, os)),
        None => None,
    }
}

/// Asset matching is deterministic: the same assets list, OS, architecture,
/// tool name and libc preference always select the same asset.
pub proof fn lemma_asset_matching_deterministic(
    name: Seq<char>,
    assets: Seq<AssetModel>,
    os: Seq<char>,
    arch: Seq<char>,
    gnu_preferred: bool,
    r1: Option<int>,
    r2: Option<int>,
)
    requires
        r1 == spec_best_asset(name, assets, os, arch, gnu_preferred),
        r2 == spec_best_asset(name, assets, os, arch, gnu_preferred),
    ensures
        r1 == r2,
{
}

/// The views of a vector of character vectors.
pub open spec fn views_of(v: Seq<Vec<char>>) -> Seq<Seq<char>> {
    v.map_values(|t: Vec<char>| t@)
}

/// Builds the linux-like target token list.
fn linux_like_targets_exec(name_chars: &Vec<char>, gnu_preferred: bool) -> (r: Vec<Vec<char>>)
    ensures
        views_of(r@) == linux_like_targets(name_chars@, gnu_preferred),
{
    let fish = str_to_chars("fish");
    let helix = str_to_chars("helix");
    let mut v: Vec<Vec<char>> = Vec::new();
    if eq_chars(name_chars, &fish) || eq_chars(name_chars, &helix) {
        v.push(str_to_chars("linux"));
        proof {
            assert(views_of(v@) =~= seq!["linux"@]);
        }
    } else if gnu_preferred {
        v.push(str_to_chars("unknown-linux-gnu"));
        v.push(str_to_chars("unknown-linux-musl"));
        proof {
            assert(views_of(v@) =~= seq!["unknown-linux-gnu"@, "unknown-linux-musl"@]);
        }
    } else {
        v.push(str_to_chars("unknown-linux-musl"));
        v.push(str_to_chars("unknown-linux-gnu"));
        proof {
            assert(views_of(v@) =~= seq!["unknown-linux-musl"@, "unknown-linux-gnu"@]);
        }
    }
    v
}

/// Builds the ordered target token list for a host OS.
fn targets_for(name_chars: &Vec<char>, os_chars: &Vec<char>, gnu_preferred: bool) -> (r: Option<
    Vec<Vec<char>>,
>)
    ensures
        match r {
            Some(v) => os_targets(name_chars@, os_chars@, gnu_preferred) == Some(views_of(v@)),
            None => os_targets(name_chars@, os_chars@, gnu_preferred) is None,
        },
{
    let linux = str_to_chars("linux");
    let android = str_to_chars("android");
    let macos = str_to_chars("macos");
    let windows = str_to_chars("windows");
    if eq_chars(os_chars, &linux) {
        Some(linux_like_targets_exec(name_chars, gnu_preferred))
    } else if eq_chars(os_chars, &android) {
        Some(linux_like_targets_exec(name_chars, false))
    } else if eq_chars(os_chars, &macos) {
        let mut v: Vec<Vec<char>> = Vec::new();
        v.push(str_to_chars("apple-darwin"));
        proof {
            assert(views_of(v@) =~= seq!["apple-darwin"@]);
        }
        Some(v)
    } else if eq_chars(os_chars, &windows) {
        let mut v: Vec<Vec<char>> = Vec::new();
        v.push(str_to_chars("pc-windows-msvc"));
        proof {
            assert(views_of(v@) =~= seq!["pc-windows-msvc"@]);
        }
        Some(v)
    } else {
        None
    }
}

/// The archive extension for a tool on a host OS.
fn ext_for(name_chars: &Vec<char>, os_chars: &Vec<char>) -> (r: Vec<char>)
    ensures
        r@ == archive_ext(name_chars@, os_chars@),
{
    let windows = str_to_chars("windows");
    if eq_chars(os_chars, &windows) {
        return str_to_chars("zip");
    }
    let helix = str_to_chars("helix");
    let linux = str_to_chars("linux");
    let macos = str_to_chars("macos");
    let fish = str_to_chars("fish");
    if eq_chars(name_chars, &helix) && eq_chars(os_chars, &linux) {
        str_to_chars("tar.xz")
    } else if eq_chars(name_chars, &helix) && eq_chars(os_chars, &macos) {
        str_to_chars("zip")
    } else if eq_chars(name_chars, &fish) {
        str_to_chars("tar.xz")
    } else {
        str_to_chars("tar.gz")
    }
}

/// The core asset-matching logic: selects the asset whose lowercased name
/// contains the tool's base name, the architecture, the best OS-target
/// token and the expected extension. Deterministic in all of its inputs.
pub fn find_best_asset_match(
    name: &str,
    assets: &Vec<ReleaseAsset>,
    os: &str,
    arch: &str,
    gnu_preferred: bool,
) -> (r: Result<ReleaseAsset, UserError>)
    ensures
        match r {
            Ok(a) => ({
                let sel = spec_best_asset(name@, asset_models(assets@), os@, arch@, gnu_preferred);
                sel is Some && a@ == asset_models(assets@)[sel->Some_0]
            }),
            Err(e) => match e {
                UserError::UnsupportedPlatform { name: n, os: o } => os_targets(
                    name@,
                    os@,
                    gnu_preferred,
                ) is None && n@ == name@ && o@ == os@,
                UserError::AssetNotFound { name: n, os: o, arch: ar } => os_targets(
                    name@,
                    os@,
                    gnu_preferred,
                ) is Some && spec_best_asset(
                    name@,
                    asset_models(assets@),
                    os@,
                    arch@,
                    gnu_preferred,
                ) is None && n@ == name@ && o@ == os@ && ar@ == arch@,
                _ => false,
            },
        },
{
    let name_chars = str_to_chars(name);
    let os_chars = str_to_chars(os);
    let arch_chars = str_to_chars(arch);
    let targets = match targets_for(&name_chars, &os_chars, gnu_preferred) {
        Some(t) => t,
        None => {
            return Err(
                UserError::UnsupportedPlatform { name: name.to_owned(), os: os.to_owned() },
            );
        },
    };
    let ext = ext_for(&name_chars, &os_chars);
    let name_frag = lower_chars(&base_name_of(&name_chars));
    let arch_frag = lower_chars(&arch_chars);
    let ext_frag = lower_chars(&ext);
    let ghost tviews = views_of(targets@);
    let ghost ms = asset_models(assets@);
    let nt = targets.len();
    for ti in 0..nt
        invariant
            nt == targets@.len(),
            tviews == views_of(targets@),
            ms == asset_models(assets@),
            os_targets(name@, os@, gnu_preferred) == Some(tviews),
            ext@ == archive_ext(name@, os@),
            name_chars@ == name@,
            arch_chars@ == arch@,
            name_frag@ == lower(base_name(name@)),
            arch_frag@ == lower(arch@),
            ext_frag@ == lower(ext@),
            forall|u: int| 0 <= u < ti ==> first_match(ms, name@, arch@, #[trigger] tviews[u], ext@)
                is None,
    {
        let target_frag = lower_chars(&targets[ti]);
        proof {
            assert(tviews[ti as int] == targets@[ti as int]@);
        }
        match match_target(
            assets,
            &name_frag,
            &arch_frag,
            &target_frag,
            &ext_frag,
            Ghost(name@),
            Ghost(arch@),
            Ghost(tviews[ti as int]),
            Ghost(ext@),
        ) {
            Some(i) => {
                proof {
                    lemma_select_skip(ms, name@, arch@, tviews, ext@, ti as int);
                    assert(tviews.skip(ti as int)[0] == tviews[ti as int]);
                    assert(select_for_targets(ms, name@, arch@, tviews, ext@) == Some(i as int));
                    lemma_first_match(ms, name@, arch@, tviews[ti as int], ext@);
                    assert(ms[i as int] == assets@[i as int]@);
                }
                let a = &assets[i];
                return Ok(ReleaseAsset { name: clone_string(&a.name), url: clone_string(&a.url) });
            },
            None => {},
        }
    }
    proof {
        lemma_select_skip(ms, name@, arch@, tviews, ext@, nt as int);
        assert(tviews.skip(nt as int) =~= Seq::<Seq<char>>::empty());
    }
    Err(
        UserError::AssetNotFound {
            name: name.to_owned(),
            os: os.to_owned(),
            arch: arch.to_owned(),
        },
    )
}

/// Whether one asset is selectable, checked on lowered fragment vectors.
fn asset_selectable(
    asset: &ReleaseAsset,
    name_frag: &Vec<char>,
    arch_frag: &Vec<char>,
    target_frag: &Vec<char>,
    ext_frag: &Vec<char>,
    Ghost(name): Ghost<Seq<char>>,
    Ghost(arch): Ghost<Seq<char>>,
    Ghost(target): Ghost<Seq<char>>,
    Ghost(ext): Ghost<Seq<char>>,
) -> (r: bool)
    requires
        name_frag@ == lower(base_name(name)),
        arch_frag@ == lower(arch),
        target_frag@ == lower(target),
        ext_frag@ == lower(ext),
    ensures
        r == selectable(asset@, name, arch, target, ext),
{
    let asset_chars = str_to_chars(asset.name.as_str());
    let lowered = lower_chars(&asset_chars);
    contains_chars(&lowered, name_frag) && contains_chars(&lowered, arch_frag) && contains_chars(
        &lowered,
        target_frag,
    ) && contains_chars(&lowered, ext_frag) && !asset.url.as_str().is_empty()
}

/// Scans the asset list once for one target token.
fn match_target(
    assets: &Vec<ReleaseAsset>,
    name_frag: &Vec<char>,
    arch_frag: &Vec<char>,
    target_frag: &Vec<char>,
    ext_frag: &Vec<char>,
    Ghost(name): Ghost<Seq<char>>,
    Ghost(arch): Ghost<Seq<char>>,
    Ghost(target): Ghost<Seq<char>>,
    Ghost(ext): Ghost<Seq<char>>,
) -> (r: Option<usize>)
    requires
        name_frag@ == lower(base_name(name)),
        arch_frag@ == lower(arch),
        target_frag@ == lower(target),
        ext_frag@ == lower(ext),
    ensures
        match r {
            Some(i) => first_match(asset_models(assets@), name, arch, target, ext) == Some(
                i as int,
            ),
            None => first_match(asset_models(assets@), name, arch, target, ext) is None,
        },
{
    proof {
        lemma_first_match(asset_models(assets@), name, arch, target, ext);
    }
    let n = assets.len();
    for i in 0..n
        invariant
            n == assets@.len(),
            name_frag@ == lower(base_name(name)),
            arch_frag@ == lower(arch),
            target_frag@ == lower(target),
            ext_frag@ == lower(ext),
            forall|j: int|
                0 <= j < i ==> !selectable(
                    #[trigger] asset_models(assets@)[j],
                    name,
                    arch,
                    target,
                    ext,
                ),
            match first_match(asset_models(assets@), name, arch, target, ext) {
                Some(k) => 0 <= k < assets@.len() && selectable(
                    asset_models(assets@)[k],
                    name,
                    arch,
                    target,
                    ext,
                ) && forall|j: int|
                    0 <= j < k ==> !selectable(
                        #[trigger] asset_models(assets@)[j],
                        name,
                        arch,
                        target,
                        ext,
                    ),
                None => forall|j: int|
                    0 <= j < assets@.len() ==> !selectable(
                        #[trigger] asset_models(assets@)[j],
                        name,
                        arch,
                        target,
                        ext,
                    ),
            },
    {
        proof {
            assert(asset_models(assets@)[i as int] == assets@[i as int]@);
        }
        if asset_selectable(
            &assets[i],
            name_frag,
            arch_frag,
            target_frag,
            ext_frag,
            Ghost(name),
            Ghost(arch),
            Ghost(target),
            Ghost(ext),
        ) {
            return Some(i);
        }
    }
    None
}

} // verus!
