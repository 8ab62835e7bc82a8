//! The declared tools: shell, prompt, directory jumper, history tool,
//! search tool and editor, each with its release repository, binary name,
//! install layout and behavior variant.

use vstd::prelude::*;

use crate::provision::{ToolSpec, ToolVariant};

verus! {

/// The fish shell: installed as a full archive under `fish_runtime`, with
/// its `share` data fetched from the source tarball when the platform
/// archive lacks it.
pub struct Fish;

impl Fish {
    pub fn name(&self) -> (r: &'static str)
        ensures
            r@ == "fish"@,
    {
        "fish"
    }

    pub fn repo(&self) -> (r: &'static str)
        ensures
            r@ == "fish-shell/fish-shell"@,
    {
        "fish-shell/fish-shell"
    }

    pub fn binary_name(&self) -> (r: &'static str)
        ensures
            r@ == "fish"@,
    {
        "fish"
    }

    /// The tool's immutable description.
    pub fn tool_spec(&self) -> (r: ToolSpec)
        ensures
            r.name@ == "fish"@,
            r.repo@ == "fish-shell/fish-shell"@,
            r.binary_name@ == "fish"@,
            r.install_dir@ == "fish_runtime"@,
            r.path_in_archive matches Some(p) && p@ == "bin/fish"@,
            r.variant == ToolVariant::RequiresAuxData,
    {
        ToolSpec {
            name: "fish".to_owned(),
            repo: "fish-shell/fish-shell".to_owned(),
            binary_name: "fish".to_owned(),
            install_dir: "fish_runtime".to_owned(),
            path_in_archive: Some("bin/fish".to_owned()),
            variant: ToolVariant::RequiresAuxData,
        }
    }
}

/// The starship prompt: a single release binary.
pub struct Starship;

impl Starship {
    pub fn name(&self) -> (r: &'static str)
        ensures
            r@ == "starship"@,
    {
        "starship"
    }

    pub fn repo(&self) -> (r: &'static str)
        ensures
            r@ == "starship/starship"@,
    {
        "starship/starship"
    }

    pub fn binary_name(&self) -> (r: &'static str)
        ensures
            r@ == "starship"@,
    {
        "starship"
    }

    /// The tool's immutable description.
    pub fn tool_spec(&self) -> (r: ToolSpec)
        ensures
            r.name@ == "starship"@,
            r.repo@ == "starship/starship"@,
            r.binary_name@ == "starship"@,
            r.install_dir@ == "starship"@,
            r.path_in_archive is None,
            r.variant == ToolVariant::Simple,
    {
        ToolSpec {
            name: "starship".to_owned(),
            repo: "starship/starship".to_owned(),
            binary_name: "starship".to_owned(),
            install_dir: "starship".to_owned(),
            path_in_archive: None,
            variant: ToolVariant::Simple,
        }
    }
}

/// The zoxide directory jumper: a single release binary.
pub struct Zoxide;

impl Zoxide {
    pub fn name(&self) -> (r: &'static str)
        ensures
            r@ == "zoxide"@,
    {
        "zoxide"
    }

    pub fn repo(&self) -> (r: &'static str)
        ensures
            r@ == "ajeetdsouza/zoxide"@,
    {
        "ajeetdsouza/zoxide"
    }

    pub fn binary_name(&self) -> (r: &'static str)
        ensures
            r@ == "zoxide"@,
    {
        "zoxide"
    }

    /// The tool's immutable description.
    pub fn tool_spec(&self) -> (r: ToolSpec)
        ensures
            r.name@ == "zoxide"@,
            r.repo@ == "ajeetdsouza/zoxide"@,
            r.binary_name@ == "zoxide"@,
            r.install_dir@ == "zoxide"@,
            r.path_in_archive is None,
            r.variant == ToolVariant::Simple,
    {
        ToolSpec {
            name: "zoxide".to_owned(),
            repo: "ajeetdsouza/zoxide".to_owned(),
            binary_name: "zoxide".to_owned(),
            install_dir: "zoxide".to_owned(),
            path_in_archive: None,
            variant: ToolVariant::Simple,
        }
    }
}

/// The atuin history tool: a single release binary.
pub struct Atuin;

impl Atuin {
    pub fn name(&self) -> (r: &'static str)
        ensures
            r@ == "atuin"@,
    {
        "atuin"
    }

    pub fn repo(&self) -> (r: &'static str)
        ensures
            r@ == "atuinsh/atuin"@,
    {
        "atuinsh/atuin"
    }

    pub fn binary_name(&self) -> (r: &'static str)
        ensures
            r@ == "atuin"@,
    {
        "atuin"
    }

    /// The tool's immutable description.
    pub fn tool_spec(&self) -> (r: ToolSpec)
        ensures
            r.name@ == "atuin"@,
            r.repo@ == "atuinsh/atuin"@,
            r.binary_name@ == "atuin"@,
            r.install_dir@ == "atuin"@,
            r.path_in_archive is None,
            r.variant == ToolVariant::Simple,
    {
        ToolSpec {
            name: "atuin".to_owned(),
            repo: "atuinsh/atuin".to_owned(),
            binary_name: "atuin".to_owned(),
            install_dir: "atuin".to_owned(),
            path_in_archive: None,
            variant: ToolVariant::Simple,
        }
    }
}

/// The ripgrep search tool: a single release binary named `rg`.
pub struct Ripgrep;

impl Ripgrep {
    pub fn name(&self) -> (r: &'static str)
        ensures
            r@ == "ripgrep"@,
    {
        "ripgrep"
    }

    pub fn repo(&self) -> (r: &'static str)
        ensures
            r@ == "BurntSushi/ripgrep"@,
    {
        "BurntSushi/ripgrep"
    }

    pub fn binary_name(&self) -> (r: &'static str)
        ensures
            r@ == "rg"@,
    {
        "rg"
    }

    /// The tool's immutable description.
    pub fn tool_spec(&self) -> (r: ToolSpec)
        ensures
            r.name@ == "ripgrep"@,
            r.repo@ == "BurntSushi/ripgrep"@,
            r.binary_name@ == "rg"@,
            r.install_dir@ == "ripgrep"@,
            r.path_in_archive is None,
            r.variant == ToolVariant::Simple,
    {
        ToolSpec {
            name: "ripgrep".to_owned(),
            repo: "BurntSushi/ripgrep".to_owned(),
            binary_name: "rg".to_owned(),
            install_dir: "ripgrep".to_owned(),
            path_in_archive: None,
            variant: ToolVariant::Simple,
        }
    }
}

/// The helix editor: installed as a full archive, its binary `hx` at the
/// archive root; when symlinked from the system, a missing user-global
/// runtime is fetched for the exact system version.
pub struct Helix;

impl Helix {
    pub fn name(&self) -> (r: &'static str)
        ensures
            r@ == "helix"@,
    {
        "helix"
    }

    pub fn repo(&self) -> (r: &'static str)
        ensures
            r@ == "helix-editor/helix"@,
    {
        "helix-editor/helix"
    }

    pub fn binary_name(&self) -> (r: &'static str)
        ensures
            r@ == "hx"@,
    {
        "hx"
    }

    pub fn path_in_archive(&self) -> (r: Option<&'static str>)
        ensures
            r matches Some(p) && p@ == "hx"@,
    {
        Some("hx")
    }

    /// The tool's immutable description.
    pub fn tool_spec(&self) -> (r: ToolSpec)
        ensures
            r.name@ == "helix"@,
            r.repo@ == "helix-editor/helix"@,
            r.binary_name@ == "hx"@,
            r.install_dir@ == "helix"@,
            r.path_in_archive matches Some(p) && p@ == "hx"@,
            r.variant == ToolVariant::VersionLockedRuntime,
    {
        ToolSpec {
            name: "helix".to_owned(),
            repo: "helix-editor/helix".to_owned(),
            binary_name: "hx".to_owned(),
            install_dir: "helix".to_owned(),
            path_in_archive: Some("hx".to_owned()),
            variant: ToolVariant::VersionLockedRuntime,
        }
    }
}

/// Every declared tool, in the order the environment provisions them.
pub fn declared_tools() -> (r: Vec<ToolSpec>)
    ensures
        r@.len() == 6,
        r@[0].name@ == "fish"@ && r@[0].variant == ToolVariant::RequiresAuxData,
        r@[1].name@ == "starship"@ && r@[1].variant == ToolVariant::Simple,
        r@[2].name@ == "zoxide"@ && r@[2].variant == ToolVariant::Simple,
        r@[3].name@ == "atuin"@ && r@[3].variant == ToolVariant::Simple,
        r@[4].name@ == "ripgrep"@ && r@[4].variant == ToolVariant::Simple,
        r@[5].name@ == "helix"@ && r@[5].variant == ToolVariant::VersionLockedRuntime,
{
    let mut v: Vec<ToolSpec> = Vec::new();
    v.push(Fish.tool_spec());
    v.push(Starship.tool_spec());
    v.push(Zoxide.tool_spec());
    v.push(Atuin.tool_spec());
    v.push(Ripgrep.tool_spec());
    v.push(Helix.tool_spec());
    v
}

} // verus!
