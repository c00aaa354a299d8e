//! The .NET build tool.

use vstd::prelude::*;
use vstd::string::*;
use crate::build_tool_manager::BuildToolManager;
use crate::build_tools::{
    remove_dirs, rule_list, status_from_dirs, BuildStatus, BuildTool, BuildToolKind,
    BuildToolProbe, Probe, CleanAction, Ephemeral, NameError, Rule, Tool, ToolTag, ToolView,
};
use crate::fs::{Directory, SubDir};
use crate::path::CanonicalPath;
use crate::text::{extension_is, has_extension, texts};

verus! {

/// Adds the probe for this tool to `manager`.
pub fn register(manager: &mut BuildToolManager)
    ensures
        final(manager)@ == old(manager)@.push(Probe::Dotnet(DotnetProbe)),
{
    manager.register(Probe::Dotnet(DotnetProbe {  }));
}

/// Whether a regular file with the extension `csproj` is directly inside.
pub open spec fn holds_csproj(dir: &Directory) -> bool {
    exists|i: int|
        0 <= i < dir.files@.len() && has_extension(#[trigger] texts(dir.files@)[i], "csproj"@)
}

/// Tells whether a regular file with the extension `csproj` is directly
/// inside.
pub fn has_csproj(dir: &Directory) -> (yes: bool)
    ensures
        yes == holds_csproj(dir),
{
    let mut i: usize = 0;
    while i < dir.files.len()
        invariant
            i <= dir.files.len(),
            forall|j: int| 0 <= j < i ==> !has_extension(#[trigger] texts(dir.files@)[j], "csproj"@),
        decreases dir.files.len() - i,
    {
        if extension_is(&dir.files[i], "csproj") {
            assert(has_extension(texts(dir.files@)[i as int], "csproj"@));
            return true;
        }
        i += 1;
    }
    false
}

/// Recognises a .NET project by a file with the extension `csproj`.
#[derive(Debug, Copy, Clone, PartialEq, Eq, Structural)]
pub struct DotnetProbe;

impl BuildToolProbe for DotnetProbe {
    open spec fn tag(&self) -> ToolTag {
        ToolTag::Dotnet
    }

    fn probe(&self, dir: &Directory) -> (tool: Option<Tool>) {
        if has_csproj(dir) {
            Some(Tool::Dotnet(Dotnet { dir: dir.path.duplicate() }))
        } else {
            None
        }
    }

    fn applies_to(&self, kind: BuildToolKind) -> (yes: bool) {
        match kind {
            BuildToolKind::Dotnet | BuildToolKind::Cs | BuildToolKind::Csharp => true,
            _ => false,
        }
    }
}

/// A .NET project.
#[derive(Debug, Clone, PartialEq, Eq)]
pub struct Dotnet {
    /// The project directory.
    pub dir: CanonicalPath,
}

/// What the .NET build tool regenerates: `bin` and `obj`.
pub open spec fn rules() -> Seq<Rule> {
    seq![Rule { name: "bin"@, only_if_ignored: false }, Rule { name: "obj"@, only_if_ignored: false }]
}

/// What the .NET build tool regenerates: `bin` and `obj`.
pub fn ephemeral_dirs() -> (dirs: Vec<Ephemeral>)
    ensures
        rule_list(dirs@) == rules(),
{
    let mut dirs: Vec<Ephemeral> = Vec::new();
    dirs.push(Ephemeral { name: String::from_str("bin"), only_if_ignored: false });
    dirs.push(Ephemeral { name: String::from_str("obj"), only_if_ignored: false });
    assert(rule_list(dirs@) =~= rules());
    dirs
}

impl BuildTool for Dotnet {
    open spec fn facts(&self) -> ToolView {
        ToolView { tag: ToolTag::Dotnet, dir: self.dir@, manifest_name: None }
    }

    fn ephemeral(&self) -> (rules: Option<Vec<Ephemeral>>) {
        Some(ephemeral_dirs())
    }

    fn clean_project(&self, subdirs: &Vec<SubDir>, dry_run: bool) -> (plan: Vec<CleanAction>) {
        remove_dirs(&self.dir, subdirs, &ephemeral_dirs(), dry_run)
    }

    fn status(&self, subdirs: &Vec<SubDir>) -> (status: BuildStatus) {
        status_from_dirs(subdirs, &ephemeral_dirs())
    }

    fn project_name(&self) -> (name: Option<Result<String, NameError>>) {
        None
    }

    fn label(&self) -> (s: String) {
        String::from_str("DOTNET")
    }
}

} // verus!
