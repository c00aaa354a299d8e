//! Cargo, the build tool of Rust.

use vstd::prelude::*;
use vstd::string::*;
use crate::build_tool_manager::BuildToolManager;
use crate::build_tools::{
    clone_option, manifest_name, remove_dirs, rule_list, status_from_dirs, BuildStatus, BuildTool,
    BuildToolKind, BuildToolProbe, Probe, CleanAction, Ephemeral, NameError, Rule, Tool, ToolTag,
    ToolView, option_text,
};
use crate::fs::{Directory, SubDir};
use crate::path::CanonicalPath;

verus! {

/// Adds the probe for this tool to `manager`.
pub fn register(manager: &mut BuildToolManager)
    ensures
        final(manager)@ == old(manager)@.push(Probe::Cargo(CargoProbe)),
{
    manager.register(Probe::Cargo(CargoProbe {  }));
}

/// Recognises a Cargo project by its `Cargo.toml`.
#[derive(Debug, Copy, Clone, PartialEq, Eq, Structural)]
pub struct CargoProbe;

impl BuildToolProbe for CargoProbe {
    open spec fn tag(&self) -> ToolTag {
        ToolTag::Cargo
    }

    fn probe(&self, dir: &Directory) -> (tool: Option<Tool>) {
        if dir.is_file("Cargo.toml") {
            Some(
                Tool::Cargo(
                    Cargo { dir: dir.path.duplicate(), package_name: clone_option(&dir.cargo_package) },
                ),
            )
        } else {
            None
        }
    }

    fn applies_to(&self, kind: BuildToolKind) -> (yes: bool) {
        match kind {
            BuildToolKind::Cargo | BuildToolKind::Rust | BuildToolKind::Rs => true,
            _ => false,
        }
    }
}

/// A Cargo project.
#[derive(Debug, Clone, PartialEq, Eq)]
pub struct Cargo {
    /// The project directory.
    pub dir: CanonicalPath,
    /// The package name that `Cargo.toml` declares, where it declares one.
    pub package_name: Option<String>,
}

/// What Cargo regenerates: `target`.
pub open spec fn rules() -> Seq<Rule> {
    seq![Rule { name: "target"@, only_if_ignored: false }]
}

/// What Cargo regenerates.
pub fn ephemeral_dirs() -> (dirs: Vec<Ephemeral>)
    ensures
        rule_list(dirs@) == rules(),
{
    let mut dirs: Vec<Ephemeral> = Vec::new();
    dirs.push(Ephemeral { name: String::from_str("target"), only_if_ignored: false });
    assert(rule_list(dirs@) =~= rules());
    dirs
}

impl BuildTool for Cargo {
    open spec fn facts(&self) -> ToolView {
        ToolView {
            tag: ToolTag::Cargo,
            dir: self.dir@,
            manifest_name: option_text(self.package_name),
        }
    }

    fn ephemeral(&self) -> (rules: Option<Vec<Ephemeral>>) {
        Some(ephemeral_dirs())
    }

    // `cargo clean` deletes the whole target directory; removing it directly
    // has the same effect and works where Cargo is not installed.
    fn clean_project(&self, subdirs: &Vec<SubDir>, dry_run: bool) -> (plan: Vec<CleanAction>) {
        remove_dirs(&self.dir, subdirs, &ephemeral_dirs(), dry_run)
    }

    fn status(&self, subdirs: &Vec<SubDir>) -> (status: BuildStatus) {
        status_from_dirs(subdirs, &ephemeral_dirs())
    }

    fn project_name(&self) -> (name: Option<Result<String, NameError>>) {
        manifest_name(&self.package_name)
    }

    fn label(&self) -> (s: String) {
        String::from_str("Cargo")
    }
}

} // verus!
