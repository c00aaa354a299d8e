//! NPM.

use vstd::prelude::*;
use vstd::string::*;
use crate::build_tool_manager::BuildToolManager;
use crate::build_tools::{
    remove_dirs, rule_list, status_from_dirs, BuildStatus, BuildTool, BuildToolKind,
    BuildToolProbe, Probe, CleanAction, Ephemeral, NameError, Rule, Tool, ToolTag, ToolView,
};
use crate::fs::{Directory, SubDir};
use crate::path::CanonicalPath;

verus! {

/// Adds the probe for this tool to `manager`.
pub fn register(manager: &mut BuildToolManager)
    ensures
        final(manager)@ == old(manager)@.push(Probe::Npm(NpmProbe)),
{
    manager.register(Probe::Npm(NpmProbe {  }));
}

/// Recognises an NPM project by its `package.json`, unless the directory
/// is below a `node_modules` directory: what is there is a dependency of
/// another project.
#[derive(Debug, Copy, Clone, PartialEq, Eq, Structural)]
pub struct NpmProbe;

impl BuildToolProbe for NpmProbe {
    open spec fn tag(&self) -> ToolTag {
        ToolTag::Npm
    }

    fn probe(&self, dir: &Directory) -> (tool: Option<Tool>) {
        if !dir.path.has_component("node_modules") && dir.is_file("package.json") {
            Some(Tool::Npm(Npm { dir: dir.path.duplicate() }))
        } else {
            None
        }
    }

    fn applies_to(&self, kind: BuildToolKind) -> (yes: bool) {
        match kind {
            BuildToolKind::Npm => true,
            _ => false,
        }
    }
}

/// An NPM project.
#[derive(Debug, Clone, PartialEq, Eq)]
pub struct Npm {
    /// The project directory.
    pub dir: CanonicalPath,
}

/// What NPM regenerates: `node_modules`.
pub open spec fn rules() -> Seq<Rule> {
    seq![Rule { name: "node_modules"@, only_if_ignored: false }]
}

/// What NPM regenerates: `node_modules`.
pub fn ephemeral_dirs() -> (dirs: Vec<Ephemeral>)
    ensures
        rule_list(dirs@) == rules(),
{
    let mut dirs: Vec<Ephemeral> = Vec::new();
    dirs.push(Ephemeral { name: String::from_str("node_modules"), only_if_ignored: false });
    assert(rule_list(dirs@) =~= rules());
    dirs
}

impl BuildTool for Npm {
    open spec fn facts(&self) -> ToolView {
        ToolView { tag: ToolTag::Npm, dir: self.dir@, manifest_name: None }
    }

    fn ephemeral(&self) -> (rules: Option<Vec<Ephemeral>>) {
        Some(ephemeral_dirs())
    }

    fn clean_project(&self, subdirs: &Vec<SubDir>, dry_run: bool) -> (plan: Vec<CleanAction>) {
        remove_dirs(&self.dir, subdirs, &ephemeral_dirs(), dry_run)
    }

    fn status(&self, subdirs: &Vec<SubDir>) -> (status: BuildStatus) {
        status_from_dirs(subdirs, &ephemeral_dirs())
    }

    fn project_name(&self) -> (name: Option<Result<String, NameError>>) {
        None
    }

    fn label(&self) -> (s: String) {
        String::from_str("NPM")
    }
}

} // verus!
