//! Elm.

use vstd::prelude::*;
use vstd::string::*;
use crate::build_tool_manager::BuildToolManager;
use crate::build_tools::{
    remove_dirs, rule_list, status_from_dirs, BuildStatus, BuildTool, BuildToolKind,
    BuildToolProbe, Probe, CleanAction, Ephemeral, NameError, Rule, Tool, ToolTag, ToolView,
};
use crate::fs::{Directory, SubDir};
use crate::path::CanonicalPath;

verus! {

/// Adds the probe for this tool to `manager`.
pub fn register(manager: &mut BuildToolManager)
    ensures
        final(manager)@ == old(manager)@.push(Probe::Elm(ElmProbe)),
{
    manager.register(Probe::Elm(ElmProbe {  }));
}

/// Recognises an Elm project by its `elm.json`.
#[derive(Debug, Copy, Clone, PartialEq, Eq, Structural)]
pub struct ElmProbe;

impl BuildToolProbe for ElmProbe {
    open spec fn tag(&self) -> ToolTag {
        ToolTag::Elm
    }

    fn probe(&self, dir: &Directory) -> (tool: Option<Tool>) {
        if dir.is_file("elm.json") {
            Some(Tool::Elm(Elm { dir: dir.path.duplicate() }))
        } else {
            None
        }
    }

    fn applies_to(&self, kind: BuildToolKind) -> (yes: bool) {
        match kind {
            BuildToolKind::Elm => true,
            _ => false,
        }
    }
}

/// An Elm project.
#[derive(Debug, Clone, PartialEq, Eq)]
pub struct Elm {
    /// The project directory.
    pub dir: CanonicalPath,
}

/// What Elm regenerates: `elm-stuff`.
pub open spec fn rules() -> Seq<Rule> {
    seq![Rule { name: "elm-stuff"@, only_if_ignored: false }]
}

/// What Elm regenerates: `elm-stuff`.
pub fn ephemeral_dirs() -> (dirs: Vec<Ephemeral>)
    ensures
        rule_list(dirs@) == rules(),
{
    let mut dirs: Vec<Ephemeral> = Vec::new();
    dirs.push(Ephemeral { name: String::from_str("elm-stuff"), only_if_ignored: false });
    assert(rule_list(dirs@) =~= rules());
    dirs
}

impl BuildTool for Elm {
    open spec fn facts(&self) -> ToolView {
        ToolView { tag: ToolTag::Elm, dir: self.dir@, manifest_name: None }
    }

    fn ephemeral(&self) -> (rules: Option<Vec<Ephemeral>>) {
        Some(ephemeral_dirs())
    }

    fn clean_project(&self, subdirs: &Vec<SubDir>, dry_run: bool) -> (plan: Vec<CleanAction>) {
        remove_dirs(&self.dir, subdirs, &ephemeral_dirs(), dry_run)
    }

    fn status(&self, subdirs: &Vec<SubDir>) -> (status: BuildStatus) {
        status_from_dirs(subdirs, &ephemeral_dirs())
    }

    fn project_name(&self) -> (name: Option<Result<String, NameError>>) {
        None
    }

    fn label(&self) -> (s: String) {
        String::from_str("Elm")
    }
}

} // verus!
