//! Gradle.

use vstd::prelude::*;
use vstd::string::*;
use crate::build_tool_manager::BuildToolManager;
use crate::build_tools::{
    remove_dirs, rule_list, status_from_dirs, BuildStatus, BuildTool, BuildToolKind,
    BuildToolProbe, Probe, CleanAction, Ephemeral, NameError, Rule, Tool, ToolTag, ToolView,
};
use crate::fs::{Directory, SubDir};
use crate::path::CanonicalPath;

verus! {

/// Adds the probe for this tool to `manager`.
pub fn register(manager: &mut BuildToolManager)
    ensures
        final(manager)@ == old(manager)@.push(Probe::Gradle(GradleProbe)),
{
    manager.register(Probe::Gradle(GradleProbe {  }));
}

/// Recognises a Gradle project by `build.gradle` together with
/// `settings.gradle`.
#[derive(Debug, Copy, Clone, PartialEq, Eq, Structural)]
pub struct GradleProbe;

impl BuildToolProbe for GradleProbe {
    open spec fn tag(&self) -> ToolTag {
        ToolTag::Gradle
    }

    fn probe(&self, dir: &Directory) -> (tool: Option<Tool>) {
        if dir.is_file("build.gradle") && dir.is_file("settings.gradle") {
            Some(Tool::Gradle(Gradle { dir: dir.path.duplicate() }))
        } else {
            None
        }
    }

    fn applies_to(&self, kind: BuildToolKind) -> (yes: bool) {
        match kind {
            BuildToolKind::Gradle => true,
            _ => false,
        }
    }
}

/// A Gradle project.
#[derive(Debug, Clone, PartialEq, Eq)]
pub struct Gradle {
    /// The project directory.
    pub dir: CanonicalPath,
}

/// What Gradle regenerates: `build`, the default build directory.
pub open spec fn rules() -> Seq<Rule> {
    seq![Rule { name: "build"@, only_if_ignored: false }]
}

/// What Gradle regenerates: `build`, the default build directory.
pub fn ephemeral_dirs() -> (dirs: Vec<Ephemeral>)
    ensures
        rule_list(dirs@) == rules(),
{
    let mut dirs: Vec<Ephemeral> = Vec::new();
    dirs.push(Ephemeral { name: String::from_str("build"), only_if_ignored: false });
    assert(rule_list(dirs@) =~= rules());
    dirs
}

impl BuildTool for Gradle {
    open spec fn facts(&self) -> ToolView {
        ToolView { tag: ToolTag::Gradle, dir: self.dir@, manifest_name: None }
    }

    fn ephemeral(&self) -> (rules: Option<Vec<Ephemeral>>) {
        Some(ephemeral_dirs())
    }

    // The clean task removes the build directory, which is `build` unless a
    // project says otherwise; what it says cannot be known without running
    // Gradle.
    fn clean_project(&self, subdirs: &Vec<SubDir>, dry_run: bool) -> (plan: Vec<CleanAction>) {
        remove_dirs(&self.dir, subdirs, &ephemeral_dirs(), dry_run)
    }

    fn status(&self, subdirs: &Vec<SubDir>) -> (status: BuildStatus) {
        status_from_dirs(subdirs, &ephemeral_dirs())
    }

    fn project_name(&self) -> (name: Option<Result<String, NameError>>) {
        None
    }

    fn label(&self) -> (s: String) {
        String::from_str("Gradle")
    }
}

} // verus!
