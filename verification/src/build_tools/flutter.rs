//! Flutter.

use vstd::prelude::*;
use vstd::string::*;
use crate::build_tool_manager::BuildToolManager;
use crate::build_tools::{
    clone_option, manifest_name, option_text, remove_dirs, rule_list, status_from_dirs,
    BuildStatus, BuildTool, BuildToolKind, BuildToolProbe, Probe, CleanAction, Ephemeral, NameError,
    Rule, Tool, ToolTag, ToolView,
};
use crate::fs::{Directory, SubDir};
use crate::path::CanonicalPath;

verus! {

/// Adds the probe for this tool to `manager`.
pub fn register(manager: &mut BuildToolManager)
    ensures
        final(manager)@ == old(manager)@.push(Probe::Flutter(FlutterProbe)),
{
    manager.register(Probe::Flutter(FlutterProbe {  }));
}

/// Recognises a Flutter project by a `pubspec.yaml` that holds a name, a
/// version and a `flutter` entry.
#[derive(Debug, Copy, Clone, PartialEq, Eq, Structural)]
pub struct FlutterProbe;

impl BuildToolProbe for FlutterProbe {
    open spec fn tag(&self) -> ToolTag {
        ToolTag::Flutter
    }

    fn probe(&self, dir: &Directory) -> (tool: Option<Tool>) {
        if dir.pubspec_name.is_some() {
            Some(
                Tool::Flutter(
                    Flutter { dir: dir.path.duplicate(), pubspec_name: clone_option(&dir.pubspec_name) },
                ),
            )
        } else {
            None
        }
    }

    fn applies_to(&self, kind: BuildToolKind) -> (yes: bool) {
        match kind {
            BuildToolKind::Flutter => true,
            _ => false,
        }
    }
}

/// A Flutter project.
#[derive(Debug, Clone, PartialEq, Eq)]
pub struct Flutter {
    /// The project directory.
    pub dir: CanonicalPath,
    /// The name that `pubspec.yaml` declares.
    pub pubspec_name: Option<String>,
}

/// What Flutter regenerates: `build` and `.dart_tool`.
pub open spec fn rules() -> Seq<Rule> {
    seq![
        Rule { name: "build"@, only_if_ignored: false },
        Rule { name: ".dart_tool"@, only_if_ignored: false },
    ]
}

/// What Flutter regenerates: `build` and `.dart_tool`.
pub fn ephemeral_dirs() -> (dirs: Vec<Ephemeral>)
    ensures
        rule_list(dirs@) == rules(),
{
    let mut dirs: Vec<Ephemeral> = Vec::new();
    dirs.push(Ephemeral { name: String::from_str("build"), only_if_ignored: false });
    dirs.push(Ephemeral { name: String::from_str(".dart_tool"), only_if_ignored: false });
    assert(rule_list(dirs@) =~= rules());
    dirs
}

impl BuildTool for Flutter {
    open spec fn facts(&self) -> ToolView {
        ToolView {
            tag: ToolTag::Flutter,
            dir: self.dir@,
            manifest_name: option_text(self.pubspec_name),
        }
    }

    fn ephemeral(&self) -> (rules: Option<Vec<Ephemeral>>) {
        Some(ephemeral_dirs())
    }

    // `flutter clean` deletes these two directories; removing them directly
    // works where Flutter is not installed.
    fn clean_project(&self, subdirs: &Vec<SubDir>, dry_run: bool) -> (plan: Vec<CleanAction>) {
        remove_dirs(&self.dir, subdirs, &ephemeral_dirs(), dry_run)
    }

    fn status(&self, subdirs: &Vec<SubDir>) -> (status: BuildStatus) {
        status_from_dirs(subdirs, &ephemeral_dirs())
    }

    fn project_name(&self) -> (name: Option<Result<String, NameError>>) {
        manifest_name(&self.pubspec_name)
    }

    fn label(&self) -> (s: String) {
        String::from_str("Flutter")
    }
}

} // verus!
