//! Mix, the build tool of Elixir.

use vstd::prelude::*;
use vstd::string::*;
use crate::build_tool_manager::BuildToolManager;
use crate::build_tools::{
    remove_dirs, rule_list, status_from_dirs, BuildStatus, BuildTool, BuildToolKind,
    BuildToolProbe, Probe, CleanAction, Ephemeral, NameError, Rule, Tool, ToolTag, ToolView,
};
use crate::fs::{Directory, SubDir};
use crate::path::CanonicalPath;

verus! {

/// Adds the probe for this tool to `manager`.
pub fn register(manager: &mut BuildToolManager)
    ensures
        final(manager)@ == old(manager)@.push(Probe::Mix(MixProbe)),
{
    manager.register(Probe::Mix(MixProbe {  }));
}

/// Recognises a Mix project by its `mix.exs`.
#[derive(Debug, Copy, Clone, PartialEq, Eq, Structural)]
pub struct MixProbe;

impl BuildToolProbe for MixProbe {
    open spec fn tag(&self) -> ToolTag {
        ToolTag::Mix
    }

    fn probe(&self, dir: &Directory) -> (tool: Option<Tool>) {
        if dir.is_file("mix.exs") {
            Some(Tool::Mix(Mix::new(&dir.path)))
        } else {
            None
        }
    }

    fn applies_to(&self, kind: BuildToolKind) -> (yes: bool) {
        match kind {
            BuildToolKind::Mix | BuildToolKind::Elixir | BuildToolKind::Ex | BuildToolKind::Exs => true,
            _ => false,
        }
    }
}

/// A Mix project.
#[derive(Debug, Clone, PartialEq, Eq)]
pub struct Mix {
    /// The project directory.
    pub dir: CanonicalPath,
}

impl Mix {
    /// The Mix project at `path`.
    pub fn new(path: &CanonicalPath) -> (tool: Mix)
        ensures
            tool.dir@ == path@,
    {
        Mix { dir: path.duplicate() }
    }
}

/// What Mix regenerates: `_build` and `deps` always, and the language
/// server's cache `.elixir_ls` only where version control ignores it, so that
/// a cache kept on purpose stays.
pub open spec fn rules() -> Seq<Rule> {
    seq![Rule { name: "_build"@, only_if_ignored: false }, Rule { name: "deps"@, only_if_ignored: false }, Rule { name: ".elixir_ls"@, only_if_ignored: true }]
}

/// What Mix regenerates: `_build` and `deps` always, and the language
/// server's cache `.elixir_ls` only where version control ignores it, so that
/// a cache kept on purpose stays.
pub fn ephemeral_dirs() -> (dirs: Vec<Ephemeral>)
    ensures
        rule_list(dirs@) == rules(),
{
    let mut dirs: Vec<Ephemeral> = Vec::new();
    dirs.push(Ephemeral { name: String::from_str("_build"), only_if_ignored: false });
    dirs.push(Ephemeral { name: String::from_str("deps"), only_if_ignored: false });
    dirs.push(Ephemeral { name: String::from_str(".elixir_ls"), only_if_ignored: true });
    assert(rule_list(dirs@) =~= rules());
    dirs
}

impl BuildTool for Mix {
    open spec fn facts(&self) -> ToolView {
        ToolView { tag: ToolTag::Mix, dir: self.dir@, manifest_name: None }
    }

    fn ephemeral(&self) -> (rules: Option<Vec<Ephemeral>>) {
        Some(ephemeral_dirs())
    }

    // `mix clean --deps` needs Mix in the version of the project and leaves
    // files behind; removing the directories needs neither.
    fn clean_project(&self, subdirs: &Vec<SubDir>, dry_run: bool) -> (plan: Vec<CleanAction>) {
        remove_dirs(&self.dir, subdirs, &ephemeral_dirs(), dry_run)
    }

    fn status(&self, subdirs: &Vec<SubDir>) -> (status: BuildStatus) {
        status_from_dirs(subdirs, &ephemeral_dirs())
    }

    // The name stands in `mix.exs`, which only Elixir can read, and asking Mix
    // for it would compile the project.
    fn project_name(&self) -> (name: Option<Result<String, NameError>>) {
        None
    }

    fn label(&self) -> (s: String) {
        String::from_str("Mix")
    }
}

} // verus!
