//! Maven.

use vstd::prelude::*;
use vstd::string::*;
use crate::build_tool_manager::BuildToolManager;
use crate::build_tools::{
    command_steps, steps, BuildStatus, BuildTool, BuildToolKind, BuildToolProbe, CleanAction,
    Ephemeral, Probe,
    NameError, Tool, ToolTag, ToolView,
};
use crate::fs::{Directory, SubDir};
use crate::path::CanonicalPath;
use crate::text::texts;

verus! {

/// Adds the probe for this tool to `manager`.
pub fn register(manager: &mut BuildToolManager)
    ensures
        final(manager)@ == old(manager)@.push(Probe::Maven(MavenProbe)),
{
    manager.register(Probe::Maven(MavenProbe {  }));
}

/// Recognises a Maven project by its `pom.xml`.
#[derive(Debug, Copy, Clone, PartialEq, Eq, Structural)]
pub struct MavenProbe;

impl BuildToolProbe for MavenProbe {
    open spec fn tag(&self) -> ToolTag {
        ToolTag::Maven
    }

    fn probe(&self, dir: &Directory) -> (tool: Option<Tool>) {
        if dir.is_file("pom.xml") {
            Some(Tool::Maven(Maven { dir: dir.path.duplicate() }))
        } else {
            None
        }
    }

    fn applies_to(&self, kind: BuildToolKind) -> (yes: bool) {
        match kind {
            BuildToolKind::Maven | BuildToolKind::Mvn => true,
            _ => false,
        }
    }
}

/// A Maven project.
#[derive(Debug, Clone, PartialEq, Eq)]
pub struct Maven {
    /// The project directory.
    pub dir: CanonicalPath,
}

impl BuildTool for Maven {
    open spec fn facts(&self) -> ToolView {
        ToolView { tag: ToolTag::Maven, dir: self.dir@, manifest_name: None }
    }

    fn ephemeral(&self) -> (rules: Option<Vec<Ephemeral>>) {
        None
    }

    // Where Maven puts what it builds is for the project to say, so Maven
    // itself is asked to clean up: `mvn clean` in the project directory.
    fn clean_project(&self, subdirs: &Vec<SubDir>, dry_run: bool) -> (plan: Vec<CleanAction>) {
        let mut plan: Vec<CleanAction> = Vec::new();
        if dry_run {
            let mut line = self.dir.display();
            line.append(": \"mvn\" \"clean\"");
            plan.push(CleanAction::Print(line));
        } else {
            let mut args: Vec<String> = Vec::new();
            args.push(String::from_str("clean"));
            assert(texts(args@) =~= seq!["clean"@]);
            plan.push(
                CleanAction::Run {
                    program: String::from_str("mvn"),
                    args,
                    dir: self.dir.duplicate(),
                },
            );
        }
        assert(steps(plan@) =~= command_steps(self.dir@, dry_run));
        plan
    }

    fn status(&self, subdirs: &Vec<SubDir>) -> (status: BuildStatus) {
        BuildStatus::Unknown
    }

    fn project_name(&self) -> (name: Option<Result<String, NameError>>) {
        None
    }

    fn label(&self) -> (s: String) {
        String::from_str("Maven")
    }
}

} // verus!
