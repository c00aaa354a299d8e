//! Cleaning a project: each of its build tools in turn.

use vstd::prelude::*;
use crate::build_tool_manager::tool_views;
use crate::build_tools::{
    clean_steps, left_by, steps, without_targets, BuildTool, CleanAction, CleanStep, ToolView,
};
use crate::fs::{folders, Folder};
use crate::project::{clone_subdirs, Project};

verus! {

/// The steps by which the tools from `from` on clean a project, one tool
/// after the other: each tool finds the directories that the tools before
/// it have left.
pub open spec fn project_steps(
    tools: Seq<ToolView>,
    from: int,
    subdirs: Seq<Folder>,
    dry_run: bool,
) -> Seq<CleanStep>
    decreases tools.len() - from,
{
    if from < 0 || from >= tools.len() {
        Seq::empty()
    } else {
        clean_steps(tools[from], subdirs, dry_run) + project_steps(
            tools,
            from + 1,
            left_by(tools[from], subdirs, dry_run),
            dry_run,
        )
    }
}

impl Project {
    /// The steps that clean the project.
    pub open spec fn cleaning(&self, dry_run: bool) -> Seq<CleanStep> {
        project_steps(tool_views(self.build_tools@), 0, folders(self.subdirs@), dry_run)
    }

    /// Plans the cleaning of the project: the plans of its build tools, one
    /// after the other. A dry run plans printed lines only.
    pub fn clean(&self, dry_run: bool) -> (plan: Vec<CleanAction>)
        requires
            self.build_tools@.len() > 0,
        ensures
            steps(plan@) == self.cleaning(dry_run),
    {
        let subdirs = &self.subdirs;
        let ghost tools = tool_views(self.build_tools@);
        let ghost whole = project_steps(tools, 0, folders(subdirs@), dry_run);
        let mut plan: Vec<CleanAction> = Vec::new();
        let mut left = clone_subdirs(subdirs);
        let mut i: usize = 0;
        while i < self.build_tools.len()
            invariant
                i <= self.build_tools.len(),
                tools == tool_views(self.build_tools@),
                whole == steps(plan@) + project_steps(tools, i as int, folders(left@), dry_run),
            decreases self.build_tools.len() - i,
        {
            let tool = &self.build_tools[i];
            assert(tools[i as int] == tool@);
            let ghost before = plan@;
            let ghost found = folders(left@);
            let mut more = tool.clean_project(&left, dry_run);
            let ghost added = more@;
            plan.append(&mut more);
            if !dry_run {
                match tool.ephemeral() {
                    Some(rules) => {
                        left = without_targets(&left, &rules);
                    },
                    None => {},
                }
            }
            proof {
                assert(folders(left@) == left_by(tools[i as int], found, dry_run));
                assert(steps(plan@) =~= steps(before) + steps(added));
                assert(whole =~= steps(plan@) + project_steps(
                    tools,
                    i + 1,
                    folders(left@),
                    dry_run,
                ));
            }
            i += 1;
        }
        assert(whole =~= steps(plan@));
        plan
    }
}

/// A dry run of cleaning a project plans printed lines only: nothing on
/// disk is touched.
pub proof fn lemma_dry_run_only_prints(tools: Seq<ToolView>, from: int, subdirs: Seq<Folder>, i: int)
    requires
        0 <= from,
        0 <= i < project_steps(tools, from, subdirs, true).len(),
    ensures
        project_steps(tools, from, subdirs, true)[i] is Print,
    decreases tools.len() - from,
{
    if from < tools.len() {
        let first = clean_steps(tools[from], subdirs, true);
        if i >= first.len() {
            lemma_dry_run_only_prints(tools, from + 1, subdirs, i - first.len());
        }
    }
}

} // verus!
