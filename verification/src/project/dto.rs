//! A project as it is handed out: every field as text.

use vstd::prelude::*;
use vstd::string::*;
use crate::build_tool_manager::tool_views;
use crate::build_tools::{tag_label, BuildTool, Tool, ToolView};
use crate::path::rendered;
use crate::project::mtime::{rfc3339_of, rfc3339_text};
use crate::project::vcs::VersionControlSystem;
use crate::project::Project;
use crate::text::texts;

verus! {

/// A project as it is handed out.
#[derive(Debug, Clone, PartialEq, Eq)]
pub struct ProjectDto {
    /// What the first build tool that knows a name calls the project, else
    /// the name of its directory.
    pub name: String,
    /// Where the project is.
    pub path: String,
    /// The names of the build tools recognised in it.
    pub build_tools: Vec<String>,
    /// The version control system that holds it, if one does.
    pub vcs: Option<VcsDto>,
    /// When a file of it was last modified, by RFC 3339.
    pub mtime: String,
}

/// A version control system as it is handed out.
#[derive(Debug, Clone, PartialEq, Eq)]
pub struct VcsDto {
    /// The name of the system.
    pub name: String,
    /// The root of the repository's working tree.
    pub root: String,
}

/// How the tools are called, one for one.
pub open spec fn labels(tools: Seq<ToolView>) -> Seq<Seq<char>> {
    Seq::new(tools.len(), |i: int| tag_label(tools[i].tag))
}

/// How the tools are called, one for one.
pub fn tool_labels(build_tools: &Vec<Tool>) -> (names: Vec<String>)
    ensures
        texts(names@) == labels(tool_views(build_tools@)),
{
    let mut names: Vec<String> = Vec::new();
    let mut i: usize = 0;
    while i < build_tools.len()
        invariant
            i <= build_tools.len(),
            names@.len() == i,
            forall|j: int| 0 <= j < i ==> names@[j]@ == tag_label(build_tools@[j]@.tag),
        decreases build_tools.len() - i,
    {
        names.push(build_tools[i].label());
        i += 1;
    }
    assert(texts(names@) =~= labels(tool_views(build_tools@)));
    names
}

impl VcsDto {
    /// The version control system with its fields as text.
    pub fn from(vcs: &VersionControlSystem) -> (dto: VcsDto)
        ensures
            dto.name@ == "Git"@,
            dto.root@ == rendered(vcs.root_spec()),
    {
        VcsDto { name: String::from_str(vcs.name()), root: vcs.root().display() }
    }
}

impl ProjectDto {
    /// Whether `dto` shows `project`.
    pub open spec fn shows(dto: ProjectDto, project: &Project) -> bool {
        &&& dto.name@ == project.name@
        &&& dto.path@ == rendered(project.path@)
        &&& texts(dto.build_tools@) == labels(tool_views(project.build_tools@))
        &&& match project.vcs {
            Some(vcs) => dto.vcs.is_some() && dto.vcs.unwrap().name@ == "Git"@
                && dto.vcs.unwrap().root@ == rendered(vcs.root_spec()),
            None => dto.vcs.is_none(),
        }
        &&& rfc3339_text(project.mtime.unix_nanos) == Some(dto.mtime@)
    }

    /// The project with its fields as text; `None` where its modification
    /// time cannot be written by RFC 3339.
    pub fn from(project: &Project) -> (dto: Option<ProjectDto>)
        ensures
            dto.is_some() == rfc3339_text(project.mtime.unix_nanos).is_some(),
            dto.is_some() ==> ProjectDto::shows(dto.unwrap(), project),
    {
        let mtime = match rfc3339_of(project.mtime.unix_nanos) {
            Some(mtime) => mtime,
            None => {
                return None;
            },
        };
        let vcs = match &project.vcs {
            Some(vcs) => Some(VcsDto::from(vcs)),
            None => None,
        };
        Some(
            ProjectDto {
                name: project.name.clone(),
                path: project.path.display(),
                build_tools: tool_labels(&project.build_tools),
                vcs,
                mtime,
            },
        )
    }
}

} // verus!
