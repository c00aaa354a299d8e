//! A software project: a directory in which at least one build tool was
//! recognised.

pub mod archive;
pub mod clean;
pub mod dto;
pub mod mtime;
pub mod vcs;
pub mod zip;

use vstd::prelude::*;
use vstd::string::*;
use crate::build_tool_manager::{recognised, tool_views, BuildToolManager};
use crate::build_tools::{
    tool_name, tool_status, BuildStatus, BuildTool, NameError, Probe, Tool, ToolView,
};
use crate::fs::{add_capped, capped, folders, lemma_capped_step, Directory, Folder, SubDir};
use crate::path::{rendered, CanonicalPath};
use crate::project::dto::{labels, tool_labels};
use crate::project::vcs::{Discovery, VersionControlSystem};
use crate::text::{join_strings, joined};

verus! {

/// The largest number of nanoseconds that an instant may be away from the
/// Unix epoch, and the longest duration: what 64 bits of seconds hold.
pub const MAX_NANOS: i128 = 9_223_372_036_854_775_807_999_999_999;

/// An instant: nanoseconds since the Unix epoch.
#[derive(Debug, Copy, Clone, PartialEq, Eq, Structural)]
pub struct Timestamp {
    pub unix_nanos: i128,
}

impl Timestamp {
    /// Whether the instant is within what 64 bits of seconds hold.
    pub open spec fn wf(&self) -> bool {
        -MAX_NANOS <= self.unix_nanos <= MAX_NANOS
    }
}

/// A span of time in nanoseconds.
#[derive(Debug, Copy, Clone, PartialEq, Eq, Structural)]
pub struct Duration {
    pub nanos: i128,
}

impl Duration {
    /// Whether the span is within what 64 bits of seconds hold.
    pub open spec fn wf(&self) -> bool {
        -MAX_NANOS <= self.nanos <= MAX_NANOS
    }
}

/// Which projects to consider, by the status that their build tools report.
#[derive(Debug, Copy, Clone, PartialEq, Eq, Structural)]
pub enum StatusFilter {
    /// Any project is considered.
    Any,
    /// Projects that are not clean already are considered.
    ExceptClean,
}

/// Which projects to consider.
#[derive(Debug, Copy, Clone, PartialEq, Eq, Structural)]
pub struct ProjectFilter {
    /// Projects that were modified more recently than this are left out.
    pub min_stale: Duration,
    /// Projects that do not satisfy this are left out.
    pub status: StatusFilter,
}

/// A directory that may be a project, with all that deciding needs.
#[derive(Debug, Clone, PartialEq, Eq)]
pub struct Candidate {
    /// What was found in the directory.
    pub dir: Directory,
    /// The newest modification time of the files below the directory that
    /// version control does not ignore; `None` where there is no such file.
    pub mtime: Option<Timestamp>,
    /// What looking for a repository upward from the directory gave.
    pub vcs: Discovery,
}

impl Candidate {
    /// What holds of every candidate: its path is canonical, and its
    /// modification time, if it has one, is a valid instant.
    pub open spec fn wf(&self) -> bool {
        &&& self.dir.path.wf()
        &&& self.mtime.is_some() ==> self.mtime.unwrap().wf()
    }
}

/// Why a directory in which a build tool was recognised could not be made
/// a project.
#[derive(Debug, Clone, PartialEq, Eq)]
pub enum ProjectError {
    /// There is no file below the directory to take a modification time
    /// from.
    NoFiles,
    /// The search for a repository failed, with this message.
    Vcs(String),
}

/// One recognised unit of source code.
#[derive(Debug, Clone, PartialEq, Eq)]
pub struct Project {
    /// What the first build tool that knows a name calls the project, else
    /// the name of its directory.
    pub name: String,
    /// Where the project is.
    pub path: CanonicalPath,
    /// The build tools recognised in it, in the order of their probes.
    pub build_tools: Vec<Tool>,
    /// The version control system that holds it, if one does.
    pub vcs: Option<VersionControlSystem>,
    /// When a file of it was last modified.
    pub mtime: Timestamp,
    /// The directories that were found directly inside it.
    pub subdirs: Vec<SubDir>,
}

/// What the first tool that has something to say about the name says, from
/// the tool at `from` on.
pub open spec fn first_name(tools: Seq<ToolView>, from: int) -> Option<Result<Seq<char>, NameError>>
    decreases tools.len() - from,
{
    if from < 0 || from >= tools.len() {
        None
    } else {
        match tool_name(tools[from]) {
            Some(r) => Some(r),
            None => first_name(tools, from + 1),
        }
    }
}

/// The name of the project at `path` with these tools: what the first tool
/// that has something to say about it says, else the last step of the path.
pub open spec fn resolved_name(path: Seq<Seq<char>>, tools: Seq<ToolView>) -> Result<
    Seq<char>,
    NameError,
> {
    match first_name(tools, 0) {
        Some(r) => r,
        None => if path.len() > 0 {
            Ok(path.last())
        } else {
            Err(NameError::NoDirectoryName)
        },
    }
}

/// Whether every tool reports a clean project.
pub open spec fn all_clean(tools: Seq<ToolView>, subdirs: Seq<Folder>) -> bool {
    forall|i: int|
        0 <= i < tools.len() ==> tool_status(#[trigger] tools[i], subdirs) == BuildStatus::Clean
}

/// The bytes that a tool's status says can be freed.
pub open spec fn status_bytes(status: BuildStatus) -> nat {
    match status {
        BuildStatus::Built { freeable_bytes } => freeable_bytes as nat,
        _ => 0,
    }
}

/// The bytes that the tools together say can be freed.
pub open spec fn tools_bytes(tools: Seq<ToolView>, subdirs: Seq<Folder>) -> nat
    decreases tools.len(),
{
    if tools.len() == 0 {
        0
    } else {
        tools_bytes(tools.drop_last(), subdirs) + status_bytes(tool_status(tools.last(), subdirs))
    }
}

/// How a candidate fares, step by step; the first step that turns it down
/// decides.
#[derive(Debug, Copy, Clone, PartialEq, Eq, Structural)]
pub enum Verdict {
    /// No build tool was recognised.
    NotAProject,
    /// Only projects that are not clean were asked for, and every tool
    /// reports this one clean.
    AllClean,
    /// The name could not be determined.
    Unnamed,
    /// There is no file to take a modification time from.
    NoFiles,
    /// The project was modified too recently.
    TooRecent,
    /// The search for a repository failed.
    VcsFailed,
    /// The candidate is a project that the filter lets through.
    Accepted,
}

/// Whether a project last modified at `mtime` is too recent at `now` for
/// one that has to be stale for `min_stale`: less time than that has passed.
pub open spec fn too_recent(now: Timestamp, mtime: Timestamp, min_stale: Duration) -> bool {
    now.unix_nanos - mtime.unix_nanos < min_stale.nanos
}

/// How `candidate` fares with `filter` at `now`, when `probes` are asked.
pub open spec fn verdict(
    candidate: &Candidate,
    filter: &ProjectFilter,
    probes: Seq<Probe>,
    now: Timestamp,
) -> Verdict {
    let tools = recognised(probes, &candidate.dir);
    if tools.len() == 0 {
        Verdict::NotAProject
    } else if filter.status == StatusFilter::ExceptClean && all_clean(
        tools,
        folders(candidate.dir.subdirs@),
    ) {
        Verdict::AllClean
    } else if resolved_name(candidate.dir.path@, tools).is_err() {
        Verdict::Unnamed
    } else if candidate.mtime.is_none() {
        Verdict::NoFiles
    } else if too_recent(now, candidate.mtime.unwrap(), filter.min_stale) {
        Verdict::TooRecent
    } else if candidate.vcs is Failed {
        Verdict::VcsFailed
    } else {
        Verdict::Accepted
    }
}

/// Whether `p` is the project that `candidate` makes when `probes` are
/// asked: it is where the candidate is, holds the tools recognised there in
/// the order of the probes, is called as they or its directory say, and has
/// the candidate's modification time, repository and directories.
pub open spec fn is_project_of(p: Project, candidate: &Candidate, probes: Seq<Probe>) -> bool {
    &&& p.path@ == candidate.dir.path@
    &&& tool_views(p.build_tools@) == recognised(probes, &candidate.dir)
    &&& resolved_name(p.path@, tool_views(p.build_tools@)) == Ok::<Seq<char>, NameError>(p.name@)
    &&& candidate.mtime == Some(p.mtime)
    &&& folders(p.subdirs@) == folders(candidate.dir.subdirs@)
    &&& p.vcs_root() == match candidate.vcs {
        Discovery::Found(root) => Some(root@),
        _ => None,
    }
}

/// The name of the project at `path` with these tools: what the first tool
/// that has something to say about it says, else the last step of the path.
pub fn project_name_from(path: &CanonicalPath, build_tools: &Vec<Tool>) -> (name: Result<
    String,
    NameError,
>)
    ensures
        match name {
            Ok(n) => resolved_name(path@, tool_views(build_tools@)) == Ok::<Seq<char>, NameError>(
                n@,
            ),
            Err(e) => resolved_name(path@, tool_views(build_tools@)) == Err::<
                Seq<char>,
                NameError,
            >(e),
        },
{
    let ghost tools = tool_views(build_tools@);
    let mut i: usize = 0;
    while i < build_tools.len()
        invariant
            i <= build_tools.len(),
            tools == tool_views(build_tools@),
            first_name(tools, 0) == first_name(tools, i as int),
        decreases build_tools.len() - i,
    {
        assert(tools[i as int] == build_tools@[i as int]@);
        match build_tools[i].project_name() {
            Some(Ok(name)) => {
                return Ok(name);
            },
            Some(Err(e)) => {
                return Err(e);
            },
            None => {},
        }
        i += 1;
    }
    match path.file_name() {
        Some(name) => Ok(name),
        None => Err(NameError::NoDirectoryName),
    }
}

fn every_tool_clean(build_tools: &Vec<Tool>, subdirs: &Vec<SubDir>) -> (yes: bool)
    ensures
        yes == all_clean(tool_views(build_tools@), folders(subdirs@)),
{
    let mut i: usize = 0;
    while i < build_tools.len()
        invariant
            i <= build_tools.len(),
            forall|j: int|
                0 <= j < i ==> tool_status(
                    #[trigger] tool_views(build_tools@)[j],
                    folders(subdirs@),
                ) == BuildStatus::Clean,
        decreases build_tools.len() - i,
    {
        assert(tool_views(build_tools@)[i as int] == build_tools@[i as int]@);
        match build_tools[i].status(subdirs) {
            BuildStatus::Clean => {},
            _ => {
                return false;
            },
        }
        i += 1;
    }
    true
}

impl Project {
    /// The version control root of the project, as contracts speak of it.
    pub open spec fn vcs_root(&self) -> Option<Seq<Seq<char>>> {
        match self.vcs {
            Some(vcs) => Some(vcs.root_spec()),
            None => None,
        }
    }

    /// The bytes that the project's build tools together say can be freed.
    pub open spec fn freeable(&self) -> nat {
        tools_bytes(tool_views(self.build_tools@), folders(self.subdirs@))
    }

    /// What holds of every project: its path is canonical, at least one
    /// build tool was recognised in it, and each of its tools is bound to
    /// its directory.
    pub open spec fn wf(&self) -> bool {
        &&& self.path.wf()
        &&& self.build_tools@.len() > 0
        &&& forall|i: int|
            0 <= i < self.build_tools@.len() ==> (#[trigger] self.build_tools@[i])@.dir
                == self.path@
    }

    /// Decides whether the candidate is a project that the filter lets
    /// through, and makes the project if it is.
    ///
    /// The steps are taken in this order, and the first that turns the
    /// candidate down decides: no build tool is recognised; only projects
    /// that are not clean are asked for and every tool reports this one
    /// clean (a tool that cannot tell does not count as clean); the name
    /// cannot be determined; less than `min_stale` has passed since the
    /// last modification. A project whose age is exactly `min_stale` is let
    /// through.
    pub fn from_dir(
        candidate: &Candidate,
        project_filter: &ProjectFilter,
        build_tool_manager: &BuildToolManager,
        now: Timestamp,
    ) -> (r: Result<Option<Project>, ProjectError>)
        requires
            now.wf(),
            candidate.wf(),
        ensures
            match verdict(candidate, project_filter, build_tool_manager@, now) {
                Verdict::NoFiles => r is Err && r.unwrap_err() is NoFiles,
                Verdict::VcsFailed => r is Err && r.unwrap_err() is Vcs
                    && r.unwrap_err()->Vcs_0@ == candidate.vcs->Failed_0@,
                Verdict::Accepted => r is Ok && r.unwrap() is Some && r.unwrap().unwrap().wf()
                    && is_project_of(r.unwrap().unwrap(), candidate, build_tool_manager@),
                _ => r is Ok && r.unwrap() is None,
            },
    {
        // A directory is a project if at least one build tool is recognised.
        let build_tools = build_tool_manager.probe(&candidate.dir);
        if build_tools.len() == 0 {
            return Ok(None);
        }
        match project_filter.status {
            StatusFilter::ExceptClean => {
                if every_tool_clean(&build_tools, &candidate.dir.subdirs) {
                    return Ok(None);
                }
            },
            StatusFilter::Any => {},
        }
        let name = match project_name_from(&candidate.dir.path, &build_tools) {
            Ok(name) => name,
            Err(_) => {
                return Ok(None);
            },
        };
        let mtime = match candidate.mtime {
            Some(mtime) => mtime,
            None => {
                return Err(ProjectError::NoFiles);
            },
        };
        if now.unix_nanos - mtime.unix_nanos < project_filter.min_stale.nanos {
            return Ok(None);
        }
        let vcs = match VersionControlSystem::try_from(&candidate.vcs) {
            Ok(vcs) => vcs,
            Err(e) => {
                return Err(ProjectError::Vcs(e.message));
            },
        };
        let path = candidate.dir.path.duplicate();
        proof {
            lemma_recognised_dir(build_tool_manager@, &candidate.dir);
            assert forall|i: int| 0 <= i < build_tools@.len() implies (
            #[trigger] build_tools@[i])@.dir == path@ by {
                assert(tool_views(build_tools@)[i] == build_tools@[i]@);
            }
        }
        let subdirs = clone_subdirs(&candidate.dir.subdirs);
        Ok(Some(Project { name, path, build_tools, vcs, mtime, subdirs }))
    }

    /// The project in a line, as messages name it: its path, and in
    /// brackets its build tools and its version control system.
    pub open spec fn display_text(&self) -> Seq<char> {
        rendered(self.path@) + " ("@ + joined(
            labels(tool_views(self.build_tools@)),
            ", "@,
        ) + "; VCS: "@ + match self.vcs {
            Some(vcs) => "Git(Git { root: \""@ + rendered(vcs.root_spec()) + "\" })"@,
            None => "none"@,
        } + ")"@
    }

    /// The project in a line, as messages name it.
    pub fn display(&self) -> (s: String)
        ensures
            s@ == self.display_text(),
    {
        let mut s = self.path.display();
        s.append(" (");
        s.append(join_strings(&tool_labels(&self.build_tools), ", ").as_str());
        s.append("; VCS: ");
        match &self.vcs {
            Some(vcs) => {
                s.append("Git(Git { root: \"");
                s.append(vcs.root().display().as_str());
                s.append("\" })");
            },
            None => {
                s.append("none");
            },
        }
        s.append(")");
        assert(s@ =~= self.display_text());
        s
    }

    /// The bytes that the project's build tools together say can be freed.
    /// Stops at the largest `u64`.
    pub fn freeable_bytes(&self) -> (bytes: u64)
        ensures
            bytes == capped(self.freeable()),
    {
        let subdirs = &self.subdirs;
        let ghost tools = tool_views(self.build_tools@);
        let mut bytes: u64 = 0;
        let mut i: usize = 0;
        while i < self.build_tools.len()
            invariant
                i <= self.build_tools.len(),
                tools == tool_views(self.build_tools@),
                bytes == capped(tools_bytes(tools.take(i as int), folders(subdirs@))),
            decreases self.build_tools.len() - i,
        {
            proof {
                assert(tools.take(i + 1).drop_last() =~= tools.take(i as int));
                assert(tools.take(i + 1).last() == self.build_tools@[i as int]@);
            }
            let more = match self.build_tools[i].status(subdirs) {
                BuildStatus::Built { freeable_bytes } => freeable_bytes,
                _ => 0,
            };
            proof {
                lemma_capped_step(tools_bytes(tools.take(i as int), folders(subdirs@)), more);
            }
            bytes = add_capped(bytes, more);
            i += 1;
        }
        proof {
            assert(tools.take(self.build_tools.len() as int) =~= tools);
        }
        bytes
    }
}

/// Where the age of a project is set against `min_stale`: a project that
/// was modified a second less than `min_stale` ago is too recent, one that
/// was modified exactly `min_stale` ago or a second more is not.
pub proof fn lemma_staleness_boundary(now: Timestamp, mtime: Timestamp, min_stale: Duration)
    ensures
        now.unix_nanos - mtime.unix_nanos == min_stale.nanos - 1_000_000_000 ==> too_recent(
            now,
            mtime,
            min_stale,
        ),
        now.unix_nanos - mtime.unix_nanos == min_stale.nanos ==> !too_recent(now, mtime, min_stale),
        now.unix_nanos - mtime.unix_nanos == min_stale.nanos + 1_000_000_000 ==> !too_recent(
            now,
            mtime,
            min_stale,
        ),
{
}

/// A candidate that passes the steps before the one on its age is turned
/// down for its age exactly where less than `min_stale` has passed since its
/// last modification.
pub proof fn lemma_staleness_decides(
    candidate: &Candidate,
    filter: &ProjectFilter,
    probes: Seq<Probe>,
    now: Timestamp,
)
    requires
        candidate.mtime.is_some(),
        verdict(candidate, filter, probes, now) != Verdict::NotAProject,
        verdict(candidate, filter, probes, now) != Verdict::AllClean,
        verdict(candidate, filter, probes, now) != Verdict::Unnamed,
    ensures
        (verdict(candidate, filter, probes, now) == Verdict::TooRecent) == (now.unix_nanos
            - candidate.mtime.unwrap().unix_nanos < filter.min_stale.nanos),
{
}

/// A copy of a list of directories.
pub fn clone_subdirs(subdirs: &Vec<SubDir>) -> (copy: Vec<SubDir>)
    ensures
        folders(copy@) == folders(subdirs@),
{
    let mut copy: Vec<SubDir> = Vec::new();
    let mut i: usize = 0;
    while i < subdirs.len()
        invariant
            i <= subdirs.len(),
            copy@.len() == i,
            forall|j: int| 0 <= j < i ==> copy@[j]@ == subdirs@[j]@,
        decreases subdirs.len() - i,
    {
        copy.push(
            SubDir {
                name: subdirs[i].name.clone(),
                size: subdirs[i].size,
                ignored: subdirs[i].ignored,
            },
        );
        i += 1;
    }
    assert(folders(copy@) =~= folders(subdirs@));
    copy
}

/// Every tool recognised in a directory is bound to that directory.
pub proof fn lemma_recognised_dir(probes: Seq<Probe>, dir: &Directory)
    ensures
        forall|i: int|
            0 <= i < recognised(probes, dir).len() ==> (#[trigger] recognised(probes, dir)[i]).dir
                == dir.path@,
    decreases probes.len(),
{
    if probes.len() > 0 {
        lemma_recognised_dir(probes.drop_last(), dir);
    }
}

} // verus!
