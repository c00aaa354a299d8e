//! Finds software projects by their build-tool marker files, classifies them
//! as clean, built or stale, and plans how to reclaim the space they occupy.

pub mod build_tool_manager;
pub mod build_tools;
pub mod cli;
pub mod find_projects;
pub mod fs;
pub mod path;
pub mod project;
pub mod text;

use vstd::prelude::*;
use vstd::string::*;
use crate::build_tool_manager::tool_views;
use crate::cli::Cli;
use crate::fs::{add_capped, capped, format_size, formatted_size};
use crate::path::{is_prefix_of, rendered, CanonicalPath};
use crate::project::dto::{labels, tool_labels};
use crate::project::mtime::{date_text, iso_date, utc_date};
use crate::project::{Duration, Project, ProjectFilter, StatusFilter};
use crate::text::{decimal, join_strings, joined, push_decimal, texts};

verus! {

/// Thirty days in nanoseconds: how long a project has to be left alone
/// before it is cleaned, unless the options say otherwise.
pub const THIRTY_DAYS: i128 = 2_592_000_000_000_000;

/// Whether one of the projects is at `path`.
pub open spec fn has_path(projects: Seq<Project>, path: Seq<Seq<char>>) -> bool {
    exists|i: int| 0 <= i < projects.len() && (#[trigger] projects[i]).path@ == path
}

/// The projects without those whose path has occurred before, in their
/// order.
pub open spec fn first_seen(projects: Seq<Project>) -> Seq<Project>
    decreases projects.len(),
{
    if projects.len() == 0 {
        Seq::empty()
    } else if has_path(first_seen(projects.drop_last()), projects.last().path@) {
        first_seen(projects.drop_last())
    } else {
        first_seen(projects.drop_last()).push(projects.last())
    }
}

/// Whether no two of the projects are at the same path.
pub open spec fn distinct_paths(projects: Seq<Project>) -> bool {
    forall|i: int, j: int|
        0 <= i < j < projects.len() ==> (#[trigger] projects[i]).path@ != (
        #[trigger] projects[j]).path@
}

/// The bytes that the projects together say can be freed.
pub open spec fn total_freeable(projects: Seq<Project>) -> nat
    decreases projects.len(),
{
    if projects.len() == 0 {
        0
    } else {
        total_freeable(projects.drop_last()) + projects.last().freeable()
    }
}

/// After the removal of repeated paths no path occurs twice, every path
/// that occurred still does, and every project that is left was there
/// before: a directory that is reached from two roots is listed, cleaned and
/// archived once.
pub proof fn lemma_first_seen(projects: Seq<Project>)
    ensures
        distinct_paths(first_seen(projects)),
        forall|i: int|
            0 <= i < projects.len() ==> has_path(
                first_seen(projects),
                (#[trigger] projects[i]).path@,
            ),
        forall|k: int|
            0 <= k < first_seen(projects).len() ==> projects.contains(
                #[trigger] first_seen(projects)[k],
            ),
    decreases projects.len(),
{
    if projects.len() > 0 {
        let shorter = projects.drop_last();
        lemma_first_seen(shorter);
        let kept = first_seen(shorter);
        let all = first_seen(projects);
        assert forall|i: int| 0 <= i < projects.len() implies has_path(
            all,
            (#[trigger] projects[i]).path@,
        ) by {
            if i < projects.len() - 1 {
                assert(shorter[i] == projects[i]);
                let k = choose|k: int|
                    0 <= k < kept.len() && (#[trigger] kept[k]).path@ == projects[i].path@;
                assert(all[k] == kept[k]);
            } else if !has_path(kept, projects.last().path@) {
                assert(all[all.len() - 1] == projects[i]);
            }
        }
        assert forall|k: int| 0 <= k < all.len() implies projects.contains(#[trigger] all[k]) by {
            if k < kept.len() {
                let at = choose|at: int| 0 <= at < shorter.len() && shorter[at] == kept[k];
                assert(projects[at] == all[k]);
            } else {
                assert(projects[projects.len() - 1] == all[k]);
            }
        }
    }
}

fn is_listed(projects: &Vec<Project>, path: &CanonicalPath) -> (yes: bool)
    ensures
        yes == has_path(projects@, path@),
{
    let mut i: usize = 0;
    while i < projects.len()
        invariant
            i <= projects.len(),
            forall|j: int| 0 <= j < i ==> (#[trigger] projects@[j]).path@ != path@,
        decreases projects.len() - i,
    {
        if projects[i].path.same_as(path) {
            return true;
        }
        i += 1;
    }
    false
}

/// Removes the projects whose path has occurred before, and keeps the
/// others in their order.
pub fn unique_by_path(found: Vec<Project>) -> (projects: Vec<Project>)
    ensures
        projects@ == first_seen(found@),
{
    let ghost all = found@;
    let mut rest = found;
    let mut projects: Vec<Project> = Vec::new();
    let ghost mut done: int = 0;
    while rest.len() > 0
        invariant
            0 <= done <= all.len(),
            rest@ == all.skip(done),
            projects@ == first_seen(all.take(done)),
        decreases rest.len(),
    {
        let project = rest.remove(0);
        proof {
            assert(project == all[done]);
            assert(all.take(done + 1).drop_last() =~= all.take(done));
            assert(all.take(done + 1).last() == all[done]);
            assert(rest@ =~= all.skip(done + 1));
        }
        if !is_listed(&projects, &project.path) {
            projects.push(project);
        }
        proof {
            done = done + 1;
        }
    }
    proof {
        assert(all.take(done) =~= all);
    }
    projects
}

/// The bytes that the projects together say can be freed. Stops at the
/// largest `u64`.
pub fn freeable_bytes(projects: &Vec<Project>) -> (bytes: u64)
    ensures
        bytes == capped(total_freeable(projects@)),
{
    let mut bytes: u64 = 0;
    let mut i: usize = 0;
    while i < projects.len()
        invariant
            i <= projects.len(),
            bytes == capped(total_freeable(projects@.take(i as int))),
        decreases projects.len() - i,
    {
        proof {
            assert(projects@.take(i + 1).drop_last() =~= projects@.take(i as int));
        }
        bytes = add_capped(bytes, projects[i].freeable_bytes());
        i += 1;
    }
    proof {
        assert(projects@.take(projects.len() as int) =~= projects@);
    }
    bytes
}

/// Which projects listing considers: those that have been left alone for
/// as long as the options say, or all, whatever their state.
pub fn list_filter(cli: &Cli) -> (filter: ProjectFilter)
    ensures
        filter.status == StatusFilter::Any,
        filter.min_stale == match cli.min_stale {
            Some(min_stale) => min_stale,
            None => Duration { nanos: 0 },
        },
{
    let min_stale = match cli.min_stale {
        Some(min_stale) => min_stale,
        None => Duration { nanos: 0 },
    };
    ProjectFilter { min_stale, status: StatusFilter::Any }
}

/// Which projects cleaning considers: those that have been left alone for
/// as long as the options say, or for thirty days; and only those that are
/// not clean already, unless they are to be archived.
pub fn clean_filter(cli: &Cli) -> (filter: ProjectFilter)
    ensures
        filter.status == if cli.archive {
            StatusFilter::Any
        } else {
            StatusFilter::ExceptClean
        },
        filter.min_stale == match cli.min_stale {
            Some(min_stale) => min_stale,
            None => Duration { nanos: THIRTY_DAYS },
        },
{
    let min_stale = match cli.min_stale {
        Some(min_stale) => min_stale,
        None => Duration { nanos: THIRTY_DAYS },
    };
    let status = if cli.archive {
        StatusFilter::Any
    } else {
        StatusFilter::ExceptClean
    };
    ProjectFilter { min_stale, status }
}

/// What listing ends with.
pub open spec fn list_summary(bytes: nat) -> Seq<char> {
    "Found "@ + formatted_size(bytes) + " of build artifacts and dependencies."@
}

/// What listing comes to.
#[derive(Debug, Clone, PartialEq, Eq)]
pub struct Listing {
    /// The projects to show, each path once, in the order in which they
    /// were found.
    pub projects: Vec<Project>,
    /// The bytes that the projects together say can be freed.
    pub freeable_bytes: u64,
    /// The line that ends the list; none where the output is JSON.
    pub summary: Option<String>,
}

/// Lists the projects that were found below the directories of the
/// options: each path once, with the bytes that can be freed in all.
pub fn list(cli: &Cli, found: Vec<Project>) -> (listing: Listing)
    ensures
        listing.projects@ == first_seen(found@),
        listing.freeable_bytes == capped(total_freeable(first_seen(found@))),
        match listing.summary {
            Some(line) => !cli.json && line@ == list_summary(listing.freeable_bytes as nat),
            None => cli.json,
        },
{
    let projects = unique_by_path(found);
    let bytes = freeable_bytes(&projects);
    let summary = if cli.json {
        None
    } else {
        let mut line = String::from_str("Found ");
        line.append(format_size(bytes).as_str());
        line.append(" of build artifacts and dependencies.");
        Some(line)
    };
    Listing { projects, freeable_bytes: bytes, summary }
}

/// The path of a project in two parts, of which the second is what the
/// project is known by.
#[derive(Debug, Clone, PartialEq, Eq)]
pub struct ProjectPath {
    /// The path up to the second part.
    pub parent: CanonicalPath,
    /// For a project below the root of its repository, the steps from the
    /// directory of the repository on; else the name of the project
    /// directory.
    pub project: Vec<String>,
}

/// How many steps of the path of a project belong to the first part: all
/// that lead to the directory of its repository where it is below the
/// repository's root, else all but the last.
pub open spec fn parent_steps(path: Seq<Seq<char>>, vcs_root: Option<Seq<Seq<char>>>) -> int {
    match vcs_root {
        Some(root) => if root != path {
            root.len() - 1
        } else {
            path.len() - 1
        },
        None => path.len() - 1,
    }
}

/// What stands in brackets behind the path of a listed project: its build
/// tools, its version control system, the day of its last modification, and
/// what can be freed where anything can.
pub open spec fn info_text(
    tools: Seq<Seq<char>>,
    versioned: bool,
    date: Seq<char>,
    freeable: nat,
) -> Seq<char> {
    "("@ + joined(tools, ", "@) + "; "@ + (if versioned {
        "Git"@
    } else {
        "no VCS"@
    }) + "; "@ + date + (if freeable == 0 {
        Seq::<char>::empty()
    } else {
        "; "@ + formatted_size(freeable)
    }) + ")"@
}

impl ProjectPath {
    /// Whether the two parts can be told for `project`: it is not the root
    /// directory, and its repository, if it has one, is at its path or
    /// above, and not at the root directory unless the project is there too.
    pub open spec fn splits(project: &Project) -> bool {
        &&& project.path@.len() > 0
        &&& match project.vcs_root() {
            Some(root) => is_prefix_of(root, project.path@) && (root != project.path@
                ==> root.len() > 0),
            None => true,
        }
    }

    /// The path as text: the two parts with a separator between them.
    pub open spec fn text(&self) -> Seq<char> {
        rendered(self.parent@) + "/"@ + joined(texts(self.project@), "/"@)
    }

    /// The two parts of the path of `project`.
    pub fn from(project: &Project) -> (parts: ProjectPath)
        requires
            ProjectPath::splits(project),
        ensures
            parts.parent@ == project.path@.take(
                parent_steps(project.path@, project.vcs_root()),
            ),
            texts(parts.project@) == project.path@.skip(
                parent_steps(project.path@, project.vcs_root()),
            ),
    {
        let n = project.path.components.len();
        let mut keep: usize = n - 1;
        match &project.vcs {
            Some(vcs) => {
                let root = vcs.root();
                if !root.same_as(&project.path) {
                    keep = root.components.len() - 1;
                }
            },
            None => {},
        }
        let mut parent: Vec<String> = Vec::new();
        let mut rest: Vec<String> = Vec::new();
        let mut i: usize = 0;
        while i < n
            invariant
                i <= n,
                keep < n,
                n == project.path.components@.len(),
                parent@.len() == if i < keep {
                    i
                } else {
                    keep
                },
                rest@.len() == if i < keep {
                    0
                } else {
                    i - keep
                },
                forall|j: int| 0 <= j < parent@.len() ==> parent@[j]@ == project.path@[j],
                forall|j: int| 0 <= j < rest@.len() ==> rest@[j]@ == project.path@[keep + j],
            decreases n - i,
        {
            if i < keep {
                parent.push(project.path.components[i].clone());
            } else {
                rest.push(project.path.components[i].clone());
            }
            i += 1;
        }
        let parts = ProjectPath { parent: CanonicalPath { components: parent }, project: rest };
        proof {
            assert(parts.parent@ =~= project.path@.take(keep as int));
            assert(texts(parts.project@) =~= project.path@.skip(keep as int));
        }
        parts
    }

    /// The path as text.
    pub fn render(&self) -> (s: String)
        ensures
            s@ == self.text(),
    {
        let mut s = self.parent.display();
        s.append("/");
        s.append(join_strings(&self.project, "/").as_str());
        s
    }
}

/// What stands in brackets behind the path of `project` when it is listed;
/// `None` where the calendar cannot place its last modification.
pub fn project_info(project: &Project) -> (info: Option<String>)
    ensures
        match utc_date(project.mtime.unix_nanos) {
            Some((year, month, day)) => info.is_some() && info.unwrap()@ == info_text(
                labels(tool_views(project.build_tools@)),
                project.vcs.is_some(),
                date_text(year as int, month as nat, day as nat),
                capped(project.freeable()) as nat,
            ),
            None => info.is_none(),
        },
{
    let date = match iso_date(project.mtime) {
        Some(date) => date,
        None => {
            return None;
        },
    };
    let tools = join_strings(&tool_labels(&project.build_tools), ", ");
    let bytes = project.freeable_bytes();
    let mut s = String::from_str("(");
    s.append(tools.as_str());
    s.append("; ");
    match &project.vcs {
        Some(vcs) => {
            s.append(vcs.name());
        },
        None => {
            s.append("no VCS");
        },
    }
    s.append("; ");
    s.append(date.as_str());
    if bytes != 0 {
        s.append("; ");
        s.append(format_size(bytes).as_str());
    }
    s.append(")");
    proof {
        let (year, month, day) = utc_date(project.mtime.unix_nanos).unwrap();
        assert(s@ =~= info_text(
            labels(tool_views(project.build_tools@)),
            project.vcs.is_some(),
            date_text(year as int, month as nat, day as nat),
            capped(project.freeable()) as nat,
        ));
    }
    Some(s)
}

/// The line that shows `project` in a list: its path, and in brackets its
/// build tools, its version control system, the day of its last
/// modification, and what can be freed where anything can. `None` where the
/// calendar cannot place its last modification.
pub fn pretty_print_project(project: &Project) -> (line: Option<String>)
    requires
        ProjectPath::splits(project),
    ensures
        match utc_date(project.mtime.unix_nanos) {
            Some((year, month, day)) => line.is_some() && line.unwrap()@ == rendered(
                project.path@.take(parent_steps(project.path@, project.vcs_root())),
            ) + "/"@ + joined(
                project.path@.skip(parent_steps(project.path@, project.vcs_root())),
                "/"@,
            ) + " "@ + info_text(
                labels(tool_views(project.build_tools@)),
                project.vcs.is_some(),
                date_text(year as int, month as nat, day as nat),
                capped(project.freeable()) as nat,
            ),
            None => line.is_none(),
        },
{
    let info = match project_info(project) {
        Some(info) => info,
        None => {
            return None;
        },
    };
    let mut line = ProjectPath::from(project).render();
    line.append(" ");
    line.append(info.as_str());
    Some(line)
}

/// How far a cleaning run has come.
#[derive(Debug, Copy, Clone, PartialEq, Eq, Structural)]
pub enum CleanState {
    /// Nothing has happened yet.
    Start,
    /// The projects are being looked for.
    Discovering,
    /// The user is being asked whether to go on.
    Asking,
    /// The projects are being cleaned.
    Cleaning,
    /// The run is over.
    Finished,
}

/// What has happened in a cleaning run.
#[derive(Debug, Copy, Clone, PartialEq, Eq, Structural)]
pub enum CleanEvent {
    /// The run has begun.
    Begun,
    /// The projects have been found and shown.
    Discovered,
    /// The user has answered: go on, or do not.
    Answered(bool),
    /// Every project has been dealt with.
    Cleaned,
}

/// How a line is set off from others.
#[derive(Debug, Copy, Clone, PartialEq, Eq, Structural)]
pub enum Style {
    Plain,
    Bold,
    Green,
    Red,
    Dim,
}

/// What a cleaning run has to do next.
#[derive(Debug, Clone, PartialEq, Eq)]
pub enum CleanCommand {
    /// Refuse the options with this message, and end the run as failed.
    Refuse(String),
    /// Look for the projects that this filter lets through, drop repeated
    /// paths, and show each project that is left.
    Discover(ProjectFilter),
    /// Print `text` in `style`, behind `indent` spaces.
    Say { indent: u8, text: String, style: Style },
    /// Ask the user this question, which yes answers unless they say no.
    Ask(String),
    /// Clean every project, and archive it after that where `archive` is
    /// set; with `dry_run`, change nothing.
    Clean { dry_run: bool, archive: bool },
}

/// What a cleaning run has to do next, as contracts speak of it.
pub enum Command {
    Refuse(Seq<char>),
    Discover(ProjectFilter),
    Say { indent: u8, text: Seq<char>, style: Style },
    Ask(Seq<char>),
    Clean { dry_run: bool, archive: bool },
}

impl View for CleanCommand {
    type V = Command;

    open spec fn view(&self) -> Command {
        match self {
            CleanCommand::Refuse(message) => Command::Refuse(message@),
            CleanCommand::Discover(filter) => Command::Discover(*filter),
            CleanCommand::Say { indent, text, style } => Command::Say {
                indent: *indent,
                text: text@,
                style: *style,
            },
            CleanCommand::Ask(question) => Command::Ask(question@),
            CleanCommand::Clean { dry_run, archive } => Command::Clean {
                dry_run: *dry_run,
                archive: *archive,
            },
        }
    }
}

/// The commands of a list, one for one.
pub open spec fn commands(list: Seq<CleanCommand>) -> Seq<Command> {
    Seq::new(list.len(), |i: int| list[i]@)
}

/// The paths of the projects that are not under version control, in their
/// order.
pub open spec fn unversioned(projects: Seq<Project>) -> Seq<Seq<char>>
    decreases projects.len(),
{
    if projects.len() == 0 {
        Seq::empty()
    } else if projects.last().vcs.is_none() {
        unversioned(projects.drop_last()).push(rendered(projects.last().path@))
    } else {
        unversioned(projects.drop_last())
    }
}

/// The message with which options are refused that ask for JSON and for a
/// question to the user at once.
pub open spec fn conflict_message() -> Seq<char> {
    "With `--json`, either `--dry-run` or `--yes` is required."@
}

/// The question that is asked before projects are cleaned.
pub open spec fn question(bytes: nat) -> Seq<char> {
    "Clean up those projects ("@ + formatted_size(bytes) + ")?"@
}

/// The sentence that sums a run up.
pub open spec fn summary_text(has_cleaned: bool, count: nat, bytes: nat) -> Seq<char> {
    let label = if count == 1 {
        "project"@
    } else {
        "projects"@
    };
    if has_cleaned {
        decimal(count) + " "@ + label + " cleaned, which freed approx. "@ + formatted_size(bytes)
            + " of build artifacts and dependencies."@
    } else {
        decimal(count) + " built "@ + label + " found, with "@ + formatted_size(bytes)
            + " of build artifacts and dependencies."@
    }
}

/// The heading of the projects that are not under version control.
pub open spec fn unversioned_heading(count: nat) -> Seq<char> {
    decimal(count) + " projects not under version control:"@
}

/// The lines that sum a run up: none where the output is JSON.
pub open spec fn summary(
    json: bool,
    has_cleaned: bool,
    count: nat,
    bytes: nat,
    loose: Seq<Seq<char>>,
) -> Seq<Command> {
    if json {
        Seq::empty()
    } else {
        seq![
            Command::Say { indent: 0, text: Seq::empty(), style: Style::Plain },
            Command::Say { indent: 0, text: "SUMMARY:"@, style: Style::Bold },
            Command::Say {
                indent: 2,
                text: summary_text(has_cleaned, count, bytes),
                style: Style::Green,
            },
        ] + if loose.len() > 0 {
            seq![
                Command::Say {
                    indent: 2,
                    text: unversioned_heading(loose.len()),
                    style: Style::Red,
                },
            ] + Seq::new(
                loose.len(),
                |i: int| Command::Say { indent: 4, text: loose[i], style: Style::Dim },
            )
        } else {
            Seq::empty()
        }
    }
}

/// What a cleaning run does next, and how far it has come then.
///
/// At the start, options that ask for JSON and neither for a dry run nor
/// for no question are refused; else the projects are looked for. When they
/// are found: a dry run with JSON output is over; with no project, the
/// summary follows; a dry run announces itself and goes on, with `yes` the
/// run goes on, and otherwise the user is asked. On yes the projects are
/// cleaned; on no nothing is changed and the summary follows. After
/// cleaning comes the summary, which tells of cleaned projects unless the
/// run was dry. An event that the state does not wait for ends the run.
pub open spec fn clean_transition(
    cli: &Cli,
    state: CleanState,
    event: CleanEvent,
    count: nat,
    bytes: nat,
    loose: Seq<Seq<char>>,
) -> (CleanState, Seq<Command>) {
    match (state, event) {
        (CleanState::Start, CleanEvent::Begun) => if cli.json && !cli.dry_run && !cli.yes {
            (CleanState::Finished, seq![Command::Refuse(conflict_message())])
        } else {
            (
                CleanState::Discovering,
                seq![
                    Command::Discover(
                        ProjectFilter {
                            min_stale: match cli.min_stale {
                                Some(min_stale) => min_stale,
                                None => Duration { nanos: THIRTY_DAYS },
                            },
                            status: if cli.archive {
                                StatusFilter::Any
                            } else {
                                StatusFilter::ExceptClean
                            },
                        },
                    ),
                ],
            )
        },
        (CleanState::Discovering, CleanEvent::Discovered) => if cli.json && cli.dry_run {
            (CleanState::Finished, Seq::empty())
        } else if count == 0 {
            (CleanState::Finished, summary(cli.json, false, count, bytes, loose))
        } else if cli.dry_run {
            (
                CleanState::Cleaning,
                seq![
                    Command::Say { indent: 0, text: Seq::empty(), style: Style::Plain },
                    Command::Say { indent: 0, text: "WOULD DO:"@, style: Style::Bold },
                    Command::Clean { dry_run: true, archive: cli.archive },
                ],
            )
        } else if cli.yes {
            (CleanState::Cleaning, seq![Command::Clean { dry_run: false, archive: cli.archive }])
        } else {
            (
                CleanState::Asking,
                seq![
                    Command::Say { indent: 0, text: Seq::empty(), style: Style::Plain },
                    Command::Ask(question(bytes)),
                ],
            )
        },
        (CleanState::Asking, CleanEvent::Answered(go_on)) => if go_on {
            (
                CleanState::Cleaning,
                seq![Command::Clean { dry_run: cli.dry_run, archive: cli.archive }],
            )
        } else {
            (
                CleanState::Finished,
                seq![Command::Say { indent: 0, text: "No changes made."@, style: Style::Plain }]
                    + summary(cli.json, false, count, bytes, loose),
            )
        },
        (CleanState::Cleaning, CleanEvent::Cleaned) => (
            CleanState::Finished,
            summary(cli.json, !cli.dry_run, count, bytes, loose),
        ),
        _ => (CleanState::Finished, Seq::empty()),
    }
}

fn say(indent: u8, text: &str, style: Style) -> (command: CleanCommand)
    ensures
        command@ == (Command::Say { indent, text: text@, style }),
{
    CleanCommand::Say { indent, text: String::from_str(text), style }
}

fn blank() -> (command: CleanCommand)
    ensures
        command@ == (Command::Say { indent: 0, text: Seq::empty(), style: Style::Plain }),
{
    let text = String::new();
    CleanCommand::Say { indent: 0, text, style: Style::Plain }
}

/// The paths of the projects that are not under version control, in their
/// order.
pub fn unversioned_paths(projects: &Vec<Project>) -> (paths: Vec<String>)
    ensures
        texts(paths@) == unversioned(projects@),
{
    let mut paths: Vec<String> = Vec::new();
    let mut i: usize = 0;
    while i < projects.len()
        invariant
            i <= projects.len(),
            paths@.len() == unversioned(projects@.take(i as int)).len(),
            texts(paths@) == unversioned(projects@.take(i as int)),
        decreases projects.len() - i,
    {
        let ghost before = paths@;
        proof {
            assert(projects@.take(i + 1).drop_last() =~= projects@.take(i as int));
        }
        if projects[i].vcs.is_none() {
            paths.push(projects[i].path.display());
            proof {
                let want = unversioned(projects@.take(i + 1));
                assert forall|j: int| 0 <= j < want.len() implies texts(paths@)[j] == want[j] by {
                    if j < before.len() {
                        assert(texts(before)[j] == unversioned(projects@.take(i as int))[j]);
                    }
                }
                assert(texts(paths@) =~= want);
            }
        }
        i += 1;
    }
    proof {
        assert(projects@.take(projects.len() as int) =~= projects@);
    }
    paths
}

fn push_summary(
    out: &mut Vec<CleanCommand>,
    json: bool,
    has_cleaned: bool,
    count: usize,
    bytes: u64,
    loose: &Vec<String>,
)
    ensures
        commands(final(out)@) == commands(old(out)@) + summary(
            json,
            has_cleaned,
            count as nat,
            bytes as nat,
            texts(loose@),
        ),
{
    let ghost start = commands(out@);
    let ghost old_out = out@;
    let ghost want = summary(json, has_cleaned, count as nat, bytes as nat, texts(loose@));
    if json {
        assert(commands(out@) =~= start + Seq::<Command>::empty());
        return ;
    }
    out.push(blank());
    out.push(say(0, "SUMMARY:", Style::Bold));
    let mut text = String::new();
    push_decimal(&mut text, count as u64);
    if has_cleaned {
        text.append(" ");
    } else {
        text.append(" built ");
    }
    if count == 1 {
        text.append("project");
    } else {
        text.append("projects");
    }
    if has_cleaned {
        text.append(" cleaned, which freed approx. ");
    } else {
        text.append(" found, with ");
    }
    text.append(format_size(bytes).as_str());
    text.append(" of build artifacts and dependencies.");
    assert(text@ =~= summary_text(has_cleaned, count as nat, bytes as nat));
    out.push(CleanCommand::Say { indent: 2, text, style: Style::Green });
    let ghost three = out@;
    assert(three.len() == old_out.len() + 3);
    if loose.len() > 0 {
        let mut heading = String::new();
        push_decimal(&mut heading, loose.len() as u64);
        heading.append(" projects not under version control:");
        assert(heading@ =~= unversioned_heading(loose.len() as nat));
        out.push(CleanCommand::Say { indent: 2, text: heading, style: Style::Red });
        let ghost head = out@;
        let mut i: usize = 0;
        while i < loose.len()
            invariant
                i <= loose.len(),
                out@.len() == head.len() + i,
                forall|j: int| 0 <= j < head.len() ==> out@[j] == head[j],
                forall|j: int|
                    0 <= j < i ==> out@[head.len() + j]@ == (Command::Say {
                        indent: 4,
                        text: loose@[j]@,
                        style: Style::Dim,
                    }),
            decreases loose.len() - i,
        {
            out.push(CleanCommand::Say { indent: 4, text: loose[i].clone(), style: Style::Dim });
            i += 1;
        }
        proof {
            let n = old_out.len() as int;
            assert(want.len() == 4 + loose.len());
            assert forall|j: int| 0 <= j < out@.len() implies commands(out@)[j] == (start
                + want)[j] by {
                if j < n {
                    assert(out@[j] == head[j]);
                    assert(head[j] == old_out[j]);
                } else if j < n + 4 {
                    assert(out@[j] == head[j]);
                } else {
                    assert(out@[head.len() + (j - n - 4)]@ == (Command::Say {
                        indent: 4,
                        text: loose@[j - n - 4]@,
                        style: Style::Dim,
                    }));
                    assert(want[j - n] == (Command::Say {
                        indent: 4,
                        text: texts(loose@)[j - n - 4],
                        style: Style::Dim,
                    }));
                }
            }
            assert(commands(out@) =~= start + want);
        }
    } else {
        proof {
            let n = old_out.len() as int;
            assert(want.len() == 3);
            assert forall|j: int| 0 <= j < out@.len() implies commands(out@)[j] == (start
                + want)[j] by {
                if j < n {
                    assert(out@[j] == old_out[j]);
                }
            }
            assert(commands(out@) =~= start + want);
        }
    }
}

/// Removes what build tools can regenerate from stale projects, and
/// replaces the projects by archives where the options say so: tells what
/// the run does next, when `event` has happened in `state`.
///
/// `projects` are the projects that the run deals with, each path once;
/// before they are found there are none.
pub fn clean(cli: &Cli, state: CleanState, event: CleanEvent, projects: &Vec<Project>) -> (next: (
    CleanState,
    Vec<CleanCommand>,
))
    ensures
        (next.0, commands(next.1@)) == clean_transition(
            cli,
            state,
            event,
            projects@.len(),
            capped(total_freeable(projects@)) as nat,
            unversioned(projects@),
        ),
{
    let count = projects.len();
    let bytes = freeable_bytes(projects);
    let mut out: Vec<CleanCommand> = Vec::new();
    let ghost want = clean_transition(
        cli,
        state,
        event,
        count as nat,
        bytes as nat,
        unversioned(projects@),
    );
    assert(commands(out@) =~= Seq::<Command>::empty());
    match (state, event) {
        (CleanState::Start, CleanEvent::Begun) => {
            if cli.json && !cli.dry_run && !cli.yes {
                out.push(
                    CleanCommand::Refuse(
                        String::from_str("With `--json`, either `--dry-run` or `--yes` is required."),
                    ),
                );
                assert(commands(out@) =~= want.1);
                (CleanState::Finished, out)
            } else {
                out.push(CleanCommand::Discover(clean_filter(cli)));
                assert(commands(out@) =~= want.1);
                (CleanState::Discovering, out)
            }
        },
        (CleanState::Discovering, CleanEvent::Discovered) => {
            if cli.json && cli.dry_run {
                (CleanState::Finished, out)
            } else if count == 0 {
                let loose = unversioned_paths(projects);
                push_summary(&mut out, cli.json, false, count, bytes, &loose);
                assert(commands(out@) =~= want.1);
                (CleanState::Finished, out)
            } else if cli.dry_run {
                out.push(blank());
                out.push(say(0, "WOULD DO:", Style::Bold));
                out.push(CleanCommand::Clean { dry_run: true, archive: cli.archive });
                assert(commands(out@) =~= want.1);
                (CleanState::Cleaning, out)
            } else if cli.yes {
                out.push(CleanCommand::Clean { dry_run: false, archive: cli.archive });
                assert(commands(out@) =~= want.1);
                (CleanState::Cleaning, out)
            } else {
                out.push(blank());
                let mut prompt = String::from_str("Clean up those projects (");
                prompt.append(format_size(bytes).as_str());
                prompt.append(")?");
                out.push(CleanCommand::Ask(prompt));
                assert(commands(out@) =~= want.1);
                (CleanState::Asking, out)
            }
        },
        (CleanState::Asking, CleanEvent::Answered(go_on)) => {
            if go_on {
                out.push(CleanCommand::Clean { dry_run: cli.dry_run, archive: cli.archive });
                assert(commands(out@) =~= want.1);
                (CleanState::Cleaning, out)
            } else {
                out.push(say(0, "No changes made.", Style::Plain));
                let ghost said = commands(out@);
                assert(said =~= seq![
                    Command::Say { indent: 0, text: "No changes made."@, style: Style::Plain },
                ]);
                let loose = unversioned_paths(projects);
                push_summary(&mut out, cli.json, false, count, bytes, &loose);
                (CleanState::Finished, out)
            }
        },
        (CleanState::Cleaning, CleanEvent::Cleaned) => {
            let loose = unversioned_paths(projects);
            push_summary(&mut out, cli.json, !cli.dry_run, count, bytes, &loose);
            assert(commands(out@) =~= want.1);
            (CleanState::Finished, out)
        },
        _ => (CleanState::Finished, out),
    }
}

} // verus!
