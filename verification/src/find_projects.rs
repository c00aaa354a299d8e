//! Finding the projects in a directory tree: which of its directories a
//! walk yields, and which of those are projects.

use vstd::prelude::*;
use crate::build_tool_manager::BuildToolManager;
use crate::build_tools::Probe;
use crate::project::{
    is_project_of, verdict, Candidate, Project, ProjectFilter, Timestamp, Verdict,
};

verus! {

/// A directory that a walk of a tree came across.
#[derive(Debug, Clone, PartialEq, Eq)]
pub struct Visit {
    /// The place, in the list of all that the walk came across, of the
    /// directory that holds this one; `None` for a root of the walk.
    pub parent: Option<usize>,
    /// Whether the directory's name marks it as hidden, or the directory is
    /// one that the operating system keeps for itself.
    pub hidden: bool,
    /// Whether an ignore rule matches the directory.
    pub ignored: bool,
    /// What was found in the directory; `None` where it could not be read.
    pub candidate: Option<Candidate>,
}

/// Whether the walk yields the directory at `i`: a root always, another
/// directory where the walk yields the one that holds it and the directory
/// itself is neither hidden nor ignored.
pub open spec fn yielded(visits: Seq<Visit>, i: int) -> bool
    decreases i,
{
    &&& 0 <= i < visits.len()
    &&& match visits[i].parent {
        None => true,
        Some(p) => p < i && yielded(visits, p as int) && !visits[i].hidden && !visits[i].ignored,
    }
}

/// Whether the directory at `i`, or one above it short of the root, is
/// hidden or ignored.
pub open spec fn pruned(visits: Seq<Visit>, i: int) -> bool
    decreases i,
{
    &&& 0 <= i < visits.len()
    &&& match visits[i].parent {
        None => false,
        Some(p) => visits[i].hidden || visits[i].ignored || (p < i && pruned(visits, p as int)),
    }
}

/// Whether the directory at `i` is yielded and makes a project that the
/// filter lets through.
pub open spec fn accepted(
    visits: Seq<Visit>,
    i: int,
    filter: &ProjectFilter,
    probes: Seq<Probe>,
    now: Timestamp,
) -> bool {
    &&& yielded(visits, i)
    &&& visits[i].candidate.is_some()
    &&& verdict(&visits[i].candidate.unwrap(), filter, probes, now) == Verdict::Accepted
}

/// The places of the accepted directories among the first `upto`, in the
/// order of the walk.
pub open spec fn accepted_upto(
    visits: Seq<Visit>,
    upto: int,
    filter: &ProjectFilter,
    probes: Seq<Probe>,
    now: Timestamp,
) -> Seq<int>
    decreases upto,
{
    if upto <= 0 {
        Seq::empty()
    } else if accepted(visits, upto - 1, filter, probes, now) {
        accepted_upto(visits, upto - 1, filter, probes, now).push(upto - 1)
    } else {
        accepted_upto(visits, upto - 1, filter, probes, now)
    }
}

/// Whether every candidate in the list is a valid one.
pub open spec fn valid_visits(visits: Seq<Visit>) -> bool {
    forall|i: int|
        0 <= i < visits.len() && (#[trigger] visits[i]).candidate.is_some()
            ==> visits[i].candidate.unwrap().wf()
}

/// Tells for each directory whether the walk yields it.
pub fn walk(visits: &Vec<Visit>) -> (flags: Vec<bool>)
    ensures
        flags@.len() == visits@.len(),
        forall|i: int| 0 <= i < visits@.len() ==> flags@[i] == yielded(visits@, i),
{
    let mut flags: Vec<bool> = Vec::new();
    let mut i: usize = 0;
    while i < visits.len()
        invariant
            i <= visits.len(),
            flags@.len() == i,
            forall|j: int| 0 <= j < i ==> flags@[j] == yielded(visits@, j),
        decreases visits.len() - i,
    {
        let flag = match visits[i].parent {
            None => true,
            Some(p) => p < i && flags[p] && !visits[i].hidden && !visits[i].ignored,
        };
        flags.push(flag);
        i += 1;
    }
    flags
}

/// The projects in and below the roots of a walk: of the directories that
/// the walk came across, in its order, those that it yields and that make a
/// project which the filter lets through. A directory that could not be
/// read, or that cannot be made a project, is left out and ends nothing.
pub fn projects_below(
    visits: &Vec<Visit>,
    project_filter: &ProjectFilter,
    build_tool_manager: &BuildToolManager,
    now: Timestamp,
) -> (projects: Vec<Project>)
    requires
        now.wf(),
        valid_visits(visits@),
    ensures
        projects@.len() == accepted_upto(
            visits@,
            visits@.len() as int,
            project_filter,
            build_tool_manager@,
            now,
        ).len(),
        forall|k: int|
            0 <= k < projects@.len() ==> (#[trigger] projects@[k]).wf() && is_project_of(
                projects@[k],
                &visits@[accepted_upto(
                    visits@,
                    visits@.len() as int,
                    project_filter,
                    build_tool_manager@,
                    now,
                )[k]].candidate.unwrap(),
                build_tool_manager@,
            ),
{
    let flags = walk(visits);
    let mut projects: Vec<Project> = Vec::new();
    let mut i: usize = 0;
    while i < visits.len()
        invariant
            i <= visits.len(),
            now.wf(),
            valid_visits(visits@),
            flags@.len() == visits@.len(),
            forall|j: int| 0 <= j < visits@.len() ==> flags@[j] == yielded(visits@, j),
            projects@.len() == accepted_upto(
                visits@,
                i as int,
                project_filter,
                build_tool_manager@,
                now,
            ).len(),
            forall|k: int|
                0 <= k < projects@.len() ==> (#[trigger] projects@[k]).wf() && is_project_of(
                    projects@[k],
                    &visits@[accepted_upto(
                        visits@,
                        i as int,
                        project_filter,
                        build_tool_manager@,
                        now,
                    )[k]].candidate.unwrap(),
                    build_tool_manager@,
                ),
        decreases visits.len() - i,
    {
        if flags[i] {
            match &visits[i].candidate {
                Some(candidate) => {
                    match Project::from_dir(candidate, project_filter, build_tool_manager, now) {
                        Ok(Some(project)) => {
                            projects.push(project);
                        },
                        _ => {},
                    }
                },
                None => {},
            }
        }
        i += 1;
    }
    projects
}

/// What is hidden or ignored is never yielded, and neither is anything
/// below it: no project is found there, whether or not the tree is under
/// version control.
pub proof fn lemma_pruned_is_not_yielded(visits: Seq<Visit>, i: int)
    requires
        pruned(visits, i),
    ensures
        !yielded(visits, i),
    decreases i,
{
    match visits[i].parent {
        None => {},
        Some(p) => {
            if !visits[i].hidden && !visits[i].ignored && p < i {
                lemma_pruned_is_not_yielded(visits, p as int);
            }
        },
    }
}

/// Every accepted directory is among the places found, each once, and the
/// places are in the order of the walk: a project inside another project is
/// found beside it, each with its own path.
pub proof fn lemma_accepted_are_found(
    visits: Seq<Visit>,
    upto: int,
    filter: &ProjectFilter,
    probes: Seq<Probe>,
    now: Timestamp,
)
    requires
        0 <= upto <= visits.len(),
    ensures
        forall|i: int|
            0 <= i < upto && accepted(visits, i, filter, probes, now) ==> accepted_upto(
                visits,
                upto,
                filter,
                probes,
                now,
            ).contains(i),
        forall|k: int|
            0 <= k < accepted_upto(visits, upto, filter, probes, now).len() ==> {
                let at = #[trigger] accepted_upto(visits, upto, filter, probes, now)[k];
                0 <= at < upto && accepted(visits, at, filter, probes, now)
            },
        forall|k: int, l: int|
            0 <= k < l < accepted_upto(visits, upto, filter, probes, now).len()
                ==> accepted_upto(visits, upto, filter, probes, now)[k] < accepted_upto(
                visits,
                upto,
                filter,
                probes,
                now,
            )[l],
    decreases upto,
{
    if upto > 0 {
        lemma_accepted_are_found(visits, upto - 1, filter, probes, now);
        let shorter = accepted_upto(visits, upto - 1, filter, probes, now);
        let longer = accepted_upto(visits, upto, filter, probes, now);
        assert forall|i: int|
            0 <= i < upto && accepted(visits, i, filter, probes, now) implies longer.contains(
            i,
        ) by {
            if i < upto - 1 {
                let k = choose|k: int| 0 <= k < shorter.len() && shorter[k] == i;
                assert(longer[k] == i);
            } else {
                assert(longer[longer.len() - 1] == i);
            }
        }
    }
}

} // verus!
