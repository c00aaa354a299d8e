use makeclean::build_tool_manager::BuildToolManager;
use makeclean::build_tools::elm::ElmProbe;
use makeclean::build_tools::Probe;
use makeclean::find_projects::{projects_below, walk, Visit};
use makeclean::fs::Directory;
use makeclean::path::CanonicalPath;
use makeclean::project::vcs::Discovery;
use makeclean::project::{Candidate, Duration, Project, ProjectFilter, StatusFilter, Timestamp};

fn path(steps: &[&str]) -> CanonicalPath {
    CanonicalPath::new(steps.iter().map(|s| s.to_string()).collect()).unwrap()
}

/// A directory as a walk comes across it; with `project`, it holds the
/// marker file of the one build tool that is asked.
fn visit(steps: &[&str], parent: Option<usize>, project: bool) -> Visit {
    let name = steps.last().copied().unwrap_or("");
    Visit {
        parent,
        hidden: name.starts_with('.'),
        ignored: false,
        candidate: Some(Candidate {
            dir: Directory {
                path: path(steps),
                files: if project { vec!["elm.json".to_string()] } else { vec![] },
                subdirs: vec![],
                cargo_package: None,
                pubspec_name: None,
            },
            mtime: Some(Timestamp { unix_nanos: 0 }),
            vcs: Discovery::NotFound,
        }),
    }
}

fn build_tool_manager() -> BuildToolManager {
    let mut btm = BuildToolManager::default();
    // remove all default probes
    btm.filter(&[]);

    btm.register(Probe::Elm(ElmProbe));

    btm
}

fn project_filter() -> ProjectFilter {
    ProjectFilter { min_stale: Duration { nanos: 0 }, status: StatusFilter::Any }
}

fn now() -> Timestamp {
    Timestamp { unix_nanos: 1 }
}

fn below(visits: &Vec<Visit>) -> Vec<Project> {
    projects_below(visits, &project_filter(), &build_tool_manager(), now())
}

#[test]
fn finds_project_in_root_dir() {
    let visits = vec![visit(&["tmp", "root"], None, true)];
    let projects = below(&visits);

    assert_eq!(projects.len(), 1);
    assert_eq!(projects[0].path, path(&["tmp", "root"]));
}

#[test]
fn finds_project_in_subdir() {
    let visits = vec![
        visit(&["tmp", "root"], None, false),
        visit(&["tmp", "root", "subdir"], Some(0), true),
    ];
    let projects = below(&visits);

    assert_eq!(projects.len(), 1);
    assert_eq!(projects[0].path, path(&["tmp", "root", "subdir"]));
}

#[test]
fn finds_nested_project_in_subdir_of_project() {
    let visits = vec![
        visit(&["tmp", "root"], None, true),
        visit(&["tmp", "root", "subdir"], Some(0), true),
    ];
    let projects = below(&visits);

    assert_eq!(projects.len(), 2);
    // the order is that of the walk
    assert_eq!(projects[0].path, path(&["tmp", "root"]));
    assert_eq!(projects[1].path, path(&["tmp", "root", "subdir"]));
}

#[test]
fn skips_project_in_hidden_dir() {
    let visits = vec![
        visit(&["tmp", "root"], None, false),
        visit(&["tmp", "root", ".hidden-dir"], Some(0), true),
    ];
    let projects = below(&visits);

    assert!(projects.is_empty());
}

#[test]
fn skips_project_in_gitignored_dir_even_outside_git_repositories() {
    // an ignore rule matches the directory, and there is no repository
    let mut ignored = visit(&["tmp", "root", "ignored-dir"], Some(0), true);
    ignored.ignored = true;
    let visits = vec![visit(&["tmp", "root"], None, false), ignored];
    let projects = below(&visits);

    assert!(projects.is_empty());
}

#[test]
fn list_directories_ignored_by_git_are_not_considered() {
    let mut ignored = visit(&["tmp", "root", "ignored_dir"], Some(0), true);
    ignored.ignored = true;
    let visits = vec![
        visit(&["tmp", "root"], None, false),
        visit(&["tmp", "root", "normal_dir"], Some(0), true),
        ignored,
    ];
    let projects = below(&visits);
    assert_eq!(projects.len(), 1);
    assert_eq!(projects[0].path, path(&["tmp", "root", "normal_dir"]));
}

#[test]
fn nothing_below_a_pruned_directory_is_found() {
    let mut ignored = visit(&["r", "vendor"], Some(0), false);
    ignored.ignored = true;
    let visits = vec![
        visit(&["r"], None, false),
        ignored,
        visit(&["r", "vendor", "lib"], Some(1), true),
        visit(&["r", "vendor", "lib", "deep"], Some(2), true),
        visit(&["r", ".cache"], Some(0), false),
        visit(&["r", ".cache", "p"], Some(4), true),
        visit(&["r", "src"], Some(0), false),
        visit(&["r", "src", "p"], Some(6), true),
    ];
    assert_eq!(walk(&visits), vec![true, false, false, false, false, false, true, true]);
    let projects = below(&visits);
    assert_eq!(projects.len(), 1);
    assert_eq!(projects[0].path, path(&["r", "src", "p"]));
}

#[test]
fn a_root_is_walked_even_where_it_is_hidden_or_ignored() {
    let mut root = visit(&["home", ".config"], None, true);
    root.ignored = true;
    assert!(root.hidden);
    let visits = vec![root, visit(&["home", ".config", "tool"], Some(0), true)];
    assert_eq!(walk(&visits), vec![true, true]);
    assert_eq!(below(&visits).len(), 2);
}

#[test]
fn a_directory_that_could_not_be_read_is_left_out_and_ends_nothing() {
    let mut unreadable = visit(&["r", "locked"], Some(0), true);
    unreadable.candidate = None;
    let mut empty = visit(&["r", "empty"], Some(0), true);
    empty.candidate.as_mut().unwrap().mtime = None;
    let visits = vec![visit(&["r"], None, false), unreadable, empty, visit(&["r", "ok"], Some(0), true)];
    let projects = below(&visits);
    assert_eq!(projects.len(), 1);
    assert_eq!(projects[0].path, path(&["r", "ok"]));
}

#[test]
fn a_directory_whose_parent_is_not_before_it_is_not_walked() {
    let visits = vec![visit(&["r", "a"], Some(1), true), visit(&["r"], None, false)];
    assert_eq!(walk(&visits), vec![false, true]);
    let visits = vec![visit(&["r"], Some(0), true), visit(&["q"], Some(7), true)];
    assert_eq!(walk(&visits), vec![false, false]);
    assert_eq!(walk(&vec![]), vec![]);
}
