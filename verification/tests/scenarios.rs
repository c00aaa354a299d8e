use makeclean::build_tool_manager::BuildToolManager;
use makeclean::build_tools::{BuildToolKind, CleanAction};
use makeclean::cli::{parse_duration, Cli};
use makeclean::find_projects::{projects_below, Visit};
use makeclean::fs::{Directory, SubDir};
use makeclean::path::CanonicalPath;
use makeclean::project::dto::ProjectDto;
use makeclean::project::vcs::Discovery;
use makeclean::project::{Candidate, Duration, Project, Timestamp};
use makeclean::{clean_filter, list, list_filter};

const DAY: i128 = 86_400_000_000_000;

fn path(steps: &[&str]) -> CanonicalPath {
    CanonicalPath::new(steps.iter().map(|s| s.to_string()).collect()).unwrap()
}

fn now() -> Timestamp {
    // 2022-03-05 15:00 UTC
    Timestamp { unix_nanos: 1_646_492_400_000_000_000 }
}

/// A directory that was last modified `age` before now.
fn visit(steps: &[&str], parent: Option<usize>, files: &[&str], subdirs: &[(&str, u64)], age: i128) -> Visit {
    Visit {
        parent,
        hidden: false,
        ignored: false,
        candidate: Some(Candidate {
            dir: Directory {
                path: path(steps),
                files: files.iter().map(|s| s.to_string()).collect(),
                subdirs: subdirs
                    .iter()
                    .map(|(name, size)| SubDir { name: name.to_string(), size: *size, ignored: false })
                    .collect(),
                cargo_package: if files.contains(&"Cargo.toml") {
                    Some("cargo_test_project".to_string())
                } else {
                    None
                },
                pubspec_name: None,
            },
            mtime: Some(Timestamp { unix_nanos: now().unix_nanos - age }),
            vcs: Discovery::NotFound,
        }),
    }
}

fn options(min_stale: Option<&str>, types: &[BuildToolKind]) -> Cli {
    Cli {
        json: true,
        list: true,
        min_stale: min_stale.map(|text| parse_duration(text).unwrap()),
        types: types.to_vec(),
        dry_run: false,
        yes: false,
        archive: false,
        directories: vec![".".to_string()],
    }
}

/// What listing shows for these directories with these options.
fn listed(cli: &Cli, visits: &Vec<Visit>) -> Vec<ProjectDto> {
    let mut manager = BuildToolManager::default();
    if !cli.types.is_empty() {
        manager.filter(&cli.types);
    }
    let found = projects_below(visits, &list_filter(cli), &manager, now());
    list(cli, found).projects.iter().map(|p| ProjectDto::from(p).unwrap()).collect()
}

/// What cleaning deals with for these directories with these options.
fn to_clean(cli: &Cli, visits: &Vec<Visit>) -> Vec<Project> {
    let manager = BuildToolManager::default();
    projects_below(visits, &clean_filter(cli), &manager, now())
}

fn new_project() -> Vec<Visit> {
    vec![
        visit(&["tmp", "root"], None, &[], &[("project", 0)], 0),
        visit(&["tmp", "root", "project"], Some(0), &["Cargo.toml"], &[("src", 0)], 0),
        visit(&["tmp", "root", "project", "src"], Some(1), &["main.rs"], &[], 0),
    ]
}

fn built_project(age: i128) -> Vec<Visit> {
    vec![
        visit(&["tmp", "root"], None, &[], &[("project", 0)], age),
        visit(&["tmp", "root", "project"], Some(0), &["Cargo.toml"], &[("src", 0), ("target", 7000)], age),
        visit(&["tmp", "root", "project", "src"], Some(1), &["main.rs"], &[], age),
    ]
}

#[test]
fn list_find_new_project_without_git() {
    let projects = listed(&options(None, &[]), &new_project());

    // We expect a single project
    assert_eq!(projects.len(), 1);
    assert_eq!(projects[0].path, "/tmp/root/project");
    assert_eq!(projects[0].vcs, None);
}

#[test]
fn list_subprojects_are_discovered() {
    // Setup: a Cargo project that contains a NPM project (e.g. a frontend) in a subdirectory.
    let visits = vec![
        visit(&["tmp", "root"], None, &["Cargo.toml"], &[("web", 0)], 0),
        visit(&["tmp", "root", "web"], Some(0), &["package.json"], &[], 0),
    ];
    let projects = listed(&options(None, &[]), &visits);

    // Both projects are discovered:
    assert_eq!(projects.len(), 2, "Expected both projects, got: {projects:?}");
    assert!(projects.iter().any(|p| p.path == "/tmp/root" && p.build_tools == vec!["Cargo"]));
    assert!(projects.iter().any(|p| p.path == "/tmp/root/web" && p.build_tools == vec!["NPM"]));
}

#[test]
fn list_finds_project_with_project_type_filter() {
    for filter in [BuildToolKind::Cargo, BuildToolKind::Rust, BuildToolKind::Rs] {
        let projects = listed(&options(None, &[filter]), &new_project());

        // We expect a single project
        assert_eq!(projects.len(), 1);
        assert_eq!(projects[0].path, "/tmp/root/project");
    }
}

#[test]
fn list_doesnt_find_project_with_different_project_type_filter() {
    let projects = listed(&options(None, &[BuildToolKind::Npm]), &new_project());
    assert!(projects.is_empty(), "Expected no output, got: {projects:?}");
}

#[test]
fn doesnt_find_new_project_with_min_stale_set() {
    let projects = listed(&options(Some("1d"), &[]), &new_project());
    assert!(projects.is_empty(), "Expected no output, got: {projects:?}");
}

#[test]
fn finds_projects_according_to_min_stale() {
    // Turn back time
    let three_months = DAY * 30 * 3;
    let visits = built_project(three_months);

    // We don't find the project with --min-stale=4m
    let projects = listed(&options(Some("4m"), &[]), &visits);
    assert!(projects.is_empty(), "Expected no output, got: {projects:?}");

    // However, we find the project with --min-stale=2m
    let projects = listed(&options(Some("2m"), &[]), &visits);
    assert_eq!(projects.len(), 1);
    assert_eq!(projects[0].path, "/tmp/root/project");
}

#[test]
fn by_default_finds_only_projects_than_need_cleaning() {
    let mut cli = options(Some("0"), &[]);
    cli.list = false;
    assert_eq!(to_clean(&cli, &new_project()).len(), 0);
    let projects = to_clean(&cli, &built_project(0));
    assert_eq!(projects.len(), 1);
    assert_eq!(projects[0].path, path(&["tmp", "root", "project"]));
    // Where projects are to be archived, clean ones count too.
    cli.archive = true;
    assert_eq!(to_clean(&cli, &new_project()).len(), 1);
}

#[test]
fn doesnt_find_new_project_with_default_min_age() {
    let mut cli = options(None, &[]);
    cli.list = false;
    assert_eq!(clean_filter(&cli).min_stale, Duration { nanos: 30 * DAY });
    assert_eq!(to_clean(&cli, &built_project(0)).len(), 0);
    assert_eq!(to_clean(&cli, &built_project(30 * DAY - 1)).len(), 0);
    assert_eq!(to_clean(&cli, &built_project(30 * DAY)).len(), 1);
}

#[test]
fn clean_built_project_removes_target_dir() {
    let mut cli = options(Some("0"), &[BuildToolKind::Cargo]);
    cli.list = false;
    cli.yes = true;
    let projects = to_clean(&cli, &built_project(0));
    assert_eq!(projects.len(), 1);
    assert_eq!(projects[0].freeable_bytes(), 7000);
    assert_eq!(
        projects[0].clean(false),
        vec![CleanAction::RemoveDir(path(&["tmp", "root", "project", "target"]))]
    );
}

#[test]
fn cleaning_with_dry_run_is_a_noop() {
    let mut cli = options(Some("0"), &[BuildToolKind::Cargo]);
    cli.list = false;
    cli.dry_run = true;
    let projects = to_clean(&cli, &built_project(0));
    assert_eq!(projects.len(), 1);
    let plan = projects[0].clean(true);
    assert_eq!(plan, vec![CleanAction::Print("rm -r '/tmp/root/project/target'".to_string())]);
    assert!(plan.iter().all(|action| matches!(action, CleanAction::Print(_))));
}
