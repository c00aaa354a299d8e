use makeclean::build_tool_manager::BuildToolManager;
use makeclean::build_tools::{BuildToolKind, CleanAction, NameError, Tool};
use makeclean::fs::{Directory, SubDir};
use makeclean::path::CanonicalPath;
use makeclean::project::dto::{ProjectDto, VcsDto};
use makeclean::project::vcs::{Discovery, Git, VersionControlSystem};
use makeclean::project::{
    project_name_from, Candidate, Duration, Project, ProjectError, ProjectFilter, StatusFilter,
    Timestamp,
};

const SECOND: i128 = 1_000_000_000;
const DAY: i128 = 86_400 * SECOND;

fn path(steps: &[&str]) -> CanonicalPath {
    CanonicalPath::new(steps.iter().map(|s| s.to_string()).collect()).unwrap()
}

fn subdir(name: &str, size: u64) -> SubDir {
    SubDir { name: name.to_string(), size, ignored: false }
}

fn candidate(steps: &[&str], files: &[&str], subdirs: Vec<SubDir>, mtime: i128) -> Candidate {
    Candidate {
        dir: Directory {
            path: path(steps),
            files: files.iter().map(|s| s.to_string()).collect(),
            subdirs,
            cargo_package: if files.contains(&"Cargo.toml") {
                Some("cargo_test_project".to_string())
            } else {
                None
            },
            pubspec_name: None,
        },
        mtime: Some(Timestamp { unix_nanos: mtime }),
        vcs: Discovery::NotFound,
    }
}

fn filter(min_stale: i128, status: StatusFilter) -> ProjectFilter {
    ProjectFilter { min_stale: Duration { nanos: min_stale }, status }
}

fn now() -> Timestamp {
    Timestamp { unix_nanos: 1_000 * DAY }
}

#[test]
fn a_directory_without_build_tool_is_no_project() {
    let c = candidate(&["home", "docs"], &["README.md"], vec![], 0);
    let r = Project::from_dir(&c, &filter(0, StatusFilter::Any), &BuildToolManager::default(), now());
    assert_eq!(r, Ok(None));
    let c = candidate(&["home", "p"], &["Cargo.toml"], vec![], 0);
    let r = Project::from_dir(&c, &filter(0, StatusFilter::Any), &BuildToolManager::new(), now());
    assert_eq!(r, Ok(None));
}

#[test]
fn a_project_takes_over_what_was_found() {
    let mut c = candidate(&["home", "me", "demo"], &["Cargo.toml", "package.json"], vec![subdir("target", 7)], 5);
    c.vcs = Discovery::Found(path(&["home", "me"]));
    let p = Project::from_dir(&c, &filter(0, StatusFilter::Any), &BuildToolManager::default(), now())
        .unwrap()
        .unwrap();
    assert_eq!(p.name, "cargo_test_project");
    assert_eq!(p.path, path(&["home", "me", "demo"]));
    assert_eq!(p.build_tools.len(), 2);
    assert!(matches!(p.build_tools[0], Tool::Cargo(_)));
    assert!(matches!(p.build_tools[1], Tool::Npm(_)));
    assert_eq!(p.vcs, Some(VersionControlSystem::Git(Git { root: path(&["home", "me"]) })));
    assert_eq!(p.mtime, Timestamp { unix_nanos: 5 });
    assert_eq!(p.subdirs, vec![subdir("target", 7)]);
    assert_eq!(p.freeable_bytes(), 7);
}

#[test]
fn a_project_without_a_named_tool_is_called_like_its_directory() {
    let c = candidate(&["home", "me", "shop"], &["package.json", "elm.json"], vec![], 0);
    let p = Project::from_dir(&c, &filter(0, StatusFilter::Any), &BuildToolManager::default(), now())
        .unwrap()
        .unwrap();
    assert_eq!(p.name, "shop");
    assert_eq!(project_name_from(&path(&["a", "b"]), &vec![]), Ok("b".to_string()));
    assert_eq!(project_name_from(&CanonicalPath::root(), &vec![]), Err(NameError::NoDirectoryName));
}

#[test]
fn the_first_tool_that_tells_a_name_decides() {
    let mut c = candidate(&["w"], &["package.json", "Cargo.toml"], vec![], 0);
    c.dir.pubspec_name = Some("from_pubspec".to_string());
    let manager = BuildToolManager::default();
    let tools = manager.probe(&c.dir);
    // Cargo is asked before Flutter, NPM tells no name.
    assert_eq!(project_name_from(&c.dir.path, &tools), Ok("cargo_test_project".to_string()));
    let mut manager = BuildToolManager::default();
    manager.filter(&[BuildToolKind::Flutter, BuildToolKind::Npm]);
    assert_eq!(project_name_from(&c.dir.path, &manager.probe(&c.dir)), Ok("from_pubspec".to_string()));
}

#[test]
fn a_manifest_that_tells_no_name_turns_the_candidate_down() {
    let mut c = candidate(&["home", "me", "broken"], &["Cargo.toml", "elm.json"], vec![], 0);
    c.dir.cargo_package = None;
    let manager = BuildToolManager::default();
    assert_eq!(project_name_from(&c.dir.path, &manager.probe(&c.dir)), Err(NameError::Manifest));
    assert_eq!(Project::from_dir(&c, &filter(0, StatusFilter::Any), &manager, now()), Ok(None));
}

#[test]
fn a_clean_project_is_left_out_only_where_clean_ones_are_not_asked_for() {
    let manager = BuildToolManager::default();
    let clean = candidate(&["p"], &["Cargo.toml"], vec![subdir("src", 10)], 0);
    let built = candidate(&["p"], &["Cargo.toml"], vec![subdir("target", 10)], 0);
    assert!(Project::from_dir(&clean, &filter(0, StatusFilter::Any), &manager, now()).unwrap().is_some());
    assert_eq!(Project::from_dir(&clean, &filter(0, StatusFilter::ExceptClean), &manager, now()), Ok(None));
    assert!(Project::from_dir(&built, &filter(0, StatusFilter::ExceptClean), &manager, now())
        .unwrap()
        .is_some());
}

#[test]
fn one_tool_that_is_not_clean_keeps_the_candidate() {
    let manager = BuildToolManager::default();
    let c = candidate(&["p"], &["Cargo.toml", "package.json"], vec![subdir("node_modules", 3)], 0);
    let p = Project::from_dir(&c, &filter(0, StatusFilter::ExceptClean), &manager, now()).unwrap().unwrap();
    assert_eq!(p.freeable_bytes(), 3);
}

#[test]
fn a_tool_that_cannot_tell_does_not_count_as_clean() {
    let mut manager = BuildToolManager::new();
    makeclean::build_tools::maven::register(&mut manager);
    let c = candidate(&["p"], &["pom.xml"], vec![], 0);
    let p = Project::from_dir(&c, &filter(0, StatusFilter::ExceptClean), &manager, now()).unwrap().unwrap();
    assert_eq!(p.freeable_bytes(), 0);
    assert_eq!(p.name, "p");
}

#[test]
fn a_project_is_stale_from_exactly_min_stale_on() {
    let manager = BuildToolManager::default();
    let min_stale = 30 * DAY;
    let f = filter(min_stale, StatusFilter::Any);
    let modified = |mtime: i128| {
        let c = candidate(&["p"], &["Cargo.toml"], vec![], mtime);
        Project::from_dir(&c, &f, &manager, now()).unwrap().is_some()
    };
    // A second more than min_stale ago: stale.
    assert!(modified(now().unix_nanos - min_stale - SECOND));
    // Exactly min_stale ago: stale.
    assert!(modified(now().unix_nanos - min_stale));
    assert!(!modified(now().unix_nanos - min_stale + 1));
    // A second less than min_stale ago: too recent.
    assert!(!modified(now().unix_nanos - min_stale + SECOND));
    assert!(!modified(now().unix_nanos));
    assert!(!modified(now().unix_nanos + DAY));
}

#[test]
fn a_project_without_files_is_an_error() {
    let mut c = candidate(&["p"], &["Cargo.toml"], vec![], 0);
    c.mtime = None;
    let r = Project::from_dir(&c, &filter(0, StatusFilter::Any), &BuildToolManager::default(), now());
    assert_eq!(r, Err(ProjectError::NoFiles));
}

#[test]
fn a_failed_search_for_a_repository_is_an_error_of_a_stale_project_only() {
    let manager = BuildToolManager::default();
    let mut c = candidate(&["p"], &["Cargo.toml"], vec![], 0);
    c.vcs = Discovery::Failed("permission denied".to_string());
    assert_eq!(
        Project::from_dir(&c, &filter(0, StatusFilter::Any), &manager, now()),
        Err(ProjectError::Vcs("permission denied".to_string()))
    );
    assert_eq!(Project::from_dir(&c, &filter(2_000 * DAY, StatusFilter::Any), &manager, now()), Ok(None));
}

#[test]
fn vcs_works_in_the_subdirectory_of_a_git_repo() {
    // The repository is at the root; we operate in the "foo" subdirectory.
    let root = path(&["tmp", "root"]);
    let vcs = VersionControlSystem::try_from(&Discovery::Found(root.clone())).unwrap().unwrap();
    assert_eq!(vcs.name(), "Git");
    assert_eq!(vcs.root(), root);

    assert_eq!(VersionControlSystem::try_from(&Discovery::NotFound), Ok(None));
    let failed = VersionControlSystem::try_from(&Discovery::Failed("bad object".to_string()));
    assert_eq!(failed.unwrap_err().message, "bad object");
    assert_eq!(Git::try_from(&Discovery::NotFound), Ok(None));
}

#[test]
fn cleaning_a_project_goes_through_its_tools() {
    let c = candidate(
        &["w"],
        &["Cargo.toml", "package.json"],
        vec![subdir("node_modules", 3), subdir("target", 5), subdir("src", 1)],
        0,
    );
    let p = Project::from_dir(&c, &filter(0, StatusFilter::Any), &BuildToolManager::default(), now())
        .unwrap()
        .unwrap();
    assert_eq!(p.freeable_bytes(), 8);
    assert_eq!(
        p.clean(false),
        vec![
            CleanAction::RemoveDir(path(&["w", "target"])),
            CleanAction::RemoveDir(path(&["w", "node_modules"])),
        ]
    );
    assert_eq!(
        p.clean(true),
        vec![
            CleanAction::Print("rm -r '/w/target'".to_string()),
            CleanAction::Print("rm -r '/w/node_modules'".to_string()),
        ]
    );
}

#[test]
fn a_directory_that_two_tools_regenerate_is_removed_once() {
    let mut c = candidate(
        &["app"],
        &["build.gradle", "settings.gradle"],
        vec![subdir("build", 9), subdir(".dart_tool", 1)],
        0,
    );
    c.dir.pubspec_name = Some("app".to_string());
    let p = Project::from_dir(&c, &filter(0, StatusFilter::Any), &BuildToolManager::default(), now())
        .unwrap()
        .unwrap();
    assert_eq!(p.build_tools.len(), 2);
    // Both tools count the directory.
    assert_eq!(p.freeable_bytes(), 19);
    assert_eq!(
        p.clean(false),
        vec![
            CleanAction::RemoveDir(path(&["app", "build"])),
            CleanAction::RemoveDir(path(&["app", ".dart_tool"])),
        ]
    );
    // In a dry run nothing is removed, so both tools tell of it.
    assert_eq!(
        p.clean(true),
        vec![
            CleanAction::Print("rm -r '/app/build'".to_string()),
            CleanAction::Print("rm -r '/app/.dart_tool'".to_string()),
            CleanAction::Print("rm -r '/app/build'".to_string()),
        ]
    );
}

#[test]
fn clean_cleaning_a_cleaned_project_is_a_noop() {
    let c = candidate(&["project"], &["Cargo.toml"], vec![subdir("src", 12)], 0);
    let p = Project::from_dir(&c, &filter(0, StatusFilter::Any), &BuildToolManager::default(), now())
        .unwrap()
        .unwrap();
    assert_eq!(p.freeable_bytes(), 0);
    assert_eq!(p.clean(false), vec![]);
    assert_eq!(p.clean(true), vec![]);
}

#[test]
fn a_project_is_handed_out_as_text() {
    let mut c = candidate(&["home", "me", "demo"], &["Cargo.toml", "package.json"], vec![], 1_500_000_000);
    c.vcs = Discovery::Found(path(&["home", "me"]));
    let p = Project::from_dir(&c, &filter(0, StatusFilter::Any), &BuildToolManager::default(), now())
        .unwrap()
        .unwrap();
    assert_eq!(
        ProjectDto::from(&p),
        Some(ProjectDto {
            name: "cargo_test_project".to_string(),
            path: "/home/me/demo".to_string(),
            build_tools: vec!["Cargo".to_string(), "NPM".to_string()],
            vcs: Some(VcsDto { name: "Git".to_string(), root: "/home/me".to_string() }),
            mtime: "1970-01-01T00:00:01.5Z".to_string(),
        })
    );
    let mut p = p;
    p.vcs = None;
    p.mtime = Timestamp { unix_nanos: i128::MAX };
    assert_eq!(ProjectDto::from(&p), None);
    // The format has no place for a year before the year nought.
    p.mtime = Timestamp { unix_nanos: -63_000_000_000_000_000_000 };
    assert_eq!(ProjectDto::from(&p), None);
    p.mtime = Timestamp { unix_nanos: 0 };
    assert_eq!(ProjectDto::from(&p).unwrap().vcs, None);
    assert_eq!(ProjectDto::from(&p).unwrap().mtime, "1970-01-01T00:00:00Z");
    p.mtime = Timestamp { unix_nanos: 1_646_492_649_000_000_000 };
    assert_eq!(ProjectDto::from(&p).unwrap().mtime, "2022-03-05T15:04:09Z");
}

#[test]
fn a_project_is_named_in_a_line() {
    let mut c = candidate(&["home", "me", "demo"], &["Cargo.toml", "package.json"], vec![], 0);
    c.vcs = Discovery::Found(path(&["home", "me"]));
    let mut p = Project::from_dir(&c, &filter(0, StatusFilter::Any), &BuildToolManager::default(), now())
        .unwrap()
        .unwrap();
    assert_eq!(p.display(), "/home/me/demo (Cargo, NPM; VCS: Git(Git { root: \"/home/me\" }))");
    p.vcs = None;
    assert_eq!(p.display(), "/home/me/demo (Cargo, NPM; VCS: none)");
}
