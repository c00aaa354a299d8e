use makeclean::build_tools::cargo::Cargo;
use makeclean::build_tools::npm::Npm;
use makeclean::build_tools::Tool;
use makeclean::cli::Cli;
use makeclean::fs::SubDir;
use makeclean::path::CanonicalPath;
use makeclean::project::vcs::{Git, VersionControlSystem};
use makeclean::project::{Duration, Project, ProjectFilter, StatusFilter, Timestamp};
use makeclean::{
    clean, clean_filter, freeable_bytes, list, list_filter, pretty_print_project, project_info,
    unique_by_path, unversioned_paths, CleanCommand, CleanEvent, CleanState, ProjectPath, Style,
};

const DAY: i128 = 86_400_000_000_000;

fn path(steps: &[&str]) -> CanonicalPath {
    CanonicalPath::new(steps.iter().map(|s| s.to_string()).collect()).unwrap()
}

fn project(steps: &[&str], target: u64, repo: Option<&[&str]>) -> Project {
    Project {
        name: steps.last().unwrap().to_string(),
        path: path(steps),
        build_tools: vec![Tool::Cargo(Cargo { dir: path(steps), package_name: None })],
        vcs: repo.map(|root| VersionControlSystem::Git(Git { root: path(root) })),
        // 2022-03-05 15:00 UTC
        mtime: Timestamp { unix_nanos: 1_646_492_400_000_000_000 },
        subdirs: vec![SubDir { name: "target".to_string(), size: target, ignored: false }],
    }
}

fn cli() -> Cli {
    Cli {
        json: false,
        list: false,
        min_stale: None,
        types: vec![],
        dry_run: false,
        yes: false,
        archive: false,
        directories: vec![".".to_string()],
    }
}

fn say(indent: u8, text: &str, style: Style) -> CleanCommand {
    CleanCommand::Say { indent, text: text.to_string(), style }
}

#[test]
fn accepts_multiple_directories_as_input_and_deduplicates_by_path() {
    let a = project(&["r", "a"], 1, None);
    let b = project(&["r", "b"], 2, None);
    let mut again = project(&["r", "a"], 100, None);
    again.name = "found again".to_string();
    let projects = unique_by_path(vec![a.clone(), b.clone(), again, b.clone(), a.clone()]);
    assert_eq!(projects, vec![a.clone(), b.clone()]);
    assert_eq!(unique_by_path(vec![]), vec![]);
    assert_eq!(unique_by_path(vec![b.clone()]), vec![b]);
}

#[test]
fn listing_shows_each_path_once_and_adds_up_what_can_be_freed() {
    let a = project(&["r", "a"], 4096, None);
    let b = project(&["r", "b"], 0, None);
    let listing = list(&cli(), vec![a.clone(), b.clone(), a.clone()]);
    assert_eq!(listing.projects, vec![a.clone(), b.clone()]);
    assert_eq!(listing.freeable_bytes, 4096);
    assert_eq!(
        listing.summary,
        Some("Found 4 KiB of build artifacts and dependencies.".to_string())
    );

    let mut json = cli();
    json.json = true;
    let listing = list(&json, vec![a.clone()]);
    assert_eq!(listing.projects, vec![a]);
    assert_eq!(listing.summary, None);

    let listing = list(&cli(), vec![]);
    assert_eq!(listing.freeable_bytes, 0);
    assert_eq!(
        listing.summary,
        Some("Found 0 B of build artifacts and dependencies.".to_string())
    );
}

#[test]
fn what_can_be_freed_in_all_stops_at_the_largest_number() {
    let a = project(&["a"], u64::MAX - 1, None);
    let b = project(&["b"], 5, None);
    assert_eq!(freeable_bytes(&vec![a.clone()]), u64::MAX - 1);
    assert_eq!(freeable_bytes(&vec![a, b]), u64::MAX);
    assert_eq!(freeable_bytes(&vec![]), 0);
}

#[test]
fn listing_considers_every_state_and_by_default_every_age() {
    assert_eq!(
        list_filter(&cli()),
        ProjectFilter { min_stale: Duration { nanos: 0 }, status: StatusFilter::Any }
    );
    let mut options = cli();
    options.min_stale = Some(Duration { nanos: 7 * DAY });
    options.archive = true;
    assert_eq!(
        list_filter(&options),
        ProjectFilter { min_stale: Duration { nanos: 7 * DAY }, status: StatusFilter::Any }
    );
}

#[test]
fn cleaning_considers_what_is_built_and_a_month_old() {
    assert_eq!(
        clean_filter(&cli()),
        ProjectFilter { min_stale: Duration { nanos: 30 * DAY }, status: StatusFilter::ExceptClean }
    );
    let mut options = cli();
    options.min_stale = Some(Duration { nanos: 0 });
    options.archive = true;
    assert_eq!(
        clean_filter(&options),
        ProjectFilter { min_stale: Duration { nanos: 0 }, status: StatusFilter::Any }
    );
}

#[test]
fn json_output_and_a_question_do_not_go_together() {
    let mut options = cli();
    options.json = true;
    assert_eq!(
        clean(&options, CleanState::Start, CleanEvent::Begun, &vec![]),
        (
            CleanState::Finished,
            vec![CleanCommand::Refuse(
                "With `--json`, either `--dry-run` or `--yes` is required.".to_string()
            )]
        )
    );
    options.yes = true;
    assert_eq!(
        clean(&options, CleanState::Start, CleanEvent::Begun, &vec![]),
        (CleanState::Discovering, vec![CleanCommand::Discover(clean_filter(&options))])
    );
    options.yes = false;
    options.dry_run = true;
    assert_eq!(
        clean(&options, CleanState::Start, CleanEvent::Begun, &vec![]).0,
        CleanState::Discovering
    );
    // With JSON a dry run ends when the projects are shown.
    assert_eq!(
        clean(&options, CleanState::Discovering, CleanEvent::Discovered, &vec![project(&["a"], 1, None)]),
        (CleanState::Finished, vec![])
    );
}

#[test]
fn the_prompt_only_lists_projects_that_need_cleaning() {
    let projects = vec![project(&["r", "the-built-project"], 5000, Some(&["r"]))];
    assert_eq!(
        clean(&cli(), CleanState::Start, CleanEvent::Begun, &vec![]),
        (
            CleanState::Discovering,
            vec![CleanCommand::Discover(ProjectFilter {
                min_stale: Duration { nanos: 30 * DAY },
                status: StatusFilter::ExceptClean,
            })]
        )
    );
    assert_eq!(
        clean(&cli(), CleanState::Discovering, CleanEvent::Discovered, &projects),
        (
            CleanState::Asking,
            vec![
                say(0, "", Style::Plain),
                CleanCommand::Ask("Clean up those projects (4 KiB)?".to_string()),
            ]
        )
    );
}

#[test]
fn an_interactive_run_cleans_on_yes_and_changes_nothing_on_no() {
    let projects = vec![
        project(&["r", "a"], 2048, Some(&["r"])),
        project(&["r", "b"], 2048, Some(&["r"])),
    ];
    assert_eq!(
        clean(&cli(), CleanState::Asking, CleanEvent::Answered(true), &projects),
        (CleanState::Cleaning, vec![CleanCommand::Clean { dry_run: false, archive: false }])
    );
    assert_eq!(
        clean(&cli(), CleanState::Cleaning, CleanEvent::Cleaned, &projects),
        (
            CleanState::Finished,
            vec![
                say(0, "", Style::Plain),
                say(0, "SUMMARY:", Style::Bold),
                say(
                    2,
                    "2 projects cleaned, which freed approx. 4 KiB of build artifacts and dependencies.",
                    Style::Green
                ),
            ]
        )
    );
    assert_eq!(
        clean(&cli(), CleanState::Asking, CleanEvent::Answered(false), &projects),
        (
            CleanState::Finished,
            vec![
                say(0, "No changes made.", Style::Plain),
                say(0, "", Style::Plain),
                say(0, "SUMMARY:", Style::Bold),
                say(
                    2,
                    "2 built projects found, with 4 KiB of build artifacts and dependencies.",
                    Style::Green
                ),
            ]
        )
    );
}

#[test]
fn cleaning_with_yes_and_dry_run_is_a_dry_run() {
    let mut options = cli();
    options.yes = true;
    options.dry_run = true;
    options.archive = true;
    let projects = vec![project(&["home", "project"], 10, None)];
    assert_eq!(
        clean(&options, CleanState::Discovering, CleanEvent::Discovered, &projects),
        (
            CleanState::Cleaning,
            vec![
                say(0, "", Style::Plain),
                say(0, "WOULD DO:", Style::Bold),
                CleanCommand::Clean { dry_run: true, archive: true },
            ]
        )
    );
    assert_eq!(
        clean(&options, CleanState::Cleaning, CleanEvent::Cleaned, &projects),
        (
            CleanState::Finished,
            vec![
                say(0, "", Style::Plain),
                say(0, "SUMMARY:", Style::Bold),
                say(
                    2,
                    "1 built project found, with 10 B of build artifacts and dependencies.",
                    Style::Green
                ),
                say(2, "1 projects not under version control:", Style::Red),
                say(4, "/home/project", Style::Dim),
            ]
        )
    );
}

#[test]
fn cleaning_a_built_project_removes_target_dir() {
    let mut options = cli();
    options.yes = true;
    let projects = vec![project(&["tmp", "project"], 3 * 1024 * 1024, Some(&["tmp", "project"]))];
    let (state, commands) = clean(&options, CleanState::Discovering, CleanEvent::Discovered, &projects);
    assert_eq!(state, CleanState::Cleaning);
    assert_eq!(commands, vec![CleanCommand::Clean { dry_run: false, archive: false }]);
    assert_eq!(
        projects[0].clean(false),
        vec![makeclean::build_tools::CleanAction::RemoveDir(path(&["tmp", "project", "target"]))]
    );
    let (state, commands) = clean(&options, state, CleanEvent::Cleaned, &projects);
    assert_eq!(state, CleanState::Finished);
    assert_eq!(
        commands[2],
        say(
            2,
            "1 project cleaned, which freed approx. 3 MiB of build artifacts and dependencies.",
            Style::Green
        )
    );
    assert_eq!(commands.len(), 3);
}

#[test]
fn doesnt_consider_new_project_with_default_min_stale_setting() {
    // Nothing was found: the run ends with the summary.
    assert_eq!(
        clean(&cli(), CleanState::Discovering, CleanEvent::Discovered, &vec![]),
        (
            CleanState::Finished,
            vec![
                say(0, "", Style::Plain),
                say(0, "SUMMARY:", Style::Bold),
                say(
                    2,
                    "0 built projects found, with 0 B of build artifacts and dependencies.",
                    Style::Green
                ),
            ]
        )
    );
    let mut json = cli();
    json.json = true;
    json.yes = true;
    assert_eq!(
        clean(&json, CleanState::Discovering, CleanEvent::Discovered, &vec![]),
        (CleanState::Finished, vec![])
    );
}

#[test]
fn an_event_that_is_not_waited_for_ends_the_run() {
    let projects = vec![project(&["a"], 1, None)];
    for (state, event) in [
        (CleanState::Start, CleanEvent::Cleaned),
        (CleanState::Start, CleanEvent::Answered(true)),
        (CleanState::Discovering, CleanEvent::Begun),
        (CleanState::Asking, CleanEvent::Discovered),
        (CleanState::Cleaning, CleanEvent::Answered(true)),
        (CleanState::Finished, CleanEvent::Begun),
        (CleanState::Finished, CleanEvent::Cleaned),
    ] {
        assert_eq!(clean(&cli(), state, event, &projects), (CleanState::Finished, vec![]));
    }
}

#[test]
fn projects_without_version_control_are_told_apart() {
    let projects = vec![
        project(&["r", "a"], 1, None),
        project(&["r", "b"], 1, Some(&["r"])),
        project(&["c"], 1, None),
    ];
    assert_eq!(unversioned_paths(&projects), vec!["/r/a", "/c"]);
    let none: Vec<String> = vec![];
    assert_eq!(unversioned_paths(&vec![]), none);
}

#[test]
fn the_path_of_a_project_is_split_at_its_repository() {
    // Without a repository, and at the root of one, the last step is the
    // project.
    let p = project(&["home", "me", "demo"], 0, None);
    let parts = ProjectPath::from(&p);
    assert_eq!(parts.parent, path(&["home", "me"]));
    assert_eq!(parts.project, vec!["demo"]);
    assert_eq!(parts.render(), "/home/me/demo");

    let p = project(&["home", "me", "demo"], 0, Some(&["home", "me", "demo"]));
    let parts = ProjectPath::from(&p);
    assert_eq!(parts.parent, path(&["home", "me"]));
    assert_eq!(parts.project, vec!["demo"]);

    // Below the root of a repository, the repository belongs to the
    // project.
    let p = project(&["home", "me", "mono", "apps", "web"], 0, Some(&["home", "me", "mono"]));
    let parts = ProjectPath::from(&p);
    assert_eq!(parts.parent, path(&["home", "me"]));
    assert_eq!(parts.project, vec!["mono", "apps", "web"]);
    assert_eq!(parts.render(), "/home/me/mono/apps/web");

    let p = project(&["demo"], 0, None);
    let parts = ProjectPath::from(&p);
    assert_eq!(parts.parent, CanonicalPath::root());
    assert_eq!(parts.render(), "//demo");
}

#[test]
fn a_listed_project_shows_its_tools_repository_day_and_size() {
    let mut p = project(&["home", "me", "demo"], 4096, Some(&["home", "me", "demo"]));
    p.build_tools.push(Tool::Npm(Npm { dir: path(&["home", "me", "demo"]) }));
    assert_eq!(project_info(&p).unwrap(), "(Cargo, NPM; Git; 2022-03-05; 4 KiB)");
    assert_eq!(
        pretty_print_project(&p).unwrap(),
        "/home/me/demo (Cargo, NPM; Git; 2022-03-05; 4 KiB)"
    );

    let p = project(&["home", "me", "demo"], 0, None);
    assert_eq!(project_info(&p).unwrap(), "(Cargo; no VCS; 2022-03-05)");
    assert_eq!(pretty_print_project(&p).unwrap(), "/home/me/demo (Cargo; no VCS; 2022-03-05)");

    let mut p = p;
    p.mtime = Timestamp { unix_nanos: i128::MIN };
    assert_eq!(project_info(&p), None);
    assert_eq!(pretty_print_project(&p), None);
}
