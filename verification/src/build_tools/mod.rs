//! Build tools: what they are called, how a project of theirs is recognised,
//! which of its directories can be regenerated, and how those are removed.

pub mod cargo;
pub mod dotnet;
pub mod elm;
pub mod flutter;
pub mod gradle;
pub mod laws;
pub mod maven;
pub mod mix;
pub mod npm;

use vstd::prelude::*;
use vstd::string::*;
use crate::fs::{add_capped, capped, folders, lemma_capped_step, Directory, Folder, SubDir};
use crate::path::{rendered, CanonicalPath};
use crate::text::texts;

verus! {

/// The names by which a build tool can be asked for.
#[derive(Debug, Copy, Clone, PartialEq, Eq, Structural)]
pub enum BuildToolKind {
    Cargo,
    Rust,
    Rs,
    Elm,
    Flutter,
    Gradle,
    Maven,
    Mvn,
    Mix,
    Elixir,
    Ex,
    Exs,
    Npm,
    Dotnet,
    Cs,
    Csharp,
}

/// Whether a project holds anything that can be regenerated.
#[derive(Debug, Copy, Clone, PartialEq, Eq, Structural)]
pub enum BuildStatus {
    /// There are no build artifacts or dependencies that could be removed.
    Clean,
    /// Removing the build artifacts and dependencies would free
    /// `freeable_bytes` bytes.
    Built { freeable_bytes: u64 },
    /// The status cannot be determined.
    Unknown,
}

/// Why the name of a project could not be determined.
#[derive(Debug, Copy, Clone, PartialEq, Eq, Structural)]
pub enum NameError {
    /// The build tool's manifest is there, but does not tell a name.
    Manifest,
    /// The project's path has no last step to take the name from.
    NoDirectoryName,
}

/// The build tools that are known.
#[derive(Debug, Copy, Clone, PartialEq, Eq, Structural)]
pub enum ToolTag {
    Cargo,
    Elm,
    Flutter,
    Gradle,
    Maven,
    Mix,
    Npm,
    Dotnet,
}

/// A build tool recognised in a directory, as contracts speak of it.
pub struct ToolView {
    /// Which build tool it is.
    pub tag: ToolTag,
    /// The project directory.
    pub dir: Seq<Seq<char>>,
    /// The name that the tool's manifest gives the project, where one was
    /// read when the tool was recognised.
    pub manifest_name: Option<Seq<char>>,
}

/// A directory that a build tool can regenerate.
#[derive(Debug, Clone, PartialEq, Eq)]
pub struct Ephemeral {
    /// Its name inside the project directory.
    pub name: String,
    /// Whether it counts only where version control ignores it.
    pub only_if_ignored: bool,
}

/// A directory that a build tool can regenerate, as contracts speak of it.
pub struct Rule {
    pub name: Seq<char>,
    pub only_if_ignored: bool,
}

impl View for Ephemeral {
    type V = Rule;

    open spec fn view(&self) -> Rule {
        Rule { name: self.name@, only_if_ignored: self.only_if_ignored }
    }
}

/// The rules of a list, one for one.
pub open spec fn rule_list(rules: Seq<Ephemeral>) -> Seq<Rule> {
    Seq::new(rules.len(), |i: int| rules[i]@)
}

/// One step of cleaning a project.
#[derive(Debug, Clone, PartialEq, Eq)]
pub enum CleanAction {
    /// Remove this directory and all that is below it.
    RemoveDir(CanonicalPath),
    /// Print this line and change nothing.
    Print(String),
    /// Run this program with these arguments in this directory, and fail
    /// unless it succeeds.
    Run { program: String, args: Vec<String>, dir: CanonicalPath },
}

/// A step of cleaning a project, as contracts speak of it.
pub enum CleanStep {
    RemoveDir(Seq<Seq<char>>),
    Print(Seq<char>),
    Run { program: Seq<char>, args: Seq<Seq<char>>, dir: Seq<Seq<char>> },
}

impl View for CleanAction {
    type V = CleanStep;

    open spec fn view(&self) -> CleanStep {
        match self {
            CleanAction::RemoveDir(path) => CleanStep::RemoveDir(path@),
            CleanAction::Print(line) => CleanStep::Print(line@),
            CleanAction::Run { program, args, dir } => CleanStep::Run {
                program: program@,
                args: crate::text::texts(args@),
                dir: dir@,
            },
        }
    }
}

/// The steps of a plan, one for one.
pub open spec fn steps(plan: Seq<CleanAction>) -> Seq<CleanStep> {
    Seq::new(plan.len(), |i: int| plan[i]@)
}

/// Whether `rule` names the directory `d` and lets it be removed.
pub open spec fn rule_covers(rule: Rule, d: Folder) -> bool {
    rule.name == d.name && (rule.only_if_ignored ==> d.ignored)
}

/// Whether some rule lets the directory `d` be removed.
pub open spec fn reclaimable(rules: Seq<Rule>, d: Folder) -> bool {
    exists|k: int| 0 <= k < rules.len() && rule_covers(#[trigger] rules[k], d)
}

/// Whether `rule` lets one of the directories be removed.
pub open spec fn rule_applies(rule: Rule, subdirs: Seq<Folder>) -> bool {
    exists|i: int| 0 <= i < subdirs.len() && rule_covers(rule, #[trigger] subdirs[i])
}

/// The bytes that removing the reclaimable directories would free.
pub open spec fn freeable(rules: Seq<Rule>, subdirs: Seq<Folder>) -> nat
    decreases subdirs.len(),
{
    if subdirs.len() == 0 {
        0
    } else {
        freeable(rules, subdirs.drop_last()) + if reclaimable(rules, subdirs.last()) {
            subdirs.last().size as nat
        } else {
            0
        }
    }
}

/// The status of a project with these directories under these rules:
/// clean where nothing would be freed.
pub open spec fn status_of(rules: Seq<Rule>, subdirs: Seq<Folder>) -> BuildStatus {
    if freeable(rules, subdirs) == 0 {
        BuildStatus::Clean
    } else {
        BuildStatus::Built { freeable_bytes: capped(freeable(rules, subdirs)) }
    }
}

/// The names of the directories that cleaning removes, in the order of the
/// rules.
pub open spec fn targets(rules: Seq<Rule>, subdirs: Seq<Folder>) -> Seq<Seq<char>>
    decreases rules.len(),
{
    if rules.len() == 0 {
        Seq::empty()
    } else if rule_applies(rules.last(), subdirs) {
        targets(rules.drop_last(), subdirs).push(rules.last().name)
    } else {
        targets(rules.drop_last(), subdirs)
    }
}

/// The line that a dry run prints in place of removing `path`.
pub open spec fn removal_notice(path: Seq<Seq<char>>) -> Seq<char> {
    "rm -r '"@ + rendered(path) + "'"@
}

/// The step that deals with the directory `name` of the project at `dir`.
pub open spec fn removal_step(dir: Seq<Seq<char>>, name: Seq<char>, dry_run: bool) -> CleanStep {
    if dry_run {
        CleanStep::Print(removal_notice(dir.push(name)))
    } else {
        CleanStep::RemoveDir(dir.push(name))
    }
}

/// The steps that clean the project at `dir`: one for each rule that
/// applies, in the order of the rules.
pub open spec fn removal_steps(
    dir: Seq<Seq<char>>,
    rules: Seq<Rule>,
    subdirs: Seq<Folder>,
    dry_run: bool,
) -> Seq<CleanStep> {
    Seq::new(
        targets(rules, subdirs).len(),
        |i: int| removal_step(dir, targets(rules, subdirs)[i], dry_run),
    )
}

/// The directories that a tool can regenerate; `None` for a tool that has
/// to be run to clean up after itself.
pub open spec fn tag_rules(tag: ToolTag) -> Option<Seq<Rule>> {
    match tag {
        ToolTag::Cargo => Some(cargo::rules()),
        ToolTag::Elm => Some(elm::rules()),
        ToolTag::Flutter => Some(flutter::rules()),
        ToolTag::Gradle => Some(gradle::rules()),
        ToolTag::Maven => None,
        ToolTag::Mix => Some(mix::rules()),
        ToolTag::Npm => Some(npm::rules()),
        ToolTag::Dotnet => Some(dotnet::rules()),
    }
}

/// How a tool is called when projects are listed.
pub open spec fn tag_label(tag: ToolTag) -> Seq<char> {
    match tag {
        ToolTag::Cargo => "Cargo"@,
        ToolTag::Elm => "Elm"@,
        ToolTag::Flutter => "Flutter"@,
        ToolTag::Gradle => "Gradle"@,
        ToolTag::Maven => "Maven"@,
        ToolTag::Mix => "Mix"@,
        ToolTag::Npm => "NPM"@,
        ToolTag::Dotnet => "DOTNET"@,
    }
}

/// Whether a tool goes by the name `kind`.
pub open spec fn kind_names(kind: BuildToolKind, tag: ToolTag) -> bool {
    match tag {
        ToolTag::Cargo => kind == BuildToolKind::Cargo || kind == BuildToolKind::Rust || kind
            == BuildToolKind::Rs,
        ToolTag::Elm => kind == BuildToolKind::Elm,
        ToolTag::Flutter => kind == BuildToolKind::Flutter,
        ToolTag::Gradle => kind == BuildToolKind::Gradle,
        ToolTag::Maven => kind == BuildToolKind::Maven || kind == BuildToolKind::Mvn,
        ToolTag::Mix => kind == BuildToolKind::Mix || kind == BuildToolKind::Elixir || kind
            == BuildToolKind::Ex || kind == BuildToolKind::Exs,
        ToolTag::Npm => kind == BuildToolKind::Npm,
        ToolTag::Dotnet => kind == BuildToolKind::Dotnet || kind == BuildToolKind::Cs || kind
            == BuildToolKind::Csharp,
    }
}

/// The text of an optional string.
pub open spec fn option_text(s: Option<String>) -> Option<Seq<char>> {
    match s {
        Some(s) => Some(s@),
        None => None,
    }
}

/// Whether the marker of a tool is found in `dir`.
pub open spec fn marked(tag: ToolTag, dir: &Directory) -> bool {
    match tag {
        ToolTag::Cargo => dir.has_file("Cargo.toml"@),
        ToolTag::Elm => dir.has_file("elm.json"@),
        ToolTag::Flutter => dir.pubspec_name.is_some(),
        ToolTag::Gradle => dir.has_file("build.gradle"@) && dir.has_file("settings.gradle"@),
        ToolTag::Maven => dir.has_file("pom.xml"@),
        ToolTag::Mix => dir.has_file("mix.exs"@),
        ToolTag::Npm => !dir.path@.contains("node_modules"@) && dir.has_file("package.json"@),
        ToolTag::Dotnet => dotnet::holds_csproj(dir),
    }
}

/// What probing `dir` for a tool gives: nothing where its marker is not
/// found, else the tool bound to that directory.
pub open spec fn detect(tag: ToolTag, dir: &Directory) -> Option<ToolView> {
    if marked(tag, dir) {
        Some(
            ToolView {
                tag,
                dir: dir.path@,
                manifest_name: match tag {
                    ToolTag::Cargo => option_text(dir.cargo_package),
                    ToolTag::Flutter => option_text(dir.pubspec_name),
                    _ => None,
                },
            },
        )
    } else {
        None
    }
}

/// The line that a dry run prints in place of running Maven in `dir`.
pub open spec fn maven_notice(dir: Seq<Seq<char>>) -> Seq<char> {
    rendered(dir) + ": \"mvn\" \"clean\""@
}

/// How a project is cleaned by running its build tool in `dir`.
pub open spec fn command_steps(dir: Seq<Seq<char>>, dry_run: bool) -> Seq<CleanStep> {
    if dry_run {
        seq![CleanStep::Print(maven_notice(dir))]
    } else {
        seq![CleanStep::Run { program: "mvn"@, args: seq!["clean"@], dir }]
    }
}

/// The status that a tool reports for a project with these directories.
pub open spec fn tool_status(tool: ToolView, subdirs: Seq<Folder>) -> BuildStatus {
    match tag_rules(tool.tag) {
        Some(rules) => status_of(rules, subdirs),
        None => BuildStatus::Unknown,
    }
}

/// The steps by which a tool cleans a project with these directories.
pub open spec fn clean_steps(tool: ToolView, subdirs: Seq<Folder>, dry_run: bool) -> Seq<
    CleanStep,
> {
    match tag_rules(tool.tag) {
        Some(rules) => removal_steps(tool.dir, rules, subdirs, dry_run),
        None => command_steps(tool.dir, dry_run),
    }
}

/// The name that a tool gives its project: none for a tool whose manifest
/// is not read, an error where the manifest did not tell one.
pub open spec fn tool_name(tool: ToolView) -> Option<Result<Seq<char>, NameError>> {
    match tool.tag {
        ToolTag::Cargo | ToolTag::Flutter => Some(
            match tool.manifest_name {
                Some(name) => Ok(name),
                None => Err(NameError::Manifest),
            },
        ),
        _ => None,
    }
}

/// The text of what `project_name` returns.
pub open spec fn name_view(name: Option<Result<String, NameError>>) -> Option<
    Result<Seq<char>, NameError>,
> {
    match name {
        Some(Ok(s)) => Some(Ok(s@)),
        Some(Err(e)) => Some(Err(e)),
        None => None,
    }
}

/// A build tool bound to the directory of one project.
pub trait BuildTool {
    /// Which tool this is, where, and what it read of its manifest.
    spec fn facts(&self) -> ToolView;

    /// The directories that the tool can regenerate; `None` for a tool
    /// that has to be run to clean up after itself.
    fn ephemeral(&self) -> (rules: Option<Vec<Ephemeral>>)
        ensures
            match rules {
                Some(rules) => tag_rules(self.facts().tag) == Some(rule_list(rules@)),
                None => tag_rules(self.facts().tag).is_none(),
            },
    ;

    /// Plans the cleaning of the project, whose directories are `subdirs`.
    ///
    /// A tool that knows which directories it can regenerate plans their
    /// removal; another plans a run of its own clean command. With `dry_run`
    /// nothing is to change: the plan holds printed lines only.
    fn clean_project(&self, subdirs: &Vec<SubDir>, dry_run: bool) -> (plan: Vec<CleanAction>)
        ensures
            steps(plan@) == clean_steps(self.facts(), folders(subdirs@), dry_run),
    ;

    /// The status of the project, whose directories are `subdirs`.
    fn status(&self, subdirs: &Vec<SubDir>) -> (status: BuildStatus)
        ensures
            status == tool_status(self.facts(), folders(subdirs@)),
    ;

    /// The project's name as the tool's manifest tells it.
    fn project_name(&self) -> (name: Option<Result<String, NameError>>)
        ensures
            name_view(name) == tool_name(self.facts()),
    ;

    /// How the tool is called when projects are listed.
    fn label(&self) -> (s: String)
        ensures
            s@ == tag_label(self.facts().tag),
    ;
}

/// Recognises the projects of one build tool.
pub trait BuildToolProbe {
    /// The tool that this probe recognises.
    spec fn tag(&self) -> ToolTag;

    /// The tool bound to `dir`, if its marker is found there.
    fn probe(&self, dir: &Directory) -> (tool: Option<Tool>)
        ensures
            tool_view(tool) == detect(self.tag(), dir),
    ;

    /// Whether the tool goes by the name `kind`.
    fn applies_to(&self, kind: BuildToolKind) -> (yes: bool)
        ensures
            yes == kind_names(kind, self.tag()),
    ;
}

/// One of the known build tools, bound to the directory of a project.
#[derive(Debug, Clone, PartialEq, Eq)]
pub enum Tool {
    Cargo(cargo::Cargo),
    Elm(elm::Elm),
    Flutter(flutter::Flutter),
    Gradle(gradle::Gradle),
    Maven(maven::Maven),
    Mix(mix::Mix),
    Npm(npm::Npm),
    Dotnet(dotnet::Dotnet),
}

impl View for Tool {
    type V = ToolView;

    open spec fn view(&self) -> ToolView {
        match self {
            Tool::Cargo(t) => t.facts(),
            Tool::Elm(t) => t.facts(),
            Tool::Flutter(t) => t.facts(),
            Tool::Gradle(t) => t.facts(),
            Tool::Maven(t) => t.facts(),
            Tool::Mix(t) => t.facts(),
            Tool::Npm(t) => t.facts(),
            Tool::Dotnet(t) => t.facts(),
        }
    }
}

impl BuildTool for Tool {
    open spec fn facts(&self) -> ToolView {
        self@
    }

    fn ephemeral(&self) -> (rules: Option<Vec<Ephemeral>>) {
        match self {
            Tool::Cargo(t) => t.ephemeral(),
            Tool::Elm(t) => t.ephemeral(),
            Tool::Flutter(t) => t.ephemeral(),
            Tool::Gradle(t) => t.ephemeral(),
            Tool::Maven(t) => t.ephemeral(),
            Tool::Mix(t) => t.ephemeral(),
            Tool::Npm(t) => t.ephemeral(),
            Tool::Dotnet(t) => t.ephemeral(),
        }
    }

    fn clean_project(&self, subdirs: &Vec<SubDir>, dry_run: bool) -> (plan: Vec<CleanAction>) {
        match self {
            Tool::Cargo(t) => t.clean_project(subdirs, dry_run),
            Tool::Elm(t) => t.clean_project(subdirs, dry_run),
            Tool::Flutter(t) => t.clean_project(subdirs, dry_run),
            Tool::Gradle(t) => t.clean_project(subdirs, dry_run),
            Tool::Maven(t) => t.clean_project(subdirs, dry_run),
            Tool::Mix(t) => t.clean_project(subdirs, dry_run),
            Tool::Npm(t) => t.clean_project(subdirs, dry_run),
            Tool::Dotnet(t) => t.clean_project(subdirs, dry_run),
        }
    }

    fn status(&self, subdirs: &Vec<SubDir>) -> (status: BuildStatus) {
        match self {
            Tool::Cargo(t) => t.status(subdirs),
            Tool::Elm(t) => t.status(subdirs),
            Tool::Flutter(t) => t.status(subdirs),
            Tool::Gradle(t) => t.status(subdirs),
            Tool::Maven(t) => t.status(subdirs),
            Tool::Mix(t) => t.status(subdirs),
            Tool::Npm(t) => t.status(subdirs),
            Tool::Dotnet(t) => t.status(subdirs),
        }
    }

    fn project_name(&self) -> (name: Option<Result<String, NameError>>) {
        match self {
            Tool::Cargo(t) => t.project_name(),
            Tool::Elm(t) => t.project_name(),
            Tool::Flutter(t) => t.project_name(),
            Tool::Gradle(t) => t.project_name(),
            Tool::Maven(t) => t.project_name(),
            Tool::Mix(t) => t.project_name(),
            Tool::Npm(t) => t.project_name(),
            Tool::Dotnet(t) => t.project_name(),
        }
    }

    fn label(&self) -> (s: String) {
        match self {
            Tool::Cargo(t) => t.label(),
            Tool::Elm(t) => t.label(),
            Tool::Flutter(t) => t.label(),
            Tool::Gradle(t) => t.label(),
            Tool::Maven(t) => t.label(),
            Tool::Mix(t) => t.label(),
            Tool::Npm(t) => t.label(),
            Tool::Dotnet(t) => t.label(),
        }
    }
}

/// A probe for one of the known build tools.
#[derive(Debug, Copy, Clone, PartialEq, Eq, Structural)]
pub enum Probe {
    Cargo(cargo::CargoProbe),
    Elm(elm::ElmProbe),
    Flutter(flutter::FlutterProbe),
    Gradle(gradle::GradleProbe),
    Maven(maven::MavenProbe),
    Mix(mix::MixProbe),
    Npm(npm::NpmProbe),
    Dotnet(dotnet::DotnetProbe),
}

impl BuildToolProbe for Probe {
    open spec fn tag(&self) -> ToolTag {
        match self {
            Probe::Cargo(_) => ToolTag::Cargo,
            Probe::Elm(_) => ToolTag::Elm,
            Probe::Flutter(_) => ToolTag::Flutter,
            Probe::Gradle(_) => ToolTag::Gradle,
            Probe::Maven(_) => ToolTag::Maven,
            Probe::Mix(_) => ToolTag::Mix,
            Probe::Npm(_) => ToolTag::Npm,
            Probe::Dotnet(_) => ToolTag::Dotnet,
        }
    }

    fn probe(&self, dir: &Directory) -> (tool: Option<Tool>) {
        match self {
            Probe::Cargo(p) => p.probe(dir),
            Probe::Elm(p) => p.probe(dir),
            Probe::Flutter(p) => p.probe(dir),
            Probe::Gradle(p) => p.probe(dir),
            Probe::Maven(p) => p.probe(dir),
            Probe::Mix(p) => p.probe(dir),
            Probe::Npm(p) => p.probe(dir),
            Probe::Dotnet(p) => p.probe(dir),
        }
    }

    fn applies_to(&self, kind: BuildToolKind) -> (yes: bool) {
        match self {
            Probe::Cargo(p) => p.applies_to(kind),
            Probe::Elm(p) => p.applies_to(kind),
            Probe::Flutter(p) => p.applies_to(kind),
            Probe::Gradle(p) => p.applies_to(kind),
            Probe::Maven(p) => p.applies_to(kind),
            Probe::Mix(p) => p.applies_to(kind),
            Probe::Npm(p) => p.applies_to(kind),
            Probe::Dotnet(p) => p.applies_to(kind),
        }
    }
}

/// What a probe found, as contracts speak of it.
pub open spec fn tool_view(tool: Option<Tool>) -> Option<ToolView> {
    match tool {
        Some(t) => Some(t@),
        None => None,
    }
}

/// A copy of an optional string.
pub fn clone_option(s: &Option<String>) -> (copy: Option<String>)
    ensures
        option_text(copy) == option_text(*s),
{
    match s {
        Some(s) => Some(s.clone()),
        None => None,
    }
}

/// The name that a manifest told, or the error that it told none.
pub fn manifest_name(name: &Option<String>) -> (r: Option<Result<String, NameError>>)
    ensures
        name_view(r) == Some(
            match option_text(*name) {
                Some(n) => Ok::<Seq<char>, NameError>(n),
                None => Err(NameError::Manifest),
            },
        ),
{
    match name {
        Some(n) => Some(Ok(n.clone())),
        None => Some(Err(NameError::Manifest)),
    }
}

/// The directories that are left when those that cleaning removes are
/// gone.
pub open spec fn remaining(rules: Seq<Rule>, subdirs: Seq<Folder>) -> Seq<Folder> {
    subdirs.filter(spared(rules, subdirs))
}

/// Tells of a directory whether cleaning leaves it where it is.
pub open spec fn spared(rules: Seq<Rule>, subdirs: Seq<Folder>) -> spec_fn(Folder) -> bool {
    |d: Folder| !targets(rules, subdirs).contains(d.name)
}

/// The directories that are left when a tool has cleaned: all of them
/// after a dry run, and all of them where the tool itself is run, of which
/// nothing is known.
pub open spec fn left_by(tool: ToolView, subdirs: Seq<Folder>, dry_run: bool) -> Seq<Folder> {
    match tag_rules(tool.tag) {
        Some(rules) => if dry_run {
            subdirs
        } else {
            remaining(rules, subdirs)
        },
        None => subdirs,
    }
}

/// The names of the directories that cleaning removes, in the order of the
/// rules.
pub fn target_names(subdirs: &Vec<SubDir>, rules: &Vec<Ephemeral>) -> (names: Vec<String>)
    ensures
        texts(names@) == targets(rule_list(rules@), folders(subdirs@)),
{
    let mut names: Vec<String> = Vec::new();
    let mut k: usize = 0;
    while k < rules.len()
        invariant
            k <= rules.len(),
            names@.len() == targets(rule_list(rules@).take(k as int), folders(subdirs@)).len(),
            texts(names@) == targets(rule_list(rules@).take(k as int), folders(subdirs@)),
        decreases rules.len() - k,
    {
        let ghost before = rule_list(rules@).take(k as int);
        let ghost after = rule_list(rules@).take(k + 1);
        let ghost old_names = names@;
        proof {
            assert(after.drop_last() =~= before);
            assert(after.last() == rules@[k as int]@);
        }
        if applies(&rules[k], subdirs) {
            names.push(rules[k].name.clone());
            proof {
                let want = targets(after, folders(subdirs@));
                assert forall|j: int| 0 <= j < want.len() implies texts(names@)[j] == want[j] by {
                    if j < old_names.len() {
                        assert(texts(old_names)[j] == targets(before, folders(subdirs@))[j]);
                    }
                }
                assert(texts(names@) =~= want);
            }
        }
        k += 1;
    }
    proof {
        assert(rule_list(rules@).take(rules.len() as int) =~= rule_list(rules@));
    }
    names
}

/// The directories that are left when those that cleaning removes are
/// gone.
pub fn without_targets(subdirs: &Vec<SubDir>, rules: &Vec<Ephemeral>) -> (left: Vec<SubDir>)
    ensures
        folders(left@) == remaining(rule_list(rules@), folders(subdirs@)),
{
    let names = target_names(subdirs, rules);
    let ghost all = folders(subdirs@);
    let ghost keep = spared(rule_list(rules@), all);
    let mut left: Vec<SubDir> = Vec::new();
    let mut i: usize = 0;
    while i < subdirs.len()
        invariant
            i <= subdirs.len(),
            all == folders(subdirs@),
            keep == spared(rule_list(rules@), all),
            texts(names@) == targets(rule_list(rules@), all),
            left@.len() == all.take(i as int).filter(keep).len(),
            folders(left@) == all.take(i as int).filter(keep),
        decreases subdirs.len() - i,
    {
        let ghost old_left = left@;
        proof {
            reveal(Seq::filter);
            assert(all.take(i + 1).drop_last() =~= all.take(i as int));
            assert(all.take(i + 1).last() == subdirs@[i as int]@);
        }
        if !holds_name(&names, &subdirs[i].name) {
            left.push(
                SubDir {
                    name: subdirs[i].name.clone(),
                    size: subdirs[i].size,
                    ignored: subdirs[i].ignored,
                },
            );
            proof {
                let want = all.take(i + 1).filter(keep);
                assert forall|j: int| 0 <= j < want.len() implies folders(left@)[j] == want[j] by {
                    if j < old_left.len() {
                        assert(folders(old_left)[j] == all.take(i as int).filter(keep)[j]);
                    }
                }
                assert(folders(left@) =~= want);
            }
        }
        i += 1;
    }
    proof {
        assert(all.take(subdirs.len() as int) =~= all);
    }
    left
}

fn holds_name(names: &Vec<String>, name: &String) -> (yes: bool)
    ensures
        yes == texts(names@).contains(name@),
{
    let mut i: usize = 0;
    while i < names.len()
        invariant
            i <= names.len(),
            forall|j: int| 0 <= j < i ==> texts(names@)[j] != name@,
        decreases names.len() - i,
    {
        if names[i] == *name {
            assert(texts(names@)[i as int] == name@);
            return true;
        }
        i += 1;
    }
    false
}

fn covers(rule: &Ephemeral, d: &SubDir) -> (yes: bool)
    ensures
        yes == rule_covers(rule@, d@),
{
    rule.name == d.name && (!rule.only_if_ignored || d.ignored)
}

fn is_reclaimable(rules: &Vec<Ephemeral>, d: &SubDir) -> (yes: bool)
    ensures
        yes == reclaimable(rule_list(rules@), d@),
{
    let mut k: usize = 0;
    while k < rules.len()
        invariant
            k <= rules.len(),
            forall|j: int| 0 <= j < k ==> !rule_covers(#[trigger] rule_list(rules@)[j], d@),
        decreases rules.len() - k,
    {
        if covers(&rules[k], d) {
            assert(rule_covers(rule_list(rules@)[k as int], d@));
            return true;
        }
        k += 1;
    }
    false
}

fn applies(rule: &Ephemeral, subdirs: &Vec<SubDir>) -> (yes: bool)
    ensures
        yes == rule_applies(rule@, folders(subdirs@)),
{
    let mut i: usize = 0;
    while i < subdirs.len()
        invariant
            i <= subdirs.len(),
            forall|j: int| 0 <= j < i ==> !rule_covers(rule@, #[trigger] folders(subdirs@)[j]),
        decreases subdirs.len() - i,
    {
        if covers(rule, &subdirs[i]) {
            assert(rule_covers(rule@, folders(subdirs@)[i as int]));
            return true;
        }
        i += 1;
    }
    false
}

/// The status of a project from the directories found in it: the sizes of
/// those that the rules let be removed, added up.
pub fn status_from_dirs(subdirs: &Vec<SubDir>, rules: &Vec<Ephemeral>) -> (status: BuildStatus)
    ensures
        status == status_of(rule_list(rules@), folders(subdirs@)),
{
    let mut size: u64 = 0;
    let mut nonzero = false;
    let mut i: usize = 0;
    while i < subdirs.len()
        invariant
            i <= subdirs.len(),
            size == capped(freeable(rule_list(rules@), folders(subdirs@).take(i as int))),
        decreases subdirs.len() - i,
    {
        proof {
            assert(folders(subdirs@).take(i + 1).drop_last() =~= folders(subdirs@).take(i as int));
            assert(folders(subdirs@).take(i + 1).last() == subdirs@[i as int]@);
        }
        if is_reclaimable(rules, &subdirs[i]) {
            proof {
                lemma_capped_step(
                    freeable(rule_list(rules@), folders(subdirs@).take(i as int)),
                    subdirs[i as int].size,
                );
            }
            size = add_capped(size, subdirs[i].size);
        }
        i += 1;
    }
    proof {
        assert(folders(subdirs@).take(subdirs.len() as int) =~= folders(subdirs@));
    }
    if size == 0 {
        BuildStatus::Clean
    } else {
        BuildStatus::Built { freeable_bytes: size }
    }
}

/// Plans the removal of the directories that the rules let be removed: for
/// each rule that applies one step, in the order of the rules. A dry run
/// plans a printed line in place of each removal.
pub fn remove_dirs(
    project_dir: &CanonicalPath,
    subdirs: &Vec<SubDir>,
    rules: &Vec<Ephemeral>,
    dry_run: bool,
) -> (plan: Vec<CleanAction>)
    ensures
        steps(plan@) == removal_steps(project_dir@, rule_list(rules@), folders(subdirs@), dry_run),
{
    let names = target_names(subdirs, rules);
    let mut plan: Vec<CleanAction> = Vec::new();
    let mut i: usize = 0;
    while i < names.len()
        invariant
            i <= names.len(),
            plan@.len() == i,
            forall|j: int|
                0 <= j < i ==> plan@[j]@ == removal_step(project_dir@, names@[j]@, dry_run),
        decreases names.len() - i,
    {
        let target = project_dir.join(names[i].as_str());
        if dry_run {
            let mut line = String::from_str("rm -r '");
            line.append(target.display().as_str());
            line.append("'");
            plan.push(CleanAction::Print(line));
        } else {
            plan.push(CleanAction::RemoveDir(target));
        }
        i += 1;
    }
    proof {
        let want = removal_steps(project_dir@, rule_list(rules@), folders(subdirs@), dry_run);
        assert(texts(names@).len() == names@.len());
        assert forall|j: int| 0 <= j < want.len() implies steps(plan@)[j] == want[j] by {
            assert(texts(names@)[j] == names@[j]@);
        }
        assert(steps(plan@) =~= want);
    }
    plan
}

} // verus!
