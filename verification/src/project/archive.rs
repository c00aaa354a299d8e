//! Replacing a project's working tree by one compressed archive, in steps
//! of which none loses data when it is the last to happen.

use vstd::prelude::*;
use vstd::string::*;
use crate::path::{is_prefix_of, rendered, CanonicalPath};
use crate::project::Project;
use crate::text::{decimal, push_decimal, texts};

verus! {

/// One step of archiving a project.
#[derive(Debug, Clone, PartialEq, Eq)]
pub enum ArchiveStep {
    /// Pack everything below `source`, hidden files included, into a new
    /// compressed archive at `archive`.
    Pack { source: CanonicalPath, archive: CanonicalPath },
    /// Rename the directory `from` to `to`, atomically.
    Rename { from: CanonicalPath, to: CanonicalPath },
    /// Create a new, empty directory.
    CreateDir(CanonicalPath),
    /// Copy the file `from` to `to`.
    Copy { from: CanonicalPath, to: CanonicalPath },
    /// Remove this directory and all that is below it.
    RemoveTree(CanonicalPath),
    /// Print this line and change nothing.
    Print(String),
}

/// A step of archiving a project, as contracts speak of it.
pub enum Step {
    Pack { source: Seq<Seq<char>>, archive: Seq<Seq<char>> },
    Rename { from: Seq<Seq<char>>, to: Seq<Seq<char>> },
    CreateDir(Seq<Seq<char>>),
    Copy { from: Seq<Seq<char>>, to: Seq<Seq<char>> },
    RemoveTree(Seq<Seq<char>>),
    Print(Seq<char>),
}

impl View for ArchiveStep {
    type V = Step;

    open spec fn view(&self) -> Step {
        match self {
            ArchiveStep::Pack { source, archive } => Step::Pack {
                source: source@,
                archive: archive@,
            },
            ArchiveStep::Rename { from, to } => Step::Rename { from: from@, to: to@ },
            ArchiveStep::CreateDir(path) => Step::CreateDir(path@),
            ArchiveStep::Copy { from, to } => Step::Copy { from: from@, to: to@ },
            ArchiveStep::RemoveTree(path) => Step::RemoveTree(path@),
            ArchiveStep::Print(line) => Step::Print(line@),
        }
    }
}

/// The steps of a plan, one for one.
pub open spec fn step_views(steps: Seq<ArchiveStep>) -> Seq<Step> {
    Seq::new(steps.len(), |i: int| steps[i]@)
}

/// What archiving has to know of the disk.
#[derive(Debug, Clone, PartialEq, Eq)]
pub struct ArchiveFacts {
    /// Whether anything is at the place where the archive is to end up.
    pub archive_exists: bool,
    /// The names of all that is in the directory that holds the project
    /// directory.
    pub siblings: Vec<String>,
    /// A fresh, empty directory of this run's own, in which the archive is
    /// built.
    pub temp_dir: CanonicalPath,
}

/// Why a project cannot be archived.
#[derive(Debug, Copy, Clone, PartialEq, Eq, Structural)]
pub enum ArchiveError {
    /// Something is at the place where the archive is to end up.
    AlreadyExists,
    /// The directory in which the archive is to be built is the project
    /// directory, below it or above it. The root directory, which is above
    /// every other one, can therefore not be archived.
    TempOverlapsProject,
    /// Every name that the project directory could take while it is moved
    /// aside is taken.
    NoFreeName,
}

/// What archiving a project comes to.
#[derive(Debug, Clone, PartialEq, Eq)]
pub struct ArchivePlan {
    /// Where the archive ends up.
    pub archive: CanonicalPath,
    /// What to do, in this order; a step that fails ends the run.
    pub steps: Vec<ArchiveStep>,
}

/// The number of names that are tried for the directory that is moved aside.
pub const ATTEMPTS: u64 = 10;

/// The file name of the archive of the project called `name`.
pub open spec fn archive_name(name: Seq<char>) -> Seq<char> {
    name + ".tar.xz"@
}

/// The `n`th name for the directory `dir_name` while it is moved aside.
pub open spec fn aside_name(dir_name: Seq<char>, n: nat) -> Seq<char> {
    "."@ + dir_name + "~"@ + decimal(n)
}

/// The first number from `from` to the last attempt whose name for the
/// directory moved aside is not among `siblings`.
pub open spec fn first_free(dir_name: Seq<char>, siblings: Seq<Seq<char>>, from: nat) -> Option<nat>
    decreases ATTEMPTS + 1 - from,
{
    if from > ATTEMPTS {
        None
    } else if !siblings.contains(aside_name(dir_name, from)) {
        Some(from)
    } else {
        first_free(dir_name, siblings, from + 1)
    }
}

/// The line that a dry run prints.
pub open spec fn archive_notice(path: Seq<Seq<char>>, archive: Seq<Seq<char>>) -> Seq<char> {
    "Would replace '"@ + rendered(path) + "/*' with \""@ + rendered(archive) + "\""@
}

/// The steps that replace the tree at `path` by its archive, with `aside`
/// as the place of the tree in between and `temp` as the directory in which
/// the archive is built.
pub open spec fn transaction(
    path: Seq<Seq<char>>,
    file_name: Seq<char>,
    aside: Seq<Seq<char>>,
    temp: Seq<Seq<char>>,
) -> Seq<Step> {
    seq![
        Step::Pack { source: path, archive: temp.push(file_name) },
        Step::Rename { from: path, to: aside },
        Step::CreateDir(path),
        Step::Copy { from: temp.push(file_name), to: path.push(file_name) },
        Step::RemoveTree(temp),
        Step::RemoveTree(aside),
    ]
}

/// What archiving the project called `name` at `path` comes to: the error,
/// or the steps to take.
pub open spec fn planned(
    path: Seq<Seq<char>>,
    name: Seq<char>,
    dry_run: bool,
    archive_exists: bool,
    siblings: Seq<Seq<char>>,
    temp: Seq<Seq<char>>,
) -> Result<Seq<Step>, ArchiveError> {
    if archive_exists {
        Err(ArchiveError::AlreadyExists)
    } else if dry_run {
        Ok(seq![Step::Print(archive_notice(path, path.push(archive_name(name))))])
    } else if is_prefix_of(path, temp) || is_prefix_of(temp, path) {
        Err(ArchiveError::TempOverlapsProject)
    } else {
        match first_free(path.last(), siblings, 1) {
            None => Err(ArchiveError::NoFreeName),
            Some(n) => Ok(
                transaction(
                    path,
                    archive_name(name),
                    path.drop_last().push(aside_name(path.last(), n)),
                    temp,
                ),
            ),
        }
    }
}

fn is_taken(siblings: &Vec<String>, name: &String) -> (yes: bool)
    ensures
        yes == texts(siblings@).contains(name@),
{
    let mut i: usize = 0;
    while i < siblings.len()
        invariant
            i <= siblings.len(),
            forall|j: int| 0 <= j < i ==> texts(siblings@)[j] != name@,
        decreases siblings.len() - i,
    {
        if siblings[i] == *name {
            assert(texts(siblings@)[i as int] == name@);
            return true;
        }
        i += 1;
    }
    false
}

/// The first free name for the directory `dir_name` while it is moved
/// aside, among those with the numbers 1 to 10.
pub fn free_aside_name(dir_name: &String, siblings: &Vec<String>) -> (name: Option<String>)
    ensures
        match first_free(dir_name@, texts(siblings@), 1) {
            Some(n) => name.is_some() && name.unwrap()@ == aside_name(dir_name@, n),
            None => name.is_none(),
        },
{
    let mut n: u64 = 1;
    while n <= ATTEMPTS
        invariant
            1 <= n <= ATTEMPTS + 1,
            first_free(dir_name@, texts(siblings@), 1) == first_free(
                dir_name@,
                texts(siblings@),
                n as nat,
            ),
        decreases ATTEMPTS + 1 - n,
    {
        let mut candidate = String::from_str(".");
        candidate.append(dir_name.as_str());
        candidate.append("~");
        push_decimal(&mut candidate, n);
        assert(candidate@ =~= aside_name(dir_name@, n as nat));
        if !is_taken(siblings, &candidate) {
            return Some(candidate);
        }
        n += 1;
    }
    None
}

impl Project {
    /// Plans the replacement of the project's working tree, hidden files
    /// included, by one compressed archive in the project directory.
    ///
    /// Nothing is planned where something is already at the archive's
    /// place. A dry run plans one printed line. Otherwise the archive is
    /// built in `temp_dir`, the project directory is moved aside under the
    /// first free of ten names, a new directory takes its place and
    /// receives the archive, and only then the directory moved aside is
    /// removed: whichever step is the last to happen, the tree or the
    /// archive is still there.
    pub fn archive(&self, dry_run: bool, facts: &ArchiveFacts) -> (r: Result<
        ArchivePlan,
        ArchiveError,
    >)
        ensures
            match planned(
                self.path@,
                self.name@,
                dry_run,
                facts.archive_exists,
                texts(facts.siblings@),
                facts.temp_dir@,
            ) {
                Ok(steps) => r is Ok && step_views(r.unwrap().steps@) == steps
                    && r.unwrap().archive@ == self.path@.push(archive_name(self.name@)),
                Err(e) => r == Err::<ArchivePlan, ArchiveError>(e),
            },
    {
        let mut file_name = self.name.clone();
        file_name.append(".tar.xz");
        let archive = self.path.join(file_name.as_str());
        if facts.archive_exists {
            return Err(ArchiveError::AlreadyExists);
        }
        let mut steps: Vec<ArchiveStep> = Vec::new();
        if dry_run {
            let mut line = String::from_str("Would replace '");
            line.append(self.path.display().as_str());
            line.append("/*' with \"");
            line.append(archive.display().as_str());
            line.append("\"");
            steps.push(ArchiveStep::Print(line));
            assert(step_views(steps@) =~= seq![
                Step::Print(archive_notice(self.path@, self.path@.push(archive_name(self.name@)))),
            ]);
            return Ok(ArchivePlan { archive, steps });
        }
        if facts.temp_dir.starts_with(&self.path) || self.path.starts_with(&facts.temp_dir) {
            return Err(ArchiveError::TempOverlapsProject);
        }
        // The root directory is above every other one, so the project is
        // not at the root here.
        assert(self.path@.len() > 0) by {
            if self.path@.len() == 0 {
                assert(facts.temp_dir@.take(0) =~= self.path@);
            }
        }
        let parent = match self.path.parent() {
            Some(parent) => parent,
            None => unreached(),
        };
        let dir_name = match self.path.file_name() {
            Some(dir_name) => dir_name,
            None => unreached(),
        };
        let aside = match free_aside_name(&dir_name, &facts.siblings) {
            Some(name) => parent.join(name.as_str()),
            None => {
                return Err(ArchiveError::NoFreeName);
            },
        };
        let built = facts.temp_dir.join(file_name.as_str());
        steps.push(ArchiveStep::Pack { source: self.path.duplicate(), archive: built.duplicate() });
        steps.push(ArchiveStep::Rename { from: self.path.duplicate(), to: aside.duplicate() });
        steps.push(ArchiveStep::CreateDir(self.path.duplicate()));
        steps.push(ArchiveStep::Copy { from: built, to: archive.duplicate() });
        steps.push(ArchiveStep::RemoveTree(facts.temp_dir.duplicate()));
        steps.push(ArchiveStep::RemoveTree(aside));
        assert(step_views(steps@) =~= transaction(
            self.path@,
            archive_name(self.name@),
            aside@,
            facts.temp_dir@,
        ));
        Ok(ArchivePlan { archive, steps })
    }
}

/// What can be at a place on disk, as far as archiving is concerned.
#[derive(Debug, Copy, Clone, PartialEq, Eq, Structural)]
pub enum Item {
    /// The project's working tree, complete.
    Tree,
    /// The finished archive of the project's working tree.
    Archive,
    /// A directory with nothing of its own in it.
    EmptyDir,
}

/// What a step makes of the disk `disk`, which says for each place that
/// matters what is there. A step that cannot be taken leaves the disk as it
/// is.
pub open spec fn after_step(disk: Map<Seq<Seq<char>>, Item>, step: Step) -> Map<
    Seq<Seq<char>>,
    Item,
> {
    match step {
        Step::Pack { source, archive } => if disk.contains_key(source) && disk[source]
            == Item::Tree {
            disk.insert(archive, Item::Archive)
        } else {
            disk
        },
        Step::Rename { from, to } => if disk.contains_key(from) && !disk.contains_key(to) {
            disk.remove(from).insert(to, disk[from])
        } else {
            disk
        },
        Step::CreateDir(path) => if disk.contains_key(path) {
            disk
        } else {
            disk.insert(path, Item::EmptyDir)
        },
        Step::Copy { from, to } => if disk.contains_key(from) {
            disk.insert(to, disk[from])
        } else {
            disk
        },
        Step::RemoveTree(path) => Map::new(
            |place: Seq<Seq<char>>| disk.contains_key(place) && !is_prefix_of(path, place),
            |place: Seq<Seq<char>>| disk[place],
        ),
        Step::Print(_) => disk,
    }
}

/// The disk after the first `done` steps of `steps` have been taken.
pub open spec fn after_steps(disk: Map<Seq<Seq<char>>, Item>, steps: Seq<Step>, done: nat) -> Map<
    Seq<Seq<char>>,
    Item,
>
    decreases done,
{
    if done == 0 || done > steps.len() {
        disk
    } else {
        after_step(after_steps(disk, steps, (done - 1) as nat), steps[done - 1])
    }
}

/// Whether `item` is at `place`.
pub open spec fn holds(disk: Map<Seq<Seq<char>>, Item>, place: Seq<Seq<char>>, item: Item) -> bool {
    disk.contains_key(place) && disk[place] == item
}

/// A name for a directory moved aside differs from the directory's own.
pub proof fn lemma_aside_name_differs(dir_name: Seq<char>, n: nat)
    ensures
        aside_name(dir_name, n) != dir_name,
{
    reveal_strlit(".");
    reveal_strlit("~");
    assert(aside_name(dir_name, n).len() > dir_name.len());
}

/// A free name, if there is one, has a number from 1 to 10 and is not among
/// the siblings.
pub proof fn lemma_first_free(dir_name: Seq<char>, siblings: Seq<Seq<char>>, from: nat)
    requires
        from >= 1,
    ensures
        match first_free(dir_name, siblings, from) {
            Some(n) => from <= n <= ATTEMPTS && !siblings.contains(aside_name(dir_name, n)),
            None => forall|n: nat|
                from <= n <= ATTEMPTS ==> siblings.contains(#[trigger] aside_name(dir_name, n)),
        },
    decreases ATTEMPTS + 1 - from,
{
    if from <= ATTEMPTS && siblings.contains(aside_name(dir_name, from)) {
        lemma_first_free(dir_name, siblings, from + 1);
    }
}

/// Where something is at the archive's place, archiving fails and plans no
/// step: nothing is renamed and nothing is removed.
pub proof fn lemma_collision_plans_nothing(
    path: Seq<Seq<char>>,
    name: Seq<char>,
    dry_run: bool,
    siblings: Seq<Seq<char>>,
    temp: Seq<Seq<char>>,
)
    ensures
        planned(path, name, dry_run, true, siblings, temp) == Err::<Seq<Step>, ArchiveError>(
            ArchiveError::AlreadyExists,
        ),
{
}

/// A dry run of archiving leaves the disk as it is, however far it gets.
pub proof fn lemma_dry_run_archive_changes_nothing(
    path: Seq<Seq<char>>,
    name: Seq<char>,
    archive_exists: bool,
    siblings: Seq<Seq<char>>,
    temp: Seq<Seq<char>>,
    disk: Map<Seq<Seq<char>>, Item>,
    done: nat,
)
    ensures
        match planned(path, name, true, archive_exists, siblings, temp) {
            Ok(steps) => after_steps(disk, steps, done) == disk,
            Err(_) => true,
        },
{
    if !archive_exists {
        let steps = planned(path, name, true, archive_exists, siblings, temp).unwrap();
        reveal_with_fuel(after_steps, 3);
        assert(steps.len() == 1);
        if done == 1 {
            assert(steps[0] is Print);
        }
    }
}

/// Archiving never loses data, whichever step is the last to happen.
///
/// On a disk that holds the project's tree at `path` and the build
/// directory `temp`, and of which `siblings` names all that is beside the
/// project directory: after any number of steps short of all of them, the
/// complete tree is still there, at `path` until it is moved aside and at
/// the place aside from then on; from the copy on, the finished archive is
/// at its final place; and after all steps the archive is there and the
/// tree moved aside is gone.
pub proof fn lemma_archive_never_loses_data(
    path: Seq<Seq<char>>,
    name: Seq<char>,
    siblings: Seq<Seq<char>>,
    temp: Seq<Seq<char>>,
    disk: Map<Seq<Seq<char>>, Item>,
    done: nat,
)
    requires
        planned(path, name, false, false, siblings, temp) is Ok,
        holds(disk, path, Item::Tree),
        disk.contains_key(temp),
        !disk.contains_key(path.push(archive_name(name))),
        forall|n: Seq<char>| #[trigger]
            disk.contains_key(path.drop_last().push(n)) ==> siblings.contains(n),
        done <= 6,
    ensures
        ({
            let steps = planned(path, name, false, false, siblings, temp).unwrap();
            let aside = steps[1]->Rename_to;
            let now = after_steps(disk, steps, done);
            &&& steps.len() == 6
            &&& aside != path
            &&& done <= 1 ==> holds(now, path, Item::Tree)
            &&& 2 <= done <= 5 ==> holds(now, aside, Item::Tree)
            &&& done >= 4 ==> holds(now, path.push(archive_name(name)), Item::Archive)
            &&& done == 6 ==> !now.contains_key(aside)
        }),
{
    assert(path.len() > 0) by {
        if path.len() == 0 {
            assert(temp.take(0) =~= path);
        }
    }
    let steps = planned(path, name, false, false, siblings, temp).unwrap();
    let file = archive_name(name);
    let n = first_free(path.last(), siblings, 1).unwrap();
    let aside = path.drop_last().push(aside_name(path.last(), n));
    lemma_first_free(path.last(), siblings, 1);
    lemma_aside_name_differs(path.last(), n);
    assert(steps == transaction(path, file, aside, temp));
    assert(aside.last() == aside_name(path.last(), n));
    assert(aside != path);
    assert(!disk.contains_key(aside));
    assert(temp != aside);
    let built = temp.push(file);
    let target = path.push(file);
    // Places that must not be caught by a removal.
    assert(!is_prefix_of(path, temp));
    assert(!is_prefix_of(temp, path));
    assert(!is_prefix_of(temp, aside)) by {
        if is_prefix_of(temp, aside) {
            if temp.len() == aside.len() {
                assert(aside.take(aside.len() as int) =~= aside);
            } else {
                assert(path.take(temp.len() as int) =~= aside.take(temp.len() as int));
            }
        }
    }
    assert(!is_prefix_of(temp, target)) by {
        if is_prefix_of(temp, target) {
            if temp.len() == target.len() {
                assert(target.take(target.len() as int) =~= target);
                assert(temp.drop_last() =~= path);
                assert(temp.take(path.len() as int) =~= path);
            } else {
                assert(path.take(temp.len() as int) =~= target.take(temp.len() as int));
            }
        }
    }
    assert(!is_prefix_of(aside, target)) by {
        if is_prefix_of(aside, target) {
            assert(target.take(aside.len() as int) =~= path);
        }
    }
    assert(built != path && built != aside && built != target) by {
        if built == path {
            assert(path.take(temp.len() as int) =~= temp);
        }
        if built == aside {
            assert(temp =~= built.drop_last());
            assert(path.drop_last() =~= aside.drop_last());
            assert(path.take(temp.len() as int) =~= temp);
        }
        if built == target {
            assert(temp =~= built.drop_last());
            assert(path =~= target.drop_last());
        }
    }
    assert(target != path && target != aside);
    reveal_with_fuel(after_steps, 7);
    let d1 = after_steps(disk, steps, 1);
    let d2 = after_steps(disk, steps, 2);
    let d3 = after_steps(disk, steps, 3);
    let d4 = after_steps(disk, steps, 4);
    let d5 = after_steps(disk, steps, 5);
    let d6 = after_steps(disk, steps, 6);
    assert(d1 == disk.insert(built, Item::Archive));
    assert(holds(d1, path, Item::Tree));
    assert(d2 == d1.remove(path).insert(aside, Item::Tree));
    assert(d3 == d2.insert(path, Item::EmptyDir));
    assert(d4 == d3.insert(target, Item::Archive));
    assert(holds(d4, aside, Item::Tree));
    assert(holds(d5, aside, Item::Tree));
    assert(holds(d5, target, Item::Archive));
    assert(aside.take(aside.len() as int) =~= aside);
    assert(holds(d6, target, Item::Archive));
}

} // verus!
