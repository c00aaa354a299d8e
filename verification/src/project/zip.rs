//! Replacing what is in a project directory by one zip archive of it.

use vstd::prelude::*;
use vstd::string::*;
use crate::path::{rendered, CanonicalPath};
use crate::project::Project;
use crate::text::{join_strings, joined, texts};

verus! {

/// Something directly inside the project directory.
#[derive(Debug, Clone, PartialEq, Eq)]
pub struct TopEntry {
    /// Its name.
    pub name: String,
    /// Whether it is a directory.
    pub is_dir: bool,
}

/// Something in or below the project directory, as a walk of it finds it.
#[derive(Debug, Clone, PartialEq, Eq)]
pub struct WalkEntry {
    /// The steps that lead to it from the project directory; none for the
    /// project directory itself.
    pub path: Vec<String>,
    /// Whether it is a regular file.
    pub is_file: bool,
}

/// What zipping has to know of the disk.
#[derive(Debug, Clone, PartialEq, Eq)]
pub struct ZipFacts {
    /// Whether anything is at the place where the archive is to be.
    pub zip_exists: bool,
    /// All that is directly inside the project directory, hidden or not.
    pub top_level: Vec<TopEntry>,
    /// All that is in or below the project directory, hidden or not,
    /// directories before what they hold.
    pub walk: Vec<WalkEntry>,
}

/// One step of zipping a project.
#[derive(Debug, Clone, PartialEq, Eq)]
pub enum ZipStep {
    /// Create a new archive at this place; fail if something is there.
    Create(CanonicalPath),
    /// Add the file `source` to the archive under `name`.
    AddFile { name: String, source: CanonicalPath },
    /// Add a directory to the archive under `name`.
    AddDirectory { name: String },
    /// Finish the archive.
    Finish,
    /// Remove this directory and all that is below it.
    RemoveTree(CanonicalPath),
    /// Remove this file.
    RemoveFile(CanonicalPath),
    /// Print this line and change nothing.
    Print(String),
}

/// A step of zipping a project, as contracts speak of it.
pub enum ZStep {
    Create(Seq<Seq<char>>),
    AddFile { name: Seq<char>, source: Seq<Seq<char>> },
    AddDirectory { name: Seq<char> },
    Finish,
    RemoveTree(Seq<Seq<char>>),
    RemoveFile(Seq<Seq<char>>),
    Print(Seq<char>),
}

impl View for ZipStep {
    type V = ZStep;

    open spec fn view(&self) -> ZStep {
        match self {
            ZipStep::Create(path) => ZStep::Create(path@),
            ZipStep::AddFile { name, source } => ZStep::AddFile { name: name@, source: source@ },
            ZipStep::AddDirectory { name } => ZStep::AddDirectory { name: name@ },
            ZipStep::Finish => ZStep::Finish,
            ZipStep::RemoveTree(path) => ZStep::RemoveTree(path@),
            ZipStep::RemoveFile(path) => ZStep::RemoveFile(path@),
            ZipStep::Print(line) => ZStep::Print(line@),
        }
    }
}

/// The steps of a plan, one for one.
pub open spec fn zip_views(steps: Seq<ZipStep>) -> Seq<ZStep> {
    Seq::new(steps.len(), |i: int| steps[i]@)
}

/// Why a project cannot be zipped.
#[derive(Debug, Copy, Clone, PartialEq, Eq, Structural)]
pub enum ZipError {
    /// Something is at the place where the archive is to be.
    AlreadyExists,
}

/// What zipping a project comes to.
#[derive(Debug, Clone, PartialEq, Eq)]
pub struct ZipPlan {
    /// Where the archive is made.
    pub zip: CanonicalPath,
    /// What to do, in this order; a step that fails ends the run.
    pub steps: Vec<ZipStep>,
}

/// The file name of the zip archive of the project called `name`.
pub open spec fn zip_name(name: Seq<char>) -> Seq<char> {
    name + ".zip"@
}

/// The steps that pack what a walk found, in its order: a file is added
/// under its path from the project directory, a directory likewise unless
/// it is the project directory itself, and the archive is not packed into
/// itself.
pub open spec fn packing(base: Seq<Seq<char>>, file_name: Seq<char>, walk: Seq<WalkEntry>) -> Seq<
    ZStep,
>
    decreases walk.len(),
{
    if walk.len() == 0 {
        Seq::empty()
    } else {
        let rest = packing(base, file_name, walk.drop_last());
        let path = texts(walk.last().path@);
        let name = joined(path, seq!['/']);
        if path == seq![file_name] {
            rest
        } else if walk.last().is_file {
            rest.push(ZStep::AddFile { name, source: base + path })
        } else if name.len() > 0 {
            rest.push(ZStep::AddDirectory { name })
        } else {
            rest
        }
    }
}

/// The step that removes what is directly inside the project directory.
pub open spec fn removal(base: Seq<Seq<char>>, entry: TopEntry) -> ZStep {
    if entry.is_dir {
        ZStep::RemoveTree(base.push(entry.name@))
    } else {
        ZStep::RemoveFile(base.push(entry.name@))
    }
}

/// The steps that remove all that was directly inside the project
/// directory, in the order in which it was listed.
pub open spec fn removals(base: Seq<Seq<char>>, top_level: Seq<TopEntry>) -> Seq<ZStep> {
    Seq::new(top_level.len(), |i: int| removal(base, top_level[i]))
}

/// The places of all that is directly inside the project directory, as a
/// dry run shows them.
pub open spec fn shown_places(base: Seq<Seq<char>>, top_level: Seq<TopEntry>) -> Seq<Seq<char>> {
    Seq::new(
        top_level.len(),
        |i: int| "\""@ + rendered(base.push(top_level[i].name@)) + "\""@,
    )
}

/// The line that a dry run prints.
pub open spec fn zip_notice(
    base: Seq<Seq<char>>,
    file_name: Seq<char>,
    top_level: Seq<TopEntry>,
) -> Seq<char> {
    "Would zip \""@ + rendered(base) + "\" as \""@ + file_name + "\", then delete ["@ + joined(
        shown_places(base, top_level),
        ", "@,
    ) + "]"@
}

/// What zipping the project called `name` at `base` comes to.
pub open spec fn zip_planned(
    base: Seq<Seq<char>>,
    name: Seq<char>,
    dry_run: bool,
    zip_exists: bool,
    top_level: Seq<TopEntry>,
    walk: Seq<WalkEntry>,
) -> Result<Seq<ZStep>, ZipError> {
    if zip_exists {
        Err(ZipError::AlreadyExists)
    } else if dry_run {
        Ok(seq![ZStep::Print(zip_notice(base, zip_name(name), top_level))])
    } else {
        Ok(
            seq![ZStep::Create(base.push(zip_name(name)))] + packing(base, zip_name(name), walk)
                + seq![ZStep::Finish] + removals(base, top_level),
        )
    }
}

fn is_archive_itself(path: &Vec<String>, file_name: &String) -> (yes: bool)
    ensures
        yes == (texts(path@) == seq![file_name@]),
{
    if path.len() == 1 && path[0] == *file_name {
        assert(texts(path@) =~= seq![file_name@]);
        true
    } else {
        if path.len() == 1 {
            assert(texts(path@)[0] != seq![file_name@][0]);
        } else {
            assert(texts(path@).len() != seq![file_name@].len());
        }
        false
    }
}

fn pack(base: &CanonicalPath, file_name: &String, walk: &Vec<WalkEntry>, steps: &mut Vec<ZipStep>)
    ensures
        zip_views(final(steps)@) == zip_views(old(steps)@) + packing(base@, file_name@, walk@),
{
    proof {
        reveal_strlit("/");
        assert("/"@ =~= seq!['/']);
    }
    let ghost start = zip_views(steps@);
    let mut i: usize = 0;
    assert(zip_views(steps@) =~= start + packing(base@, file_name@, walk@.take(0)));
    while i < walk.len()
        invariant
            i <= walk.len(),
            "/"@ == seq!['/'],
            steps@.len() == start.len() + packing(base@, file_name@, walk@.take(i as int)).len(),
            zip_views(steps@) == start + packing(base@, file_name@, walk@.take(i as int)),
        decreases walk.len() - i,
    {
        let ghost before = steps@;
        proof {
            assert(walk@.take(i + 1).drop_last() =~= walk@.take(i as int));
            assert(walk@.take(i + 1).last() == walk@[i as int]);
        }
        let entry = &walk[i];
        if !is_archive_itself(&entry.path, file_name) {
            let name = join_strings(&entry.path, "/");
            if entry.is_file {
                steps.push(ZipStep::AddFile { name, source: base.extend(&entry.path) });
            } else if name.as_str().unicode_len() > 0 {
                steps.push(ZipStep::AddDirectory { name });
            }
        }
        proof {
            let want = start + packing(base@, file_name@, walk@.take(i + 1));
            if steps@.len() > before.len() {
                assert(steps@ == before.push(steps@[before.len() as int]));
                assert forall|j: int| 0 <= j < want.len() implies zip_views(steps@)[j]
                    == want[j] by {
                    if j < before.len() {
                        assert(zip_views(before)[j] == (start + packing(
                            base@,
                            file_name@,
                            walk@.take(i as int),
                        ))[j]);
                    }
                }
            }
            assert(zip_views(steps@) =~= want);
        }
        i += 1;
    }
    proof {
        assert(walk@.take(walk.len() as int) =~= walk@);
    }
}

fn remove_all(base: &CanonicalPath, top_level: &Vec<TopEntry>, steps: &mut Vec<ZipStep>)
    ensures
        zip_views(final(steps)@) == zip_views(old(steps)@) + removals(base@, top_level@),
{
    let ghost start = steps@;
    let mut i: usize = 0;
    while i < top_level.len()
        invariant
            i <= top_level.len(),
            steps@.len() == start.len() + i,
            forall|j: int| 0 <= j < start.len() ==> steps@[j] == start[j],
            forall|j: int| 0 <= j < i ==> steps@[start.len() + j]@ == removal(base@, top_level@[j]),
        decreases top_level.len() - i,
    {
        let place = base.join(top_level[i].name.as_str());
        if top_level[i].is_dir {
            steps.push(ZipStep::RemoveTree(place));
        } else {
            steps.push(ZipStep::RemoveFile(place));
        }
        i += 1;
    }
    assert(zip_views(steps@) =~= zip_views(start) + removals(base@, top_level@));
}

fn show_places(base: &CanonicalPath, top_level: &Vec<TopEntry>) -> (shown: Vec<String>)
    ensures
        texts(shown@) == shown_places(base@, top_level@),
{
    let mut shown: Vec<String> = Vec::new();
    let mut i: usize = 0;
    while i < top_level.len()
        invariant
            i <= top_level.len(),
            shown@.len() == i,
            forall|j: int|
                0 <= j < i ==> shown@[j]@ == "\""@ + rendered(base@.push(top_level@[j].name@))
                    + "\""@,
        decreases top_level.len() - i,
    {
        let mut s = String::from_str("\"");
        s.append(base.join(top_level[i].name.as_str()).display().as_str());
        s.append("\"");
        shown.push(s);
        i += 1;
    }
    assert(texts(shown@) =~= shown_places(base@, top_level@));
    shown
}

impl Project {
    /// Plans the replacement of all that is in the project directory by
    /// one zip archive of it, which is made in the project directory.
    ///
    /// Nothing is planned where something is already at the archive's
    /// place. A dry run plans one printed line. Otherwise the archive is
    /// created, all that the walk found is packed, hidden files and build
    /// artifacts included, the archive is finished, and then all that was
    /// directly inside the project directory is removed.
    pub fn zip(&self, dry_run: bool, facts: &ZipFacts) -> (r: Result<ZipPlan, ZipError>)
        ensures
            match zip_planned(
                self.path@,
                self.name@,
                dry_run,
                facts.zip_exists,
                facts.top_level@,
                facts.walk@,
            ) {
                Ok(steps) => r is Ok && zip_views(r.unwrap().steps@) == steps && r.unwrap().zip@
                    == self.path@.push(zip_name(self.name@)),
                Err(e) => r == Err::<ZipPlan, ZipError>(e),
            },
    {
        let mut file_name = self.name.clone();
        file_name.append(".zip");
        let zip = self.path.join(file_name.as_str());
        if facts.zip_exists {
            return Err(ZipError::AlreadyExists);
        }
        let mut steps: Vec<ZipStep> = Vec::new();
        if dry_run {
            let shown = show_places(&self.path, &facts.top_level);
            let mut line = String::from_str("Would zip \"");
            line.append(self.path.display().as_str());
            line.append("\" as \"");
            line.append(file_name.as_str());
            line.append("\", then delete [");
            line.append(join_strings(&shown, ", ").as_str());
            line.append("]");
            steps.push(ZipStep::Print(line));
            assert(zip_views(steps@) =~= seq![
                ZStep::Print(zip_notice(self.path@, zip_name(self.name@), facts.top_level@)),
            ]);
            return Ok(ZipPlan { zip, steps });
        }
        steps.push(ZipStep::Create(zip.duplicate()));
        assert(zip_views(steps@) =~= seq![ZStep::Create(self.path@.push(zip_name(self.name@)))]);
        pack(&self.path, &file_name, &facts.walk, &mut steps);
        let ghost packed = zip_views(steps@);
        steps.push(ZipStep::Finish);
        assert(zip_views(steps@) =~= packed + seq![ZStep::Finish]);
        remove_all(&self.path, &facts.top_level, &mut steps);
        Ok(ZipPlan { zip, steps })
    }
}

} // verus!
