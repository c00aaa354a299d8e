//! Sizes of directories and how they are shown.

use vstd::prelude::*;
use vstd::string::*;
use crate::path::CanonicalPath;
use crate::text::{decimal, push_decimal, str_is, texts};

verus! {

pub const KIB: u64 = 1024;

pub const MIB: u64 = 1048576;

pub const GIB: u64 = 1073741824;

pub const TIB: u64 = 1099511627776;

/// The number that `format_size` prints for `bytes`: the size in the largest
/// unit of which it holds at least three.
pub open spec fn size_number(bytes: nat) -> nat {
    if bytes < 3 * KIB {
        bytes
    } else if bytes < 3 * MIB {
        bytes / (KIB as nat)
    } else if bytes < 3 * GIB {
        bytes / (MIB as nat)
    } else if bytes < 3 * TIB {
        bytes / (GIB as nat)
    } else {
        bytes / (TIB as nat)
    }
}

/// The unit that `format_size` prints for `bytes`, with the space before it.
pub open spec fn size_unit(bytes: nat) -> Seq<char> {
    if bytes < 3 * KIB {
        " B"@
    } else if bytes < 3 * MIB {
        " KiB"@
    } else if bytes < 3 * GIB {
        " MiB"@
    } else if bytes < 3 * TIB {
        " GiB"@
    } else {
        " TiB"@
    }
}

/// What `format_size` returns for `bytes`.
pub open spec fn formatted_size(bytes: nat) -> Seq<char> {
    decimal(size_number(bytes)) + size_unit(bytes)
}

/// Renders a number of bytes for people: whole numbers of B, KiB, MiB, GiB
/// or TiB, rounded down, switching to the next unit at three of it.
pub fn format_size(bytes: u64) -> (s: String)
    ensures
        s@ == formatted_size(bytes as nat),
{
    let mut s = String::new();
    if bytes < 3 * KIB {
        push_decimal(&mut s, bytes);
        s.append(" B");
    } else if bytes < 3 * MIB {
        push_decimal(&mut s, bytes / KIB);
        s.append(" KiB");
    } else if bytes < 3 * GIB {
        push_decimal(&mut s, bytes / MIB);
        s.append(" MiB");
    } else if bytes < 3 * TIB {
        push_decimal(&mut s, bytes / GIB);
        s.append(" GiB");
    } else {
        push_decimal(&mut s, bytes / TIB);
        s.append(" TiB");
    }
    assert(s@ =~= formatted_size(bytes as nat));
    s
}

/// The sum of a sequence of sizes.
pub open spec fn total(sizes: Seq<u64>) -> nat
    decreases sizes.len(),
{
    if sizes.len() == 0 {
        0
    } else {
        total(sizes.drop_last()) + sizes.last() as nat
    }
}

/// `n`, or the largest `u64` where `n` is beyond it.
pub open spec fn capped(n: nat) -> u64 {
    if n > u64::MAX {
        u64::MAX
    } else {
        n as u64
    }
}

/// Adds `more` to `sum`, stopping at the largest `u64`.
pub fn add_capped(sum: u64, more: u64) -> (r: u64)
    ensures
        r == capped(sum as nat + more as nat),
{
    if more > u64::MAX - sum {
        u64::MAX
    } else {
        sum + more
    }
}

/// Capping along the way gives what capping at the end gives.
pub proof fn lemma_capped_step(sum: nat, more: u64)
    ensures
        capped(capped(sum) as nat + more as nat) == capped(sum + more as nat),
{
}

/// The size of a directory: the lengths of the regular files below it,
/// added up; nothing for a path that is no directory. Stops at the largest
/// `u64`.
pub fn dir_size(is_dir: bool, file_lengths: &Vec<u64>) -> (size: u64)
    ensures
        size == if is_dir {
            capped(total(file_lengths@))
        } else {
            0
        },
{
    if !is_dir {
        return 0;
    }
    let mut size: u64 = 0;
    let mut i: usize = 0;
    while i < file_lengths.len()
        invariant
            i <= file_lengths.len(),
            size == capped(total(file_lengths@.take(i as int))),
        decreases file_lengths.len() - i,
    {
        proof {
            assert(file_lengths@.take(i + 1).drop_last() =~= file_lengths@.take(i as int));
            lemma_capped_step(total(file_lengths@.take(i as int)), file_lengths[i as int]);
        }
        size = add_capped(size, file_lengths[i]);
        i += 1;
    }
    proof {
        assert(file_lengths@.take(file_lengths.len() as int) =~= file_lengths@);
    }
    size
}

/// A directory directly inside another one, as it was found on disk.
#[derive(Debug, Clone, PartialEq, Eq)]
pub struct SubDir {
    /// Its name within the directory that holds it.
    pub name: String,
    /// The lengths of the regular files below it, added up.
    pub size: u64,
    /// Whether version control ignores it.
    pub ignored: bool,
}

/// A directory directly inside another one, as contracts speak of it.
pub struct Folder {
    pub name: Seq<char>,
    pub size: u64,
    pub ignored: bool,
}

impl View for SubDir {
    type V = Folder;

    open spec fn view(&self) -> Folder {
        Folder { name: self.name@, size: self.size, ignored: self.ignored }
    }
}

/// The directories of a list, one for one.
pub open spec fn folders(subdirs: Seq<SubDir>) -> Seq<Folder> {
    Seq::new(subdirs.len(), |i: int| subdirs[i]@)
}

/// What was found in one directory: the facts that recognising a project
/// and judging its state depend on.
#[derive(Debug, Clone, PartialEq, Eq)]
pub struct Directory {
    /// Where the directory is.
    pub path: CanonicalPath,
    /// The names of the regular files directly inside.
    pub files: Vec<String>,
    /// The directories directly inside.
    pub subdirs: Vec<SubDir>,
    /// The package name that `Cargo.toml` declares, where that file can be
    /// read and declares one.
    pub cargo_package: Option<String>,
    /// The name that `pubspec.yaml` declares, where that file can be read
    /// and holds a name, a version and a `flutter` entry.
    pub pubspec_name: Option<String>,
}

impl Directory {
    /// Whether a regular file called `name` is directly inside.
    pub open spec fn has_file(&self, name: Seq<char>) -> bool {
        texts(self.files@).contains(name)
    }

    /// Tells whether a regular file called `name` is directly inside.
    pub fn is_file(&self, name: &str) -> (yes: bool)
        ensures
            yes == self.has_file(name@),
    {
        let mut i: usize = 0;
        while i < self.files.len()
            invariant
                i <= self.files.len(),
                forall|j: int| 0 <= j < i ==> texts(self.files@)[j] != name@,
            decreases self.files.len() - i,
        {
            if str_is(&self.files[i], name) {
                assert(texts(self.files@)[i as int] == name@);
                return true;
            }
            i += 1;
        }
        false
    }
}

} // verus!
