//! Canonical, absolute paths, held as the names that lead from the root.

use vstd::prelude::*;
use vstd::string::*;
use crate::text::{clone_strings, join_strings, joined, str_is, texts};

verus! {

/// Whether `name` can be one step of a canonical path: not empty, neither
/// `.` nor `..`, and without a separator inside.
pub open spec fn valid_component(name: Seq<char>) -> bool {
    &&& name.len() > 0
    &&& name != seq!['.']
    &&& name != seq!['.', '.']
    &&& !name.contains('/')
}

/// Whether every name of `names` can be a step of a canonical path.
pub open spec fn valid_components(names: Seq<Seq<char>>) -> bool {
    forall|i: int| 0 <= i < names.len() ==> valid_component(#[trigger] names[i])
}

/// Whether `prefix` leads to the directory of `whole` or to one above it.
pub open spec fn is_prefix_of(prefix: Seq<Seq<char>>, whole: Seq<Seq<char>>) -> bool {
    prefix.len() <= whole.len() && whole.take(prefix.len() as int) == prefix
}

/// How a path is written: a separator before each name, and a single
/// separator for the root.
pub open spec fn rendered(names: Seq<Seq<char>>) -> Seq<char> {
    seq!['/'] + joined(names, seq!['/'])
}

/// An absolute path without `.`, `..` or empty steps.
#[derive(Debug, Clone, PartialEq, Eq)]
pub struct CanonicalPath {
    pub components: Vec<String>,
}

impl View for CanonicalPath {
    type V = Seq<Seq<char>>;

    open spec fn view(&self) -> Seq<Seq<char>> {
        texts(self.components@)
    }
}

/// Tells whether `name` can be one step of a canonical path.
pub fn is_valid_component(name: &String) -> (ok: bool)
    ensures
        ok == valid_component(name@),
{
    proof {
        reveal_strlit(".");
        reveal_strlit("..");
        assert("."@ =~= seq!['.']);
        assert(".."@ =~= seq!['.', '.']);
    }
    let text = name.as_str();
    let n = text.unicode_len();
    if n == 0 || str_is(name, ".") || str_is(name, "..") {
        return false;
    }
    let mut i: usize = 0;
    while i < n
        invariant
            i <= n,
            n == text@.len(),
            text@ == name@,
            forall|j: int| 0 <= j < i ==> text@[j] != '/',
        decreases n - i,
    {
        if text.get_char(i) == '/' {
            assert(name@[i as int] == '/');
            return false;
        }
        i += 1;
    }
    true
}

impl CanonicalPath {
    /// Whether this value is a canonical path.
    pub open spec fn wf(&self) -> bool {
        valid_components(self@)
    }

    /// The root directory.
    pub fn root() -> (p: CanonicalPath)
        ensures
            p@ == Seq::<Seq<char>>::empty(),
            p.wf(),
    {
        let p = CanonicalPath { components: Vec::new() };
        assert(p@ =~= Seq::<Seq<char>>::empty());
        p
    }

    /// The path whose steps are `components`, if each of them is valid.
    pub fn new(components: Vec<String>) -> (p: Option<CanonicalPath>)
        ensures
            p.is_some() == valid_components(texts(components@)),
            p.is_some() ==> p.unwrap()@ == texts(components@) && p.unwrap().wf(),
    {
        let mut i: usize = 0;
        while i < components.len()
            invariant
                i <= components.len(),
                forall|j: int| 0 <= j < i ==> valid_component(#[trigger] texts(components@)[j]),
            decreases components.len() - i,
        {
            if !is_valid_component(&components[i]) {
                assert(!valid_component(texts(components@)[i as int]));
                return None;
            }
            i += 1;
        }
        Some(CanonicalPath { components })
    }

    /// A copy of this path.
    pub fn duplicate(&self) -> (p: CanonicalPath)
        ensures
            p@ == self@,
    {
        CanonicalPath { components: clone_strings(&self.components) }
    }

    /// Whether the two paths name the same place.
    pub fn same_as(&self, other: &CanonicalPath) -> (same: bool)
        ensures
            same == (self@ == other@),
    {
        if self.components.len() != other.components.len() {
            assert(self@.len() != other@.len());
            return false;
        }
        let mut i: usize = 0;
        while i < self.components.len()
            invariant
                i <= self.components.len(),
                self.components.len() == other.components.len(),
                forall|j: int| 0 <= j < i ==> self@[j] == other@[j],
            decreases self.components.len() - i,
        {
            if self.components[i] != other.components[i] {
                assert(self@[i as int] != other@[i as int]);
                return false;
            }
            i += 1;
        }
        assert(self@ =~= other@);
        true
    }

    /// The directory that holds this one; the root has none.
    pub fn parent(&self) -> (p: Option<CanonicalPath>)
        ensures
            p.is_some() == (self@.len() > 0),
            p.is_some() ==> p.unwrap()@ == self@.drop_last(),
            p.is_some() && self.wf() ==> p.unwrap().wf(),
    {
        let n = self.components.len();
        if n == 0 {
            return None;
        }
        let mut components = clone_strings(&self.components);
        let ghost before = components@;
        components.pop();
        let p = CanonicalPath { components };
        proof {
            assert(texts(before) == self@);
            assert forall|j: int| 0 <= j < n - 1 implies p@[j] == self@.drop_last()[j] by {
                assert(texts(before)[j] == self@[j]);
            }
            assert(p@ =~= self@.drop_last());
        }
        Some(p)
    }

    /// The last step of this path; the root has none.
    pub fn file_name(&self) -> (name: Option<String>)
        ensures
            name.is_some() == (self@.len() > 0),
            name.is_some() ==> name.unwrap()@ == self@.last(),
    {
        let n = self.components.len();
        if n == 0 {
            None
        } else {
            Some(self.components[n - 1].clone())
        }
    }

    /// The entry called `name` inside this directory.
    pub fn join(&self, name: &str) -> (p: CanonicalPath)
        ensures
            p@ == self@.push(name@),
    {
        let mut components = clone_strings(&self.components);
        let ghost before = components@;
        components.push(String::from_str(name));
        let p = CanonicalPath { components };
        proof {
            assert(texts(before) == self@);
            assert forall|j: int| 0 <= j < p@.len() implies p@[j] == self@.push(name@)[j] by {
                if j < self@.len() {
                    assert(texts(before)[j] == self@[j]);
                }
            }
            assert(p@ =~= self@.push(name@));
        }
        p
    }

    /// The place that `steps` lead to from this directory.
    pub fn extend(&self, steps: &Vec<String>) -> (p: CanonicalPath)
        ensures
            p@ == self@ + texts(steps@),
    {
        let mut components = clone_strings(&self.components);
        let mut i: usize = 0;
        proof {
            assert(texts(components@).len() == components@.len());
            assert(texts(self.components@).len() == self.components@.len());
            assert(texts(components@) =~= self@ + texts(steps@).take(0));
        }
        while i < steps.len()
            invariant
                i <= steps.len(),
                components@.len() == self.components@.len() + i,
                texts(components@) == self@ + texts(steps@).take(i as int),
            decreases steps.len() - i,
        {
            let ghost before = components@;
            components.push(steps[i].clone());
            proof {
                let want = self@ + texts(steps@).take(i + 1);
                assert forall|j: int| 0 <= j < want.len() implies texts(components@)[j]
                    == want[j] by {
                    if j < before.len() {
                        assert(texts(before)[j] == (self@ + texts(steps@).take(i as int))[j]);
                    }
                }
                assert(texts(components@) =~= want);
            }
            i += 1;
        }
        proof {
            assert(texts(steps@).take(steps.len() as int) =~= texts(steps@));
        }
        CanonicalPath { components }
    }

    /// Whether `prefix` is this directory or one above it.
    pub fn starts_with(&self, prefix: &CanonicalPath) -> (yes: bool)
        ensures
            yes == is_prefix_of(prefix@, self@),
    {
        let n = prefix.components.len();
        if n > self.components.len() {
            return false;
        }
        let mut i: usize = 0;
        while i < n
            invariant
                i <= n,
                n == prefix.components.len(),
                n <= self.components.len(),
                forall|j: int| 0 <= j < i ==> self@[j] == prefix@[j],
            decreases n - i,
        {
            if self.components[i] != prefix.components[i] {
                assert(self@.take(n as int)[i as int] != prefix@[i as int]);
                return false;
            }
            i += 1;
        }
        assert(self@.take(n as int) =~= prefix@);
        true
    }

    /// Whether one of the steps of this path is called `name`.
    pub fn has_component(&self, name: &str) -> (yes: bool)
        ensures
            yes == self@.contains(name@),
    {
        let mut i: usize = 0;
        while i < self.components.len()
            invariant
                i <= self.components.len(),
                forall|j: int| 0 <= j < i ==> self@[j] != name@,
            decreases self.components.len() - i,
        {
            if str_is(&self.components[i], name) {
                assert(self@[i as int] == name@);
                return true;
            }
            i += 1;
        }
        false
    }

    /// The path as text.
    pub fn display(&self) -> (s: String)
        ensures
            s@ == rendered(self@),
    {
        proof {
            reveal_strlit("/");
            assert("/"@ =~= seq!['/']);
        }
        let mut s = String::from_str("/");
        let rest = join_strings(&self.components, "/");
        s.append(rest.as_str());
        s
    }
}

} // verus!
