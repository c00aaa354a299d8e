//! Version control, as far as a project is concerned: which system holds
//! it, and where the repository's root is.

use vstd::prelude::*;
use crate::path::CanonicalPath;

verus! {

/// What looking for a repository upward from a directory gave.
#[derive(Debug, Clone, PartialEq, Eq)]
pub enum Discovery {
    /// The directory is inside the repository whose working tree has this
    /// root.
    Found(CanonicalPath),
    /// The directory is not under version control.
    NotFound,
    /// The search itself failed, with this message.
    Failed(String),
}

/// The search for a repository failed, with this message.
#[derive(Debug, Clone, PartialEq, Eq)]
pub struct VcsError {
    pub message: String,
}

/// The version control system that holds a project.
#[derive(Debug, Clone, PartialEq, Eq)]
pub enum VersionControlSystem {
    Git(Git),
}

/// A Git repository.
#[derive(Debug, Clone, PartialEq, Eq)]
pub struct Git {
    /// The root of its working tree.
    pub root: CanonicalPath,
}

impl Git {
    /// The repository that the search found, if it found one.
    pub fn try_from(found: &Discovery) -> (r: Result<Option<Git>, VcsError>)
        ensures
            match *found {
                Discovery::Found(root) => r.is_ok() && r.unwrap().is_some()
                    && r.unwrap().unwrap().root@ == root@,
                Discovery::NotFound => r.is_ok() && r.unwrap().is_none(),
                Discovery::Failed(message) => r.is_err() && r.unwrap_err().message@ == message@,
            },
    {
        match found {
            Discovery::Found(root) => Ok(Some(Git { root: root.duplicate() })),
            Discovery::NotFound => Ok(None),
            Discovery::Failed(message) => Err(VcsError { message: message.clone() }),
        }
    }

    /// The root of the working tree.
    pub fn root(&self) -> (root: CanonicalPath)
        ensures
            root@ == self.root@,
    {
        self.root.duplicate()
    }
}

impl VersionControlSystem {
    /// The root of the repository's working tree, as contracts speak of it.
    pub open spec fn root_spec(&self) -> Seq<Seq<char>> {
        match self {
            VersionControlSystem::Git(git) => git.root@,
        }
    }

    /// The version control system that holds a directory, from what the
    /// search for a repository gave: none where no repository was found, an
    /// error where the search failed.
    pub fn try_from(found: &Discovery) -> (r: Result<Option<VersionControlSystem>, VcsError>)
        ensures
            match *found {
                Discovery::Found(root) => r.is_ok() && r.unwrap().is_some()
                    && r.unwrap().unwrap().root_spec() == root@,
                Discovery::NotFound => r.is_ok() && r.unwrap().is_none(),
                Discovery::Failed(message) => r.is_err() && r.unwrap_err().message@ == message@,
            },
    {
        match Git::try_from(found) {
            Ok(Some(git)) => Ok(Some(VersionControlSystem::Git(git))),
            Ok(None) => Ok(None),
            Err(e) => Err(e),
        }
    }

    /// The name of the system.
    pub fn name(&self) -> (name: &'static str)
        ensures
            name@ == "Git"@,
    {
        match self {
            VersionControlSystem::Git(_) => "Git",
        }
    }

    /// The root of the repository's working tree.
    pub fn root(&self) -> (root: CanonicalPath)
        ensures
            root@ == self.root_spec(),
    {
        match self {
            VersionControlSystem::Git(git) => git.root(),
        }
    }
}

} // verus!
