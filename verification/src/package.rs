//! One package of a workspace and where its output goes.

use crate::paths::{diff, difference, join, joined, place, placed, portable, relative, retype, retyped};
use vstd::prelude::*;

verus! {

/// The directory, directly under a package's root, that receives its output.
pub const OUTPUT_DIR: &'static str = "dist";

/// The extension of an output file.
pub const OUTPUT_EXTENSION: &'static str = "js";

/// The glob pattern, relative to a package's root, that its sources match.
pub const SOURCE_PATTERN: &'static str = "**/*.ts";

/// Why a path cannot be placed.
#[derive(Clone, Copy, Debug, PartialEq, Eq, Structural)]
pub enum PathError {
    /// No relative path leads from the base to the path.
    Unrelated,
    /// The relative path is not one that every platform can read.
    NotPortable,
}

/// What stands where a package's output directory is to be.
#[derive(Clone, Copy, Debug, PartialEq, Eq, Structural)]
pub enum Occupant {
    /// Nothing stands there.
    Nothing,
    /// A directory stands there.
    Directory,
    /// Something stands there that is no directory.
    Other,
}

/// What to do with the output directory before any file is written.
#[derive(Clone, Copy, Debug, PartialEq, Eq, Structural)]
pub enum Preparation {
    /// Nothing stands there: go on.
    Proceed,
    /// Remove the directory and everything under it, then go on.
    Clear,
}

/// A compilable unit: a directory of a workspace, named by its path relative
/// to the workspace's root.
#[derive(Clone, Debug)]
pub struct Package {
    repo_root: String,
    pkg_root: String,
}

/// The mathematical content of a [`Package`].
pub struct PackageView {
    pub repo_root: Seq<char>,
    pub pkg_root: Seq<char>,
}

impl View for Package {
    type V = PackageView;

    closed spec fn view(&self) -> PackageView {
        PackageView { repo_root: self.repo_root@, pkg_root: self.pkg_root@ }
    }
}

/// The views of `packages`, in order.
pub open spec fn views(packages: Seq<Package>) -> Seq<PackageView> {
    packages.map_values(|package: Package| package@)
}

impl PackageView {
    /// The package's root as a platform path.
    pub open spec fn source_root(self) -> Seq<char> {
        placed(self.pkg_root, self.repo_root)
    }

    /// The package's output directory, relative to the workspace's root.
    pub open spec fn output_dir(self) -> Seq<char> {
        joined(self.pkg_root, OUTPUT_DIR@)
    }

    /// The package's output directory as a platform path.
    pub open spec fn output_root(self) -> Seq<char> {
        placed(self.output_dir(), self.repo_root)
    }

    /// Where the output of the source file `source` goes: as far below the
    /// output directory as `source` lies below the package's root, with the
    /// output extension.
    pub open spec fn output_file(self, source: Seq<char>) -> Result<Seq<char>, PathError> {
        match difference(source, self.source_root()) {
            None => Err(PathError::Unrelated),
            Some(below) => if !portable(below) {
                Err(PathError::NotPortable)
            } else {
                Ok(
                    retyped(
                        placed(joined(self.output_dir(), below), self.repo_root),
                        OUTPUT_EXTENSION@,
                    ),
                )
            },
        }
    }
}

impl Package {
    /// The package at `pkg_root`, a path relative to the workspace root
    /// `repo_root`.
    pub fn new(repo_root: String, pkg_root: String) -> (package: Package)
        ensures
            package@ == (PackageView { repo_root: repo_root@, pkg_root: pkg_root@ }),
    {
        Package { repo_root, pkg_root }
    }

    /// The root of the workspace that holds the package.
    pub fn repo_root(&self) -> (path: &str)
        ensures
            path@ == self@.repo_root,
    {
        self.repo_root.as_str()
    }

    /// The package's root, relative to the workspace's root.
    pub fn pkg_root(&self) -> (path: &str)
        ensures
            path@ == self@.pkg_root,
    {
        self.pkg_root.as_str()
    }

    /// The package's root as a platform path.
    pub fn source_root(&self) -> (path: String)
        ensures
            path@ == self@.source_root(),
    {
        place(self.pkg_root.as_str(), self.repo_root.as_str())
    }

    /// The package's output directory as a platform path.
    pub fn output_root(&self) -> (path: String)
        ensures
            path@ == self@.output_root(),
    {
        let out = join(self.pkg_root.as_str(), OUTPUT_DIR);
        place(out.as_str(), self.repo_root.as_str())
    }

    /// Where the output of the source file `source` goes.
    pub fn output_file(&self, source: &str) -> (target: Result<String, PathError>)
        ensures
            match target {
                Ok(path) => self@.output_file(source@) == Ok::<Seq<char>, PathError>(path@),
                Err(error) => self@.output_file(source@) == Err::<Seq<char>, PathError>(error),
            },
    {
        let root = self.source_root();
        let below = match diff(source, root.as_str()) {
            Some(below) => below,
            None => {
                return Err(PathError::Unrelated);
            },
        };
        let below = match relative(below.as_str()) {
            Ok(below) => below,
            Err(_) => {
                return Err(PathError::NotPortable);
            },
        };
        let out = join(self.pkg_root.as_str(), OUTPUT_DIR);
        let target = place(join(out.as_str(), below).as_str(), self.repo_root.as_str());
        proof {
            reveal_strlit("js");
        }
        Ok(retype(target.as_str(), OUTPUT_EXTENSION))
    }
}

/// What to do about whatever stands where the output directory is to be: a
/// directory left by an earlier run is removed whole, anything else that
/// stands there is refused.
pub fn prepare(occupant: Occupant) -> (plan: Option<Preparation>)
    ensures
        plan == match occupant {
            Occupant::Nothing => Some(Preparation::Proceed),
            Occupant::Directory => Some(Preparation::Clear),
            Occupant::Other => None,
        },
{
    match occupant {
        Occupant::Nothing => Some(Preparation::Proceed),
        Occupant::Directory => Some(Preparation::Clear),
        Occupant::Other => None,
    }
}

} // verus!
