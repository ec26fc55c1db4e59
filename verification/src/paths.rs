//! Path arithmetic, done by `relative_path`, `pathdiff` and `std::path`.
//!
//! Paths travel through this library as strings. Nothing in this file is
//! proved: each function states what the one function that it calls does,
//! or gives its result a name where that is too long to restate. None of
//! them looks at a file system. What the functions of `std::path` and
//! `pathdiff` return follows the path syntax of the platform: a name stands
//! for the result on the platform that the library is built for.

use pathdiff::diff_paths;
use relative_path::FromPathError;
use relative_path::RelativePath;
use std::path::Path;
use vstd::prelude::*;

verus! {

/// The failure that `relative_path` reports for a path it cannot take.
#[verifier::external_type_specification]
#[verifier::external_body]
pub struct ExFromPathError(FromPathError);

/// `tail` after `base` as `RelativePath::join` writes it: one `/` between
/// the two unless `base` is empty or ends in one, and without the `/` that
/// `tail` may begin with.
pub open spec fn joined(base: Seq<char>, tail: Seq<char>) -> Seq<char> {
    let head = if base.len() > 0 && base.last() != '/' {
        base.push('/')
    } else {
        base
    };
    if tail.len() > 0 && tail[0] == '/' {
        head + tail.skip(1)
    } else {
        head + tail
    }
}

/// `RelativePath::join`: `tail` appended to the relative path `base`.
#[verifier::external_body]
pub(crate) fn join(base: &str, tail: &str) -> (path: String)
    ensures
        path@ == joined(base@, tail@),
{
    RelativePath::new(base).join(tail).into_string()
}

/// The platform path that `RelativePath::to_path` builds from the relative
/// path `relative` under `base`.
pub uninterp spec fn placed(relative: Seq<char>, base: Seq<char>) -> Seq<char>;

/// `RelativePath::to_path`: the components of `relative` appended to `base`
/// with the platform's separator.
#[verifier::external_body]
pub(crate) fn place(relative: &str, base: &str) -> (path: String)
    ensures
        path@ == placed(relative@, base@),
{
    RelativePath::new(relative).to_path(base).to_string_lossy().into_owned()
}

/// Whether `RelativePath::from_path` takes `path` for a relative path.
pub uninterp spec fn portable(path: Seq<char>) -> bool;

/// `RelativePath::from_path`: `path` itself, unchanged, where the crate takes
/// it for a relative path that reads alike on every platform, and its error
/// where it does not.
#[verifier::external_body]
pub(crate) fn relative<'a>(path: &'a str) -> (taken: Result<&'a str, FromPathError>)
    ensures
        taken is Ok <==> portable(path@),
        taken matches Ok(same) ==> same@ == path@,
{
    match RelativePath::from_path(path) {
        Ok(same) => Ok(same.as_str()),
        Err(error) => Err(error),
    }
}

/// The path that `pathdiff::diff_paths` finds to lead from `base` to `path`,
/// or `None` where it finds none.
pub uninterp spec fn difference(path: Seq<char>, base: Seq<char>) -> Option<Seq<char>>;

/// `pathdiff::diff_paths`: the way from `base` to `path`, found by comparing
/// the components of the two.
#[verifier::external_body]
pub(crate) fn diff(path: &str, base: &str) -> (way: Option<String>)
    ensures
        match way {
            Some(found) => difference(path@, base@) == Some(found@),
            None => difference(path@, base@) is None,
        },
{
    let way = diff_paths(path, base)?;
    Some(way.to_string_lossy().into_owned())
}

/// The path that `Path::join` makes of `base` and `path`.
pub uninterp spec fn entered(base: Seq<char>, path: Seq<char>) -> Seq<char>;

/// `Path::join`: `path` below `base`, or `path` alone where it is absolute.
#[verifier::external_body]
pub(crate) fn enter(base: &str, path: &str) -> (below: String)
    ensures
        below@ == entered(base@, path@),
{
    Path::new(base).join(path).to_string_lossy().into_owned()
}

/// The path that `Path::parent` finds above `path`, or `None` where it
/// finds none.
pub uninterp spec fn parent_of(path: Seq<char>) -> Option<Seq<char>>;

/// `Path::parent`: `path` without its last component, or `None` where
/// `path` ends in a root or is empty.
#[verifier::external_body]
pub(crate) fn parent(path: &str) -> (above: Option<String>)
    ensures
        match above {
            Some(found) => parent_of(path@) == Some(found@),
            None => parent_of(path@) is None,
        },
{
    let above = Path::new(path).parent()?;
    Some(above.to_string_lossy().into_owned())
}

/// The path that `Path::with_extension` makes of `path` and `extension`.
pub uninterp spec fn retyped(path: Seq<char>, extension: Seq<char>) -> Seq<char>;

/// `Path::with_extension`: `path` with the extension of its file name
/// replaced. The call panics on an extension that holds a path separator,
/// which `requires` leaves out.
#[verifier::external_body]
pub(crate) fn retype(path: &str, extension: &str) -> (changed: String)
    requires
        !extension@.contains('/'),
        !extension@.contains('\\'),
    ensures
        changed@ == retyped(path@, extension@),
{
    Path::new(path).with_extension(extension).to_string_lossy().into_owned()
}

} // verus!
