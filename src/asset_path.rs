//! Resolution of paths found inside a project file into asset paths anchored
//! at the project file's directory.

use std::path::Path;
use vstd::prelude::*;

verus! {

/// What `Path::parent` gives for a path, as text.
pub uninterp spec fn parent_of(path: Seq<char>) -> Option<Seq<char>>;

/// What `Path::join` gives for a base path and a second path, as text.
pub uninterp spec fn joined(base: Seq<char>, rel: Seq<char>) -> Seq<char>;

/// Relies on std::path::Path::parent: the path without its final component,
/// or none where the path is empty or ends in a root.
#[verifier::external_body]
pub(crate) fn path_parent(path: &str) -> (r: Option<String>)
    ensures
        match r {
            Some(d) => parent_of(path@) == Some(d@),
            None => parent_of(path@) is None,
        },
{
    Path::new(path).parent().map(|d| d.to_string_lossy().into_owned())
}

/// Relies on std::path::Path::join: `rel` appended to `base`.
#[verifier::external_body]
pub(crate) fn path_join(base: &str, rel: &str) -> (r: String)
    ensures
        r@ == joined(base@, rel@),
{
    Path::new(base).join(rel).to_string_lossy().into_owned()
}

/// The asset path of `rel_path`, read relative to the directory `dir`.
pub open spec fn resolved(dir: Seq<char>, rel_path: Seq<char>) -> Seq<char> {
    joined(dir, rel_path)
}

/// The asset path of `rel_path`, a path found inside the project file at
/// `ldtk_path`: `rel_path` read relative to that file's directory.
pub fn ldtk_path_to_asset_path(ldtk_path: &str, rel_path: &str) -> (r: Option<String>)
    ensures
        match r {
            Some(p) => parent_of(ldtk_path@) matches Some(d) && p@ == resolved(d, rel_path@),
            None => parent_of(ldtk_path@) is None,
        },
{
    match path_parent(ldtk_path) {
        Some(dir) => Some(path_join(dir.as_str(), rel_path)),
        None => None,
    }
}

} // verus!
