use vstd::prelude::*;
use crate::pending::opt_view;

verus! {

/// The name of the directory that development builds run from; a launch from
/// inside it resolves relative paths against its parent.
pub const BUILD_DIR: &'static str = "src-tauri";

/// Whether `Path::is_absolute` holds of the path `s`.
pub uninterp spec fn is_absolute_path(s: Seq<char>) -> bool;

/// Whether `Path::ends_with` holds of `path` and `name`: its last components
/// are those of `name`.
pub uninterp spec fn ends_with_component(path: Seq<char>, name: Seq<char>) -> bool;

/// `Path::parent` of `path`, as a string.
pub uninterp spec fn parent_of(path: Seq<char>) -> Option<Seq<char>>;

/// `Path::join` of `base` and `rel`, as a string when it is valid UTF-8.
pub uninterp spec fn joined(base: Seq<char>, rel: Seq<char>) -> Option<Seq<char>>;

/// Relies on std::path::Path::is_absolute.
#[verifier::external_body]
fn path_is_absolute(s: &str) -> (r: bool)
    ensures
        r == is_absolute_path(s@),
{
    std::path::Path::new(s).is_absolute()
}

/// Relies on std::path::Path::ends_with, which compares whole components.
#[verifier::external_body]
fn path_ends_with(path: &str, name: &str) -> (r: bool)
    ensures
        r == ends_with_component(path@, name@),
{
    std::path::Path::new(path).ends_with(name)
}

/// Relies on std::path::Path::parent: the path without its last component.
#[verifier::external_body]
fn path_parent(path: &str) -> (r: Option<String>)
    ensures
        opt_view(r) == parent_of(path@),
{
    std::path::Path::new(path).parent().map(|p| p.to_string_lossy().into_owned())
}

/// Relies on std::path::Path::join, and Path::to_str for its result.
#[verifier::external_body]
fn path_join(base: &str, rel: &str) -> (r: Option<String>)
    ensures
        opt_view(r) == joined(base@, rel@),
{
    std::path::Path::new(base).join(rel).to_str().map(|s| s.to_string())
}

/// The directory that relative paths are resolved against, given the working
/// directory: its parent when it is the build directory, else itself.
pub open spec fn base_dir(cwd: Seq<char>) -> Seq<char> {
    if ends_with_component(cwd, BUILD_DIR@) {
        match parent_of(cwd) {
            Some(p) => p,
            None => cwd,
        }
    } else {
        cwd
    }
}

/// The resolved form of `raw` under the working directory `cwd` (none when it
/// could not be read): absolute paths as they are, relative ones joined to the
/// base directory, and `raw` itself whenever that cannot be done.
pub open spec fn resolved(raw: Seq<char>, cwd: Option<Seq<char>>) -> Seq<char> {
    if is_absolute_path(raw) {
        raw
    } else {
        match cwd {
            Some(c) => match joined(base_dir(c), raw) {
                Some(p) => p,
                None => raw,
            },
            None => raw,
        }
    }
}

/// Turns a path from the launch arguments into an absolute one where it can,
/// falling back to the path as given.
pub fn resolve_file_path(file_path: &str, cwd: Option<&str>) -> (r: String)
    ensures
        r@ == resolved(file_path@, match cwd { Some(c) => Some(c@), None => None }),
{
    if path_is_absolute(file_path) {
        return file_path.to_string();
    }
    match cwd {
        None => file_path.to_string(),
        Some(c) => {
            let joined_path = if path_ends_with(c, BUILD_DIR) {
                match path_parent(c) {
                    Some(p) => path_join(p.as_str(), file_path),
                    None => path_join(c, file_path),
                }
            } else {
                path_join(c, file_path)
            };
            match joined_path {
                Some(p) => p,
                None => file_path.to_string(),
            }
        },
    }
}

/// An absolute path is returned as it is, whatever the working directory.
pub proof fn lemma_absolute_unchanged(raw: Seq<char>, cwd: Option<Seq<char>>)
    requires
        is_absolute_path(raw),
    ensures
        resolved(raw, cwd) == raw,
{
}

/// A relative path is returned as it is when the working directory is unknown,
/// and is otherwise the join of the base directory with it, wherever that join
/// is a string.
pub proof fn lemma_relative_resolution(raw: Seq<char>, cwd: Option<Seq<char>>)
    requires
        !is_absolute_path(raw),
    ensures
        cwd is None ==> resolved(raw, cwd) == raw,
        forall|c: Seq<char>|
            cwd == Some(c) && #[trigger] joined(base_dir(c), raw) is Some ==> resolved(raw, cwd)
                == joined(base_dir(c), raw)->Some_0,
{
}

} // verus!
