//! Shell scripts: where a trigger or task script is run from, and what a run
//! of one reports back.
use vstd::prelude::*;

use crate::model::opt_text;

verus! {

/// The final component of a path, as `std::path::Path::file_name` gives it.
pub uninterp spec fn path_file_name(p: Seq<char>) -> Option<Seq<char>>;

/// The path without its final component, as `std::path::Path::parent` gives it.
pub uninterp spec fn path_parent(p: Seq<char>) -> Option<Seq<char>>;

/// Relies on `std::path::Path::file_name`: the final component of the path
/// when it is a normal file or directory name, none when the path terminates
/// in `..` or has no such component. The path comes from a `str`, so the
/// component is UTF-8 and converts without loss. The result depends on the
/// path alone.
#[verifier::external_body]
fn file_name_of(p: &str) -> (r: Option<String>)
    ensures
        opt_text(r) == path_file_name(p@),
{
    match std::path::Path::new(p).file_name() {
        Some(n) => Some(n.to_string_lossy().into_owned()),
        None => None,
    }
}

/// Relies on `std::path::Path::parent`: the path without its final
/// component, none when the path terminates in a root or is empty. The path
/// comes from a `str`, so the parent is UTF-8 and converts without loss. The
/// result depends on the path alone.
#[verifier::external_body]
fn parent_of(p: &str) -> (r: Option<String>)
    ensures
        opt_text(r) == path_parent(p@),
{
    match std::path::Path::new(p).parent() {
        Some(d) => Some(d.to_string_lossy().into_owned()),
        None => None,
    }
}

/// A script split into the directory it runs in and the file the shell is
/// handed.
#[derive(Clone, Debug)]
pub struct ScriptLocation {
    pub dir: String,
    pub file: String,
}

/// Why a script path cannot be run.
#[derive(Clone, Copy, Debug, PartialEq, Eq, Structural)]
pub enum ScriptPathError {
    /// The path has no final component to hand to the shell.
    NoFileName,
    /// The path has no directory to run in.
    NoParent,
}

/// Builds a location from a path's final component and its parent; fails
/// when either is absent.
pub fn locate_parts(file_name: Option<String>, parent: Option<String>) -> (r: Result<
    ScriptLocation,
    ScriptPathError,
>)
    ensures
        match (opt_text(file_name), opt_text(parent)) {
            (Some(f), Some(d)) => r matches Ok(loc) && loc.file@ == f && loc.dir@ == d,
            (None, _) => r == Err::<ScriptLocation, ScriptPathError>(ScriptPathError::NoFileName),
            (Some(_), None) => r == Err::<ScriptLocation, ScriptPathError>(
                ScriptPathError::NoParent,
            ),
        },
{
    match file_name {
        None => Err(ScriptPathError::NoFileName),
        Some(file) => match parent {
            None => Err(ScriptPathError::NoParent),
            Some(dir) => Ok(ScriptLocation { dir, file }),
        },
    }
}

/// Splits a script path into its directory and file name.
pub fn locate_script(path: &str) -> (r: Result<ScriptLocation, ScriptPathError>)
    ensures
        match (path_file_name(path@), path_parent(path@)) {
            (Some(f), Some(d)) => r matches Ok(loc) && loc.file@ == f && loc.dir@ == d,
            (None, _) => r == Err::<ScriptLocation, ScriptPathError>(ScriptPathError::NoFileName),
            (Some(_), None) => r == Err::<ScriptLocation, ScriptPathError>(
                ScriptPathError::NoParent,
            ),
        },
{
    let file_name = file_name_of(path);
    let parent = parent_of(path);
    locate_parts(file_name, parent)
}

/// What one run of a script reported: its exit code (none when it was killed
/// by a signal or could not be started) and its captured output.
#[derive(Clone, Debug)]
pub struct ScriptOutcome {
    pub exit_code: Option<i32>,
    pub stdout: String,
    pub stderr: String,
}

impl ScriptOutcome {
    /// A script succeeds exactly when it exits with code 0.
    pub open spec fn spec_succeeded(&self) -> bool {
        self.exit_code == Some(0i32)
    }

    pub fn succeeded(&self) -> (r: bool)
        ensures
            r == self.spec_succeeded(),
    {
        match self.exit_code {
            Some(code) => code == 0,
            None => false,
        }
    }

    /// The outcome of a script that could not be started: it counts as a
    /// failed run, with the reason as its error output.
    pub fn not_started(reason: String) -> (r: ScriptOutcome)
        ensures
            r.exit_code is None,
            r.stdout@.len() == 0,
            r.stderr@ == reason@,
    {
        ScriptOutcome { exit_code: None, stdout: String::new(), stderr: reason }
    }
}

} // verus!
