//! What a caller asks of one conversion run.
use vstd::prelude::*;
use std::path::PathBuf;

verus! {

#[verifier::external_type_specification]
#[verifier::external_body]
pub struct ExPathBuf(PathBuf);

#[verifier::external_type_specification]
#[verifier::external_body]
pub struct ExIoError(std::io::Error);

/// The files of one run: the container to read, the one to create, and
/// whether the result is to be unpacked afterwards.
pub struct Config {
    pub input: PathBuf,
    pub output: PathBuf,
    pub unpack: bool,
}

/// Whether `std::path::Path::is_absolute` holds of the path.
pub uninterp spec fn path_is_absolute(p: PathBuf) -> bool;

/// Relies on `std::path::Path::canonicalize`: the absolute form of the path,
/// with every link resolved, or the error met on the file system.
#[verifier::external_body]
fn canonical_path(s: &str) -> (r: Result<PathBuf, std::io::Error>)
    ensures
        r is Ok ==> path_is_absolute(r->Ok_0),
{
    PathBuf::from(s).canonicalize()
}

/// The canonical form of the path `s`, which must name an existing file: an
/// absolute path, or the error met on the file system.
pub fn check_and_canonicalize(s: &str) -> (r: Result<PathBuf, std::io::Error>)
    ensures
        r is Ok ==> path_is_absolute(r->Ok_0),
{
    canonical_path(s)
}

} // verus!
