//! The failures that resolving or searching a home directory can end in.

use vstd::prelude::*;

verus! {

/// The operating system's I/O error, carried through unread.
#[verifier::external_type_specification]
#[verifier::external_body]
pub struct ExIoError(std::io::Error);

/// The `glob` crate's report of a directory that could not be read while
/// matches were enumerated, carried through unread.
#[verifier::external_type_specification]
#[verifier::external_body]
pub struct ExGlobError(glob::GlobError);

/// Why a home directory, or a path inside it, could not be produced.
#[derive(Debug)]
pub enum Error {
    /// The `java` executable on the search path could not be started.
    JavaExecution(std::io::Error),
    /// A path could not be inspected, for a reason other than its absence.
    IoError(std::io::Error),
    /// The home directory holds something else where a folder belongs; the
    /// bytes are the home directory's path.
    BadJavaHomePath(Vec<u8>),
    /// The `java` executable ran, but printed no usable `java.home` setting.
    NoJavaHomeProperty,
    /// The path is not UTF-8, so no search pattern can be written for it.
    PathNotUTF8(Vec<u8>),
    /// A directory could not be read while matches were enumerated.
    GlobError(glob::GlobError),
    /// No native library was found anywhere below the home directory.
    NoNativeLibrary,
}

} // verus!
