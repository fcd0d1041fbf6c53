//! The home directory and the decisions that lead to it.

use vstd::prelude::*;
use vstd::string::StrSliceExecFns;
use vstd::utf8::encode_utf8;
use crate::error::Error;
use crate::settings::{java_home_value, key, lemma_property_line_found, mentions, read_java_home};
use crate::text::{decode_lossy, permissive_text};

verus! {

/// A located Java home directory. Nothing promises that the path exists
/// or is a directory: whoever uses it has to look. Two homes are equal
/// where their paths are, byte for byte, and are ordered as their paths.
#[derive(Debug, Clone, PartialEq, Eq, PartialOrd, Ord, Hash)]
pub struct JavaHome {
    /// The path, as the bytes that the platform encodes it in: those of
    /// `OsStr::as_encoded_bytes`, which are UTF-8 where the path is text.
    pub path: Vec<u8>,
}

impl View for JavaHome {
    type V = Seq<u8>;

    open spec fn view(&self) -> Seq<u8> {
        self.path@
    }
}

/// What inspecting a path showed.
#[derive(Debug)]
pub enum PathStatus {
    /// Nothing is there.
    Missing,
    /// A directory is there.
    Directory,
    /// Something is there that is no directory.
    NotDirectory,
    /// The path could not be inspected, for a reason other than its absence.
    Inaccessible(std::io::Error),
}

/// What has to be done next to arrive at a home directory.
#[derive(Debug)]
pub enum Lookup {
    /// Nothing: this is the home directory.
    Found(JavaHome),
    /// The path that the variable names has to be inspected. What that
    /// shows goes to `find_valid_home`, with the variable once more.
    Inspect(JavaHome),
    /// The `java` launcher on the search path has to be run. What it
    /// prints goes to `find_active_home`.
    QueryActive,
}

/// The path that the environment variable names: it names none where it
/// is not set, or set to nothing.
pub open spec fn named_path(variable: Option<Vec<u8>>) -> Option<Seq<u8>> {
    match variable {
        Some(value) => if value@.len() > 0 {
            Some(value@)
        } else {
            None
        },
        None => None,
    }
}

/// What the `java` launcher printed before it ended.
pub struct JavaOutput {
    /// The bytes written to standard output.
    pub stdout: Vec<u8>,
    /// The bytes written to standard error.
    pub stderr: Vec<u8>,
}

impl JavaHome {
    /// The name of the environment variable that holds the home directory.
    pub const ENV_VAR: &'static str = "JAVA_HOME";

    /// Takes the home directory from the value of the environment
    /// variable, as it stands and without a look at the disk. Where the
    /// variable names no path, the active installation has to be asked.
    pub fn find_home(variable: Option<Vec<u8>>) -> (next: Lookup)
        ensures
            match named_path(variable) {
                Some(path) => next matches Lookup::Found(home) && home@ == path,
                None => next matches Lookup::QueryActive,
            },
    {
        match variable {
            Some(value) => if value.len() > 0 {
                Lookup::Found(JavaHome { path: value })
            } else {
                Lookup::QueryActive
            },
            None => Lookup::QueryActive,
        }
    }

    /// Takes the home directory from the value of the environment
    /// variable, where that names a directory. `status` is what inspecting
    /// the named path showed, or `None` before anyone has looked. A path
    /// that is absent, or no directory, is taken for a stale setting: the
    /// active installation has to be asked, as it has where the variable
    /// names no path. A path that could not be inspected is a failure.
    pub fn find_valid_home(variable: Option<Vec<u8>>, status: Option<PathStatus>) -> (r: Result<
        Lookup,
        Error,
    >)
        ensures
            match named_path(variable) {
                None => r matches Ok(Lookup::QueryActive),
                Some(path) => match status {
                    None => r matches Ok(Lookup::Inspect(home)) && home@ == path,
                    Some(PathStatus::Directory) => r matches Ok(Lookup::Found(home)) && home@
                        == path,
                    Some(PathStatus::Missing) => r matches Ok(Lookup::QueryActive),
                    Some(PathStatus::NotDirectory) => r matches Ok(Lookup::QueryActive),
                    Some(PathStatus::Inaccessible(e)) => r matches Err(Error::IoError(cause))
                        && cause == e,
                },
            },
    {
        let path = match variable {
            Some(value) => if value.len() > 0 {
                value
            } else {
                return Ok(Lookup::QueryActive);
            },
            None => {
                return Ok(Lookup::QueryActive);
            },
        };
        match status {
            None => Ok(Lookup::Inspect(JavaHome { path })),
            Some(PathStatus::Directory) => Ok(Lookup::Found(JavaHome { path })),
            Some(PathStatus::Missing) => Ok(Lookup::QueryActive),
            Some(PathStatus::NotDirectory) => Ok(Lookup::QueryActive),
            Some(PathStatus::Inaccessible(e)) => Err(Error::IoError(e)),
        }
    }

    /// Reads the home directory of the active installation out of what
    /// `java -XshowSettings:properties -version` ended in: the failure to
    /// start it, or what it printed. Both streams are decoded permissively.
    pub fn find_active_home(launch: Result<JavaOutput, std::io::Error>) -> (r: Result<
        JavaHome,
        Error,
    >)
        ensures
            match launch {
                Err(e) => r matches Err(Error::JavaExecution(cause)) && cause == e,
                Ok(output) => match java_home_value(
                    permissive_text(output.stdout@),
                    permissive_text(output.stderr@),
                ) {
                    Some(value) => r matches Ok(home) && home@ == encode_utf8(value),
                    None => r matches Err(Error::NoJavaHomeProperty),
                },
            },
            launch matches Ok(output) && !mentions(permissive_text(output.stdout@), key())
                && !mentions(permissive_text(output.stderr@), key()) ==> r matches Err(
                Error::NoJavaHomeProperty,
            ),
    {
        match launch {
            Err(e) => Err(Error::JavaExecution(e)),
            Ok(output) => {
                proof {
                    lemma_property_line_found(permissive_text(output.stdout@));
                    lemma_property_line_found(permissive_text(output.stderr@));
                }
                let stdout = decode_lossy(output.stdout.as_slice());
                let stderr = decode_lossy(output.stderr.as_slice());
                match read_java_home(stdout.as_str(), stderr.as_str()) {
                    Some(value) => Ok(JavaHome { path: value.as_str().as_bytes_vec() }),
                    None => Err(Error::NoJavaHomeProperty),
                }
            },
        }
    }

    /// The path of the home directory.
    pub fn path(&self) -> (p: &Vec<u8>)
        ensures
            p@ == self@,
    {
        &self.path
    }
}

} // verus!
