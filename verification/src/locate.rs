//! Finding files and folders below a home directory.
//!
//! Each search writes a pattern for the home directory's path and hands it
//! to the `glob` crate, which walks the directories. What the walk yields
//! depends on the disk; what is made of it is decided here.

use vstd::prelude::*;
use vstd::slice::slice_to_vec;
use vstd::utf8::{decode_utf8, encode_utf8, valid_utf8};
use crate::error::Error;
use crate::home::{JavaHome, PathStatus};
use crate::pattern::{folder_pattern, folders_pattern, is_search_pattern, name_pattern};
use crate::text::decode;

verus! {

/// The standard library's path, which the enumeration below yields. It
/// is turned into its bytes as soon as it is handed over.
#[verifier::external_type_specification]
#[verifier::external_body]
pub struct ExPathBuf(std::path::PathBuf);

/// The `glob` crate's enumeration of the paths that match a pattern.
#[verifier::external_type_specification]
#[verifier::external_body]
pub struct ExPaths(glob::Paths);

/// The Windows library of the virtual machine.
pub const NATIVE_LIBRARY_FILENAME_WIN: &'static str = "jvm.dll";

/// The shared object of the virtual machine on Linux and the BSDs.
pub const NATIVE_LIBRARY_FILENAME_LIN: &'static str = "libjvm.so";

/// The library to link against on macOS: the launcher's, not the virtual
/// machine's own.
pub const NATIVE_LIBRARY_FILENAME_MAC: &'static str = "libjli.dylib";

/// The families of operating systems that name the native library alike.
#[derive(Debug, Clone, Copy, PartialEq, Eq)]
pub enum Platform {
    /// Windows.
    Windows,
    /// Linux, FreeBSD, NetBSD and OpenBSD.
    Linux,
    /// macOS.
    MacOs,
}

impl Platform {
    /// The file name of the native library on this platform.
    pub open spec fn filename(self) -> Seq<char> {
        match self {
            Platform::Windows => NATIVE_LIBRARY_FILENAME_WIN@,
            Platform::Linux => NATIVE_LIBRARY_FILENAME_LIN@,
            Platform::MacOs => NATIVE_LIBRARY_FILENAME_MAC@,
        }
    }

    /// The file name of the native library on this platform.
    pub fn native_library_filename(self) -> (name: &'static str)
        ensures
            name@ == self.filename(),
    {
        match self {
            Platform::Windows => NATIVE_LIBRARY_FILENAME_WIN,
            Platform::Linux => NATIVE_LIBRARY_FILENAME_LIN,
            Platform::MacOs => NATIVE_LIBRARY_FILENAME_MAC,
        }
    }
}

/// The name of the folder that holds the headers.
pub open spec fn headers_folder() -> Seq<u8> {
    encode_utf8("include"@)
}

/// `name` appended to `base` as one more component: after a `/`, unless
/// `base` is empty or ends in one.
pub open spec fn joined(base: Seq<u8>, name: Seq<u8>) -> Seq<u8> {
    if base.len() == 0 || base.last() == 0x2F {
        base + name
    } else {
        base + seq![0x2Fu8] + name
    }
}

/// What a search for one entry comes to, given the first thing that the
/// enumeration yielded: no match is no failure.
pub open spec fn single(found: Option<Result<Vec<u8>, glob::GlobError>>) -> Result<
    Option<Vec<u8>>,
    Error,
> {
    match found {
        None => Ok(None),
        Some(Ok(path)) => Ok(Some(path)),
        Some(Err(e)) => Err(Error::GlobError(e)),
    }
}

/// What the search for the native library comes to, given the first thing
/// that the enumeration yielded: no match is a failure.
pub open spec fn required(found: Option<Result<Vec<u8>, glob::GlobError>>) -> Result<
    Vec<u8>,
    Error,
> {
    match found {
        None => Err(Error::NoNativeLibrary),
        Some(Ok(path)) => Ok(path),
        Some(Err(e)) => Err(Error::GlobError(e)),
    }
}

/// All the paths of an enumeration, in its order, or the first of its
/// failures.
pub open spec fn gathered(found: Seq<Result<Vec<u8>, glob::GlobError>>) -> Result<
    Seq<Vec<u8>>,
    glob::GlobError,
>
    decreases found.len(),
{
    if found.len() == 0 {
        Ok(Seq::empty())
    } else {
        match found[0] {
            Err(e) => Err(e),
            Ok(path) => match gathered(found.drop_first()) {
                Ok(rest) => Ok(seq![path] + rest),
                Err(e) => Err(e),
            },
        }
    }
}

/// Calls `glob::glob`, which fails on a pattern that it cannot parse and
/// on no other. That it parses every search pattern is taken on trust: in
/// escaped text each metacharacter stands in brackets of its own, which
/// makes a character class of one, and the `**` and the `*` that follow
/// the text stand between separators, each as a path component of its own.
#[verifier::external_body]
fn search(pattern: &str) -> (paths: glob::Paths)
    requires
        is_search_pattern(pattern@),
{
    glob::glob(pattern).unwrap()
}

/// Calls `next` on the enumeration and hands a path on as the bytes that
/// encode it. What comes back depends on the disk, so nothing is claimed
/// of it.
#[verifier::external_body]
fn next_match(paths: &mut glob::Paths) -> (found: Option<Result<Vec<u8>, glob::GlobError>>) {
    paths.next().map(|found| found.map(|path| path.into_os_string().into_encoded_bytes()))
}

/// Collects what is left of the enumeration, each path as the bytes that
/// encode it. What comes back depends on the disk, so nothing is claimed
/// of it.
#[verifier::external_body]
fn remaining_matches(paths: glob::Paths) -> (found: Vec<Result<Vec<u8>, glob::GlobError>>) {
    paths.map(|found| found.map(|path| path.into_os_string().into_encoded_bytes())).collect()
}

/// Makes the result of a search for one entry out of the first thing that
/// the enumeration yielded.
pub fn single_match(found: Option<Result<Vec<u8>, glob::GlobError>>) -> (r: Result<
    Option<Vec<u8>>,
    Error,
>)
    ensures
        r == single(found),
{
    match found {
        None => Ok(None),
        Some(Ok(path)) => Ok(Some(path)),
        Some(Err(e)) => Err(Error::GlobError(e)),
    }
}

/// Makes the result of the search for the native library out of the first
/// thing that the enumeration yielded.
pub fn required_match(found: Option<Result<Vec<u8>, glob::GlobError>>) -> (r: Result<
    Vec<u8>,
    Error,
>)
    ensures
        r == required(found),
{
    match found {
        None => Err(Error::NoNativeLibrary),
        Some(Ok(path)) => Ok(path),
        Some(Err(e)) => Err(Error::GlobError(e)),
    }
}

/// Where the first failure of an enumeration stands, `gathered` is that
/// failure.
proof fn lemma_gathered_failure(found: Seq<Result<Vec<u8>, glob::GlobError>>, at: int)
    requires
        0 <= at < found.len(),
        forall|i: int| 0 <= i < at ==> found[i] is Ok,
        found[at] is Err,
    ensures
        gathered(found) == Err::<Seq<Vec<u8>>, glob::GlobError>(found[at]->Err_0),
    decreases found.len(),
{
    if at > 0 {
        lemma_gathered_failure(found.drop_first(), at - 1);
    }
}

/// An enumeration without a failure is `gathered` whole.
proof fn lemma_gathered_paths(found: Seq<Result<Vec<u8>, glob::GlobError>>, paths: Seq<Vec<u8>>)
    requires
        paths.len() == found.len(),
        forall|i: int| 0 <= i < found.len() ==> found[i] == Ok::<Vec<u8>, glob::GlobError>(paths[i]),
    ensures
        gathered(found) == Ok::<Seq<Vec<u8>>, glob::GlobError>(paths),
    decreases found.len(),
{
    if found.len() > 0 {
        lemma_gathered_paths(found.drop_first(), paths.drop_first());
        assert(paths =~= seq![paths[0]] + paths.drop_first());
    } else {
        assert(paths =~= Seq::empty());
    }
}

/// Makes a list of `first` and all that an enumeration yielded, or the
/// first of its failures.
pub fn all_matches(first: Vec<u8>, found: Vec<Result<Vec<u8>, glob::GlobError>>) -> (r: Result<
    Vec<Vec<u8>>,
    Error,
>)
    ensures
        match gathered(found@) {
            Ok(rest) => r matches Ok(paths) && paths@ == seq![first] + rest,
            Err(e) => r matches Err(Error::GlobError(cause)) && cause == e,
        },
{
    let mut paths: Vec<Vec<u8>> = Vec::new();
    paths.push(first);
    for item in it: found
        invariant
            it.seq() == found@,
            paths@.len() == it.index() + 1,
            paths@[0] == first,
            forall|i: int|
                0 <= i < it.index() ==> #[trigger] found@[i] == Ok::<Vec<u8>, glob::GlobError>(
                    paths@[i + 1],
                ),
    {
        match item {
            Ok(path) => {
                paths.push(path);
            },
            Err(e) => {
                proof {
                    lemma_gathered_failure(found@, it.index());
                }
                return Err(Error::GlobError(e));
            },
        }
    }
    proof {
        lemma_gathered_paths(found@, paths@.drop_first());
    }
    Ok(paths)
}

/// The text of `path`, which a pattern can only be written for where the
/// path is UTF-8.
pub fn path_text(path: &Vec<u8>) -> (r: Result<&str, Error>)
    ensures
        match r {
            Ok(text) => valid_utf8(path@) && text@ == decode_utf8(path@),
            Err(e) => !valid_utf8(path@) && (e matches Error::PathNotUTF8(bad) && bad@ == path@),
        },
{
    match decode(path.as_slice()) {
        Some(text) => Ok(text),
        None => Err(Error::PathNotUTF8(slice_to_vec(path.as_slice()))),
    }
}

impl JavaHome {
    /// The path of the folder that holds the headers, whether or not there
    /// is one.
    pub fn headers_path(&self) -> (path: Vec<u8>)
        ensures
            path@ == joined(self@, headers_folder()),
    {
        let mut path = slice_to_vec(self.path.as_slice());
        if path.len() > 0 && path[path.len() - 1] != 0x2F {
            path.push(0x2F);
        }
        let mut name = slice_to_vec("include".as_bytes());
        path.append(&mut name);
        path
    }

    /// The folders that hold the headers: the one at `headers_path`, then
    /// every folder below it, as the enumeration yields them. `status` is
    /// what inspecting `headers_path` showed. An installation without
    /// headers has no such folder, which is no failure; anything else in
    /// its place is one. A failure of the enumeration is handed on.
    pub fn include_directories(&self, status: PathStatus) -> (r: Result<
        Option<Vec<Vec<u8>>>,
        Error,
    >)
        ensures
            match status {
                PathStatus::Missing => r matches Ok(None),
                PathStatus::Inaccessible(e) => r matches Err(Error::IoError(cause)) && cause == e,
                PathStatus::NotDirectory => r matches Err(Error::BadJavaHomePath(bad)) && bad@
                    == self@,
                PathStatus::Directory => {
                    let base = joined(self@, headers_folder());
                    if valid_utf8(base) {
                        ||| r matches Ok(Some(paths)) && paths@.len() > 0 && paths@[0]@ == base
                        ||| r matches Err(Error::GlobError(_))
                    } else {
                        r matches Err(Error::PathNotUTF8(bad)) && bad@ == base
                    }
                },
            },
    {
        match status {
            PathStatus::Missing => Ok(None),
            PathStatus::Inaccessible(e) => Err(Error::IoError(e)),
            PathStatus::NotDirectory => Err(
                Error::BadJavaHomePath(slice_to_vec(self.path.as_slice())),
            ),
            PathStatus::Directory => {
                let base = self.headers_path();
                let found = match path_text(&base) {
                    Ok(text) => {
                        let pattern = folders_pattern(text);
                        remaining_matches(search(pattern.as_str()))
                    },
                    Err(e) => {
                        return Err(e);
                    },
                };
                match all_matches(base, found) {
                    Ok(paths) => Ok(Some(paths)),
                    Err(e) => Err(e),
                }
            },
        }
    }

    /// The native library of the virtual machine that comes first in the
    /// enumeration of the files of that name, at any depth below the home
    /// directory. That there is none is a failure.
    pub fn native_library(&self, platform: Platform) -> (r: Result<Vec<u8>, Error>)
        ensures
            if valid_utf8(self@) {
                ||| r is Ok
                ||| r matches Err(Error::NoNativeLibrary)
                ||| r matches Err(Error::GlobError(_))
            } else {
                r matches Err(Error::PathNotUTF8(bad)) && bad@ == self@
            },
    {
        match path_text(&self.path) {
            Ok(base) => {
                let pattern = name_pattern(base, platform.native_library_filename());
                let mut paths = search(pattern.as_str());
                required_match(next_match(&mut paths))
            },
            Err(e) => Err(e),
        }
    }

    /// The entry called `file` that comes first in the enumeration, at any
    /// depth below the home directory; `None` where there is no such entry.
    /// The name is taken literally.
    pub fn find_file(&self, file: &str) -> (r: Result<Option<Vec<u8>>, Error>)
        ensures
            if valid_utf8(self@) {
                r is Ok || r matches Err(Error::GlobError(_))
            } else {
                r matches Err(Error::PathNotUTF8(bad)) && bad@ == self@
            },
    {
        match path_text(&self.path) {
            Ok(base) => {
                let pattern = name_pattern(base, file);
                let mut paths = search(pattern.as_str());
                single_match(next_match(&mut paths))
            },
            Err(e) => Err(e),
        }
    }

    /// The folder called `folder` that comes first in the enumeration, at
    /// any depth below the home directory; `None` where there is no such
    /// folder. The name is taken literally, and only folders match.
    pub fn find_folder(&self, folder: &str) -> (r: Result<Option<Vec<u8>>, Error>)
        ensures
            if valid_utf8(self@) {
                r is Ok || r matches Err(Error::GlobError(_))
            } else {
                r matches Err(Error::PathNotUTF8(bad)) && bad@ == self@
            },
    {
        match path_text(&self.path) {
            Ok(base) => {
                let pattern = folder_pattern(base, folder);
                let mut paths = search(pattern.as_str());
                single_match(next_match(&mut paths))
            },
            Err(e) => Err(e),
        }
    }
}

} // verus!
