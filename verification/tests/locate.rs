use std::path::Path;

use jvm_find::home::PathStatus;
use jvm_find::locate::Platform;
use jvm_find::{Error, JavaHome};

fn bytes(path: &Path) -> Vec<u8> {
    path.as_os_str().as_encoded_bytes().to_vec()
}

fn home_at(path: &Path) -> JavaHome {
    JavaHome { path: bytes(path) }
}

fn folder(parent: &Path, name: &str) -> std::path::PathBuf {
    tempfile::Builder::new()
        .prefix(name)
        .rand_bytes(0)
        .disable_cleanup(true)
        .tempdir_in(parent)
        .unwrap()
        .path()
        .to_path_buf()
}

fn file(parent: &Path, name: &str) -> std::path::PathBuf {
    tempfile::Builder::new()
        .prefix(name)
        .rand_bytes(0)
        .disable_cleanup(true)
        .tempfile_in(parent)
        .unwrap()
        .path()
        .to_path_buf()
}

#[test]
fn header_folders_are_the_folder_and_all_below_it() {
    let root = tempfile::tempdir().unwrap();
    let headers = folder(root.path(), "include");
    let win32 = folder(&headers, "win32");
    let linux = folder(&headers, "linux");
    file(&headers, "jni.h");
    file(&linux, "jni_md.h");

    let home = home_at(root.path());
    assert_eq!(home.headers_path(), bytes(&headers));
    let mut found = home.include_directories(PathStatus::Directory).unwrap().unwrap();
    assert_eq!(found[0], bytes(&headers));
    found.sort();
    let mut expected = vec![bytes(&headers), bytes(&win32), bytes(&linux)];
    expected.sort();
    assert_eq!(found, expected);
}

#[test]
fn header_folders_of_a_bare_folder() {
    let root = tempfile::tempdir().unwrap();
    let headers = folder(root.path(), "include");
    let found = home_at(root.path()).include_directories(PathStatus::Directory).unwrap();
    assert_eq!(found, Some(vec![bytes(&headers)]));
}

#[test]
fn native_library_is_found_at_any_depth() {
    let root = tempfile::tempdir().unwrap();
    let home = home_at(root.path());
    assert!(matches!(home.native_library(Platform::Linux), Err(Error::NoNativeLibrary)));

    let lib = folder(root.path(), "lib");
    let server = folder(&lib, "server");
    let library = file(&server, "libjvm.so");
    assert_eq!(home.native_library(Platform::Linux).unwrap(), bytes(&library));
    assert!(matches!(home.native_library(Platform::Windows), Err(Error::NoNativeLibrary)));
    assert!(matches!(home.native_library(Platform::MacOs), Err(Error::NoNativeLibrary)));
}

#[test]
fn native_library_directly_below_the_home() {
    let root = tempfile::tempdir().unwrap();
    let library = file(root.path(), "jvm.dll");
    assert_eq!(home_at(root.path()).native_library(Platform::Windows).unwrap(), bytes(&library));
}

#[test]
fn find_file_takes_the_first_match() {
    let root = tempfile::tempdir().unwrap();
    let a = folder(root.path(), "a");
    let b = folder(root.path(), "b");
    let first = file(&a, "release");
    file(&b, "release");
    let home = home_at(root.path());
    assert_eq!(home.find_file("release").unwrap(), Some(bytes(&first)));
    assert_eq!(home.find_file("missing").unwrap(), None);
}

#[test]
fn find_folder_matches_folders_only() {
    let root = tempfile::tempdir().unwrap();
    let conf = folder(root.path(), "conf");
    file(&conf, "security");
    let home = home_at(root.path());
    assert_eq!(home.find_folder("security").unwrap(), None);
    assert!(home.find_file("security").unwrap().is_some());

    let lib = folder(root.path(), "lib");
    let security = folder(&lib, "security");
    let found = home.find_folder("security").unwrap().unwrap();
    assert_eq!(Path::new(std::str::from_utf8(&found).unwrap()), security.as_path());
}

#[test]
fn metacharacters_in_a_name_are_taken_literally() {
    let root = tempfile::tempdir().unwrap();
    folder(root.path(), "t");
    folder(root.path(), "temp");
    let home = home_at(root.path());
    assert_eq!(home.find_folder("[temp]").unwrap(), None);
    assert_eq!(home.find_folder("t*").unwrap(), None);
    assert_eq!(home.find_folder("tem?").unwrap(), None);

    let literal = folder(root.path(), "[temp]");
    let found = home.find_folder("[temp]").unwrap().unwrap();
    assert_eq!(Path::new(std::str::from_utf8(&found).unwrap()), literal.as_path());

    let starred = file(&literal, "a*b?[c]");
    assert_eq!(home.find_file("a*b?[c]").unwrap(), Some(bytes(&starred)));
    assert_eq!(home.find_file("a*").unwrap(), None);
}

#[test]
fn metacharacters_in_the_home_path_are_taken_literally() {
    let root = tempfile::tempdir().unwrap();
    let plain = folder(root.path(), "j");
    file(&plain, "release");
    let odd = folder(root.path(), "[j]*?");
    let home = home_at(&odd);
    assert_eq!(home.find_file("release").unwrap(), None);
    assert!(matches!(home.native_library(Platform::Linux), Err(Error::NoNativeLibrary)));

    let bin = folder(&odd, "bin");
    let release = file(&bin, "release");
    assert_eq!(home.find_file("release").unwrap(), Some(bytes(&release)));
    let found = home.find_folder("bin").unwrap().unwrap();
    assert_eq!(Path::new(std::str::from_utf8(&found).unwrap()), bin.as_path());

    let headers = folder(&odd, "include");
    let linux = folder(&headers, "linux");
    let mut found = home.include_directories(PathStatus::Directory).unwrap().unwrap();
    found.sort();
    let mut expected = vec![bytes(&headers), bytes(&linux)];
    expected.sort();
    assert_eq!(found, expected);
}

#[test]
fn every_name_makes_a_pattern_that_the_search_accepts() {
    let root = tempfile::tempdir().unwrap();
    let home = home_at(root.path());
    for name in ["", "!", "[!]", "]", "[", "**", "***", "a/**/b", "[a-z]", "-", "/", "//", "?/*", "[]]"] {
        assert_eq!(home.find_file(name).unwrap(), None, "{:?}", name);
        assert_eq!(home.find_folder(name).unwrap(), None, "{:?}", name);
    }
    for base in ["", "[", "]", "*", "**", "/**", "a**", "[!", "x/[", "?"] {
        let home = JavaHome { path: bytes(&root.path().join(base)) };
        assert!(home.find_file("no such file").unwrap().is_none(), "{:?}", base);
    }
}

#[test]
fn statuses_other_than_a_directory_end_the_search_for_headers() {
    let home = JavaHome { path: b"/opt/jdk".to_vec() };
    assert_eq!(home.include_directories(PathStatus::Missing).unwrap(), None);
    match home.include_directories(PathStatus::NotDirectory) {
        Err(Error::BadJavaHomePath(path)) => assert_eq!(path, b"/opt/jdk".to_vec()),
        other => panic!("{:?}", other),
    }
    let denied = std::io::Error::new(std::io::ErrorKind::PermissionDenied, "denied");
    match home.include_directories(PathStatus::Inaccessible(denied)) {
        Err(Error::IoError(e)) => assert_eq!(e.kind(), std::io::ErrorKind::PermissionDenied),
        other => panic!("{:?}", other),
    }
}

#[test]
fn a_path_that_is_not_utf8_has_no_pattern() {
    let home = JavaHome { path: vec![b'/', b'o', 0xFF, b'p'] };
    for result in [home.find_file("x"), home.find_folder("x")] {
        match result {
            Err(Error::PathNotUTF8(path)) => assert_eq!(path, home.path),
            other => panic!("{:?}", other),
        }
    }
    match home.native_library(Platform::Linux) {
        Err(Error::PathNotUTF8(path)) => assert_eq!(path, home.path),
        other => panic!("{:?}", other),
    }
    match home.include_directories(PathStatus::Directory) {
        Err(Error::PathNotUTF8(path)) => assert_eq!(path, b"/o\xFFp/include".to_vec()),
        other => panic!("{:?}", other),
    }
    assert_eq!(home.include_directories(PathStatus::Missing).unwrap(), None);
}
