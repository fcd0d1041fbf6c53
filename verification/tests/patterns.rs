use jvm_find::locate::{
    path_text, required_match, single_match, all_matches, Platform, NATIVE_LIBRARY_FILENAME_LIN,
    NATIVE_LIBRARY_FILENAME_MAC, NATIVE_LIBRARY_FILENAME_WIN,
};
use jvm_find::pattern::{folder_pattern, folders_pattern, name_pattern};
use jvm_find::{Error, JavaHome};

#[test]
fn patterns_reach_below_the_base() {
    assert_eq!(name_pattern("/opt/jdk", "jvm.dll"), "/opt/jdk/**/jvm.dll");
    assert_eq!(folder_pattern("/opt/jdk", "bin"), "/opt/jdk/**/bin/");
    assert_eq!(folders_pattern("/opt/jdk/include"), "/opt/jdk/include/**/*/");
    assert_eq!(name_pattern("", ""), "/**/");
    assert_eq!(folder_pattern("", ""), "/**//");
    assert_eq!(folders_pattern(""), "/**/*/");
}

#[test]
fn metacharacters_are_closed_in_brackets() {
    assert_eq!(name_pattern("/opt/[java]", "a*b?"), "/opt/[[]java[]]/**/a[*]b[?]");
    assert_eq!(folder_pattern("*", "[temp]"), "[*]/**/[[]temp[]]/");
    assert_eq!(folders_pattern("a?/**/b"), "a[?]/[*][*]/b/**/*/");
    assert_eq!(name_pattern("!-^{}\\", "\u{e9}*"), "!-^{}\\/**/\u{e9}[*]");
}

#[test]
fn an_escaped_name_matches_itself_and_nothing_else() {
    let pattern = glob::Pattern::new(&name_pattern("/x/[temp]", "f*")).unwrap();
    assert!(pattern.matches("/x/[temp]/f*"));
    assert!(pattern.matches("/x/[temp]/a/b/f*"));
    assert!(!pattern.matches("/x/t/f*"));
    assert!(!pattern.matches("/x/[temp]/a/foo"));
    assert!(!pattern.matches("/x/[temp]/f"));

    let folder = glob::Pattern::new(&folder_pattern("/x", "[temp]")).unwrap();
    assert!(folder.matches("/x/a/[temp]/"));
    assert!(!folder.matches("/x/a/t/"));
    assert!(!folder.matches("/x/a/temp/"));
}

#[test]
fn every_pattern_is_one_that_the_search_accepts() {
    let texts = ["", "a", "[", "]", "*", "**", "***", "?", "[!", "!]", "[]", "[a-z]", "/", "//", "a/**/b", "**/", "/**"];
    for base in texts {
        for name in texts {
            for pattern in [name_pattern(base, name), folder_pattern(base, name), folders_pattern(base)] {
                assert!(glob::Pattern::new(&pattern).is_ok(), "{:?}", pattern);
                assert!(glob::glob(&pattern).is_ok(), "{:?}", pattern);
            }
        }
    }
}

#[test]
fn each_platform_has_its_file_name() {
    assert_eq!(NATIVE_LIBRARY_FILENAME_WIN, "jvm.dll");
    assert_eq!(NATIVE_LIBRARY_FILENAME_LIN, "libjvm.so");
    assert_eq!(NATIVE_LIBRARY_FILENAME_MAC, "libjli.dylib");
    assert_eq!(Platform::Windows.native_library_filename(), "jvm.dll");
    assert_eq!(Platform::Linux.native_library_filename(), "libjvm.so");
    assert_eq!(Platform::MacOs.native_library_filename(), "libjli.dylib");
}

#[test]
fn the_headers_folder_is_joined_to_the_home() {
    let joined = |home: &[u8]| JavaHome { path: home.to_vec() }.headers_path();
    assert_eq!(joined(b"/opt/jdk"), b"/opt/jdk/include".to_vec());
    assert_eq!(joined(b"/opt/jdk/"), b"/opt/jdk/include".to_vec());
    assert_eq!(joined(b"/"), b"/include".to_vec());
    assert_eq!(joined(b""), b"include".to_vec());
    assert_eq!(joined(b"jdk"), b"jdk/include".to_vec());
    assert_eq!(joined(b"/opt/\xFF"), b"/opt/\xFF/include".to_vec());
    for home in [&b"/opt/jdk"[..], b"/opt/jdk/", b"/", b"", b"jdk", b"a//"] {
        let expected = std::path::Path::new(std::str::from_utf8(home).unwrap()).join("include");
        assert_eq!(joined(home), expected.to_str().unwrap().as_bytes().to_vec());
    }
}

#[test]
fn only_utf8_paths_have_a_text() {
    assert_eq!(path_text(&b"/opt/jdk".to_vec()).unwrap(), "/opt/jdk");
    assert_eq!(path_text(&"/opt/\u{e9}\u{4e2d}\u{1f600}".as_bytes().to_vec()).unwrap(), "/opt/\u{e9}\u{4e2d}\u{1f600}");
    assert_eq!(path_text(&Vec::new()).unwrap(), "");
    for bad in [&b"/opt/\xFF"[..], b"\xC0\x80", b"\xED\xA0\x80", b"\xE4\xB8", b"\xF4\x90\x80\x80"] {
        match path_text(&bad.to_vec()) {
            Err(Error::PathNotUTF8(path)) => assert_eq!(path, bad.to_vec()),
            other => panic!("{:?}", other),
        }
    }
}

#[test]
fn no_match_is_a_failure_for_the_native_library_only() {
    assert_eq!(single_match(None).unwrap(), None);
    assert!(matches!(required_match(None), Err(Error::NoNativeLibrary)));
    assert_eq!(single_match(Some(Ok(b"/a".to_vec()))).unwrap(), Some(b"/a".to_vec()));
    assert_eq!(required_match(Some(Ok(b"/a".to_vec()))).unwrap(), b"/a".to_vec());
}

#[test]
fn all_matches_follow_the_first_path() {
    assert_eq!(all_matches(b"/a".to_vec(), Vec::new()).unwrap(), vec![b"/a".to_vec()]);
    let found = vec![Ok(b"/a/c".to_vec()), Ok(b"/a/b".to_vec())];
    let expected = vec![b"/a".to_vec(), b"/a/c".to_vec(), b"/a/b".to_vec()];
    assert_eq!(all_matches(b"/a".to_vec(), found).unwrap(), expected);
}
