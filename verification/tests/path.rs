use std::path::Path;

use ostep::path::{file_name, names_of, parent, same_path, show_path, split_extension};

const PATHS: [&str; 40] = [
    "", "/", "//", ".", "..", "./", "../", "/.", "/..", "./.", "./..", "a", "/a", "a/", "a//", "/a/", "./a", "a/.", "a/./",
    "a/..", "a/b", "a//b", "a/./b", "/a/b/", "//a", "/./a", ".a", ".a/b", "a/.b", "a.b", "a.b/c.d", "...", "a/...", "././a",
    "/home/user/ws/Cargo.toml", "Cargo.toml", "./Cargo.toml", "./tests/1.out", "./tests/.out", "ä/ö.ü",
];

fn text(bytes: Option<Vec<u8>>) -> Option<String> {
    bytes.map(|bytes| String::from_utf8(bytes).unwrap())
}

#[test]
fn file_name_agrees_with_the_standard_library() {
    for p in PATHS {
        let expected = Path::new(p).file_name().map(|name| name.to_str().unwrap().to_owned());
        assert_eq!(text(file_name(p.as_bytes())), expected, "{p:?}");
    }
}

#[test]
fn parent_agrees_with_the_standard_library() {
    for p in PATHS {
        let expected = Path::new(p).parent().map(|parent| parent.to_str().unwrap().to_owned());
        assert_eq!(text(parent(p.as_bytes())), expected, "{p:?}");
    }
}

#[test]
fn same_path_agrees_with_the_standard_library() {
    for a in PATHS {
        for b in PATHS {
            assert_eq!(same_path(a.as_bytes(), b.as_bytes()), Path::new(a) == Path::new(b), "{a:?} {b:?}");
        }
    }
}

#[test]
fn stem_and_extension_agree_with_the_standard_library() {
    for p in ["a", "a.b", ".a", ".a.b", "a.b.c", "a.", ".", "..a", "12.out", "12.tar.out", "...", "a..b", ".."] {
        let path = Path::new(p);
        let split = file_name(p.as_bytes()).and_then(|name| split_extension(&name));
        let extension = split.as_ref().map(|(_, extension)| extension.as_slice());
        assert_eq!(extension, path.extension().map(|extension| extension.as_encoded_bytes()), "{p:?}");
        if let Some((stem, extension)) = split {
            assert_eq!(Some(stem.as_slice()), path.file_stem().map(|stem| stem.as_encoded_bytes()), "{p:?}");
            assert_eq!([stem, vec![b'.'], extension].concat(), p.as_bytes());
        }
    }
}

#[test]
fn parent_has_all_names_but_the_last() {
    for p in PATHS {
        let mut names = names_of(p.as_bytes());
        if names.pop().is_some() {
            assert_eq!(names_of(&parent(p.as_bytes()).unwrap()), names, "{p:?}");
        }
    }
}

#[test]
fn bytes_that_are_no_text_can_be_in_a_path() {
    assert_eq!(file_name(b"/a/\xff.out"), Some(b"\xff.out".to_vec()));
    assert_eq!(split_extension(b"\xff.out"), Some((b"\xff".to_vec(), b"out".to_vec())));
}

#[test]
fn paths_are_shown_as_the_standard_library_does() {
    for p in PATHS {
        assert_eq!(show_path(p.as_bytes()), Path::new(p).display().to_string());
    }
    assert_eq!(show_path(b"a/\xff.\xe2\x82"), "a/\u{fffd}.\u{fffd}");
}
