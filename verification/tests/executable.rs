use ostep::executable::{build_failure, copy_exe, exe_name, find_executable, preprocess_build_json, BuildError};

#[test]
fn only_the_first_line_is_kept() {
    assert_eq!(preprocess_build_json(b"{\"a\":1}\n{\"b\":2}\n".to_vec()), "{\"a\":1}");
    assert_eq!(preprocess_build_json(b"no newline".to_vec()), "no newline");
    assert_eq!(preprocess_build_json(b"\nsecond".to_vec()), "");
    assert_eq!(preprocess_build_json(Vec::new()), "");
}

#[test]
fn every_byte_becomes_a_character() {
    assert_eq!(preprocess_build_json(vec![0x41, 0xe4, 0xff, 0x00, 0x0d]), "A\u{e4}\u{ff}\0\r");
}

#[test]
fn the_executable_of_a_build_is_found() {
    let line = "{\"reason\":\"compiler-artifact\",\"executable\":\"/ws/target/release/wcat\",\"fresh\":true}\n{\"reason\":1}\n";
    assert_eq!(copy_exe(line.as_bytes().to_vec()).unwrap(), "/ws/target/release/wcat".to_owned());
    let escaped = "{\"executable\":\"a\\u0041\\\\b\"}";
    assert_eq!(copy_exe(escaped.as_bytes().to_vec()).unwrap(), "aA\\b".to_owned());
}

#[test]
fn a_line_that_is_not_json_is_refused() {
    for line in ["", "{", "warning: unused", "{\"executable\":\"a\"} b"] {
        let cause = serde_json::from_str::<serde_json::Value>(line).unwrap_err();
        let err = copy_exe(line.as_bytes().to_vec()).unwrap_err();
        assert!(matches!(&err, BuildError::NotJson(e) if e.to_string() == cause.to_string()), "{line}: {err:?}");
    }
    assert_eq!(BuildError::NotJson("cause").message(), "failed to parse json output from `cargo-build`");
}

#[test]
fn a_line_without_an_executable_is_refused() {
    for line in ["{}", "[]", "3", "\"executable\"", "{\"executable\":null}", "{\"executable\":[\"a\"]}", "{\"exe\":\"a\"}"] {
        assert!(matches!(copy_exe(line.as_bytes().to_vec()), Err(BuildError::NoExecutable)), "{line}");
    }
    assert_eq!(BuildError::<String>::NoExecutable.message(), "failed to find `executable` entry in cargo build json output");
}

#[test]
fn the_entry_decides() {
    assert_eq!(find_executable(Err("cause")), Err(BuildError::NotJson("cause")));
    assert_eq!(find_executable::<&str>(Ok(None)), Err(BuildError::NoExecutable));
    assert_eq!(find_executable::<&str>(Ok(Some("x".to_owned()))), Ok("x".to_owned()));
}

#[test]
fn the_name_of_an_executable_is_the_last_of_its_path() {
    assert_eq!(exe_name("/ws/target/release/wcat"), Some("wcat".to_owned()));
    assert_eq!(exe_name("wcat"), Some("wcat".to_owned()));
    assert_eq!(exe_name("/ws/prögramm/"), Some("prögramm".to_owned()));
    assert_eq!(exe_name("/"), None);
    assert_eq!(exe_name("a/.."), None);
}

#[test]
fn a_failed_build_is_told_in_full() {
    let outer = "failed while trying to build binary for cargo workspace package: wcat";
    assert_eq!(build_failure("wcat"), outer);
    for line in ["{", "{}"] {
        let err = copy_exe(line.as_bytes().to_vec()).unwrap_err();
        assert_eq!(err.explain("wcat"), [outer, err.message()]);
    }
}
