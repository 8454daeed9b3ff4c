use ostep::package::{
    finalize, find_pkg, members_of, needs_choice, no_packages, no_parent, parse_workspace, select_package,
    unreachable_dir, Metadata, Package, PackageError, WorkspaceError,
};

fn package(name: &str, manifest_path: &str) -> Package {
    Package { id: format!("{name} 0.1.0"), name: name.to_owned(), manifest_path: manifest_path.to_owned() }
}

fn workspace() -> Vec<Package> {
    vec![
        package("tester", "/ws/tester/Cargo.toml"),
        package("wcat", "/ws/wcat/Cargo.toml"),
        package("wgrep", "/ws/wgrep/Cargo.toml"),
    ]
}

fn name(name: &str) -> Option<String> {
    Some(name.to_owned())
}

fn printed(packages: &[(&str, &str)], members: &[&str]) -> Vec<u8> {
    let packages: Vec<String> = packages
        .iter()
        .map(|(name, path)| {
            format!(
                "{{\"name\":\"{name}\",\"version\":\"0.1.0\",\"id\":\"{name} 0.1.0\",\"license\":null,\"license_file\":null,\
                 \"description\":null,\"source\":null,\"dependencies\":[],\"targets\":[],\"features\":{{}},\
                 \"manifest_path\":\"{path}\",\"metadata\":null,\"publish\":null,\"authors\":[],\"categories\":[],\
                 \"keywords\":[],\"readme\":null,\"repository\":null,\"homepage\":null,\"documentation\":null,\
                 \"edition\":\"2021\",\"links\":null,\"default_run\":null,\"rust_version\":null}}"
            )
        })
        .collect();
    let members: Vec<String> = members.iter().map(|name| format!("\"{name} 0.1.0\"")).collect();
    format!(
        "{{\"packages\":[{}],\"workspace_members\":[{}],\"resolve\":null,\"target_directory\":\"/ws/target\",\
         \"version\":1,\"workspace_root\":\"/ws\",\"metadata\":null}}",
        packages.join(","),
        members.join(",")
    )
    .into_bytes()
}

#[test]
fn the_members_of_the_workspace_are_read() {
    let stdout = printed(
        &[("tester", "/ws/tester/Cargo.toml"), ("other", "/else/Cargo.toml"), ("wcat", "/ws/wcat/Cargo.toml")],
        &["wcat", "tester"],
    );
    assert_eq!(
        parse_workspace(&stdout).unwrap(),
        [package("tester", "/ws/tester/Cargo.toml"), package("wcat", "/ws/wcat/Cargo.toml")]
    );
    assert_eq!(parse_workspace(&printed(&[], &[])).unwrap(), []);
}

#[test]
fn what_is_not_metadata_is_refused() {
    let err = parse_workspace(b"{}\xff").unwrap_err();
    assert!(matches!(&err, WorkspaceError::NotUtf8(cause) if cause.valid_up_to() == 2));
    assert_eq!(err.message(), "failed to convert `stdout` bytes from `cargo metadata` command to `str`");
    for text in ["", "{\"packages\":[]}"] {
        let err = parse_workspace(text.as_bytes()).unwrap_err();
        let cause = cargo_metadata::MetadataCommand::parse(text).unwrap_err().to_string();
        assert!(matches!(&err, WorkspaceError::NotMetadata(e) if e.to_string() == cause));
        assert_eq!(err.message(), "failed to parse output of `cargo metadata`");
        assert_eq!(err.explain(), ["failed during initialization", "failed to parse output of `cargo metadata`"]);
    }
}

#[test]
fn only_members_are_kept() {
    let metadata = Metadata { packages: workspace(), workspace_members: vec!["wgrep 0.1.0".to_owned(), "x".to_owned()] };
    assert_eq!(members_of(metadata), vec![package("wgrep", "/ws/wgrep/Cargo.toml")]);
}

#[test]
fn an_empty_workspace_is_refused() {
    assert_eq!(select_package(&vec![], &name("wcat"), b"/ws"), Err(PackageError::NoPackages));
    assert!(!needs_choice(&vec![]));
}

#[test]
fn the_only_package_is_the_default() {
    let only = vec![package("wcat", "/ws/wcat/Cargo.toml")];
    assert!(!needs_choice(&only));
    assert_eq!(select_package(&only, &None, b"/"), Ok(0));
    assert_eq!(select_package(&only, &name("other"), b"/"), Ok(0));
}

#[test]
fn a_name_goes_first() {
    assert!(needs_choice(&workspace()));
    assert_eq!(select_package(&workspace(), &name("wcat"), b"/ws/wgrep"), Ok(1));
    assert_eq!(select_package(&workspace(), &name("tester"), b"/"), Ok(0));
}

#[test]
fn the_working_directory_is_the_fallback() {
    assert_eq!(select_package(&workspace(), &name("other"), b"/ws//wgrep/"), Ok(2));
    assert_eq!(select_package(&workspace(), &None, b"/ws/wgrep"), Ok(2));
    assert_eq!(select_package(&workspace(), &None, b"/ws/wcat"), Ok(1));
}

#[test]
fn without_a_match_nothing_is_picked() {
    assert_eq!(select_package(&workspace(), &None, b"/ws"), Err(PackageError::NotAtPwd));
    assert_eq!(select_package(&workspace(), &None, b"/ws/wcat/Cargo.toml"), Err(PackageError::NotAtPwd));
    assert_eq!(select_package(&workspace(), &None, b"/ws/wcat/src"), Err(PackageError::NotAtPwd));
    assert_eq!(select_package(&workspace(), &name("other"), b"/ws"), Err(PackageError::NoFallback));
}

#[test]
fn the_directory_of_the_manifest_is_found() {
    assert_eq!(finalize(&package("wcat", "/ws/wcat/Cargo.toml")), Ok(b"/ws/wcat".to_vec()));
    assert_eq!(finalize(&package("wcat", "Cargo.toml")), Ok(Vec::new()));
    assert_eq!(finalize(&package("wcat", "/")), Err(PackageError::NoParent("wcat".to_owned())));
    assert_eq!(finalize(&package("wcat", "")), Err(PackageError::NoParent("wcat".to_owned())));
}

#[test]
fn the_package_and_its_directory_are_found() {
    assert_eq!(
        find_pkg(workspace(), name("tester"), b"/".to_vec()),
        Ok(("tester".to_owned(), b"/ws/tester".to_vec()))
    );
    assert_eq!(
        find_pkg(workspace(), None, b"/ws/wcat".to_vec()),
        Ok(("wcat".to_owned(), b"/ws/wcat".to_vec()))
    );
    assert_eq!(find_pkg(workspace(), None, b"/".to_vec()), Err(PackageError::NotAtPwd));
    assert_eq!(find_pkg(vec![package("a", "")], None, b"/".to_vec()), Err(PackageError::NoParent("a".to_owned())));
}

#[test]
fn every_failure_has_words() {
    let expected = [
        (PackageError::NoPackages, "no packages found in current workspace"),
        (
            PackageError::NotAtPwd,
            "cargo workspace package directory doesn't match pwd and no `-p` package option was provided",
        ),
        (PackageError::NoFallback, "failed to handle task synchronization while finding package in workspace"),
        (PackageError::NoParent(String::new()), "pkg manifest path doesn't have a parent dir"),
    ];
    for (error, message) in expected {
        assert_eq!(error.message(), message);
    }
}

#[test]
fn failures_are_told_in_full() {
    let err = find_pkg(vec![], None, b"/ws".to_vec()).unwrap_err();
    assert_eq!(err.explain("/ws"), ["no packages found in current workspace: /ws"]);
    assert_eq!(no_packages("/ws"), "no packages found in current workspace: /ws");
    let err = find_pkg(vec![package("a", "/")], None, b"/ws".to_vec()).unwrap_err();
    assert_eq!(
        err.explain("/ws"),
        ["failed while processing package: a", "pkg manifest path doesn't have a parent dir"]
    );
    assert_eq!(no_parent("a"), "failed while processing package: a");
    for err in [PackageError::NotAtPwd, PackageError::NoFallback] {
        assert_eq!(err.explain("/ws"), [err.message()]);
    }
    assert_eq!(unreachable_dir("/ws/a"), "failed to set pwd to pkg manifest path: /ws/a");
}
