use ostep::discovery::{
    add_entry, entry_failure, metadata_failure, proc_entry, proc_tests, sort_tests, DirEntry, DirScan, EntryError,
    NameError, ScanAction, ScanEvent, TestFile,
};
use ostep::test::Param;
use ostep::text::NumberError;

fn file(path: &str) -> Result<DirEntry, String> {
    Ok(DirEntry { path: path.as_bytes().to_vec(), is_file: true })
}

fn found(path: &str, num: usize, param: Param) -> TestFile {
    TestFile { path: path.as_bytes().to_vec(), num, param }
}

#[test]
fn every_parameter_has_its_extension() {
    let expected = [
        ("out", Param::Stdout),
        ("err", Param::Stderr),
        ("rc", Param::Rc),
        ("run", Param::Run),
        ("desc", Param::Desc),
        ("pre", Param::Pre),
        ("post", Param::Post),
    ];
    for (extension, param) in expected {
        assert_eq!(Param::from_extension(extension.as_bytes()), Some(param));
    }
    for extension in ["", "in", "Out", "outs", "ou", "RC", "descr"] {
        assert_eq!(Param::from_extension(extension.as_bytes()), None);
    }
}

#[test]
fn parameter_files_are_listed_in_order() {
    let entries = vec![
        file("./tests/2.out"),
        file("./tests/README.md"),
        file("./tests/1.rc"),
        file("./tests/10"),
        file("./tests/.out"),
        Ok(DirEntry { path: b"./tests/3.out".to_vec(), is_file: false }),
        file("./tests/007.run"),
    ];
    let expected = vec![
        found("./tests/2.out", 2, Param::Stdout),
        found("./tests/1.rc", 1, Param::Rc),
        found("./tests/007.run", 7, Param::Run),
    ];
    assert_eq!(proc_tests(entries, 7), Ok(expected));
}

#[test]
fn no_entries_make_no_tests() {
    assert_eq!(proc_tests(Vec::<Result<DirEntry, String>>::new(), 0), Ok(vec![]));
}

#[test]
fn a_name_that_is_no_number_is_refused() {
    for (name, cause) in [
        ("a.out", NumberError::InvalidDigit),
        ("1.2.out", NumberError::InvalidDigit),
        ("-1.rc", NumberError::InvalidDigit),
        ("99999999999999999999.run", NumberError::PosOverflow),
    ] {
        let path = format!("./tests/{name}").into_bytes();
        assert_eq!(
            proc_tests(vec![file("./tests/1.out"), file(&format!("./tests/{name}")), Err("later".to_owned())], 3),
            Err(EntryError::Name(path, NameError::NotANumber(cause)))
        );
    }
    assert_eq!(
        NameError::NotANumber(NumberError::Empty).message(),
        "expected file to denote a test number in the suite"
    );
}

#[test]
fn a_name_that_is_not_utf8_is_refused() {
    let path = b"./tests/\xff.out".to_vec();
    let entry = DirEntry { path: path.clone(), is_file: true };
    assert_eq!(proc_entry::<String>(entry), Err(EntryError::Name(path, NameError::NotUtf8)));
    let other = DirEntry { path: b"./tests/\xff.txt".to_vec(), is_file: true };
    assert_eq!(proc_entry::<String>(other), Ok(None));
    assert_eq!(NameError::NotUtf8.message(), "file contains non-utf8 codepoints");
}

#[test]
fn an_entry_that_cannot_be_looked_at_is_a_failure() {
    assert_eq!(
        proc_tests(vec![file("./tests/1.out"), Err("no access".to_owned()), file("./tests/x.out")], 3),
        Err(EntryError::Metadata("no access".to_owned()))
    );
}

#[test]
fn parts_put_together_are_the_whole() {
    let paths = ["./tests/1.out", "./tests/x.md", "./tests/2.err", "./tests/3.rc"];
    let whole = proc_tests(paths.map(file).into_iter().collect(), 4).unwrap();
    for cut in 0..=paths.len() {
        let mut parts = proc_tests(paths[..cut].iter().map(|p| file(p)).collect(), cut).unwrap();
        parts.extend(paths[cut..].iter().try_fold(Vec::new(), |found, p| add_entry(found, file(p))).unwrap());
        assert_eq!(parts, whole);
    }
}

#[test]
fn tests_are_sorted_by_number() {
    let sorted = sort_tests(vec![
        found("c", 10, Param::Stdout),
        found("a", 2, Param::Rc),
        found("d", 10, Param::Stderr),
        found("b", 1, Param::Run),
    ]);
    let nums: Vec<usize> = sorted.iter().map(|test| test.num).collect();
    assert_eq!(nums, [1, 2, 10, 10]);
    assert_eq!(sorted[0], found("b", 1, Param::Run));
    assert_eq!(sorted[1], found("a", 2, Param::Rc));
    assert!(sorted.contains(&found("c", 10, Param::Stdout)) && sorted.contains(&found("d", 10, Param::Stderr)));
}

#[test]
fn scanning_counts_the_entries() {
    let mut scan = DirScan::new();
    assert_eq!(scan.step(ScanEvent::Entry), ScanAction::LookUp);
    assert_eq!(scan.step(ScanEvent::Entry), ScanAction::LookUp);
    assert_eq!(scan.step(ScanEvent::End), ScanAction::List(2));
    let files = proc_tests(vec![file("./tests/1.out"), file("./tests/notes.md")], scan.seen).unwrap();
    assert!(files.len() <= scan.seen);
}

#[test]
fn scanning_stops_at_an_entry_that_cannot_be_read() {
    let mut scan = DirScan::new();
    scan.step(ScanEvent::Entry);
    assert_eq!(scan.step(ScanEvent::ReadError), ScanAction::Abort);
}

#[test]
fn a_bad_entry_is_told_in_full() {
    let outer = "failed when parsing `tests` directory entry: `./tests/x.out`";
    assert_eq!(entry_failure("./tests/x.out"), outer);
    assert_eq!(
        NameError::NotANumber(NumberError::InvalidDigit).explain("./tests/x.out"),
        [outer, "expected file to denote a test number in the suite", "invalid digit found in string"]
    );
    assert_eq!(
        NameError::NotUtf8.explain("./tests/x.out"),
        [
            outer,
            "expected utf-8-compliant values for each test; each test should denote a numeric value",
            "file contains non-utf8 codepoints",
        ]
    );
    assert_eq!(
        metadata_failure("./tests/1.out"),
        "failed to read entry fs metadata when parsing `tests` directory entry: `./tests/1.out`"
    );
}
