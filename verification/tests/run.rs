use ostep::run::{
    check_output, cleanup, err_failure, judge, other_binary, out_failure, plan_test, prepare, program_of, run_step,
    run_tests, status_failure, test_failure, Output, Plan, SuiteAction, TestError,
};
use ostep::test::{produce_test, produce_tests, read_failure, Param, Test};
use ostep::text::NumberError;

fn text(text: &str) -> Option<String> {
    Some(text.to_owned())
}

fn test(run: &str) -> Test {
    Test { out: text("hello\n"), err: text(""), rc: text("0\n"), run: text(run), ..Test::default() }
}

fn plan(rc: &str) -> Plan {
    prepare(Test { rc: text(rc), ..test("./wcat a") }, "wcat").unwrap()
}

fn output(code: Option<i32>, stdout: &str, stderr: &str) -> Output {
    Output { code, stdout: stdout.as_bytes().to_vec(), stderr: stderr.as_bytes().to_vec() }
}

#[test]
fn the_command_is_split_into_program_and_arguments() {
    let plan = prepare(test("./wcat tests/1.in  tests/2.in\n"), "wcat").unwrap();
    assert_eq!(plan.bin, "./wcat");
    assert_eq!(plan.args, ["tests/1.in", "tests/2.in"]);
    assert_eq!((plan.out.as_str(), plan.err.as_str(), plan.rc.as_str()), ("hello\n", "", "0\n"));
}

#[test]
fn all_four_parameters_are_needed() {
    let missing = |test: Test| prepare(test, "wcat").unwrap_err();
    assert_eq!(missing(Test { out: None, err: None, ..test("./wcat") }), TestError::NoOut);
    assert_eq!(missing(Test { err: None, rc: None, ..test("./wcat") }), TestError::NoErr);
    assert_eq!(missing(Test { rc: None, run: None, ..test("./wcat") }), TestError::NoRc);
    assert_eq!(missing(Test { run: None, ..test("./wcat") }), TestError::NoRun);
}

#[test]
fn the_command_has_to_run_the_program_under_test() {
    assert_eq!(prepare(test(" \n"), "wcat").unwrap_err(), TestError::NoBinary);
    assert_eq!(prepare(test("./wgrep a"), "wcat").unwrap_err(), TestError::OtherBinary);
    assert_eq!(prepare(test("bin/wcat"), "wcat").unwrap_err(), TestError::OtherBinary);
    assert!(prepare(test("wcat"), "wcat").is_ok());
    assert!(prepare(test(&cleanup("wcat")), "wcat").is_ok());
    assert_eq!(prepare(test("./.wcat"), ".wcat").unwrap_err(), TestError::OtherBinary);
}

#[test]
fn the_other_program_is_named() {
    assert_eq!(prepare(test("./other a.txt"), "wcat").unwrap_err(), TestError::OtherBinary);
    assert_eq!(program_of("./other a.txt").as_deref(), Some("./other"));
    assert_eq!(program_of(" \n"), None);
    assert_eq!(
        other_binary("wcat", "./other"),
        "crate binary: wcat, binary name in `.run` test file param: ./other"
    );
}

#[test]
fn the_expected_output_passes() {
    assert_eq!(judge(&plan("0\n"), &output(Some(0), "hello\n", "")), Ok(()));
    assert_eq!(judge(&plan(" -3 "), &output(Some(-3), "hello\n", "")), Ok(()));
}

#[test]
fn anything_else_fails() {
    assert_eq!(judge(&plan("zero"), &output(None, "", "x")), Err(TestError::BadRc(NumberError::InvalidDigit)));
    assert_eq!(judge(&plan(" \n"), &output(None, "", "x")), Err(TestError::BadRc(NumberError::Empty)));
    assert_eq!(judge(&plan("0"), &output(None, "", "x")), Err(TestError::NoStatus));
    assert_eq!(judge(&plan("0"), &output(Some(1), "", "x")), Err(TestError::WrongStatus));
    assert_eq!(judge(&plan("0"), &output(Some(0), "hello", "x")), Err(TestError::WrongOut));
    assert_eq!(judge(&plan("0"), &output(Some(0), "hello\n", "x")), Err(TestError::WrongErr));
}

#[test]
fn a_parameter_file_makes_a_test_of_its_own() {
    let test = produce_test(Param::Stderr, "oops".to_owned());
    assert_eq!(test.num, 1);
    assert_eq!(test.err.as_deref(), Some("oops"));
    assert!(test.out.is_none() && test.rc.is_none() && test.run.is_none());
    assert!(test.desc.is_none() && test.pre.is_none() && test.post.is_none());
    assert_eq!(produce_test(Param::Desc, "d".to_owned()).desc.as_deref(), Some("d"));
    assert_eq!(produce_test(Param::Pre, "p".to_owned()).pre.as_deref(), Some("p"));
    assert_eq!(produce_test(Param::Post, "q".to_owned()).post.as_deref(), Some("q"));
    assert_eq!(produce_test(Param::Rc, "0".to_owned()).rc.as_deref(), Some("0"));
    assert_eq!(produce_test(Param::Run, "r".to_owned()).run.as_deref(), Some("r"));
}

#[test]
fn one_parameter_is_not_enough_to_run() {
    for param in [Param::Stderr, Param::Rc, Param::Run, Param::Desc, Param::Pre, Param::Post] {
        assert_eq!(prepare(produce_test(param, String::new()), "wcat").unwrap_err(), TestError::NoOut);
    }
    assert_eq!(prepare(produce_test(Param::Stdout, String::new()), "wcat").unwrap_err(), TestError::NoErr);
}

#[test]
fn tests_are_made_in_the_order_of_reading() {
    let read: Vec<Result<(Param, String), &str>> =
        vec![Ok((Param::Rc, "1".to_owned())), Ok((Param::Stdout, "x".to_owned()))];
    let tests = produce_tests(read).unwrap();
    assert_eq!(tests.len(), 2);
    assert_eq!(tests[0].rc.as_deref(), Some("1"));
    assert_eq!(tests[1].out.as_deref(), Some("x"));
    let failed: Vec<Result<(Param, String), &str>> = vec![Ok((Param::Rc, "1".to_owned())), Err("first"), Err("second")];
    assert_eq!(produce_tests(failed).unwrap_err(), "first");
}

#[test]
fn the_first_failure_decides() {
    assert_eq!(run_tests(vec![Ok(()), Err("a"), Err("b")], "wcat"), Err("a"));
    assert_eq!(run_tests::<&str>(vec![Ok(()), Ok(())], "wcat"), Ok("./wcat".to_owned()));
    assert_eq!(run_tests::<&str>(vec![], "wcat"), Ok("./wcat".to_owned()));
}

#[test]
fn each_verdict_is_a_step() {
    assert_eq!(run_step::<&str>(Some(Ok(())), "wcat"), SuiteAction::Wait);
    assert_eq!(run_step(Some(Err("a")), "wcat"), SuiteAction::Fail("a"));
    assert_eq!(run_step::<&str>(None, "wcat"), SuiteAction::Remove("./wcat".to_owned()));
}

#[test]
fn every_test_failure_has_words() {
    let expected = [
        (TestError::NoOut, "failed to find `out` test param"),
        (TestError::NoErr, "failed to find `err` test param"),
        (TestError::NoRc, "failed to find `rc` test param"),
        (TestError::NoRun, "failed to find `run` test param"),
        (TestError::NoBinary, "failed to find binary name in `.rc` test file param"),
        (TestError::OtherBinary, "crate binary doesn't match binary in `.run` test file param"),
        (TestError::BadRc(NumberError::PosOverflow), "failed to parse return code in `.rc` test file param"),
        (TestError::NoStatus, "failed to parse wait status of tested binary program as exit code"),
        (TestError::WrongStatus, "test exit status doesn't match expected exit status"),
        (TestError::WrongOut, "test stdout doesn't match expected stdout"),
        (TestError::WrongErr, "test stderr doesn't match expected stderr"),
    ];
    for (error, message) in expected {
        assert_eq!(error.message(), message);
    }
}

#[test]
fn a_test_that_cannot_be_run_is_told_in_full() {
    let told = |test: Test| plan_test(test, "wcat", "pkg").unwrap_err();
    let entry = "failed while parsing test entry 1 for pkg: pkg";
    assert_eq!(test_failure(1, "pkg"), entry);
    let half = Test { out: text(""), ..Test::default() };
    assert_eq!(told(half), [entry, "failed to find `err` test param"]);
    assert_eq!(told(Test::default()), [entry, "failed to find `out` test param"]);
    assert_eq!(told(test(" ")), [entry, "failed to find binary name in `.rc` test file param"]);
    assert_eq!(
        told(test("./other a.txt")),
        [
            "crate binary: wcat, binary name in `.run` test file param: ./other",
            "crate binary doesn't match binary in `.run` test file param",
        ]
    );
    assert_eq!(plan_test(test("./wcat a"), "wcat", "pkg").unwrap().args, ["a"]);
}

#[test]
fn a_test_that_failed_is_told_in_full() {
    let told = |rc: &str, output: Output| check_output(&plan(rc), &output, 12, "wcat").unwrap_err();
    let entry = "failed while parsing test entry 12 for pkg: wcat";
    assert_eq!(
        told("zero", output(Some(0), "", "")),
        [entry, "failed to parse return code in `.rc` test file param", "invalid digit found in string"]
    );
    assert_eq!(
        told("0", output(None, "", "")),
        [entry, "failed to parse wait status of tested binary program as exit code"]
    );
    assert_eq!(
        told(" +3 ", output(Some(-1), "", "")),
        ["\ntest exit status: -1\nexpected: 3", "test exit status doesn't match expected exit status"]
    );
    assert_eq!(
        told("0", Output { code: Some(0), stdout: b"hi\xff".to_vec(), stderr: vec![] }),
        ["\ntest stdout:\nhi\u{fffd}\nexpected:\nhello\n", "test stdout doesn't match expected stdout"]
    );
    assert_eq!(
        told("0", output(Some(0), "hello\n", "oops")),
        ["\ntest stderr:\noops\nexpected:\n", "test stderr doesn't match expected stderr"]
    );
    assert_eq!(check_output(&plan("0"), &output(Some(0), "hello\n", ""), 1, "wcat"), Ok(()));
    assert_eq!(status_failure(-1, 3), "\ntest exit status: -1\nexpected: 3");
    assert_eq!(out_failure("a", "b"), "\ntest stdout:\na\nexpected:\nb");
    assert_eq!(err_failure("a", "b"), "\ntest stderr:\na\nexpected:\nb");
}

#[test]
fn a_file_that_cannot_be_read_is_named() {
    assert_eq!(read_failure("./tests/1.out"), "failed while parsing `tests` directory entry `./tests/1.out`");
}
