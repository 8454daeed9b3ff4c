//! Runs a test: what program to run, and whether it did what the test expects.
use vstd::prelude::*;
use vstd::utf8::*;
use crate::outside;
use crate::path::same_bytes;
use crate::test::{Param, Test};
use crate::text;
use crate::text::NumberError;

verus! {

/// Why a test failed.
#[derive(Debug, Clone, Copy, PartialEq, Eq, Structural)]
pub enum TestError {
    /// The expected output is not known.
    NoOut,
    /// The expected error output is not known.
    NoErr,
    /// The expected return code is not known.
    NoRc,
    /// The command is not known.
    NoRun,
    /// The command names no program.
    NoBinary,
    /// The command runs another program than the one under test.
    OtherBinary,
    /// The expected return code is not a number, for this reason.
    BadRc(NumberError),
    /// The program ended without a return code.
    NoStatus,
    /// The return code is not the expected one.
    WrongStatus,
    /// The output is not the expected one.
    WrongOut,
    /// The error output is not the expected one.
    WrongErr,
}

impl TestError {
    /// What went wrong, in words.
    pub open spec fn text(self) -> Seq<char> {
        match self {
            TestError::NoOut => "failed to find `out` test param"@,
            TestError::NoErr => "failed to find `err` test param"@,
            TestError::NoRc => "failed to find `rc` test param"@,
            TestError::NoRun => "failed to find `run` test param"@,
            TestError::NoBinary => "failed to find binary name in `.rc` test file param"@,
            TestError::OtherBinary => "crate binary doesn't match binary in `.run` test file param"@,
            TestError::BadRc(_) => "failed to parse return code in `.rc` test file param"@,
            TestError::NoStatus => "failed to parse wait status of tested binary program as exit code"@,
            TestError::WrongStatus => "test exit status doesn't match expected exit status"@,
            TestError::WrongOut => "test stdout doesn't match expected stdout"@,
            TestError::WrongErr => "test stderr doesn't match expected stderr"@,
        }
    }

    /// What went wrong, in words.
    pub fn message(self) -> (message: &'static str)
        ensures
            message@ == self.text(),
    {
        match self {
            TestError::NoOut => "failed to find `out` test param",
            TestError::NoErr => "failed to find `err` test param",
            TestError::NoRc => "failed to find `rc` test param",
            TestError::NoRun => "failed to find `run` test param",
            TestError::NoBinary => "failed to find binary name in `.rc` test file param",
            TestError::OtherBinary => "crate binary doesn't match binary in `.run` test file param",
            TestError::BadRc(_) => "failed to parse return code in `.rc` test file param",
            TestError::NoStatus => "failed to parse wait status of tested binary program as exit code",
            TestError::WrongStatus => "test exit status doesn't match expected exit status",
            TestError::WrongOut => "test stdout doesn't match expected stdout",
            TestError::WrongErr => "test stderr doesn't match expected stderr",
        }
    }
}

/// A test that can be run: the program with its arguments, and what is expected of it.
#[derive(Debug)]
pub struct Plan {
    pub bin: String,
    pub args: Vec<String>,
    pub out: String,
    pub err: String,
    pub rc: String,
}

/// A test that can be run, as a value.
pub struct PlanView {
    pub bin: Seq<char>,
    pub args: Seq<Seq<char>>,
    pub out: Seq<char>,
    pub err: Seq<char>,
    pub rc: Seq<char>,
}

impl View for Plan {
    type V = PlanView;

    open spec fn view(&self) -> PlanView {
        PlanView {
            bin: self.bin@,
            args: self.args@.map_values(|arg: String| arg@),
            out: self.out@,
            err: self.err@,
            rc: self.rc@,
        }
    }
}

/// What came of running a program: its return code, unless it was ended from outside, and what it wrote.
#[derive(Debug)]
pub struct Output {
    pub code: Option<i32>,
    pub stdout: Vec<u8>,
    pub stderr: Vec<u8>,
}

/// How the test is to be run: the first word of the command is the program, which has to be the one under test, and the
/// other words are its arguments.
pub open spec fn planned(test: Test, exe: Seq<char>) -> Result<PlanView, TestError> {
    if test.out is None {
        Err(TestError::NoOut)
    } else if test.err is None {
        Err(TestError::NoErr)
    } else if test.rc is None {
        Err(TestError::NoRc)
    } else if test.run is None {
        Err(TestError::NoRun)
    } else {
        let words = text::words(test.run->0@);
        if words.len() == 0 {
            Err(TestError::NoBinary)
        } else if text::without_dots_and_slashes(words[0]) != exe {
            Err(TestError::OtherBinary)
        } else {
            Ok(
                PlanView {
                    bin: words[0],
                    args: words.drop_first(),
                    out: test.out->0@,
                    err: test.err->0@,
                    rc: test.rc->0@,
                },
            )
        }
    }
}

/// What is wrong with what came of running the program, if anything.
pub open spec fn judged(plan: PlanView, output: Output) -> Result<(), TestError> {
    match text::i32_value(text::trimmed(plan.rc)) {
        Err(cause) => Err(TestError::BadRc(cause)),
        Ok(expected) => if output.code is None {
            Err(TestError::NoStatus)
        } else if output.code != Some(expected) {
            Err(TestError::WrongStatus)
        } else if output.stdout@ != encode_utf8(plan.out) {
            Err(TestError::WrongOut)
        } else if output.stderr@ != encode_utf8(plan.err) {
            Err(TestError::WrongErr)
        } else {
            Ok(())
        },
    }
}

/// Works out how a test of the program `exe` is to be run.
pub fn prepare(test: Test, exe: &str) -> (r: Result<Plan, TestError>)
    ensures
        match r {
            Ok(plan) => planned(test, exe@) == Ok::<PlanView, TestError>(plan@),
            Err(e) => planned(test, exe@) == Err::<PlanView, TestError>(e),
        },
{
    let out: String = match test.out {
        Some(out) => out,
        None => {
            return Err(TestError::NoOut);
        },
    };
    let err: String = match test.err {
        Some(err) => err,
        None => {
            return Err(TestError::NoErr);
        },
    };
    let rc: String = match test.rc {
        Some(rc) => rc,
        None => {
            return Err(TestError::NoRc);
        },
    };
    let run: String = match test.run {
        Some(run) => run,
        None => {
            return Err(TestError::NoRun);
        },
    };
    let mut words: Vec<String> = text::split_words(run.as_str());
    let ghost all = words@.map_values(|word: String| word@);
    assert(words@.len() == all.len());
    if words.len() == 0 {
        return Err(TestError::NoBinary);
    }
    let bin: String = words.remove(0);
    assert(bin@ == all[0]);
    assert(words@.map_values(|word: String| word@) =~= all.drop_first());
    if text::trim_dots_and_slashes(bin.as_str()) != exe.to_owned() {
        return Err(TestError::OtherBinary);
    }
    Ok(Plan { bin, args: words, out, err, rc })
}

/// The program that a command runs: its first word.
pub fn program_of(run: &str) -> (r: Option<String>)
    ensures
        match r {
            Some(program) => text::words(run@).len() > 0 && program@ == text::words(run@)[0],
            None => text::words(run@).len() == 0,
        },
{
    let mut words: Vec<String> = text::split_words(run);
    let ghost all = words@.map_values(|word: String| word@);
    assert(words@.len() == all.len());
    if words.len() == 0 {
        return None;
    }
    let program: String = words.remove(0);
    assert(program@ == all[0]);
    Some(program)
}

/// Compares what came of running the program with what the test expects.
pub fn judge(plan: &Plan, output: &Output) -> (r: Result<(), TestError>)
    ensures
        r == judged(plan@, *output),
{
    let rc: String = text::trim(plan.rc.as_str());
    let expected: i32 = match text::parse_i32(rc.as_str()) {
        Ok(expected) => expected,
        Err(cause) => {
            return Err(TestError::BadRc(cause));
        },
    };
    let code: i32 = match output.code {
        Some(code) => code,
        None => {
            return Err(TestError::NoStatus);
        },
    };
    if code != expected {
        return Err(TestError::WrongStatus);
    }
    if !same_bytes(output.stdout.as_slice(), plan.out.as_str().as_bytes()) {
        return Err(TestError::WrongOut);
    }
    if !same_bytes(output.stderr.as_slice(), plan.err.as_str().as_bytes()) {
        return Err(TestError::WrongErr);
    }
    Ok(())
}

/// What is told of a command that runs another program than the one under test.
pub open spec fn other_program(exe: Seq<char>, program: Seq<char>) -> Seq<char> {
    "crate binary: "@ + exe + ", binary name in `.run` test file param: "@ + program
}

/// Says which program a command runs in place of the one under test.
pub fn other_binary(exe: &str, program: &str) -> (message: String)
    ensures
        message@ == other_program(exe@, program@),
{
    let start: String = text::around("crate binary: ", exe, ", binary name in `.run` test file param: ");
    text::joined(start.as_str(), program)
}

/// What is told of a test of a package that could not be read.
pub open spec fn bad_test(num: usize, pkg: Seq<char>) -> Seq<char> {
    "failed while parsing test entry "@ + text::shown(num as nat) + " for pkg: "@ + pkg
}

/// Says which test of which package could not be read.
pub fn test_failure(num: usize, pkg: &str) -> (message: String)
    ensures
        message@ == bad_test(num, pkg@),
{
    let start: String = text::around(
        "failed while parsing test entry ",
        text::show(num as u64).as_str(),
        " for pkg: ",
    );
    text::joined(start.as_str(), pkg)
}

/// What is told of a return code that is not the expected one.
pub open spec fn other_status(status: i32, expected: i32) -> Seq<char> {
    "\ntest exit status: "@ + text::i32_shown(status) + "\nexpected: "@ + text::i32_shown(expected)
}

/// Says which return code came in place of the expected one.
pub fn status_failure(status: i32, expected: i32) -> (message: String)
    ensures
        message@ == other_status(status, expected),
{
    let start: String = text::around("\ntest exit status: ", text::show_i32(status).as_str(), "\nexpected: ");
    text::joined(start.as_str(), text::show_i32(expected).as_str())
}

/// What is told of an output that is not the expected one.
pub open spec fn other_out(out: Seq<char>, expected: Seq<char>) -> Seq<char> {
    "\ntest stdout:\n"@ + out + "\nexpected:\n"@ + expected
}

/// Says which output came in place of the expected one.
pub fn out_failure(out: &str, expected: &str) -> (message: String)
    ensures
        message@ == other_out(out@, expected@),
{
    let start: String = text::around("\ntest stdout:\n", out, "\nexpected:\n");
    text::joined(start.as_str(), expected)
}

/// What is told of an error output that is not the expected one.
pub open spec fn other_err(err: Seq<char>, expected: Seq<char>) -> Seq<char> {
    "\ntest stderr:\n"@ + err + "\nexpected:\n"@ + expected
}

/// Says which error output came in place of the expected one.
pub fn err_failure(err: &str, expected: &str) -> (message: String)
    ensures
        message@ == other_err(err@, expected@),
{
    let start: String = text::around("\ntest stderr:\n", err, "\nexpected:\n");
    text::joined(start.as_str(), expected)
}

/// The words of the whole failure of a test that cannot be run, outermost first.
pub open spec fn plan_texts(cause: TestError, test: Test, exe: Seq<char>, pkg: Seq<char>) -> Seq<Seq<char>> {
    match cause {
        TestError::OtherBinary => seq![other_program(exe, text::words(test.run->0@)[0]), cause.text()],
        _ => seq![bad_test(test.num, pkg), cause.text()],
    }
}

/// The words of the whole failure of a test that was run, outermost first.
pub open spec fn output_texts(
    cause: TestError,
    plan: PlanView,
    output: Output,
    num: usize,
    pkg: Seq<char>,
) -> Seq<Seq<char>> {
    match cause {
        TestError::BadRc(number) => seq![bad_test(num, pkg), cause.text(), number.text()],
        TestError::WrongStatus => seq![
            other_status(output.code->0, text::i32_value(text::trimmed(plan.rc))->Ok_0),
            cause.text(),
        ],
        TestError::WrongOut => seq![other_out(outside::lossy(output.stdout@), plan.out), cause.text()],
        TestError::WrongErr => seq![other_err(outside::lossy(output.stderr@), plan.err), cause.text()],
        _ => seq![bad_test(num, pkg), cause.text()],
    }
}

/// Works out how a test of the program `exe` of a package is to be run, or says in words why it cannot be.
pub fn plan_test(test: Test, exe: &str, pkg: &str) -> (r: Result<Plan, Vec<String>>)
    ensures
        match planned(test, exe@) {
            Ok(expected) => r matches Ok(plan) && plan@ == expected,
            Err(cause) => r matches Err(texts) && text::views(texts@) == plan_texts(cause, test, exe@, pkg@),
        },
{
    let num: usize = test.num;
    let program: String = match &test.run {
        Some(run) => match program_of(run.as_str()) {
            Some(program) => program,
            None => String::new(),
        },
        None => String::new(),
    };
    match prepare(test, exe) {
        Ok(plan) => Ok(plan),
        Err(TestError::OtherBinary) => Err(
            text::pair(other_binary(exe, program.as_str()), TestError::OtherBinary.message()),
        ),
        Err(cause) => Err(text::pair(test_failure(num, pkg), cause.message())),
    }
}

/// Compares what came of running the program with what a test of a package expects, and says in words what is wrong.
pub fn check_output(plan: &Plan, output: &Output, num: usize, pkg: &str) -> (r: Result<(), Vec<String>>)
    ensures
        match judged(plan@, *output) {
            Ok(()) => r == Ok::<(), Vec<String>>(()),
            Err(cause) => r matches Err(texts) && text::views(texts@) == output_texts(
                cause,
                plan@,
                *output,
                num,
                pkg@,
            ),
        },
{
    match judge(plan, output) {
        Ok(()) => Ok(()),
        Err(cause) => {
            let outer: String = match cause {
                TestError::WrongStatus => status_failure(
                    output.code.unwrap(),
                    text::parse_i32(text::trim(plan.rc.as_str()).as_str()).unwrap(),
                ),
                TestError::WrongOut => out_failure(
                    outside::lossy_text(output.stdout.as_slice()).as_str(),
                    plan.out.as_str(),
                ),
                TestError::WrongErr => err_failure(
                    outside::lossy_text(output.stderr.as_slice()).as_str(),
                    plan.err.as_str(),
                ),
                _ => test_failure(num, pkg),
            };
            let mut texts: Vec<String> = text::pair(outer, cause.message());
            if let TestError::BadRc(number) = cause {
                let ghost before = text::views(texts@);
                let innermost: String = number.message().to_owned();
                assert(text::views(texts@.push(innermost)) =~= before.push(innermost@));
                assert(before.push(innermost@) =~= output_texts(cause, plan@, *output, num, pkg@));
                texts.push(innermost);
            }
            Err(texts)
        },
    }
}

/// What is to be removed after the tests: the copy of the program in the working directory.
pub fn cleanup(exe: &str) -> (target: String)
    ensures
        target@ == "./"@ + exe@,
{
    text::joined("./", exe)
}

/// What to do after a look at the running tests.
#[derive(Debug, PartialEq, Eq)]
pub enum SuiteAction<E> {
    /// Wait for the next test to end.
    Wait,
    /// Stop, and fail.
    Fail(E),
    /// All tests passed: remove this file.
    Remove(String),
}

/// What to do when a test ends, or when there are none left.
pub fn run_step<E>(verdict: Option<Result<(), E>>, exe: &str) -> (action: SuiteAction<E>)
    ensures
        match verdict {
            Some(Ok(())) => action == SuiteAction::<E>::Wait,
            Some(Err(e)) => action == SuiteAction::Fail(e),
            None => action matches SuiteAction::Remove(target) && target@ == "./"@ + exe@,
        },
{
    match verdict {
        Some(Ok(())) => SuiteAction::Wait,
        Some(Err(e)) => SuiteAction::Fail(e),
        None => SuiteAction::Remove(cleanup(exe)),
    }
}

/// Goes through the verdicts on all tests of a suite, in the order in which the tests end. The first failure decides
/// the outcome; without one, the copy of the program is to be removed.
pub fn run_tests<E>(verdicts: Vec<Result<(), E>>, exe: &str) -> (r: Result<String, E>)
    ensures
        match r {
            Ok(target) => {
                &&& forall|i: int| 0 <= i < verdicts@.len() ==> #[trigger] verdicts@[i] is Ok
                &&& target@ == "./"@ + exe@
            },
            Err(e) => exists|i: int| #![trigger verdicts@[i]]
                {
                    &&& crate::test::is_first_failure(verdicts@, i)
                    &&& 0 <= i < verdicts@.len()
                    &&& verdicts@[i] == Err::<(), E>(e)
                    &&& forall|k: int| 0 <= k < i ==> #[trigger] verdicts@[k] is Ok
                },
        },
{
    let ghost all = verdicts@;
    for verdict in it: verdicts
        invariant
            it.seq() == all,
            forall|i: int| 0 <= i < it.index() ==> #[trigger] all[i] is Ok,
    {
        assert(all[it.index() as int] == verdict);
        if let SuiteAction::Fail(e) = run_step(Some(verdict), exe) {
            assert(crate::test::is_first_failure(all, it.index() as int));
            return Err(e);
        }
    }
    Ok(cleanup(exe))
}

/// A test passes exactly if the program ended with the expected return code and wrote what was expected.
pub proof fn passes_exactly_as_expected(plan: PlanView, output: Output)
    ensures
        judged(plan, output) is Ok <==> {
            &&& output.code matches Some(code) && text::i32_value(text::trimmed(plan.rc)) == Ok::<i32, NumberError>(
                code,
            )
            &&& output.stdout@ == encode_utf8(plan.out)
            &&& output.stderr@ == encode_utf8(plan.err)
        },
{
}

/// A test that knows only one parameter cannot be run: of the four it takes, one is missing.
pub proof fn one_parameter_is_not_enough(test: Test, param: Param, text: String, exe: Seq<char>)
    requires
        test.knows_only(param, text),
    ensures
        planned(test, exe) == Err::<PlanView, TestError>(
            if param == Param::Stdout {
                TestError::NoErr
            } else {
                TestError::NoOut
            },
        ),
{
    assert(test.param(Param::Stdout) == test.out);
    assert(test.param(Param::Stderr) == test.err);
}

/// A command that is the program under test in the working directory, without arguments, is accepted, unless the name
/// of the program starts with a dot or a slash or holds white space.
pub proof fn own_program_is_accepted(test: Test, exe: Seq<char>)
    requires
        test.out is Some,
        test.err is Some,
        test.rc is Some,
        test.run matches Some(run) && run@ == "./"@ + exe,
        exe.len() > 0,
        exe[0] != '.' && exe[0] != '/',
        forall|i: int| 0 <= i < exe.len() ==> !text::is_ascii_white_space(#[trigger] exe[i]),
    ensures
        planned(test, exe) matches Ok(plan) && plan.bin == "./"@ + exe && plan.args.len() == 0,
{
    let command = "./"@ + exe;
    reveal_strlit("./");
    assert forall|i: int| 0 <= i < command.len() implies !text::is_ascii_white_space(#[trigger] command[i]) by {
        if i >= 2 {
            assert(command[i] == exe[i - 2]);
        }
    }
    text::single_word(command);
    assert(command.drop_first().drop_first() =~= exe);
    reveal_with_fuel(text::without_dots_and_slashes, 3);
}

/// A plan holds the whole command: the program and then its arguments are all the words of it, in order, and what is
/// expected is what the test says.
pub proof fn a_plan_holds_the_whole_command(test: Test, exe: Seq<char>)
    ensures
        planned(test, exe) matches Ok(plan) ==> {
            &&& test.run is Some && seq![plan.bin] + plan.args == text::words(test.run->0@)
            &&& plan.args.len() + 1 == text::words(test.run->0@).len()
            &&& text::without_dots_and_slashes(plan.bin) == exe
            &&& test.out is Some && plan.out == test.out->0@
            &&& test.err is Some && plan.err == test.err->0@
            &&& test.rc is Some && plan.rc == test.rc->0@
        },
{
    if let Ok(plan) = planned(test, exe) {
        assert(seq![plan.bin] + plan.args =~= text::words(test.run->0@));
    }
}

/// A test has a plan exactly if it says what to run and what to expect, and the program is the one under test. What is
/// missing first is what is told.
pub proof fn a_plan_is_made_exactly_if_nothing_is_missing(test: Test, exe: Seq<char>)
    ensures
        planned(test, exe) is Ok <==> {
            &&& test.out is Some && test.err is Some && test.rc is Some
            &&& test.run matches Some(run) && text::words(run@).len() > 0 && text::without_dots_and_slashes(
                text::words(run@)[0],
            ) == exe
        },
        planned(test, exe) matches Err(cause) ==> match cause {
            TestError::NoOut => test.out is None,
            TestError::NoErr => test.out is Some && test.err is None,
            TestError::NoRc => test.out is Some && test.err is Some && test.rc is None,
            TestError::NoRun => test.out is Some && test.err is Some && test.rc is Some && test.run is None,
            TestError::NoBinary => test.out is Some && test.err is Some && test.rc is Some && (test.run matches Some(
                run,
            ) && text::words(run@).len() == 0),
            TestError::OtherBinary => test.out is Some && test.err is Some && test.rc is Some && (test.run matches Some(
                run,
            ) && text::words(run@).len() > 0 && text::without_dots_and_slashes(text::words(run@)[0]) != exe),
            _ => false,
        },
{
}

/// What is wrong with a test that was run is told by the first thing that is: the expected return code is no number,
/// there is no return code, or the return code, the output or the error output is another.
pub proof fn the_first_difference_is_told(plan: PlanView, output: Output)
    ensures
        judged(plan, output) matches Err(cause) ==> match cause {
            TestError::BadRc(number) => text::i32_value(text::trimmed(plan.rc)) == Err::<i32, NumberError>(number),
            TestError::NoStatus => text::i32_value(text::trimmed(plan.rc)) is Ok && output.code is None,
            TestError::WrongStatus => output.code matches Some(code) && (text::i32_value(
                text::trimmed(plan.rc),
            ) matches Ok(expected) && expected != code),
            TestError::WrongOut => {
                &&& output.code matches Some(code) && text::i32_value(text::trimmed(plan.rc)) == Ok::<i32, NumberError>(
                    code,
                )
                &&& output.stdout@ != encode_utf8(plan.out)
            },
            TestError::WrongErr => {
                &&& output.code matches Some(code) && text::i32_value(text::trimmed(plan.rc)) == Ok::<i32, NumberError>(
                    code,
                )
                &&& output.stdout@ == encode_utf8(plan.out)
                &&& output.stderr@ != encode_utf8(plan.err)
            },
            _ => false,
        },
{
}

/// What is looked at of a plan is what it holds.
pub proof fn views_hold_everything(plan: Plan)
    ensures
        plan@.bin == plan.bin@,
        plan@.out == plan.out@,
        plan@.err == plan.err@,
        plan@.rc == plan.rc@,
        plan@.args.len() == plan.args@.len(),
        forall|i: int| 0 <= i < plan.args@.len() ==> plan@.args[i] == (#[trigger] plan.args@[i])@,
{
}

/// The words of a failure name the test and the package, or show what was there and what was expected.
pub proof fn failures_are_told_with_their_values(
    test: Test,
    plan: PlanView,
    output: Output,
    num: usize,
    exe: Seq<char>,
    pkg: Seq<char>,
)
    ensures
        ({
            let entry = |n: usize|
                "failed while parsing test entry "@ + text::shown(n as nat) + " for pkg: "@ + pkg;
            &&& planned(test, exe) matches Err(cause) ==> plan_texts(cause, test, exe, pkg) == seq![
                if cause == TestError::OtherBinary {
                    "crate binary: "@ + exe + ", binary name in `.run` test file param: "@ + text::words(
                        test.run->0@,
                    )[0]
                } else {
                    entry(test.num)
                },
                cause.text(),
            ]
            &&& judged(plan, output) matches Err(cause) ==> {
                let told = output_texts(cause, plan, output, num, pkg);
                match cause {
                    TestError::BadRc(number) => told == seq![entry(num), cause.text(), number.text()],
                    TestError::WrongStatus => told == seq![
                        "\ntest exit status: "@ + text::i32_shown(output.code->0) + "\nexpected: "@ + text::i32_shown(
                            text::i32_value(text::trimmed(plan.rc))->Ok_0,
                        ),
                        cause.text(),
                    ],
                    TestError::WrongOut => told == seq![
                        "\ntest stdout:\n"@ + outside::lossy(output.stdout@) + "\nexpected:\n"@ + plan.out,
                        cause.text(),
                    ],
                    TestError::WrongErr => told == seq![
                        "\ntest stderr:\n"@ + outside::lossy(output.stderr@) + "\nexpected:\n"@ + plan.err,
                        cause.text(),
                    ],
                    _ => told == seq![entry(num), cause.text()],
                }
            }
        }),
{
}

} // verus!
