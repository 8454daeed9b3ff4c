//! A test of the suite, and the files that its parameters are read from.
use vstd::prelude::*;
use vstd::utf8::*;
use crate::path::same_bytes;
use crate::text;

verus! {

/// A parameter of a test. Each is read from a file of its own, whose extension tells which one it is.
#[derive(Debug, Clone, Copy, PartialEq, Eq, Structural)]
pub enum Param {
    Stdout,
    Stderr,
    Rc,
    Run,
    Desc,
    Pre,
    Post,
}

impl Param {
    /// The extension of the files that hold this parameter.
    pub open spec fn extension(self) -> Seq<u8> {
        match self {
            Param::Stdout => encode_utf8("out"@),
            Param::Stderr => encode_utf8("err"@),
            Param::Rc => encode_utf8("rc"@),
            Param::Run => encode_utf8("run"@),
            Param::Desc => encode_utf8("desc"@),
            Param::Pre => encode_utf8("pre"@),
            Param::Post => encode_utf8("post"@),
        }
    }

    /// The parameter that files with this extension hold, if any.
    pub open spec fn of_extension(extension: Seq<u8>) -> Option<Param> {
        if extension == Param::Stdout.extension() {
            Some(Param::Stdout)
        } else if extension == Param::Stderr.extension() {
            Some(Param::Stderr)
        } else if extension == Param::Rc.extension() {
            Some(Param::Rc)
        } else if extension == Param::Run.extension() {
            Some(Param::Run)
        } else if extension == Param::Desc.extension() {
            Some(Param::Desc)
        } else if extension == Param::Pre.extension() {
            Some(Param::Pre)
        } else if extension == Param::Post.extension() {
            Some(Param::Post)
        } else {
            None
        }
    }

    /// The parameter that files with this extension hold, if any.
    pub fn from_extension(extension: &[u8]) -> (r: Option<Param>)
        ensures
            r == Param::of_extension(extension@),
    {
        if same_bytes(extension, "out".as_bytes()) {
            Some(Param::Stdout)
        } else if same_bytes(extension, "err".as_bytes()) {
            Some(Param::Stderr)
        } else if same_bytes(extension, "rc".as_bytes()) {
            Some(Param::Rc)
        } else if same_bytes(extension, "run".as_bytes()) {
            Some(Param::Run)
        } else if same_bytes(extension, "desc".as_bytes()) {
            Some(Param::Desc)
        } else if same_bytes(extension, "pre".as_bytes()) {
            Some(Param::Pre)
        } else if same_bytes(extension, "post".as_bytes()) {
            Some(Param::Post)
        } else {
            None
        }
    }

    /// No two parameters are read from files with the same extension.
    pub proof fn extensions_differ(a: Param, b: Param)
        ensures
            a.extension() == b.extension() ==> a == b,
            Param::of_extension(a.extension()) == Some(a),
    {
        assert forall|a: Param, b: Param| #[trigger] a.extension() == #[trigger] b.extension() implies a == b by {
            reveal_strlit("out");
            reveal_strlit("err");
            reveal_strlit("rc");
            reveal_strlit("run");
            reveal_strlit("desc");
            reveal_strlit("pre");
            reveal_strlit("post");
            is_ascii_chars_encode_utf8("out"@);
            is_ascii_chars_encode_utf8("err"@);
            is_ascii_chars_encode_utf8("rc"@);
            is_ascii_chars_encode_utf8("run"@);
            is_ascii_chars_encode_utf8("desc"@);
            is_ascii_chars_encode_utf8("pre"@);
            is_ascii_chars_encode_utf8("post"@);
            assert(a.extension()[0] == b.extension()[0] && a.extension()[1] == b.extension()[1]);
        }
    }
}

/// A test, with those of its parameters that are known.
#[derive(Debug)]
pub struct Test {
    pub num: usize,
    pub out: Option<String>,
    pub err: Option<String>,
    pub rc: Option<String>,
    pub run: Option<String>,
    pub desc: Option<String>,
    pub pre: Option<String>,
    pub post: Option<String>,
}

impl Test {
    /// The parameter, if it is known.
    pub open spec fn param(self, param: Param) -> Option<String> {
        match param {
            Param::Stdout => self.out,
            Param::Stderr => self.err,
            Param::Rc => self.rc,
            Param::Run => self.run,
            Param::Desc => self.desc,
            Param::Pre => self.pre,
            Param::Post => self.post,
        }
    }

    /// The test knows nothing but this parameter.
    pub open spec fn knows_only(self, param: Param, text: String) -> bool {
        &&& self.num == 1
        &&& forall|other: Param| #[trigger]
            self.param(other) == (if other == param {
                Some(text)
            } else {
                None
            })
    }

    /// The parameter file was read, and the test knows nothing but its parameter.
    pub open spec fn is_made_from<E>(self, read: Result<(Param, String), E>) -> bool {
        match read {
            Ok((param, text)) => self.knows_only(param, text),
            Err(_) => false,
        }
    }
}

impl Default for Test {
    /// The first test, with no parameter known.
    fn default() -> (test: Self)
        ensures
            test == (Test { num: 1, out: None, err: None, rc: None, run: None, desc: None, pre: None, post: None }),
    {
        Test { num: 1, out: None, err: None, rc: None, run: None, desc: None, pre: None, post: None }
    }
}

/// The test that a parameter file makes: the first test, with that parameter and no other.
pub fn produce_test(param: Param, text: String) -> (test: Test)
    ensures
        test.knows_only(param, text),
{
    let mut test = Test::default();
    match param {
        Param::Rc => test.rc = Some(text),
        Param::Stdout => test.out = Some(text),
        Param::Stderr => test.err = Some(text),
        Param::Run => test.run = Some(text),
        Param::Desc => test.desc = Some(text),
        Param::Pre => test.pre = Some(text),
        Param::Post => test.post = Some(text),
    }
    test
}

/// Says which parameter file could not be read.
pub fn read_failure(path: &str) -> (message: String)
    ensures
        message@ == "failed while parsing `tests` directory entry `"@ + path@ + "`"@,
{
    text::around("failed while parsing `tests` directory entry `", path, "`")
}

/// The result at `i` is the first failure.
pub open spec fn is_first_failure<T, E>(results: Seq<Result<T, E>>, i: int) -> bool {
    &&& 0 <= i < results.len()
    &&& results[i] is Err
    &&& forall|j: int| 0 <= j < i ==> #[trigger] results[j] is Ok
}

/// Makes one test of every parameter file, in the order in which they were read. The first file that could not be read
/// decides the outcome.
pub fn produce_tests<E>(read: Vec<Result<(Param, String), E>>) -> (r: Result<Vec<Test>, E>)
    ensures
        match r {
            Ok(tests) => {
                &&& tests@.len() == read@.len()
                &&& forall|i: int| 0 <= i < read@.len() ==> #[trigger] tests@[i].is_made_from(read@[i])
            },
            Err(e) => exists|i: int|
                is_first_failure(read@, i) && #[trigger] read@[i] == Err::<(Param, String), E>(e),
        },
{
    let ghost all = read@;
    let mut tests: Vec<Test> = Vec::new();
    for result in it: read
        invariant
            it.seq() == all,
            tests@.len() == it.index(),
            forall|i: int| 0 <= i < tests@.len() ==> #[trigger] tests@[i].is_made_from(all[i]),
    {
        match result {
            Ok((param, text)) => {
                let test = produce_test(param, text);
                assert(test.is_made_from(all[it.index() as int]));
                tests.push(test);
            },
            Err(e) => {
                let ghost at: int = it.index() as int;
                assert forall|j: int| 0 <= j < at implies #[trigger] all[j] is Ok by {
                    assert(tests@[j].is_made_from(all[j]));
                }
                assert(is_first_failure(all, at) && all[at] == Err::<(Param, String), E>(e));
                return Err(e);
            },
        }
    }
    Ok(tests)
}

/// The test that a parameter file makes is the first test, with the text of the file as the parameter that the
/// extension tells of, and nothing else.
pub proof fn a_parameter_file_makes_this_test(test: Test, param: Param, text: String)
    ensures
        test.knows_only(param, text) <==> test == (match param {
            Param::Stdout => Test {
                num: 1,
                out: Some(text),
                err: None,
                rc: None,
                run: None,
                desc: None,
                pre: None,
                post: None,
            },
            Param::Stderr => Test {
                num: 1,
                out: None,
                err: Some(text),
                rc: None,
                run: None,
                desc: None,
                pre: None,
                post: None,
            },
            Param::Rc => Test {
                num: 1,
                out: None,
                err: None,
                rc: Some(text),
                run: None,
                desc: None,
                pre: None,
                post: None,
            },
            Param::Run => Test {
                num: 1,
                out: None,
                err: None,
                rc: None,
                run: Some(text),
                desc: None,
                pre: None,
                post: None,
            },
            Param::Desc => Test {
                num: 1,
                out: None,
                err: None,
                rc: None,
                run: None,
                desc: Some(text),
                pre: None,
                post: None,
            },
            Param::Pre => Test {
                num: 1,
                out: None,
                err: None,
                rc: None,
                run: None,
                desc: None,
                pre: Some(text),
                post: None,
            },
            Param::Post => Test {
                num: 1,
                out: None,
                err: None,
                rc: None,
                run: None,
                desc: None,
                pre: None,
                post: Some(text),
            },
        }),
{
    if test.knows_only(param, text) {
        assert(test.param(Param::Stdout) == test.out && test.param(Param::Stderr) == test.err);
        assert(test.param(Param::Rc) == test.rc && test.param(Param::Run) == test.run);
        assert(test.param(Param::Desc) == test.desc && test.param(Param::Pre) == test.pre);
        assert(test.param(Param::Post) == test.post);
    }
}

/// The result at an index is the first failure exactly if it is a failure and all before it are not.
pub proof fn a_first_failure_comes_after_successes<T, E>(results: Seq<Result<T, E>>, i: int)
    ensures
        is_first_failure(results, i) <==> {
            &&& 0 <= i < results.len()
            &&& results[i] is Err
            &&& forall|j: int| 0 <= j < i ==> #[trigger] results[j] is Ok
        },
{
}

/// The parameters are read from the files that end in `.out`, `.err`, `.rc`, `.run`, `.desc`, `.pre` and `.post`, and
/// from no others.
pub proof fn extensions_are_as_listed(extension: Seq<u8>)
    ensures
        Param::Stdout.extension() == seq![0x6fu8, 0x75, 0x74],
        Param::Stderr.extension() == seq![0x65u8, 0x72, 0x72],
        Param::Rc.extension() == seq![0x72u8, 0x63],
        Param::Run.extension() == seq![0x72u8, 0x75, 0x6e],
        Param::Desc.extension() == seq![0x64u8, 0x65, 0x73, 0x63],
        Param::Pre.extension() == seq![0x70u8, 0x72, 0x65],
        Param::Post.extension() == seq![0x70u8, 0x6f, 0x73, 0x74],
        Param::of_extension(extension) matches Some(param) ==> param.extension() == extension,
        Param::of_extension(extension) is None ==> forall|param: Param| #[trigger] param.extension() != extension,
{
    reveal_strlit("out");
    reveal_strlit("err");
    reveal_strlit("rc");
    reveal_strlit("run");
    reveal_strlit("desc");
    reveal_strlit("pre");
    reveal_strlit("post");
    is_ascii_chars_encode_utf8("out"@);
    is_ascii_chars_encode_utf8("err"@);
    is_ascii_chars_encode_utf8("rc"@);
    is_ascii_chars_encode_utf8("run"@);
    is_ascii_chars_encode_utf8("desc"@);
    is_ascii_chars_encode_utf8("pre"@);
    is_ascii_chars_encode_utf8("post"@);
}

/// A test is made of a file only if the file was read, and then of the parameter and the text that it holds.
pub proof fn a_test_is_made_of_what_was_read<E>(test: Test, read: Result<(Param, String), E>)
    ensures
        test.is_made_from(read) <==> (read matches Ok((param, text)) && test.knows_only(param, text)),
{
}

} // verus!
