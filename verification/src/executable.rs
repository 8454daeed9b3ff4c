//! Finds the executable that a build has made, in what the build printed.
use vstd::prelude::*;
use vstd::utf8::*;
use crate::outside;
use crate::path;
use crate::text;

verus! {

/// The byte that ends a line.
pub const NEWLINE: u8 = 0x0a;

/// How many bytes there are before the first newline.
pub open spec fn line_length(input: Seq<u8>) -> nat
    decreases input.len(),
{
    if input.len() == 0 || input.first() == NEWLINE {
        0
    } else {
        1 + line_length(input.drop_first())
    }
}

/// The bytes before the first newline; all of them if there is none.
pub open spec fn first_line(input: Seq<u8>) -> Seq<u8> {
    input.take(line_length(input) as int)
}

/// The text in which every byte stands for the character with its number.
pub open spec fn latin1(bytes: Seq<u8>) -> Seq<char> {
    bytes.map_values(|b: u8| b as char)
}

/// The first line of what a build printed, as text.
pub fn preprocess_build_json(input: Vec<u8>) -> (output: String)
    ensures
        output@ == latin1(first_line(input@)),
{
    let mut output = String::new();
    let len: usize = input.len();
    let mut i: usize = 0;
    assert(output@ =~= latin1(input@.take(0)));
    assert(input@.skip(0) =~= input@);
    while i < len && input[i] != NEWLINE
        invariant
            i <= len == input@.len(),
            output@ == latin1(input@.take(i as int)),
            line_length(input@) == i + line_length(input@.skip(i as int)),
        decreases len - i,
    {
        output.push(input[i] as char);
        assert(input@.skip(i as int).drop_first() =~= input@.skip(i + 1));
        i += 1;
        assert(latin1(input@.take(i as int)) =~= latin1(input@.take(i - 1)).push(input@[i - 1] as char));
    }
    output
}

/// The first line holds no newline, and only what comes before the first newline counts.
pub proof fn only_the_first_line_counts(line: Seq<u8>, rest: Seq<u8>)
    requires
        !line.contains(NEWLINE),
    ensures
        first_line(line) == line,
        first_line(line.push(NEWLINE) + rest) == line,
    decreases line.len(),
{
    let input = line.push(NEWLINE) + rest;
    if line.len() == 0 {
        assert(input.first() == NEWLINE);
        assert(first_line(input) =~= line);
    } else {
        let tail = line.drop_first();
        assert(line.contains(line.first()));
        assert forall|i: int| 0 <= i < tail.len() implies tail[i] != NEWLINE by {
            assert(line.contains(line[i + 1]));
        }
        only_the_first_line_counts(tail, rest);
        assert(input.drop_first() =~= tail.push(NEWLINE) + rest);
        assert(first_line(tail).len() == line_length(tail)) by {
            line_length_is_bounded(tail);
        }
        line_length_is_bounded(tail.push(NEWLINE) + rest);
        assert(first_line(input) =~= line);
    }
    assert(first_line(line) =~= line) by {
        line_length_is_bounded(line);
        first_line_has_no_newline(line);
    }
}

/// The text holds no line break.
pub proof fn first_line_has_no_newline(input: Seq<u8>)
    ensures
        !first_line(input).contains(NEWLINE),
        line_length(input) < input.len() ==> input[line_length(input) as int] == NEWLINE,
    decreases input.len(),
{
    line_length_is_bounded(input);
    if input.len() > 0 && input.first() != NEWLINE {
        let tail = input.drop_first();
        first_line_has_no_newline(tail);
        line_length_is_bounded(tail);
        assert forall|i: int| 0 <= i < line_length(input) implies first_line(input)[i] != NEWLINE by {
            if i > 0 {
                assert(first_line(tail)[i - 1] == input[i]);
                assert(first_line(tail).contains(input[i]) || input[i] != NEWLINE);
            }
        }
    }
}

proof fn line_length_is_bounded(input: Seq<u8>)
    ensures
        line_length(input) <= input.len(),
    decreases input.len(),
{
    if input.len() > 0 && input.first() != NEWLINE {
        line_length_is_bounded(input.drop_first());
    }
}

/// Why no executable was found.
#[derive(Debug, PartialEq, Eq)]
pub enum BuildError<E> {
    /// The first line is not JSON, for this reason.
    NotJson(E),
    /// The first line names no executable.
    NoExecutable,
}

impl<E> BuildError<E> {
    /// What went wrong, in words.
    pub open spec fn text(self) -> Seq<char> {
        match self {
            BuildError::NotJson(_) => "failed to parse json output from `cargo-build`"@,
            BuildError::NoExecutable => "failed to find `executable` entry in cargo build json output"@,
        }
    }

    /// What went wrong, in words.
    pub fn message(&self) -> (message: &'static str)
        ensures
            message@ == self.text(),
    {
        match self {
            BuildError::NotJson(_) => "failed to parse json output from `cargo-build`",
            BuildError::NoExecutable => "failed to find `executable` entry in cargo build json output",
        }
    }

    /// The words of the whole failure to build the package, outermost first, down to the cause that the error holds.
    pub open spec fn texts(self, pkg: Seq<char>) -> Seq<Seq<char>> {
        seq![failed_build(pkg), self.text()]
    }

    /// The words of the whole failure to build the package, outermost first, down to the cause that the error holds.
    pub fn explain(&self, pkg: &str) -> (texts: Vec<String>)
        ensures
            text::views(texts@) == self.texts(pkg@),
    {
        text::pair(build_failure(pkg), self.message())
    }
}

/// What is told of a package that could not be built.
pub open spec fn failed_build(pkg: Seq<char>) -> Seq<char> {
    "failed while trying to build binary for cargo workspace package: "@ + pkg
}

/// Says which package could not be built.
pub fn build_failure(pkg: &str) -> (message: String)
    ensures
        message@ == failed_build(pkg@),
{
    text::joined("failed while trying to build binary for cargo workspace package: ", pkg)
}

/// The executable, given the entry for it, or why the line is not JSON.
pub fn find_executable<E>(entry: Result<Option<String>, E>) -> (r: Result<String, BuildError<E>>)
    ensures
        r == (match entry {
            Err(e) => Err(BuildError::NotJson(e)),
            Ok(None) => Err(BuildError::NoExecutable),
            Ok(Some(exe)) => Ok(exe),
        }),
{
    match entry {
        Err(e) => Err(BuildError::NotJson(e)),
        Ok(None) => Err(BuildError::NoExecutable),
        Ok(Some(exe)) => Ok(exe),
    }
}

/// The path of the executable that a build made, from what the build printed: the text under `executable` in the JSON
/// object on the first line.
pub fn copy_exe(stdout: Vec<u8>) -> (r: Result<String, BuildError<serde_json::Error>>)
    ensures
        match outside::text_under(latin1(first_line(stdout@)), "executable"@) {
            None => r matches Err(BuildError::NotJson(_)),
            Some(None) => r matches Err(BuildError::NoExecutable),
            Some(Some(exe)) => r matches Ok(text) && text@ == exe,
        },
{
    let line: String = preprocess_build_json(stdout);
    find_executable(outside::json_text_under(line.as_str(), "executable"))
}

/// The name of an executable: the last name of its path.
pub fn exe_name(exe: &str) -> (r: Option<String>)
    ensures
        match r {
            Some(name) => path::last_name(encode_utf8(exe@)) == Some(encode_utf8(name@)),
            None => path::last_name(encode_utf8(exe@)) is None,
        },
{
    match path::file_name(exe.as_bytes()) {
        None => None,
        Some(name) => {
            proof {
                encode_utf8_valid_utf8(exe@);
                path::names_are_utf8(encode_utf8(exe@));
            }
            match core::str::from_utf8(name.as_slice()) {
                Ok(name) => Some(name.to_owned()),
                Err(_) => None,
            }
        },
    }
}

/// The text holds the input's bytes from its start, each as the character with that number, up to the first newline or
/// the end. If they are ASCII, they are the text in UTF-8.
pub proof fn every_byte_is_kept(input: Seq<u8>)
    ensures
        ({
            let text = latin1(first_line(input));
            &&& text.len() <= input.len()
            &&& forall|i: int| 0 <= i < text.len() ==> #[trigger] text[i] as u32 == input[i] as u32 && input[i] != 0x0a
            &&& text.len() < input.len() ==> input[text.len() as int] == 0x0a
            &&& (forall|i: int| 0 <= i < text.len() ==> #[trigger] input[i] < 0x80) ==> encode_utf8(text) == input.take(
                text.len() as int,
            )
        }),
{
    let line = first_line(input);
    let text = latin1(line);
    line_length_is_bounded(input);
    first_line_has_no_newline(input);
    assert forall|i: int| 0 <= i < text.len() implies #[trigger] text[i] as u32 == input[i] as u32 && input[i]
        != 0x0a by {
        assert(text[i] == line[i] as char);
        assert(line.contains(line[i]));
    }
    if forall|i: int| 0 <= i < text.len() ==> #[trigger] input[i] < 0x80 {
        assert(is_ascii_chars(text)) by {
            assert forall|i: int| 0 <= i < text.len() implies '\0' <= #[trigger] text[i] <= '\u{7f}' by {
                assert(input[i] < 0x80);
            }
        }
        is_ascii_chars_encode_utf8(text);
        assert(encode_utf8(text) =~= input.take(text.len() as int));
    }
}

/// What is under a key: nothing that can be told if the text is not JSON; no text if it is not an object, or the key is
/// not there; and otherwise what the entry is.
pub proof fn entries_are_looked_up(json: Seq<char>, key: Seq<char>)
    ensures
        outside::json_object(json) is None <==> outside::text_under(json, key) is None,
        outside::json_object(json) matches Some(None) ==> outside::text_under(json, key) == Some(None::<Seq<char>>),
        outside::json_object(json) matches Some(Some(entries)) ==> outside::text_under(json, key) == Some(
            if entries.contains_key(key) {
                entries[key]
            } else {
                None
            },
        ),
{
}

/// The words of a failure name the package.
pub proof fn failures_name_their_package<E>(failure: BuildError<E>, pkg: Seq<char>)
    ensures
        failure.texts(pkg) == seq![
            "failed while trying to build binary for cargo workspace package: "@ + pkg,
            failure.text(),
        ],
{
}

} // verus!
