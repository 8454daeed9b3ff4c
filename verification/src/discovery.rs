//! Finds the parameter files of the tests among the entries of a directory.
//!
//! A parameter file is named by the number of its test and the extension of its parameter, as in `12.out`.
use vstd::prelude::*;
use vstd::utf8::*;
use crate::outside;
use crate::path;
use crate::test::Param;
use crate::text;
use crate::text::NumberError;

verus! {

/// An entry of the directory.
#[derive(Debug)]
pub struct DirEntry {
    pub path: Vec<u8>,
    pub is_file: bool,
}

/// A parameter file: where it is, the number of its test, and its parameter.
#[derive(Debug, PartialEq, Eq)]
pub struct TestFile {
    pub path: Vec<u8>,
    pub num: usize,
    pub param: Param,
}

/// A parameter file as a value.
pub struct TestFileView {
    pub path: Seq<u8>,
    pub num: usize,
    pub param: Param,
}

impl View for TestFile {
    type V = TestFileView;

    open spec fn view(&self) -> TestFileView {
        TestFileView { path: self.path@, num: self.num, param: self.param }
    }
}

/// What is wrong with the name of a file that has the extension of a parameter.
#[derive(Debug, Clone, Copy, PartialEq, Eq, Structural)]
pub enum NameError {
    /// The name is not UTF-8 before the extension.
    NotUtf8,
    /// The name is not a number before the extension, for this reason.
    NotANumber(NumberError),
}

impl NameError {
    /// What went wrong, in words.
    pub open spec fn text(self) -> Seq<char> {
        match self {
            NameError::NotUtf8 => "file contains non-utf8 codepoints"@,
            NameError::NotANumber(_) => "expected file to denote a test number in the suite"@,
        }
    }

    /// What went wrong, in words.
    pub fn message(self) -> (message: &'static str)
        ensures
            message@ == self.text(),
    {
        match self {
            NameError::NotUtf8 => "file contains non-utf8 codepoints",
            NameError::NotANumber(_) => "expected file to denote a test number in the suite",
        }
    }

    /// The words of the whole failure with the file at a path that is shown so, outermost first.
    pub open spec fn texts(self, path: Seq<char>) -> Seq<Seq<char>> {
        match self {
            NameError::NotUtf8 => seq![
                bad_entry(path),
                "expected utf-8-compliant values for each test; each test should denote a numeric value"@,
                self.text(),
            ],
            NameError::NotANumber(cause) => seq![bad_entry(path), self.text(), cause.text()],
        }
    }

    /// The words of the whole failure with the file at a path that is shown so, outermost first.
    pub fn explain(self, path: &str) -> (texts: Vec<String>)
        ensures
            text::views(texts@) == self.texts(path@),
    {
        let mut texts: Vec<String> = match self {
            NameError::NotUtf8 => text::pair(
                entry_failure(path),
                "expected utf-8-compliant values for each test; each test should denote a numeric value",
            ),
            NameError::NotANumber(_) => text::pair(entry_failure(path), self.message()),
        };
        let ghost outer = text::views(texts@);
        let cause: String = match self {
            NameError::NotUtf8 => self.message().to_owned(),
            NameError::NotANumber(cause) => cause.message().to_owned(),
        };
        assert(text::views(texts@.push(cause)) =~= outer.push(cause@));
        assert(outer.push(cause@) =~= self.texts(path@));
        texts.push(cause);
        texts
    }
}

/// What is told of an entry whose name is not what it should be.
pub open spec fn bad_entry(path: Seq<char>) -> Seq<char> {
    "failed when parsing `tests` directory entry: `"@ + path + "`"@
}

/// Says which entry has a name that is not what it should be.
pub fn entry_failure(path: &str) -> (message: String)
    ensures
        message@ == bad_entry(path@),
{
    text::around("failed when parsing `tests` directory entry: `", path, "`")
}

/// Says which entry could not be looked at.
pub fn metadata_failure(path: &str) -> (message: String)
    ensures
        message@ == "failed to read entry fs metadata when parsing `tests` directory entry: `"@ + path@ + "`"@,
{
    text::around("failed to read entry fs metadata when parsing `tests` directory entry: `", path, "`")
}

/// Why the entries could not be listed.
#[derive(Debug, PartialEq, Eq)]
pub enum EntryError<E> {
    /// An entry could not be looked at.
    Metadata(E),
    /// The file at this path has the extension of a parameter, but no test number for a name.
    Name(Vec<u8>, NameError),
}

/// A failure as a value.
pub enum EntryErrorView<E> {
    Metadata(E),
    Name(Seq<u8>, NameError),
}

impl<E> View for EntryError<E> {
    type V = EntryErrorView<E>;

    open spec fn view(&self) -> EntryErrorView<E> {
        match *self {
            EntryError::Metadata(e) => EntryErrorView::Metadata(e),
            EntryError::Name(path, cause) => EntryErrorView::Name(path@, cause),
        }
    }
}

/// The parameter that the extension of a path tells of, if any.
pub open spec fn param_of(path: Seq<u8>) -> Option<Param> {
    match path::last_name(path) {
        Some(name) => match path::extension_of(name) {
            Some(extension) => Param::of_extension(extension),
            None => None,
        },
        None => None,
    }
}

/// The test number that a stem writes.
pub open spec fn test_number(stem: Seq<u8>) -> Result<usize, NameError> {
    if !valid_utf8(stem) {
        Err(NameError::NotUtf8)
    } else {
        match text::usize_value(decode_utf8(stem)) {
            Ok(num) => Ok(num),
            Err(cause) => Err(NameError::NotANumber(cause)),
        }
    }
}

/// The parameter file that an entry is: none if it is no file or has another extension, and a failure if its name is
/// not a test number.
pub open spec fn listed(entry: DirEntry) -> Result<Option<TestFileView>, NameError> {
    if !entry.is_file {
        Ok(None)
    } else {
        match param_of(entry.path@) {
            Some(param) => match test_number(path::stem_of(path::last_name(entry.path@)->0)) {
                Ok(num) => Ok(Some(TestFileView { path: entry.path@, num, param })),
                Err(cause) => Err(cause),
            },
            None => Ok(None),
        }
    }
}

/// The parameter files found so far, with those that one more entry brings.
pub open spec fn listed_after<E>(
    found: Seq<TestFileView>,
    result: Result<DirEntry, E>,
) -> Result<Seq<TestFileView>, EntryErrorView<E>> {
    match result {
        Ok(entry) => match listed(entry) {
            Ok(Some(file)) => Ok(found.push(file)),
            Ok(None) => Ok(found),
            Err(cause) => Err(EntryErrorView::Name(entry.path@, cause)),
        },
        Err(e) => Err(EntryErrorView::Metadata(e)),
    }
}

/// The parameter files among the entries, in order, or what is wrong with the first entry with which something is.
pub open spec fn all_listed<E>(results: Seq<Result<DirEntry, E>>) -> Result<Seq<TestFileView>, EntryErrorView<E>>
    decreases results.len(),
{
    if results.len() == 0 {
        Ok(Seq::empty())
    } else {
        match all_listed(results.drop_last()) {
            Ok(found) => listed_after(found, results.last()),
            Err(e) => Err(e),
        }
    }
}

/// The parameter files as values.
pub open spec fn views(files: Seq<TestFile>) -> Seq<TestFileView> {
    files.map_values(|file: TestFile| file@)
}

/// The outcome is this list, or this failure.
pub open spec fn is_outcome<E>(
    r: Result<Vec<TestFile>, EntryError<E>>,
    expected: Result<Seq<TestFileView>, EntryErrorView<E>>,
) -> bool {
    match r {
        Ok(files) => expected == Ok::<Seq<TestFileView>, EntryErrorView<E>>(views(files@)),
        Err(e) => expected == Err::<Seq<TestFileView>, EntryErrorView<E>>(e@),
    }
}

/// The parameter file that an entry is.
pub fn proc_entry<E>(entry: DirEntry) -> (r: Result<Option<TestFile>, EntryError<E>>)
    ensures
        match r {
            Ok(Some(file)) => listed(entry) == Ok::<Option<TestFileView>, NameError>(Some(file@)),
            Ok(None) => listed(entry) == Ok::<Option<TestFileView>, NameError>(None),
            Err(e) => listed(entry) is Err && e@ == EntryErrorView::<E>::Name(entry.path@, listed(entry)->Err_0),
        },
{
    if !entry.is_file {
        return Ok(None);
    }
    let name: Vec<u8> = match path::file_name(entry.path.as_slice()) {
        Some(name) => name,
        None => {
            return Ok(None);
        },
    };
    match path::split_extension(name.as_slice()) {
        None => Ok(None),
        Some((stem, extension)) => match Param::from_extension(extension.as_slice()) {
            None => Ok(None),
            Some(param) => match core::str::from_utf8(stem.as_slice()) {
                Err(_) => Err(EntryError::Name(entry.path, NameError::NotUtf8)),
                Ok(digits) => {
                    proof {
                        encode_utf8_decode_utf8(digits@);
                    }
                    match text::parse_usize(digits) {
                        Err(cause) => Err(EntryError::Name(entry.path, NameError::NotANumber(cause))),
                        Ok(num) => Ok(Some(TestFile { path: entry.path, num, param })),
                    }
                },
            },
        },
    }
}

/// Adds the parameter file that one more entry is, if it is one.
pub fn add_entry<E>(found: Vec<TestFile>, result: Result<DirEntry, E>) -> (r: Result<Vec<TestFile>, EntryError<E>>)
    ensures
        is_outcome(r, listed_after(views(found@), result)),
{
    let mut found = found;
    match result {
        Err(e) => Err(EntryError::Metadata(e)),
        Ok(entry) => match proc_entry(entry) {
            Err(e) => Err(e),
            Ok(None) => Ok(found),
            Ok(Some(file)) => {
                assert(views(found@.push(file)) =~= views(found@).push(file@));
                found.push(file);
                Ok(found)
            },
        },
    }
}

/// Lists the parameter files among the entries, in order. `capacity` is how many there may be; it only saves memory
/// traffic.
pub fn proc_tests<E>(results: Vec<Result<DirEntry, E>>, capacity: usize) -> (r: Result<Vec<TestFile>, EntryError<E>>)
    ensures
        is_outcome(r, all_listed(results@)),
{
    let ghost all = results@;
    let room: usize = if capacity < results.len() {
        capacity
    } else {
        results.len()
    };
    let mut found: Vec<TestFile> = Vec::with_capacity(room);
    assert(views(found@) =~= Seq::empty());
    for result in it: results
        invariant
            it.seq() == all,
            all_listed(all.take(it.index() as int)) == Ok::<Seq<TestFileView>, EntryErrorView<E>>(views(found@)),
    {
        let ghost next = all.take(it.index() + 1);
        assert(next.drop_last() =~= all.take(it.index() as int));
        assert(next.last() == result);
        match add_entry(found, result) {
            Ok(more) => {
                found = more;
            },
            Err(e) => {
                proof {
                    failure_stays(all, it.index() + 1);
                }
                return Err(e);
            },
        }
    }
    assert(all.take(all.len() as int) =~= all);
    Ok(found)
}

/// Once something is wrong with an entry, later entries change nothing.
proof fn failure_stays<E>(results: Seq<Result<DirEntry, E>>, n: int)
    requires
        0 <= n <= results.len(),
        all_listed(results.take(n)) is Err,
    ensures
        all_listed(results) == all_listed(results.take(n)),
    decreases results.len(),
{
    if n == results.len() {
        assert(results.take(n) =~= results);
    } else {
        assert(results.drop_last().take(n) =~= results.take(n));
        failure_stays(results.drop_last(), n);
    }
}

/// The entries can be worked through in parts: putting together what the parts give, in order, is what all of them
/// give.
pub proof fn parts_make_the_whole<E>(first: Seq<Result<DirEntry, E>>, second: Seq<Result<DirEntry, E>>)
    ensures
        all_listed(first + second) == (match (all_listed(first), all_listed(second)) {
            (Ok(a), Ok(b)) => Ok(a + b),
            (Err(e), _) => Err(e),
            (Ok(_), Err(e)) => Err(e),
        }),
    decreases second.len(),
{
    if second.len() == 0 {
        assert(first + second =~= first);
        assert(all_listed(first) is Ok ==> all_listed(first)->Ok_0 + Seq::empty() =~= all_listed(first)->Ok_0);
    } else {
        assert((first + second).drop_last() =~= first + second.drop_last());
        assert((first + second).last() == second.last());
        parts_make_the_whole(first, second.drop_last());
        if let (Ok(a), Ok(b)) = (all_listed(first), all_listed(second.drop_last())) {
            if let Ok(entry) = second.last() {
                if let Ok(Some(file)) = listed(entry) {
                    assert((a + b).push(file) =~= a + b.push(file));
                }
            }
        }
    }
}

/// There are never more parameter files than entries.
pub proof fn no_more_files_than_entries<E>(results: Seq<Result<DirEntry, E>>)
    ensures
        all_listed(results) matches Ok(files) ==> files.len() <= results.len(),
    decreases results.len(),
{
    if results.len() > 0 {
        no_more_files_than_entries(results.drop_last());
    }
}

/// Every parameter file that is listed is a file among the entries, and its name is its test number and the extension
/// of its parameter.
pub proof fn listed_files_are_entries<E>(results: Seq<Result<DirEntry, E>>, i: int)
    requires
        all_listed(results) is Ok,
        0 <= i < all_listed(results)->Ok_0.len(),
    ensures
        ({
            let file = all_listed(results)->Ok_0[i];
            &&& exists|k: int|
                0 <= k < results.len() && (#[trigger] results[k] matches Ok(entry) && entry.is_file && entry.path@
                    == file.path)
            &&& path::last_name(file.path) matches Some(name) && path::extension_of(name) == Some(
                file.param.extension(),
            ) && test_number(path::stem_of(name)) == Ok::<usize, NameError>(file.num)
        }),
    decreases results.len(),
{
    let files = all_listed(results)->Ok_0;
    let before = all_listed(results.drop_last())->Ok_0;
    if i < before.len() {
        listed_files_are_entries(results.drop_last(), i);
        let k = choose|k: int|
            0 <= k < results.drop_last().len() && (#[trigger] results.drop_last()[k] matches Ok(entry) && entry.is_file
                && entry.path@ == before[i].path);
        assert(results[k] == results.drop_last()[k]);
        assert(files[i] == before[i]);
    } else {
        assert(results[results.len() - 1] == results.last());
    }
}

/// A look at the next entry of the directory.
#[derive(Debug, Clone, Copy, PartialEq, Eq, Structural)]
pub enum ScanEvent {
    /// There is one more entry.
    Entry,
    /// The next entry could not be read.
    ReadError,
    /// There are no more entries.
    End,
}

/// What to do after a look at the next entry.
#[derive(Debug, Clone, Copy, PartialEq, Eq, Structural)]
pub enum ScanAction {
    /// Start looking up what the entry is, and go on to the next.
    LookUp,
    /// Drop all that was started, and fail.
    Abort,
    /// Wait for what was started, and list the parameter files among this many entries.
    List(usize),
}

/// How far the directory has been read.
#[derive(Debug)]
pub struct DirScan {
    pub seen: usize,
}

impl DirScan {
    /// Nothing has been read.
    pub fn new() -> (scan: Self)
        ensures
            scan.seen == 0,
    {
        DirScan { seen: 0 }
    }

    /// How many entries have been seen, given how many before, after one more look.
    pub open spec fn seen_after(seen: nat, event: ScanEvent) -> nat {
        match event {
            ScanEvent::Entry => seen + 1,
            ScanEvent::ReadError | ScanEvent::End => seen,
        }
    }

    /// How many entries have been seen after all the looks.
    pub open spec fn seen_after_all(events: Seq<ScanEvent>) -> nat
        decreases events.len(),
    {
        if events.len() == 0 {
            0
        } else {
            DirScan::seen_after(DirScan::seen_after_all(events.drop_last()), events.last())
        }
    }

    /// Takes in a look at the next entry.
    pub fn step(&mut self, event: ScanEvent) -> (action: ScanAction)
        requires
            event is Entry ==> old(self).seen < usize::MAX,
        ensures
            final(self).seen == DirScan::seen_after(old(self).seen as nat, event),
            action == (match event {
                ScanEvent::Entry => ScanAction::LookUp,
                ScanEvent::ReadError => ScanAction::Abort,
                ScanEvent::End => ScanAction::List(old(self).seen),
            }),
    {
        match event {
            ScanEvent::Entry => {
                self.seen = self.seen + 1;
                ScanAction::LookUp
            },
            ScanEvent::ReadError => ScanAction::Abort,
            ScanEvent::End => ScanAction::List(self.seen),
        }
    }

    /// If every entry that was seen is looked up, the number of entries seen leaves room for all the parameter files
    /// among them.
    pub proof fn leaves_room_for_all<E>(events: Seq<ScanEvent>, results: Seq<Result<DirEntry, E>>)
        requires
            results.len() == events.filter(|event: ScanEvent| event is Entry).len(),
        ensures
            DirScan::seen_after_all(events) == results.len(),
            all_listed(results) matches Ok(files) ==> files.len() <= DirScan::seen_after_all(events),
    {
        DirScan::every_entry_is_counted(events);
        no_more_files_than_entries(results);
    }

    proof fn every_entry_is_counted(events: Seq<ScanEvent>)
        ensures
            DirScan::seen_after_all(events) == events.filter(|event: ScanEvent| event is Entry).len(),
        decreases events.len(),
    {
        reveal(Seq::filter);
        if events.len() > 0 {
            DirScan::every_entry_is_counted(events.drop_last());
        }
    }
}

/// Puts the parameter files in the order of their test numbers. Files of the same test may come in any order.
pub fn sort_tests(tests: Vec<TestFile>) -> (r: Vec<TestFile>)
    ensures
        r@.to_multiset() == tests@.to_multiset(),
        r@.len() == tests@.len(),
        forall|i: int, j: int| 0 <= i <= j < r@.len() ==> #[trigger] r@[i].num <= #[trigger] r@[j].num,
{
    let mut tests = tests;
    proof {
        tests@.to_multiset_ensures();
    }
    outside::par_sort_by_num(&mut tests);
    proof {
        tests@.to_multiset_ensures();
    }
    tests
}

/// A file that is named by a test number and the extension of a parameter is listed, under that number and that
/// parameter, whatever the number is and whatever directory the file is in.
pub proof fn numbered_files_are_listed<E>(entry: DirEntry, dir: Seq<u8>, num: usize, param: Param)
    requires
        entry.is_file,
        entry.path@ == dir.push(0x2f) + (encode_utf8(text::shown(num as nat)).push(0x2e) + param.extension()),
    ensures
        all_listed(seq![Ok::<DirEntry, E>(entry)]) == Ok::<Seq<TestFileView>, EntryErrorView<E>>(
            seq![TestFileView { path: entry.path@, num, param }],
        ),
{
    let digits = text::shown(num as nat);
    let stem = encode_utf8(digits);
    let extension = param.extension();
    let name = stem.push(0x2e) + extension;
    text::numbers_read_back(num, 0);
    text::shown_reads_back(num as nat, usize::MAX as nat, NumberError::PosOverflow);
    text::digits_within_the_limit_are_read(digits, usize::MAX as nat, NumberError::PosOverflow);
    assert(is_ascii_chars(digits)) by {
        assert forall|i: int| 0 <= i < digits.len() implies '\0' <= #[trigger] digits[i] <= '\u{7f}' by {
            assert(text::is_digit(digits[i]));
        }
    }
    is_ascii_chars_encode_utf8(digits);
    encode_utf8_valid_utf8(digits);
    encode_utf8_decode_utf8(digits);
    crate::test::extensions_are_as_listed(extension);
    Param::extensions_differ(param, param);
    assert forall|i: int| 0 <= i < name.len() implies #[trigger] name[i] != 0x2f by {
        if i < stem.len() {
            assert(text::is_digit(digits[i]));
            assert(name[i] == digits[i] as u8);
        } else if i > stem.len() {
            assert(name[i] == extension[i - stem.len() - 1]);
        }
    }
    assert(text::is_digit(digits[0]) && name[0] == digits[0] as u8);
    assert(name[0] != 0x2e);
    path::what_comes_after_the_last_slash_is_the_file_name(dir, name);
    path::a_name_is_divided_at_its_last_dot(stem, extension);
    one_entry_decides_alone(Ok::<DirEntry, E>(entry));
}

/// What one entry gives is decided by the entry alone. One that could not be looked at is a failure. One that is not a
/// file, or does not end in the extension of a parameter, gives nothing. Of any other, what is before the extension has
/// to be a number, and the file is listed under it.
pub proof fn one_entry_decides_alone<E>(result: Result<DirEntry, E>)
    ensures
        all_listed(seq![result]) == (match result {
            Err(e) => Err::<Seq<TestFileView>, EntryErrorView<E>>(EntryErrorView::Metadata(e)),
            Ok(entry) => match path::last_name(entry.path@) {
                Some(name) => match path::extension_of(name) {
                    Some(extension) => if entry.is_file && exists|param: Param| #[trigger]
                        param.extension() == extension {
                        let param = choose|param: Param| #[trigger] param.extension() == extension;
                        let stem = path::stem_of(name);
                        if !valid_utf8(stem) {
                            Err(EntryErrorView::Name(entry.path@, NameError::NotUtf8))
                        } else {
                            match text::usize_value(decode_utf8(stem)) {
                                Err(cause) => Err(EntryErrorView::Name(entry.path@, NameError::NotANumber(cause))),
                                Ok(num) => Ok(seq![TestFileView { path: entry.path@, num, param }]),
                            }
                        }
                    } else {
                        Ok(Seq::empty())
                    },
                    None => Ok(Seq::empty()),
                },
                None => Ok(Seq::empty()),
            },
        }),
{
    let results = seq![result];
    assert(results.drop_last() =~= Seq::empty());
    assert(results.last() == result);
    reveal_with_fuel(all_listed, 2);
    if let Ok(entry) = result {
        if let Ok(Some(file)) = listed(entry) {
            assert(Seq::empty().push(file) =~= seq![file]);
        }
        if let Some(name) = path::last_name(entry.path@) {
            if let Some(extension) = path::extension_of(name) {
                crate::test::extensions_are_as_listed(extension);
                if exists|param: Param| #[trigger] param.extension() == extension {
                    let param = choose|param: Param| #[trigger] param.extension() == extension;
                    Param::extensions_differ(param, param);
                }
            }
        }
    }
}

/// If the listing succeeds, every file that ends in the extension of a parameter is in it, under its number and its
/// parameter, and there are exactly as many as there are such files.
pub proof fn every_parameter_file_is_listed<E>(results: Seq<Result<DirEntry, E>>)
    requires
        all_listed(results) is Ok,
    ensures
        ({
            let files = all_listed(results)->Ok_0;
            let is_parameter_file = |result: Result<DirEntry, E>|
                result matches Ok(entry) && entry.is_file && (path::last_name(entry.path@) matches Some(name)
                    && path::extension_of(name) is Some && exists|param: Param| #[trigger]
                    param.extension() == path::extension_of(name)->0);
            &&& files.len() == results.filter(is_parameter_file).len()
            &&& forall|k: int| #![trigger results[k]]
                0 <= k < results.len() ==> results[k] is Ok && {
                    let entry = results[k]->Ok_0;
                    let name = path::last_name(entry.path@)->0;
                    is_parameter_file(results[k]) ==> exists|num: usize, param: Param|
                        #![trigger files.contains(TestFileView { path: entry.path@, num, param })]
                        {
                            &&& files.contains(TestFileView { path: entry.path@, num, param })
                            &&& text::usize_value(decode_utf8(path::stem_of(name))) == Ok::<usize, NumberError>(num)
                            &&& path::extension_of(name) == Some(param.extension())
                        }
                }
        }),
    decreases results.len(),
{
    reveal(Seq::filter);
    let is_parameter_file = |result: Result<DirEntry, E>|
        result matches Ok(entry) && entry.is_file && (path::last_name(entry.path@) matches Some(name)
            && path::extension_of(name) is Some && exists|param: Param| #[trigger]
            param.extension() == path::extension_of(name)->0);
    if results.len() > 0 {
        let before = results.drop_last();
        every_parameter_file_is_listed(before);
        let known = all_listed(before)->Ok_0;
        let files = all_listed(results)->Ok_0;
        let entry = results.last()->Ok_0;
        one_entry_decides_alone(results.last());
        if let Some(name) = path::last_name(entry.path@) {
            if let Some(extension) = path::extension_of(name) {
                crate::test::extensions_are_as_listed(extension);
                if exists|param: Param| #[trigger] param.extension() == extension {
                    let param = choose|param: Param| #[trigger] param.extension() == extension;
                    Param::extensions_differ(param, param);
                }
            }
        }
        assert forall|file: TestFileView| known.contains(file) implies #[trigger] files.contains(file) by {
            let i = choose|i: int| 0 <= i < known.len() && known[i] == file;
            assert(files[i] == file);
        }
        assert forall|k: int| #![trigger results[k]] 0 <= k < results.len() implies results[k] is Ok && {
            let entry = results[k]->Ok_0;
            let name = path::last_name(entry.path@)->0;
            is_parameter_file(results[k]) ==> exists|num: usize, param: Param|
                        #![trigger files.contains(TestFileView { path: entry.path@, num, param })]
                {
                    &&& files.contains(TestFileView { path: entry.path@, num, param })
                    &&& text::usize_value(decode_utf8(path::stem_of(name))) == Ok::<usize, NumberError>(num)
                    &&& path::extension_of(name) == Some(param.extension())
                }
        } by {
            if k < before.len() {
                assert(before[k] == results[k]);
                if is_parameter_file(results[k]) {
                    let entry = results[k]->Ok_0;
                    let name = path::last_name(entry.path@)->0;
                    let (num, param) = choose|num: usize, param: Param|
                        #![trigger known.contains(TestFileView { path: entry.path@, num, param })]
                        {
                            &&& known.contains(TestFileView { path: entry.path@, num, param })
                            &&& text::usize_value(decode_utf8(path::stem_of(name))) == Ok::<usize, NumberError>(num)
                            &&& path::extension_of(name) == Some(param.extension())
                        };
                    assert(files.contains(TestFileView { path: entry.path@, num, param }));
                }
            } else if is_parameter_file(results[k]) {
                let file = listed(entry)->Ok_0->0;
                assert(files == known.push(file));
                assert(files[known.len() as int] == file);
                assert(files.contains(TestFileView { path: entry.path@, num: file.num, param: file.param }));
            }
        }
    }
}

/// What is looked at of the files is what they hold.
pub proof fn views_hold_everything<E>(
    files: Seq<TestFile>,
    r: Result<Vec<TestFile>, EntryError<E>>,
    path: Vec<u8>,
    cause: NameError,
)
    ensures
        views(files).len() == files.len(),
        forall|i: int| #![trigger files[i]]
            0 <= i < files.len() ==> {
                &&& views(files)[i].path == files[i].path@
                &&& views(files)[i].num == files[i].num
                &&& views(files)[i].param == files[i].param
            },
        EntryError::<E>::Name(path, cause)@ == EntryErrorView::<E>::Name(path@, cause),
        forall|expected: Result<Seq<TestFileView>, EntryErrorView<E>>| #[trigger]
            is_outcome(r, expected) <==> (match (r, expected) {
                (Ok(found), Ok(all)) => views(found@) == all,
                (Err(e), Err(failure)) => e@ == failure,
                _ => false,
            }),
{
}

/// The words of a failure name the entry.
pub proof fn failures_name_their_entry(path: Seq<char>, cause: NumberError)
    ensures
        NameError::NotANumber(cause).texts(path) == seq![
            "failed when parsing `tests` directory entry: `"@ + path + "`"@,
            "expected file to denote a test number in the suite"@,
            cause.text(),
        ],
        NameError::NotUtf8.texts(path) == seq![
            "failed when parsing `tests` directory entry: `"@ + path + "`"@,
            "expected utf-8-compliant values for each test; each test should denote a numeric value"@,
            "file contains non-utf8 codepoints"@,
        ],
{
}

} // verus!
