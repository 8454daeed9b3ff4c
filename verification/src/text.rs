//! Text handling: white space, words and decimal numbers.
use vstd::prelude::*;

verus! {

/// `String::push` appends the character to the end of the string.
pub assume_specification[ String::push ](s: &mut String, ch: char)
    ensures
        final(s)@ == old(s)@.push(ch),
;

/// The Unicode property `White_Space`.
pub open spec fn is_white_space(c: char) -> bool {
    let u = c as u32;
    ||| 0x09 <= u <= 0x0d
    ||| u == 0x20
    ||| u == 0x85
    ||| u == 0xa0
    ||| u == 0x1680
    ||| 0x2000 <= u <= 0x200a
    ||| u == 0x2028
    ||| u == 0x2029
    ||| u == 0x202f
    ||| u == 0x205f
    ||| u == 0x3000
}

/// Tells whether the character has the Unicode property `White_Space`.
fn is_white(c: char) -> (b: bool)
    ensures
        b == is_white_space(c),
{
    let u: u32 = c as u32;
    (0x09 <= u && u <= 0x0d) || u == 0x20 || u == 0x85 || u == 0xa0 || u == 0x1680 || (0x2000 <= u && u <= 0x200a) || u
        == 0x2028 || u == 0x2029 || u == 0x202f || u == 0x205f || u == 0x3000
}

/// The characters of a text, in order.
pub fn chars_of(s: &str) -> (v: Vec<char>)
    ensures
        v@ == s@,
{
    let mut v: Vec<char> = Vec::new();
    for c in it: s.chars()
        invariant
            it.seq() == s@,
            v@ == s@.take(it.index() as int),
    {
        v.push(c);
        assert(s@.take(it.index() + 1) == s@.take(it.index() as int).push(c));
    }
    assert(s@.take(s@.len() as int) == s@);
    v
}

/// The texts as values.
pub open spec fn views(texts: Seq<String>) -> Seq<Seq<char>> {
    texts.map_values(|text: String| text@)
}

/// The text, in a list.
pub fn single(text: String) -> (r: Vec<String>)
    ensures
        views(r@) == seq![text@],
{
    let mut r: Vec<String> = Vec::new();
    r.push(text);
    assert(views(r@) =~= seq![text@]);
    r
}

/// The two texts, in a list.
pub fn pair(first: String, second: &str) -> (r: Vec<String>)
    ensures
        views(r@) == seq![first@, second@],
{
    let mut r: Vec<String> = Vec::new();
    r.push(first);
    r.push(second.to_owned());
    assert(views(r@) =~= seq![first@, second@]);
    r
}

/// Two texts, one after the other.
pub fn joined(first: &str, second: &str) -> (r: String)
    ensures
        r@ == first@ + second@,
{
    let mut r = String::new();
    r.append(first);
    r.append(second);
    assert(r@ =~= first@ + second@);
    r
}

/// A text between two others.
pub fn around(before: &str, text: &str, after: &str) -> (r: String)
    ensures
        r@ == before@ + text@ + after@,
{
    let mut r = String::new();
    r.append(before);
    r.append(text);
    r.append(after);
    assert(r@ =~= before@ + text@ + after@);
    r
}

/// The text made of the characters of `v` from `start` to `end`.
pub fn text_of(v: &Vec<char>, start: usize, end: usize) -> (s: String)
    requires
        start <= end <= v@.len(),
    ensures
        s@ == v@.subrange(start as int, end as int),
{
    let mut s = String::new();
    let mut i: usize = start;
    while i < end
        invariant
            start <= i <= end <= v@.len(),
            s@ == v@.subrange(start as int, i as int),
        decreases end - i,
    {
        s.push(v[i]);
        i += 1;
        assert(v@.subrange(start as int, i as int) == v@.subrange(start as int, i - 1).push(v@[i - 1]));
    }
    s
}

/// The text without the white space that it starts with.
pub open spec fn trimmed_start(s: Seq<char>) -> Seq<char>
    decreases s.len(),
{
    if s.len() > 0 && is_white_space(s.first()) {
        trimmed_start(s.drop_first())
    } else {
        s
    }
}

/// The text without the white space that it ends with.
pub open spec fn trimmed_end(s: Seq<char>) -> Seq<char>
    decreases s.len(),
{
    if s.len() > 0 && is_white_space(s.last()) {
        trimmed_end(s.drop_last())
    } else {
        s
    }
}

/// The text without the white space around it.
pub open spec fn trimmed(s: Seq<char>) -> Seq<char> {
    trimmed_end(trimmed_start(s))
}

/// Takes the white space around a text away.
pub fn trim(s: &str) -> (r: String)
    ensures
        r@ == trimmed(s@),
{
    let v: Vec<char> = chars_of(s);
    let len: usize = v.len();
    let mut start: usize = 0;
    assert(v@.subrange(0, len as int) == v@);
    while start < len && is_white(v[start])
        invariant
            start <= len == v@.len(),
            trimmed_start(v@) == trimmed_start(v@.subrange(start as int, len as int)),
        decreases len - start,
    {
        assert(v@.subrange(start as int, len as int).drop_first() == v@.subrange(start + 1, len as int));
        start += 1;
    }
    let mut end: usize = len;
    while start < end && is_white(v[end - 1])
        invariant
            start <= end <= len == v@.len(),
            trimmed_end(v@.subrange(start as int, len as int)) == trimmed_end(v@.subrange(start as int, end as int)),
        decreases end,
    {
        assert(v@.subrange(start as int, end as int).drop_last() == v@.subrange(start as int, end - 1));
        end -= 1;
    }
    text_of(&v, start, end)
}

/// The text without the dots and slashes that it starts with.
pub open spec fn without_dots_and_slashes(s: Seq<char>) -> Seq<char>
    decreases s.len(),
{
    if s.len() > 0 && (s.first() == '.' || s.first() == '/') {
        without_dots_and_slashes(s.drop_first())
    } else {
        s
    }
}

/// Takes the dots and slashes at the start of a text away.
pub fn trim_dots_and_slashes(s: &str) -> (r: String)
    ensures
        r@ == without_dots_and_slashes(s@),
{
    let v: Vec<char> = chars_of(s);
    let len: usize = v.len();
    let mut start: usize = 0;
    assert(v@.subrange(0, len as int) == v@);
    while start < len && (v[start] == '.' || v[start] == '/')
        invariant
            start <= len == v@.len(),
            without_dots_and_slashes(v@) == without_dots_and_slashes(v@.subrange(start as int, len as int)),
        decreases len - start,
    {
        assert(v@.subrange(start as int, len as int).drop_first() == v@.subrange(start + 1, len as int));
        start += 1;
    }
    text_of(&v, start, len)
}

/// A space, tab, line feed, form feed or carriage return.
pub open spec fn is_ascii_white_space(c: char) -> bool {
    c == ' ' || c == '\t' || c == '\n' || c == '\x0c' || c == '\r'
}

/// Where the word that the text ends with starts; the text's length if it does not end with a word.
pub open spec fn last_word_start(s: Seq<char>) -> int
    decreases s.len(),
{
    if s.len() == 0 || is_ascii_white_space(s.last()) {
        s.len() as int
    } else {
        last_word_start(s.drop_last())
    }
}

/// The words of a text: its longest runs of characters without ASCII white space.
pub open spec fn words(s: Seq<char>) -> Seq<Seq<char>>
    decreases s.len(),
{
    if s.len() == 0 {
        Seq::empty()
    } else if is_ascii_white_space(s.last()) {
        words(s.drop_last())
    } else {
        let start = last_word_start(s);
        if 0 <= start < s.len() {
            words(s.take(start)).push(s.skip(start))
        } else {
            Seq::empty()
        }
    }
}

proof fn lemma_last_word_start(s: Seq<char>, start: int)
    requires
        0 <= start <= s.len(),
        start == 0 || is_ascii_white_space(s[start - 1]),
        forall|i: int| start <= i < s.len() ==> !is_ascii_white_space(#[trigger] s[i]),
    ensures
        last_word_start(s) == start,
    decreases s.len(),
{
    if start < s.len() {
        assert(s.drop_last().len() == s.len() - 1);
        assert(forall|i: int| 0 <= i < s.len() - 1 ==> s.drop_last()[i] == s[i]);
        lemma_last_word_start(s.drop_last(), start);
    } else if s.len() > 0 {
        assert(s.last() == s[start - 1]);
    }
}

/// Splits a text into its words.
pub fn split_words(s: &str) -> (r: Vec<String>)
    ensures
        r@.map_values(|word: String| word@) == words(s@),
{
    let v: Vec<char> = chars_of(s);
    let len: usize = v.len();
    let mut found: Vec<String> = Vec::new();
    let mut start: usize = 0;
    let mut i: usize = 0;
    assert(found@.map_values(|word: String| word@) =~= words(v@.take(0)));
    while i < len
        invariant
            start <= i <= len == v@.len(),
            start == 0 || is_ascii_white_space(v@[start - 1]),
            forall|k: int| start <= k < i ==> !is_ascii_white_space(#[trigger] v@[k]),
            found@.map_values(|word: String| word@) == words(v@.take(start as int)),
        decreases len - i,
    {
        let c: char = v[i];
        if c == ' ' || c == '\t' || c == '\n' || c == '\x0c' || c == '\r' {
            if start < i {
                let word = text_of(&v, start, i);
                proof {
                    lemma_words_push(v@, start as int, i as int);
                    assert(found@.push(word).map_values(|word: String| word@) =~= found@.map_values(
                        |word: String| word@,
                    ).push(word@));
                }
                found.push(word);
            }
            proof {
                assert(v@.take(i + 1).drop_last() =~= v@.take(i as int));
            }
            start = i + 1;
        }
        i += 1;
    }
    if start < len {
        let word = text_of(&v, start, len);
        proof {
            lemma_words_push(v@, start as int, len as int);
            assert(found@.push(word).map_values(|word: String| word@) =~= found@.map_values(
                |word: String| word@,
            ).push(word@));
        }
        found.push(word);
    }
    assert(v@.take(len as int) =~= v@);
    found
}

proof fn lemma_words_push(s: Seq<char>, start: int, end: int)
    requires
        0 <= start < end <= s.len(),
        start == 0 || is_ascii_white_space(s[start - 1]),
        forall|i: int| start <= i < end ==> !is_ascii_white_space(#[trigger] s[i]),
    ensures
        words(s.take(end)) == words(s.take(start)).push(s.subrange(start, end)),
{
    let t = s.take(end);
    assert(t.last() == s[end - 1]);
    lemma_last_word_start(t, start);
    assert(t.take(start) =~= s.take(start));
    assert(t.skip(start) =~= s.subrange(start, end));
}

/// A text without ASCII white space is a single word.
pub proof fn single_word(s: Seq<char>)
    requires
        s.len() > 0,
        forall|i: int| 0 <= i < s.len() ==> !is_ascii_white_space(#[trigger] s[i]),
    ensures
        words(s) == seq![s],
{
    lemma_words_push(s, 0, s.len() as int);
    assert(s.take(s.len() as int) =~= s);
    assert(s.subrange(0, s.len() as int) =~= s);
    assert(words(s.take(0)) =~= Seq::empty());
    assert(Seq::<Seq<char>>::empty().push(s) =~= seq![s]);
}

/// Why a text is not a number.
#[derive(Debug, Clone, Copy, PartialEq, Eq, Structural)]
pub enum NumberError {
    /// The text is empty.
    Empty,
    /// There is a character that is not a digit, or there is no digit.
    InvalidDigit,
    /// The number is too large.
    PosOverflow,
    /// The number is too small.
    NegOverflow,
}

impl NumberError {
    /// What went wrong, in words.
    pub open spec fn text(self) -> Seq<char> {
        match self {
            NumberError::Empty => "cannot parse integer from empty string"@,
            NumberError::InvalidDigit => "invalid digit found in string"@,
            NumberError::PosOverflow => "number too large to fit in target type"@,
            NumberError::NegOverflow => "number too small to fit in target type"@,
        }
    }

    /// What went wrong, in words.
    pub fn message(self) -> (message: &'static str)
        ensures
            message@ == self.text(),
    {
        match self {
            NumberError::Empty => "cannot parse integer from empty string",
            NumberError::InvalidDigit => "invalid digit found in string",
            NumberError::PosOverflow => "number too large to fit in target type",
            NumberError::NegOverflow => "number too small to fit in target type",
        }
    }
}

/// The character is a decimal digit.
pub open spec fn is_digit(c: char) -> bool {
    '0' <= c <= '9'
}

/// The number with one more digit behind it.
pub open spec fn with_digit(n: nat, c: char) -> nat {
    n * 10 + (c as nat - '0' as nat) as nat
}

/// The number that the digits write.
pub open spec fn decimal(s: Seq<char>) -> nat
    decreases s.len(),
{
    if s.len() == 0 {
        0
    } else {
        with_digit(decimal(s.drop_last()), s.last())
    }
}

/// The number that the characters write, from left to right. The first that is not a digit, or that takes the number
/// beyond the limit, decides what is wrong.
pub open spec fn digits_value(s: Seq<char>, limit: nat, beyond: NumberError) -> Result<nat, NumberError>
    decreases s.len(),
{
    if s.len() == 0 {
        Ok(0)
    } else {
        match digits_value(s.drop_last(), limit, beyond) {
            Err(e) => Err(e),
            Ok(n) => if !is_digit(s.last()) {
                Err(NumberError::InvalidDigit)
            } else if with_digit(n, s.last()) > limit {
                Err(beyond)
            } else {
                Ok(with_digit(n, s.last()))
            },
        }
    }
}

/// The number that one or more digits write.
pub open spec fn unsigned_value(s: Seq<char>, limit: nat, beyond: NumberError) -> Result<nat, NumberError> {
    if s.len() == 0 {
        Err(NumberError::InvalidDigit)
    } else {
        digits_value(s, limit, beyond)
    }
}

/// The text without the sign that it starts with, if it does.
pub open spec fn without_sign(s: Seq<char>, sign: char) -> Seq<char> {
    if s.len() > 0 && s.first() == sign {
        s.drop_first()
    } else {
        s
    }
}

/// The `usize` that a text writes: digits, after a plus sign or none.
pub open spec fn usize_value(s: Seq<char>) -> Result<usize, NumberError> {
    if s.len() == 0 {
        Err(NumberError::Empty)
    } else {
        match unsigned_value(without_sign(s, '+'), usize::MAX as nat, NumberError::PosOverflow) {
            Ok(n) => Ok(n as usize),
            Err(e) => Err(e),
        }
    }
}

/// The `i32` that a text writes: digits, after a sign or none.
pub open spec fn i32_value(s: Seq<char>) -> Result<i32, NumberError> {
    if s.len() == 0 {
        Err(NumberError::Empty)
    } else if s.first() == '-' {
        match unsigned_value(s.drop_first(), 0x8000_0000, NumberError::NegOverflow) {
            Ok(n) => Ok((-n) as i32),
            Err(e) => Err(e),
        }
    } else {
        match unsigned_value(without_sign(s, '+'), i32::MAX as nat, NumberError::PosOverflow) {
            Ok(n) => Ok(n as i32),
            Err(e) => Err(e),
        }
    }
}

/// Digits are read exactly if they all are digits and the number that they write is within the limit.
pub proof fn digits_within_the_limit_are_read(s: Seq<char>, limit: nat, beyond: NumberError)
    ensures
        digits_value(s, limit, beyond) is Ok <==> {
            &&& forall|i: int| 0 <= i < s.len() ==> is_digit(#[trigger] s[i])
            &&& decimal(s) <= limit
        },
        digits_value(s, limit, beyond) matches Ok(n) ==> n == decimal(s),
    decreases s.len(),
{
    if s.len() > 0 {
        let before = s.drop_last();
        digits_within_the_limit_are_read(before, limit, beyond);
        assert(forall|i: int| 0 <= i < before.len() ==> before[i] == s[i]);
        assert(s.last() == s[s.len() - 1]);
        if digits_value(s, limit, beyond) is Ok {
            assert forall|i: int| 0 <= i < s.len() implies is_digit(#[trigger] s[i]) by {
                if i < before.len() {
                    assert(is_digit(before[i]));
                }
            }
        }
    }
}

/// Once something is wrong, later characters change nothing.
proof fn flaw_stays(s: Seq<char>, n: int, limit: nat, beyond: NumberError)
    requires
        0 <= n <= s.len(),
        digits_value(s.take(n), limit, beyond) is Err,
    ensures
        digits_value(s, limit, beyond) == digits_value(s.take(n), limit, beyond),
    decreases s.len(),
{
    if n == s.len() {
        assert(s.take(n) =~= s);
    } else {
        assert(s.drop_last().take(n) =~= s.take(n));
        flaw_stays(s.drop_last(), n, limit, beyond);
    }
}

/// The character that writes a number below ten.
pub open spec fn digit(n: nat) -> char {
    ('0' as nat + n) as char
}

/// The digits that write a number, without leading zeros.
pub open spec fn shown(n: nat) -> Seq<char>
    decreases n,
{
    if n < 10 {
        seq![digit(n)]
    } else {
        shown(n / 10).push(digit(n % 10))
    }
}

/// The digits that write an `i32`, after a minus sign if it is negative.
pub open spec fn i32_shown(n: i32) -> Seq<char> {
    if n < 0 {
        "-"@ + shown((-n) as nat)
    } else {
        shown(n as nat)
    }
}

/// Writes a number.
pub fn show(n: u64) -> (r: String)
    ensures
        r@ == shown(n as nat),
    decreases n,
{
    let mut r: String = if n < 10 {
        String::new()
    } else {
        show(n / 10)
    };
    let last: u8 = (n % 10) as u8;
    r.push((0x30u8 + last) as char);
    assert(r@ =~= shown(n as nat));
    r
}

/// Writes an `i32`.
pub fn show_i32(n: i32) -> (r: String)
    ensures
        r@ == i32_shown(n),
{
    if n < 0 {
        joined("-", show((-(n as i64)) as u64).as_str())
    } else {
        show(n as u64)
    }
}

/// What a number is written as reads as the same number.
pub proof fn shown_reads_back(n: nat, limit: nat, beyond: NumberError)
    requires
        n <= limit,
    ensures
        unsigned_value(shown(n), limit, beyond) == Ok::<nat, NumberError>(n),
        is_digit(shown(n).first()),
    decreases n,
{
    if n < 10 {
        assert(shown(n).drop_last() =~= Seq::empty());
    } else {
        shown_reads_back(n / 10, limit, beyond);
        assert(shown(n).drop_last() =~= shown(n / 10));
        assert(shown(n).first() == shown(n / 10).first());
    }
}

/// What a `usize` or an `i32` is written as reads as the same number.
pub proof fn numbers_read_back(n: usize, k: i32)
    ensures
        usize_value(shown(n as nat)) == Ok::<usize, NumberError>(n),
        i32_value(i32_shown(k)) == Ok::<i32, NumberError>(k),
{
    shown_reads_back(n as nat, usize::MAX as nat, NumberError::PosOverflow);
    if k < 0 {
        shown_reads_back((-k) as nat, 0x8000_0000, NumberError::NegOverflow);
        reveal_strlit("-");
        assert(i32_shown(k).drop_first() =~= shown((-k) as nat));
    } else {
        shown_reads_back(k as nat, i32::MAX as nat, NumberError::PosOverflow);
    }
}

/// Reads the number that the characters from `start` on write.
fn magnitude(v: &Vec<char>, start: usize, limit: u64, beyond: NumberError) -> (r: Result<u64, NumberError>)
    requires
        start <= v@.len(),
    ensures
        match unsigned_value(v@.skip(start as int), limit as nat, beyond) {
            Ok(n) => r matches Ok(value) && value == n,
            Err(e) => r == Err::<u64, NumberError>(e),
        },
        r matches Ok(value) ==> value <= limit,
{
    let ghost digits = v@.skip(start as int);
    let len: usize = v.len();
    if start == len {
        return Err(NumberError::InvalidDigit);
    }
    let mut value: u64 = 0;
    let mut i: usize = start;
    while i < len
        invariant
            start <= i <= len == v@.len(),
            start < len,
            digits == v@.skip(start as int),
            digits_value(digits.take(i - start), limit as nat, beyond) == Ok::<nat, NumberError>(value as nat),
            value <= limit,
        decreases len - i,
    {
        let c: char = v[i];
        let ghost next = digits.take(i - start + 1);
        assert(next.drop_last() =~= digits.take(i - start));
        assert(next.last() == c);
        if c < '0' || c > '9' {
            proof {
                flaw_stays(digits, i - start + 1, limit as nat, beyond);
            }
            return Err(NumberError::InvalidDigit);
        }
        let digit: u64 = c as u64 - '0' as u64;
        if digit > limit || value > (limit - digit) / 10 {
            proof {
                flaw_stays(digits, i - start + 1, limit as nat, beyond);
            }
            return Err(beyond);
        }
        value = value * 10 + digit;
        i += 1;
    }
    assert(digits.take(len - start) =~= digits);
    Ok(value)
}

/// Reads a `usize`.
pub fn parse_usize(s: &str) -> (r: Result<usize, NumberError>)
    ensures
        r == usize_value(s@),
{
    let v: Vec<char> = chars_of(s);
    if v.len() == 0 {
        return Err(NumberError::Empty);
    }
    let start: usize = if v[0] == '+' {
        1
    } else {
        0
    };
    assert(v@.skip(start as int) =~= without_sign(s@, '+'));
    match magnitude(&v, start, usize::MAX as u64, NumberError::PosOverflow) {
        Ok(n) => Ok(n as usize),
        Err(e) => Err(e),
    }
}

/// Reads an `i32`.
pub fn parse_i32(s: &str) -> (r: Result<i32, NumberError>)
    ensures
        r == i32_value(s@),
{
    let v: Vec<char> = chars_of(s);
    if v.len() == 0 {
        return Err(NumberError::Empty);
    }
    if v[0] == '-' {
        assert(v@.skip(1) =~= s@.drop_first());
        return match magnitude(&v, 1, 0x8000_0000, NumberError::NegOverflow) {
            Ok(n) => Ok((-(n as i64)) as i32),
            Err(e) => Err(e),
        };
    }
    let start: usize = if v[0] == '+' {
        1
    } else {
        0
    };
    assert(v@.skip(start as int) =~= without_sign(s@, '+'));
    match magnitude(&v, start, 0x7fff_ffff, NumberError::PosOverflow) {
        Ok(n) => Ok(n as i32),
        Err(e) => Err(e),
    }
}

/// The five characters that separate words are the space, the tab, the line feed, the form feed and the carriage
/// return.
pub proof fn white_space_between_words(c: char)
    ensures
        is_ascii_white_space(c) <==> seq![0x20u32, 0x09, 0x0a, 0x0c, 0x0d].contains(c as u32),
{
    let codes = seq![0x20u32, 0x09, 0x0a, 0x0c, 0x0d];
    assert(codes[0] == 0x20 && codes[1] == 0x09 && codes[2] == 0x0a && codes[3] == 0x0c && codes[4] == 0x0d);
}

/// A character is white space exactly if it is one of the 25 that Unicode lists.
pub proof fn white_space_is_as_listed(c: char)
    ensures
        is_white_space(c) <==> seq![
            0x09u32, 0x0a, 0x0b, 0x0c, 0x0d, 0x20, 0x85, 0xa0, 0x1680, 0x2000, 0x2001, 0x2002, 0x2003, 0x2004, 0x2005,
            0x2006, 0x2007, 0x2008, 0x2009, 0x200a, 0x2028, 0x2029, 0x202f, 0x205f, 0x3000,
        ].contains(c as u32),
{
    let codes = seq![
        0x09u32, 0x0a, 0x0b, 0x0c, 0x0d, 0x20, 0x85, 0xa0, 0x1680, 0x2000, 0x2001, 0x2002, 0x2003, 0x2004, 0x2005,
        0x2006, 0x2007, 0x2008, 0x2009, 0x200a, 0x2028, 0x2029, 0x202f, 0x205f, 0x3000,
    ];
    let u = c as u32;
    if 0x09 <= u <= 0x0d {
        assert(codes[u - 0x09] == u);
    } else if 0x2000 <= u <= 0x200a {
        assert(codes[u - 0x2000 + 9] == u);
    } else {
        assert(codes[5] == 0x20 && codes[6] == 0x85 && codes[7] == 0xa0 && codes[8] == 0x1680);
        assert(codes[20] == 0x2028 && codes[21] == 0x2029 && codes[22] == 0x202f && codes[23] == 0x205f);
        assert(codes[24] == 0x3000);
    }
    if codes.contains(u) {
        let i = choose|i: int| 0 <= i < codes.len() && codes[i] == u;
        assert(is_white_space(c));
    }
}

/// White space separates words, and does nothing else: the words of two texts with white space between them are those
/// of the one, then those of the other.
pub proof fn white_space_separates_words(before: Seq<char>, white: char, after: Seq<char>)
    requires
        seq![0x20u32, 0x09, 0x0a, 0x0c, 0x0d].contains(white as u32),
    ensures
        words(before.push(white) + after) == words(before) + words(after),
    decreases after.len(),
{
    white_space_between_words(white);
    let all = before.push(white) + after;
    if after.len() == 0 {
        assert(all =~= before.push(white));
        assert(all.drop_last() =~= before);
        assert(words(before) + words(after) =~= words(before));
    } else if is_ascii_white_space(after.last()) {
        assert(all.drop_last() =~= before.push(white) + after.drop_last());
        white_space_separates_words(before, white, after.drop_last());
    } else {
        let start = last_word_start(after);
        lemma_last_word_bounds(after);
        let shift = before.len() + 1;
        assert forall|i: int| shift + start <= i < all.len() implies !is_ascii_white_space(#[trigger] all[i]) by {
            assert(all[i] == after[i - shift]);
        }
        if start > 0 {
            assert(all[shift + start - 1] == after[start - 1]);
        } else {
            assert(all[shift - 1] == white);
        }
        lemma_last_word_start(all, shift + start);
        assert(all.take(shift + start) =~= before.push(white) + after.take(start));
        assert(all.skip(shift + start) =~= after.skip(start));
        assert(all.last() == after.last());
        white_space_separates_words(before, white, after.take(start));
        assert((words(before) + words(after.take(start))).push(after.skip(start)) =~= words(before) + words(
            after.take(start),
        ).push(after.skip(start)));
    }
}

proof fn lemma_last_word_bounds(s: Seq<char>)
    ensures
        0 <= last_word_start(s) <= s.len(),
        last_word_start(s) == 0 || is_ascii_white_space(s[last_word_start(s) - 1]),
        forall|i: int| last_word_start(s) <= i < s.len() ==> !is_ascii_white_space(#[trigger] s[i]),
        s.len() > 0 && !is_ascii_white_space(s.last()) ==> last_word_start(s) < s.len(),
    decreases s.len(),
{
    if s.len() > 0 && !is_ascii_white_space(s.last()) {
        let shorter = s.drop_last();
        lemma_last_word_bounds(shorter);
        assert forall|i: int| last_word_start(s) <= i < s.len() implies !is_ascii_white_space(#[trigger] s[i]) by {
            if i < shorter.len() {
                assert(shorter[i] == s[i]);
            }
        }
        if last_word_start(s) > 0 {
            assert(shorter[last_word_start(s) - 1] == s[last_word_start(s) - 1]);
        }
    }
}

/// A text without white space is a word as it stands, and the empty text has no words.
pub proof fn what_is_not_separated_is_one_word(s: Seq<char>)
    requires
        forall|i: int| 0 <= i < s.len() ==> !seq![0x20u32, 0x09, 0x0a, 0x0c, 0x0d].contains(#[trigger] s[i] as u32),
    ensures
        words(s) == (if s.len() == 0 {
            Seq::<Seq<char>>::empty()
        } else {
            seq![s]
        }),
{
    assert forall|i: int| 0 <= i < s.len() implies !is_ascii_white_space(#[trigger] s[i]) by {
        white_space_between_words(s[i]);
    }
    if s.len() > 0 {
        single_word(s);
    }
}

/// Trimming takes white space away at either end, and nothing else.
pub proof fn trimming_takes_only_white_space(s: Seq<char>, white: char)
    requires
        is_white_space(white),
    ensures
        trimmed(seq![white] + s) == trimmed(s),
        trimmed(s.push(white)) == trimmed(s),
        s.len() > 0 && !is_white_space(s.first()) && !is_white_space(s.last()) ==> trimmed(s) == s,
        trimmed(Seq::empty()) == Seq::<char>::empty(),
{
    assert((seq![white] + s).drop_first() =~= s);
    lemma_trimmed_start_push(s, white);
}

proof fn lemma_trimmed_start_push(s: Seq<char>, white: char)
    requires
        is_white_space(white),
    ensures
        trimmed_end(trimmed_start(s.push(white))) == trimmed_end(trimmed_start(s)),
    decreases s.len(),
{
    let longer = s.push(white);
    if s.len() == 0 {
        assert(longer.drop_first() =~= s);
    } else if is_white_space(s.first()) {
        assert(longer.drop_first() =~= s.drop_first().push(white));
        lemma_trimmed_start_push(s.drop_first(), white);
    } else {
        assert(longer.drop_last() =~= s);
    }
}

/// A dot or a slash in front is taken away, and nothing else.
pub proof fn only_dots_and_slashes_are_taken(s: Seq<char>, c: char)
    ensures
        c as u32 == 0x2e || c as u32 == 0x2f ==> without_dots_and_slashes(seq![c] + s) == without_dots_and_slashes(s),
        c as u32 != 0x2e && c as u32 != 0x2f ==> without_dots_and_slashes(seq![c] + s) == seq![c] + s,
        without_dots_and_slashes(Seq::empty()) == Seq::<char>::empty(),
{
    assert((seq![c] + s).drop_first() =~= s);
}

/// How a `usize` is read: a digit behind a number makes it ten times as large, and adds its value; anything else, or a
/// number that does not fit, is refused for good; and a plus sign in front changes nothing.
pub proof fn usize_is_read_digit_by_digit(s: Seq<char>, c: char)
    ensures
        usize_value(Seq::empty()) == Err::<usize, NumberError>(NumberError::Empty),
        usize_value(seq![c]) == (if 0x30 <= c as u32 <= 0x39 {
            Ok::<usize, NumberError>((c as u32 - 0x30) as usize)
        } else {
            Err(NumberError::InvalidDigit)
        }),
        usize_value(s) matches Ok(n) ==> usize_value(s.push(c)) == (if !(0x30 <= c as u32 <= 0x39) {
            Err::<usize, NumberError>(NumberError::InvalidDigit)
        } else if n * 10 + (c as u32 - 0x30) > usize::MAX {
            Err(NumberError::PosOverflow)
        } else {
            Ok((n * 10 + (c as u32 - 0x30)) as usize)
        }),
        s.len() > 0 && s != seq!['+'] && usize_value(s) is Err ==> usize_value(s.push(c)) == usize_value(s),
        s.len() > 0 && s.first() != '+' ==> usize_value(seq!['+'] + s) == usize_value(s),
        s.len() > 0 && s.first() == '+' ==> usize_value(seq!['+'] + s) == Err::<usize, NumberError>(
            NumberError::InvalidDigit,
        ),
{
    let limit = usize::MAX as nat;
    lemma_one_digit(c, limit, NumberError::PosOverflow);
    if c == '+' {
        assert(seq![c].drop_first() =~= Seq::empty());
    }
    let digits = without_sign(s, '+');
    if s.len() > 0 {
        assert(s.push(c).first() == s.first());
        assert(without_sign(s.push(c), '+') =~= digits.push(c));
        assert(digits.push(c).drop_last() =~= digits);
        if s.first() == '+' && digits.len() == 0 {
            assert(s =~= seq!['+']);
        }
    }
    let signed = seq!['+'] + s;
    assert(signed.drop_first() =~= s);
    if s.len() > 0 && s.first() == '+' {
        lemma_bad_start(s, limit, NumberError::PosOverflow);
    }
}

/// How an `i32` is read without a minus sign: as a `usize` is, up to the largest `i32`.
pub proof fn i32_is_read_digit_by_digit(s: Seq<char>, c: char)
    requires
        s.len() > 0 ==> s.first() != '-',
    ensures
        i32_value(Seq::empty()) == Err::<i32, NumberError>(NumberError::Empty),
        i32_value(seq![c]) == (if 0x30 <= c as u32 <= 0x39 {
            Ok::<i32, NumberError>((c as u32 - 0x30) as i32)
        } else {
            Err(NumberError::InvalidDigit)
        }),
        i32_value(s) matches Ok(n) ==> i32_value(s.push(c)) == (if !(0x30 <= c as u32 <= 0x39) {
            Err::<i32, NumberError>(NumberError::InvalidDigit)
        } else if n * 10 + (c as u32 - 0x30) > i32::MAX {
            Err(NumberError::PosOverflow)
        } else {
            Ok((n * 10 + (c as u32 - 0x30)) as i32)
        }),
        s.len() > 0 && s != seq!['+'] && i32_value(s) is Err ==> i32_value(s.push(c)) == i32_value(s),
        s.len() > 0 && s.first() != '+' ==> i32_value(seq!['+'] + s) == i32_value(s),
        s.len() > 0 && s.first() == '+' ==> i32_value(seq!['+'] + s) == Err::<i32, NumberError>(
            NumberError::InvalidDigit,
        ),
{
    let limit = i32::MAX as nat;
    lemma_one_digit(c, limit, NumberError::PosOverflow);
    if c == '+' || c == '-' {
        assert(seq![c].drop_first() =~= Seq::empty());
    }
    let digits = without_sign(s, '+');
    if s.len() > 0 {
        assert(s.push(c).first() == s.first());
        assert(without_sign(s.push(c), '+') =~= digits.push(c));
        assert(digits.push(c).drop_last() =~= digits);
        lemma_within_limit(digits, limit, NumberError::PosOverflow);
        if s.first() == '+' && digits.len() == 0 {
            assert(s =~= seq!['+']);
        }
    }
    let signed = seq!['+'] + s;
    assert(signed.drop_first() =~= s);
    if s.len() > 0 && s.first() == '+' {
        lemma_bad_start(s, limit, NumberError::PosOverflow);
    }
}

/// How an `i32` is read with a minus sign: digit by digit, down to the smallest `i32`.
pub proof fn negative_i32_is_read_digit_by_digit(s: Seq<char>, c: char)
    ensures
        i32_value(seq!['-']) == Err::<i32, NumberError>(NumberError::InvalidDigit),
        i32_value(seq!['-', c]) == (if 0x30 <= c as u32 <= 0x39 {
            Ok::<i32, NumberError>((-(c as u32 - 0x30)) as i32)
        } else {
            Err(NumberError::InvalidDigit)
        }),
        i32_value(seq!['-'] + s) matches Ok(n) ==> i32_value((seq!['-'] + s).push(c)) == (if !(0x30 <= c as u32
            <= 0x39) {
            Err::<i32, NumberError>(NumberError::InvalidDigit)
        } else if n * 10 - (c as u32 - 0x30) < i32::MIN {
            Err(NumberError::NegOverflow)
        } else {
            Ok((n * 10 - (c as u32 - 0x30)) as i32)
        }),
        s.len() > 0 && i32_value(seq!['-'] + s) is Err ==> i32_value((seq!['-'] + s).push(c)) == i32_value(
            seq!['-'] + s,
        ),
{
    let limit = 0x8000_0000nat;
    lemma_one_digit(c, limit, NumberError::NegOverflow);
    assert(seq!['-'].drop_first() =~= Seq::empty());
    assert(seq!['-', c].drop_first() =~= seq![c]);
    let signed = seq!['-'] + s;
    assert(signed.drop_first() =~= s);
    assert(signed.push(c).drop_first() =~= s.push(c));
    assert(signed.push(c).first() == '-');
    assert(s.push(c).drop_last() =~= s);
    lemma_within_limit(s, limit, NumberError::NegOverflow);
}

proof fn lemma_one_digit(c: char, limit: nat, beyond: NumberError)
    requires
        limit >= 9,
    ensures
        digits_value(seq![c], limit, beyond) == (if is_digit(c) {
            Ok::<nat, NumberError>((c as nat - '0' as nat) as nat)
        } else {
            Err(NumberError::InvalidDigit)
        }),
{
    assert(seq![c].drop_last() =~= Seq::empty());
    reveal_with_fuel(digits_value, 2);
}

proof fn lemma_bad_start(s: Seq<char>, limit: nat, beyond: NumberError)
    requires
        s.len() > 0,
        !is_digit(s.first()),
    ensures
        digits_value(s, limit, beyond) == Err::<nat, NumberError>(NumberError::InvalidDigit),
{
    assert(s.take(1) =~= seq![s.first()]);
    assert(s.take(1).drop_last() =~= Seq::empty());
    reveal_with_fuel(digits_value, 2);
    flaw_stays(s, 1, limit, beyond);
}

proof fn lemma_within_limit(s: Seq<char>, limit: nat, beyond: NumberError)
    ensures
        digits_value(s, limit, beyond) matches Ok(n) ==> n <= limit,
{
}

/// A number is written in digits alone, without leading zeros.
pub proof fn no_leading_zeros(n: nat)
    ensures
        shown(n).len() > 0,
        forall|i: int| 0 <= i < shown(n).len() ==> 0x30 <= #[trigger] shown(n)[i] as u32 <= 0x39,
        shown(n).len() > 1 ==> shown(n).first() as u32 != 0x30,
        n > 0 ==> shown(n).first() as u32 != 0x30,
    decreases n,
{
    if n >= 10 {
        no_leading_zeros(n / 10);
        assert(shown(n).first() == shown(n / 10).first());
        assert forall|i: int| 0 <= i < shown(n).len() implies 0x30 <= #[trigger] shown(n)[i] as u32 <= 0x39 by {
            if i < shown(n / 10).len() {
                assert(shown(n)[i] == shown(n / 10)[i]);
            }
        }
    }
}

/// Only a negative number is written with a sign, and that is a minus sign in front of its digits.
pub proof fn only_negative_numbers_have_a_sign(n: i32)
    ensures
        n >= 0 ==> i32_shown(n) == shown(n as nat),
        n < 0 ==> i32_shown(n) == seq!['-'] + shown((-n) as nat),
{
    reveal_strlit("-");
    assert("-"@ =~= seq!['-']);
}

/// What is looked at of the texts is what they hold.
pub proof fn views_hold_everything(texts: Seq<String>)
    ensures
        views(texts).len() == texts.len(),
        forall|i: int| 0 <= i < texts.len() ==> views(texts)[i] == (#[trigger] texts[i])@,
{
}

} // verus!
