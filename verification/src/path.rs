//! Paths as bytes, with `/` between the names.
//!
//! Repeated slashes, slashes at the end, and segments that are a single dot do not count, except for a dot that the
//! path starts with.
use vstd::prelude::*;
use vstd::utf8::*;
use crate::outside;

verus! {

/// The byte between the names of a path.
pub const SLASH: u8 = 0x2f;

/// The byte in front of an extension.
pub const DOT: u8 = 0x2e;

/// Where the last segment starts: after the last slash at `from` or later, and at `from` if there is none.
pub open spec fn segment_start(path: Seq<u8>, from: int) -> int
    decreases path.len(),
{
    if path.len() <= from || path.len() == 0 || path.last() == SLASH {
        path.len() as int
    } else {
        segment_start(path.drop_last(), from)
    }
}

/// The segment names nothing: it is empty or a single dot.
pub open spec fn is_trivial(segment: Seq<u8>) -> bool {
    segment.len() == 0 || segment == seq![DOT]
}

/// The names in a path, in order.
pub open spec fn names(path: Seq<u8>) -> Seq<Seq<u8>>
    decreases path.len(),
{
    if path.len() == 0 {
        Seq::empty()
    } else {
        let start = segment_start(path, 0);
        let segment = path.skip(start);
        let before = if 0 < start <= path.len() {
            names(path.take(start - 1))
        } else {
            Seq::empty()
        };
        if is_trivial(segment) {
            before
        } else {
            before.push(segment)
        }
    }
}

/// The path starts at the root.
pub open spec fn is_rooted(path: Seq<u8>) -> bool {
    path.len() > 0 && path[0] == SLASH
}

/// The path's first segment is a single dot.
pub open spec fn starts_with_dot(path: Seq<u8>) -> bool {
    path.len() > 0 && path[0] == DOT && (path.len() == 1 || path[1] == SLASH)
}

/// Both paths name the same place in the same way.
pub open spec fn is_same(a: Seq<u8>, b: Seq<u8>) -> bool {
    &&& is_rooted(a) == is_rooted(b)
    &&& starts_with_dot(a) == starts_with_dot(b)
    &&& names(a) == names(b)
}

/// The last name of a path, unless it points up.
pub open spec fn last_name(path: Seq<u8>) -> Option<Seq<u8>> {
    if names(path).len() > 0 && names(path).last() != seq![DOT, DOT] {
        Some(names(path).last())
    } else {
        None
    }
}

/// Where the last dot of a name is, and -1 if it has none.
pub open spec fn last_dot(name: Seq<u8>) -> int
    decreases name.len(),
{
    if name.len() == 0 {
        -1
    } else if name.last() == DOT {
        name.len() - 1
    } else {
        last_dot(name.drop_last())
    }
}

/// The part of a name before the last dot; all of it if the only dot is in front, or none is there.
pub open spec fn stem_of(name: Seq<u8>) -> Seq<u8> {
    if 0 < last_dot(name) {
        name.take(last_dot(name))
    } else {
        name
    }
}

/// The part of a name after the last dot, unless the only dot is in front.
pub open spec fn extension_of(name: Seq<u8>) -> Option<Seq<u8>> {
    if 0 < last_dot(name) {
        Some(name.skip(last_dot(name) + 1))
    } else {
        None
    }
}

/// Where the names of a path start.
pub open spec fn body_start(path: Seq<u8>) -> int {
    if is_rooted(path) || starts_with_dot(path) {
        1
    } else {
        0
    }
}

/// The path without its last segment and the slash in front of it; `from` is where the names start.
pub open spec fn without_segment(path: Seq<u8>, from: int) -> Seq<u8> {
    let start = segment_start(path, from);
    path.take(if start <= from { from } else { start - 1 })
}

/// The path without the segments at its end that name nothing; `from` is where the names start.
pub open spec fn without_trivial(path: Seq<u8>, from: int) -> Seq<u8>
    decreases path.len(),
{
    let shorter = without_segment(path, from);
    if path.len() > from && shorter.len() < path.len() && is_trivial(path.skip(segment_start(path, from))) {
        without_trivial(shorter, from)
    } else {
        path
    }
}

/// The path without its last name. There is none for the root and the empty path.
pub open spec fn parent_of(path: Seq<u8>) -> Option<Seq<u8>> {
    let from = body_start(path);
    let trimmed = without_trivial(path, from);
    if trimmed.len() > from {
        Some(without_trivial(without_segment(trimmed, from), from))
    } else if starts_with_dot(path) {
        Some(Seq::empty())
    } else {
        None
    }
}

proof fn lemma_segment_start(path: Seq<u8>, from: int, start: int)
    requires
        0 <= from <= start <= path.len(),
        start == from || path[start - 1] == SLASH,
        forall|i: int| start <= i < path.len() ==> #[trigger] path[i] != SLASH,
    ensures
        segment_start(path, from) == start,
    decreases path.len(),
{
    if start < path.len() {
        assert(forall|i: int| 0 <= i < path.len() - 1 ==> path.drop_last()[i] == path[i]);
        lemma_segment_start(path.drop_last(), from, start);
    } else if path.len() > from {
        assert(path.last() == path[start - 1]);
    }
}

/// The bytes from `start` to `end`.
pub fn copy_of(bytes: &[u8], start: usize, end: usize) -> (r: Vec<u8>)
    requires
        start <= end <= bytes@.len(),
    ensures
        r@ == bytes@.subrange(start as int, end as int),
{
    let mut r: Vec<u8> = Vec::new();
    let mut i: usize = start;
    while i < end
        invariant
            start <= i <= end <= bytes@.len(),
            r@ == bytes@.subrange(start as int, i as int),
        decreases end - i,
    {
        r.push(bytes[i]);
        i += 1;
        assert(bytes@.subrange(start as int, i as int) =~= bytes@.subrange(start as int, i - 1).push(bytes@[i - 1]));
    }
    r
}

/// Tells whether both are the same bytes.
pub fn same_bytes(a: &[u8], b: &[u8]) -> (r: bool)
    ensures
        r == (a@ == b@),
{
    if a.len() != b.len() {
        return false;
    }
    let len: usize = a.len();
    let mut i: usize = 0;
    while i < len
        invariant
            i <= len == a@.len() == b@.len(),
            a@.take(i as int) == b@.take(i as int),
        decreases len - i,
    {
        if a[i] != b[i] {
            assert(a@[i as int] != b@[i as int]);
            return false;
        }
        i += 1;
        assert(a@.take(i as int) =~= a@.take(i - 1).push(a@[i - 1]));
        assert(b@.take(i as int) =~= b@.take(i - 1).push(b@[i - 1]));
    }
    assert(a@.take(len as int) =~= a@);
    assert(b@.take(len as int) =~= b@);
    true
}

/// The names in a path, in order.
pub fn names_of(path: &[u8]) -> (r: Vec<Vec<u8>>)
    ensures
        r@.map_values(|name: Vec<u8>| name@) == names(path@),
{
    let len: usize = path.len();
    let mut found: Vec<Vec<u8>> = Vec::new();
    let mut start: usize = 0;
    let mut i: usize = 0;
    assert(found@.map_values(|name: Vec<u8>| name@) =~= names(path@.take(0)));
    while i < len
        invariant
            start <= i <= len == path@.len(),
            start == 0 || path@[start - 1] == SLASH,
            forall|k: int| start <= k < i ==> #[trigger] path@[k] != SLASH,
            found@.map_values(|name: Vec<u8>| name@) == names(path@.take(start as int)),
        decreases len - i,
    {
        if path[i] == SLASH {
            push_name(&mut found, path, start, i);
            proof {
                let next = path@.take(i + 1);
                lemma_segment_start(next, 0, i + 1);
                assert(next.take(i as int) =~= path@.take(i as int));
            }
            start = i + 1;
        }
        i += 1;
    }
    push_name(&mut found, path, start, len);
    assert(path@.take(len as int) =~= path@);
    found
}

/// Adds the segment from `start` to `end`, unless it names nothing.
fn push_name(found: &mut Vec<Vec<u8>>, path: &[u8], start: usize, end: usize)
    requires
        start <= end <= path@.len(),
        start == 0 || path@[start - 1] == SLASH,
        forall|k: int| start <= k < end ==> #[trigger] path@[k] != SLASH,
        old(found)@.map_values(|name: Vec<u8>| name@) == names(path@.take(start as int)),
    ensures
        final(found)@.map_values(|name: Vec<u8>| name@) == names(path@.take(end as int)),
{
    proof {
        let before = path@.take(end as int);
        lemma_segment_start(before, 0, start as int);
        assert(before.skip(start as int) =~= path@.subrange(start as int, end as int));
        if start > 0 {
            assert(before.take(start - 1) =~= path@.take(start - 1));
            let closed = path@.take(start as int);
            lemma_segment_start(closed, 0, start as int);
            assert(closed.take(start - 1) =~= path@.take(start - 1));
        }
    }
    let segment: Vec<u8> = copy_of(path, start, end);
    if segment.len() == 0 || (segment.len() == 1 && segment[0] == DOT) {
        assert(segment.len() == 1 ==> segment@ =~= seq![DOT]);
    } else {
        assert(segment@ != seq![DOT]);
        let ghost known = found@;
        found.push(segment);
        assert(known.push(segment).map_values(|name: Vec<u8>| name@) =~= known.map_values(
            |name: Vec<u8>| name@,
        ).push(segment@));
    }
}

/// Tells whether the path starts at the root.
fn rooted(path: &[u8]) -> (r: bool)
    ensures
        r == is_rooted(path@),
{
    path.len() > 0 && path[0] == SLASH
}

/// Tells whether the path's first segment is a single dot.
fn dotted(path: &[u8]) -> (r: bool)
    ensures
        r == starts_with_dot(path@),
{
    path.len() > 0 && path[0] == DOT && (path.len() == 1 || path[1] == SLASH)
}

/// Tells whether both paths name the same place in the same way.
pub fn same_path(a: &[u8], b: &[u8]) -> (r: bool)
    ensures
        r == is_same(a@, b@),
{
    if rooted(a) != rooted(b) || dotted(a) != dotted(b) {
        return false;
    }
    let of_a: Vec<Vec<u8>> = names_of(a);
    let of_b: Vec<Vec<u8>> = names_of(b);
    let ghost view = |name: Vec<u8>| name@;
    assert(of_a@.map_values(view).len() == of_a@.len() && of_b@.map_values(view).len() == of_b@.len());
    if of_a.len() != of_b.len() {
        return false;
    }
    let len: usize = of_a.len();
    let mut i: usize = 0;
    while i < len
        invariant
            i <= len == of_a@.len() == of_b@.len(),
            view == (|name: Vec<u8>| name@),
            of_a@.map_values(view) == names(a@),
            of_b@.map_values(view) == names(b@),
            forall|k: int| 0 <= k < i ==> #[trigger] of_a@[k]@ == of_b@[k]@,
        decreases len - i,
    {
        if !same_bytes(of_a[i].as_slice(), of_b[i].as_slice()) {
            assert(of_a@.map_values(view)[i as int] != of_b@.map_values(view)[i as int]);
            return false;
        }
        i += 1;
    }
    assert(of_a@.map_values(view) =~= of_b@.map_values(view));
    true
}

/// The last name of a path, unless it points up.
pub fn file_name(path: &[u8]) -> (r: Option<Vec<u8>>)
    ensures
        match r {
            Some(name) => last_name(path@) == Some(name@),
            None => last_name(path@) is None,
        },
{
    let mut found: Vec<Vec<u8>> = names_of(path);
    let ghost all = found@.map_values(|name: Vec<u8>| name@);
    assert(found@.len() == all.len());
    match found.pop() {
        None => None,
        Some(name) => {
            assert(all.last() == name@);
            if name.len() == 2 && name[0] == DOT && name[1] == DOT {
                assert(name@ =~= seq![DOT, DOT]);
                None
            } else {
                assert(name@ != seq![DOT, DOT]);
                Some(name)
            }
        },
    }
}

/// Splits a name into its stem and its extension, if it has one.
pub fn split_extension(name: &[u8]) -> (r: Option<(Vec<u8>, Vec<u8>)>)
    ensures
        match r {
            Some((stem, extension)) => extension_of(name@) == Some(extension@) && stem_of(name@) == stem@,
            None => extension_of(name@) is None,
        },
{
    let len: usize = name.len();
    let mut end: usize = len;
    assert(name@.take(len as int) =~= name@);
    while end > 0
        invariant
            end <= len == name@.len(),
            last_dot(name@) == last_dot(name@.take(end as int)),
        decreases end,
    {
        end -= 1;
        assert(name@.take(end + 1).drop_last() =~= name@.take(end as int));
        if name[end] == DOT {
            if end == 0 {
                return None;
            }
            assert(name@.take(end as int) =~= name@.subrange(0, end as int));
            assert(name@.skip(end + 1) =~= name@.subrange(end + 1, len as int));
            return Some((copy_of(name, 0, end), copy_of(name, end + 1, len)));
        }
    }
    None
}

/// Where the last segment of the path's first `end` bytes starts.
fn find_segment(path: &[u8], from: usize, end: usize) -> (start: usize)
    requires
        from <= end <= path@.len(),
    ensures
        from <= start <= end,
        start == segment_start(path@.take(end as int), from as int),
{
    let mut start: usize = end;
    while start > from && path[start - 1] != SLASH
        invariant
            from <= start <= end <= path@.len(),
            forall|i: int| start <= i < end ==> #[trigger] path@[i] != SLASH,
        decreases start,
    {
        start -= 1;
    }
    proof {
        lemma_segment_start(path@.take(end as int), from as int, start as int);
    }
    start
}

/// The length of the path's first `end` bytes without the segments at their end that name nothing.
fn trim_end(path: &[u8], from: usize, end: usize) -> (r: usize)
    requires
        from <= end <= path@.len(),
    ensures
        from <= r <= end,
        path@.take(r as int) == without_trivial(path@.take(end as int), from as int),
{
    let mut r: usize = end;
    while r > from
        invariant
            from <= r <= end <= path@.len(),
            without_trivial(path@.take(r as int), from as int) == without_trivial(path@.take(end as int), from as int),
        decreases r,
    {
        let start: usize = find_segment(path, from, r);
        let ghost before = path@.take(r as int);
        assert(before.skip(start as int) =~= path@.subrange(start as int, r as int));
        let trivial: bool = start == r || (r - start == 1 && path[start] == DOT);
        proof {
            if r - start == 1 && path@[start as int] == DOT {
                assert(before.skip(start as int) =~= seq![DOT]);
            }
            if !trivial && r - start == 1 {
                assert(before.skip(start as int)[0] != DOT);
            }
        }
        if !trivial {
            return r;
        }
        let next: usize = if start <= from {
            from
        } else {
            start - 1
        };
        assert(before.take(next as int) =~= path@.take(next as int));
        r = next;
    }
    r
}

/// The path without its last name. There is none for the root and the empty path.
pub fn parent(path: &[u8]) -> (r: Option<Vec<u8>>)
    ensures
        match r {
            Some(parent) => parent_of(path@) == Some(parent@),
            None => parent_of(path@) is None,
        },
{
    let dot: bool = dotted(path);
    let from: usize = if rooted(path) || dot {
        1
    } else {
        0
    };
    let len: usize = path.len();
    assert(path@.take(len as int) =~= path@);
    let end: usize = trim_end(path, from, len);
    if end > from {
        let start: usize = find_segment(path, from, end);
        let cut: usize = if start <= from {
            from
        } else {
            start - 1
        };
        assert(path@.take(end as int).take(cut as int) =~= path@.take(cut as int));
        let kept: usize = trim_end(path, from, cut);
        assert(path@.take(kept as int) =~= path@.subrange(0, kept as int));
        Some(copy_of(path, 0, kept))
    } else if dot {
        Some(Vec::new())
    } else {
        None
    }
}

/// A name with an extension is its stem, a dot and its extension, and the stem is not empty.
pub proof fn extension_and_stem_make_the_name(name: Seq<u8>)
    requires
        extension_of(name) is Some,
    ensures
        name == stem_of(name).push(DOT) + extension_of(name)->0,
        stem_of(name).len() > 0,
{
    lemma_last_dot(name);
    assert(name =~= stem_of(name).push(DOT) + extension_of(name)->0);
}

proof fn lemma_last_dot(name: Seq<u8>)
    ensures
        -1 <= last_dot(name) < name.len(),
        last_dot(name) >= 0 ==> name[last_dot(name)] == DOT,
        forall|i: int| last_dot(name) < i < name.len() ==> #[trigger] name[i] != DOT,
    decreases name.len(),
{
    if name.len() > 0 && name.last() != DOT {
        lemma_last_dot(name.drop_last());
        assert(forall|i: int| 0 <= i < name.len() - 1 ==> name.drop_last()[i] == name[i]);
    }
}

/// The names of a path's parent are those of the path, without the last.
pub proof fn parent_drops_the_last_name(path: Seq<u8>)
    requires
        names(path).len() > 0,
    ensures
        parent_of(path) matches Some(parent) && names(parent) == names(path).drop_last(),
{
    let from = body_start(path);
    let trimmed = without_trivial(path, from);
    assert(path =~= path.take(path.len() as int));
    lemma_without_trivial(path, path, from);
    lemma_one_segment(path, trimmed, from);
    let shorter = without_segment(trimmed, from);
    lemma_without_trivial(path, shorter, from);
}

/// `part` is a piece of the path from its start, at least up to where the names start.
spec fn is_start_of(part: Seq<u8>, path: Seq<u8>) -> bool {
    body_start(path) <= part.len() <= path.len() && part == path.take(part.len() as int)
}

proof fn lemma_without_trivial(path: Seq<u8>, part: Seq<u8>, from: int)
    requires
        from == body_start(path),
        is_start_of(part, path),
    ensures
        is_start_of(without_trivial(part, from), path),
        names(without_trivial(part, from)) == names(part),
        ({
            let kept = without_trivial(part, from);
            kept.len() > from ==> !is_trivial(kept.skip(segment_start(kept, from)))
        }),
        without_trivial(part, from).len() == from ==> names(part).len() == 0,
    decreases part.len(),
{
    lemma_one_segment(path, part, from);
    let shorter = without_segment(part, from);
    if part.len() > from && is_trivial(part.skip(segment_start(part, from))) {
        lemma_without_trivial(path, shorter, from);
    }
}

proof fn lemma_one_segment(path: Seq<u8>, part: Seq<u8>, from: int)
    requires
        from == body_start(path),
        is_start_of(part, path),
    ensures
        part.len() == from ==> names(part).len() == 0,
        part.len() > from ==> {
            let shorter = without_segment(part, from);
            let segment = part.skip(segment_start(part, from));
            &&& is_start_of(shorter, path)
            &&& shorter.len() < part.len()
            &&& names(part) == (if is_trivial(segment) {
                names(shorter)
            } else {
                names(shorter).push(segment)
            })
        },
{
    reveal_with_fuel(names, 3);
    lemma_segment_bounds(part);
    if part.len() > from {
        let start = segment_start(part, 0);
        lemma_no_slash_after(part);
        if from == 1 {
            assert(part[0] == path[0]);
            if starts_with_dot(path) {
                assert(part[1] == path[1] == SLASH);
                assert(start >= 2);
            }
            assert(start >= 1);
            lemma_segment_start(part, 1, start);
        }
        let shorter = without_segment(part, from);
        assert(shorter =~= path.take(shorter.len() as int));
        if from == 1 && start == 1 {
            assert(shorter =~= seq![SLASH]);
            lemma_segment_start(seq![SLASH], 0, 1);
            assert(seq![SLASH].take(0) =~= Seq::empty());
            assert(part.take(0) =~= Seq::empty());
        } else if start > 0 {
            assert(shorter =~= part.take(start - 1));
        } else {
            assert(shorter =~= Seq::empty());
        }
    } else if from == 1 {
        assert(part[0] == path[0]);
        if is_rooted(path) {
            assert(part =~= seq![SLASH]);
            lemma_segment_start(part, 0, 1);
            assert(part.take(0) =~= Seq::empty());
        } else {
            assert(part =~= seq![DOT]);
            lemma_segment_start(part, 0, 0);
            assert(part.skip(0) =~= part);
        }
    }
}

proof fn lemma_no_slash_after(path: Seq<u8>)
    ensures
        forall|i: int| segment_start(path, 0) <= i < path.len() ==> #[trigger] path[i] != SLASH,
    decreases path.len(),
{
    if path.len() > 0 && path.last() != SLASH {
        lemma_segment_bounds(path.drop_last());
        lemma_no_slash_after(path.drop_last());
        assert forall|i: int| segment_start(path, 0) <= i < path.len() implies #[trigger] path[i] != SLASH by {
            if i < path.len() - 1 {
                assert(path.drop_last()[i] == path[i]);
            }
        }
    }
}

/// Naming the same place in the same way is an equivalence.
pub proof fn same_is_an_equivalence(a: Seq<u8>, b: Seq<u8>, c: Seq<u8>)
    ensures
        is_same(a, a),
        is_same(a, b) ==> is_same(b, a),
        is_same(a, b) && is_same(b, c) ==> is_same(a, c),
{
}

/// The names of a path that is UTF-8 are UTF-8.
pub proof fn names_are_utf8(path: Seq<u8>)
    requires
        valid_utf8(path),
    ensures
        forall|i: int| 0 <= i < names(path).len() ==> valid_utf8(#[trigger] names(path)[i]),
    decreases path.len(),
{
    if path.len() > 0 {
        let start = segment_start(path, 0);
        lemma_segment_bounds(path);
        if start > 0 {
            is_char_boundary_iff_not_is_continuation_byte(path, start - 1);
            valid_utf8_split(path, start - 1);
            assert(path.subrange(0, start - 1) =~= path.take(start - 1));
            names_are_utf8(path.take(start - 1));
            let rest = path.subrange(start - 1, path.len() as int);
            assert(rest[0] == SLASH);
            assert(pop_first_scalar(rest) =~= path.skip(start));
            assert(valid_utf8(path.skip(start)));
        } else {
            assert(path.skip(0) =~= path);
        }
        let before = if start > 0 {
            names(path.take(start - 1))
        } else {
            Seq::empty()
        };
        assert(names(path) == before || names(path) == before.push(path.skip(start)));
        assert forall|i: int| 0 <= i < names(path).len() implies valid_utf8(#[trigger] names(path)[i]) by {
            if i < before.len() {
                assert(names(path)[i] == before[i]);
            }
        }
    }
}

proof fn lemma_segment_bounds(path: Seq<u8>)
    ensures
        0 <= segment_start(path, 0) <= path.len(),
        segment_start(path, 0) > 0 ==> path[segment_start(path, 0) - 1] == SLASH,
    decreases path.len(),
{
    if path.len() > 0 && path.last() != SLASH {
        lemma_segment_bounds(path.drop_last());
    }
}

/// How a path is shown: as text, with a replacement character where it is not UTF-8.
pub fn show_path(path: &[u8]) -> (text: String)
    ensures
        text@ == outside::lossy(path@),
        valid_utf8(path@) ==> encode_utf8(text@) == path@,
{
    outside::lossy_text(path)
}

/// A slash separates names, and does nothing else: the names of two paths with a slash between them are those of the
/// one, then those of the other.
pub proof fn a_slash_separates_names(before: Seq<u8>, after: Seq<u8>)
    ensures
        names(before.push(0x2f) + after) == names(before) + names(after),
    decreases after.len(),
{
    let all = before.push(0x2f) + after;
    let start = segment_start(after, 0);
    lemma_segment_bounds(after);
    lemma_no_slash_after(after);
    let shift = before.len() + 1;
    assert forall|i: int| shift + start <= i < all.len() implies #[trigger] all[i] != SLASH by {
        assert(all[i] == after[i - shift]);
    }
    if start > 0 {
        assert(all[shift + start - 1] == after[start - 1]);
    } else {
        assert(all[shift - 1] == SLASH);
    }
    lemma_segment_start(all, 0, shift + start);
    assert(all.skip(shift + start) =~= after.skip(start));
    if start > 0 {
        a_slash_separates_names(before, after.take(start - 1));
        assert(all.take(shift + start - 1) =~= before.push(0x2f) + after.take(start - 1));
        assert((names(before) + names(after.take(start - 1))).push(after.skip(start)) =~= names(before) + names(
            after.take(start - 1),
        ).push(after.skip(start)));
    } else {
        assert(all.take(shift - 1) =~= before);
        assert(after.skip(0) =~= after);
        assert(names(before).push(after) =~= names(before) + seq![after]);
        assert(names(before) + Seq::empty() =~= names(before));
        assert(Seq::empty().push(after) =~= seq![after]);
    }
}

/// A path without slashes is a name as it stands, unless it is empty or a single dot.
pub proof fn what_is_not_separated_is_one_name(path: Seq<u8>)
    requires
        forall|i: int| 0 <= i < path.len() ==> #[trigger] path[i] != 0x2f,
    ensures
        names(path) == (if path.len() == 0 || path == seq![0x2eu8] {
            Seq::<Seq<u8>>::empty()
        } else {
            seq![path]
        }),
{
    lemma_segment_start(path, 0, 0);
    assert(path.skip(0) =~= path);
    assert(Seq::empty().push(path) =~= seq![path]);
}

/// The file's name is the last name of the path, unless there is none or it points up.
pub proof fn the_last_name_is_the_file_name(path: Seq<u8>)
    ensures
        last_name(path) is None <==> names(path).len() == 0 || names(path)[names(path).len() - 1] == seq![
            0x2eu8,
            0x2e,
        ],
        last_name(path) matches Some(name) ==> name == names(path)[names(path).len() - 1],
{
}

/// What comes after the last slash is the file's name, unless it is empty or made of one or two dots.
pub proof fn what_comes_after_the_last_slash_is_the_file_name(dir: Seq<u8>, name: Seq<u8>)
    requires
        name.len() > 0,
        forall|i: int| 0 <= i < name.len() ==> #[trigger] name[i] != 0x2f,
        name != seq![0x2eu8],
        name != seq![0x2eu8, 0x2e],
    ensures
        last_name(dir.push(0x2f) + name) == Some(name),
        last_name(name) == Some(name),
{
    a_slash_separates_names(dir, name);
    what_is_not_separated_is_one_name(name);
    assert((names(dir) + seq![name]).last() == name);
}

/// A name is divided at its last dot, unless that is in front.
pub proof fn a_name_is_divided_at_its_last_dot(stem: Seq<u8>, extension: Seq<u8>)
    requires
        forall|i: int| 0 <= i < extension.len() ==> #[trigger] extension[i] != 0x2e,
    ensures
        stem.len() > 0 ==> {
            &&& extension_of(stem.push(0x2e) + extension) == Some(extension)
            &&& stem_of(stem.push(0x2e) + extension) == stem
        },
        stem.len() == 0 ==> {
            &&& extension_of(stem.push(0x2e) + extension) is None
            &&& stem_of(stem.push(0x2e) + extension) == stem.push(0x2e) + extension
        },
        extension_of(extension) is None,
        stem_of(extension) == extension,
{
    let name = stem.push(0x2e) + extension;
    lemma_last_dot(name);
    assert(name[stem.len() as int] == DOT);
    assert forall|i: int| stem.len() < i < name.len() implies #[trigger] name[i] != DOT by {
        assert(name[i] == extension[i - stem.len() - 1]);
    }
    assert(last_dot(name) == stem.len());
    assert(name.take(stem.len() as int) =~= stem);
    assert(name.skip(stem.len() as int + 1) =~= extension);
    lemma_last_dot(extension);
}

/// Two paths are the same exactly if both or neither start at the root, both or neither start with a single dot, and
/// they have the same names.
pub proof fn same_paths_have_the_same_names(a: Seq<u8>, b: Seq<u8>)
    ensures
        is_same(a, b) <==> {
            &&& (a.len() > 0 && a[0] == 0x2f) == (b.len() > 0 && b[0] == 0x2f)
            &&& (a.len() > 0 && a[0] == 0x2e && (a.len() == 1 || a[1] == 0x2f)) == (b.len() > 0 && b[0] == 0x2e && (
            b.len() == 1 || b[1] == 0x2f))
            &&& names(a) == names(b)
        },
{
}

/// The parent of a path with names is the path up to where its last name starts, without the slashes and single dots at
/// the end of that: it is a start of the path, with the same beginning, and ends in neither a slash nor a segment that
/// is a single dot, unless that is all of it.
pub proof fn the_parent_is_a_start_of_the_path(path: Seq<u8>)
    requires
        names(path).len() > 0,
    ensures
        parent_of(path) matches Some(parent) && {
            &&& parent.len() < path.len()
            &&& parent == path.take(parent.len() as int)
            &&& names(parent) == names(path).take(names(path).len() - 1)
            &&& path[0] == 0x2f ==> parent.len() > 0
            &&& path[0] == 0x2e && path.len() > 1 && path[1] == 0x2f ==> parent.len() > 0
            &&& parent.len() > 1 ==> parent[parent.len() - 1] != 0x2f
            &&& parent.len() > 1 && parent[parent.len() - 1] == 0x2e ==> parent[parent.len() - 2] != 0x2f
        },
{
    let from = body_start(path);
    let trimmed = without_trivial(path, from);
    assert(path =~= path.take(path.len() as int));
    parent_drops_the_last_name(path);
    lemma_without_trivial(path, path, from);
    lemma_one_segment(path, trimmed, from);
    let shorter = without_segment(trimmed, from);
    lemma_without_trivial(path, shorter, from);
    let parent = without_trivial(shorter, from);
    assert(parent.len() <= shorter.len()) by {
        lemma_without_trivial_shortens(shorter, from);
    }
    assert(trimmed.len() <= path.len());
    assert(names(path).drop_last() =~= names(path).take(names(path).len() - 1));
    if parent.len() > from {
        let start = segment_start(parent, from);
        let segment = parent.skip(start);
        lemma_segment_from(parent, from);
        if parent.last() == SLASH {
            assert(segment.len() == 0);
        }
        if parent.len() > 1 && parent.last() == DOT && parent[parent.len() - 2] == SLASH {
            assert(start >= parent.len() - 1);
            assert(start == parent.len() - 1 || start == parent.len());
            if start == parent.len() - 1 {
                assert(segment =~= seq![DOT]);
            }
        }
    }
}

proof fn lemma_without_trivial_shortens(path: Seq<u8>, from: int)
    ensures
        without_trivial(path, from).len() <= path.len(),
    decreases path.len(),
{
    let shorter = without_segment(path, from);
    if path.len() > from && shorter.len() < path.len() && is_trivial(path.skip(segment_start(path, from))) {
        lemma_without_trivial_shortens(shorter, from);
    }
}

proof fn lemma_segment_from(path: Seq<u8>, from: int)
    requires
        0 <= from < path.len(),
    ensures
        from <= segment_start(path, from) <= path.len(),
        path.last() == SLASH ==> segment_start(path, from) == path.len(),
        forall|i: int| from <= i < path.len() && path[i] == SLASH ==> i < segment_start(path, from),
    decreases path.len(),
{
    if path.last() != SLASH {
        let shorter = path.drop_last();
        if from < shorter.len() {
            lemma_segment_from(shorter, from);
        } else {
            reveal_with_fuel(segment_start, 2);
        }
        assert forall|i: int| from <= i < path.len() && path[i] == SLASH implies i < segment_start(path, from) by {
            assert(i < path.len() - 1);
            assert(shorter[i] == path[i]);
        }
    }
}

/// A path without names has no parent, unless it starts with a single dot: then that is taken away.
pub proof fn without_names_only_a_dot_is_left(path: Seq<u8>)
    requires
        names(path).len() == 0,
    ensures
        parent_of(path) == (if path.len() > 0 && path[0] == 0x2e {
            Some(Seq::<u8>::empty())
        } else {
            None
        }),
{
    let from = body_start(path);
    assert(path =~= path.take(path.len() as int));
    lemma_without_trivial(path, path, from);
    let trimmed = without_trivial(path, from);
    lemma_one_segment(path, trimmed, from);
    if path.len() > 0 && path[0] == DOT && !starts_with_dot(path) {
        lemma_first_segment(path);
    }
}

proof fn lemma_first_segment(path: Seq<u8>)
    requires
        path.len() > 1,
        path[0] == DOT,
        path[1] != SLASH,
    ensures
        names(path).len() > 0,
    decreases path.len(),
{
    let start = segment_start(path, 0);
    lemma_segment_bounds(path);
    if start > 0 {
        assert(start != 1);
        assert(start != 2);
        lemma_first_segment(path.take(start - 1));
    } else {
        assert(path.skip(0) =~= path);
    }
}

} // verus!
