//! Prints files one after the other.
use vstd::prelude::*;

verus! {

/// What to do after trying to read a file.
#[derive(Debug, PartialEq, Eq)]
pub enum CatStep {
    /// Print this, and go on to the next file.
    Print(String),
    /// Print this, and stop with a failure.
    Fail(String),
}

/// What is printed if a file cannot be read.
pub open spec fn complaint() -> Seq<char> {
    "wcat: cannot open file\n"@
}

/// What to do with a file: `None` if it cannot be read.
pub fn cat(read: Option<String>) -> (step: CatStep)
    ensures
        match read {
            Some(text) => step == CatStep::Print(text),
            None => step matches CatStep::Fail(text) && text@ == complaint(),
        },
{
    match read {
        Some(text) => CatStep::Print(text),
        None => CatStep::Fail("wcat: cannot open file\n".to_owned()),
    }
}

/// Everything that is printed for the files, and whether the run is a success.
pub open spec fn printed(reads: Seq<Option<Seq<char>>>) -> (Seq<char>, bool)
    decreases reads.len(),
{
    if reads.len() == 0 {
        (Seq::empty(), true)
    } else {
        match reads.first() {
            Some(text) => {
                let (rest, success) = printed(reads.drop_first());
                (text + rest, success)
            },
            None => (complaint(), false),
        }
    }
}

/// The files, as values.
pub open spec fn views(reads: Seq<Option<String>>) -> Seq<Option<Seq<char>>> {
    reads.map_values(
        |read: Option<String>|
            match read {
                Some(text) => Some(text@),
                None => None,
            },
    )
}

/// Everything that is printed for the files, and whether the run is a success.
pub fn wcat(reads: Vec<Option<String>>) -> (r: (String, bool))
    ensures
        (r.0@, r.1) == printed(views(reads@)),
{
    let ghost all = views(reads@);
    let ghost source = reads@;
    let mut output = String::new();
    assert(all.skip(0) =~= all);
    assert(printed(all) == (output@ + printed(all).0, printed(all).1)) by {
        assert(output@ + printed(all).0 =~= printed(all).0);
    }
    for read in it: reads
        invariant
            it.seq() == source,
            all == views(source),
            printed(all) == (
                output@ + printed(all.skip(it.index() as int)).0,
                printed(all.skip(it.index() as int)).1,
            ),
    {
        let ghost rest = all.skip(it.index() as int);
        let ghost before = output@;
        assert(rest.first() == all[it.index() as int]);
        assert(rest.drop_first() =~= all.skip(it.index() + 1));
        match cat(read) {
            CatStep::Print(text) => {
                output.append(text.as_str());
                assert(before + (text@ + printed(rest.drop_first()).0) =~= output@ + printed(rest.drop_first()).0);
            },
            CatStep::Fail(text) => {
                output.append(text.as_str());
                return (output, false);
            },
        }
    }
    assert(all.skip(all.len() as int) =~= Seq::empty());
    assert(output@ + Seq::empty() =~= output@);
    (output, true)
}

/// The run is a success exactly if every file can be read, and then everything in them is printed, in order.
pub proof fn success_prints_everything(reads: Seq<Option<Seq<char>>>)
    ensures
        printed(reads).1 <==> forall|i: int| 0 <= i < reads.len() ==> #[trigger] reads[i] is Some,
        printed(reads).1 ==> printed(reads).0 == reads.map_values(|read: Option<Seq<char>>| read->0).flatten(),
    decreases reads.len(),
{
    let texts = reads.map_values(|read: Option<Seq<char>>| read->0);
    if reads.len() > 0 {
        success_prints_everything(reads.drop_first());
        assert(reads[0] == reads.first());
        if reads.first() is Some {
            assert(texts.drop_first() =~= reads.drop_first().map_values(|read: Option<Seq<char>>| read->0));
            assert forall|i: int| 0 < i < reads.len() implies reads[i] == reads.drop_first()[i - 1] by {}
            if printed(reads).1 {
                assert forall|i: int| 0 <= i < reads.len() implies #[trigger] reads[i] is Some by {
                    if i > 0 {
                        assert(reads.drop_first()[i - 1] is Some);
                    }
                }
            } else {
                let i = choose|i: int| 0 <= i < reads.drop_first().len() && !(reads.drop_first()[i] is Some);
                assert(!(reads[i + 1] is Some));
            }
        }
    }
}

/// What is printed for the files up to the first that cannot be read does not depend on the files after it.
pub proof fn failure_ends_the_run(before: Seq<Option<Seq<char>>>, after: Seq<Option<Seq<char>>>)
    ensures
        printed(before.push(None) + after) == printed(before.push(None)),
        !printed(before.push(None)).1,
    decreases before.len(),
{
    let all = before.push(None) + after;
    if before.len() == 0 {
        assert(all.first() is None);
        assert(before.push(None).first() is None);
    } else {
        failure_ends_the_run(before.drop_first(), after);
        assert(all.drop_first() =~= before.drop_first().push(None) + after);
        assert(before.push(None).drop_first() =~= before.drop_first().push(None));
        assert(all.first() == before.first());
        assert(before.push(None).first() == before.first());
    }
}

/// If a file cannot be read, everything in the files before it is printed, and then the complaint.
pub proof fn failure_prints_what_came_before(texts: Seq<Seq<char>>, after: Seq<Option<Seq<char>>>)
    ensures
        printed(texts.map_values(|text: Seq<char>| Some(text)).push(None) + after) == (
            texts.flatten() + "wcat: cannot open file\n"@,
            false,
        ),
    decreases texts.len(),
{
    let before = texts.map_values(|text: Seq<char>| Some(text));
    let all = before.push(None) + after;
    if texts.len() == 0 {
        assert(all.first() is None);
        assert(texts.flatten() + complaint() =~= complaint());
    } else {
        let rest = texts.drop_first();
        failure_prints_what_came_before(rest, after);
        assert(all.drop_first() =~= rest.map_values(|text: Seq<char>| Some(text)).push(None) + after);
        assert(all.first() == Some(texts.first()));
        assert(texts.first() + (rest.flatten() + complaint()) =~= (texts.first() + rest.flatten()) + complaint());
    }
}

/// If all files can be read, everything in them is printed, in order.
pub proof fn everything_is_printed(texts: Seq<Seq<char>>)
    ensures
        printed(texts.map_values(|text: Seq<char>| Some(text))) == (texts.flatten(), true),
    decreases texts.len(),
{
    let all = texts.map_values(|text: Seq<char>| Some(text));
    if texts.len() > 0 {
        let rest = texts.drop_first();
        everything_is_printed(rest);
        assert(all.drop_first() =~= rest.map_values(|text: Seq<char>| Some(text)));
        assert(all.first() == Some(texts.first()));
    }
}

/// What is looked at of the files is what they hold.
pub proof fn views_hold_everything(reads: Seq<Option<String>>)
    ensures
        views(reads).len() == reads.len(),
        forall|i: int| #![trigger reads[i]]
            0 <= i < reads.len() ==> match reads[i] {
                Some(text) => views(reads)[i] == Some(text@),
                None => views(reads)[i] is None,
            },
{
}

} // verus!
