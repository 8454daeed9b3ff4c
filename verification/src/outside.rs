//! The functions of other crates that the library calls, with what is taken for granted of each.
use vstd::prelude::*;
use vstd::utf8::*;
use rayon::slice::ParallelSliceMut;
use crate::discovery::TestFile;
use crate::package::{Metadata, MetadataView, Package};

verus! {

/// Why bytes are not UTF-8.
#[verifier::external_type_specification]
#[verifier::external_body]
pub struct ExUtf8Error(core::str::Utf8Error);

/// `core::str::from_utf8` gives back the bytes as text exactly if they are UTF-8. Nothing is said of what the error
/// tells.
pub assume_specification[ core::str::from_utf8 ](v: &[u8]) -> (r: Result<&str, core::str::Utf8Error>)
    ensures
        r is Ok <==> valid_utf8(v@),
        r matches Ok(s) ==> encode_utf8(s@) == v@,
;

/// The text that `String::from_utf8_lossy` makes of bytes.
pub uninterp spec fn lossy(bytes: Seq<u8>) -> Seq<char>;

/// `String::from_utf8_lossy` makes text of bytes, and puts a replacement character where they are not UTF-8. Bytes that
/// are UTF-8 are kept.
#[verifier::external_body]
pub(crate) fn lossy_text(bytes: &[u8]) -> (text: String)
    ensures
        text@ == lossy(bytes@),
        valid_utf8(bytes@) ==> encode_utf8(text@) == bytes@,
{
    String::from_utf8_lossy(bytes).into_owned()
}

/// `rayon`'s `par_sort_unstable_by_key` on the test number keeps the files and puts their numbers in ascending order.
/// Files with the same number may change places.
#[verifier::external_body]
pub(crate) fn par_sort_by_num(tests: &mut Vec<TestFile>)
    ensures
        final(tests)@.to_multiset() == old(tests)@.to_multiset(),
        forall|i: int, j: int|
            0 <= i <= j < final(tests)@.len() ==> #[trigger] final(tests)@[i].num <= #[trigger] final(tests)@[j].num,
{
    tests.par_sort_unstable_by_key(|test| test.num);
}

/// Why a text is not JSON.
#[verifier::external_type_specification]
#[verifier::external_body]
pub struct ExJsonError(serde_json::Error);

/// What `serde_json::from_str` reads in a text: `None` if it is not JSON, `Some(None)` if it is not an object, and
/// otherwise the object's entries, each with its text if it is one.
pub uninterp spec fn json_object(json: Seq<char>) -> Option<Option<Map<Seq<char>, Option<Seq<char>>>>>;

/// The text under a key of the JSON object that a text writes: `None` if the text is not JSON, and `Some(None)` if it
/// is not an object, does not have the key, or has something other than text there.
pub open spec fn text_under(json: Seq<char>, key: Seq<char>) -> Option<Option<Seq<char>>> {
    match json_object(json) {
        None => None,
        Some(None) => Some(None),
        Some(Some(entries)) => if entries.contains_key(key) {
            Some(entries[key])
        } else {
            Some(None)
        },
    }
}

/// `serde_json::from_str` fails if the text is not JSON. `Value::get` with a key finds an entry of an object, and
/// nothing in any other value; `Value::as_str` gives the text that a value is, if it is one. Nothing is said of what
/// the error tells.
#[verifier::external_body]
pub(crate) fn json_text_under(json: &str, key: &str) -> (r: Result<Option<String>, serde_json::Error>)
    ensures
        match r {
            Ok(Some(text)) => json_object(json@) is Some && text_under(json@, key@) == Some(Some(text@)),
            Ok(None) => json_object(json@) is Some && text_under(json@, key@) == Some(None::<Seq<char>>),
            Err(_) => json_object(json@) is None,
        },
{
    let value: serde_json::Value = serde_json::from_str(json)?;
    Ok(value.get(key).and_then(|entry| entry.as_str()).map(|text| text.to_owned()))
}

/// Why a text is not what `cargo metadata` prints.
#[verifier::external_type_specification]
#[verifier::external_body]
pub struct ExMetadataError(cargo_metadata::Error);

/// What `cargo_metadata::MetadataCommand::parse` reads in a text: `None` if it is not what `cargo metadata` prints.
pub uninterp spec fn metadata_in(text: Seq<char>) -> Option<MetadataView>;

/// `cargo_metadata::MetadataCommand::parse` reads the packages and the ids of the workspace members in a text, and
/// fails if the text is not what `cargo metadata` prints. Nothing is said of what the error tells.
#[verifier::external_body]
pub(crate) fn parse_metadata(text: &str) -> (r: Result<Metadata, cargo_metadata::Error>)
    ensures
        match r {
            Ok(metadata) => metadata_in(text@) == Some(metadata@),
            Err(_) => metadata_in(text@) is None,
        },
{
    let parsed = cargo_metadata::MetadataCommand::parse(text)?;
    let workspace_members = parsed.workspace_members.into_iter().map(|id| id.repr).collect();
    let packages = parsed.packages.into_iter().map(
        |package| Package {
            id: package.id.repr,
            name: package.name.to_string(),
            manifest_path: package.manifest_path.into_string(),
        },
    ).collect();
    Ok(Metadata { packages, workspace_members })
}

} // verus!
