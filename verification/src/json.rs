//! Work on texts in JSON.

use crate::text::{chars_of, count, count_char, count_doubled, count_doubles, same_text, view_of};
use jsonpath_rust::JsonPath;
use serde_json::Value;
use vstd::prelude::*;
use vstd::string::*;

verus! {

/// The list of the values that a path finds in a text in JSON; nothing where the text is no JSON or
/// the path is no path.
pub uninterp spec fn values_at(text: Seq<char>, path: Seq<char>) -> Option<Seq<char>>;

/// The list of the operations that turn one text in JSON into another; nothing where one of them is
/// no JSON.
pub uninterp spec fn operations_between(before: Seq<char>, after: Seq<char>) -> Option<Seq<char>>;

/// The most round brackets that open in a path. The work of reading a path triples with each.
pub const MOST_ROUND_BRACKETS: usize = 8;

/// The most filters in a path. They may stand in one another.
pub const MOST_FILTERS: usize = 8;

/// The most commas in a path. What a path finds may double with each.
pub const MOST_COMMAS: usize = 16;

/// The most places in a path that look through all that lies below a value.
pub const MOST_DESCENTS: usize = 3;

/// The most places in a path that start from the whole value.
pub const MOST_ROOTS: usize = 4;

/// Whether a path is small enough to be followed: reading it takes little time and stack, and the time
/// that following it takes grows with a fixed power of the size of the text.
pub open spec fn is_small_path(path: Seq<char>) -> bool {
    &&& count(path, '(') <= MOST_ROUND_BRACKETS
    &&& count(path, '?') <= MOST_FILTERS
    &&& count(path, ',') <= MOST_COMMAS
    &&& count(path, '$') <= MOST_ROOTS
    &&& count_doubled(path, '.') <= MOST_DESCENTS
}

/// Finds whether a path is small enough to be followed.
pub fn check_path(path: &str) -> (small: bool)
    ensures
        small == is_small_path(path@),
{
    let chars = chars_of(path);
    count_char(&chars, '(') <= MOST_ROUND_BRACKETS && count_char(&chars, '?') <= MOST_FILTERS
        && count_char(&chars, ',') <= MOST_COMMAS && count_char(&chars, '$') <= MOST_ROOTS
        && count_doubles(&chars, '.') <= MOST_DESCENTS
}

/// `JsonPath::query` lists the values that a path finds. Texts are read and written by `serde_json`.
/// The function reads nested round brackets in several ways each, and calls itself for what stands in
/// brackets, so only a small path is handed to it. It refuses any path where less than 64 KiB of stack
/// are left; that a thread has those, and the little that a small path needs, is believed too.
#[verifier::external_body]
fn query(text: &str, path: &str) -> (values: Option<String>)
    requires
        is_small_path(path@),
    ensures
        view_of(values) == values_at(text@, path@),
{
    let value = serde_json::from_str::<Value>(text).ok()?;
    let found = value.query(path).ok()?;
    serde_json::to_string(&found).ok()
}

/// `json_patch::diff` lists the operations that turn one value into another; there are none between
/// a value and itself. Texts are read and written by `serde_json`.
#[verifier::external_body]
fn diff(before: &str, after: &str) -> (operations: Option<String>)
    ensures
        view_of(operations) == operations_between(before@, after@),
        before@ == after@ && operations is Some ==> operations->0@ == "[]"@,
{
    let before = serde_json::from_str::<Value>(before).ok()?;
    let after = serde_json::from_str::<Value>(after).ok()?;
    serde_json::to_string(&json_patch::diff(&before, &after)).ok()
}

/// The values that are found at a path: none where the path is too large to be followed.
pub open spec fn values_found(text: Seq<char>, path: Seq<char>) -> Option<Seq<char>> {
    if is_small_path(path) {
        values_at(text, path)
    } else {
        None
    }
}

/// Lists the values that a path finds in a text in JSON. A path that is too large to be followed finds
/// none.
pub fn find_values(text: &str, path: &str) -> (values: Option<String>)
    ensures
        view_of(values) == values_found(text@, path@),
{
    if !check_path(path) {
        return None;
    }
    query(text, path)
}

/// The operations that clients are told: none where nothing changed.
pub open spec fn news(operations: Option<Seq<char>>) -> Option<Seq<char>> {
    match operations {
        Some(operations) => if operations == "[]"@ {
            None
        } else {
            Some(operations)
        },
        None => None,
    }
}

/// Keeps the operations that clients are told.
pub fn news_of(operations: Option<String>) -> (told: Option<String>)
    ensures
        view_of(told) == news(view_of(operations)),
{
    match operations {
        Some(operations) => {
            if same_text(operations.as_str(), "[]") {
                None
            } else {
                Some(operations)
            }
        },
        None => None,
    }
}

/// Lists the operations that clients are told when the state of the daemon goes from one text to
/// another. Nothing is told where nothing changed.
pub fn status_patch(before: &str, after: &str) -> (told: Option<String>)
    ensures
        view_of(told) == news(operations_between(before@, after@)),
        before@ == after@ ==> told is None,
{
    news_of(diff(before, after))
}

} // verus!
