//! The message list: read once from JSON text when the state is set up, and
//! empty where the text is not a JSON array of strings.

use vstd::prelude::*;

verus! {

/// The error type of `serde_json`; carried through, never looked into.
#[verifier::external_type_specification]
#[verifier::external_body]
pub struct ExJsonError(serde_json::Error);

/// What `serde_json::from_str::<Vec<String>>` makes of a text: the strings of
/// the list, or `None` where it reports an error.
pub uninterp spec fn json_string_list(text: Seq<char>) -> Option<Seq<Seq<char>>>;

/// The list that was decoded, or the empty list where decoding failed.
pub open spec fn decoded_or_empty(decoded: Option<Seq<Seq<char>>>) -> Seq<Seq<char>> {
    match decoded {
        Some(list) => list,
        None => Seq::empty(),
    }
}

/// Calls `serde_json::from_str` for a `Vec<String>`. Nothing is proved of it:
/// the contract only gives the outcome its name, `json_string_list` of the
/// text, with `Ok` for `Some` and any error for `None`. The decoder reads the
/// text and nothing else, so the same text always gives the same outcome.
#[verifier::external_body]
fn decode_string_list(text: &str) -> (decoded: Result<Vec<String>, serde_json::Error>)
    ensures
        match decoded {
            Ok(list) => json_string_list(text@) == Some(list.deep_view()),
            Err(_) => json_string_list(text@) is None,
        },
{
    serde_json::from_str::<Vec<String>>(text)
}

/// The messages to start with, given the outcome of decoding: the decoded
/// list, or no messages at all where decoding failed. A failure is never
/// passed on.
pub fn messages_or_empty(decoded: Result<Vec<String>, serde_json::Error>) -> (list: Vec<String>)
    ensures
        list.deep_view() == (match decoded {
            Ok(found) => found.deep_view(),
            Err(_) => Seq::empty(),
        }),
{
    match decoded {
        Ok(found) => found,
        Err(_) => {
            let list: Vec<String> = Vec::new();
            assert(list.deep_view() =~= Seq::<Seq<char>>::empty());
            list
        },
    }
}

/// Reads the message list from JSON text: the strings of the array in their
/// order, or the empty list where the text is not a JSON array of strings.
pub fn load_messages(text: &str) -> (list: Vec<String>)
    ensures
        list.deep_view() == decoded_or_empty(json_string_list(text@)),
{
    messages_or_empty(decode_string_list(text))
}

} // verus!
