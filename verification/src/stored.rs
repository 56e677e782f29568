//! Lists of strings as they are kept in the database: JSON arrays in a text
//! column or setting (the sign-in whitelist, the Discord mentions).
use vstd::prelude::*;

verus! {

/// The texts of a vector of strings.
pub open spec fn texts(v: Seq<String>) -> Seq<Seq<char>> {
    v.map_values(|s: String| s@)
}

/// The strings of a JSON text that is an array of strings; none for any
/// other text.
pub uninterp spec fn json_string_list(text: Seq<char>) -> Option<Seq<Seq<char>>>;

/// Reads a JSON array of strings.
///
/// Trusted: `serde_json::from_str::<Vec<String>>`, with its error dropped.
/// The result is named `json_string_list`; the JSON grammar is not restated.
#[verifier::external_body]
fn parse_string_list(text: &str) -> (r: Option<Vec<String>>)
    ensures
        match r {
            Some(v) => json_string_list(text@) == Some(texts(v@)),
            None => json_string_list(text@) is None,
        },
{
    serde_json::from_str::<Vec<String>>(text).ok()
}

/// The JSON array text of a list of strings.
pub uninterp spec fn json_list_text(list: Seq<Seq<char>>) -> Seq<char>;

/// Writes a list of strings as a JSON array.
///
/// Trusted: `serde_json::to_string` on a `Vec<String>`. Its documentation
/// names two ways it can fail, a `Serialize` impl that fails and a map with
/// keys that are not strings, and a list of strings has neither, so the
/// empty fallback is never taken. The result is named `json_list_text`.
#[verifier::external_body]
fn write_string_list(list: &Vec<String>) -> (r: String)
    ensures
        r@ == json_list_text(texts(list@)),
{
    serde_json::to_string(list).unwrap_or_default()
}

/// The list a stored value holds: its strings when it is a JSON array of
/// strings, else none (nothing stored, or a value that does not read).
pub open spec fn stored_list(stored: Option<Seq<char>>) -> Seq<Seq<char>> {
    match stored {
        Some(t) => match json_string_list(t) {
            Some(l) => l,
            None => seq![],
        },
        None => seq![],
    }
}

/// The list a stored value holds (see `stored_list`).
pub fn stored_string_list(stored: Option<&str>) -> (r: Vec<String>)
    ensures
        texts(r@) == stored_list(
            match stored {
                Some(t) => Some(t@),
                None => None,
            },
        ),
{
    match stored {
        Some(t) => match parse_string_list(t) {
            Some(v) => v,
            None => {
                let empty: Vec<String> = Vec::new();
                assert(texts(empty@) =~= Seq::<Seq<char>>::empty());
                empty
            },
        },
        None => {
            let empty: Vec<String> = Vec::new();
            assert(texts(empty@) =~= Seq::<Seq<char>>::empty());
            empty
        },
    }
}

/// The text a list is stored as: its JSON array.
pub fn string_list_json(list: &Vec<String>) -> (r: String)
    ensures
        r@ == json_list_text(texts(list@)),
{
    write_string_list(list)
}

} // verus!
