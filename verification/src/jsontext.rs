use vstd::prelude::*;

verus! {

/// Whether the `json` crate accepts `s` as a JSON document.
pub uninterp spec fn json_parses(s: Seq<char>) -> bool;

/// Whether, in the document parsed from `s`, the top-level member `key`
/// compares equal to the string `val`: true only when that member is a JSON
/// string with exactly the characters of `val`.
pub uninterp spec fn json_member_eq(s: Seq<char>, key: Seq<char>, val: Seq<char>) -> bool;

/// The member `outer`.`inner` of the document parsed from `s`, when that
/// member is a JSON string: its characters. `None` when either level is
/// absent or the member is not a JSON string (a JSON number does not count).
pub uninterp spec fn json_nested_str(s: Seq<char>, outer: Seq<char>, inner: Seq<char>) -> Option<
    Seq<char>,
>;

/// Relies on json::parse, json::JsonValue's `Index<&str>` and its
/// `PartialEq<&str>`: parses `text` and compares the top-level member `key`
/// of the result with `expected`. The comparison is true only for a JSON
/// string member with the characters of `expected`; indexing a non-object or
/// a missing key yields JSON null, which compares unequal. json::parse
/// depends on the characters of `text` alone.
#[verifier::external_body]
pub(crate) fn json_member_matches(text: &str, key: &str, expected: &str) -> (r: Option<bool>)
    ensures
        r is Some <==> json_parses(text@),
        r matches Some(m) ==> m == json_member_eq(text@, key@, expected@),
{
    match json::parse(text) {
        Ok(value) => Some(value[key] == expected),
        Err(_) => None,
    }
}

/// Relies on json::parse, json::JsonValue's `Index<&str>` and its `as_str`:
/// parses `text` and reads the member `outer`.`inner` of the result as a
/// string. `as_str` returns `Some` only for a JSON string value; indexing a
/// non-object or a missing key yields JSON null, for which it returns
/// `None`. json::parse depends on the characters of `text` alone.
#[verifier::external_body]
pub(crate) fn json_nested_string(text: &str, outer: &str, inner: &str) -> (r: Option<
    Option<String>,
>)
    ensures
        r is Some <==> json_parses(text@),
        r matches Some(m) ==> ((m is Some) <==> (json_nested_str(text@, outer@, inner@) is Some)),
        r matches Some(m) ==> (m matches Some(v) ==> Some(v@) == json_nested_str(
            text@,
            outer@,
            inner@,
        )),
{
    match json::parse(text) {
        Ok(value) => Some(value[outer][inner].as_str().map(|s: &str| s.to_owned())),
        Err(_) => None,
    }
}

} // verus!
