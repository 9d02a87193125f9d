use vstd::prelude::*;

verus! {

/// The canonical decimal rendering of the number that `s` denotes: the text
/// that the `json` crate's number formatting gives to the JSON number parsed
/// from `s`. `None` when `s` is not a JSON number (so not a plain decimal
/// float string).
pub uninterp spec fn number_str_norm(s: Seq<char>) -> Option<Seq<char>>;

/// Relies on json::parse, json::JsonValue::as_number and the Display of
/// json::number::Number: parses `s` as a JSON document and, when the result
/// is a number, renders it back with the crate's decimal formatting. All
/// three depend on the characters of `s` alone, so their composition is a
/// function of `s`.
#[verifier::external_body]
pub(crate) fn normalize_number_str(s: &str) -> (r: Option<String>)
    ensures
        r is Some <==> number_str_norm(s@) is Some,
        r matches Some(v) ==> Some(v@) == number_str_norm(s@),
{
    match json::parse(s) {
        Ok(value) => match value.as_number() {
            Some(number) => Some(number.to_string()),
            None => None,
        },
        Err(_) => None,
    }
}

} // verus!
