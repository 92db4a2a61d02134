use vstd::prelude::*;
use vstd::string::StringExecFns;

verus! {

/// The JSON string literal (quotes and escapes included) that serde_json
/// writes for a string.
pub uninterp spec fn json_quoted(s: Seq<char>) -> Seq<char>;

/// Relies on `serde_json::to_string` applied to a `str`: it writes the JSON
/// string literal for the text. Serialising a `str` into a `Vec` cannot fail,
/// so the fallback is never taken.
#[verifier::external_body]
fn quote(s: &str) -> (r: String)
    ensures
        r@ == json_quoted(s@),
{
    serde_json::to_string(s).unwrap_or_default()
}

/// Appends a key prefix (such as `,"label":`) and the JSON literal of `value`.
pub(crate) fn push_member(body: &mut String, prefix: &str, value: &String)
    ensures
        final(body)@ == old(body)@ + prefix@ + json_quoted(value@),
{
    body.append(prefix);
    let q = quote(value.as_str());
    body.append(q.as_str());
}

} // verus!
