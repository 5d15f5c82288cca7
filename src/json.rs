use vstd::prelude::*;

verus! {

/// The JSON text that serde_json writes for a list of string pairs.
pub uninterp spec fn json_of_pairs(p: Seq<(Seq<char>, Seq<char>)>) -> Seq<char>;

/// The list of string pairs that serde_json reads from a text, if it reads one.
pub uninterp spec fn pairs_of_json(s: Seq<char>) -> Option<Seq<(Seq<char>, Seq<char>)>>;

/// A list of string pairs as a sequence of character sequences.
pub open spec fn pairs_view(v: Seq<(String, String)>) -> Seq<(Seq<char>, Seq<char>)> {
    v.map_values(|q: (String, String)| (q.0@, q.1@))
}

/// Relies on serde_json::to_string: a list of string pairs contains no map
/// and no type whose serialisation can fail, so the call succeeds, and what it
/// writes serde_json::from_str reads back as the same list.
#[verifier::external_body]
pub(crate) fn pairs_to_json(v: &Vec<(String, String)>) -> (r: Option<String>)
    ensures
        r is Some,
        r is Some ==> r->Some_0@ == json_of_pairs(pairs_view(v@)),
        r is Some ==> pairs_of_json(r->Some_0@) == Some(pairs_view(v@)),
{
    serde_json::to_string(v).ok()
}

/// Relies on serde_json::from_str: reads a JSON array of two-string arrays.
#[verifier::external_body]
pub(crate) fn json_to_pairs(s: &str) -> (r: Option<Vec<(String, String)>>)
    ensures
        match pairs_of_json(s@) {
            Some(p) => r is Some && pairs_view(r->Some_0@) == p,
            None => r is None,
        },
{
    serde_json::from_str(s).ok()
}

} // verus!
