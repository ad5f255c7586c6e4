use vstd::prelude::*;
use crate::cookies::{CookieSet, keys_unique, map_of, pairs_view};
use crate::error::PinterestError;

verus! {

/// The JSON text of an object that maps each name to its value, as
/// serde_json writes it for a map ordered by name.
pub uninterp spec fn json_object_text(m: Map<Seq<char>, Seq<char>>) -> Seq<char>;

/// Relies on serde_json::to_string: a map from strings to strings is written
/// as one JSON object; ordered by name, the text depends on the mapping alone.
/// It fails only for a failing `Serialize` impl or a map whose keys are not
/// strings, neither of which a map of strings has.
#[verifier::external_body]
fn encode_json_object(entries: &Vec<(String, String)>) -> (r: Result<String, String>)
    requires
        keys_unique(pairs_view(entries@)),
    ensures
        r is Ok,
        r matches Ok(t) ==> t@ == json_object_text(map_of(pairs_view(entries@))),
{
    let m: std::collections::BTreeMap<&String, &String> = entries.iter().map(|p| (&p.0, &p.1)).collect();
    serde_json::to_string(&m).map_err(|e| e.to_string())
}

/// The cookies as the text of the credentials file: one JSON object from
/// cookie name to cookie value.
pub fn cookies_to_json(cookies: &CookieSet) -> (r: Result<String, PinterestError>)
    requires
        cookies.wf(),
    ensures
        r matches Ok(t) && t@ == json_object_text(cookies@),
{
    proof {
        cookies.lemma_pairs();
    }
    match encode_json_object(cookies.entries()) {
        Ok(t) => Ok(t),
        Err(m) => Err(PinterestError::ResponseError(m)),
    }
}

} // verus!
