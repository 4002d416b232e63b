//! Form-field extraction for form-encoded requests. When the caller asks for
//! form encoding, the request body is read as JSON and each top-level field
//! whose value is a plain string becomes one form field; every other field,
//! and a body that is not a JSON object at all, is dropped silently. The JSON
//! reading itself is done by serde_json behind a trusted wrapper; the
//! filtering of the entries is verified here.

use vstd::prelude::*;
use std::str::FromStr;

verus! {

/// The view of the raw entry list a trusted wrapper hands back: for each
/// entry, the key and, where the value was a JSON string, its text.
pub open spec fn entry_views(es: Seq<(String, Option<String>)>) -> Seq<
    (Seq<char>, Option<Seq<char>>),
> {
    es.map_values(
        |p: (String, Option<String>)|
            (
                p.0@,
                match p.1 {
                    Some(t) => Some(t@),
                    None => None::<Seq<char>>,
                },
            ),
    )
}

/// The top-level entries of the JSON object that a body text parses to: for
/// each entry, its key and, where its value is a JSON string, that string.
/// Where the text is not valid JSON, or not a JSON object, the sequence is
/// empty. serde_json's default object representation is an ordered map, so
/// this is a function of the text alone.
pub uninterp spec fn json_text_fields(s: Seq<char>) -> Seq<(Seq<char>, Option<Seq<char>>)>;

/// Relies on serde_json: `Value::from_str` parses the text and `Map::iter`
/// walks the top-level entries of an object in its key order, which is
/// deterministic (the default object representation is an ordered map).
/// The match tells `Value`'s string variant apart from the rest.
#[verifier::external_body]
fn json_object_entries(s: &str) -> (r: Vec<(String, Option<String>)>)
    ensures
        entry_views(r@) == json_text_fields(s@),
{
    match serde_json::Value::from_str(s) {
        Ok(serde_json::Value::Object(m)) => m
            .iter()
            .map(|(k, v)| (k.clone(), match v {
                serde_json::Value::String(t) => Some(t.clone()),
                _ => None,
            }))
            .collect(),
        _ => Vec::new(),
    }
}

/// The entries whose value is a plain string, in order, unwrapped.
pub open spec fn string_fields(es: Seq<(Seq<char>, Option<Seq<char>>)>) -> Seq<
    (Seq<char>, Seq<char>),
>
    decreases es.len(),
{
    if es.len() == 0 {
        Seq::empty()
    } else {
        let rest = string_fields(es.drop_last());
        match es.last().1 {
            Some(v) => rest.push((es.last().0, v)),
            None => rest,
        }
    }
}

/// The form fields a body text yields: the string-valued top-level entries
/// of the JSON object it parses to, and nothing for any other text.
pub fn form_fields(body: &str) -> (r: Vec<(String, String)>)
    ensures
        crate::pair_views(r@) == string_fields(json_text_fields(body@)),
{
    let entries = json_object_entries(body);
    let mut out: Vec<(String, String)> = Vec::new();
    let mut i: usize = 0;
    while i < entries.len()
        invariant
            entry_views(entries@) == json_text_fields(body@),
            i <= entries.len(),
            crate::pair_views(out@) == string_fields(entry_views(entries@).take(i as int)),
        decreases entries.len() - i,
    {
        let ghost prev = out@;
        let ghost es = entry_views(entries@);
        let p = &entries[i];
        match &p.1 {
            Some(t) => {
                out.push((p.0.clone(), t.clone()));
                proof {
                    assert(crate::pair_views(out@) =~= crate::pair_views(prev).push(
                        (p.0@, t@),
                    ));
                }
            },
            None => {},
        }
        proof {
            assert(es.take(i + 1).drop_last() =~= es.take(i as int));
            assert(es.take(i + 1).last() == es[i as int]);
        }
        i += 1;
    }
    proof {
        assert(entry_views(entries@).take(entries@.len() as int) =~= entry_views(entries@));
    }
    out
}

} // verus!
