//! Assembly of the record that goes back to the caller once the response
//! is in: the numeric status, every response header, the response body as
//! text, and the response's content type, with `text/plain` as the default
//! when the response named none.

use vstd::prelude::*;
use crate::headers::{is_content_type, is_content_type_key};
use crate::pair_views;

verus! {

/// The summary of one response, returned to the caller.
#[derive(Debug)]
pub struct ResponseRecord {
    /// The response body, decoded as text.
    pub output: String,
    /// The numeric HTTP status code.
    pub status: u16,
    /// The response's content type, or the default.
    pub content_type: String,
    /// Every response header, name and value.
    pub headers: Vec<(String, String)>,
}

/// The content type a header list yields: the value of its first
/// `content-type` header (name matched case-insensitively), or
/// `text/plain` where there is none.
pub open spec fn content_type_of(hs: Seq<(Seq<char>, Seq<char>)>) -> Seq<char>
    decreases hs.len(),
{
    if hs.len() == 0 {
        "text/plain"@
    } else if is_content_type_key(hs[0].0) {
        hs[0].1
    } else {
        content_type_of(hs.drop_first())
    }
}

/// Assemble the record for one completed response: the status and body are
/// taken as given, the headers are kept whole, and the content type is read
/// from the headers with `text/plain` as the default.
pub fn build_response_record(status: u16, headers: Vec<(String, String)>, output: String) -> (r:
    ResponseRecord)
    ensures
        r.status == status,
        r.output@ == output@,
        r.headers@ == headers@,
        r.content_type@ == content_type_of(pair_views(headers@)),
{
    let ghost hv = pair_views(headers@);
    proof {
        assert(hv.skip(0) =~= hv);
    }
    let mut content_type: Option<String> = None;
    let mut i: usize = 0;
    while i < headers.len()
        invariant
            hv == pair_views(headers@),
            i <= headers.len(),
            hv.len() == headers.len(),
            content_type matches Some(c) ==> c@ == content_type_of(hv),
            content_type is None ==> content_type_of(hv) == content_type_of(hv.skip(i as int)),
        decreases headers.len() - i,
    {
        if content_type.is_none() {
            let h = &headers[i];
            proof {
                assert(hv[i as int] == (h.0@, h.1@));
            }
            if is_content_type(h.0.as_str()) {
                proof {
                    assert(hv.skip(i as int)[0] == hv[i as int]);
                }
                content_type = Some(h.1.clone());
            } else {
                proof {
                    assert(hv.skip(i as int)[0] == hv[i as int]);
                    assert(hv.skip(i as int).drop_first() =~= hv.skip(i + 1));
                }
            }
        }
        i += 1;
    }
    let content_type = match content_type {
        Some(c) => c,
        None => {
            proof {
                assert(hv.skip(headers.len() as int) =~= Seq::<(Seq<char>, Seq<char>)>::empty());
            }
            "text/plain".to_owned()
        },
    };
    ResponseRecord { output, status, content_type, headers }
}

} // verus!
