//! The request proxy's core: turn a caller-supplied request description
//! into a concrete plan for a single outbound HTTP request, or reject it.
//! The plan fixes the method, the exact outbound header list, and the body
//! (raw text, form fields, or none); the surrounding application only has
//! to execute it as written.

use vstd::prelude::*;
use crate::form::{form_fields, json_text_fields, string_fields};
use crate::headers::{
    has_content_type, has_form_trigger, is_form_header, kept_headers,
    lemma_content_type_take_step, lemma_form_trigger_take_step, planned_headers,
};
use crate::method::{method_of, parse_method, Method};
use crate::pair_views;

verus! {

/// A caller-supplied description of the outbound request.
#[derive(Debug)]
pub struct RequestPayload {
    /// The HTTP method, as a string; validated against the supported set.
    pub method: String,
    /// Header name/value pairs, names case-insensitive by HTTP convention.
    pub headers: Vec<(String, String)>,
    /// The raw body text, if any.
    pub body: Option<String>,
}

/// What is attached to the outbound request as its body.
#[derive(Debug)]
pub enum BodyPlan {
    /// No body.
    Empty,
    /// The caller's body text, attached as-is.
    Raw(String),
    /// Form encoding: these name/value pairs become the form's fields.
    Form(Vec<(String, String)>),
}

/// A fully decided outbound request: execute exactly this, nothing else.
#[derive(Debug)]
pub struct RequestPlan {
    pub method: Method,
    pub url: String,
    pub headers: Vec<(String, String)>,
    pub body: BodyPlan,
}

impl RequestPayload {
    /// The headers as character-sequence pairs.
    pub open spec fn headers_view(self) -> Seq<(Seq<char>, Seq<char>)> {
        pair_views(self.headers@)
    }

    /// The caller asked for form encoding through a content-type header.
    pub open spec fn wants_form(self) -> bool {
        has_form_trigger(self.headers_view())
    }

    /// A raw (non-form) body will be attached.
    pub open spec fn has_raw_body(self) -> bool {
        self.body is Some && !self.wants_form()
    }
}

/// The plan that a payload must produce, as a predicate over the result.
pub open spec fn plan_for(p: RequestPlan, url: Seq<char>, payload: RequestPayload) -> bool {
    &&& Some(p.method) == method_of(payload.method@)
    &&& p.url@ == url
    &&& pair_views(p.headers@) == planned_headers(payload.headers_view(), payload.has_raw_body())
    &&& match payload.body {
        None => p.body is Empty,
        Some(b) => if payload.wants_form() {
            p.body matches BodyPlan::Form(fs) && pair_views(fs@) == string_fields(
                json_text_fields(b@),
            )
        } else {
            p.body matches BodyPlan::Raw(t) && t@ == b@
        },
    }
}

/// Build the outbound request plan for a payload, or reject it. The call
/// succeeds exactly when the method string names a supported method; any
/// other method string is rejected before anything else is looked at.
pub fn build_request_plan(url: String, payload: RequestPayload) -> (r: Result<RequestPlan, String>)
    ensures
        r is Ok <==> method_of(payload.method@) is Some,
        r matches Err(e) ==> e@ == "Invalid method"@,
        r matches Ok(p) ==> plan_for(p, url@, payload),
{
    let method = match parse_method(payload.method.as_str()) {
        Some(m) => m,
        None => {
            return Err("Invalid method".to_owned());
        },
    };
    let ghost hv = pair_views(payload.headers@);
    let mut kept: Vec<(String, String)> = Vec::new();
    let mut form_found = false;
    let mut has_ct = false;
    let mut i: usize = 0;
    while i < payload.headers.len()
        invariant
            hv == pair_views(payload.headers@),
            i <= payload.headers.len(),
            hv.len() == payload.headers.len(),
            form_found == has_form_trigger(hv.take(i as int)),
            has_ct == has_content_type(hv.take(i as int)),
            pair_views(kept@) == kept_headers(hv.take(i as int)),
        decreases payload.headers.len() - i,
    {
        let ghost prev = kept@;
        let h = &payload.headers[i];
        proof {
            assert(hv[i as int] == (h.0@, h.1@));
        }
        let is_form_hdr = is_form_header(h.0.as_str(), h.1.as_str());
        let is_ct = crate::headers::is_content_type(h.0.as_str());
        if is_form_hdr {
            form_found = true;
        } else {
            kept.push((h.0.clone(), h.1.clone()));
            proof {
                assert(pair_views(kept@) =~= pair_views(prev).push((h.0@, h.1@)));
            }
        }
        if is_ct {
            has_ct = true;
        }
        proof {
            lemma_form_trigger_take_step(hv, i as int);
            lemma_content_type_take_step(hv, i as int);
            assert(hv.take(i + 1).drop_last() =~= hv.take(i as int));
            assert(hv.take(i + 1).last() == hv[i as int]);
        }
        i += 1;
    }
    proof {
        assert(hv.take(payload.headers.len() as int) =~= hv);
    }
    let raw_body = payload.body.is_some() && !form_found;
    let ghost base = kept@;
    kept.push(("User-Agent".to_owned(), "RecipeUI/1".to_owned()));
    proof {
        assert(pair_views(kept@) =~= pair_views(base).push(("User-Agent"@, "RecipeUI/1"@)));
    }
    if raw_body && !has_ct {
        let ghost with_ua = kept@;
        kept.push(("Content-Type".to_owned(), "application/json".to_owned()));
        proof {
            assert(pair_views(kept@) =~= pair_views(with_ua).push(
                ("Content-Type"@, "application/json"@),
            ));
        }
    }
    proof {
        assert(pair_views(kept@) == planned_headers(hv, payload.has_raw_body()));
    }
    let body_plan = match payload.body {
        None => BodyPlan::Empty,
        Some(b) => if form_found {
            BodyPlan::Form(form_fields(b.as_str()))
        } else {
            BodyPlan::Raw(b)
        },
    };
    Ok(RequestPlan { method, url, headers: kept, body: body_plan })
}

} // verus!
