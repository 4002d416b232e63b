//! A verified request proxy: it turns a caller-supplied description of an
//! HTTP request (method, headers, optional body) into a concrete plan for a
//! single outbound request, and assembles the response summary that goes
//! back to the caller. The network call itself is performed by the
//! surrounding application; every decision about what is sent and what is
//! returned is made here, under contract.

pub mod form;
pub mod headers;
pub mod method;
pub mod plan;
pub mod response;
pub mod text;

use vstd::prelude::*;

verus! {

/// The view of a list of string pairs (header names and values, or form
/// field names and values) as a sequence of character-sequence pairs.
pub open spec fn pair_views(ps: Seq<(String, String)>) -> Seq<(Seq<char>, Seq<char>)> {
    ps.map_values(|p: (String, String)| (p.0@, p.1@))
}

} // verus!
