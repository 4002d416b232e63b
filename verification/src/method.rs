//! The closed set of HTTP methods the proxy is willing to issue. The method
//! arrives from the caller as a string and is validated here, before any
//! request is built; every other string is rejected.

use vstd::prelude::*;
use crate::text::str_eq;

verus! {

/// An HTTP method the proxy supports.
#[derive(Clone, Copy, PartialEq, Eq, Structural, Debug)]
pub enum Method {
    Get,
    Post,
    Put,
    Patch,
    Delete,
}

/// The method, if any, that a caller-supplied method string names.
/// Matching is exact (case-sensitive), as HTTP method names are.
pub open spec fn method_of(s: Seq<char>) -> Option<Method> {
    if s == "GET"@ {
        Some(Method::Get)
    } else if s == "POST"@ {
        Some(Method::Post)
    } else if s == "PUT"@ {
        Some(Method::Put)
    } else if s == "PATCH"@ {
        Some(Method::Patch)
    } else if s == "DELETE"@ {
        Some(Method::Delete)
    } else {
        None
    }
}

/// Validate a method string against the supported set.
pub fn parse_method(s: &str) -> (r: Option<Method>)
    ensures
        r == method_of(s@),
{
    if str_eq(s, "GET") {
        Some(Method::Get)
    } else if str_eq(s, "POST") {
        Some(Method::Post)
    } else if str_eq(s, "PUT") {
        Some(Method::Put)
    } else if str_eq(s, "PATCH") {
        Some(Method::Patch)
    } else if str_eq(s, "DELETE") {
        Some(Method::Delete)
    } else {
        None
    }
}

impl Method {
    /// The canonical name of the method, the same string that `method_of`
    /// accepts for it.
    pub fn name(&self) -> (r: &'static str)
        ensures
            method_of(r@) == Some(*self),
    {
        proof {
            reveal_strlit("GET");
            reveal_strlit("POST");
            reveal_strlit("PUT");
            reveal_strlit("PATCH");
            reveal_strlit("DELETE");
            assert("GET"@.len() == 3);
            assert("POST"@.len() == 4);
            assert("PUT"@.len() == 3);
            assert("PATCH"@.len() == 5);
            assert("DELETE"@.len() == 6);
            assert("GET"@[0] == 'G');
            assert("PUT"@[0] == 'P');
        }
        match self {
            Method::Get => "GET",
            Method::Post => "POST",
            Method::Put => "PUT",
            Method::Patch => "PATCH",
            Method::Delete => "DELETE",
        }
    }
}

} // verus!
