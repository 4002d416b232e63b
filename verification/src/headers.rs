//! Header policy for the outbound request. Caller headers are forwarded
//! verbatim, with one exception: a `content-type` header (name matched
//! case-insensitively) whose value mentions "form" switches the request to
//! form encoding and is itself not forwarded. A fixed user-agent pair is
//! always appended, and a raw body with no caller-supplied content type gets
//! a default one.

use vstd::prelude::*;
use crate::text::{contains_seq, lower_seq, str_contains, str_eq_ignore_case};

verus! {

/// `k` names the `content-type` header, up to ASCII case.
pub open spec fn is_content_type_key(k: Seq<char>) -> bool {
    lower_seq(k) == "content-type"@
}

/// The lowercase literal is its own ASCII case folding.
pub proof fn lemma_content_type_folded()
    ensures
        lower_seq("content-type"@) == "content-type"@,
{
    reveal_strlit("content-type");
    assert(lower_seq("content-type"@) =~= "content-type"@);
}

/// Decide whether a header name is `content-type`, up to ASCII case.
pub fn is_content_type(k: &str) -> (r: bool)
    ensures
        r == is_content_type_key(k@),
{
    proof {
        lemma_content_type_folded();
    }
    str_eq_ignore_case(k, "content-type")
}

/// The header switches the request to form encoding: it names
/// `content-type` and its value mentions "form".
pub open spec fn is_form_trigger(k: Seq<char>, v: Seq<char>) -> bool {
    is_content_type_key(k) && contains_seq(v, "form"@)
}

/// Decide whether a header switches the request to form encoding.
pub fn is_form_header(k: &str, v: &str) -> (r: bool)
    ensures
        r == is_form_trigger(k@, v@),
{
    is_content_type(k) && str_contains(v, "form")
}

/// Some header in the list switches the request to form encoding.
pub open spec fn has_form_trigger(hs: Seq<(Seq<char>, Seq<char>)>) -> bool {
    exists|i: int| 0 <= i < hs.len() && #[trigger] is_form_trigger(hs[i].0, hs[i].1)
}

/// Some header in the list names `content-type`, up to ASCII case.
pub open spec fn has_content_type(hs: Seq<(Seq<char>, Seq<char>)>) -> bool {
    exists|i: int| 0 <= i < hs.len() && #[trigger] is_content_type_key(hs[i].0)
}

/// The caller headers that are forwarded: all of them, in order, except the
/// ones that switch the request to form encoding.
pub open spec fn kept_headers(hs: Seq<(Seq<char>, Seq<char>)>) -> Seq<(Seq<char>, Seq<char>)>
    decreases hs.len(),
{
    if hs.len() == 0 {
        Seq::empty()
    } else if is_form_trigger(hs.last().0, hs.last().1) {
        kept_headers(hs.drop_last())
    } else {
        kept_headers(hs.drop_last()).push(hs.last())
    }
}

/// The full outbound header list: the forwarded caller headers, then the
/// fixed user-agent pair, then — only when a raw body is attached and the
/// caller supplied no content type — the default content type.
pub open spec fn planned_headers(hs: Seq<(Seq<char>, Seq<char>)>, raw_body: bool) -> Seq<
    (Seq<char>, Seq<char>),
> {
    let base = kept_headers(hs).push(("User-Agent"@, "RecipeUI/1"@));
    if raw_body && !has_content_type(hs) {
        base.push(("Content-Type"@, "application/json"@))
    } else {
        base
    }
}

/// Extending a header list by one entry extends `has_form_trigger` by that
/// entry's own test.
pub proof fn lemma_form_trigger_take_step(hs: Seq<(Seq<char>, Seq<char>)>, i: int)
    requires
        0 <= i < hs.len(),
    ensures
        has_form_trigger(hs.take(i + 1)) == (has_form_trigger(hs.take(i)) || is_form_trigger(
            hs[i].0,
            hs[i].1,
        )),
{
    if is_form_trigger(hs[i].0, hs[i].1) {
        assert(hs.take(i + 1)[i] == hs[i]);
        assert(is_form_trigger(hs.take(i + 1)[i].0, hs.take(i + 1)[i].1));
    }
    if has_form_trigger(hs.take(i)) {
        let j = choose|j: int|
            0 <= j < hs.take(i).len() && #[trigger] is_form_trigger(
                hs.take(i)[j].0,
                hs.take(i)[j].1,
            );
        assert(hs.take(i + 1)[j] == hs.take(i)[j]);
        assert(is_form_trigger(hs.take(i + 1)[j].0, hs.take(i + 1)[j].1));
    }
    if has_form_trigger(hs.take(i + 1)) && !is_form_trigger(hs[i].0, hs[i].1) {
        let j = choose|j: int|
            0 <= j < hs.take(i + 1).len() && #[trigger] is_form_trigger(
                hs.take(i + 1)[j].0,
                hs.take(i + 1)[j].1,
            );
        assert(j < i);
        assert(hs.take(i)[j] == hs.take(i + 1)[j]);
        assert(is_form_trigger(hs.take(i)[j].0, hs.take(i)[j].1));
    }
}

/// Extending a header list by one entry extends `has_content_type` by that
/// entry's own test.
pub proof fn lemma_content_type_take_step(hs: Seq<(Seq<char>, Seq<char>)>, i: int)
    requires
        0 <= i < hs.len(),
    ensures
        has_content_type(hs.take(i + 1)) == (has_content_type(hs.take(i)) || is_content_type_key(
            hs[i].0,
        )),
{
    if is_content_type_key(hs[i].0) {
        assert(hs.take(i + 1)[i] == hs[i]);
        assert(is_content_type_key(hs.take(i + 1)[i].0));
    }
    if has_content_type(hs.take(i)) {
        let j = choose|j: int|
            0 <= j < hs.take(i).len() && #[trigger] is_content_type_key(hs.take(i)[j].0);
        assert(hs.take(i + 1)[j] == hs.take(i)[j]);
        assert(is_content_type_key(hs.take(i + 1)[j].0));
    }
    if has_content_type(hs.take(i + 1)) && !is_content_type_key(hs[i].0) {
        let j = choose|j: int|
            0 <= j < hs.take(i + 1).len() && #[trigger] is_content_type_key(hs.take(i + 1)[j].0);
        assert(j < i);
        assert(hs.take(i)[j] == hs.take(i + 1)[j]);
        assert(is_content_type_key(hs.take(i)[j].0));
    }
}

/// Every forwarded header is one of the caller's headers.
pub proof fn lemma_kept_headers_subset(hs: Seq<(Seq<char>, Seq<char>)>)
    ensures
        forall|i: int|
            0 <= i < kept_headers(hs).len() ==> exists|j: int|
                0 <= j < hs.len() && #[trigger] kept_headers(hs)[i] == hs[j],
    decreases hs.len(),
{
    if hs.len() > 0 {
        lemma_kept_headers_subset(hs.drop_last());
        assert forall|i: int| 0 <= i < kept_headers(hs).len() implies exists|j: int|
            0 <= j < hs.len() && #[trigger] kept_headers(hs)[i] == hs[j] by {
            let rest = kept_headers(hs.drop_last());
            if i < rest.len() {
                let j = choose|j: int|
                    0 <= j < hs.drop_last().len() && #[trigger] rest[i] == hs.drop_last()[j];
                assert(hs.drop_last()[j] == hs[j]);
                assert(kept_headers(hs)[i] == hs[j]);
            } else {
                assert(kept_headers(hs)[i] == hs.last());
                assert(kept_headers(hs)[i] == hs[hs.len() - 1]);
            }
        }
    }
}

/// When no caller header asks for form encoding, every caller header is
/// forwarded unchanged and in order: the forwarded list is the caller's
/// list itself.
pub proof fn lemma_no_trigger_keeps_all(hs: Seq<(Seq<char>, Seq<char>)>)
    requires
        !has_form_trigger(hs),
    ensures
        kept_headers(hs) == hs,
    decreases hs.len(),
{
    if hs.len() > 0 {
        assert(!is_form_trigger(hs[hs.len() - 1].0, hs[hs.len() - 1].1));
        assert forall|i: int|
            0 <= i < hs.drop_last().len() implies !(#[trigger] is_form_trigger(
            hs.drop_last()[i].0,
            hs.drop_last()[i].1,
        )) by {
            assert(hs.drop_last()[i] == hs[i]);
            assert(!is_form_trigger(hs[i].0, hs[i].1));
        }
        lemma_no_trigger_keeps_all(hs.drop_last());
        assert(kept_headers(hs) =~= hs);
    }
}

/// When a raw body is planned and the caller supplied no content type, the
/// planned header list ends with the default
/// `("Content-Type", "application/json")` pair, and no earlier planned
/// header names `content-type`: the default is the request's content type.
pub proof fn lemma_default_content_type(hs: Seq<(Seq<char>, Seq<char>)>)
    requires
        !has_content_type(hs),
    ensures
        planned_headers(hs, true).last() == ("Content-Type"@, "application/json"@),
        forall|i: int|
            0 <= i < planned_headers(hs, true).len() - 1 ==> !is_content_type_key(
                #[trigger] planned_headers(hs, true)[i].0,
            ),
{
    let planned = planned_headers(hs, true);
    lemma_kept_headers_subset(hs);
    lemma_content_type_folded();
    reveal_strlit("content-type");
    reveal_strlit("User-Agent");
    assert("User-Agent"@.len() == 10);
    assert("content-type"@.len() == 12);
    assert forall|i: int| 0 <= i < planned.len() - 1 implies !is_content_type_key(
        #[trigger] planned[i].0,
    ) by {
        let kept = kept_headers(hs);
        if i < kept.len() {
            assert(planned[i] == kept[i]);
            let j = choose|j: int| 0 <= j < hs.len() && #[trigger] kept[i] == hs[j];
            assert(!is_content_type_key(hs[j].0));
        } else {
            assert(planned[i] == ("User-Agent"@, "RecipeUI/1"@));
            assert(lower_seq("User-Agent"@).len() == 10);
        }
    }
}

} // verus!
