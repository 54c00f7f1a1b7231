//! The response side: the attributes written when a span is completed for
//! an HTTP response, and the resolution of the span's terminal status.

use vstd::prelude::*;
use crate::request::{attrs_match, has_key};
use crate::text::{decimal_digits, decimal_string};

verus! {

/// The standardised reason phrase for a numeric status code, if one
/// exists: the result of `StatusCode::canonical_reason` below, which is a
/// function of the code alone (codes outside 100..=999 have none).
pub uninterp spec fn canonical_reason_of(code: u16) -> Option<Seq<char>>;

/// Relies on http's `StatusCode::canonical_reason` (through hyper's
/// re-export): the standardised reason phrase is determined by the numeric
/// code alone, and its documentation shows code 200 giving `"OK"`.
/// `StatusCode::from_u16` converts the argument and accepts exactly the
/// codes 100..=999; any other code therefore has no reason phrase.
#[verifier::external_body]
fn canonical_reason_text(code: u16) -> (r: Option<String>)
    ensures
        r is Some <==> canonical_reason_of(code) is Some,
        r is Some ==> r->0@ == canonical_reason_of(code)->0,
        code == 200 ==> r is Some && r->0@ == "OK"@,
{
    match hyper::StatusCode::from_u16(code) {
        Ok(c) => c.canonical_reason().map(|t| t.to_owned()),
        Err(_) => None,
    }
}

/// The exact attribute list written when a span is completed with status
/// `status`: `http.status_code` always, as the decimal form of the code,
/// then `http.status_text` exactly when a canonical reason phrase exists
/// for the code, carrying that phrase.
pub open spec fn response_attrs_spec(status: u16) -> Seq<(Seq<char>, Seq<char>)> {
    seq![("http.status_code"@, decimal_digits(status as nat))] + (match canonical_reason_of(
        status,
    ) {
        Option::Some(t) => seq![("http.status_text"@, t)],
        Option::None => Seq::empty(),
    })
}

pub fn response_attributes(status: u16) -> (r: Vec<(String, String)>)
    ensures
        attrs_match(r@, response_attrs_spec(status)),
{
    let mut r: Vec<(String, String)> = Vec::new();
    r.push(("http.status_code".to_owned(), decimal_string(status)));
    match canonical_reason_text(status) {
        Option::Some(t) => r.push(("http.status_text".to_owned(), t)),
        Option::None => (),
    }
    r
}

/// The terminal-status policy: the canonical success code 200 leaves the
/// span's status untouched (`None`); every other code marks it as an
/// error, described by the decimal form of the code (`Some`).
pub open spec fn error_description_spec(status: u16) -> Option<Seq<char>> {
    if status == 200 {
        Option::None
    } else {
        Option::Some(decimal_digits(status as nat))
    }
}

pub fn status_error_description(status: u16) -> (r: Option<String>)
    ensures
        r is Some <==> error_description_spec(status) is Some,
        r is Some ==> r->0@ == error_description_spec(status)->0,
{
    if status == 200 {
        Option::None
    } else {
        Option::Some(decimal_string(status))
    }
}

/// Status 200 is the one and only non-error outcome; every other status
/// yields an error status whose description is exactly the code's decimal
/// form.
pub proof fn lemma_status_policy(status: u16)
    ensures
        status == 200 <==> error_description_spec(status) is None,
        status != 200 ==> error_description_spec(status) == Option::Some(
            decimal_digits(status as nat),
        ),
{
}

/// No key is written twice while a span is completed: the response-side
/// attribute list bears pairwise-distinct keys, so no attribute is
/// overwritten within that phase.
pub proof fn lemma_response_keys_distinct(status: u16)
    ensures
        forall|i: int, j: int|
            0 <= i < j < response_attrs_spec(status).len() ==> (#[trigger] response_attrs_spec(
                status,
            )[i]).0 != (#[trigger] response_attrs_spec(status)[j]).0,
{
    reveal_strlit("http.status_code");
    reveal_strlit("http.status_text");
    assert("http.status_code"@[12] == 'c');
    assert("http.status_text"@[12] == 't');
    assert("http.status_code"@ != "http.status_text"@);
}

/// `http.status_text` is present exactly when a canonical reason phrase
/// exists for the code, and then carries it, right after
/// `http.status_code`.
pub proof fn lemma_status_text_presence(status: u16)
    ensures
        has_key(response_attrs_spec(status), "http.status_text"@) <==> canonical_reason_of(
            status,
        ) is Some,
        canonical_reason_of(status) is Some ==> response_attrs_spec(status)[1] == (
            "http.status_text"@,
            canonical_reason_of(status)->0,
        ),
{
    reveal_strlit("http.status_code");
    reveal_strlit("http.status_text");
    let s = response_attrs_spec(status);
    if canonical_reason_of(status) is Some {
        assert(s[1].0 == "http.status_text"@);
        assert(has_key(s, "http.status_text"@));
    } else {
        assert("http.status_code"@[12] == 'c');
        assert("http.status_text"@[12] == 't');
        assert forall|i: int| 0 <= i < s.len() implies (#[trigger] s[i]).0
            != "http.status_text"@ by {
            assert("http.status_code"@ != "http.status_text"@);
        }
    }
}

} // verus!
