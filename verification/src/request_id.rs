//! Correlation ids: one fresh id per request, fit to travel in a header.

use vstd::prelude::*;

verus! {

/// A character of Crockford's base 32 alphabet: a digit, or a capital letter
/// other than I, L, O and U.
pub open spec fn is_crockford(c: char) -> bool {
    ('0' <= c && c <= '9') || ('A' <= c && c <= 'Z' && c != 'I' && c != 'L' && c != 'O' && c != 'U')
}

/// The text form of a 128-bit id: 26 characters of the alphabet.
pub open spec fn is_id_text(s: Seq<char>) -> bool {
    s.len() == 26 && forall|i: int| 0 <= i < s.len() ==> is_crockford(#[trigger] s[i])
}

/// A character that a header value may hold: a tab, or anything from the
/// space upwards but the delete character.
pub open spec fn header_safe_char(c: char) -> bool {
    (c >= ' ' && c != '\x7f') || c == '\t'
}

/// Every character of `s` may stand in a header value.
pub open spec fn header_safe(s: Seq<char>) -> bool {
    forall|i: int| 0 <= i < s.len() ==> header_safe_char(#[trigger] s[i])
}

/// `ulid::Ulid::generate` followed by `Ulid::to_string`: a fresh id from the clock
/// and a random source, rendered as 26 characters of Crockford's alphabet.
/// Which id comes back is not stated: two calls differ.
#[verifier::external_body]
fn fresh_id_text() -> (r: String)
    ensures
        is_id_text(r@),
{
    ulid::Ulid::generate().to_string()
}

/// `http::HeaderValue::from_str`: it accepts a string exactly when each of
/// its bytes is a tab or at least 32 and not 127. The bytes of a character
/// beyond ASCII are all above 127, so the test reads the same over characters.
#[verifier::external_body]
fn accepted_as_header_value(s: &str) -> (r: bool)
    ensures
        r == header_safe(s@),
{
    http::HeaderValue::from_str(s).is_ok()
}

/// An id text is always fit for a header.
pub proof fn lemma_id_text_header_safe(s: Seq<char>)
    requires
        is_id_text(s),
    ensures
        header_safe(s),
{
    assert forall|i: int| 0 <= i < s.len() implies header_safe_char(#[trigger] s[i]) by {
        assert(is_crockford(s[i]));
    }
}

/// Keeps `id` if it can travel in a header, and drops it otherwise.
pub fn header_id(id: String) -> (r: Option<String>)
    ensures
        r == if header_safe(id@) {
            Some(id)
        } else {
            None
        },
{
    if accepted_as_header_value(id.as_str()) {
        Some(id)
    } else {
        None
    }
}

/// Issues the correlation id of one request. An id is always issued: its
/// text is 26 characters of Crockford's alphabet, all of which a header
/// accepts.
pub fn make_request_id() -> (r: Option<String>)
    ensures
        r matches Some(id) && is_id_text(id@) && header_safe(id@),
{
    let id = fresh_id_text();
    proof {
        lemma_id_text_header_safe(id@);
    }
    header_id(id)
}

} // verus!
