//! Timestamp display: a valid RFC 3339 timestamp is re-rendered as
//! `DD Mon YYYY, HH:MM`; any other text passes through verbatim.

use vstd::prelude::*;

verus! {

/// What chrono renders for an RFC 3339 timestamp `s`: the parsed moment
/// written back as `DD Mon YYYY, HH:MM` in the timestamp's own offset, or
/// `None` where `s` does not parse. The result depends on `s` alone.
pub uninterp spec fn rfc3339_rendering(s: Seq<char>) -> Option<Seq<char>>;

/// Relies on `chrono::DateTime::parse_from_rfc3339`, and on
/// `chrono::DateTime::format` with the fixed pattern `%d %b %Y, %H:%M`: both
/// compute from the input characters alone, and every specifier in the
/// pattern formats without failing on a parsed `DateTime`.
#[verifier::external_body]
fn render_rfc3339(s: &str) -> (r: Option<String>)
    ensures
        match rfc3339_rendering(s@) {
            Some(t) => r matches Some(rs) && rs@ == t,
            None => r is None,
        },
{
    match chrono::DateTime::parse_from_rfc3339(s) {
        Ok(dt) => Some(dt.format("%d %b %Y, %H:%M").to_string()),
        Err(_) => None,
    }
}

/// The displayed form of a timestamp field: the re-rendering when the text
/// parses as RFC 3339, the text itself verbatim when it does not.
pub open spec fn spec_timestamp_display(s: Seq<char>) -> Seq<char> {
    match rfc3339_rendering(s) {
        Some(t) => t,
        None => s,
    }
}

/// Re-renders a timestamp for display; text that is no RFC 3339 timestamp
/// comes back unchanged.
pub fn timestamp_display(s: &str) -> (r: String)
    ensures
        r@ == spec_timestamp_display(s@),
{
    match render_rfc3339(s) {
        Some(t) => t,
        None => s.to_owned(),
    }
}

/// Text that parses as RFC 3339 displays as its re-rendering; text that does
/// not parse displays verbatim.
pub proof fn lemma_timestamp_display(s: Seq<char>)
    ensures
        rfc3339_rendering(s) is None ==> spec_timestamp_display(s) == s,
        rfc3339_rendering(s) matches Some(t) ==> spec_timestamp_display(s) == t,
{
}

} // verus!
