//! The calls this library makes into other crates. Each function here is
//! believed, not proved: its body is a single outside call, and its contract
//! says what that call is relied on to do.

use vstd::prelude::*;

verus! {

/// Whether `c` is one of the eighteen characters that carry a meaning in the
/// chat's markup dialect.
pub open spec fn is_markup_char(c: char) -> bool {
    c == '_' || c == '*' || c == '[' || c == ']' || c == '(' || c == ')' || c == '~' || c == '`'
        || c == '>' || c == '#' || c == '+' || c == '-' || c == '=' || c == '|' || c == '{' || c
        == '}' || c == '.' || c == '!'
}

/// `s` with a backslash put before every markup character; all other
/// characters, the backslash among them, are kept as they are.
pub open spec fn markup_escaped(s: Seq<char>) -> Seq<char>
    decreases s.len(),
{
    if s.len() == 0 {
        Seq::<char>::empty()
    } else if is_markup_char(s.last()) {
        markup_escaped(s.drop_last()).push('\\').push(s.last())
    } else {
        markup_escaped(s.drop_last()).push(s.last())
    }
}

/// Calls `teloxide::utils::markdown::escape`, which replaces, one after the
/// other, each of the eighteen markup characters by a backslash and that
/// character. No replacement touches what an earlier one put in, so the
/// outcome is the character-wise `markup_escaped`.
#[verifier::external_body]
pub(crate) fn escape_markup(s: &str) -> (escaped: String)
    ensures
        escaped@ == markup_escaped(s@),
{
    teloxide::utils::markdown::escape(s)
}

/// Whether `c` is a digit of lower-case hexadecimal notation.
pub open spec fn is_lower_hex(c: char) -> bool {
    ('0' <= c && c <= '9') || ('a' <= c && c <= 'f')
}

/// What every correlation identifier looks like: thirty-two lower-case
/// hexadecimal digits.
pub open spec fn is_correlation_id(id: Seq<char>) -> bool {
    &&& id.len() == 32
    &&& forall|i: int| 0 <= i < id.len() ==> is_lower_hex(#[trigger] id[i])
}

/// Calls `uuid::Uuid::new_v4` and writes the identifier in its `simple`
/// form: the 128 bits as thirty-two lower-case hexadecimal digits, without
/// hyphens. Which digits come out is left open: they are drawn at random, so
/// two calls are not claimed to agree or to differ. The outside call panics
/// only when the operating system can supply no random bytes.
#[verifier::external_body]
pub(crate) fn fresh_correlation_id() -> (id: String)
    ensures
        is_correlation_id(id@),
{
    uuid::Uuid::new_v4().simple().to_string()
}

/// Whether `url::Url::parse` accepts the text `s` as an absolute URL.
pub uninterp spec fn url_parses(s: Seq<char>) -> bool;

/// Calls `reqwest::Url::parse` (the parser of the `url` crate) and tells
/// whether it accepted the text. The parser reads nothing but its argument.
#[verifier::external_body]
pub(crate) fn is_url(s: &str) -> (accepted: bool)
    ensures
        accepted == url_parses(s@),
{
    reqwest::Url::parse(s).is_ok()
}

/// How `chrono` writes the moment `secs` seconds after the Unix epoch as a
/// calendar date and time of day in UTC; `None` where the moment lies
/// outside the years that `chrono` can represent.
pub uninterp spec fn timestamp_rendering(secs: int) -> Option<Seq<char>>;

/// Calls `chrono::DateTime::from_timestamp` with no fractional part and, for
/// a moment it can represent, writes `naive_local()` of it as text. In UTC
/// the local time is the stored time, so nothing but `secs` enters.
#[verifier::external_body]
pub(crate) fn render_timestamp(secs: i64) -> (text: Option<String>)
    ensures
        text.deep_view() == timestamp_rendering(secs as int),
{
    match chrono::DateTime::from_timestamp(secs, 0) {
        Some(moment) => Some(moment.naive_local().to_string()),
        None => None,
    }
}

} // verus!
