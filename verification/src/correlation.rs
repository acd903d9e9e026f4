//! Error correlation: a failure of a backend is kept for the operator's log
//! under a fresh identifier, and the user is told the identifier alone.

use crate::trusted::{fresh_correlation_id, is_correlation_id};
use vstd::prelude::*;
use vstd::string::*;

verus! {

pub const FAILURE_NOTICE_HEAD: &'static str =
    "there was an error processing your request, you can use this ID to track the issue `";

pub const FAILURE_NOTICE_TAIL: &'static str = "`";

/// What goes to the operator's log for one failure: the identifier and the
/// cause it stands for.
#[derive(Debug, PartialEq, Eq)]
pub struct FailureReport {
    pub error_id: String,
    pub cause: String,
}

/// A failure report as a mathematical value.
pub struct FailureRecord {
    pub error_id: Seq<char>,
    pub cause: Seq<char>,
}

impl View for FailureReport {
    type V = FailureRecord;

    open spec fn view(&self) -> FailureRecord {
        FailureRecord { error_id: self.error_id@, cause: self.cause@ }
    }
}

impl DeepView for FailureReport {
    type V = FailureRecord;

    open spec fn deep_view(&self) -> FailureRecord {
        self@
    }
}

/// The text shown to the user for the failure filed under `error_id`: fixed
/// words around the identifier, and nothing of the cause.
pub open spec fn failure_notice(error_id: Seq<char>) -> Seq<char> {
    FAILURE_NOTICE_HEAD@ + error_id + FAILURE_NOTICE_TAIL@
}

/// Words the notice for a failure that goes by `error_id`.
pub fn failure_text(error_id: &str) -> (text: String)
    ensures
        text@ == failure_notice(error_id@),
{
    let mut text = String::from_str(FAILURE_NOTICE_HEAD);
    text.append(error_id);
    text.append(FAILURE_NOTICE_TAIL);
    text
}

/// Files `cause` under `error_id` and words the notice that names it.
pub fn file_failure(error_id: String, cause: String) -> (filed: (FailureReport, String))
    ensures
        filed.0@ == (FailureRecord { error_id: error_id@, cause: cause@ }),
        filed.1@ == failure_notice(error_id@),
{
    let text = failure_text(error_id.as_str());
    (FailureReport { error_id, cause }, text)
}

/// Files `cause` under a fresh random identifier and words the notice.
/// Whatever identifier is drawn, the report keeps the cause unchanged and
/// the notice is `failure_notice` of that identifier.
pub fn correlate(cause: String) -> (filed: (FailureReport, String))
    ensures
        filed.0@.cause == cause@,
        is_correlation_id(filed.0@.error_id),
        filed.1@ == failure_notice(filed.0@.error_id),
{
    let error_id = fresh_correlation_id();
    file_failure(error_id, cause)
}

/// Two failures filed under different identifiers are told apart by their
/// notices: the notice determines the identifier.
pub proof fn notice_determines_identifier(a: Seq<char>, b: Seq<char>)
    requires
        failure_notice(a) == failure_notice(b),
    ensures
        a == b,
{
    let head = FAILURE_NOTICE_HEAD@;
    let tail = FAILURE_NOTICE_TAIL@;
    let na = failure_notice(a);
    let nb = failure_notice(b);
    assert(na.len() == head.len() + a.len() + tail.len());
    assert(nb.len() == head.len() + b.len() + tail.len());
    assert(a.len() == b.len());
    assert forall|i: int| 0 <= i < a.len() implies a[i] == b[i] by {
        assert(na[head.len() + i] == a[i]);
        assert(nb[head.len() + i] == b[i]);
    }
    assert(a =~= b);
}

} // verus!
