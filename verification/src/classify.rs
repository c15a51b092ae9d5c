//! The classes of an answer of the service, and the mark of a spent monthly
//! quota in the body of one.

use crate::json::{json_text, json_view, member_of, text_of, Json};
use crate::text::{contains_text, occurs_in};
use vstd::prelude::*;

verus! {

/// What an answer of the service means for the call and for the credential
/// that carried the request.
#[derive(Clone, Copy, Debug, PartialEq, Eq, Structural)]
pub enum Outcome {
    /// A status from 200 to 299.
    Success,
    /// Status 400: the call fails, the credential is not blamed.
    BadRequest,
    /// Status 401 or 403: the credential is blamed.
    AuthFailure,
    /// Status 402 with the mark of a spent monthly quota in the body.
    QuotaExhausted,
    /// Status 408, 429 or 500 to 599: worth a retry on the same credential.
    Transient,
    /// Another status from 400 to 499: the call fails, the credential is
    /// not blamed.
    OtherClient,
    /// Anything else: retried as a transient answer.
    Unknown,
}

/// The reason that the service gives where a monthly quota is spent.
pub const MONTHLY_REQUEST_COUNT: &'static str = "MONTHLY_REQUEST_COUNT";

/// The reason that the service gives where a monthly quota is spent, as
/// characters.
pub open spec fn monthly_marker() -> Seq<char> {
    "MONTHLY_REQUEST_COUNT"@
}

/// The JSON string at the member `reason` of `doc`, if there is one.
pub open spec fn reason_of(doc: Json) -> Option<Seq<char>> {
    match member_of(doc, "reason"@) {
        Some(reason) => text_of(reason),
        None => None,
    }
}

/// The JSON string at the member `reason` of the member `error` of `doc`,
/// if there is one.
pub open spec fn nested_reason_of(doc: Json) -> Option<Seq<char>> {
    match member_of(doc, "error"@) {
        Some(error) => reason_of(error),
        None => None,
    }
}

/// Whether the document gives the spent monthly quota as its reason, at the
/// top or beneath `error`.
pub open spec fn names_monthly_limit(doc: Json) -> bool {
    reason_of(doc) == Some(monthly_marker()) || nested_reason_of(doc) == Some(monthly_marker())
}

/// Whether a body tells that the monthly quota is spent: the marker occurs
/// somewhere in it, or it parses as JSON to a document that gives the marker
/// as its reason.
pub open spec fn is_monthly_quota_text(body: Seq<char>) -> bool {
    occurs_in(monthly_marker(), body) || match json_text(body) {
        Some(doc) => names_monthly_limit(doc),
        None => false,
    }
}

/// Whether `status` tells success.
pub open spec fn is_success_status(status: u16) -> bool {
    200 <= status < 300
}

/// The class of an answer with status `status` and body `body`.
pub open spec fn outcome_of(status: u16, body: Seq<char>) -> Outcome {
    if is_success_status(status) {
        Outcome::Success
    } else if status == 402 && is_monthly_quota_text(body) {
        Outcome::QuotaExhausted
    } else if status == 400 {
        Outcome::BadRequest
    } else if status == 401 || status == 403 {
        Outcome::AuthFailure
    } else if status == 408 || status == 429 || (500 <= status < 600) {
        Outcome::Transient
    } else if 400 <= status < 500 {
        Outcome::OtherClient
    } else {
        Outcome::Unknown
    }
}

impl Outcome {
    /// Whether the outcome is held against the credential.
    pub open spec fn blames_credential(self) -> bool {
        self == Outcome::AuthFailure || self == Outcome::QuotaExhausted
    }

    /// Whether the outcome ends the call at once with an error.
    pub open spec fn is_terminal(self) -> bool {
        self == Outcome::BadRequest || self == Outcome::OtherClient
    }

    /// Whether the outcome is retried after a pause.
    pub open spec fn is_retried(self) -> bool {
        self == Outcome::Transient || self == Outcome::Unknown
    }
}

/// Tells whether `status` is a success.
pub fn is_success(status: u16) -> (success: bool)
    ensures
        success == is_success_status(status),
{
    200 <= status && status < 300
}

/// Tells whether the JSON string `value` is the marker of the spent monthly
/// quota.
fn is_marker_text(value: &serde_json::Value) -> (same: bool)
    ensures
        same == (text_of(json_view(*value)) == Some(monthly_marker())),
{
    match crate::json::text(value) {
        Some(reason) => same_text(reason, MONTHLY_REQUEST_COUNT),
        None => false,
    }
}

/// Tells whether two texts are equal.
fn same_text(left: &str, right: &str) -> (same: bool)
    ensures
        same == (left@ == right@),
{
    let a = crate::text::chars_of(left);
    let b = crate::text::chars_of(right);
    if a.len() != b.len() {
        return false;
    }
    let mut i: usize = 0;
    while i < a.len()
        invariant
            a@ == left@,
            b@ == right@,
            a.len() == b.len(),
            i <= a.len(),
            forall|j: int| 0 <= j < i ==> a@[j] == b@[j],
        decreases a.len() - i,
    {
        if a[i] != b[i] {
            return false;
        }
        i = i + 1;
    }
    assert(a@ =~= b@);
    true
}

/// Tells whether the member `reason` of `doc` is the marker.
fn reason_is_marker(doc: &serde_json::Value) -> (same: bool)
    ensures
        same == (reason_of(json_view(*doc)) == Some(monthly_marker())),
{
    match crate::json::member(doc, "reason") {
        Some(reason) => is_marker_text(reason),
        None => false,
    }
}

/// Tells whether a parsed body gives the spent monthly quota as its reason,
/// at the top or beneath `error`.
pub fn document_names_monthly_limit(doc: &serde_json::Value) -> (named: bool)
    ensures
        named == names_monthly_limit(json_view(*doc)),
{
    if reason_is_marker(doc) {
        return true;
    }
    match crate::json::member(doc, "error") {
        Some(error) => reason_is_marker(error),
        None => false,
    }
}

/// Tells whether the body of an answer says that the monthly quota of the
/// credential is spent.
pub fn is_monthly_request_limit(body: &str) -> (monthly: bool)
    ensures
        monthly == is_monthly_quota_text(body@),
{
    if contains_text(body, MONTHLY_REQUEST_COUNT) {
        return true;
    }
    match crate::json::parse(body) {
        Some(doc) => document_names_monthly_limit(&doc),
        None => false,
    }
}

/// Classifies an answer by its status and body.
pub fn classify(status: u16, body: &str) -> (outcome: Outcome)
    ensures
        outcome == outcome_of(status, body@),
{
    if is_success(status) {
        Outcome::Success
    } else if status == 402 && is_monthly_request_limit(body) {
        Outcome::QuotaExhausted
    } else if status == 400 {
        Outcome::BadRequest
    } else if status == 401 || status == 403 {
        Outcome::AuthFailure
    } else if status == 408 || status == 429 || (500 <= status && status < 600) {
        Outcome::Transient
    } else if 400 <= status && status < 500 {
        Outcome::OtherClient
    } else {
        Outcome::Unknown
    }
}

/// A body that holds the marker anywhere tells that the monthly quota is
/// spent, whatever stands before and after the marker.
pub proof fn lemma_marker_anywhere(before: Seq<char>, after: Seq<char>)
    ensures
        is_monthly_quota_text(before + monthly_marker() + after),
{
    let body = before + monthly_marker() + after;
    let start = before.len() as int;
    assert(body.subrange(start, start + monthly_marker().len()) =~= monthly_marker());
    assert(crate::text::occurs_at(monthly_marker(), body, start));
}

/// A body that parses to a JSON object whose member `reason` is the marker
/// tells that the monthly quota is spent.
pub proof fn lemma_reason_tells_limit(body: Seq<char>, fields: Map<Seq<char>, Json>)
    requires
        json_text(body) == Some(Json::Object(fields)),
        fields.contains_key("reason"@),
        fields["reason"@] == Json::Text(monthly_marker()),
    ensures
        is_monthly_quota_text(body),
{
}

/// A body that parses to a JSON object whose member `error` is an object
/// whose member `reason` is the marker tells that the monthly quota is
/// spent.
pub proof fn lemma_nested_reason_tells_limit(
    body: Seq<char>,
    fields: Map<Seq<char>, Json>,
    error: Map<Seq<char>, Json>,
)
    requires
        json_text(body) == Some(Json::Object(fields)),
        fields.contains_key("error"@),
        fields["error"@] == Json::Object(error),
        error.contains_key("reason"@),
        error["reason"@] == Json::Text(monthly_marker()),
    ensures
        is_monthly_quota_text(body),
{
}

/// A body without the marker tells of no spent quota where it is no JSON,
/// and where it is JSON that gives another reason or none.
pub proof fn lemma_other_bodies_tell_no_limit(body: Seq<char>)
    requires
        !occurs_in(monthly_marker(), body),
        json_text(body) matches Some(doc) ==> !names_monthly_limit(doc),
    ensures
        !is_monthly_quota_text(body),
{
}

/// The class of an answer depends on its body for status 402 alone, and
/// only a status of 401, 403 or 402 is ever held against the credential.
pub proof fn lemma_outcome_by_status(status: u16, body: Seq<char>)
    ensures
        outcome_of(status, body) == Outcome::Success <==> 200 <= status < 300,
        outcome_of(status, body) == Outcome::BadRequest <==> status == 400,
        outcome_of(status, body) == Outcome::AuthFailure <==> status == 401 || status == 403,
        outcome_of(status, body) == Outcome::QuotaExhausted <==> status == 402
            && is_monthly_quota_text(body),
        outcome_of(status, body) == Outcome::Transient <==> status == 408 || status == 429 || 500
            <= status < 600,
        outcome_of(status, body) == Outcome::Unknown <==> status < 200 || 300 <= status < 400
            || status >= 600,
        outcome_of(status, body).blames_credential() ==> status == 401 || status == 402
            || status == 403,
{
}

} // verus!
