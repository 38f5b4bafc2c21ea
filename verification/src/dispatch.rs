//! The dispatcher: the per-message decision chain.
//!
//! Each incoming message runs the same stateless sequence: plan at most one
//! outbound call from the parsed command, classify what the transport
//! returned, fold in the decode step, and settle on a disposition — stay
//! silent, send one reply, or surface a failure to the operator log.  The
//! collaborators around the pipeline perform the call, the decode and the
//! send; every decision stands here.

use vstd::prelude::*;
use vstd::string::StringExecFns;
use crate::encoding::{doc_api_url, encoded_query, native_search_url};
use crate::format::{
    doc_has_content, doc_reply_text, format_doc, format_native, native_reply_text, ReplyContent,
};
use crate::jassdoc::{DocResponse, NativeResponse};
use crate::parse::{
    first_token, has_two_tokens, is_native_trigger, is_trigger, parse, parse_ok,
    second_token, Action, ParseError,
};

verus! {

/// What the transport collaborator hands back for one GET request: a
/// transport-level failure, or a response with its status code and body text.
pub enum HttpResult {
    Failure { detail: String },
    Response { status: u16, body: String },
}

/// Why a query failed below the service level: the connection itself failed,
/// or the service answered with an unexpected status.
pub enum TransportDetail {
    Connection(String),
    Status(u16),
}

/// The classified outcome of one remote query.
pub enum QueryOutcome<T> {
    /// A well-formed answer.
    Success(T),
    /// The service answered 404: a normal, expected outcome.
    NotFound,
    /// The connection failed or the status was unexpected.
    TransportFailure(TransportDetail),
    /// A 2xx body did not decode into the expected shape.
    DecodeFailure(String),
}

/// What the pipeline does with one handled message.
pub enum Disposition {
    /// No reply, nothing to record.
    Silent,
    /// Send exactly one reply carrying this text and content-type tag.
    Notice { text: String, rich: bool },
    /// No reply; record the transport failure for the operators.
    SurfaceTransport(TransportDetail),
    /// No reply; record the decode failure for the operators.
    SurfaceDecode(String),
}

/// The single outbound call a message gives rise to, if any.
pub enum PlannedCall {
    NoCall,
    Native { url: String, query: String },
    Doc { url: String, query: String },
}

/// The classification of a raw transport result: 404 is `NotFound`, any
/// other non-2xx status or connection failure is a transport failure, and a
/// 2xx body is passed on to the decode step.
pub open spec fn classified(r: HttpResult) -> QueryOutcome<String> {
    match r {
        HttpResult::Failure { detail } => QueryOutcome::TransportFailure(
            TransportDetail::Connection(detail),
        ),
        HttpResult::Response { status, body } => {
            if status == 404 {
                QueryOutcome::NotFound
            } else if 200 <= status < 300 {
                QueryOutcome::Success(body)
            } else {
                QueryOutcome::TransportFailure(TransportDetail::Status(status))
            }
        },
    }
}

/// The outcome once the decode step is folded in: a decoded 2xx body becomes
/// `Success`, a failed decode becomes `DecodeFailure`, and every other
/// classification passes through unchanged.
pub open spec fn decoded_outcome<T>(
    c: QueryOutcome<String>,
    d: Option<Result<T, String>>,
) -> QueryOutcome<T> {
    match c {
        QueryOutcome::Success(_) => match d->0 {
            Ok(t) => QueryOutcome::Success(t),
            Err(e) => QueryOutcome::DecodeFailure(e),
        },
        QueryOutcome::NotFound => QueryOutcome::NotFound,
        QueryOutcome::TransportFailure(x) => QueryOutcome::TransportFailure(x),
        QueryOutcome::DecodeFailure(e) => QueryOutcome::DecodeFailure(e),
    }
}

/// The fixed notice shown for a well-formed query that matched nothing.
pub open spec fn notice_text() -> Seq<char> {
    "No results found"@
}

/// Whether `d` sends exactly one reply with this text and content type.
pub open spec fn is_notice(d: Disposition, text: Seq<char>, rich: bool) -> bool {
    d matches Disposition::Notice { text: t, rich: r } && t@ == text && r == rich
}

/// What [`settle_native`] decides for each outcome of a native search.
pub open spec fn native_settles(o: QueryOutcome<NativeResponse>, d: Disposition) -> bool {
    match o {
        QueryOutcome::Success(resp) => {
            if resp.results.deep_view().len() == 0 {
                d is Silent
            } else {
                is_notice(d, native_reply_text(resp), false)
            }
        },
        QueryOutcome::NotFound => is_notice(d, notice_text(), true),
        QueryOutcome::TransportFailure(x) => d == Disposition::SurfaceTransport(x),
        QueryOutcome::DecodeFailure(e) => d == Disposition::SurfaceDecode(e),
    }
}

/// What [`settle_doc`] decides for each outcome of a documentation lookup on
/// query `q`.
pub open spec fn doc_settles(q: Seq<char>, o: QueryOutcome<DocResponse>, d: Disposition) -> bool {
    match o {
        QueryOutcome::Success(resp) => {
            if !doc_has_content(resp) {
                d is Silent
            } else {
                is_notice(d, doc_reply_text(q, resp), true)
            }
        },
        QueryOutcome::NotFound => is_notice(d, notice_text(), true),
        QueryOutcome::TransportFailure(x) => d == Disposition::SurfaceTransport(x),
        QueryOutcome::DecodeFailure(e) => d == Disposition::SurfaceDecode(e),
    }
}

/// What [`plan`] produces for input `s`: no call for a message that is no
/// command, else exactly one call to the endpoint the trigger selects, with
/// the percent-encoded second token in the URL.
pub open spec fn plan_ok(s: Seq<char>, p: PlannedCall) -> bool {
    let t1 = first_token(s);
    let t2 = second_token(s);
    if !has_two_tokens(s) || !is_trigger(t1) {
        p is NoCall
    } else if is_native_trigger(t1) {
        &&& p matches PlannedCall::Native { url, query }
        &&& query@ == t2
        &&& url@ == "https://lep.duckdns.org/app/jassbot/search/api/"@ + encoded_query(t2)
    } else {
        &&& p matches PlannedCall::Doc { url, query }
        &&& query@ == t2
        &&& url@ == "https://lep.duckdns.org/app/jassbot/doc/api/"@ + encoded_query(t2)
    }
}

/// Decides which outbound call, if any, a message gives rise to.
pub fn plan(input: &str) -> (p: PlannedCall)
    ensures
        plan_ok(input@, p),
{
    match parse(input) {
        Ok(Action::NativeQuery(q)) => {
            let url = native_search_url(q.as_str());
            PlannedCall::Native { url, query: q }
        },
        Ok(Action::DocQuery(q)) => {
            let url = doc_api_url(q.as_str());
            PlannedCall::Doc { url, query: q }
        },
        Err(_) => PlannedCall::NoCall,
    }
}

/// Classifies what the transport collaborator handed back.
pub fn classify_http(r: HttpResult) -> (c: QueryOutcome<String>)
    ensures
        c == classified(r),
{
    match r {
        HttpResult::Failure { detail } => QueryOutcome::TransportFailure(
            TransportDetail::Connection(detail),
        ),
        HttpResult::Response { status, body } => {
            if status == 404 {
                QueryOutcome::NotFound
            } else if 200 <= status && status < 300 {
                QueryOutcome::Success(body)
            } else {
                QueryOutcome::TransportFailure(TransportDetail::Status(status))
            }
        },
    }
}

/// Folds the decode collaborator's verdict into the classification.  The
/// caller decodes exactly when the classification succeeded and passes the
/// verdict in `d`.
pub fn decode_step<T>(c: QueryOutcome<String>, d: Option<Result<T, String>>) -> (o: QueryOutcome<
    T,
>)
    requires
        (c is Success) <==> (d is Some),
    ensures
        o == decoded_outcome(c, d),
{
    match c {
        QueryOutcome::Success(_) => match d {
            Some(Ok(t)) => QueryOutcome::Success(t),
            Some(Err(e)) => QueryOutcome::DecodeFailure(e),
            None => vstd::pervasive::unreached(),
        },
        QueryOutcome::NotFound => QueryOutcome::NotFound,
        QueryOutcome::TransportFailure(x) => QueryOutcome::TransportFailure(x),
        QueryOutcome::DecodeFailure(e) => QueryOutcome::DecodeFailure(e),
    }
}

/// Settles the outcome of a native search into a disposition.
pub fn settle_native(o: QueryOutcome<NativeResponse>) -> (d: Disposition)
    ensures
        native_settles(o, d),
{
    match o {
        QueryOutcome::Success(resp) => match format_native(&resp) {
            ReplyContent::Empty => Disposition::Silent,
            ReplyContent::Reply { text, rich } => Disposition::Notice { text, rich },
        },
        QueryOutcome::NotFound => Disposition::Notice {
            text: String::from_str("No results found"),
            rich: true,
        },
        QueryOutcome::TransportFailure(x) => Disposition::SurfaceTransport(x),
        QueryOutcome::DecodeFailure(e) => Disposition::SurfaceDecode(e),
    }
}

/// Settles the outcome of a documentation lookup on `query` into a
/// disposition.
pub fn settle_doc(query: &str, o: QueryOutcome<DocResponse>) -> (d: Disposition)
    ensures
        doc_settles(query@, o, d),
{
    match o {
        QueryOutcome::Success(resp) => match format_doc(query, &resp) {
            ReplyContent::Empty => Disposition::Silent,
            ReplyContent::Reply { text, rich } => Disposition::Notice { text, rich },
        },
        QueryOutcome::NotFound => Disposition::Notice {
            text: String::from_str("No results found"),
            rich: true,
        },
        QueryOutcome::TransportFailure(x) => Disposition::SurfaceTransport(x),
        QueryOutcome::DecodeFailure(e) => Disposition::SurfaceDecode(e),
    }
}

/// A message with fewer than two whitespace-delimited tokens is no command:
/// parsing fails with `MissingArgument` and no outbound call is planned.
pub proof fn lemma_missing_argument_is_silent(
    s: Seq<char>,
    r: Result<Action, ParseError>,
    p: PlannedCall,
)
    requires
        !has_two_tokens(s),
        parse_ok(s, r),
        plan_ok(s, p),
    ensures
        r == Err::<Action, ParseError>(ParseError::MissingArgument),
        p is NoCall,
{
}

/// A message whose first token is no recognized command word is no command:
/// parsing fails with `NotATrigger` and no outbound call is planned.
pub proof fn lemma_not_a_trigger_is_silent(
    s: Seq<char>,
    r: Result<Action, ParseError>,
    p: PlannedCall,
)
    requires
        has_two_tokens(s),
        !is_trigger(first_token(s)),
        parse_ok(s, r),
        plan_ok(s, p),
    ensures
        r == Err::<Action, ParseError>(ParseError::NotATrigger),
        p is NoCall,
{
}

/// A 404 from either endpoint is classified `NotFound`, and `NotFound`
/// settles into exactly one reply, the fixed notice, whichever command
/// triggered the query.
pub proof fn lemma_not_found_notice(r: HttpResult, q: Seq<char>, dn: Disposition, dd: Disposition)
    requires
        r matches HttpResult::Response { status, body } && status == 404,
        native_settles(decoded_outcome::<NativeResponse>(classified(r), None), dn),
        doc_settles(q, decoded_outcome::<DocResponse>(classified(r), None), dd),
    ensures
        classified(r) == QueryOutcome::<String>::NotFound,
        is_notice(dn, notice_text(), true),
        is_notice(dd, notice_text(), true),
{
}

} // verus!
