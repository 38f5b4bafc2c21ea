use jassbot::dispatch::{
    classify_http, decode_step, plan, settle_doc, settle_native, Disposition, HttpResult,
    PlannedCall, QueryOutcome, TransportDetail,
};
use jassbot::jassdoc::{Annotation, DocResponse, NativeResponse, Parameter, QueryParsed};

fn native_response(results: Vec<&str>) -> NativeResponse {
    NativeResponse {
        query_parsed: QueryParsed {
            contents: String::from("q"),
            tag: String::from("name"),
        },
        results: results.into_iter().map(String::from).collect(),
    }
}

#[test]
fn plan_native_call() {
    match plan("!j CreateUnit") {
        PlannedCall::Native { url, query } => {
            assert_eq!(url, "https://lep.duckdns.org/app/jassbot/search/api/CreateUnit");
            assert_eq!(query, "CreateUnit");
        },
        _ => panic!("expected a native call"),
    }
}

#[test]
fn plan_doc_call() {
    match plan("!doc TriggerSleepAction") {
        PlannedCall::Doc { url, query } => {
            assert_eq!(url, "https://lep.duckdns.org/app/jassbot/doc/api/TriggerSleepAction");
            assert_eq!(query, "TriggerSleepAction");
        },
        _ => panic!("expected a doc call"),
    }
}

#[test]
fn plain_chatter_plans_no_call() {
    assert!(matches!(plan("hello"), PlannedCall::NoCall));
}

#[test]
fn unknown_command_plans_no_call() {
    assert!(matches!(plan("!x foo"), PlannedCall::NoCall));
}

#[test]
fn status_404_classifies_as_not_found() {
    let r = HttpResult::Response {
        status: 404,
        body: String::from("gone"),
    };
    assert!(matches!(classify_http(r), QueryOutcome::NotFound));
}

#[test]
fn status_2xx_classifies_as_success_with_body() {
    let r = HttpResult::Response {
        status: 200,
        body: String::from("{}"),
    };
    assert!(matches!(classify_http(r), QueryOutcome::Success(b) if b == "{}"));
}

#[test]
fn other_status_classifies_as_transport_failure() {
    let r = HttpResult::Response {
        status: 500,
        body: String::from(""),
    };
    assert!(matches!(
        classify_http(r),
        QueryOutcome::TransportFailure(TransportDetail::Status(500))
    ));
}

#[test]
fn connection_failure_classifies_as_transport_failure() {
    let r = HttpResult::Failure {
        detail: String::from("connection refused"),
    };
    assert!(matches!(
        classify_http(r),
        QueryOutcome::TransportFailure(TransportDetail::Connection(d)) if d == "connection refused"
    ));
}

#[test]
fn decode_verdict_folds_into_outcome() {
    let ok: QueryOutcome<u32> =
        decode_step(QueryOutcome::Success(String::from("7")), Some(Ok(7)));
    assert!(matches!(ok, QueryOutcome::Success(7)));

    let bad: QueryOutcome<u32> = decode_step(
        QueryOutcome::Success(String::from("x")),
        Some(Err(String::from("expected a number"))),
    );
    assert!(matches!(bad, QueryOutcome::DecodeFailure(e) if e == "expected a number"));

    let missing: QueryOutcome<u32> = decode_step(QueryOutcome::NotFound, None);
    assert!(matches!(missing, QueryOutcome::NotFound));
}

#[test]
fn native_success_replies_with_first_three_plain() {
    let resp = native_response(vec!["r1", "r2", "r3", "r4", "r5"]);
    match settle_native(QueryOutcome::Success(resp)) {
        Disposition::Notice { text, rich } => {
            assert_eq!(text, "r1\nr2\nr3");
            assert!(!rich);
        },
        _ => panic!("expected a notice"),
    }
}

#[test]
fn native_success_without_results_is_silent() {
    let resp = native_response(vec![]);
    assert!(matches!(
        settle_native(QueryOutcome::Success(resp)),
        Disposition::Silent
    ));
}

#[test]
fn not_found_yields_the_fixed_notice_for_both_endpoints() {
    match settle_native(QueryOutcome::NotFound) {
        Disposition::Notice { text, rich } => {
            assert_eq!(text, "No results found");
            assert!(rich);
        },
        _ => panic!("expected the notice"),
    }
    match settle_doc("Qwerty", QueryOutcome::NotFound) {
        Disposition::Notice { text, rich } => {
            assert_eq!(text, "No results found");
            assert!(rich);
        },
        _ => panic!("expected the notice"),
    }
}

#[test]
fn doc_success_without_displayable_content_is_silent() {
    let resp = DocResponse {
        annotations: vec![Annotation {
            name: String::from("return-type"),
            value: String::from("unit"),
        }],
        commit: String::from("abc"),
        kind: String::from("native"),
        linenumber: String::from("1"),
        parameters: vec![Parameter {
            doc: None,
            name: String::from("id"),
            type_: String::from("integer"),
        }],
    };
    assert!(matches!(
        settle_doc("KnownButUndocumented", QueryOutcome::Success(resp)),
        Disposition::Silent
    ));
}

#[test]
fn transport_and_decode_failures_are_surfaced_not_replied() {
    let t: Disposition =
        settle_native(QueryOutcome::TransportFailure(TransportDetail::Status(503)));
    assert!(matches!(
        t,
        Disposition::SurfaceTransport(TransportDetail::Status(503))
    ));
    let d: Disposition = settle_doc(
        "q",
        QueryOutcome::DecodeFailure(String::from("bad json")),
    );
    assert!(matches!(d, Disposition::SurfaceDecode(e) if e == "bad json"));
}
