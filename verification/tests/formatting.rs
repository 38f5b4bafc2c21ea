use jassbot::format::{format_doc, format_native, ReplyContent};
use jassbot::jassdoc::{Annotation, DocResponse, NativeResponse, Parameter, QueryParsed};

fn native_response(results: Vec<&str>) -> NativeResponse {
    NativeResponse {
        query_parsed: QueryParsed {
            contents: String::from("q"),
            tag: String::from("name"),
        },
        results: results.into_iter().map(String::from).collect(),
    }
}

fn annotation(name: &str, value: &str) -> Annotation {
    Annotation {
        name: String::from(name),
        value: String::from(value),
    }
}

fn parameter(name: &str, doc: Option<&str>) -> Parameter {
    Parameter {
        doc: doc.map(String::from),
        name: String::from(name),
        type_: String::from("integer"),
    }
}

fn doc_response(annotations: Vec<Annotation>, parameters: Vec<Parameter>) -> DocResponse {
    DocResponse {
        annotations,
        commit: String::from("abc123"),
        kind: String::from("native"),
        linenumber: String::from("10"),
        parameters,
    }
}

#[test]
fn native_truncates_to_three_in_order() {
    let resp = native_response(vec!["one", "two", "three", "four", "five"]);
    match format_native(&resp) {
        ReplyContent::Reply { text, rich } => {
            assert_eq!(text, "one\ntwo\nthree");
            assert!(!rich);
        },
        ReplyContent::Empty => panic!("expected a reply"),
    }
}

#[test]
fn native_keeps_fewer_than_three() {
    let resp = native_response(vec!["only", "pair"]);
    match format_native(&resp) {
        ReplyContent::Reply { text, rich } => {
            assert_eq!(text, "only\npair");
            assert!(!rich);
        },
        ReplyContent::Empty => panic!("expected a reply"),
    }
}

#[test]
fn native_empty_results_yield_no_reply() {
    let resp = native_response(vec![]);
    assert!(matches!(format_native(&resp), ReplyContent::Empty));
}

#[test]
fn doc_reply_has_link_kept_annotation_and_parameter() {
    let resp = doc_response(
        vec![
            annotation("return-type", "unit"),
            annotation("deprecated", " use the newer native "),
        ],
        vec![parameter("id", Some("id of the unit"))],
    );
    match format_doc("CreateUnit", &resp) {
        ReplyContent::Reply { text, rich } => {
            assert_eq!(
                text,
                "https://lep.duckdns.org/jassbot/doc/CreateUnit\n \ndeprecated: use the newer native\n \n* id parameter: id of the unit"
            );
            assert!(rich);
        },
        ReplyContent::Empty => panic!("expected a reply"),
    }
}

#[test]
fn doc_excludes_the_three_names_in_any_case() {
    let resp = doc_response(
        vec![
            annotation("Return-Type", "unit"),
            annotation("SOURCE-CODE", "native ..."),
            annotation("Source-File", "common.j"),
            annotation("pure", "yes"),
        ],
        vec![],
    );
    match format_doc("GetUnitX", &resp) {
        ReplyContent::Reply { text, .. } => {
            assert_eq!(
                text,
                "https://lep.duckdns.org/jassbot/doc/GetUnitX\n \npure: yes\n \n"
            );
        },
        ReplyContent::Empty => panic!("expected a reply"),
    }
}

#[test]
fn doc_annotations_joined_by_blank_lines() {
    let resp = doc_response(
        vec![annotation("pure", "yes"), annotation("event", "unit death")],
        vec![],
    );
    match format_doc("q", &resp) {
        ReplyContent::Reply { text, .. } => {
            assert_eq!(
                text,
                "https://lep.duckdns.org/jassbot/doc/q\n \npure: yes\n \nevent: unit death\n \n"
            );
        },
        ReplyContent::Empty => panic!("expected a reply"),
    }
}

#[test]
fn doc_parameters_without_usable_doc_are_excluded() {
    let resp = doc_response(
        vec![],
        vec![
            parameter("a", None),
            parameter("b", Some("   ")),
            parameter("c", Some(" documented ")),
        ],
    );
    match format_doc("q", &resp) {
        ReplyContent::Reply { text, .. } => {
            assert_eq!(
                text,
                "https://lep.duckdns.org/jassbot/doc/q\n \n\n \n* c parameter: documented"
            );
        },
        ReplyContent::Empty => panic!("expected a reply"),
    }
}

#[test]
fn doc_with_nothing_displayable_yields_no_reply() {
    let resp = doc_response(
        vec![annotation("return-type", "unit"), annotation("source-file", "common.j")],
        vec![parameter("a", None), parameter("b", Some(" "))],
    );
    assert!(matches!(format_doc("Known", &resp), ReplyContent::Empty));
}

#[test]
fn doc_entirely_empty_yields_no_reply() {
    let resp = doc_response(vec![], vec![]);
    assert!(matches!(format_doc("q", &resp), ReplyContent::Empty));
}
