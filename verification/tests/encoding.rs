use jassbot::encoding::{doc_api_url, jassdoc_user_doc_uri_of, native_search_url};

#[test]
fn plain_query_passes_through() {
    assert_eq!(
        jassdoc_user_doc_uri_of("CreateUnit"),
        "https://lep.duckdns.org/jassbot/doc/CreateUnit"
    );
}

#[test]
fn reserved_characters_are_percent_encoded() {
    assert_eq!(
        jassdoc_user_doc_uri_of("a b&c/d"),
        "https://lep.duckdns.org/jassbot/doc/a%20b%26c%2Fd"
    );
}

#[test]
fn unreserved_marks_stay_as_they_are() {
    assert_eq!(
        native_search_url("a-b.c_d~e"),
        "https://lep.duckdns.org/app/jassbot/search/api/a-b.c_d~e"
    );
}

#[test]
fn both_endpoints_encode_the_same_way() {
    assert_eq!(
        native_search_url("x%y"),
        "https://lep.duckdns.org/app/jassbot/search/api/x%25y"
    );
    assert_eq!(
        doc_api_url("x%y"),
        "https://lep.duckdns.org/app/jassbot/doc/api/x%25y"
    );
}

#[test]
fn encoding_then_decoding_reproduces_the_query() {
    let original = "a b&c/d+e%f";
    let url = jassdoc_user_doc_uri_of(original);
    let encoded = url.strip_prefix("https://lep.duckdns.org/jassbot/doc/").unwrap();
    let decoded = urlencoding::decode(encoded).unwrap();
    assert_eq!(decoded, original);
}

#[test]
fn multibyte_characters_encode_per_utf8_byte() {
    assert_eq!(
        jassdoc_user_doc_uri_of("\u{e9}"),
        "https://lep.duckdns.org/jassbot/doc/%C3%A9"
    );
    let url = jassdoc_user_doc_uri_of("\u{e9}\u{4e16}");
    let encoded = url.strip_prefix("https://lep.duckdns.org/jassbot/doc/").unwrap();
    let decoded = urlencoding::decode(encoded).unwrap();
    assert_eq!(decoded, "\u{e9}\u{4e16}");
}
