//! Percent-encoding of query strings and construction of the documentation
//! service's request and page URLs.

use vstd::prelude::*;
use vstd::string::StringSliceAdditionalSpecFns;
use vstd::string::StrSliceExecFns;
use vstd::string::StringExecFns;
use vstd::utf8::encode_utf8;

verus! {

/// Bytes that percent-encoding leaves as they are: the ASCII alphanumerics
/// and `-`, `.`, `_`, `~`.
pub open spec fn is_unreserved(b: u8) -> bool {
    ||| 48 <= b <= 57  // '0' to '9'
    ||| 65 <= b <= 90  // 'A' to 'Z'
    ||| 97 <= b <= 122  // 'a' to 'z'
    ||| b == 45 || b == 46 || b == 95 || b == 126  // '-', '.', '_', '~'
}

/// The upper-case hexadecimal digit for `d`, which lies below 16.
pub open spec fn hex_digit(d: u8) -> char {
    if d <= 9 {
        ((48 + d) as u8) as char
    } else {
        ((55 + d) as u8) as char
    }
}

/// The percent-encoding of a single byte.
pub open spec fn encode_byte(b: u8) -> Seq<char> {
    if is_unreserved(b) {
        seq![b as char]
    } else {
        seq!['%', hex_digit(b / 16), hex_digit(b % 16)]
    }
}

/// The percent-encoding of a byte sequence.
pub open spec fn percent_encoded(bs: Seq<u8>) -> Seq<char>
    decreases bs.len(),
{
    if bs.len() == 0 {
        Seq::empty()
    } else {
        encode_byte(bs[0]) + percent_encoded(bs.drop_first())
    }
}

/// The percent-encoding of a query string's UTF-8 bytes.
pub open spec fn encoded_query(q: Seq<char>) -> Seq<char> {
    percent_encoded(encode_utf8(q))
}

/// Whether `c` is a hexadecimal digit.
pub open spec fn is_hex_char(c: char) -> bool {
    ||| 48 <= c as u32 && c as u32 <= 57
    ||| 65 <= c as u32 && c as u32 <= 70
    ||| 97 <= c as u32 && c as u32 <= 102
}

/// The value of the hexadecimal digit `c`.
pub open spec fn hex_value(c: char) -> int {
    if 48 <= c as u32 && c as u32 <= 57 {
        c as u32 - 48
    } else if 65 <= c as u32 && c as u32 <= 70 {
        c as u32 - 55
    } else {
        c as u32 - 87
    }
}

/// What the receiving side makes of a percent-encoded string: `%` followed by
/// two hexadecimal digits turns back into one byte; every other character
/// stands for its own code.
pub open spec fn percent_decoded(s: Seq<char>) -> Seq<u8>
    decreases s.len(),
{
    if s.len() == 0 {
        Seq::empty()
    } else if s[0] == '%' && s.len() >= 3 && is_hex_char(s[1]) && is_hex_char(s[2]) {
        seq![(hex_value(s[1]) * 16 + hex_value(s[2])) as u8] + percent_decoded(s.skip(3))
    } else {
        seq![(s[0] as u32) as u8] + percent_decoded(s.drop_first())
    }
}

/// Percent-encoding a byte sequence and decoding the result on the receiving
/// side reproduces the original bytes exactly.
pub proof fn lemma_percent_round_trip(bs: Seq<u8>)
    ensures
        percent_decoded(percent_encoded(bs)) == bs,
    decreases bs.len(),
{
    if bs.len() == 0 {
        assert(percent_decoded(percent_encoded(bs)) =~= bs);
    } else {
        let b = bs[0];
        let rest = bs.drop_first();
        lemma_percent_round_trip(rest);
        let e = percent_encoded(bs);
        assert(e == encode_byte(b) + percent_encoded(rest));
        if is_unreserved(b) {
            assert(e[0] == b as char);
            assert((b as char) as u32 == b);
            assert(e[0] != '%');
            assert(e.drop_first() =~= percent_encoded(rest));
            assert(percent_decoded(e) =~= seq![b] + percent_decoded(percent_encoded(rest)));
            assert(seq![b] + rest =~= bs);
        } else {
            let hi = b / 16;
            let lo = b % 16;
            assert(hi < 16 && lo < 16);
            assert(e[0] == '%');
            assert(e[1] == hex_digit(hi));
            assert(e[2] == hex_digit(lo));
            assert(is_hex_char(hex_digit(hi)) && hex_value(hex_digit(hi)) == hi);
            assert(is_hex_char(hex_digit(lo)) && hex_value(hex_digit(lo)) == lo);
            assert(hi * 16 + lo == b);
            assert(e.skip(3) =~= percent_encoded(rest));
            assert(percent_decoded(e) =~= seq![b] + percent_decoded(percent_encoded(rest)));
            assert(seq![b] + rest =~= bs);
        }
    }
}

/// Percent-encoding a query string and decoding the result on the receiving
/// side reproduces the query's UTF-8 bytes exactly.
pub proof fn lemma_query_round_trip(q: Seq<char>)
    ensures
        percent_decoded(encoded_query(q)) == encode_utf8(q),
{
    lemma_percent_round_trip(encode_utf8(q));
}

/// Relies on urlencoding::encode: it percent-encodes every byte of the
/// string's UTF-8 form except ASCII alphanumerics and `-`, `.`, `_`, `~`,
/// writing `%` and two upper-case hexadecimal digits for each encoded byte.
#[verifier::external_body]
fn percent_encode(s: &str) -> (r: String)
    ensures
        r@ == percent_encoded(s.spec_bytes()),
{
    urlencoding::encode(s).into_owned()
}

/// The URL queried for a native search, ending in the percent-encoded query.
pub fn native_search_url(query: &str) -> (r: String)
    ensures
        r@ == "https://lep.duckdns.org/app/jassbot/search/api/"@ + encoded_query(query@),
{
    let mut r = String::from_str("https://lep.duckdns.org/app/jassbot/search/api/");
    let enc = percent_encode(query);
    r.append(enc.as_str());
    r
}

/// The URL queried for a documentation lookup, ending in the percent-encoded
/// query.
pub fn doc_api_url(query: &str) -> (r: String)
    ensures
        r@ == "https://lep.duckdns.org/app/jassbot/doc/api/"@ + encoded_query(query@),
{
    let mut r = String::from_str("https://lep.duckdns.org/app/jassbot/doc/api/");
    let enc = percent_encode(query);
    r.append(enc.as_str());
    r
}

/// The human-facing documentation page link for a query.  It is shown in
/// replies and never fetched.
pub fn jassdoc_user_doc_uri_of(query: &str) -> (r: String)
    ensures
        r@ == "https://lep.duckdns.org/jassbot/doc/"@ + encoded_query(query@),
{
    let mut r = String::from_str("https://lep.duckdns.org/jassbot/doc/");
    let enc = percent_encode(query);
    r.append(enc.as_str());
    r
}

} // verus!
