use axum::http::{HeaderMap, HeaderName, HeaderValue};
use request_info::field::HeaderField;
use request_info::headers::header_str;

fn headers(pairs: &[(&str, &str)]) -> HeaderMap {
    let mut map = HeaderMap::new();
    for (name, value) in pairs {
        map.append(
            HeaderName::from_bytes(name.as_bytes()).unwrap(),
            HeaderValue::from_str(value).unwrap(),
        );
    }
    map
}

const FIELDS: [HeaderField; 10] = [
    HeaderField::UserAgent,
    HeaderField::Encoding,
    HeaderField::Mime,
    HeaderField::Language,
    HeaderField::Referer,
    HeaderField::Connection,
    HeaderField::KeepAlive,
    HeaderField::Charset,
    HeaderField::Via,
    HeaderField::Forwarded,
];

#[test]
fn lookup_finds_the_value_under_the_name() {
    let map = headers(&[("user-agent", "TestBot/1.0"), ("accept", "text/html")]);
    assert_eq!(header_str(&map, "user-agent"), Some("TestBot/1.0"));
    assert_eq!(header_str(&map, "accept"), Some("text/html"));
}

#[test]
fn lookup_of_a_missing_header_is_none() {
    let map = headers(&[("user-agent", "TestBot/1.0")]);
    assert_eq!(header_str(&map, "accept"), None);
    assert_eq!(header_str(&HeaderMap::new(), "user-agent"), None);
}

#[test]
fn lookup_disregards_the_case_of_the_name_asked_for() {
    let map = headers(&[("user-agent", "TestBot/1.0"), ("x-request-id", "abc")]);
    assert_eq!(header_str(&map, "User-Agent"), Some("TestBot/1.0"));
    assert_eq!(header_str(&map, "USER-AGENT"), Some("TestBot/1.0"));
    assert_eq!(header_str(&map, "X-Request-Id"), Some("abc"));
}

#[test]
fn lookup_disregards_the_case_of_the_name_sent() {
    let map = headers(&[("Accept-Language", "en-US"), ("X-REQUEST-ID", "abc")]);
    assert_eq!(header_str(&map, "accept-language"), Some("en-US"));
    assert_eq!(header_str(&map, "x-request-id"), Some("abc"));
}

#[test]
fn lookup_disregards_case_in_a_long_name() {
    let sent = "x-".to_string() + &"a".repeat(70);
    let asked = "X-".to_string() + &"A".repeat(70);
    let map = headers(&[(sent.as_str(), "long")]);
    assert_eq!(header_str(&map, &asked), Some("long"));
    assert_eq!(header_str(&map, &sent), Some("long"));
}

#[test]
fn lookup_of_a_name_that_no_header_can_have_is_none() {
    let map = headers(&[("user-agent", "TestBot/1.0")]);
    assert_eq!(header_str(&map, ""), None);
    assert_eq!(header_str(&map, "user agent"), None);
    assert_eq!(header_str(&map, "user-agent:"), None);
    assert_eq!(header_str(&map, "üser-agent"), None);
    assert_eq!(header_str(&map, &"a".repeat(70_000)), None);
}

#[test]
fn lookup_takes_the_first_of_several_values() {
    let map = headers(&[("via", "1.1 first"), ("accept", "text/html"), ("via", "1.1 second")]);
    assert_eq!(header_str(&map, "via"), Some("1.1 first"));
}

#[test]
fn value_that_is_not_text_reads_as_none() {
    let mut map = HeaderMap::new();
    map.insert("user-agent", HeaderValue::from_bytes(b"caf\xe9").unwrap());
    map.insert("via", HeaderValue::from_bytes(&[0x80]).unwrap());
    map.insert("referer", HeaderValue::from_bytes("caf\u{e9}".as_bytes()).unwrap());
    assert_eq!(header_str(&map, "user-agent"), None);
    assert_eq!(header_str(&map, "via"), None);
    assert_eq!(header_str(&map, "referer"), None);
}

#[test]
fn first_value_that_is_not_text_hides_a_later_one_that_is() {
    let mut map = HeaderMap::new();
    map.append("via", HeaderValue::from_bytes(&[0xff]).unwrap());
    map.append("via", HeaderValue::from_static("1.1 proxy"));
    assert_eq!(header_str(&map, "via"), None);
}

#[test]
fn tab_and_space_and_tilde_are_text() {
    let map = headers(&[("user-agent", "a\tb c~")]);
    assert_eq!(header_str(&map, "user-agent"), Some("a\tb c~"));
}

#[test]
fn empty_value_is_text() {
    let map = headers(&[("referer", "")]);
    assert_eq!(header_str(&map, "referer"), Some(""));
}

#[test]
fn each_field_reads_its_own_header() {
    let names = [
        "user-agent",
        "accept-encoding",
        "accept",
        "accept-language",
        "referer",
        "connection",
        "keep-alive",
        "accept-charset",
        "via",
        "forwarded",
    ];
    for (field, name) in FIELDS.iter().zip(names.iter()) {
        assert_eq!(field.header_name_str(), *name);
        let map = headers(&[(*name, "value of it")]);
        for other in FIELDS.iter() {
            let expected = if other.header_name_str() == *name { Some("value of it") } else { None };
            assert_eq!(other.read(&map), expected);
        }
    }
}

#[test]
fn each_field_has_its_label() {
    let labels = [
        "user_agent",
        "encoding",
        "mime",
        "language",
        "referer",
        "connection",
        "keep_alive",
        "charset",
        "via",
        "forwarded",
    ];
    for (field, label) in FIELDS.iter().zip(labels.iter()) {
        assert_eq!(field.label_str(), *label);
    }
}
