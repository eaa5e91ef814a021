use std::collections::BTreeMap;
use woopra_component::query::{encode_query, i64_to_dec, u64_to_dec};

fn pairs(ps: &[(&str, &str)]) -> Vec<(String, String)> {
    ps.iter()
        .map(|(k, v)| (k.to_string(), v.to_string()))
        .collect()
}

fn reference_single(k: &str, v: &str) -> String {
    let mut m: BTreeMap<String, String> = BTreeMap::new();
    m.insert(k.to_string(), v.to_string());
    serde_qs::to_string(&m).unwrap()
}

#[test]
fn decimal_rendering() {
    assert_eq!(u64_to_dec(0), "0");
    assert_eq!(u64_to_dec(7), "7");
    assert_eq!(u64_to_dec(123), "123");
    assert_eq!(u64_to_dec(1024), "1024");
    assert_eq!(u64_to_dec(u64::MAX), "18446744073709551615");
    assert_eq!(i64_to_dec(123), "123");
    assert_eq!(i64_to_dec(0), "0");
    assert_eq!(i64_to_dec(-5), "-5");
    assert_eq!(i64_to_dec(i64::MIN), "-9223372036854775808");
}

#[test]
fn empty_pair_list_renders_empty() {
    assert_eq!(encode_query(&pairs(&[])), "");
}

#[test]
fn plain_pairs_pass_through() {
    assert_eq!(encode_query(&pairs(&[("project", "example.com")])), "project=example.com");
    assert_eq!(encode_query(&pairs(&[("a", "1"), ("b", "")])), "a=1&b=");
}

#[test]
fn spaces_become_plus() {
    assert_eq!(encode_query(&pairs(&[("my key", "a b")])), "my+key=a+b");
}

#[test]
fn delimiters_are_percent_escaped() {
    assert_eq!(
        encode_query(&pairs(&[("q", "a&b=c%d+e")])),
        "q=a%26b%3Dc%25d%2Be"
    );
    assert_eq!(encode_query(&pairs(&[("k", "\"#<>[]")])), "k=%22%23%3C%3E%5B%5D");
}

#[test]
fn non_ascii_is_utf8_percent_escaped() {
    assert_eq!(encode_query(&pairs(&[("k", "héllo")])), "k=h%C3%A9llo");
    assert_eq!(encode_query(&pairs(&[("k", "€")])), "k=%E2%82%AC");
}

#[test]
fn control_bytes_are_percent_escaped() {
    assert_eq!(encode_query(&pairs(&[("k", "\n\t")])), "k=%0A%09");
}

#[test]
fn encoding_matches_reference_serializer() {
    let cases: &[(&str, &str)] = &[
        ("simple", "value"),
        ("sp ace", "a b c"),
        ("empty", ""),
        ("plus+key", "%41"),
        ("quote\"", "<>#&="),
        ("bracket[key]", "x[y]"),
        ("unicode", "héllo €"),
        ("ctrl", "line\nbreak\ttab"),
        ("dots-._~*", "keep-._~*"),
        ("slash/colon:", "https://example.com/a?b"),
    ];
    for (k, v) in cases {
        assert_eq!(encode_query(&pairs(&[(k, v)])), reference_single(k, v));
    }
}

#[test]
fn multi_pair_encoding_matches_reference_serializer() {
    let mut m: BTreeMap<String, String> = BTreeMap::new();
    m.insert("alpha".to_string(), "one two".to_string());
    m.insert("beta".to_string(), "3&4".to_string());
    let reference = serde_qs::to_string(&m).unwrap();
    assert_eq!(
        encode_query(&pairs(&[("alpha", "one two"), ("beta", "3&4")])),
        reference
    );
}
