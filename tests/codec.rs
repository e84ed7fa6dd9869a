use deimos_da::codec::{decode, record_from_members, EpochJson, JsonField};
use deimos_da::error::DecodeError;
use deimos_da::fetch::epochs_from_payloads;

fn payload(text: &str) -> Vec<u8> {
    text.as_bytes().to_vec()
}

fn wire(h: u64, p: &str, c: &str) -> Vec<u8> {
    let mut m = serde_json::Map::new();
    m.insert("height".to_string(), serde_json::Value::from(h));
    m.insert("prev_commitment".to_string(), serde_json::Value::from(p));
    m.insert("current_commitment".to_string(), serde_json::Value::from(c));
    serde_json::to_string(&serde_json::Value::Object(m)).unwrap().into_bytes()
}

fn assert_record(e: &EpochJson, h: u64, p: &str, c: &str) {
    assert_eq!(e.height, h);
    assert_eq!(e.prev_commitment, p);
    assert_eq!(e.current_commitment, c);
}

#[test]
fn decodes_a_well_formed_payload() {
    let r = decode(&payload(r#"{"height": 5, "prev_commitment": "aa", "current_commitment": "bb"}"#)).unwrap();
    assert_record(&r, 5, "aa", "bb");
}

#[test]
fn member_order_does_not_matter() {
    let r = decode(&payload(r#"{"current_commitment":"c","height":18446744073709551615,"prev_commitment":"p"}"#)).unwrap();
    assert_record(&r, u64::MAX, "p", "c");
}

#[test]
fn invalid_utf8_is_an_encoding_error() {
    for bytes in [vec![0xffu8], vec![0xc3, 0x28], vec![b'{', 0x80, b'}'], vec![0xed, 0xa0, 0x80]] {
        assert_eq!(decode(&bytes).unwrap_err(), DecodeError::Encoding);
    }
}

#[test]
fn missing_member_is_a_schema_error() {
    let r = decode(&payload(r#"{"height": 5, "prev_commitment": "aa"}"#));
    assert_eq!(r.unwrap_err(), DecodeError::Schema);
    let r = decode(&payload(r#"{"prev_commitment": "aa", "current_commitment": "bb"}"#));
    assert_eq!(r.unwrap_err(), DecodeError::Schema);
}

#[test]
fn wrong_typed_member_is_a_schema_error() {
    for text in [
        r#"{"height": "5", "prev_commitment": "aa", "current_commitment": "bb"}"#,
        r#"{"height": -1, "prev_commitment": "aa", "current_commitment": "bb"}"#,
        r#"{"height": 1.5, "prev_commitment": "aa", "current_commitment": "bb"}"#,
        r#"{"height": 18446744073709551616, "prev_commitment": "aa", "current_commitment": "bb"}"#,
        r#"{"height": 5, "prev_commitment": 7, "current_commitment": "bb"}"#,
        r#"{"height": 5, "prev_commitment": "aa", "current_commitment": null}"#,
    ] {
        assert_eq!(decode(&payload(text)).unwrap_err(), DecodeError::Schema, "{}", text);
    }
}

#[test]
fn non_object_or_extra_member_is_a_schema_error() {
    for text in [
        "",
        "not json",
        r#"[5, "aa", "bb"]"#,
        r#""text""#,
        r#"{"height": 5, "prev_commitment": "aa", "current_commitment": "bb", "extra": 1}"#,
    ] {
        assert_eq!(decode(&payload(text)).unwrap_err(), DecodeError::Schema, "{}", text);
    }
}

#[test]
fn encoding_then_decoding_gives_the_record_back() {
    for (h, p, c) in [(0u64, "", ""), (42, "ab12", "cd34"), (u64::MAX, "q\"uote\\", "\u{e9}\n")] {
        let r = decode(&wire(h, p, c)).unwrap();
        assert_record(&r, h, p, c);
    }
}

#[test]
fn members_build_a_record() {
    let fields = vec![
        ("prev_commitment".to_string(), JsonField::Text("p".to_string())),
        ("height".to_string(), JsonField::Unsigned(9)),
        ("current_commitment".to_string(), JsonField::Text("c".to_string())),
    ];
    assert_record(&record_from_members(&fields).unwrap(), 9, "p", "c");
    let wrong = vec![
        ("prev_commitment".to_string(), JsonField::Text("p".to_string())),
        ("height".to_string(), JsonField::Other),
        ("current_commitment".to_string(), JsonField::Text("c".to_string())),
    ];
    assert_eq!(record_from_members(&wrong).unwrap_err(), DecodeError::Schema);
    assert_eq!(record_from_members(&vec![]).unwrap_err(), DecodeError::Schema);
}

#[test]
fn batch_drops_only_malformed_payloads_in_order() {
    let batch = vec![
        wire(1, "a", "b"),
        vec![0xff, 0xfe],
        wire(2, "b", "c"),
        payload(r#"{"height": 3}"#),
        wire(3, "c", "d"),
    ];
    let r = epochs_from_payloads(&batch);
    assert_eq!(r.len(), 3);
    assert_record(&r[0], 1, "a", "b");
    assert_record(&r[1], 2, "b", "c");
    assert_record(&r[2], 3, "c", "d");
}

#[test]
fn empty_batch_gives_no_records() {
    assert!(epochs_from_payloads(&vec![]).is_empty());
    assert!(epochs_from_payloads(&vec![payload("{}"), vec![0x80]]).is_empty());
}
