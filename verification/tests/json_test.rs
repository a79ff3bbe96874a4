use snaptask::json::{i32_f64_bits, JsonNumber, JsonValue};
use snaptask::models::CreateTaskInput;
use snaptask::tasks::new_task_row_with_id;

fn obj(members: Vec<(&str, JsonValue)>) -> JsonValue {
    JsonValue::Object(members.into_iter().map(|(k, v)| (k.to_string(), v)).collect())
}

#[test]
fn member_lookup() {
    let v = obj(vec![
        ("a", JsonValue::Str("x".to_string())),
        ("n", JsonValue::Number(JsonNumber { as_i64: Some(3), f64_bits: 3.0f64.to_bits() })),
        ("b", JsonValue::Bool(true)),
        ("a", JsonValue::Null),
    ]);
    assert_eq!(v.get("a").and_then(|m| m.as_str()).map(|s| s.as_str()), Some("x"));
    assert_eq!(v.get("n").and_then(|m| m.as_i64()), Some(3));
    assert_eq!(v.get("n").and_then(|m| m.as_f64_bits()), Some(3.0f64.to_bits()));
    assert_eq!(v.get("b").and_then(|m| m.as_bool()), Some(true));
    assert!(v.get("missing").is_none());
    assert!(JsonValue::Null.get("a").is_none());
    assert!(v.as_array().is_none());
}

#[test]
fn tag_lists_as_json_text() {
    let tags_text = |tags: Vec<String>| {
        let input = CreateTaskInput {
            title: "t".to_string(),
            description: None,
            priority: None,
            client_id: None,
            project_id: None,
            deadline: None,
            tags: Some(tags),
            source_type: None,
            source_image: None,
            ocr_text: None,
            ai_confidence_bits: None,
        };
        new_task_row_with_id("id".to_string(), &input).tags.unwrap()
    };
    let tags = vec!["a".to_string(), "b\"c".to_string(), "x\\y\n\u{1}".to_string(), "标签".to_string()];
    assert_eq!(tags_text(tags), "[\"a\",\"b\\\"c\",\"x\\\\y\\n\\u0001\",\"标签\"]");
    assert_eq!(tags_text(vec![]), "[]");
}

#[test]
fn integer_f64_bit_patterns() {
    for n in [0i32, 1, -1, 2, 3, -3, 7, 30, 4096, 1_000_000, i32::MAX, i32::MIN, i32::MIN + 1] {
        assert_eq!(i32_f64_bits(n), (n as f64).to_bits(), "{}", n);
    }
}
