use wasmiot_orchestrator::json::{normalize_object_ids, Json};

fn j_text(s: &str) -> Json {
    Json::Text(s.to_string())
}

fn j_object(members: Vec<(&str, Json)>) -> Json {
    Json::Object(members.into_iter().map(|(k, v)| (k.to_string(), v)).collect())
}

fn extended(hex: &str) -> Json {
    j_object(vec![("$oid", j_text(hex))])
}

#[test]
fn an_extended_identifier_becomes_its_text() {
    assert_eq!(normalize_object_ids(extended("aa11")), j_text("aa11"));
    assert_eq!(normalize_object_ids(extended("")), j_text(""));
}

#[test]
fn identifiers_are_found_at_any_depth() {
    let value = j_object(vec![
        ("_id", extended("01")),
        ("name", j_text("d")),
        (
            "sequence",
            Json::Array(vec![
                j_object(vec![("device", extended("02")), ("func", j_text("f"))]),
                Json::Array(vec![extended("03"), Json::Null]),
            ]),
        ),
        ("fullManifest", j_object(vec![("02", j_object(vec![("deploymentId", extended("01"))]))])),
    ]);
    let expected = j_object(vec![
        ("_id", j_text("01")),
        ("name", j_text("d")),
        (
            "sequence",
            Json::Array(vec![
                j_object(vec![("device", j_text("02")), ("func", j_text("f"))]),
                Json::Array(vec![j_text("03"), Json::Null]),
            ]),
        ),
        ("fullManifest", j_object(vec![("02", j_object(vec![("deploymentId", j_text("01"))]))])),
    ]);
    assert_eq!(normalize_object_ids(value), expected);
}

#[test]
fn other_values_stay_as_they_are() {
    for value in vec![
        Json::Null,
        Json::Bool(true),
        Json::Number("42".to_string()),
        j_text("$oid"),
        Json::Array(vec![]),
        j_object(vec![]),
    ] {
        let same = match &value {
            Json::Null => Json::Null,
            Json::Bool(b) => Json::Bool(*b),
            Json::Number(n) => Json::Number(n.clone()),
            Json::Text(t) => Json::Text(t.clone()),
            Json::Array(_) => Json::Array(vec![]),
            Json::Object(_) => Json::Object(vec![]),
        };
        assert_eq!(normalize_object_ids(value), same);
    }
}

#[test]
fn only_a_lone_text_under_the_key_is_an_identifier() {
    let not_text = j_object(vec![("$oid", Json::Number("1".to_string()))]);
    assert_eq!(normalize_object_ids(not_text), j_object(vec![("$oid", Json::Number("1".to_string()))]));
    let two = j_object(vec![("$oid", j_text("a")), ("x", Json::Null)]);
    assert_eq!(normalize_object_ids(two), j_object(vec![("$oid", j_text("a")), ("x", Json::Null)]));
    let other_key = j_object(vec![("$OID", j_text("a"))]);
    assert_eq!(normalize_object_ids(other_key), j_object(vec![("$OID", j_text("a"))]));
    let nested = j_object(vec![("$oid", extended("a"))]);
    assert_eq!(normalize_object_ids(nested), j_object(vec![("$oid", j_text("a"))]));
}
