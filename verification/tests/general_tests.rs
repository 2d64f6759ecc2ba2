use chartspec::general::{JSONDict, KeyVal, Orientation, QualKeyVal};

#[test]
fn keyval_serializes_single_field() {
    let kv = KeyVal::new("value", "steelblue");
    assert_eq!(kv.serialize(), "{\"value\":\"steelblue\"}");
}

#[test]
fn keyval_escapes_value_text() {
    let kv = KeyVal::new("value", "a\"b\\c");
    assert_eq!(kv.serialize(), "{\"value\":\"a\\\"b\\\\c\"}");
    let doc: serde_json::Value = serde_json::from_str(&kv.serialize()).unwrap();
    assert_eq!(doc["value"].as_str().unwrap(), "a\"b\\c");
}

#[test]
fn qualkeyval_renders_hundredths_as_decimals() {
    assert_eq!(QualKeyVal::new("value", 100).serialize(), "{\"value\":1.0}");
    assert_eq!(QualKeyVal::new("value", 70).serialize(), "{\"value\":0.7}");
    assert_eq!(QualKeyVal::new("value", 25).serialize(), "{\"value\":0.25}");
    assert_eq!(QualKeyVal::new("value", 0).serialize(), "{\"value\":0.0}");
    assert_eq!(QualKeyVal::new("value", 205).serialize(), "{\"value\":2.05}");
}

#[test]
fn qualkeyval_output_parses_to_the_same_number() {
    let doc: serde_json::Value =
        serde_json::from_str(&QualKeyVal::new("value", 70).serialize()).unwrap();
    assert_eq!(doc["value"].as_f64().unwrap(), 0.7);
}

#[test]
fn dict_create_round_trip() {
    let d = JSONDict::create("a", "1", "b", "2");
    assert_eq!(d.serialize(), "{\"a\":\"1\",\"b\":\"2\"}");
    let doc: serde_json::Value = serde_json::from_str(&d.serialize()).unwrap();
    let obj = doc.as_object().unwrap();
    assert_eq!(obj.len(), 2);
    assert_eq!(obj["a"].as_str().unwrap(), "1");
    assert_eq!(obj["b"].as_str().unwrap(), "2");
}

#[test]
fn band_create_mixes_string_and_integer_fields() {
    let d = JSONDict::band_create("scale", "xscale", "band", 1);
    assert_eq!(d.serialize(), "{\"scale\":\"xscale\",\"band\":1}");
}

#[test]
fn tri_create_holds_one_string_and_two_integers() {
    let d = JSONDict::tri_create("field", "x", "mult", 2, "offset", -3);
    assert_eq!(d.serialize(), "{\"field\":\"x\",\"mult\":2,\"offset\":-3}");
    let doc: serde_json::Value = serde_json::from_str(&d.serialize()).unwrap();
    let obj = doc.as_object().unwrap();
    assert_eq!(obj.len(), 3);
    assert_eq!(obj["mult"].as_i64().unwrap(), 2);
    assert_eq!(obj["offset"].as_i64().unwrap(), -3);
}

#[test]
fn orientations_serialize_lowercase() {
    assert_eq!(Orientation::Top.serialize(), "\"top\"");
    assert_eq!(Orientation::Left.serialize(), "\"left\"");
    assert_eq!(Orientation::Bottom.serialize(), "\"bottom\"");
    assert_eq!(Orientation::Right.serialize(), "\"right\"");
}

#[test]
fn orientation_tokens_parse_as_lowercase_strings() {
    let doc: serde_json::Value = serde_json::from_str(&Orientation::Bottom.serialize()).unwrap();
    assert_eq!(doc.as_str().unwrap(), "bottom");
}
