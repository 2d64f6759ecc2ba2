use chartspec::bar_chart::BarChart;

fn golden_default_document() -> String {
    let mut s = String::new();
    s.push_str("{\"$schema\":\"https://vega.github.io/schema/vega/v3.0.json\",");
    s.push_str("\"width\":500,\"height\":300,\"padding\":5,");
    s.push_str("\"data\":[{\"name\":\"table\",\"values\":[]}],");
    s.push_str("\"scales\":[");
    s.push_str(
        "{\"name\":\"xscale\",\"type\":\"band\",\"range\":\"width\",\"zero\":false,\"domain\":{\"data\":\"table\",\"field\":\"category\"}},",
    );
    s.push_str(
        "{\"name\":\"yscale\",\"type\":\"linear\",\"range\":\"height\",\"zero\":true,\"domain\":{\"data\":\"table\",\"field\":\"amount\"}}",
    );
    s.push_str("],\"axes\":[");
    s.push_str("{\"orient\":\"bottom\",\"scale\":\"xscale\"},");
    s.push_str("{\"orient\":\"left\",\"scale\":\"yscale\"}");
    s.push_str("],\"marks\":[{\"type\":\"rect\",\"from\":{\"data\":\"table\"},\"encode\":{");
    s.push_str(
        "\"enter\":{\"x\":{\"scale\":\"xscale\",\"field\":\"category\"},\"width\":{\"scale\":\"xscale\",\"band\":1},\"y\":{\"scale\":\"yscale\",\"field\":\"amount\"},\"y2\":{\"scale\":\"yscale\",\"value\":0}},",
    );
    s.push_str("\"update\":{\"fill\":{\"value\":\"steelblue\"}},");
    s.push_str("\"hover\":{\"fill\":{\"value\":\"red\"}}");
    s.push_str("}}]}");
    s
}

#[test]
fn default_chart_golden_document() {
    let chart = BarChart::new();
    assert_eq!(chart.serialize(), golden_default_document());
}

#[test]
fn default_document_is_valid_json_with_expected_shape() {
    let chart = BarChart::new();
    let doc: serde_json::Value = serde_json::from_str(&chart.serialize()).unwrap();
    assert_eq!(
        doc["$schema"],
        serde_json::Value::String("https://vega.github.io/schema/vega/v3.0.json".to_string())
    );
    assert_eq!(doc["data"].as_array().unwrap().len(), 1);
    assert_eq!(doc["data"][0]["name"].as_str().unwrap(), "table");
    assert_eq!(doc["data"][0]["values"].as_array().unwrap().len(), 0);
    assert_eq!(doc["scales"].as_array().unwrap().len(), 2);
    assert_eq!(doc["axes"].as_array().unwrap().len(), 2);
    assert_eq!(doc["marks"].as_array().unwrap().len(), 1);
}

#[test]
fn zero_adds_matches_fresh_default() {
    let untouched = BarChart::new();
    let fresh = BarChart::new();
    assert_eq!(untouched.serialize(), fresh.serialize());
    assert_eq!(untouched.serialize(), golden_default_document());
}

#[test]
fn add_data_appends_in_order() {
    let mut chart = BarChart::new();
    chart.add_data("A".to_string(), 28);
    chart.add_data("B".to_string(), 55);
    chart.add_data("C".to_string(), 43);
    let doc: serde_json::Value = serde_json::from_str(&chart.serialize()).unwrap();
    let values = doc["data"][0]["values"].as_array().unwrap();
    assert_eq!(values.len(), 3);
    assert_eq!(values[0]["category"].as_str().unwrap(), "A");
    assert_eq!(values[0]["amount"].as_i64().unwrap(), 28);
    assert_eq!(values[1]["category"].as_str().unwrap(), "B");
    assert_eq!(values[1]["amount"].as_i64().unwrap(), 55);
    assert_eq!(values[2]["category"].as_str().unwrap(), "C");
    assert_eq!(values[2]["amount"].as_i64().unwrap(), 43);
}

#[test]
fn series_length_equals_number_of_add_calls() {
    let mut chart = BarChart::new();
    for i in 0..10 {
        chart.add_data(format!("bar{}", i), i);
    }
    let doc: serde_json::Value = serde_json::from_str(&chart.serialize()).unwrap();
    assert_eq!(doc["data"][0]["values"].as_array().unwrap().len(), 10);
}

#[test]
fn duplicate_categories_are_kept_as_repeated_bars() {
    let mut chart = BarChart::new();
    chart.add_data("same".to_string(), 1);
    chart.add_data("same".to_string(), 2);
    let doc: serde_json::Value = serde_json::from_str(&chart.serialize()).unwrap();
    let values = doc["data"][0]["values"].as_array().unwrap();
    assert_eq!(values.len(), 2);
    assert_eq!(values[0]["category"], values[1]["category"]);
}

#[test]
fn clear_data_empties_values_and_keeps_name() {
    let mut chart = BarChart::new();
    chart.add_data("A".to_string(), 1);
    chart.add_data("B".to_string(), 2);
    chart.clear_data();
    let text = chart.serialize();
    let doc: serde_json::Value = serde_json::from_str(&text).unwrap();
    assert_eq!(doc["data"][0]["name"].as_str().unwrap(), "table");
    assert_eq!(doc["data"][0]["values"].as_array().unwrap().len(), 0);
    assert_eq!(text, golden_default_document());
}

#[test]
fn set_dimension_is_height_then_width() {
    let mut chart = BarChart::new();
    chart.set_dimension((150, 640));
    let doc: serde_json::Value = serde_json::from_str(&chart.serialize()).unwrap();
    assert_eq!(doc["height"].as_i64().unwrap(), 150);
    assert_eq!(doc["width"].as_i64().unwrap(), 640);
}

#[test]
fn set_padding_replaces_padding() {
    let mut chart = BarChart::new();
    chart.set_padding(42);
    let doc: serde_json::Value = serde_json::from_str(&chart.serialize()).unwrap();
    assert_eq!(doc["padding"].as_i64().unwrap(), 42);
}

#[test]
fn set_description_changes_title_but_not_document() {
    let mut chart = BarChart::new();
    chart.set_description("Quarterly sales");
    assert_eq!(chart.get_description(), "Quarterly sales");
    assert_eq!(chart.serialize(), golden_default_document());
}

#[test]
fn get_identifier_names_the_chart_kind() {
    let chart = BarChart::new();
    assert_eq!(chart.get_identifier(), "barchart");
}

#[test]
fn category_text_is_json_escaped() {
    let mut chart = BarChart::new();
    let category = "he said \"hi\"\\ and left\n";
    chart.add_data(category.to_string(), 7);
    let text = chart.serialize();
    assert!(text.contains("he said \\\"hi\\\"\\\\ and left\\n"));
    let doc: serde_json::Value = serde_json::from_str(&text).unwrap();
    assert_eq!(doc["data"][0]["values"][0]["category"].as_str().unwrap(), category);
}

#[test]
fn control_characters_use_unicode_escapes() {
    let mut chart = BarChart::new();
    let category = "a\u{1}b\tc";
    chart.add_data(category.to_string(), 0);
    let text = chart.serialize();
    assert!(text.contains("a\\u0001b\\tc"));
    let doc: serde_json::Value = serde_json::from_str(&text).unwrap();
    assert_eq!(doc["data"][0]["values"][0]["category"].as_str().unwrap(), category);
}

#[test]
fn extreme_amounts_render_exactly() {
    let mut chart = BarChart::new();
    chart.add_data("low".to_string(), i32::MIN);
    chart.add_data("high".to_string(), i32::MAX);
    let text = chart.serialize();
    assert!(text.contains("\"amount\":-2147483648"));
    assert!(text.contains("\"amount\":2147483647"));
    let doc: serde_json::Value = serde_json::from_str(&text).unwrap();
    assert_eq!(doc["data"][0]["values"][0]["amount"].as_i64().unwrap(), i32::MIN as i64);
    assert_eq!(doc["data"][0]["values"][1]["amount"].as_i64().unwrap(), i32::MAX as i64);
}
