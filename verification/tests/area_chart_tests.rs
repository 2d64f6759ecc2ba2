use chartspec::area_chart::{
    AreaChartAxis, AreaChartData, AreaChartEncoding, AreaChartEnter, AreaChartHover,
    AreaChartMark, AreaChartScale, AreaChartSignal, AreaChartUpdate, SignalBinding,
};
use chartspec::general::{JSONDict, KeyVal, Orientation, QualKeyVal};

#[test]
fn signal_binding_default_golden() {
    let binding = SignalBinding::default();
    assert_eq!(
        binding.serialize(),
        "{\"input\":\"select\",\"options\":[\"basis\",\"cardinal\",\"linear\",\"monotone\"]}"
    );
}

#[test]
fn area_signal_default_golden() {
    let signal = AreaChartSignal::default();
    assert_eq!(
        signal.serialize(),
        "{\"name\":\"interpolate\",\"value\":\"monotone\",\"bind\":{\"input\":\"select\",\"options\":[\"basis\",\"cardinal\",\"linear\",\"monotone\"]}}"
    );
}

#[test]
fn area_scale_defaults_golden() {
    assert_eq!(
        AreaChartScale::default_x().serialize(),
        "{\"name\":\"xscale\",\"type\":\"linear\",\"range\":\"width\",\"zero\":false,\"domain\":{\"data\":\"table\",\"field\":\"u\"}}"
    );
    assert_eq!(
        AreaChartScale::default_y().serialize(),
        "{\"name\":\"yscale\",\"type\":\"linear\",\"range\":\"height\",\"zero\":true,\"domain\":{\"data\":\"table\",\"field\":\"v\"}}"
    );
}

#[test]
fn area_data_collects_points_in_order() {
    let mut data = AreaChartData::default();
    data.add_entry(1, 2);
    data.add_entry(-3, 4);
    assert_eq!(
        data.serialize(),
        "{\"name\":\"table\",\"values\":[{\"u\":1,\"v\":2},{\"u\":-3,\"v\":4}]}"
    );
}

#[test]
fn area_axis_serializes_orientation_lowercase() {
    let axis = AreaChartAxis::new(Orientation::Top, "xscale");
    assert_eq!(axis.serialize(), "{\"orient\":\"top\",\"scale\":\"xscale\"}");
    let doc: serde_json::Value = serde_json::from_str(&axis.serialize()).unwrap();
    assert_eq!(doc["orient"].as_str().unwrap(), "top");
}

#[test]
fn area_mark_composes_encoding_blocks() {
    let enter = AreaChartEnter::new(
        JSONDict::create("scale", "xscale", "field", "u"),
        JSONDict::create("scale", "yscale", "field", "v"),
        JSONDict::band_create("scale", "yscale", "value", 0),
        JSONDict::create("scale", "color", "field", "c"),
    );
    let update = AreaChartUpdate::new(
        KeyVal::new("signal", "interpolate"),
        QualKeyVal::new("value", 100),
    );
    let hover = AreaChartHover::new(QualKeyVal::new("value", 50));
    let mark = AreaChartMark::new("area", "table", AreaChartEncoding::new(enter, update, hover));
    let text = mark.serialize();
    let mut expected = String::new();
    expected.push_str("{\"type\":\"area\",\"from\":{\"data\":\"table\"},\"encode\":{");
    expected.push_str(
        "\"enter\":{\"x\":{\"scale\":\"xscale\",\"field\":\"u\"},\"y\":{\"scale\":\"yscale\",\"field\":\"v\"},\"y2\":{\"scale\":\"yscale\",\"value\":0},\"fill\":{\"scale\":\"color\",\"field\":\"c\"}},",
    );
    expected.push_str(
        "\"update\":{\"interpolate\":{\"signal\":\"interpolate\"},\"fillOpacity\":{\"value\":1.0}},",
    );
    expected.push_str("\"hover\":{\"fillOpacity\":{\"value\":0.5}}}}");
    assert_eq!(text, expected);
    let doc: serde_json::Value = serde_json::from_str(&text).unwrap();
    assert_eq!(doc["encode"]["update"]["fillOpacity"]["value"].as_f64().unwrap(), 1.0);
}
