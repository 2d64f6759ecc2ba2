//! Element records for area charts: signal and binding, data series, axis,
//! scale, and the mark with its encoding blocks. Each record serializes to
//! the exact JSON fragment the consuming grammar expects.

use vstd::prelude::*;

use crate::general::{
    dict_json, keyval_json, orientation_text, qualkeyval_json, JSONDict, JSONDictV, KeyVal,
    KeyValV, Orientation, QualKeyVal, QualKeyValV,
};
use crate::json::{
    append_bool, append_colon, append_comma, append_dec_i32, append_json_str, append_lbrace,
    append_lbracket, append_rbrace, append_rbracket, append_str_array, bool_text, comma_join,
    dec_int, json_str, lemma_comma_join_push, str_array_json,
};

verus! {

/// The mathematical content of a [`SignalBinding`].
pub struct SignalBindingV {
    pub input: Seq<char>,
    pub options: Seq<Seq<char>>,
}

/// The input widget bound to a signal, with the options it offers.
pub struct SignalBinding {
    input: String,
    options: Vec<String>,
}

impl View for SignalBinding {
    type V = SignalBindingV;

    closed spec fn view(&self) -> SignalBindingV {
        SignalBindingV { input: self.input@, options: self.options@.map_values(|s: String| s@) }
    }
}

/// The binding every area chart starts with: a select over the interpolation
/// modes the grammar offers.
pub open spec fn default_signal_binding_v() -> SignalBindingV {
    SignalBindingV {
        input: "select"@,
        options: seq!["basis"@, "cardinal"@, "linear"@, "monotone"@],
    }
}

/// The document text of a [`SignalBinding`].
pub open spec fn signal_binding_json(v: SignalBindingV) -> Seq<char> {
    seq!['{'] + json_str("input"@) + seq![':'] + json_str(v.input) + seq![','] + json_str(
        "options"@,
    ) + seq![':'] + str_array_json(v.options) + seq!['}']
}

impl SignalBinding {
    /// The minimal grammar-valid binding: a select over the four
    /// interpolation modes.
    pub fn default() -> (r: SignalBinding)
        ensures
            r@ == default_signal_binding_v(),
    {
        let mut options: Vec<String> = Vec::new();
        options.push("basis".to_owned());
        options.push("cardinal".to_owned());
        options.push("linear".to_owned());
        options.push("monotone".to_owned());
        let r = SignalBinding { input: "select".to_owned(), options };
        proof {
            assert(r@.options =~= default_signal_binding_v().options);
        }
        r
    }

    /// Emits `{"input":...,"options":[...]}`.
    pub fn serialize(&self) -> (r: String)
        ensures
            r@ == signal_binding_json(self@),
    {
        let mut out = String::new();
        append_lbrace(&mut out);
        append_json_str(&mut out, "input");
        append_colon(&mut out);
        append_json_str(&mut out, self.input.as_str());
        append_comma(&mut out);
        append_json_str(&mut out, "options");
        append_colon(&mut out);
        append_str_array(&mut out, &self.options);
        append_rbrace(&mut out);
        proof {
            assert(out@ =~= signal_binding_json(self@));
        }
        out
    }
}

/// The mathematical content of an [`AreaChartSignal`].
pub struct AreaChartSignalV {
    pub name: Seq<char>,
    pub value: Seq<char>,
    pub bind: SignalBindingV,
}

/// A named signal with its initial value and its input binding.
pub struct AreaChartSignal {
    name: String,
    value: String,
    bind: SignalBinding,
}

impl View for AreaChartSignal {
    type V = AreaChartSignalV;

    closed spec fn view(&self) -> AreaChartSignalV {
        AreaChartSignalV { name: self.name@, value: self.value@, bind: self.bind@ }
    }
}

/// The signal every area chart starts with: the interpolation mode, set to
/// monotone.
pub open spec fn default_area_signal_v() -> AreaChartSignalV {
    AreaChartSignalV {
        name: "interpolate"@,
        value: "monotone"@,
        bind: default_signal_binding_v(),
    }
}

/// The document text of an [`AreaChartSignal`].
pub open spec fn area_signal_json(v: AreaChartSignalV) -> Seq<char> {
    seq!['{'] + json_str("name"@) + seq![':'] + json_str(v.name) + seq![','] + json_str("value"@)
        + seq![':'] + json_str(v.value) + seq![','] + json_str("bind"@) + seq![':']
        + signal_binding_json(v.bind) + seq!['}']
}

impl AreaChartSignal {
    /// The minimal grammar-valid signal: interpolation, monotone by default.
    pub fn default() -> (r: AreaChartSignal)
        ensures
            r@ == default_area_signal_v(),
    {
        AreaChartSignal {
            name: "interpolate".to_owned(),
            value: "monotone".to_owned(),
            bind: SignalBinding::default(),
        }
    }

    /// Emits `{"name":...,"value":...,"bind":...}`.
    pub fn serialize(&self) -> (r: String)
        ensures
            r@ == area_signal_json(self@),
    {
        let mut out = String::new();
        append_lbrace(&mut out);
        append_json_str(&mut out, "name");
        append_colon(&mut out);
        append_json_str(&mut out, self.name.as_str());
        append_comma(&mut out);
        append_json_str(&mut out, "value");
        append_colon(&mut out);
        append_json_str(&mut out, self.value.as_str());
        append_comma(&mut out);
        append_json_str(&mut out, "bind");
        append_colon(&mut out);
        let bind = self.bind.serialize();
        out.append(bind.as_str());
        append_rbrace(&mut out);
        proof {
            assert(out@ =~= area_signal_json(self@));
        }
        out
    }
}

/// The mathematical content of an [`AreaChartDataEntry`].
pub struct AreaChartDataEntryV {
    pub u: int,
    pub v: int,
}

/// One observed point of a continuous series: a pair of coordinates.
pub struct AreaChartDataEntry {
    u: i32,
    v: i32,
}

impl View for AreaChartDataEntry {
    type V = AreaChartDataEntryV;

    closed spec fn view(&self) -> AreaChartDataEntryV {
        AreaChartDataEntryV { u: self.u as int, v: self.v as int }
    }
}

/// The document text of an [`AreaChartDataEntry`].
pub open spec fn area_entry_json(e: AreaChartDataEntryV) -> Seq<char> {
    seq!['{'] + json_str("u"@) + seq![':'] + dec_int(e.u) + seq![','] + json_str("v"@) + seq![':']
        + dec_int(e.v) + seq!['}']
}

impl AreaChartDataEntry {
    /// Builds one point; construction cannot fail.
    pub fn new(u: i32, v: i32) -> (r: AreaChartDataEntry)
        ensures
            r@ == (AreaChartDataEntryV { u: u as int, v: v as int }),
    {
        AreaChartDataEntry { u, v }
    }

    /// Emits `{"u":...,"v":...}`.
    pub fn serialize(&self) -> (r: String)
        ensures
            r@ == area_entry_json(self@),
    {
        let mut out = String::new();
        append_lbrace(&mut out);
        append_json_str(&mut out, "u");
        append_colon(&mut out);
        append_dec_i32(&mut out, self.u);
        append_comma(&mut out);
        append_json_str(&mut out, "v");
        append_colon(&mut out);
        append_dec_i32(&mut out, self.v);
        append_rbrace(&mut out);
        proof {
            assert(out@ =~= area_entry_json(self@));
        }
        out
    }
}

/// The mathematical content of an [`AreaChartData`].
pub struct AreaChartDataV {
    pub name: Seq<char>,
    pub values: Seq<AreaChartDataEntryV>,
}

/// A named, insertion-ordered series of points.
pub struct AreaChartData {
    name: String,
    values: Vec<AreaChartDataEntry>,
}

impl View for AreaChartData {
    type V = AreaChartDataV;

    closed spec fn view(&self) -> AreaChartDataV {
        AreaChartDataV {
            name: self.name@,
            values: self.values@.map_values(|e: AreaChartDataEntry| e@),
        }
    }
}

/// The document text of an [`AreaChartData`].
pub open spec fn area_data_json(v: AreaChartDataV) -> Seq<char> {
    seq!['{'] + json_str("name"@) + seq![':'] + json_str(v.name) + seq![','] + json_str("values"@)
        + seq![':'] + seq!['['] + comma_join(v.values.map_values(|e: AreaChartDataEntryV| area_entry_json(e)))
        + seq![']'] + seq!['}']
}

impl AreaChartData {
    /// The minimal grammar-valid series: named `table`, no points yet.
    pub fn default() -> (r: AreaChartData)
        ensures
            r@ == (AreaChartDataV { name: "table"@, values: Seq::empty() }),
    {
        let r = AreaChartData { name: "table".to_owned(), values: Vec::new() };
        proof {
            assert(r@.values =~= Seq::<AreaChartDataEntryV>::empty());
        }
        r
    }

    /// Appends one point to the series, keeping insertion order.
    pub fn add_entry(&mut self, u: i32, v: i32)
        ensures
            final(self)@ == (AreaChartDataV {
                name: old(self)@.name,
                values: old(self)@.values.push(AreaChartDataEntryV { u: u as int, v: v as int }),
            }),
    {
        self.values.push(AreaChartDataEntry::new(u, v));
        proof {
            assert(self@.values =~= old(self)@.values.push(
                AreaChartDataEntryV { u: u as int, v: v as int },
            ));
        }
    }

    /// Emits `{"name":...,"values":[...]}` with the points in insertion
    /// order.
    pub fn serialize(&self) -> (r: String)
        ensures
            r@ == area_data_json(self@),
    {
        let ghost tokens = self@.values.map_values(|e: AreaChartDataEntryV| area_entry_json(e));
        let mut out = String::new();
        append_lbrace(&mut out);
        append_json_str(&mut out, "name");
        append_colon(&mut out);
        append_json_str(&mut out, self.name.as_str());
        append_comma(&mut out);
        append_json_str(&mut out, "values");
        append_colon(&mut out);
        append_lbracket(&mut out);
        let ghost open_prefix = out@;
        for i in 0..self.values.len()
            invariant
                tokens == self@.values.map_values(|e: AreaChartDataEntryV| area_entry_json(e)),
                tokens.len() == self.values@.len(),
                out@ == open_prefix + comma_join(tokens.take(i as int)),
        {
            if i != 0 {
                append_comma(&mut out);
            }
            let piece = self.values[i].serialize();
            out.append(piece.as_str());
            proof {
                lemma_comma_join_push(tokens.take(i as int), tokens[i as int]);
                assert(tokens.take(i as int).push(tokens[i as int]) =~= tokens.take(i + 1));
                assert(out@ =~= open_prefix + comma_join(tokens.take(i + 1)));
            }
        }
        append_rbracket(&mut out);
        append_rbrace(&mut out);
        proof {
            assert(tokens.take(self.values@.len() as int) =~= tokens);
            assert(out@ =~= area_data_json(self@));
        }
        out
    }
}

/// The mathematical content of an [`AreaChartAxis`].
pub struct AreaChartAxisV {
    pub orient: Orientation,
    pub scale: Seq<char>,
}

/// A rendered guide for a scale, at one of the four orientations.
pub struct AreaChartAxis {
    orient: Orientation,
    scale: String,
}

impl View for AreaChartAxis {
    type V = AreaChartAxisV;

    closed spec fn view(&self) -> AreaChartAxisV {
        AreaChartAxisV { orient: self.orient, scale: self.scale@ }
    }
}

/// The document text of an [`AreaChartAxis`]; the orientation is emitted in
/// lowercase.
pub open spec fn area_axis_json(v: AreaChartAxisV) -> Seq<char> {
    seq!['{'] + json_str("orient"@) + seq![':'] + json_str(orientation_text(v.orient)) + seq![',']
        + json_str("scale"@) + seq![':'] + json_str(v.scale) + seq!['}']
}

impl AreaChartAxis {
    /// Builds an axis for the named scale; construction cannot fail.
    pub fn new(orient: Orientation, scale: &str) -> (r: AreaChartAxis)
        ensures
            r@ == (AreaChartAxisV { orient, scale: scale@ }),
    {
        AreaChartAxis { orient, scale: scale.to_owned() }
    }

    /// Emits `{"orient":...,"scale":...}`.
    pub fn serialize(&self) -> (r: String)
        ensures
            r@ == area_axis_json(self@),
    {
        let mut out = String::new();
        append_lbrace(&mut out);
        append_json_str(&mut out, "orient");
        append_colon(&mut out);
        append_json_str(&mut out, self.orient.text());
        append_comma(&mut out);
        append_json_str(&mut out, "scale");
        append_colon(&mut out);
        append_json_str(&mut out, self.scale.as_str());
        append_rbrace(&mut out);
        proof {
            assert(out@ =~= area_axis_json(self@));
        }
        out
    }
}

/// The mathematical content of an [`AreaChartScale`].
pub struct AreaChartScaleV {
    pub name: Seq<char>,
    pub scale_type: Seq<char>,
    pub range: Seq<char>,
    pub zero: bool,
    pub domain: JSONDictV,
}

/// A mapping from a data field to a visual range.
pub struct AreaChartScale {
    name: String,
    scale_type: String,
    range: String,
    zero: bool,
    domain: JSONDict,
}

impl View for AreaChartScale {
    type V = AreaChartScaleV;

    closed spec fn view(&self) -> AreaChartScaleV {
        AreaChartScaleV {
            name: self.name@,
            scale_type: self.scale_type@,
            range: self.range@,
            zero: self.zero,
            domain: self.domain@,
        }
    }
}

/// The default horizontal scale of an area chart: linear over the `u` field,
/// mapped to the width, domain not forced through zero.
pub open spec fn default_area_xscale_v() -> AreaChartScaleV {
    AreaChartScaleV {
        name: "xscale"@,
        scale_type: "linear"@,
        range: "width"@,
        zero: false,
        domain: JSONDictV {
            str_vals: seq![("data"@, "table"@), ("field"@, "u"@)],
            i32_vals: Seq::empty(),
        },
    }
}

/// The default vertical scale of an area chart: linear over the `v` field,
/// mapped to the height, domain forced through zero.
pub open spec fn default_area_yscale_v() -> AreaChartScaleV {
    AreaChartScaleV {
        name: "yscale"@,
        scale_type: "linear"@,
        range: "height"@,
        zero: true,
        domain: JSONDictV {
            str_vals: seq![("data"@, "table"@), ("field"@, "v"@)],
            i32_vals: Seq::empty(),
        },
    }
}

/// The document text of an [`AreaChartScale`], in the fixed field order
/// `name`, `type`, `range`, `zero`, `domain`.
pub open spec fn area_scale_json(v: AreaChartScaleV) -> Seq<char> {
    seq!['{'] + json_str("name"@) + seq![':'] + json_str(v.name) + seq![','] + json_str("type"@)
        + seq![':'] + json_str(v.scale_type) + seq![','] + json_str("range"@) + seq![':']
        + json_str(v.range) + seq![','] + json_str("zero"@) + seq![':'] + bool_text(v.zero)
        + seq![','] + json_str("domain"@) + seq![':'] + dict_json(v.domain) + seq!['}']
}

impl AreaChartScale {
    /// The minimal grammar-valid horizontal scale.
    pub fn default_x() -> (r: AreaChartScale)
        ensures
            r@ == default_area_xscale_v(),
    {
        proof {
            reveal_strlit("data");
            reveal_strlit("field");
            assert("data"@.len() != "field"@.len());
        }
        AreaChartScale {
            name: "xscale".to_owned(),
            scale_type: "linear".to_owned(),
            zero: false,
            range: "width".to_owned(),
            domain: JSONDict::create("data", "table", "field", "u"),
        }
    }

    /// The minimal grammar-valid vertical scale.
    pub fn default_y() -> (r: AreaChartScale)
        ensures
            r@ == default_area_yscale_v(),
    {
        proof {
            reveal_strlit("data");
            reveal_strlit("field");
            assert("data"@.len() != "field"@.len());
        }
        AreaChartScale {
            name: "yscale".to_owned(),
            scale_type: "linear".to_owned(),
            zero: true,
            range: "height".to_owned(),
            domain: JSONDict::create("data", "table", "field", "v"),
        }
    }

    /// Emits `{"name":...,"type":...,"range":...,"zero":...,"domain":...}`.
    pub fn serialize(&self) -> (r: String)
        ensures
            r@ == area_scale_json(self@),
    {
        let mut out = String::new();
        append_lbrace(&mut out);
        append_json_str(&mut out, "name");
        append_colon(&mut out);
        append_json_str(&mut out, self.name.as_str());
        append_comma(&mut out);
        append_json_str(&mut out, "type");
        append_colon(&mut out);
        append_json_str(&mut out, self.scale_type.as_str());
        append_comma(&mut out);
        append_json_str(&mut out, "range");
        append_colon(&mut out);
        append_json_str(&mut out, self.range.as_str());
        append_comma(&mut out);
        append_json_str(&mut out, "zero");
        append_colon(&mut out);
        append_bool(&mut out, self.zero);
        append_comma(&mut out);
        append_json_str(&mut out, "domain");
        append_colon(&mut out);
        let domain = self.domain.serialize();
        out.append(domain.as_str());
        append_rbrace(&mut out);
        proof {
            assert(out@ =~= area_scale_json(self@));
        }
        out
    }
}

/// The mathematical content of an [`AreaChartEnter`].
pub struct AreaChartEnterV {
    pub x: JSONDictV,
    pub y: JSONDictV,
    pub y2: JSONDictV,
    pub fill: JSONDictV,
}

/// The enter block of an area mark encoding: how data fields map to the
/// visual channels when elements first appear.
pub struct AreaChartEnter {
    x: JSONDict,
    y: JSONDict,
    y2: JSONDict,
    fill: JSONDict,
}

impl View for AreaChartEnter {
    type V = AreaChartEnterV;

    closed spec fn view(&self) -> AreaChartEnterV {
        AreaChartEnterV { x: self.x@, y: self.y@, y2: self.y2@, fill: self.fill@ }
    }
}

/// The document text of an [`AreaChartEnter`].
pub open spec fn area_enter_json(v: AreaChartEnterV) -> Seq<char> {
    seq!['{'] + json_str("x"@) + seq![':'] + dict_json(v.x) + seq![','] + json_str("y"@)
        + seq![':'] + dict_json(v.y) + seq![','] + json_str("y2"@) + seq![':'] + dict_json(v.y2)
        + seq![','] + json_str("fill"@) + seq![':'] + dict_json(v.fill) + seq!['}']
}

impl AreaChartEnter {
    /// Builds the block from its channel records; construction cannot fail.
    pub fn new(x: JSONDict, y: JSONDict, y2: JSONDict, fill: JSONDict) -> (r: AreaChartEnter)
        ensures
            r@ == (AreaChartEnterV { x: x@, y: y@, y2: y2@, fill: fill@ }),
    {
        AreaChartEnter { x, y, y2, fill }
    }

    /// Emits `{"x":...,"y":...,"y2":...,"fill":...}`.
    pub fn serialize(&self) -> (r: String)
        ensures
            r@ == area_enter_json(self@),
    {
        let mut out = String::new();
        append_lbrace(&mut out);
        append_json_str(&mut out, "x");
        append_colon(&mut out);
        let x = self.x.serialize();
        out.append(x.as_str());
        append_comma(&mut out);
        append_json_str(&mut out, "y");
        append_colon(&mut out);
        let y = self.y.serialize();
        out.append(y.as_str());
        append_comma(&mut out);
        append_json_str(&mut out, "y2");
        append_colon(&mut out);
        let y2 = self.y2.serialize();
        out.append(y2.as_str());
        append_comma(&mut out);
        append_json_str(&mut out, "fill");
        append_colon(&mut out);
        let fill = self.fill.serialize();
        out.append(fill.as_str());
        append_rbrace(&mut out);
        proof {
            assert(out@ =~= area_enter_json(self@));
        }
        out
    }
}

/// The mathematical content of an [`AreaChartUpdate`].
pub struct AreaChartUpdateV {
    pub interpolate: KeyValV,
    pub fill_opacity: QualKeyValV,
}

/// The update block of an area mark encoding: the interpolation binding and
/// the resting opacity. The opacity field is spelled `fillOpacity` on the
/// wire, as the grammar requires.
pub struct AreaChartUpdate {
    interpolate: KeyVal,
    fill_opacity: QualKeyVal,
}

impl View for AreaChartUpdate {
    type V = AreaChartUpdateV;

    closed spec fn view(&self) -> AreaChartUpdateV {
        AreaChartUpdateV { interpolate: self.interpolate@, fill_opacity: self.fill_opacity@ }
    }
}

/// The document text of an [`AreaChartUpdate`].
pub open spec fn area_update_json(v: AreaChartUpdateV) -> Seq<char> {
    seq!['{'] + json_str("interpolate"@) + seq![':'] + keyval_json(v.interpolate) + seq![',']
        + json_str("fillOpacity"@) + seq![':'] + qualkeyval_json(v.fill_opacity) + seq!['}']
}

impl AreaChartUpdate {
    /// Builds the block from its two bindings; construction cannot fail.
    pub fn new(interpolate: KeyVal, fill_opacity: QualKeyVal) -> (r: AreaChartUpdate)
        ensures
            r@ == (AreaChartUpdateV { interpolate: interpolate@, fill_opacity: fill_opacity@ }),
    {
        AreaChartUpdate { interpolate, fill_opacity }
    }

    /// Emits `{"interpolate":...,"fillOpacity":...}`.
    pub fn serialize(&self) -> (r: String)
        ensures
            r@ == area_update_json(self@),
    {
        let mut out = String::new();
        append_lbrace(&mut out);
        append_json_str(&mut out, "interpolate");
        append_colon(&mut out);
        let interpolate = self.interpolate.serialize();
        out.append(interpolate.as_str());
        append_comma(&mut out);
        append_json_str(&mut out, "fillOpacity");
        append_colon(&mut out);
        let opacity = self.fill_opacity.serialize();
        out.append(opacity.as_str());
        append_rbrace(&mut out);
        proof {
            assert(out@ =~= area_update_json(self@));
        }
        out
    }
}

/// The mathematical content of an [`AreaChartHover`].
pub struct AreaChartHoverV {
    pub fill_opacity: QualKeyValV,
}

/// The hover block of an area mark encoding: the opacity while hovered,
/// spelled `fillOpacity` on the wire.
pub struct AreaChartHover {
    fill_opacity: QualKeyVal,
}

impl View for AreaChartHover {
    type V = AreaChartHoverV;

    closed spec fn view(&self) -> AreaChartHoverV {
        AreaChartHoverV { fill_opacity: self.fill_opacity@ }
    }
}

/// The document text of an [`AreaChartHover`].
pub open spec fn area_hover_json(v: AreaChartHoverV) -> Seq<char> {
    seq!['{'] + json_str("fillOpacity"@) + seq![':'] + qualkeyval_json(v.fill_opacity) + seq!['}']
}

impl AreaChartHover {
    /// Builds the block from its binding; construction cannot fail.
    pub fn new(fill_opacity: QualKeyVal) -> (r: AreaChartHover)
        ensures
            r@ == (AreaChartHoverV { fill_opacity: fill_opacity@ }),
    {
        AreaChartHover { fill_opacity }
    }

    /// Emits `{"fillOpacity":...}`.
    pub fn serialize(&self) -> (r: String)
        ensures
            r@ == area_hover_json(self@),
    {
        let mut out = String::new();
        append_lbrace(&mut out);
        append_json_str(&mut out, "fillOpacity");
        append_colon(&mut out);
        let opacity = self.fill_opacity.serialize();
        out.append(opacity.as_str());
        append_rbrace(&mut out);
        proof {
            assert(out@ =~= area_hover_json(self@));
        }
        out
    }
}

/// The mathematical content of an [`AreaChartEncoding`].
pub struct AreaChartEncodingV {
    pub enter: AreaChartEnterV,
    pub update: AreaChartUpdateV,
    pub hover: AreaChartHoverV,
}

/// The per-visual-state encoding of an area mark.
pub struct AreaChartEncoding {
    enter: AreaChartEnter,
    update: AreaChartUpdate,
    hover: AreaChartHover,
}

impl View for AreaChartEncoding {
    type V = AreaChartEncodingV;

    closed spec fn view(&self) -> AreaChartEncodingV {
        AreaChartEncodingV { enter: self.enter@, update: self.update@, hover: self.hover@ }
    }
}

/// The document text of an [`AreaChartEncoding`].
pub open spec fn area_encoding_json(v: AreaChartEncodingV) -> Seq<char> {
    seq!['{'] + json_str("enter"@) + seq![':'] + area_enter_json(v.enter) + seq![','] + json_str(
        "update"@,
    ) + seq![':'] + area_update_json(v.update) + seq![','] + json_str("hover"@) + seq![':']
        + area_hover_json(v.hover) + seq!['}']
}

impl AreaChartEncoding {
    /// Builds the encoding from its three blocks; construction cannot fail.
    pub fn new(enter: AreaChartEnter, update: AreaChartUpdate, hover: AreaChartHover) -> (r:
        AreaChartEncoding)
        ensures
            r@ == (AreaChartEncodingV { enter: enter@, update: update@, hover: hover@ }),
    {
        AreaChartEncoding { enter, update, hover }
    }

    /// Emits `{"enter":...,"update":...,"hover":...}`.
    pub fn serialize(&self) -> (r: String)
        ensures
            r@ == area_encoding_json(self@),
    {
        let mut out = String::new();
        append_lbrace(&mut out);
        append_json_str(&mut out, "enter");
        append_colon(&mut out);
        let enter = self.enter.serialize();
        out.append(enter.as_str());
        append_comma(&mut out);
        append_json_str(&mut out, "update");
        append_colon(&mut out);
        let update = self.update.serialize();
        out.append(update.as_str());
        append_comma(&mut out);
        append_json_str(&mut out, "hover");
        append_colon(&mut out);
        let hover = self.hover.serialize();
        out.append(hover.as_str());
        append_rbrace(&mut out);
        proof {
            assert(out@ =~= area_encoding_json(self@));
        }
        out
    }
}

/// The mathematical content of an [`AreaChartMark`].
pub struct AreaChartMarkV {
    pub mark_type: Seq<char>,
    pub from: Seq<char>,
    pub encode: AreaChartEncodingV,
}

/// The visual primitive of an area chart with its data source and encoding.
pub struct AreaChartMark {
    mark_type: String,
    from: String,
    encode: AreaChartEncoding,
}

impl View for AreaChartMark {
    type V = AreaChartMarkV;

    closed spec fn view(&self) -> AreaChartMarkV {
        AreaChartMarkV { mark_type: self.mark_type@, from: self.from@, encode: self.encode@ }
    }
}

/// The document text of an [`AreaChartMark`]: the primitive's type, the data
/// series it draws (wrapped as `{"data": ...}`), and the encoding.
pub open spec fn area_mark_json(v: AreaChartMarkV) -> Seq<char> {
    seq!['{'] + json_str("type"@) + seq![':'] + json_str(v.mark_type) + seq![','] + json_str(
        "from"@,
    ) + seq![':'] + seq!['{'] + json_str("data"@) + seq![':'] + json_str(v.from) + seq!['}']
        + seq![','] + json_str("encode"@) + seq![':'] + area_encoding_json(v.encode) + seq!['}']
}

impl AreaChartMark {
    /// Builds the mark from its parts; construction cannot fail.
    pub fn new(mark_type: &str, from: &str, encode: AreaChartEncoding) -> (r: AreaChartMark)
        ensures
            r@ == (AreaChartMarkV { mark_type: mark_type@, from: from@, encode: encode@ }),
    {
        AreaChartMark { mark_type: mark_type.to_owned(), from: from.to_owned(), encode }
    }

    /// Emits `{"type":...,"from":{"data":...},"encode":...}`.
    pub fn serialize(&self) -> (r: String)
        ensures
            r@ == area_mark_json(self@),
    {
        let mut out = String::new();
        append_lbrace(&mut out);
        append_json_str(&mut out, "type");
        append_colon(&mut out);
        append_json_str(&mut out, self.mark_type.as_str());
        append_comma(&mut out);
        append_json_str(&mut out, "from");
        append_colon(&mut out);
        append_lbrace(&mut out);
        append_json_str(&mut out, "data");
        append_colon(&mut out);
        append_json_str(&mut out, self.from.as_str());
        append_rbrace(&mut out);
        append_comma(&mut out);
        append_json_str(&mut out, "encode");
        append_colon(&mut out);
        let encode = self.encode.serialize();
        out.append(encode.as_str());
        append_rbrace(&mut out);
        proof {
            assert(out@ =~= area_mark_json(self@));
        }
        out
    }
}

} // verus!
