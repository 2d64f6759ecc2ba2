//! Element records for bar charts: the data series with its category/amount
//! points, the two default scales and axes, and the rect mark with its
//! encoding blocks. Each default factory returns the minimal instance that
//! makes the enclosing document grammar-valid.

use vstd::prelude::*;

use crate::general::{
    dict_json, keyval_json, orientation_text, JSONDict, JSONDictV, KeyVal, KeyValV, Orientation,
};
use crate::json::{
    append_bool, append_colon, append_comma, append_dec_i32, append_json_str, append_lbrace,
    append_lbracket, append_rbrace, append_rbracket, bool_text, comma_join, dec_int, json_str,
    lemma_comma_join_push,
};

verus! {

/// The mathematical content of a [`BarChartValue`].
pub struct BarChartValueV {
    pub category: Seq<char>,
    pub amount: int,
}

/// One observed data point: a category (one bar) and its amount (the bar's
/// height).
pub struct BarChartValue {
    category: String,
    amount: i32,
}

impl View for BarChartValue {
    type V = BarChartValueV;

    closed spec fn view(&self) -> BarChartValueV {
        BarChartValueV { category: self.category@, amount: self.amount as int }
    }
}

/// The document text of a [`BarChartValue`].
pub open spec fn bar_value_json(v: BarChartValueV) -> Seq<char> {
    seq!['{'] + json_str("category"@) + seq![':'] + json_str(v.category) + seq![','] + json_str(
        "amount"@,
    ) + seq![':'] + dec_int(v.amount) + seq!['}']
}

impl BarChartValue {
    /// Builds one point; construction cannot fail.
    pub fn new(category: String, amount: i32) -> (r: BarChartValue)
        ensures
            r@ == (BarChartValueV { category: category@, amount: amount as int }),
    {
        BarChartValue { category, amount }
    }

    /// Emits `{"category":...,"amount":...}`.
    pub fn serialize(&self) -> (r: String)
        ensures
            r@ == bar_value_json(self@),
    {
        let mut out = String::new();
        append_lbrace(&mut out);
        append_json_str(&mut out, "category");
        append_colon(&mut out);
        append_json_str(&mut out, self.category.as_str());
        append_comma(&mut out);
        append_json_str(&mut out, "amount");
        append_colon(&mut out);
        append_dec_i32(&mut out, self.amount);
        append_rbrace(&mut out);
        proof {
            assert(out@ =~= bar_value_json(self@));
        }
        out
    }
}

/// The mathematical content of a [`BarChartData`].
pub struct BarChartDataV {
    pub name: Seq<char>,
    pub values: Seq<BarChartValueV>,
}

/// A named, insertion-ordered collection of data points.
pub struct BarChartData {
    name: String,
    values: Vec<BarChartValue>,
}

impl View for BarChartData {
    type V = BarChartDataV;

    closed spec fn view(&self) -> BarChartDataV {
        BarChartDataV { name: self.name@, values: self.values@.map_values(|v: BarChartValue| v@) }
    }
}

/// The document text of a [`BarChartData`]: the series name and its points
/// in insertion order.
pub open spec fn bar_data_json(v: BarChartDataV) -> Seq<char> {
    seq!['{'] + json_str("name"@) + seq![':'] + json_str(v.name) + seq![','] + json_str("values"@)
        + seq![':'] + seq!['['] + comma_join(
        v.values.map_values(|e: BarChartValueV| bar_value_json(e)),
    ) + seq![']'] + seq!['}']
}

impl BarChartData {
    /// The minimal grammar-valid series: named `table`, no points yet.
    pub fn new() -> (r: BarChartData)
        ensures
            r@ == (BarChartDataV { name: "table"@, values: Seq::empty() }),
    {
        let r = BarChartData { name: "table".to_owned(), values: Vec::new() };
        proof {
            assert(r@.values =~= Seq::<BarChartValueV>::empty());
        }
        r
    }

    /// Appends one point, keeping all earlier points and their order.
    pub fn add(&mut self, value: BarChartValue)
        ensures
            final(self)@ == (BarChartDataV {
                name: old(self)@.name,
                values: old(self)@.values.push(value@),
            }),
    {
        self.values.push(value);
        proof {
            assert(self@.values =~= old(self)@.values.push(value@));
        }
    }

    /// Empties the point sequence, preserving the series' name.
    pub fn clear(&mut self)
        ensures
            final(self)@ == (BarChartDataV { name: old(self)@.name, values: Seq::empty() }),
    {
        self.values.clear();
        proof {
            assert(self@.values =~= Seq::<BarChartValueV>::empty());
        }
    }

    /// Emits `{"name":...,"values":[...]}` with the points in insertion
    /// order.
    pub fn serialize(&self) -> (r: String)
        ensures
            r@ == bar_data_json(self@),
    {
        let ghost tokens = self@.values.map_values(|e: BarChartValueV| bar_value_json(e));
        let mut out = String::new();
        append_lbrace(&mut out);
        append_json_str(&mut out, "name");
        append_colon(&mut out);
        append_json_str(&mut out, self.name.as_str());
        append_comma(&mut out);
        append_json_str(&mut out, "values");
        append_colon(&mut out);
        append_lbracket(&mut out);
        let ghost open_prefix = out@;
        for i in 0..self.values.len()
            invariant
                tokens == self@.values.map_values(|e: BarChartValueV| bar_value_json(e)),
                tokens.len() == self.values@.len(),
                out@ == open_prefix + comma_join(tokens.take(i as int)),
        {
            if i != 0 {
                append_comma(&mut out);
            }
            let piece = self.values[i].serialize();
            out.append(piece.as_str());
            proof {
                lemma_comma_join_push(tokens.take(i as int), tokens[i as int]);
                assert(tokens.take(i as int).push(tokens[i as int]) =~= tokens.take(i + 1));
                assert(out@ =~= open_prefix + comma_join(tokens.take(i + 1)));
            }
        }
        append_rbracket(&mut out);
        append_rbrace(&mut out);
        proof {
            assert(tokens.take(self.values@.len() as int) =~= tokens);
            assert(out@ =~= bar_data_json(self@));
        }
        out
    }
}

/// The mathematical content of a [`BarChartScale`].
pub struct BarChartScaleV {
    pub name: Seq<char>,
    pub scale_type: Seq<char>,
    pub range: Seq<char>,
    pub zero: bool,
    pub domain: JSONDictV,
}

/// A mapping from a data field to a visual range.
pub struct BarChartScale {
    name: String,
    scale_type: String,
    range: String,
    zero: bool,
    domain: JSONDict,
}

impl View for BarChartScale {
    type V = BarChartScaleV;

    closed spec fn view(&self) -> BarChartScaleV {
        BarChartScaleV {
            name: self.name@,
            scale_type: self.scale_type@,
            range: self.range@,
            zero: self.zero,
            domain: self.domain@,
        }
    }
}

/// The default horizontal scale of a bar chart: a band scale over the
/// categories, mapped to the width, domain not forced through zero.
pub open spec fn default_bar_xscale_v() -> BarChartScaleV {
    BarChartScaleV {
        name: "xscale"@,
        scale_type: "band"@,
        range: "width"@,
        zero: false,
        domain: JSONDictV {
            str_vals: seq![("data"@, "table"@), ("field"@, "category"@)],
            i32_vals: Seq::empty(),
        },
    }
}

/// The default vertical scale of a bar chart: linear over the amounts,
/// mapped to the height, domain forced through zero.
pub open spec fn default_bar_yscale_v() -> BarChartScaleV {
    BarChartScaleV {
        name: "yscale"@,
        scale_type: "linear"@,
        range: "height"@,
        zero: true,
        domain: JSONDictV {
            str_vals: seq![("data"@, "table"@), ("field"@, "amount"@)],
            i32_vals: Seq::empty(),
        },
    }
}

/// The document text of a [`BarChartScale`], in the fixed field order
/// `name`, `type`, `range`, `zero`, `domain`.
pub open spec fn bar_scale_json(v: BarChartScaleV) -> Seq<char> {
    seq!['{'] + json_str("name"@) + seq![':'] + json_str(v.name) + seq![','] + json_str("type"@)
        + seq![':'] + json_str(v.scale_type) + seq![','] + json_str("range"@) + seq![':']
        + json_str(v.range) + seq![','] + json_str("zero"@) + seq![':'] + bool_text(v.zero)
        + seq![','] + json_str("domain"@) + seq![':'] + dict_json(v.domain) + seq!['}']
}

impl BarChartScale {
    /// The minimal grammar-valid horizontal scale.
    pub fn create_xscale() -> (r: BarChartScale)
        ensures
            r@ == default_bar_xscale_v(),
    {
        proof {
            reveal_strlit("data");
            reveal_strlit("field");
            assert("data"@.len() != "field"@.len());
        }
        BarChartScale {
            name: "xscale".to_owned(),
            scale_type: "band".to_owned(),
            range: "width".to_owned(),
            zero: false,
            domain: JSONDict::create("data", "table", "field", "category"),
        }
    }

    /// The minimal grammar-valid vertical scale.
    pub fn create_yscale() -> (r: BarChartScale)
        ensures
            r@ == default_bar_yscale_v(),
    {
        proof {
            reveal_strlit("data");
            reveal_strlit("field");
            assert("data"@.len() != "field"@.len());
        }
        BarChartScale {
            name: "yscale".to_owned(),
            scale_type: "linear".to_owned(),
            range: "height".to_owned(),
            zero: true,
            domain: JSONDict::create("data", "table", "field", "amount"),
        }
    }

    /// Emits `{"name":...,"type":...,"range":...,"zero":...,"domain":...}`.
    pub fn serialize(&self) -> (r: String)
        ensures
            r@ == bar_scale_json(self@),
    {
        let mut out = String::new();
        append_lbrace(&mut out);
        append_json_str(&mut out, "name");
        append_colon(&mut out);
        append_json_str(&mut out, self.name.as_str());
        append_comma(&mut out);
        append_json_str(&mut out, "type");
        append_colon(&mut out);
        append_json_str(&mut out, self.scale_type.as_str());
        append_comma(&mut out);
        append_json_str(&mut out, "range");
        append_colon(&mut out);
        append_json_str(&mut out, self.range.as_str());
        append_comma(&mut out);
        append_json_str(&mut out, "zero");
        append_colon(&mut out);
        append_bool(&mut out, self.zero);
        append_comma(&mut out);
        append_json_str(&mut out, "domain");
        append_colon(&mut out);
        let domain = self.domain.serialize();
        out.append(domain.as_str());
        append_rbrace(&mut out);
        proof {
            assert(out@ =~= bar_scale_json(self@));
        }
        out
    }
}

/// The mathematical content of a [`BarChartAxis`].
pub struct BarChartAxisV {
    pub orient: Orientation,
    pub scale: Seq<char>,
}

/// A rendered guide for a scale, at one of the four orientations.
pub struct BarChartAxis {
    orient: Orientation,
    scale: String,
}

impl View for BarChartAxis {
    type V = BarChartAxisV;

    closed spec fn view(&self) -> BarChartAxisV {
        BarChartAxisV { orient: self.orient, scale: self.scale@ }
    }
}

/// The default horizontal axis: along the bottom, showing the band scale.
pub open spec fn default_bar_xaxis_v() -> BarChartAxisV {
    BarChartAxisV { orient: Orientation::Bottom, scale: "xscale"@ }
}

/// The default vertical axis: along the left edge, showing the linear scale.
pub open spec fn default_bar_yaxis_v() -> BarChartAxisV {
    BarChartAxisV { orient: Orientation::Left, scale: "yscale"@ }
}

/// The document text of a [`BarChartAxis`]; the orientation is emitted in
/// lowercase.
pub open spec fn bar_axis_json(v: BarChartAxisV) -> Seq<char> {
    seq!['{'] + json_str("orient"@) + seq![':'] + json_str(orientation_text(v.orient)) + seq![',']
        + json_str("scale"@) + seq![':'] + json_str(v.scale) + seq!['}']
}

impl BarChartAxis {
    /// The minimal grammar-valid horizontal axis.
    pub fn create_xaxis() -> (r: BarChartAxis)
        ensures
            r@ == default_bar_xaxis_v(),
    {
        BarChartAxis { orient: Orientation::Bottom, scale: "xscale".to_owned() }
    }

    /// The minimal grammar-valid vertical axis.
    pub fn create_yaxis() -> (r: BarChartAxis)
        ensures
            r@ == default_bar_yaxis_v(),
    {
        BarChartAxis { orient: Orientation::Left, scale: "yscale".to_owned() }
    }

    /// Emits `{"orient":...,"scale":...}`.
    pub fn serialize(&self) -> (r: String)
        ensures
            r@ == bar_axis_json(self@),
    {
        let mut out = String::new();
        append_lbrace(&mut out);
        append_json_str(&mut out, "orient");
        append_colon(&mut out);
        append_json_str(&mut out, self.orient.text());
        append_comma(&mut out);
        append_json_str(&mut out, "scale");
        append_colon(&mut out);
        append_json_str(&mut out, self.scale.as_str());
        append_rbrace(&mut out);
        proof {
            assert(out@ =~= bar_axis_json(self@));
        }
        out
    }
}

/// The mathematical content of a [`BarChartEnter`].
pub struct BarChartEnterV {
    pub x: JSONDictV,
    pub width: JSONDictV,
    pub y: JSONDictV,
    pub y2: JSONDictV,
}

/// The enter block of a rect mark encoding: how data fields map to the
/// visual channels when the bars first appear.
pub struct BarChartEnter {
    x: JSONDict,
    width: JSONDict,
    y: JSONDict,
    y2: JSONDict,
}

impl View for BarChartEnter {
    type V = BarChartEnterV;

    closed spec fn view(&self) -> BarChartEnterV {
        BarChartEnterV { x: self.x@, width: self.width@, y: self.y@, y2: self.y2@ }
    }
}

/// The document text of a [`BarChartEnter`].
pub open spec fn bar_enter_json(v: BarChartEnterV) -> Seq<char> {
    seq!['{'] + json_str("x"@) + seq![':'] + dict_json(v.x) + seq![','] + json_str("width"@)
        + seq![':'] + dict_json(v.width) + seq![','] + json_str("y"@) + seq![':'] + dict_json(v.y)
        + seq![','] + json_str("y2"@) + seq![':'] + dict_json(v.y2) + seq!['}']
}

impl BarChartEnter {
    /// Emits `{"x":...,"width":...,"y":...,"y2":...}`.
    pub fn serialize(&self) -> (r: String)
        ensures
            r@ == bar_enter_json(self@),
    {
        let mut out = String::new();
        append_lbrace(&mut out);
        append_json_str(&mut out, "x");
        append_colon(&mut out);
        let x = self.x.serialize();
        out.append(x.as_str());
        append_comma(&mut out);
        append_json_str(&mut out, "width");
        append_colon(&mut out);
        let width = self.width.serialize();
        out.append(width.as_str());
        append_comma(&mut out);
        append_json_str(&mut out, "y");
        append_colon(&mut out);
        let y = self.y.serialize();
        out.append(y.as_str());
        append_comma(&mut out);
        append_json_str(&mut out, "y2");
        append_colon(&mut out);
        let y2 = self.y2.serialize();
        out.append(y2.as_str());
        append_rbrace(&mut out);
        proof {
            assert(out@ =~= bar_enter_json(self@));
        }
        out
    }
}

/// The mathematical content of a [`BarChartUpdate`].
pub struct BarChartUpdateV {
    pub fill: KeyValV,
}

/// The update block of a rect mark encoding: the resting fill colour.
pub struct BarChartUpdate {
    fill: KeyVal,
}

impl View for BarChartUpdate {
    type V = BarChartUpdateV;

    closed spec fn view(&self) -> BarChartUpdateV {
        BarChartUpdateV { fill: self.fill@ }
    }
}

/// The document text of a [`BarChartUpdate`].
pub open spec fn bar_update_json(v: BarChartUpdateV) -> Seq<char> {
    seq!['{'] + json_str("fill"@) + seq![':'] + keyval_json(v.fill) + seq!['}']
}

impl BarChartUpdate {
    /// Emits `{"fill":...}`.
    pub fn serialize(&self) -> (r: String)
        ensures
            r@ == bar_update_json(self@),
    {
        let mut out = String::new();
        append_lbrace(&mut out);
        append_json_str(&mut out, "fill");
        append_colon(&mut out);
        let fill = self.fill.serialize();
        out.append(fill.as_str());
        append_rbrace(&mut out);
        proof {
            assert(out@ =~= bar_update_json(self@));
        }
        out
    }
}

/// The mathematical content of a [`BarChartHover`].
pub struct BarChartHoverV {
    pub fill: KeyValV,
}

/// The hover block of a rect mark encoding: the fill colour while hovered.
pub struct BarChartHover {
    fill: KeyVal,
}

impl View for BarChartHover {
    type V = BarChartHoverV;

    closed spec fn view(&self) -> BarChartHoverV {
        BarChartHoverV { fill: self.fill@ }
    }
}

/// The document text of a [`BarChartHover`].
pub open spec fn bar_hover_json(v: BarChartHoverV) -> Seq<char> {
    seq!['{'] + json_str("fill"@) + seq![':'] + keyval_json(v.fill) + seq!['}']
}

impl BarChartHover {
    /// Emits `{"fill":...}`.
    pub fn serialize(&self) -> (r: String)
        ensures
            r@ == bar_hover_json(self@),
    {
        let mut out = String::new();
        append_lbrace(&mut out);
        append_json_str(&mut out, "fill");
        append_colon(&mut out);
        let fill = self.fill.serialize();
        out.append(fill.as_str());
        append_rbrace(&mut out);
        proof {
            assert(out@ =~= bar_hover_json(self@));
        }
        out
    }
}

/// The mathematical content of a [`BarChartEncoding`].
pub struct BarChartEncodingV {
    pub enter: BarChartEnterV,
    pub update: BarChartUpdateV,
    pub hover: BarChartHoverV,
}

/// The per-visual-state encoding of a rect mark.
pub struct BarChartEncoding {
    enter: BarChartEnter,
    update: BarChartUpdate,
    hover: BarChartHover,
}

impl View for BarChartEncoding {
    type V = BarChartEncodingV;

    closed spec fn view(&self) -> BarChartEncodingV {
        BarChartEncodingV { enter: self.enter@, update: self.update@, hover: self.hover@ }
    }
}

/// The document text of a [`BarChartEncoding`].
pub open spec fn bar_encoding_json(v: BarChartEncodingV) -> Seq<char> {
    seq!['{'] + json_str("enter"@) + seq![':'] + bar_enter_json(v.enter) + seq![','] + json_str(
        "update"@,
    ) + seq![':'] + bar_update_json(v.update) + seq![','] + json_str("hover"@) + seq![':']
        + bar_hover_json(v.hover) + seq!['}']
}

impl BarChartEncoding {
    /// Emits `{"enter":...,"update":...,"hover":...}`.
    pub fn serialize(&self) -> (r: String)
        ensures
            r@ == bar_encoding_json(self@),
    {
        let mut out = String::new();
        append_lbrace(&mut out);
        append_json_str(&mut out, "enter");
        append_colon(&mut out);
        let enter = self.enter.serialize();
        out.append(enter.as_str());
        append_comma(&mut out);
        append_json_str(&mut out, "update");
        append_colon(&mut out);
        let update = self.update.serialize();
        out.append(update.as_str());
        append_comma(&mut out);
        append_json_str(&mut out, "hover");
        append_colon(&mut out);
        let hover = self.hover.serialize();
        out.append(hover.as_str());
        append_rbrace(&mut out);
        proof {
            assert(out@ =~= bar_encoding_json(self@));
        }
        out
    }
}

/// The mathematical content of a [`BarChartMark`].
pub struct BarChartMarkV {
    pub mark_type: Seq<char>,
    pub from: Seq<char>,
    pub encode: BarChartEncodingV,
}

/// The visual primitive of a bar chart with its data source and encoding.
pub struct BarChartMark {
    mark_type: String,
    from: String,
    encode: BarChartEncoding,
}

impl View for BarChartMark {
    type V = BarChartMarkV;

    closed spec fn view(&self) -> BarChartMarkV {
        BarChartMarkV { mark_type: self.mark_type@, from: self.from@, encode: self.encode@ }
    }
}

/// The default rect mark: bars drawn from the `table` series, positioned by
/// the band scale, filled steel blue and red on hover.
pub open spec fn default_bar_mark_v() -> BarChartMarkV {
    BarChartMarkV {
        mark_type: "rect"@,
        from: "table"@,
        encode: BarChartEncodingV {
            enter: BarChartEnterV {
                x: JSONDictV {
                    str_vals: seq![("scale"@, "xscale"@), ("field"@, "category"@)],
                    i32_vals: Seq::empty(),
                },
                width: JSONDictV {
                    str_vals: seq![("scale"@, "xscale"@)],
                    i32_vals: seq![("band"@, 1int)],
                },
                y: JSONDictV {
                    str_vals: seq![("scale"@, "yscale"@), ("field"@, "amount"@)],
                    i32_vals: Seq::empty(),
                },
                y2: JSONDictV {
                    str_vals: seq![("scale"@, "yscale"@)],
                    i32_vals: seq![("value"@, 0int)],
                },
            },
            update: BarChartUpdateV { fill: KeyValV { key: "value"@, val: "steelblue"@ } },
            hover: BarChartHoverV { fill: KeyValV { key: "value"@, val: "red"@ } },
        },
    }
}

/// The document text of a [`BarChartMark`]: the primitive's type, the data
/// series it draws (wrapped as `{"data": ...}`), and the encoding.
pub open spec fn bar_mark_json(v: BarChartMarkV) -> Seq<char> {
    seq!['{'] + json_str("type"@) + seq![':'] + json_str(v.mark_type) + seq![','] + json_str(
        "from"@,
    ) + seq![':'] + seq!['{'] + json_str("data"@) + seq![':'] + json_str(v.from) + seq!['}']
        + seq![','] + json_str("encode"@) + seq![':'] + bar_encoding_json(v.encode) + seq!['}']
}

impl BarChartMark {
    /// The minimal grammar-valid mark for a bar chart.
    pub fn create_mark() -> (r: BarChartMark)
        ensures
            r@ == default_bar_mark_v(),
    {
        proof {
            reveal_strlit("scale");
            reveal_strlit("field");
            reveal_strlit("band");
            reveal_strlit("value");
            assert("scale"@[0] == 's' && "field"@[0] == 'f');
            assert("scale"@.len() != "band"@.len());
            assert("scale"@[0] == 's' && "value"@[0] == 'v');
        }
        BarChartMark {
            mark_type: "rect".to_owned(),
            from: "table".to_owned(),
            encode: BarChartEncoding {
                enter: BarChartEnter {
                    x: JSONDict::create("scale", "xscale", "field", "category"),
                    width: JSONDict::band_create("scale", "xscale", "band", 1),
                    y: JSONDict::create("scale", "yscale", "field", "amount"),
                    y2: JSONDict::band_create("scale", "yscale", "value", 0),
                },
                update: BarChartUpdate { fill: KeyVal::new("value", "steelblue") },
                hover: BarChartHover { fill: KeyVal::new("value", "red") },
            },
        }
    }

    /// Emits `{"type":...,"from":{"data":...},"encode":...}`.
    pub fn serialize(&self) -> (r: String)
        ensures
            r@ == bar_mark_json(self@),
    {
        let mut out = String::new();
        append_lbrace(&mut out);
        append_json_str(&mut out, "type");
        append_colon(&mut out);
        append_json_str(&mut out, self.mark_type.as_str());
        append_comma(&mut out);
        append_json_str(&mut out, "from");
        append_colon(&mut out);
        append_lbrace(&mut out);
        append_json_str(&mut out, "data");
        append_colon(&mut out);
        append_json_str(&mut out, self.from.as_str());
        append_rbrace(&mut out);
        append_comma(&mut out);
        append_json_str(&mut out, "encode");
        append_colon(&mut out);
        let encode = self.encode.serialize();
        out.append(encode.as_str());
        append_rbrace(&mut out);
        proof {
            assert(out@ =~= bar_mark_json(self@));
        }
        out
    }
}

} // verus!
