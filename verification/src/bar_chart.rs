//! The bar chart document builder: owns the data series, scales, axes and
//! mark, exposes the narrow mutation API, and serializes the complete
//! document in the fixed top-level field order the grammar requires.

use vstd::prelude::*;

use crate::bar_elements::{
    bar_axis_json, bar_data_json, bar_mark_json, bar_scale_json, bar_value_json,
    default_bar_mark_v, default_bar_xaxis_v, default_bar_xscale_v, default_bar_yaxis_v,
    default_bar_yscale_v, BarChartAxis, BarChartAxisV, BarChartData, BarChartDataV, BarChartMark,
    BarChartMarkV, BarChartScale, BarChartScaleV, BarChartValue, BarChartValueV,
};
use crate::json::{
    append_colon, append_comma, append_dec_i32, append_json_str, append_lbrace, append_lbracket,
    append_rbrace, append_rbracket, comma_join, dec_int, json_str, lemma_comma_join_push,
};

verus! {

/// The mathematical content of a [`BarChart`]: every scalar and every
/// element vector, element views in vector order.
pub struct BarChartV {
    pub identifier: Seq<char>,
    pub description: Seq<char>,
    pub width: int,
    pub height: int,
    pub padding: int,
    pub data: Seq<BarChartDataV>,
    pub scales: Seq<BarChartScaleV>,
    pub axes: Seq<BarChartAxisV>,
    pub marks: Seq<BarChartMarkV>,
}

impl BarChartV {
    /// The state invariant of the minimal configuration: exactly one data
    /// series, and exactly the two scales, two axes and one mark the chart
    /// kind requires. Construction establishes it and every mutation keeps
    /// it.
    pub open spec fn wf(self) -> bool {
        &&& self.data.len() == 1
        &&& self.scales.len() == 2
        &&& self.axes.len() == 2
        &&& self.marks.len() == 1
    }
}

/// The fixed URL of the grammar schema the emitted documents conform to.
pub open spec fn schema_url_text() -> Seq<char> {
    "https://vega.github.io/schema/vega/v3.0.json"@
}

/// The state a freshly constructed bar chart is in: the default size and
/// padding, one empty series named `table`, and the default scales, axes and
/// mark.
pub open spec fn default_bar_chart_v() -> BarChartV {
    BarChartV {
        identifier: "barchart"@,
        description: "A barchart"@,
        width: 500,
        height: 300,
        padding: 5,
        data: seq![BarChartDataV { name: "table"@, values: Seq::empty() }],
        scales: seq![default_bar_xscale_v(), default_bar_yscale_v()],
        axes: seq![default_bar_xaxis_v(), default_bar_yaxis_v()],
        marks: seq![default_bar_mark_v()],
    }
}

/// The chart state after one added point: the point is pushed onto the first
/// series' values and everything else is untouched.
pub open spec fn chart_with_add(c: BarChartV, v: BarChartValueV) -> BarChartV {
    BarChartV {
        data: c.data.update(
            0,
            BarChartDataV { name: c.data[0].name, values: c.data[0].values.push(v) },
        ),
        ..c
    }
}

/// The chart state after clearing: the first series keeps its name but holds
/// no points, and everything else is untouched.
pub open spec fn chart_with_clear(c: BarChartV) -> BarChartV {
    BarChartV {
        data: c.data.update(0, BarChartDataV { name: c.data[0].name, values: Seq::empty() }),
        ..c
    }
}

/// The chart state after a sequence of added points, one
/// [`chart_with_add`] step per point, in order.
pub open spec fn chart_with_adds(c: BarChartV, adds: Seq<BarChartValueV>) -> BarChartV
    decreases adds.len(),
{
    if adds.len() == 0 {
        c
    } else {
        chart_with_add(chart_with_adds(c, adds.drop_last()), adds.last())
    }
}

/// The complete document text of a chart state: the schema URL, the three
/// size scalars and the four element arrays, in the fixed top-level field
/// order `$schema`, `width`, `height`, `padding`, `data`, `scales`, `axes`,
/// `marks`.
pub open spec fn bar_chart_json(v: BarChartV) -> Seq<char> {
    seq!['{'] + json_str("$schema"@) + seq![':'] + json_str(schema_url_text()) + seq![',']
        + json_str("width"@) + seq![':'] + dec_int(v.width) + seq![','] + json_str("height"@)
        + seq![':'] + dec_int(v.height) + seq![','] + json_str("padding"@) + seq![':'] + dec_int(
        v.padding,
    ) + seq![','] + json_str("data"@) + seq![':'] + seq!['['] + comma_join(
        v.data.map_values(|d: BarChartDataV| bar_data_json(d)),
    ) + seq![']'] + seq![','] + json_str("scales"@) + seq![':'] + seq!['['] + comma_join(
        v.scales.map_values(|s: BarChartScaleV| bar_scale_json(s)),
    ) + seq![']'] + seq![','] + json_str("axes"@) + seq![':'] + seq!['['] + comma_join(
        v.axes.map_values(|a: BarChartAxisV| bar_axis_json(a)),
    ) + seq![']'] + seq![','] + json_str("marks"@) + seq![':'] + seq!['['] + comma_join(
        v.marks.map_values(|m: BarChartMarkV| bar_mark_json(m)),
    ) + seq![']'] + seq!['}']
}

/// A bar chart document in the Populated state: created fully populated by
/// [`BarChart::new`], mutated through the narrow builder API, and emitted by
/// [`BarChart::serialize`].
pub struct BarChart {
    identifier: String,
    description: String,
    width: i32,
    height: i32,
    padding: i32,
    data: Vec<BarChartData>,
    scales: Vec<BarChartScale>,
    axes: Vec<BarChartAxis>,
    marks: Vec<BarChartMark>,
}

impl View for BarChart {
    type V = BarChartV;

    closed spec fn view(&self) -> BarChartV {
        BarChartV {
            identifier: self.identifier@,
            description: self.description@,
            width: self.width as int,
            height: self.height as int,
            padding: self.padding as int,
            data: self.data@.map_values(|d: BarChartData| d@),
            scales: self.scales@.map_values(|s: BarChartScale| s@),
            axes: self.axes@.map_values(|a: BarChartAxis| a@),
            marks: self.marks@.map_values(|m: BarChartMark| m@),
        }
    }
}

impl BarChart {
    /// Builds a chart fully populated with the grammar's defaults; there is
    /// no way to observe a chart before it is populated.
    pub fn new() -> (r: BarChart)
        ensures
            r@ == default_bar_chart_v(),
            r@.wf(),
    {
        let mut data: Vec<BarChartData> = Vec::new();
        data.push(BarChartData::new());
        let mut scales: Vec<BarChartScale> = Vec::new();
        scales.push(BarChartScale::create_xscale());
        scales.push(BarChartScale::create_yscale());
        let mut axes: Vec<BarChartAxis> = Vec::new();
        axes.push(BarChartAxis::create_xaxis());
        axes.push(BarChartAxis::create_yaxis());
        let mut marks: Vec<BarChartMark> = Vec::new();
        marks.push(BarChartMark::create_mark());
        let r = BarChart {
            identifier: "barchart".to_owned(),
            description: "A barchart".to_owned(),
            width: 500,
            height: 300,
            padding: 5,
            data,
            scales,
            axes,
            marks,
        };
        proof {
            assert(r@.data =~= default_bar_chart_v().data);
            assert(r@.scales =~= default_bar_chart_v().scales);
            assert(r@.axes =~= default_bar_chart_v().axes);
            assert(r@.marks =~= default_bar_chart_v().marks);
        }
        r
    }

    /// Appends one data point — a category (one bar) and its amount (the
    /// bar's height) — to the single data series. Duplicate categories are
    /// permitted and simply render as repeated bars. Never fails.
    pub fn add_data(&mut self, category: String, amount: i32)
        requires
            old(self)@.wf(),
        ensures
            final(self)@ == chart_with_add(
                old(self)@,
                BarChartValueV { category: category@, amount: amount as int },
            ),
            final(self)@.wf(),
    {
        let ghost value_v = BarChartValueV { category: category@, amount: amount as int };
        let series = &mut self.data[0];
        series.add(BarChartValue::new(category, amount));
        proof {
            assert(self@.data =~= old(self)@.data.update(
                0,
                BarChartDataV {
                    name: old(self)@.data[0].name,
                    values: old(self)@.data[0].values.push(value_v),
                },
            ));
        }
    }

    /// Replaces the description used to title the chart when rendering.
    /// Never fails.
    pub fn set_description(&mut self, description: &str)
        ensures
            final(self)@ == (BarChartV { description: description@, ..old(self)@ }),
    {
        self.description = description.to_owned();
    }

    /// Replaces both size fields atomically; the pair is height first, then
    /// width. Never fails.
    pub fn set_dimension(&mut self, t: (i32, i32))
        ensures
            final(self)@ == (BarChartV {
                height: t.0 as int,
                width: t.1 as int,
                ..old(self)@
            }),
    {
        self.height = t.0;
        self.width = t.1;
    }

    /// Replaces the number of padding pixels around the chart. Never fails.
    pub fn set_padding(&mut self, pad: i32)
        ensures
            final(self)@ == (BarChartV { padding: pad as int, ..old(self)@ }),
    {
        self.padding = pad;
    }

    /// Empties the data series' point sequence, preserving the series' name
    /// and identity. Never fails.
    pub fn clear_data(&mut self)
        requires
            old(self)@.wf(),
        ensures
            final(self)@ == chart_with_clear(old(self)@),
            final(self)@.wf(),
    {
        let series = &mut self.data[0];
        series.clear();
        proof {
            assert(self@.data =~= old(self)@.data.update(
                0,
                BarChartDataV { name: old(self)@.data[0].name, values: Seq::empty() },
            ));
        }
    }

    /// The description used to title the chart when rendering.
    pub fn get_description(&self) -> (r: &str)
        ensures
            r@ == self@.description,
    {
        self.description.as_str()
    }

    /// The fixed identifier of the chart kind.
    pub fn get_identifier(&self) -> (r: &str)
        ensures
            r@ == self@.identifier,
    {
        self.identifier.as_str()
    }

    /// Emits the complete document: the schema URL, width, height and
    /// padding, then the data, scales, axes and marks arrays, each element
    /// serialized in vector order. Read-only, and cannot fail.
    #[verifier::rlimit(60)]
    pub fn serialize(&self) -> (r: String)
        ensures
            r@ == bar_chart_json(self@),
    {
        let ghost data_tokens = self@.data.map_values(|d: BarChartDataV| bar_data_json(d));
        let ghost scale_tokens = self@.scales.map_values(|s: BarChartScaleV| bar_scale_json(s));
        let ghost axis_tokens = self@.axes.map_values(|a: BarChartAxisV| bar_axis_json(a));
        let ghost mark_tokens = self@.marks.map_values(|m: BarChartMarkV| bar_mark_json(m));
        let mut out = String::new();
        append_lbrace(&mut out);
        append_json_str(&mut out, "$schema");
        append_colon(&mut out);
        append_json_str(&mut out, "https://vega.github.io/schema/vega/v3.0.json");
        append_comma(&mut out);
        append_json_str(&mut out, "width");
        append_colon(&mut out);
        append_dec_i32(&mut out, self.width);
        append_comma(&mut out);
        append_json_str(&mut out, "height");
        append_colon(&mut out);
        append_dec_i32(&mut out, self.height);
        append_comma(&mut out);
        append_json_str(&mut out, "padding");
        append_colon(&mut out);
        append_dec_i32(&mut out, self.padding);
        append_comma(&mut out);
        append_json_str(&mut out, "data");
        append_colon(&mut out);
        append_lbracket(&mut out);
        let ghost data_prefix = out@;
        for i in 0..self.data.len()
            invariant
                data_tokens == self@.data.map_values(|d: BarChartDataV| bar_data_json(d)),
                data_tokens.len() == self.data@.len(),
                out@ == data_prefix + comma_join(data_tokens.take(i as int)),
        {
            if i != 0 {
                append_comma(&mut out);
            }
            let piece = self.data[i].serialize();
            out.append(piece.as_str());
            proof {
                lemma_comma_join_push(data_tokens.take(i as int), data_tokens[i as int]);
                assert(data_tokens.take(i as int).push(data_tokens[i as int]) =~= data_tokens.take(
                    i + 1,
                ));
                assert(out@ =~= data_prefix + comma_join(data_tokens.take(i + 1)));
            }
        }
        proof {
            assert(data_tokens.take(self.data@.len() as int) =~= data_tokens);
        }
        append_rbracket(&mut out);
        append_comma(&mut out);
        append_json_str(&mut out, "scales");
        append_colon(&mut out);
        append_lbracket(&mut out);
        let ghost scales_prefix = out@;
        for i in 0..self.scales.len()
            invariant
                scale_tokens == self@.scales.map_values(|s: BarChartScaleV| bar_scale_json(s)),
                scale_tokens.len() == self.scales@.len(),
                out@ == scales_prefix + comma_join(scale_tokens.take(i as int)),
        {
            if i != 0 {
                append_comma(&mut out);
            }
            let piece = self.scales[i].serialize();
            out.append(piece.as_str());
            proof {
                lemma_comma_join_push(scale_tokens.take(i as int), scale_tokens[i as int]);
                assert(scale_tokens.take(i as int).push(scale_tokens[i as int])
                    =~= scale_tokens.take(i + 1));
                assert(out@ =~= scales_prefix + comma_join(scale_tokens.take(i + 1)));
            }
        }
        proof {
            assert(scale_tokens.take(self.scales@.len() as int) =~= scale_tokens);
        }
        append_rbracket(&mut out);
        append_comma(&mut out);
        append_json_str(&mut out, "axes");
        append_colon(&mut out);
        append_lbracket(&mut out);
        let ghost axes_prefix = out@;
        for i in 0..self.axes.len()
            invariant
                axis_tokens == self@.axes.map_values(|a: BarChartAxisV| bar_axis_json(a)),
                axis_tokens.len() == self.axes@.len(),
                out@ == axes_prefix + comma_join(axis_tokens.take(i as int)),
        {
            if i != 0 {
                append_comma(&mut out);
            }
            let piece = self.axes[i].serialize();
            out.append(piece.as_str());
            proof {
                lemma_comma_join_push(axis_tokens.take(i as int), axis_tokens[i as int]);
                assert(axis_tokens.take(i as int).push(axis_tokens[i as int]) =~= axis_tokens.take(
                    i + 1,
                ));
                assert(out@ =~= axes_prefix + comma_join(axis_tokens.take(i + 1)));
            }
        }
        proof {
            assert(axis_tokens.take(self.axes@.len() as int) =~= axis_tokens);
        }
        append_rbracket(&mut out);
        append_comma(&mut out);
        append_json_str(&mut out, "marks");
        append_colon(&mut out);
        append_lbracket(&mut out);
        let ghost marks_prefix = out@;
        for i in 0..self.marks.len()
            invariant
                mark_tokens == self@.marks.map_values(|m: BarChartMarkV| bar_mark_json(m)),
                mark_tokens.len() == self.marks@.len(),
                out@ == marks_prefix + comma_join(mark_tokens.take(i as int)),
        {
            if i != 0 {
                append_comma(&mut out);
            }
            let piece = self.marks[i].serialize();
            out.append(piece.as_str());
            proof {
                lemma_comma_join_push(mark_tokens.take(i as int), mark_tokens[i as int]);
                assert(mark_tokens.take(i as int).push(mark_tokens[i as int]) =~= mark_tokens.take(
                    i + 1,
                ));
                assert(out@ =~= marks_prefix + comma_join(mark_tokens.take(i + 1)));
            }
        }
        proof {
            assert(mark_tokens.take(self.marks@.len() as int) =~= mark_tokens);
        }
        append_rbracket(&mut out);
        append_rbrace(&mut out);
        proof {
            assert(out@ =~= bar_chart_json(self@));
        }
        out
    }
}

/// Append semantics of adding data, over any sequence of added points: the
/// series afterwards holds the old points followed by the added ones, in
/// call order, so its length equals the old length plus the number of adds;
/// the series' name and every other part of the chart are unchanged.
pub proof fn lemma_adds_append(c: BarChartV, adds: Seq<BarChartValueV>)
    requires
        c.wf(),
    ensures
        chart_with_adds(c, adds).wf(),
        chart_with_adds(c, adds).data[0].name == c.data[0].name,
        chart_with_adds(c, adds).data[0].values == c.data[0].values + adds,
        chart_with_adds(c, adds).data[0].values.len() == c.data[0].values.len() + adds.len(),
        chart_with_adds(c, adds) == (BarChartV {
            data: seq![chart_with_adds(c, adds).data[0]],
            ..c
        }),
    decreases adds.len(),
{
    if adds.len() == 0 {
        assert(c.data[0].values + adds =~= c.data[0].values);
        assert(seq![c.data[0]] =~= c.data);
    } else {
        lemma_adds_append(c, adds.drop_last());
        let prev = chart_with_adds(c, adds.drop_last());
        let last = chart_with_adds(c, adds);
        assert(last.data =~= seq![last.data[0]]);
        assert(prev.data[0].values.push(adds.last()) =~= c.data[0].values + adds);
    }
}

/// A no-op mutation sequence is invisible: adding zero points leaves the
/// chart state — and with it the serialized document — exactly as it was
/// when freshly constructed.
pub proof fn lemma_zero_adds_identity(c: BarChartV)
    ensures
        chart_with_adds(c, Seq::empty()) == c,
        bar_chart_json(chart_with_adds(c, Seq::empty())) == bar_chart_json(c),
{
}

/// Clearing empties the series but keeps its name: a cleared chart
/// serializes the series as its unchanged name with an empty `values`
/// array.
pub proof fn lemma_clear_keeps_name_empties_values(c: BarChartV)
    requires
        c.wf(),
    ensures
        chart_with_clear(c).wf(),
        chart_with_clear(c).data[0].name == c.data[0].name,
        chart_with_clear(c).data[0].values == Seq::<BarChartValueV>::empty(),
        bar_data_json(chart_with_clear(c).data[0]) == seq!['{'] + json_str("name"@) + seq![':']
            + json_str(c.data[0].name) + seq![','] + json_str("values"@) + seq![':'] + seq![
            '[',
            ']',
        ] + seq!['}'],
{
    let cleared = chart_with_clear(c).data[0];
    assert(cleared.values.map_values(|e: BarChartValueV| bar_value_json(e))
        =~= Seq::<Seq<char>>::empty());
    assert(bar_data_json(cleared) =~= seq!['{'] + json_str("name"@) + seq![':'] + json_str(
        c.data[0].name,
    ) + seq![','] + json_str("values"@) + seq![':'] + seq!['[', ']'] + seq!['}']);
}

} // verus!
