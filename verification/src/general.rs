//! General building blocks shared by every chart kind: the axis orientation
//! enum, single key/value bindings, and the heterogeneous dictionary record.

use vstd::prelude::*;

use crate::json::{
    append_colon, append_comma, append_dec_i32, append_hundredths, append_json_str, append_lbrace,
    append_rbrace, comma_join, dec_int, hundredths_text, json_str, lemma_comma_join_push,
};

verus! {

/// Orientation is an enum for the different possible axis placements.
#[derive(Clone, Copy)]
pub enum Orientation {
    Top,
    Left,
    Bottom,
    Right,
}

/// The lowercase wire spelling of an orientation; the consuming grammar
/// expects these exact strings, never the declared-case identifiers.
pub open spec fn orientation_text(o: Orientation) -> Seq<char> {
    match o {
        Orientation::Top => "top"@,
        Orientation::Left => "left"@,
        Orientation::Bottom => "bottom"@,
        Orientation::Right => "right"@,
    }
}

impl Orientation {
    /// The lowercase name of the orientation.
    pub fn text(&self) -> (r: &'static str)
        ensures
            r@ == orientation_text(*self),
    {
        match self {
            Orientation::Top => "top",
            Orientation::Left => "left",
            Orientation::Bottom => "bottom",
            Orientation::Right => "right",
        }
    }

    /// The JSON string token for the orientation, quoted and lowercase.
    pub fn serialize(&self) -> (r: String)
        ensures
            r@ == json_str(orientation_text(*self)),
    {
        let mut out = String::new();
        append_json_str(&mut out, self.text());
        proof {
            assert(out@ =~= json_str(orientation_text(*self)));
        }
        out
    }
}

/// Orientations always serialize as one of the four lowercase names — `top`,
/// `left`, `bottom` or `right` — never as their declared-case identifiers:
/// every character of the emitted text is a lowercase ASCII letter.
pub proof fn lemma_orientation_lowercase(o: Orientation)
    ensures
        orientation_text(o) == "top"@ || orientation_text(o) == "left"@ || orientation_text(o)
            == "bottom"@ || orientation_text(o) == "right"@,
        forall|i: int|
            0 <= i < orientation_text(o).len() ==> 'a' as u32 <= (#[trigger] orientation_text(
                o,
            )[i]) as u32 <= 'z' as u32,
{
    reveal_strlit("top");
    reveal_strlit("left");
    reveal_strlit("bottom");
    reveal_strlit("right");
}

/// The mathematical content of a [`KeyVal`]: its key and value texts.
pub struct KeyValV {
    pub key: Seq<char>,
    pub val: Seq<char>,
}

/// A single-field JSON object `{ key: val }` where both key and value are
/// strings. Used only as a sub-field inside an encoding record.
pub struct KeyVal {
    pub key: &'static str,
    pub val: String,
}

impl View for KeyVal {
    type V = KeyValV;

    open spec fn view(&self) -> KeyValV {
        KeyValV { key: self.key@, val: self.val@ }
    }
}

/// The document text of a [`KeyVal`]: one JSON object with one string field.
pub open spec fn keyval_json(v: KeyValV) -> Seq<char> {
    seq!['{'] + json_str(v.key) + seq![':'] + json_str(v.val) + seq!['}']
}

impl KeyVal {
    /// Builds the pair; construction cannot fail.
    pub fn new(key: &'static str, val: &str) -> (r: KeyVal)
        ensures
            r@ == (KeyValV { key: key@, val: val@ }),
    {
        KeyVal { key, val: val.to_owned() }
    }

    /// Emits `{"key":"val"}`, escaping both texts as JSON strings.
    pub fn serialize(&self) -> (r: String)
        ensures
            r@ == keyval_json(self@),
    {
        let mut out = String::new();
        append_lbrace(&mut out);
        append_json_str(&mut out, self.key);
        append_colon(&mut out);
        append_json_str(&mut out, self.val.as_str());
        append_rbrace(&mut out);
        proof {
            assert(out@ =~= keyval_json(self@));
        }
        out
    }
}

/// The mathematical content of a [`QualKeyVal`]: the key text and the value
/// in hundredths.
pub struct QualKeyValV {
    pub key: Seq<char>,
    pub val: nat,
}

/// Like [`KeyVal`], but the value is a small magnitude with two decimal
/// places (an opacity such as 0.7), stored as a whole number of hundredths.
pub struct QualKeyVal {
    key: &'static str,
    val: u32,
}

impl View for QualKeyVal {
    type V = QualKeyValV;

    closed spec fn view(&self) -> QualKeyValV {
        QualKeyValV { key: self.key@, val: self.val as nat }
    }
}

/// The document text of a [`QualKeyVal`]: one JSON object whose value is the
/// decimal rendering of the stored hundredths.
pub open spec fn qualkeyval_json(v: QualKeyValV) -> Seq<char> {
    seq!['{'] + json_str(v.key) + seq![':'] + hundredths_text(v.val) + seq!['}']
}

impl QualKeyVal {
    /// Builds the pair from a value counted in hundredths (70 stands for
    /// 0.7); construction cannot fail.
    pub fn new(key: &'static str, val_hundredths: u32) -> (r: QualKeyVal)
        ensures
            r@ == (QualKeyValV { key: key@, val: val_hundredths as nat }),
    {
        QualKeyVal { key, val: val_hundredths }
    }

    /// Emits `{"key":value}` with the value as a decimal number token.
    pub fn serialize(&self) -> (r: String)
        ensures
            r@ == qualkeyval_json(self@),
    {
        let mut out = String::new();
        append_lbrace(&mut out);
        append_json_str(&mut out, self.key);
        append_colon(&mut out);
        append_hundredths(&mut out, self.val);
        append_rbrace(&mut out);
        proof {
            assert(out@ =~= qualkeyval_json(self@));
        }
        out
    }
}

/// The mathematical content of a [`JSONDict`]: the string-valued entries and
/// the integer-valued entries, each in insertion order.
pub struct JSONDictV {
    pub str_vals: Seq<(Seq<char>, Seq<char>)>,
    pub i32_vals: Seq<(Seq<char>, int)>,
}

impl JSONDictV {
    /// Every key of the record, string-valued entries first.
    pub open spec fn keys(self) -> Seq<Seq<char>> {
        self.str_vals.map_values(|p: (Seq<char>, Seq<char>)| p.0) + self.i32_vals.map_values(
            |p: (Seq<char>, int)| p.0,
        )
    }

    /// The unique-key invariant: no key appears twice in the record.
    pub open spec fn wf(self) -> bool {
        forall|i: int, j: int|
            0 <= i < j < self.keys().len() ==> self.keys()[i] != self.keys()[j]
    }
}

/// A heterogeneous dictionary record: a small fixed set of named attributes
/// of mixed primitive type (string or integer), assembled by one of the typed
/// factories below and serialized as a flat JSON object in insertion order.
pub struct JSONDict {
    str_vals: Vec<(&'static str, String)>,
    i32_vals: Vec<(&'static str, i32)>,
}

impl View for JSONDict {
    type V = JSONDictV;

    closed spec fn view(&self) -> JSONDictV {
        JSONDictV {
            str_vals: self.str_vals@.map_values(|p: (&'static str, String)| (p.0@, p.1@)),
            i32_vals: self.i32_vals@.map_values(|p: (&'static str, i32)| (p.0@, p.1 as int)),
        }
    }
}

/// The document text of one string-valued field, without separators.
pub open spec fn str_field_json(k: Seq<char>, v: Seq<char>) -> Seq<char> {
    json_str(k) + seq![':'] + json_str(v)
}

/// The document text of one integer-valued field, without separators.
pub open spec fn int_field_json(k: Seq<char>, v: int) -> Seq<char> {
    json_str(k) + seq![':'] + dec_int(v)
}

/// The field fragments of a record, in the order they are emitted:
/// string-valued entries first, then integer-valued ones.
pub open spec fn dict_fields(v: JSONDictV) -> Seq<Seq<char>> {
    v.str_vals.map_values(|p: (Seq<char>, Seq<char>)| str_field_json(p.0, p.1))
        + v.i32_vals.map_values(|p: (Seq<char>, int)| int_field_json(p.0, p.1))
}

/// The document text of a [`JSONDict`]: a flat JSON object holding one field
/// per stored entry, comma-separated, in insertion order.
pub open spec fn dict_json(v: JSONDictV) -> Seq<char> {
    seq!['{'] + comma_join(dict_fields(v)) + seq!['}']
}

impl JSONDict {
    /// Builds a record of two string fields. The grammar never asks for a
    /// repeated key, so the keys must differ (unique-key invariant).
    pub fn create(x_key: &'static str, x_val: &str, y_key: &'static str, y_val: &str) -> (r:
        JSONDict)
        requires
            x_key@ != y_key@,
        ensures
            r@ == (JSONDictV {
                str_vals: seq![(x_key@, x_val@), (y_key@, y_val@)],
                i32_vals: Seq::empty(),
            }),
            r@.wf(),
    {
        let mut str_vals: Vec<(&'static str, String)> = Vec::new();
        str_vals.push((x_key, x_val.to_owned()));
        str_vals.push((y_key, y_val.to_owned()));
        let d = JSONDict { str_vals, i32_vals: Vec::new() };
        proof {
            assert(d@.str_vals =~= seq![(x_key@, x_val@), (y_key@, y_val@)]);
            assert(d@.i32_vals =~= Seq::<(Seq<char>, int)>::empty());
            assert(d@.keys() =~= seq![x_key@, y_key@]);
        }
        d
    }

    /// Builds a record of one string field and one integer field.
    pub fn band_create(x_key: &'static str, x_val: &str, y_key: &'static str, y_val: i32) -> (r:
        JSONDict)
        requires
            x_key@ != y_key@,
        ensures
            r@ == (JSONDictV {
                str_vals: seq![(x_key@, x_val@)],
                i32_vals: seq![(y_key@, y_val as int)],
            }),
            r@.wf(),
    {
        let mut str_vals: Vec<(&'static str, String)> = Vec::new();
        str_vals.push((x_key, x_val.to_owned()));
        let mut i32_vals: Vec<(&'static str, i32)> = Vec::new();
        i32_vals.push((y_key, y_val));
        let d = JSONDict { str_vals, i32_vals };
        proof {
            assert(d@.str_vals =~= seq![(x_key@, x_val@)]);
            assert(d@.i32_vals =~= seq![(y_key@, y_val as int)]);
            assert(d@.keys() =~= seq![x_key@, y_key@]);
        }
        d
    }

    /// Builds a record of one string field and two integer fields.
    pub fn tri_create(
        x_key: &'static str,
        x_val: &str,
        y_key: &'static str,
        y_val: i32,
        z_key: &'static str,
        z_val: i32,
    ) -> (r: JSONDict)
        requires
            x_key@ != y_key@,
            x_key@ != z_key@,
            y_key@ != z_key@,
        ensures
            r@ == (JSONDictV {
                str_vals: seq![(x_key@, x_val@)],
                i32_vals: seq![(y_key@, y_val as int), (z_key@, z_val as int)],
            }),
            r@.wf(),
    {
        let mut str_vals: Vec<(&'static str, String)> = Vec::new();
        str_vals.push((x_key, x_val.to_owned()));
        let mut i32_vals: Vec<(&'static str, i32)> = Vec::new();
        i32_vals.push((y_key, y_val));
        i32_vals.push((z_key, z_val));
        let d = JSONDict { str_vals, i32_vals };
        proof {
            assert(d@.str_vals =~= seq![(x_key@, x_val@)]);
            assert(d@.i32_vals =~= seq![(y_key@, y_val as int), (z_key@, z_val as int)]);
            assert(d@.keys() =~= seq![x_key@, y_key@, z_key@]);
        }
        d
    }

    /// Emits one JSON field per stored entry, string-valued entries first and
    /// each group in insertion order; the unique-key invariant means no field
    /// appears twice.
    pub fn serialize(&self) -> (r: String)
        ensures
            r@ == dict_json(self@),
    {
        let ghost fields = dict_fields(self@);
        let ghost n_str = self.str_vals@.len() as int;
        let mut out = String::new();
        append_lbrace(&mut out);
        for i in 0..self.str_vals.len()
            invariant
                fields == dict_fields(self@),
                n_str == self.str_vals@.len(),
                fields.len() == n_str + self.i32_vals@.len(),
                out@ == seq!['{'] + comma_join(fields.take(i as int)),
        {
            if i != 0 {
                append_comma(&mut out);
            }
            let entry = &self.str_vals[i];
            append_json_str(&mut out, entry.0);
            append_colon(&mut out);
            append_json_str(&mut out, entry.1.as_str());
            proof {
                lemma_comma_join_push(fields.take(i as int), fields[i as int]);
                assert(fields.take(i as int).push(fields[i as int]) =~= fields.take(i + 1));
                assert(out@ =~= seq!['{'] + comma_join(fields.take(i + 1)));
            }
        }
        let n = self.str_vals.len();
        for j in 0..self.i32_vals.len()
            invariant
                fields == dict_fields(self@),
                n == n_str == self.str_vals@.len(),
                fields.len() == n_str + self.i32_vals@.len(),
                out@ == seq!['{'] + comma_join(fields.take(n_str + j as int)),
        {
            if n != 0 || j != 0 {
                append_comma(&mut out);
            }
            let entry = &self.i32_vals[j];
            append_json_str(&mut out, entry.0);
            append_colon(&mut out);
            append_dec_i32(&mut out, entry.1);
            proof {
                lemma_comma_join_push(fields.take(n_str + j as int), fields[n_str + j as int]);
                assert(fields.take(n_str + j as int).push(fields[n_str + j as int]) =~= fields.take(
                    n_str + j + 1,
                ));
                assert(out@ =~= seq!['{'] + comma_join(fields.take(n_str + j + 1)));
            }
        }
        append_rbrace(&mut out);
        proof {
            assert(fields.take(fields.len() as int) =~= fields);
            assert(out@ =~= dict_json(self@));
        }
        out
    }
}

} // verus!
