//! Verified emission of JSON text fragments.
//!
//! Spec functions pin the exact character sequence produced for strings
//! (with JSON escaping), integers and booleans; the exec functions append
//! those fragments to an output buffer and are proved to match.

use vstd::prelude::*;

verus! {

/// The character standing for one digit value below 16, as JSON spells it
/// (decimal digits, then lowercase hex letters).
pub open spec fn digit_char(d: int) -> char {
    if d == 0 {
        '0'
    } else if d == 1 {
        '1'
    } else if d == 2 {
        '2'
    } else if d == 3 {
        '3'
    } else if d == 4 {
        '4'
    } else if d == 5 {
        '5'
    } else if d == 6 {
        '6'
    } else if d == 7 {
        '7'
    } else if d == 8 {
        '8'
    } else if d == 9 {
        '9'
    } else if d == 10 {
        'a'
    } else if d == 11 {
        'b'
    } else if d == 12 {
        'c'
    } else if d == 13 {
        'd'
    } else if d == 14 {
        'e'
    } else {
        'f'
    }
}

/// Decimal digits of `n`, most significant first, no sign and no leading zero
/// (a single `'0'` for zero itself).
pub open spec fn dec_digits(n: nat) -> Seq<char>
    decreases n,
{
    if n < 10 {
        seq![digit_char(n as int)]
    } else {
        dec_digits(n / 10) + seq![digit_char((n % 10) as int)]
    }
}

/// Decimal rendering of an integer: the digits of its magnitude, with a
/// leading `'-'` when negative.
pub open spec fn dec_int(v: int) -> Seq<char> {
    if v < 0 {
        seq!['-'] + dec_digits((-v) as nat)
    } else {
        dec_digits(v as nat)
    }
}

/// Decimal rendering of a magnitude counted in hundredths: the whole part, a
/// decimal point, the tenths digit, and the hundredths digit when it is not
/// zero (70 renders as `0.7`, 125 as `1.25`, 100 as `1.0`).
pub open spec fn hundredths_text(h: nat) -> Seq<char> {
    dec_digits(h / 100) + seq!['.'] + seq![digit_char(((h / 10) % 10) as int)] + (if h % 10 == 0 {
        Seq::<char>::empty()
    } else {
        seq![digit_char((h % 10) as int)]
    })
}

/// The JSON spelling of a boolean.
pub open spec fn bool_text(b: bool) -> Seq<char> {
    if b {
        "true"@
    } else {
        "false"@
    }
}

/// What JSON string encoding emits for one character: a two-character escape
/// for quote, backslash and the named control characters, a `\u00..` escape
/// for the remaining control characters, and the character itself otherwise.
pub open spec fn escape_char(c: char) -> Seq<char> {
    if c == '"' {
        seq!['\\', '"']
    } else if c == '\\' {
        seq!['\\', '\\']
    } else if c == '\u{8}' {
        seq!['\\', 'b']
    } else if c == '\u{c}' {
        seq!['\\', 'f']
    } else if c == '\n' {
        seq!['\\', 'n']
    } else if c == '\r' {
        seq!['\\', 'r']
    } else if c == '\t' {
        seq!['\\', 't']
    } else if (c as u32) < 0x20 {
        seq!['\\', 'u', '0', '0', digit_char((c as u32) as int / 16), digit_char(
            (c as u32) as int % 16,
        )]
    } else {
        seq![c]
    }
}

/// JSON escaping of a whole character sequence, character by character.
pub open spec fn json_escaped(s: Seq<char>) -> Seq<char>
    decreases s.len(),
{
    if s.len() == 0 {
        Seq::empty()
    } else {
        json_escaped(s.drop_last()) + escape_char(s.last())
    }
}

/// A JSON string token: the escaped characters between double quotes.
pub open spec fn json_str(s: Seq<char>) -> Seq<char> {
    seq!['"'] + json_escaped(s) + seq!['"']
}

/// Joins the given fragments with a comma between each adjacent pair.
pub open spec fn comma_join(items: Seq<Seq<char>>) -> Seq<char>
    decreases items.len(),
{
    if items.len() == 0 {
        Seq::empty()
    } else if items.len() == 1 {
        items[0]
    } else {
        comma_join(items.drop_last()) + seq![','] + items.last()
    }
}

/// Extending a join by one more fragment appends a comma (unless the join
/// was empty) and then the fragment.
pub proof fn lemma_comma_join_push(items: Seq<Seq<char>>, item: Seq<char>)
    ensures
        comma_join(items.push(item)) == if items.len() == 0 {
            item
        } else {
            comma_join(items) + seq![','] + item
        },
{
    let extended = items.push(item);
    assert(extended.drop_last() =~= items);
    assert(extended.last() == item);
    if items.len() == 0 {
        assert(comma_join(extended) == extended[0]);
    }
}

/// Appends a single `{`.
pub(crate) fn append_lbrace(out: &mut String)
    ensures
        final(out)@ == old(out)@ + seq!['{'],
{
    out.append("{");
    proof {
        reveal_strlit("{");
        assert(out@ =~= old(out)@ + seq!['{']);
    }
}

/// Appends a single `}`.
pub(crate) fn append_rbrace(out: &mut String)
    ensures
        final(out)@ == old(out)@ + seq!['}'],
{
    out.append("}");
    proof {
        reveal_strlit("}");
        assert(out@ =~= old(out)@ + seq!['}']);
    }
}

/// Appends a single `[`.
pub(crate) fn append_lbracket(out: &mut String)
    ensures
        final(out)@ == old(out)@ + seq!['['],
{
    out.append("[");
    proof {
        reveal_strlit("[");
        assert(out@ =~= old(out)@ + seq!['[']);
    }
}

/// Appends a single `]`.
pub(crate) fn append_rbracket(out: &mut String)
    ensures
        final(out)@ == old(out)@ + seq![']'],
{
    out.append("]");
    proof {
        reveal_strlit("]");
        assert(out@ =~= old(out)@ + seq![']']);
    }
}

/// Appends a single `:`.
pub(crate) fn append_colon(out: &mut String)
    ensures
        final(out)@ == old(out)@ + seq![':'],
{
    out.append(":");
    proof {
        reveal_strlit(":");
        assert(out@ =~= old(out)@ + seq![':']);
    }
}

/// Appends a single `,`.
pub(crate) fn append_comma(out: &mut String)
    ensures
        final(out)@ == old(out)@ + seq![','],
{
    out.append(",");
    proof {
        reveal_strlit(",");
        assert(out@ =~= old(out)@ + seq![',']);
    }
}

/// Appends the single digit character for `d`.
fn append_digit(out: &mut String, d: u8)
    requires
        d < 16,
    ensures
        final(out)@ == old(out)@ + seq![digit_char(d as int)],
{
    let piece: &str = match d {
        0 => "0",
        1 => "1",
        2 => "2",
        3 => "3",
        4 => "4",
        5 => "5",
        6 => "6",
        7 => "7",
        8 => "8",
        9 => "9",
        10 => "a",
        11 => "b",
        12 => "c",
        13 => "d",
        14 => "e",
        _ => "f",
    };
    proof {
        reveal_strlit("0");
        reveal_strlit("1");
        reveal_strlit("2");
        reveal_strlit("3");
        reveal_strlit("4");
        reveal_strlit("5");
        reveal_strlit("6");
        reveal_strlit("7");
        reveal_strlit("8");
        reveal_strlit("9");
        reveal_strlit("a");
        reveal_strlit("b");
        reveal_strlit("c");
        reveal_strlit("d");
        reveal_strlit("e");
        reveal_strlit("f");
        assert(piece@ =~= seq![digit_char(d as int)]);
    }
    out.append(piece);
}

/// Appends the decimal digits of `n`.
fn append_dec_u32(out: &mut String, n: u32)
    ensures
        final(out)@ == old(out)@ + dec_digits(n as nat),
    decreases n,
{
    if n < 10 {
        append_digit(out, n as u8);
    } else {
        append_dec_u32(out, n / 10);
        append_digit(out, (n % 10) as u8);
        assert(out@ =~= old(out)@ + dec_digits(n as nat));
    }
}

/// Appends the decimal rendering of `n`, sign included.
pub(crate) fn append_dec_i32(out: &mut String, n: i32)
    ensures
        final(out)@ == old(out)@ + dec_int(n as int),
{
    if n >= 0 {
        append_dec_u32(out, n as u32);
    } else {
        out.append("-");
        let magnitude: u32 = if n == i32::MIN {
            0x8000_0000
        } else {
            (-n) as u32
        };
        proof {
            reveal_strlit("-");
            assert("-"@ =~= seq!['-']);
            assert(magnitude as nat == (-(n as int)) as nat);
        }
        append_dec_u32(out, magnitude);
        assert(out@ =~= old(out)@ + dec_int(n as int));
    }
}

/// Appends the decimal rendering of a magnitude counted in hundredths.
pub(crate) fn append_hundredths(out: &mut String, h: u32)
    ensures
        final(out)@ == old(out)@ + hundredths_text(h as nat),
{
    append_dec_u32(out, h / 100);
    out.append(".");
    append_digit(out, ((h / 10) % 10) as u8);
    if h % 10 != 0 {
        append_digit(out, (h % 10) as u8);
    }
    proof {
        reveal_strlit(".");
        assert("."@ =~= seq!['.']);
        assert(out@ =~= old(out)@ + hundredths_text(h as nat));
    }
}

/// Appends the JSON spelling of `b`.
pub(crate) fn append_bool(out: &mut String, b: bool)
    ensures
        final(out)@ == old(out)@ + bool_text(b),
{
    if b {
        out.append("true");
    } else {
        out.append("false");
    }
}

/// Appends the JSON escaping of every character of `s`, in order.
fn append_escaped(out: &mut String, s: &str)
    ensures
        final(out)@ == old(out)@ + json_escaped(s@),
{
    let ghost start = out@;
    let n = s.unicode_len();
    for i in 0..n
        invariant
            n == s@.len(),
            out@ == start + json_escaped(s@.take(i as int)),
    {
        let ghost before = out@;
        let c = s.get_char(i);
        if c == '"' {
            out.append("\\\"");
            proof {
                reveal_strlit("\\\"");
                assert(out@ =~= before + escape_char(c));
            }
        } else if c == '\\' {
            out.append("\\\\");
            proof {
                reveal_strlit("\\\\");
                assert(out@ =~= before + escape_char(c));
            }
        } else if c == '\u{8}' {
            out.append("\\b");
            proof {
                reveal_strlit("\\b");
                assert(out@ =~= before + escape_char(c));
            }
        } else if c == '\u{c}' {
            out.append("\\f");
            proof {
                reveal_strlit("\\f");
                assert(out@ =~= before + escape_char(c));
            }
        } else if c == '\n' {
            out.append("\\n");
            proof {
                reveal_strlit("\\n");
                assert(out@ =~= before + escape_char(c));
            }
        } else if c == '\r' {
            out.append("\\r");
            proof {
                reveal_strlit("\\r");
                assert(out@ =~= before + escape_char(c));
            }
        } else if c == '\t' {
            out.append("\\t");
            proof {
                reveal_strlit("\\t");
                assert(out@ =~= before + escape_char(c));
            }
        } else if (c as u32) < 0x20 {
            let code = c as u32;
            out.append("\\u00");
            append_digit(out, (code / 16) as u8);
            append_digit(out, (code % 16) as u8);
            proof {
                reveal_strlit("\\u00");
                assert(out@ =~= before + escape_char(c));
            }
        } else {
            let piece = s.substring_char(i, i + 1);
            out.append(piece);
            proof {
                assert(piece@ =~= seq![c]);
                assert(out@ =~= before + escape_char(c));
            }
        }
        proof {
            assert(s@.take(i + 1).drop_last() =~= s@.take(i as int));
            assert(s@.take(i + 1).last() == c);
            assert(out@ =~= start + json_escaped(s@.take(i + 1)));
        }
    }
    proof {
        assert(s@.take(n as int) =~= s@);
    }
}

/// A JSON array holding one string token per element, in sequence order.
pub open spec fn str_array_json(items: Seq<Seq<char>>) -> Seq<char> {
    seq!['['] + comma_join(items.map_values(|s: Seq<char>| json_str(s))) + seq![']']
}

/// Appends the JSON array of string tokens for `items`.
pub(crate) fn append_str_array(out: &mut String, items: &Vec<String>)
    ensures
        final(out)@ == old(out)@ + str_array_json(items@.map_values(|s: String| s@)),
{
    let ghost start = out@;
    let ghost tokens = items@.map_values(|s: String| s@).map_values(|s: Seq<char>| json_str(s));
    append_lbracket(out);
    for i in 0..items.len()
        invariant
            tokens == items@.map_values(|s: String| s@).map_values(|s: Seq<char>| json_str(s)),
            tokens.len() == items@.len(),
            out@ == start + seq!['['] + comma_join(tokens.take(i as int)),
    {
        if i != 0 {
            append_comma(out);
        }
        append_json_str(out, items[i].as_str());
        proof {
            lemma_comma_join_push(tokens.take(i as int), tokens[i as int]);
            assert(tokens.take(i as int).push(tokens[i as int]) =~= tokens.take(i + 1));
            assert(out@ =~= start + seq!['['] + comma_join(tokens.take(i + 1)));
        }
    }
    append_rbracket(out);
    proof {
        assert(tokens.take(items@.len() as int) =~= tokens);
        assert(out@ =~= start + str_array_json(items@.map_values(|s: String| s@)));
    }
}

/// Appends the JSON string token for `s`: quotes around the escaped text.
pub(crate) fn append_json_str(out: &mut String, s: &str)
    ensures
        final(out)@ == old(out)@ + json_str(s@),
{
    let ghost start = out@;
    out.append("\"");
    append_escaped(out, s);
    out.append("\"");
    proof {
        reveal_strlit("\"");
        assert("\""@ =~= seq!['"']);
        assert(out@ =~= start + json_str(s@));
    }
}

} // verus!
