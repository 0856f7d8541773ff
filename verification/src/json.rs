//! A JSON tree, the escaping rules used when the library writes JSON text,
//! and a parser for the JSON the inference endpoint and the model hand
//! back. Model output is untrusted input: it is always re-parsed and
//! checked against the expected shape before use, whatever output shape the
//! request asked for. Numbers are restricted to 64-bit integers; every
//! value the pipeline reads or writes is integral.
//!
//! The grammar itself is stated at the specification level: `json_doc`
//! maps a text to the ghost tree it denotes (or to nothing), and the
//! executable parser is proved to succeed exactly on denoting texts and to
//! return exactly the denoted tree.
use vstd::prelude::*;
use crate::strings::digit_char;
use crate::text_processing::text_chars;

verus! {

/// A parsed JSON value.
pub enum Json {
    Null,
    Bool(bool),
    Int(i64),
    Str(String),
    Arr(Vec<Json>),
    Obj(Vec<(String, Json)>),
}

/// The mathematical shape of a JSON value: the same tree with every
/// string as its character sequence.
pub enum JsonV {
    Null,
    Bool(bool),
    Int(i64),
    Str(Seq<char>),
    Arr(Seq<JsonV>),
    Obj(Seq<(Seq<char>, JsonV)>),
}

/// What a parsed tree denotes.
pub open spec fn jview(j: Json) -> JsonV
    decreases j,
{
    match j {
        Json::Null => JsonV::Null,
        Json::Bool(b) => JsonV::Bool(b),
        Json::Int(i) => JsonV::Int(i),
        Json::Str(s) => JsonV::Str(s@),
        Json::Arr(items) => JsonV::Arr(jview_list(items@)),
        Json::Obj(fields) => JsonV::Obj(jview_fields(fields@)),
    }
}

/// The denotations of a list of parsed trees, in order.
pub open spec fn jview_list(items: Seq<Json>) -> Seq<JsonV>
    decreases items,
{
    if items.len() == 0 {
        Seq::empty()
    } else {
        seq![jview(items[0])] + jview_list(items.drop_first())
    }
}

/// The denotations of the fields of a parsed object, in order.
pub open spec fn jview_fields(fields: Seq<(String, Json)>) -> Seq<(Seq<char>, JsonV)>
    decreases fields,
{
    if fields.len() == 0 {
        Seq::empty()
    } else {
        seq![(fields[0].0@, jview(fields[0].1))] + jview_fields(fields.drop_first())
    }
}

/// A viewed list is the pointwise view of its elements.
pub proof fn lemma_jview_list_index(items: Seq<Json>)
    ensures
        jview_list(items).len() == items.len(),
        forall|i: int| 0 <= i < items.len() ==> jview_list(items)[i] == jview(#[trigger] items[i]),
    decreases items.len(),
{
    if items.len() > 0 {
        lemma_jview_list_index(items.drop_first());
        assert forall|i: int|
            0 <= i < items.len() implies jview_list(items)[i] == jview(#[trigger] items[i]) by {
            if i > 0 {
                assert(items.drop_first()[i - 1] == items[i]);
            }
        }
    }
}

proof fn lemma_jview_list_push(items: Seq<Json>, x: Json)
    ensures
        jview_list(items.push(x)) == jview_list(items).push(jview(x)),
    decreases items.len(),
{
    if items.len() == 0 {
        assert(items.push(x)[0] == x);
        assert(items.push(x).drop_first() =~= Seq::<Json>::empty());
        assert(jview_list(items.push(x)) == seq![jview(x)] + jview_list(Seq::<Json>::empty()));
        assert(jview_list(items.push(x)) =~= jview_list(items).push(jview(x)));
    } else {
        assert(items.push(x)[0] == items[0]);
        assert(items.push(x).drop_first() =~= items.drop_first().push(x));
        lemma_jview_list_push(items.drop_first(), x);
        assert(jview_list(items.push(x)) == seq![jview(items[0])] + jview_list(
            items.drop_first().push(x),
        ));
        assert(jview_list(items) == seq![jview(items[0])] + jview_list(items.drop_first()));
        assert(jview_list(items.push(x)) =~= jview_list(items).push(jview(x)));
    }
}

/// Viewed fields are the pointwise views of the field pairs.
pub proof fn lemma_jview_fields_index(fields: Seq<(String, Json)>)
    ensures
        jview_fields(fields).len() == fields.len(),
        forall|i: int|
            0 <= i < fields.len() ==> jview_fields(fields)[i] == ((#[trigger] fields[i]).0@,
            jview(fields[i].1)),
    decreases fields.len(),
{
    if fields.len() > 0 {
        lemma_jview_fields_index(fields.drop_first());
        assert forall|i: int|
            0 <= i < fields.len() implies jview_fields(fields)[i] == ((#[trigger] fields[i]).0@,
        jview(fields[i].1)) by {
            if i > 0 {
                assert(fields.drop_first()[i - 1] == fields[i]);
            }
        }
    }
}

proof fn lemma_jview_fields_push(fields: Seq<(String, Json)>, k: String, v: Json)
    ensures
        jview_fields(fields.push((k, v))) == jview_fields(fields).push((k@, jview(v))),
    decreases fields.len(),
{
    if fields.len() == 0 {
        assert(fields.push((k, v))[0] == (k, v));
        assert(fields.push((k, v)).drop_first() =~= Seq::<(String, Json)>::empty());
        assert(jview_fields(fields.push((k, v))) == seq![(k@, jview(v))] + jview_fields(
            Seq::<(String, Json)>::empty(),
        ));
        assert(jview_fields(fields.push((k, v))) =~= jview_fields(fields).push((k@, jview(v))));
    } else {
        assert(fields.push((k, v))[0] == fields[0]);
        assert(fields.push((k, v)).drop_first() =~= fields.drop_first().push((k, v)));
        lemma_jview_fields_push(fields.drop_first(), k, v);
        assert(jview_fields(fields.push((k, v))) == seq![
            (fields[0].0@, jview(fields[0].1)),
        ] + jview_fields(fields.drop_first().push((k, v))));
        assert(jview_fields(fields) == seq![(fields[0].0@, jview(fields[0].1))] + jview_fields(
            fields.drop_first(),
        ));
        assert(jview_fields(fields.push((k, v))) =~= jview_fields(fields).push((k@, jview(v))));
    }
}

/// The hexadecimal digit character for a value below sixteen.
pub open spec fn hex_char(d: int) -> char {
    if d < 10 {
        digit_char(d)
    } else if d == 10 {
        'a'
    } else if d == 11 {
        'b'
    } else if d == 12 {
        'c'
    } else if d == 13 {
        'd'
    } else if d == 14 {
        'e'
    } else {
        'f'
    }
}

/// How one character appears inside a JSON string literal: quote and
/// backslash are escaped, the five short control escapes are used where
/// they exist, any other control character becomes a `\u00XX` escape, and
/// everything else stands as itself.
pub open spec fn json_escaped_char(c: char) -> Seq<char> {
    if c == '"' {
        seq!['\\', '"']
    } else if c == '\\' {
        seq!['\\', '\\']
    } else if c == '\n' {
        seq!['\\', 'n']
    } else if c == '\r' {
        seq!['\\', 'r']
    } else if c == '\t' {
        seq!['\\', 't']
    } else if c == '\u{08}' {
        seq!['\\', 'b']
    } else if c == '\u{0c}' {
        seq!['\\', 'f']
    } else if (c as u32) < 0x20 {
        seq!['\\', 'u', '0', '0', hex_char((c as u32 / 16) as int), hex_char(
            (c as u32 % 16) as int,
        )]
    } else {
        seq![c]
    }
}

/// The body of a JSON string literal for the text `s`.
pub open spec fn json_escaped(s: Seq<char>) -> Seq<char>
    decreases s.len(),
{
    if s.len() == 0 {
        Seq::empty()
    } else {
        json_escaped_char(s[0]) + json_escaped(s.drop_first())
    }
}

/// The JSON string literal for the text `s`, quotes included.
pub open spec fn json_str(s: Seq<char>) -> Seq<char> {
    seq!['"'] + json_escaped(s) + seq!['"']
}

fn hex_of(d: u32) -> (c: char)
    requires
        d < 16,
    ensures
        c == hex_char(d as int),
{
    if d == 0 {
        '0'
    } else if d == 1 {
        '1'
    } else if d == 2 {
        '2'
    } else if d == 3 {
        '3'
    } else if d == 4 {
        '4'
    } else if d == 5 {
        '5'
    } else if d == 6 {
        '6'
    } else if d == 7 {
        '7'
    } else if d == 8 {
        '8'
    } else if d == 9 {
        '9'
    } else if d == 10 {
        'a'
    } else if d == 11 {
        'b'
    } else if d == 12 {
        'c'
    } else if d == 13 {
        'd'
    } else if d == 14 {
        'e'
    } else {
        'f'
    }
}

fn append_escaped_char(out: &mut String, c: char)
    ensures
        final(out)@ == old(out)@ + json_escaped_char(c),
{
    if c == '"' {
        out.push('\\');
        out.push('"');
    } else if c == '\\' {
        out.push('\\');
        out.push('\\');
    } else if c == '\n' {
        out.push('\\');
        out.push('n');
    } else if c == '\r' {
        out.push('\\');
        out.push('r');
    } else if c == '\t' {
        out.push('\\');
        out.push('t');
    } else if c == '\u{08}' {
        out.push('\\');
        out.push('b');
    } else if c == '\u{0c}' {
        out.push('\\');
        out.push('f');
    } else if (c as u32) < 0x20 {
        out.push('\\');
        out.push('u');
        out.push('0');
        out.push('0');
        out.push(hex_of(c as u32 / 16));
        out.push(hex_of(c as u32 % 16));
    } else {
        out.push(c);
    }
    proof {
        assert(final(out)@ =~= old(out)@ + json_escaped_char(c));
    }
}

/// Appends the JSON string literal for `s`, quotes and escapes included.
pub fn append_json_str(out: &mut String, s: &str)
    ensures
        final(out)@ == old(out)@ + json_str(s@),
{
    out.push('"');
    let chars = text_chars(s);
    let ghost base = out@;
    proof {
        assert(s@.skip(0) =~= s@);
    }
    let mut i: usize = 0;
    while i < chars.len()
        invariant
            chars@ == s@,
            i <= s@.len(),
            out@ + json_escaped(s@.skip(i as int)) == base + json_escaped(s@),
        decreases s@.len() - i,
    {
        let ghost before = out@;
        append_escaped_char(out, chars[i]);
        proof {
            assert(s@.skip(i as int).drop_first() =~= s@.skip(i as int + 1));
            assert(s@.skip(i as int)[0] == s@[i as int]);
            assert(before + json_escaped_char(s@[i as int]) + json_escaped(s@.skip(i as int + 1))
                =~= before + json_escaped(s@.skip(i as int)));
        }
        i = i + 1;
    }
    out.push('"');
    proof {
        assert(json_escaped(s@.skip(s@.len() as int)) =~= Seq::<char>::empty());
        assert(final(out)@ =~= old(out)@ + json_str(s@));
    }
}

// ---------------------------------------------------------------------
// The grammar, as a deterministic recursive descent at the spec level.
// The guards that send an out-of-range position to `None` can never fire
// on a position the scanner itself produced; they make the descent's
// termination measure self-evident.
// ---------------------------------------------------------------------
/// JSON whitespace.
pub open spec fn json_ws(c: char) -> bool {
    c == ' ' || c == '\t' || c == '\n' || c == '\r'
}

/// The position after the whitespace run starting at `p`.
pub open spec fn sp_ws(s: Seq<char>, p: int) -> int
    decreases s.len() - p,
    when 0 <= p
{
    if p < s.len() && json_ws(s[p]) {
        sp_ws(s, p + 1)
    } else {
        p
    }
}

proof fn lemma_sp_ws_range(s: Seq<char>, p: int)
    requires
        0 <= p <= s.len(),
    ensures
        p <= sp_ws(s, p) <= s.len(),
    decreases s.len() - p,
{
    if p < s.len() && json_ws(s[p]) {
        lemma_sp_ws_range(s, p + 1);
    }
}

/// The value of one hexadecimal digit character.
pub open spec fn sp_hexd(c: char) -> Option<u32> {
    let u = c as u32;
    if 48 <= u && u <= 57 {
        Some((u - 48) as u32)
    } else if 97 <= u && u <= 102 {
        Some((u - 87) as u32)
    } else if 65 <= u && u <= 70 {
        Some((u - 55) as u32)
    } else {
        None
    }
}

/// The value of the four hexadecimal digits at `p`.
pub open spec fn sp_hex4(s: Seq<char>, p: int) -> Option<u32> {
    if p < 0 || p + 4 > s.len() {
        None
    } else {
        match (sp_hexd(s[p]), sp_hexd(s[p + 1]), sp_hexd(s[p + 2]), sp_hexd(s[p + 3])) {
            (Some(a), Some(b), Some(c), Some(d)) => Some(
                (((a * 16 + b) * 16 + c) * 16 + d) as u32,
            ),
            _ => None,
        }
    }
}

/// The character with the given code point.
pub open spec fn char_of(code: u32) -> char {
    choose|c: char| (#[trigger] (c as u32)) == code
}

/// The string-literal body starting at `p` (after the opening quote),
/// with `acc` already decoded: the decoded text and the position after
/// the closing quote.
pub open spec fn sp_string(s: Seq<char>, p: int, acc: Seq<char>) -> Option<(Seq<char>, int)>
    decreases s.len() - p,
    when 0 <= p
{
    if p >= s.len() {
        None
    } else {
        let c = s[p];
        if c == '"' {
            Some((acc, p + 1))
        } else if c == '\\' {
            if p + 1 >= s.len() {
                None
            } else {
                let e = s[p + 1];
                if e == '"' {
                    sp_string(s, p + 2, acc.push('"'))
                } else if e == '\\' {
                    sp_string(s, p + 2, acc.push('\\'))
                } else if e == '/' {
                    sp_string(s, p + 2, acc.push('/'))
                } else if e == 'n' {
                    sp_string(s, p + 2, acc.push('\n'))
                } else if e == 't' {
                    sp_string(s, p + 2, acc.push('\t'))
                } else if e == 'r' {
                    sp_string(s, p + 2, acc.push('\r'))
                } else if e == 'b' {
                    sp_string(s, p + 2, acc.push('\u{08}'))
                } else if e == 'f' {
                    sp_string(s, p + 2, acc.push('\u{0c}'))
                } else if e == 'u' {
                    match sp_hex4(s, p + 2) {
                        None => None,
                        Some(v) => if 0xD800 <= v && v < 0xDC00 {
                            // A high surrogate must pair with an escaped low
                            // surrogate.
                            if p + 8 > s.len() || s[p + 6] != '\\' || s[p + 7] != 'u' {
                                None
                            } else {
                                match sp_hex4(s, p + 8) {
                                    None => None,
                                    Some(lo) => if !(0xDC00 <= lo && lo < 0xE000) {
                                        None
                                    } else {
                                        sp_string(
                                            s,
                                            p + 12,
                                            acc.push(
                                                char_of(
                                                    (0x10000 + (v - 0xD800) * 0x400 + (lo
                                                        - 0xDC00)) as u32,
                                                ),
                                            ),
                                        )
                                    },
                                }
                            }
                        } else if v < 0xD800 || 0xE000 <= v {
                            sp_string(s, p + 6, acc.push(char_of(v)))
                        } else {
                            None
                        },
                    }
                } else {
                    None
                }
            }
        } else if (c as u32) < 0x20 {
            None
        } else {
            sp_string(s, p + 1, acc.push(c))
        }
    }
}

/// The digit run starting at `p`: the accumulated magnitude, the digit
/// count, and the position after the run; `None` past the representable
/// magnitude.
pub open spec fn sp_digits(s: Seq<char>, p: int, mag: int, digits: int) -> Option<(int, int, int)>
    decreases s.len() - p,
    when 0 <= p
{
    if p < s.len() && 48 <= (s[p] as u32) && (s[p] as u32) <= 57 {
        let d = (s[p] as u32) - 48;
        if mag > (0x8000_0000_0000_0000 - d) / 10 {
            None
        } else {
            sp_digits(s, p + 1, mag * 10 + d, digits + 1)
        }
    } else {
        Some((mag, digits, p))
    }
}

/// The integer literal starting at `p`: an optional minus sign and a
/// digit run, not followed by a fraction or exponent.
pub open spec fn sp_int(s: Seq<char>, p: int) -> Option<(i64, int)> {
    if p < 0 {
        None
    } else {
        let p1 = if p < s.len() && s[p] == '-' {
            p + 1
        } else {
            p
        };
        let neg = p1 != p;
        if p1 >= s.len() {
            None
        } else {
            match sp_digits(s, p1, 0, 0) {
                None => None,
                Some((mag, digits, q)) => if digits == 0 {
                    None
                } else if q < s.len() && (s[q] == '.' || s[q] == 'e' || s[q] == 'E') {
                    None
                } else if neg {
                    if mag > 0x8000_0000_0000_0000 {
                        None
                    } else if mag == 0x8000_0000_0000_0000 {
                        Some((i64::MIN, q))
                    } else {
                        Some(((-mag) as i64, q))
                    }
                } else if mag >= 0x8000_0000_0000_0000 {
                    None
                } else {
                    Some((mag as i64, q))
                },
            }
        }
    }
}

/// The value starting at `p`, nested at most `depth` levels deep: the
/// denoted tree and the position just after it.
pub open spec fn sp_value(s: Seq<char>, p: int, depth: int) -> Option<(JsonV, int)>
    decreases depth, s.len() - p,
    when 0 <= p && 0 <= depth
{
    if depth == 0 || p >= s.len() {
        None
    } else {
        let c = s[p];
        if c == 'n' {
            if p + 4 <= s.len() && s.subrange(p, p + 4) == "null"@ {
                Some((JsonV::Null, p + 4))
            } else {
                None
            }
        } else if c == 't' {
            if p + 4 <= s.len() && s.subrange(p, p + 4) == "true"@ {
                Some((JsonV::Bool(true), p + 4))
            } else {
                None
            }
        } else if c == 'f' {
            if p + 5 <= s.len() && s.subrange(p, p + 5) == "false"@ {
                Some((JsonV::Bool(false), p + 5))
            } else {
                None
            }
        } else if c == '"' {
            match sp_string(s, p + 1, Seq::empty()) {
                None => None,
                Some((str, q)) => Some((JsonV::Str(str), q)),
            }
        } else if c == '-' || (48 <= (c as u32) && (c as u32) <= 57) {
            match sp_int(s, p) {
                None => None,
                Some((v, q)) => Some((JsonV::Int(v), q)),
            }
        } else if c == '[' {
            let p1 = sp_ws(s, p + 1);
            if p1 < p + 1 || p1 > s.len() {
                None
            } else if p1 < s.len() && s[p1] == ']' {
                Some((JsonV::Arr(Seq::empty()), p1 + 1))
            } else {
                match sp_arr_items(s, p1, depth, Seq::empty()) {
                    None => None,
                    Some((vs, q)) => Some((JsonV::Arr(vs), q)),
                }
            }
        } else if c == '{' {
            let p1 = sp_ws(s, p + 1);
            if p1 < p + 1 || p1 > s.len() {
                None
            } else if p1 < s.len() && s[p1] == '}' {
                Some((JsonV::Obj(Seq::empty()), p1 + 1))
            } else {
                match sp_obj_items(s, p1, depth, Seq::empty()) {
                    None => None,
                    Some((fs, q)) => Some((JsonV::Obj(fs), q)),
                }
            }
        } else {
            None
        }
    }
}

/// The elements of a nonempty array from `p` on, with `acc` already
/// collected: the element list and the position after the closing
/// bracket.
pub open spec fn sp_arr_items(s: Seq<char>, p: int, depth: int, acc: Seq<JsonV>) -> Option<
    (Seq<JsonV>, int),
>
    decreases depth, s.len() - p,
    when 0 <= p && 1 <= depth
{
    match sp_value(s, p, depth - 1) {
        None => None,
        Some((v, q)) => if q <= p || q > s.len() {
            None
        } else {
            let q2 = sp_ws(s, q);
            if q2 < q || q2 > s.len() {
                None
            } else if q2 >= s.len() {
                None
            } else if s[q2] == ']' {
                Some((acc.push(v), q2 + 1))
            } else if s[q2] != ',' {
                None
            } else {
                let q3 = sp_ws(s, q2 + 1);
                if q3 <= p || q3 > s.len() {
                    None
                } else {
                    sp_arr_items(s, q3, depth, acc.push(v))
                }
            }
        },
    }
}

/// The fields of a nonempty object from `p` on, with `acc` already
/// collected: the field list and the position after the closing brace.
pub open spec fn sp_obj_items(
    s: Seq<char>,
    p: int,
    depth: int,
    acc: Seq<(Seq<char>, JsonV)>,
) -> Option<(Seq<(Seq<char>, JsonV)>, int)>
    decreases depth, s.len() - p,
    when 0 <= p && 1 <= depth
{
    if p >= s.len() || s[p] != '"' {
        None
    } else {
        match sp_string(s, p + 1, Seq::empty()) {
            None => None,
            Some((key, p2)) => if p2 <= p || p2 > s.len() {
                None
            } else {
                let p3 = sp_ws(s, p2);
                if p3 < p2 || p3 > s.len() {
                    None
                } else if p3 >= s.len() || s[p3] != ':' {
                    None
                } else {
                    let p4 = sp_ws(s, p3 + 1);
                    if p4 < p3 + 1 || p4 > s.len() {
                        None
                    } else {
                        match sp_value(s, p4, depth - 1) {
                            None => None,
                            Some((v, p5)) => if p5 <= p || p5 > s.len() {
                                None
                            } else {
                                let p6 = sp_ws(s, p5);
                                if p6 < p5 || p6 > s.len() {
                                    None
                                } else if p6 >= s.len() {
                                    None
                                } else if s[p6] == '}' {
                                    Some((acc.push((key, v)), p6 + 1))
                                } else if s[p6] != ',' {
                                    None
                                } else {
                                    let p7 = sp_ws(s, p6 + 1);
                                    if p7 <= p || p7 > s.len() {
                                        None
                                    } else {
                                        sp_obj_items(s, p7, depth, acc.push((key, v)))
                                    }
                                }
                            },
                        }
                    }
                }
            },
        }
    }
}

/// The tree a complete JSON document denotes: one value surrounded by
/// nothing but whitespace, nested at most `MAX_JSON_DEPTH` levels deep;
/// `None` for any other text.
pub open spec fn json_doc(text: Seq<char>) -> Option<JsonV> {
    let p0 = sp_ws(text, 0);
    if p0 < 0 || p0 > text.len() {
        None
    } else {
        match sp_value(text, p0, MAX_JSON_DEPTH as int) {
            None => None,
            Some((jv, p1)) => if 0 <= p1 <= text.len() && sp_ws(text, p1) == text.len() {
                Some(jv)
            } else {
                None
            },
        }
    }
}

// ---------------------------------------------------------------------
// The executable parser, equal to the descent above.
// ---------------------------------------------------------------------
fn skip_ws(chars: &Vec<char>, pos: usize) -> (r: usize)
    requires
        pos <= chars@.len(),
    ensures
        pos <= r <= chars@.len(),
        r as int == sp_ws(chars@, pos as int),
{
    let mut p = pos;
    while p < chars.len() && (chars[p] == ' ' || chars[p] == '\t' || chars[p] == '\n' || chars[p]
        == '\r')
        invariant
            pos <= p <= chars@.len(),
            sp_ws(chars@, pos as int) == sp_ws(chars@, p as int),
        decreases chars@.len() - p,
    {
        p = p + 1;
    }
    p
}

fn parse_err<T>(msg: &str) -> (r: Result<T, String>)
    ensures
        r matches Err(m) && m@ == msg@,
{
    Err(String::from_str(msg))
}

fn hex_val(c: char) -> (r: Option<u32>)
    ensures
        r == sp_hexd(c),
        r matches Some(v) ==> v < 16,
{
    let u = c as u32;
    if u >= 48 && u <= 57 {
        Some(u - 48)
    } else if u >= 97 && u <= 102 {
        Some(u - 97 + 10)
    } else if u >= 65 && u <= 70 {
        Some(u - 65 + 10)
    } else {
        None
    }
}

fn expect_lit(chars: &Vec<char>, pos: usize, lit: &str) -> (r: Result<usize, String>)
    requires
        pos <= chars@.len(),
    ensures
        r is Ok <==> (pos + lit@.len() <= chars@.len() && chars@.subrange(
            pos as int,
            pos + lit@.len(),
        ) == lit@),
        r matches Ok(p) ==> pos <= p <= chars@.len() && p == pos + lit@.len(),
{
    let lits = text_chars(lit);
    let n = lits.len();
    if chars.len() - pos < n {
        return parse_err("unexpected end of input");
    }
    let mut i: usize = 0;
    while i < n
        invariant
            i <= n == lits@.len(),
            lits@ == lit@,
            n <= chars@.len() - pos,
            pos + n <= usize::MAX,
            forall|j: int| 0 <= j < i ==> chars@[pos + j] == lits@[j],
        decreases n - i,
    {
        if chars[pos + i] != lits[i] {
            proof {
                assert(lits@ == lit@);
                assert(chars@[pos + i] != lit@[i as int]);
                assert(chars@.subrange(pos as int, pos + n)[i as int] == chars@[pos + i]);
                assert(chars@.subrange(pos as int, pos + lit@.len()) == chars@.subrange(
                    pos as int,
                    pos + n,
                ));
            }
            return parse_err("unexpected character");
        }
        i = i + 1;
    }
    proof {
        assert(chars@.subrange(pos as int, pos + n) =~= lits@);
    }
    Ok(pos + n)
}

fn is_ctrl(c: char) -> (r: bool)
    ensures
        r == ((c as u32) < 0x20),
{
    (c as u32) < 0x20
}

fn char_code(c: char) -> (r: u32)
    ensures
        r == c as u32,
{
    c as u32
}

proof fn lemma_char_of_code(c: char)
    ensures
        char_of(c as u32) == c,
{
    assert(exists|x: char| (#[trigger] (x as u32)) == c as u32) by {
        assert((c as u32) == c as u32);
    }
    let w = choose|x: char| (#[trigger] (x as u32)) == c as u32;
    assert(w as u32 == c as u32);
}

#[verifier::rlimit(100)]
fn parse_string_body(chars: &Vec<char>, pos: usize) -> (r: Result<(String, usize), String>)
    requires
        pos <= chars@.len(),
    ensures
        r matches Ok((str, p)) ==> pos < p <= chars@.len() && sp_string(
            chars@,
            pos as int,
            Seq::empty(),
        ) == Some((str@, p as int)),
        r is Err ==> sp_string(chars@, pos as int, Seq::<char>::empty()) is None,
{
    let ghost s = chars@;
    let mut out = String::new();
    let mut p = pos;
    loop
        invariant
            pos <= p <= s.len(),
            chars@ == s,
            sp_string(s, pos as int, Seq::empty()) == sp_string(s, p as int, out@),
        decreases s.len() - p,
    {
        if p >= chars.len() {
            return parse_err("unterminated string");
        }
        let c = chars[p];
        if c == '"' {
            return Ok((out, p + 1));
        }
        if c == '\\' {
            if p + 1 >= chars.len() {
                return parse_err("unterminated escape");
            }
            let e = chars[p + 1];
            if e == '"' {
                out.push('"');
                p = p + 2;
            } else if e == '\\' {
                out.push('\\');
                p = p + 2;
            } else if e == '/' {
                out.push('/');
                p = p + 2;
            } else if e == 'n' {
                out.push('\n');
                p = p + 2;
            } else if e == 't' {
                out.push('\t');
                p = p + 2;
            } else if e == 'r' {
                out.push('\r');
                p = p + 2;
            } else if e == 'b' {
                out.push('\u{08}');
                p = p + 2;
            } else if e == 'f' {
                out.push('\u{0c}');
                p = p + 2;
            } else if e == 'u' {
                let (v, p2) = match parse_hex4(chars, p + 2) {
                    Ok(x) => x,
                    Err(m) => {
                        return Err(m);
                    },
                };
                if v >= 0xD800 && v < 0xDC00 {
                    // A high surrogate must be followed by an escaped low
                    // surrogate; the pair encodes one supplementary
                    // character.
                    if chars.len() - p2 < 2 || chars[p2] != '\\' || chars[p2 + 1] != 'u' {
                        return parse_err("unpaired surrogate in string escape");
                    }
                    let (lo, p3) = match parse_hex4(chars, p2 + 2) {
                        Ok(x) => x,
                        Err(m) => {
                            return Err(m);
                        },
                    };
                    if !(lo >= 0xDC00 && lo < 0xE000) {
                        return parse_err("unpaired surrogate in string escape");
                    }
                    let code: u32 = 0x10000 + ((v - 0xD800) * 0x400) + (lo - 0xDC00);
                    match char::from_u32(code) {
                        Some(ch) => {
                            proof {
                                lemma_char_of_code(ch);
                            }
                            out.push(ch);
                        },
                        None => {
                            return parse_err("invalid character escape");
                        },
                    }
                    p = p3;
                } else {
                    match char::from_u32(v) {
                        Some(ch) => {
                            proof {
                                lemma_char_of_code(ch);
                            }
                            out.push(ch);
                        },
                        None => {
                            return parse_err("unpaired surrogate in string escape");
                        },
                    }
                    p = p2;
                }
            } else {
                return parse_err("unknown escape");
            }
        } else if is_ctrl(c) {
            return parse_err("control character in string");
        } else {
            out.push(c);
            p = p + 1;
        }
    }
}

fn parse_hex4(chars: &Vec<char>, pos: usize) -> (r: Result<(u32, usize), String>)
    requires
        pos <= chars@.len(),
    ensures
        r matches Ok((v, p)) ==> pos <= p <= chars@.len() && p == pos + 4 && v < 0x10000
            && sp_hex4(chars@, pos as int) == Some(v),
        r is Err ==> sp_hex4(chars@, pos as int) is None,
{
    if chars.len() - pos < 4 {
        return parse_err("unterminated escape");
    }
    let d0 = match hex_val(chars[pos]) {
        Some(d) => d,
        None => {
            return parse_err("invalid hex escape");
        },
    };
    let d1 = match hex_val(chars[pos + 1]) {
        Some(d) => d,
        None => {
            return parse_err("invalid hex escape");
        },
    };
    let d2 = match hex_val(chars[pos + 2]) {
        Some(d) => d,
        None => {
            return parse_err("invalid hex escape");
        },
    };
    let d3 = match hex_val(chars[pos + 3]) {
        Some(d) => d,
        None => {
            return parse_err("invalid hex escape");
        },
    };
    Ok((((d0 * 16 + d1) * 16 + d2) * 16 + d3, pos + 4))
}

fn parse_int(chars: &Vec<char>, pos: usize) -> (r: Result<(i64, usize), String>)
    requires
        pos <= chars@.len(),
    ensures
        r matches Ok((v, p)) ==> pos < p <= chars@.len() && sp_int(chars@, pos as int) == Some(
            (v, p as int),
        ),
        r is Err ==> sp_int(chars@, pos as int) is None,
{
    let ghost s = chars@;
    let mut p = pos;
    let mut neg = false;
    if p < chars.len() && chars[p] == '-' {
        neg = true;
        p = p + 1;
    }
    let ghost p1 = p as int;
    if p >= chars.len() {
        return parse_err("unexpected end of input");
    }
    let mut mag: u64 = 0;
    let mut digits: usize = 0;
    while p < chars.len() && char_code(chars[p]) >= 48 && char_code(chars[p]) <= 57
        invariant
            0 <= p1 <= p <= s.len(),
            chars@ == s,
            pos <= p1 <= pos + 1,
            p1 == (if pos < s.len() && s[pos as int] == '-' {
                pos as int + 1
            } else {
                pos as int
            }),
            p1 < s.len(),
            mag <= 0x8000_0000_0000_0000,
            digits as int <= p - p1,
            sp_digits(s, p1, 0, 0) == sp_digits(s, p as int, mag as int, digits as int),
        decreases s.len() - p,
    {
        let d = char_code(chars[p]) - 48;
        if mag > (0x8000_0000_0000_0000 - d as u64) / 10 {
            proof {
                assert(sp_digits(s, p as int, mag as int, digits as int) is None);
                assert(sp_digits(s, p1, 0, 0) is None);
            }
            return parse_err("number out of range");
        }
        mag = mag * 10 + d as u64;
        p = p + 1;
        digits = digits + 1;
    }
    proof {
        assert(sp_digits(s, p as int, mag as int, digits as int) == Some(
            (mag as int, digits as int, p as int),
        ));
    }
    if digits == 0 {
        return parse_err("expected a digit");
    }
    if p < chars.len() && (chars[p] == '.' || chars[p] == 'e' || chars[p] == 'E') {
        return parse_err("only integer numbers are supported");
    }
    if neg {
        if mag > 0x8000_0000_0000_0000 {
            return parse_err("number out of range");
        }
        if mag == 0x8000_0000_0000_0000 {
            return Ok((i64::MIN, p));
        }
        proof {
            assert(-(mag as i64) as int == 0 - mag as int);
        }
        return Ok((-(mag as i64), p));
    }
    if mag >= 0x8000_0000_0000_0000 {
        return parse_err("number out of range");
    }
    Ok((mag as i64, p))
}

fn parse_value(chars: &Vec<char>, pos: usize, depth: u64) -> (r: Result<(Json, usize), String>)
    requires
        pos <= chars@.len(),
    ensures
        r matches Ok((j, p)) ==> pos < p <= chars@.len() && sp_value(
            chars@,
            pos as int,
            depth as int,
        ) == Some((jview(j), p as int)),
        r is Err ==> sp_value(chars@, pos as int, depth as int) is None,
    decreases depth,
{
    let ghost s = chars@;
    if depth == 0 {
        return parse_err("recursion limit exceeded");
    }
    if pos >= chars.len() {
        return parse_err("unexpected end of input");
    }
    let c = chars[pos];
    if c == 'n' {
        proof {
            reveal_strlit("null");
        }
        let p = match expect_lit(chars, pos, "null") {
            Ok(p) => p,
            Err(m) => {
                return Err(m);
            },
        };
        Ok((Json::Null, p))
    } else if c == 't' {
        proof {
            reveal_strlit("true");
        }
        let p = match expect_lit(chars, pos, "true") {
            Ok(p) => p,
            Err(m) => {
                return Err(m);
            },
        };
        Ok((Json::Bool(true), p))
    } else if c == 'f' {
        proof {
            reveal_strlit("false");
        }
        let p = match expect_lit(chars, pos, "false") {
            Ok(p) => p,
            Err(m) => {
                return Err(m);
            },
        };
        Ok((Json::Bool(false), p))
    } else if c == '"' {
        let (st, p) = match parse_string_body(chars, pos + 1) {
            Ok(x) => x,
            Err(m) => {
                return Err(m);
            },
        };
        Ok((Json::Str(st), p))
    } else if c == '-' || (char_code(c) >= 48 && char_code(c) <= 57) {
        let (v, p) = match parse_int(chars, pos) {
            Ok(x) => x,
            Err(m) => {
                return Err(m);
            },
        };
        Ok((Json::Int(v), p))
    } else if c == '[' {
        let mut items: Vec<Json> = Vec::new();
        let p1 = skip_ws(chars, pos + 1);
        if p1 < chars.len() && chars[p1] == ']' {
            proof {
                assert(jview(Json::Arr(items)) == JsonV::Arr(jview_list(items@)));
                assert(jview_list(items@) =~= Seq::<JsonV>::empty());
            }
            return Ok((Json::Arr(items), p1 + 1));
        }
        let mut p = p1;
        loop
            invariant
                pos < p1 <= p <= s.len(),
                chars@ == s,
                depth >= 1,
                sp_arr_items(s, p1 as int, depth as int, Seq::empty()) == sp_arr_items(
                    s,
                    p as int,
                    depth as int,
                    jview_list(items@),
                ),
                sp_value(s, pos as int, depth as int) == (match sp_arr_items(
                    s,
                    p1 as int,
                    depth as int,
                    Seq::empty(),
                ) {
                    None => None,
                    Some((vs, q)) => Some((JsonV::Arr(vs), q)),
                }),
            decreases s.len() - p,
        {
            let (item, p2) = match parse_value(chars, p, depth - 1) {
                Ok(x) => x,
                Err(m) => {
                    return Err(m);
                },
            };
            let p3 = skip_ws(chars, p2);
            if p3 >= chars.len() {
                return parse_err("unterminated array");
            }
            if chars[p3] == ']' {
                proof {
                    lemma_jview_list_push(items@, item);
                }
                items.push(item);
                return Ok((Json::Arr(items), p3 + 1));
            }
            if chars[p3] != ',' {
                return parse_err("expected a comma or a closing bracket");
            }
            let p4 = skip_ws(chars, p3 + 1);
            if p4 <= p {
                return parse_err("unterminated array");
            }
            proof {
                lemma_jview_list_push(items@, item);
            }
            items.push(item);
            p = p4;
        }
    } else if c == '{' {
        let mut fields: Vec<(String, Json)> = Vec::new();
        let p1 = skip_ws(chars, pos + 1);
        if p1 < chars.len() && chars[p1] == '}' {
            proof {
                assert(jview(Json::Obj(fields)) == JsonV::Obj(jview_fields(fields@)));
                assert(jview_fields(fields@) =~= Seq::<(Seq<char>, JsonV)>::empty());
            }
            return Ok((Json::Obj(fields), p1 + 1));
        }
        let mut p = p1;
        loop
            invariant
                pos < p1 <= p <= s.len(),
                chars@ == s,
                depth >= 1,
                sp_obj_items(s, p1 as int, depth as int, Seq::empty()) == sp_obj_items(
                    s,
                    p as int,
                    depth as int,
                    jview_fields(fields@),
                ),
                sp_value(s, pos as int, depth as int) == (match sp_obj_items(
                    s,
                    p1 as int,
                    depth as int,
                    Seq::empty(),
                ) {
                    None => None,
                    Some((fs, q)) => Some((JsonV::Obj(fs), q)),
                }),
            decreases s.len() - p,
        {
            if p >= chars.len() || chars[p] != '"' {
                return parse_err("expected an object key");
            }
            let (key, p2) = match parse_string_body(chars, p + 1) {
                Ok(x) => x,
                Err(m) => {
                    return Err(m);
                },
            };
            let p3 = skip_ws(chars, p2);
            if p3 >= chars.len() || chars[p3] != ':' {
                return parse_err("expected a colon");
            }
            let p4 = skip_ws(chars, p3 + 1);
            let (value, p5) = match parse_value(chars, p4, depth - 1) {
                Ok(x) => x,
                Err(m) => {
                    return Err(m);
                },
            };
            let p6 = skip_ws(chars, p5);
            if p6 >= chars.len() {
                return parse_err("unterminated object");
            }
            if chars[p6] == '}' {
                proof {
                    lemma_jview_fields_push(fields@, key, value);
                }
                fields.push((key, value));
                return Ok((Json::Obj(fields), p6 + 1));
            }
            if chars[p6] != ',' {
                return parse_err("expected a comma or a closing brace");
            }
            let p7 = skip_ws(chars, p6 + 1);
            if p7 <= p {
                return parse_err("unterminated object");
            }
            proof {
                lemma_jview_fields_push(fields@, key, value);
            }
            fields.push((key, value));
            p = p7;
        }
    } else {
        parse_err("unexpected character")
    }
}

/// The nesting depth the parser accepts, matching the usual recursion
/// limit of JSON readers.
pub const MAX_JSON_DEPTH: u64 = 128;

/// Parses a complete JSON document: one value, surrounded by nothing but
/// whitespace. It succeeds exactly on the texts `json_doc` gives a tree
/// for, and the parsed tree denotes exactly that tree; the message names
/// the first offense for anything else.
pub fn parse_json(text: &str) -> (r: Result<Json, String>)
    ensures
        r is Ok <==> json_doc(text@) is Some,
        r matches Ok(j) ==> json_doc(text@) == Some(jview(j)),
{
    let chars = text_chars(text);
    let p0 = skip_ws(&chars, 0);
    let (v, p1) = match parse_value(&chars, p0, MAX_JSON_DEPTH) {
        Ok(x) => x,
        Err(m) => {
            return Err(m);
        },
    };
    let p2 = skip_ws(&chars, p1);
    if p2 < chars.len() {
        return parse_err("trailing characters after the value");
    }
    Ok(v)
}

} // verus!
