//! A small JSON value model with a serializer and a parser, proved inverse
//! to each other on every value the serializer can produce.
//!
//! The model covers what the wire schema needs: objects, arrays, strings,
//! unsigned 64-bit numbers, booleans and null. The parser is tolerant the
//! way a schema decoder must be: it skips whitespace between tokens, takes
//! object members in any order, and understands the escape sequences of
//! standard JSON, including surrogate pairs. It does not accept numbers
//! with a sign, a fraction or an exponent, which never occur in this
//! protocol, and it rejects input nested deeper than [`JSON_MAX_DEPTH`].

use vstd::prelude::*;

verus! {

/// Nesting depth beyond which the parser refuses input, so that its
/// recursion cannot exhaust the stack on hostile input.
pub const JSON_MAX_DEPTH: u32 = 128;

/// An executable JSON value. Objects and arrays keep their members in
/// order; an object may in principle hold a key twice, in which case a
/// lookup finds the first occurrence.
pub enum Json {
    Null,
    Bool(bool),
    UInt(u64),
    Str(String),
    Arr(Vec<Json>),
    Obj(Vec<(String, Json)>),
}

/// The mathematical form of a JSON value, used by all contracts.
pub enum JsonV {
    Null,
    Bool(bool),
    UInt(u64),
    Str(Seq<char>),
    Arr(Seq<JsonV>),
    Obj(Seq<(Seq<char>, JsonV)>),
}

pub open spec fn jview(j: Json) -> JsonV
    decreases j,
{
    match j {
        Json::Null => JsonV::Null,
        Json::Bool(b) => JsonV::Bool(b),
        Json::UInt(n) => JsonV::UInt(n),
        Json::Str(s) => JsonV::Str(s@),
        Json::Arr(items) => JsonV::Arr(jview_seq(items@)),
        Json::Obj(fields) => JsonV::Obj(jview_fields(fields@)),
    }
}

pub open spec fn jview_seq(s: Seq<Json>) -> Seq<JsonV>
    decreases s,
{
    if s.len() == 0 {
        Seq::empty()
    } else {
        seq![jview(s[0])] + jview_seq(s.drop_first())
    }
}

pub open spec fn jview_fields(s: Seq<(String, Json)>) -> Seq<(Seq<char>, JsonV)>
    decreases s,
{
    if s.len() == 0 {
        Seq::empty()
    } else {
        seq![(s[0].0@, jview(s[0].1))] + jview_fields(s.drop_first())
    }
}

impl View for Json {
    type V = JsonV;

    open spec fn view(&self) -> JsonV {
        jview(*self)
    }
}

/// Nesting depth of a JSON value: scalars sit at depth zero, and each
/// array or object adds one level above its deepest member.
pub open spec fn jdepth(v: JsonV) -> nat
    decreases v,
{
    match v {
        JsonV::Arr(items) => 1 + jdepth_seq(items),
        JsonV::Obj(fields) => 1 + jdepth_fields(fields),
        _ => 0,
    }
}

pub open spec fn jdepth_seq(s: Seq<JsonV>) -> nat
    decreases s,
{
    if s.len() == 0 {
        0
    } else {
        let hd = jdepth(s[0]);
        let tl = jdepth_seq(s.drop_first());
        if hd >= tl {
            hd
        } else {
            tl
        }
    }
}

pub open spec fn jdepth_fields(s: Seq<(Seq<char>, JsonV)>) -> nat
    decreases s,
{
    if s.len() == 0 {
        0
    } else {
        let hd = jdepth(s[0].1);
        let tl = jdepth_fields(s.drop_first());
        if hd >= tl {
            hd
        } else {
            tl
        }
    }
}

// ---------------------------------------------------------------------------
// Character classes
// ---------------------------------------------------------------------------

/// The insignificant whitespace of JSON.
pub open spec fn is_ws(c: char) -> bool {
    c == ' ' || c == '\t' || c == '\n' || c == '\r'
}

pub open spec fn is_digit(c: char) -> bool {
    48 <= c as u32 <= 57
}

pub open spec fn digit_val(c: char) -> nat {
    (c as u32 - 48) as nat
}

pub open spec fn digit_char(d: nat) -> char {
    ((48 + d) as u32) as char
}

/// Lower-case hexadecimal digit for a value below 16.
pub open spec fn hex_char(d: nat) -> char {
    if d < 10 {
        digit_char(d)
    } else {
        ((87 + d) as u32) as char
    }
}

pub open spec fn is_hex(c: char) -> bool {
    is_digit(c) || (97 <= c as u32 <= 102) || (65 <= c as u32 <= 70)
}

pub open spec fn hex_val(c: char) -> nat {
    if is_digit(c) {
        digit_val(c)
    } else if 97 <= c as u32 <= 102 {
        (c as u32 - 87) as nat
    } else {
        (c as u32 - 55) as nat
    }
}

// ---------------------------------------------------------------------------
// The serializer, in specification form
// ---------------------------------------------------------------------------

/// Decimal digits of `n`, most significant first, no leading zero.
pub open spec fn render_num(n: nat) -> Seq<char>
    decreases n,
{
    if n < 10 {
        seq![digit_char(n)]
    } else {
        render_num(n / 10) + seq![digit_char(n % 10)]
    }
}

/// How one character appears inside a JSON string: quote and backslash are
/// escaped, control characters take the `\u00xx` form, all else is itself.
pub open spec fn esc_char(c: char) -> Seq<char> {
    if c == '"' {
        seq!['\\', '"']
    } else if c == '\\' {
        seq!['\\', '\\']
    } else if (c as u32) < 32 {
        seq!['\\', 'u', '0', '0', hex_char((c as u32 / 16) as nat), hex_char(
            (c as u32 % 16) as nat,
        )]
    } else {
        seq![c]
    }
}

pub open spec fn esc_str(s: Seq<char>) -> Seq<char>
    decreases s,
{
    if s.len() == 0 {
        Seq::empty()
    } else {
        esc_char(s[0]) + esc_str(s.drop_first())
    }
}

pub open spec fn render_str(s: Seq<char>) -> Seq<char> {
    seq!['"'] + esc_str(s) + seq!['"']
}

/// The serialized text of a JSON value: minimal, with no whitespace.
pub open spec fn render(v: JsonV) -> Seq<char>
    decreases v,
{
    match v {
        JsonV::Null => seq!['n', 'u', 'l', 'l'],
        JsonV::Bool(b) => if b {
            seq!['t', 'r', 'u', 'e']
        } else {
            seq!['f', 'a', 'l', 's', 'e']
        },
        JsonV::UInt(n) => render_num(n as nat),
        JsonV::Str(s) => render_str(s),
        JsonV::Arr(items) => seq!['['] + render_items(items) + seq![']'],
        JsonV::Obj(fields) => seq!['{'] + render_members(fields) + seq!['}'],
    }
}

pub open spec fn render_items(s: Seq<JsonV>) -> Seq<char>
    decreases s,
{
    if s.len() == 0 {
        Seq::empty()
    } else if s.len() == 1 {
        render(s[0])
    } else {
        render(s[0]) + seq![','] + render_items(s.drop_first())
    }
}

pub open spec fn render_members(s: Seq<(Seq<char>, JsonV)>) -> Seq<char>
    decreases s,
{
    if s.len() == 0 {
        Seq::empty()
    } else if s.len() == 1 {
        render_str(s[0].0) + seq![':'] + render(s[0].1)
    } else {
        render_str(s[0].0) + seq![':'] + render(s[0].1) + seq![','] + render_members(
            s.drop_first(),
        )
    }
}

// ---------------------------------------------------------------------------
// The parser, in specification form
// ---------------------------------------------------------------------------
//
// Each function takes the whole text and a position, and yields what it
// recognized together with the position just after it, or nothing. The
// executable parser mirrors these functions exactly.

/// Prepend one recognized character to the result of parsing the rest of
/// a string body.
pub open spec fn sp_cons(c: char, rest: Option<(Seq<char>, int)>) -> Option<(Seq<char>, int)> {
    match rest {
        Some((t, j)) => Some((seq![c] + t, j)),
        None => None,
    }
}

/// Body of a JSON string, starting just after the opening quote; ends just
/// after the closing quote.
pub open spec fn sp_string(s: Seq<char>, i: int) -> Option<(Seq<char>, int)>
    decreases s.len() - i, 1nat,
{
    if !(0 <= i < s.len()) {
        None
    } else {
        let c = s[i];
        if c == '"' {
            Some((Seq::empty(), i + 1))
        } else if c == '\\' {
            if i + 2 > s.len() {
                None
            } else {
                let e = s[i + 1];
                if e == '"' || e == '\\' || e == '/' {
                    sp_cons(e, sp_string(s, i + 2))
                } else if e == 'b' {
                    sp_cons('\u{8}', sp_string(s, i + 2))
                } else if e == 'f' {
                    sp_cons('\u{c}', sp_string(s, i + 2))
                } else if e == 'n' {
                    sp_cons('\n', sp_string(s, i + 2))
                } else if e == 'r' {
                    sp_cons('\r', sp_string(s, i + 2))
                } else if e == 't' {
                    sp_cons('\t', sp_string(s, i + 2))
                } else if e == 'u' {
                    sp_unicode_escape(s, i)
                } else {
                    None
                }
            }
        } else if (c as u32) < 32 {
            None
        } else {
            sp_cons(c, sp_string(s, i + 1))
        }
    }
}

/// Four hexadecimal digits starting at `i`, when all are present.
pub open spec fn hex4_at(s: Seq<char>, i: int) -> bool {
    i + 4 <= s.len() && is_hex(s[i]) && is_hex(s[i + 1]) && is_hex(s[i + 2]) && is_hex(s[i + 3])
}

pub open spec fn hex4_val(s: Seq<char>, i: int) -> nat {
    hex_val(s[i]) * 0x1000 + hex_val(s[i + 1]) * 0x100 + hex_val(s[i + 2]) * 0x10 + hex_val(
        s[i + 3],
    )
}

/// A `\u` escape at position `i` (where `s[i] == '\\'` and `s[i+1] == 'u'`):
/// either one scalar in the basic plane, or a surrogate pair.
pub open spec fn sp_unicode_escape(s: Seq<char>, i: int) -> Option<(Seq<char>, int)>
    decreases s.len() - i, 0nat,
    when 0 <= i
{
    if !hex4_at(s, i + 2) {
        None
    } else {
        let v = hex4_val(s, i + 2);
        if v < 0xD800 || v >= 0xE000 {
            sp_cons((v as u32) as char, sp_string(s, i + 6))
        } else if v < 0xDC00 {
            // High surrogate: a low surrogate escape must follow.
            if i + 8 <= s.len() && s[i + 6] == '\\' && s[i + 7] == 'u' && hex4_at(s, i + 8) {
                let lo = hex4_val(s, i + 8);
                if 0xDC00 <= lo < 0xE000 {
                    let scalar = 0x10000 + (v - 0xD800) * 0x400 + (lo - 0xDC00);
                    sp_cons((scalar as u32) as char, sp_string(s, i + 12))
                } else {
                    None
                }
            } else {
                None
            }
        } else {
            None
        }
    }
}

/// Decimal digits folded left to right onto `acc`; stops at the first
/// character that is not a digit, fails on overflow of `u64`.
pub open spec fn sp_digits(s: Seq<char>, i: int, acc: u64) -> Option<(u64, int)>
    decreases s.len() - i,
{
    if 0 <= i < s.len() && is_digit(s[i]) {
        let dv = digit_val(s[i]);
        if acc * 10 + dv <= u64::MAX {
            sp_digits(s, i + 1, (acc * 10 + dv) as u64)
        } else {
            None
        }
    } else {
        Some((acc, i))
    }
}

/// One JSON value, leading whitespace allowed; `d` bounds how deep arrays
/// and objects may nest below it.
pub open spec fn sp_value(s: Seq<char>, i: int, d: nat) -> Option<(JsonV, int)>
    decreases s.len() - i, 0nat,
{
    if !(0 <= i < s.len()) {
        None
    } else {
        let c = s[i];
        if is_ws(c) {
            sp_value(s, i + 1, d)
        } else if c == 'n' {
            if i + 4 <= s.len() && s[i + 1] == 'u' && s[i + 2] == 'l' && s[i + 3] == 'l' {
                Some((JsonV::Null, i + 4))
            } else {
                None
            }
        } else if c == 't' {
            if i + 4 <= s.len() && s[i + 1] == 'r' && s[i + 2] == 'u' && s[i + 3] == 'e' {
                Some((JsonV::Bool(true), i + 4))
            } else {
                None
            }
        } else if c == 'f' {
            if i + 5 <= s.len() && s[i + 1] == 'a' && s[i + 2] == 'l' && s[i + 3] == 's' && s[i
                + 4] == 'e' {
                Some((JsonV::Bool(false), i + 5))
            } else {
                None
            }
        } else if c == '"' {
            match sp_string(s, i + 1) {
                Some((t, j)) => Some((JsonV::Str(t), j)),
                None => None,
            }
        } else if c == '[' {
            if d == 0 {
                None
            } else {
                match sp_arr(s, i + 1, (d - 1) as nat) {
                    Some((items, j)) => Some((JsonV::Arr(items), j)),
                    None => None,
                }
            }
        } else if c == '{' {
            if d == 0 {
                None
            } else {
                match sp_obj(s, i + 1, (d - 1) as nat) {
                    Some((fields, j)) => Some((JsonV::Obj(fields), j)),
                    None => None,
                }
            }
        } else if is_digit(c) {
            match sp_digits(s, i, 0) {
                Some((n, j)) => Some((JsonV::UInt(n), j)),
                None => None,
            }
        } else {
            None
        }
    }
}

/// Array items after the opening bracket: empty array, or first item and
/// what follows; ends just after the closing bracket.
pub open spec fn sp_arr(s: Seq<char>, i: int, d: nat) -> Option<(Seq<JsonV>, int)>
    decreases s.len() - i, 1nat,
{
    if !(0 <= i < s.len()) {
        None
    } else if is_ws(s[i]) {
        sp_arr(s, i + 1, d)
    } else if s[i] == ']' {
        Some((Seq::empty(), i + 1))
    } else {
        match sp_value(s, i, d) {
            Some((v, j2)) => if i < j2 <= s.len() {
                match sp_arr_rest(s, j2, d) {
                    Some((rest, j3)) => Some((seq![v] + rest, j3)),
                    None => None,
                }
            } else {
                None
            },
            None => None,
        }
    }
}

/// After one array item: a comma and further items, or the closing bracket.
pub open spec fn sp_arr_rest(s: Seq<char>, i: int, d: nat) -> Option<(Seq<JsonV>, int)>
    decreases s.len() - i, 1nat,
{
    if !(0 <= i < s.len()) {
        None
    } else if is_ws(s[i]) {
        sp_arr_rest(s, i + 1, d)
    } else if s[i] == ']' {
        Some((Seq::empty(), i + 1))
    } else if s[i] == ',' {
        match sp_value(s, i + 1, d) {
            Some((v, j2)) => if i < j2 <= s.len() {
                match sp_arr_rest(s, j2, d) {
                    Some((rest, j3)) => Some((seq![v] + rest, j3)),
                    None => None,
                }
            } else {
                None
            },
            None => None,
        }
    } else {
        None
    }
}

/// Object members after the opening brace: empty object, or the members.
pub open spec fn sp_obj(s: Seq<char>, i: int, d: nat) -> Option<(Seq<(Seq<char>, JsonV)>, int)>
    decreases s.len() - i, 2nat,
{
    if !(0 <= i < s.len()) {
        None
    } else if is_ws(s[i]) {
        sp_obj(s, i + 1, d)
    } else if s[i] == '}' {
        Some((Seq::empty(), i + 1))
    } else {
        sp_member(s, i, d)
    }
}

/// One `"key": value` member followed by whatever members remain; ends just
/// after the closing brace.
pub open spec fn sp_member(s: Seq<char>, i: int, d: nat) -> Option<(Seq<(Seq<char>, JsonV)>, int)>
    decreases s.len() - i, 1nat,
{
    if !(0 <= i < s.len()) {
        None
    } else if is_ws(s[i]) {
        sp_member(s, i + 1, d)
    } else if s[i] == '"' {
        match sp_string(s, i + 1) {
            Some((key, j2)) => if i < j2 <= s.len() {
                match sp_colon_value(s, j2, d) {
                    Some((v, j3)) => if i < j3 <= s.len() {
                        match sp_obj_rest(s, j3, d) {
                            Some((rest, j4)) => Some((seq![(key, v)] + rest, j4)),
                            None => None,
                        }
                    } else {
                        None
                    },
                    None => None,
                }
            } else {
                None
            },
            None => None,
        }
    } else {
        None
    }
}

/// A colon, then the member's value.
pub open spec fn sp_colon_value(s: Seq<char>, i: int, d: nat) -> Option<(JsonV, int)>
    decreases s.len() - i, 1nat,
{
    if !(0 <= i < s.len()) {
        None
    } else if is_ws(s[i]) {
        sp_colon_value(s, i + 1, d)
    } else if s[i] == ':' {
        sp_value(s, i + 1, d)
    } else {
        None
    }
}

/// After one member: a comma and further members, or the closing brace.
pub open spec fn sp_obj_rest(s: Seq<char>, i: int, d: nat) -> Option<
    (Seq<(Seq<char>, JsonV)>, int),
>
    decreases s.len() - i, 2nat,
{
    if !(0 <= i < s.len()) {
        None
    } else if is_ws(s[i]) {
        sp_obj_rest(s, i + 1, d)
    } else if s[i] == '}' {
        Some((Seq::empty(), i + 1))
    } else if s[i] == ',' {
        sp_member(s, i + 1, d)
    } else {
        None
    }
}

/// Nothing but whitespace from `i` to the end.
pub open spec fn sp_ws_only(s: Seq<char>, i: int) -> bool
    decreases s.len() - i,
{
    if 0 <= i < s.len() {
        is_ws(s[i]) && sp_ws_only(s, i + 1)
    } else {
        true
    }
}

/// What a whole text means: one JSON value with nothing but whitespace
/// around it, nested at most [`JSON_MAX_DEPTH`] levels deep.
pub open spec fn sp_json(s: Seq<char>) -> Option<JsonV> {
    match sp_value(s, 0, JSON_MAX_DEPTH as nat) {
        Some((v, j)) => if sp_ws_only(s, j) {
            Some(v)
        } else {
            None
        },
        None => None,
    }
}

} // verus!
