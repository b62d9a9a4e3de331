//! Proof that the JSON parser inverts the serializer: parsing the rendered
//! text of any value, nested no deeper than the parser's limit, gives back
//! exactly that value.

use vstd::prelude::*;

use crate::json::{
    JsonV, jdepth, jdepth_fields, jdepth_seq, digit_char, digit_val, esc_char, esc_str,
    hex4_at, hex4_val, hex_char, hex_val, is_digit, is_hex, is_ws, render, render_items,
    render_members, render_num, render_str, sp_arr, sp_arr_rest, sp_cons, sp_digits, sp_json,
    sp_member, sp_obj, sp_obj_rest, sp_string, sp_unicode_escape, sp_value,
    sp_colon_value, JSON_MAX_DEPTH,
};

verus! {

broadcast use vstd::utf8::char_u32_cast, vstd::utf8::char_is_scalar;

/// `r` stands written in `s` at position `i`.
pub open spec fn region(s: Seq<char>, i: int, r: Seq<char>) -> bool {
    &&& 0 <= i
    &&& i + r.len() <= s.len()
    &&& s.subrange(i, i + r.len()) == r
}

/// Each character of a region can be read off the whole text.
proof fn lemma_region_index(s: Seq<char>, i: int, r: Seq<char>)
    requires
        region(s, i, r),
    ensures
        forall|k: int| 0 <= k < r.len() ==> s[i + k] == #[trigger] r[k],
{
    assert forall|k: int| 0 <= k < r.len() implies s[i + k] == #[trigger] r[k] by {
        assert(r[k] == s.subrange(i, i + r.len() as int)[k]);
    }
}

/// A slice of a region is itself a region.
proof fn lemma_region_shift(s: Seq<char>, i: int, r: Seq<char>, a: int, b: int)
    requires
        region(s, i, r),
        0 <= a <= b <= r.len(),
    ensures
        region(s, i + a, r.subrange(a, b)),
{
    lemma_region_index(s, i, r);
    assert(s.subrange(i + a, i + b) =~= r.subrange(a, b)) by {
        assert forall|k: int| 0 <= k < b - a implies s.subrange(i + a, i + b)[k] == r.subrange(
            a,
            b,
        )[k] by {
            assert(s[i + (a + k)] == r[a + k]);
        }
    }
}

// ---------------------------------------------------------------------------
// Digits
// ---------------------------------------------------------------------------

/// Every digit character carries its value and its character class.
proof fn lemma_digit_char(d: nat)
    requires
        d < 10,
    ensures
        is_digit(digit_char(d)),
        digit_val(digit_char(d)) == d,
        !is_ws(digit_char(d)),
{
}

/// Every hexadecimal digit character carries its value and class.
proof fn lemma_hex_char(d: nat)
    requires
        d < 16,
    ensures
        is_hex(hex_char(d)),
        hex_val(hex_char(d)) == d,
{
    if d < 10 {
        lemma_digit_char(d);
    }
}

/// The decimal text of a number is never empty and holds digits only.
proof fn lemma_render_num_digits(n: nat)
    ensures
        render_num(n).len() >= 1,
        forall|k: int| 0 <= k < render_num(n).len() ==> is_digit(#[trigger] render_num(n)[k]),
    decreases n,
{
    if n < 10 {
        lemma_digit_char(n);
    } else {
        lemma_render_num_digits(n / 10);
        lemma_digit_char(n % 10);
        assert forall|k: int| 0 <= k < render_num(n).len() implies is_digit(
            #[trigger] render_num(n)[k],
        ) by {
            if k < render_num(n / 10).len() {
                assert(render_num(n)[k] == render_num(n / 10)[k]);
            } else {
                assert(render_num(n)[k] == digit_char(n % 10));
            }
        }
    }
}

/// The value accumulated when digits are folded onto `acc` left to right.
spec fn dv_left(t: Seq<char>, acc: nat) -> nat
    decreases t.len(),
{
    if t.len() == 0 {
        acc
    } else {
        dv_left(t.drop_first(), acc * 10 + digit_val(t[0]))
    }
}

proof fn lemma_dv_left_ge(t: Seq<char>, acc: nat)
    ensures
        dv_left(t, acc) >= acc,
    decreases t.len(),
{
    if t.len() > 0 {
        lemma_dv_left_ge(t.drop_first(), acc * 10 + digit_val(t[0]));
    }
}

proof fn lemma_dv_left_append(a: Seq<char>, b: Seq<char>, acc: nat)
    ensures
        dv_left(a + b, acc) == dv_left(b, dv_left(a, acc)),
    decreases a.len(),
{
    if a.len() == 0 {
        assert(a + b =~= b);
    } else {
        assert((a + b).drop_first() =~= a.drop_first() + b);
        assert((a + b)[0] == a[0]);
        lemma_dv_left_append(a.drop_first(), b, acc * 10 + digit_val(a[0]));
    }
}

/// Folding the rendered digits of `n` onto zero gives back `n`.
proof fn lemma_dv_render(n: nat)
    ensures
        dv_left(render_num(n), 0) == n,
    decreases n,
{
    reveal_with_fuel(dv_left, 3);
    if n < 10 {
        lemma_digit_char(n);
        assert(render_num(n) == seq![digit_char(n)]);
        assert(render_num(n).drop_first() =~= Seq::<char>::empty());
    } else {
        let a = render_num(n / 10);
        let d = seq![digit_char(n % 10)];
        lemma_dv_render(n / 10);
        lemma_dv_left_append(a, d, 0);
        lemma_digit_char(n % 10);
        assert(d.drop_first() =~= Seq::<char>::empty());
        assert(dv_left(d, n / 10) == dv_left(Seq::<char>::empty(), (n / 10) * 10 + (n % 10)));
        assert(dv_left(d, n / 10) == (n / 10) * 10 + (n % 10));
    }
}

/// The parser's digit fold agrees with `dv_left` on any run of digits that
/// ends the input or is followed by a non-digit, as long as the value fits.
proof fn lemma_sp_digits(s: Seq<char>, i: int, j: int, acc: u64)
    requires
        0 <= i <= j <= s.len(),
        forall|k: int| i <= k < j ==> is_digit(#[trigger] s[k]),
        j == s.len() || !is_digit(s[j]),
        dv_left(s.subrange(i, j), acc as nat) <= u64::MAX,
    ensures
        sp_digits(s, i, acc) == Some((dv_left(s.subrange(i, j), acc as nat) as u64, j)),
    decreases j - i,
{
    let t = s.subrange(i, j);
    if i == j {
        assert(t.len() == 0);
    } else {
        assert(is_digit(s[i]));
        let dv = digit_val(s[i]);
        let acc2 = acc as nat * 10 + dv;
        assert(t[0] == s[i]);
        assert(t.drop_first() =~= s.subrange(i + 1, j));
        assert(dv_left(t, acc as nat) == dv_left(s.subrange(i + 1, j), acc2));
        lemma_dv_left_ge(s.subrange(i + 1, j), acc2);
        assert(acc2 <= u64::MAX);
        lemma_sp_digits(s, i + 1, j, acc2 as u64);
    }
}

// ---------------------------------------------------------------------------
// Strings
// ---------------------------------------------------------------------------

/// Parsing the escaped text of `t`, a closing quote appended, yields `t`.
proof fn lemma_rt_string(t: Seq<char>, s: Seq<char>, i: int)
    requires
        region(s, i, esc_str(t) + seq!['"']),
    ensures
        sp_string(s, i) == Some((t, i + esc_str(t).len() + 1)),
    decreases t.len(),
{
    let reg = esc_str(t) + seq!['"'];
    lemma_region_index(s, i, reg);
    if t.len() == 0 {
        assert(s[i + 0] == reg[0]);
        assert(s[i] == '"');
    } else {
        let c = t[0];
        let rest = t.drop_first();
        let e = esc_char(c);
        assert(esc_str(t) == e + esc_str(rest));
        let el = e.len() as int;
        // The region that remains for the rest of the string body.
        lemma_region_shift(s, i, reg, el, reg.len() as int);
        assert(reg.subrange(el, reg.len() as int) =~= esc_str(rest) + seq!['"']);
        lemma_rt_string(rest, s, i + el);
        assert(seq![c] + rest =~= t);
        assert forall|k: int| 0 <= k < el implies s[i + k] == #[trigger] e[k] by {
            assert(s[i + k] == reg[k]);
            assert(reg[k] == esc_str(t)[k]);
            assert(esc_str(t)[k] == e[k]);
        }
        if c == '"' {
            assert(s[i + 0] == '\\' && s[i + 1] == '"');
            assert(sp_string(s, i) == sp_cons(c, sp_string(s, i + 2)));
        } else if c == '\\' {
            assert(s[i + 0] == '\\' && s[i + 1] == '\\');
            assert(sp_string(s, i) == sp_cons(c, sp_string(s, i + 2)));
        } else if (c as u32) < 32 {
            let hi = (c as u32 / 16) as nat;
            let lo = (c as u32 % 16) as nat;
            assert(s[i + 0] == '\\' && s[i + 1] == 'u' && s[i + 2] == '0' && s[i + 3] == '0' && s[i
                + 4] == hex_char(hi) && s[i + 5] == hex_char(lo));
            lemma_hex_char(hi);
            lemma_hex_char(lo);
            assert(hex4_at(s, i + 2));
            let v = hex4_val(s, i + 2);
            assert(hex_val('0') == 0);
            assert(v == hi * 16 + lo);
            assert(v == c as u32);
            assert(v < 0xD800);
            vstd::utf8::char_u32_cast(c, v as u32);
            assert((v as u32) as char == c);
            assert(sp_string(s, i) == sp_unicode_escape(s, i));
            assert(sp_unicode_escape(s, i) == sp_cons(c, sp_string(s, i + 6)));
        } else {
            assert(s[i + 0] == c);
            assert(sp_string(s, i) == sp_cons(c, sp_string(s, i + 1)));
        }
    }
}

// ---------------------------------------------------------------------------
// Values
// ---------------------------------------------------------------------------

/// The first character of any rendered value: never whitespace, never a
/// closing bracket, brace, comma or colon; and the text is never empty.
proof fn lemma_render_head(v: JsonV)
    ensures
        render(v).len() >= 1,
        !is_ws(render(v)[0]),
        render(v)[0] != ']',
        render(v)[0] != '}',
        render(v)[0] != ',',
        render(v)[0] != ':',
{
    match v {
        JsonV::UInt(n) => {
            lemma_render_num_digits(n as nat);
            assert(is_digit(render(v)[0]));
        },
        _ => {},
    }
}

/// The text of the remaining items of an array, after the first item:
/// either just the closing bracket, or a comma, the items, and the bracket.
pub open spec fn arr_rest_text(rest: Seq<JsonV>) -> Seq<char> {
    if rest.len() == 0 {
        seq![']']
    } else {
        seq![','] + render_items(rest) + seq![']']
    }
}

/// The text of the remaining members of an object, after one member.
pub open spec fn obj_rest_text(rest: Seq<(Seq<char>, JsonV)>) -> Seq<char> {
    if rest.len() == 0 {
        seq!['}']
    } else {
        seq![','] + render_members(rest) + seq!['}']
    }
}

/// Parsing the rendered text of a value, embedded in any longer text and
/// not followed directly by a digit, yields exactly that value.
proof fn lemma_rt_value(v: JsonV, s: Seq<char>, i: int, d: nat)
    requires
        region(s, i, render(v)),
        jdepth(v) <= d,
        i + render(v).len() == s.len() || !is_digit(s[i + render(v).len()]),
    ensures
        sp_value(s, i, d) == Some((v, i + render(v).len())),
    decreases v, 0nat,
{
    let r = render(v);
    let l = r.len() as int;
    lemma_region_index(s, i, r);
    lemma_render_head(v);
    assert(s[i + 0] == r[0]);
    match v {
        JsonV::Null => {
            assert(s[i + 0] == 'n' && s[i + 1] == 'u' && s[i + 2] == 'l' && s[i + 3] == 'l');
        },
        JsonV::Bool(b) => {
            if b {
                assert(s[i + 0] == 't' && s[i + 1] == 'r' && s[i + 2] == 'u' && s[i + 3] == 'e');
            } else {
                assert(s[i + 0] == 'f' && s[i + 1] == 'a' && s[i + 2] == 'l' && s[i + 3] == 's'
                    && s[i + 4] == 'e');
            }
        },
        JsonV::UInt(n) => {
            lemma_render_num_digits(n as nat);
            assert(r == render_num(n as nat));
            assert(is_digit(s[i + 0]));
            assert forall|k: int| i <= k < i + l implies is_digit(#[trigger] s[k]) by {
                assert(s[i + (k - i)] == r[k - i]);
            }
            assert(s.subrange(i, i + l) == render_num(n as nat));
            lemma_dv_render(n as nat);
            lemma_sp_digits(s, i, i + l, 0);
            assert(sp_digits(s, i, 0) == Some((n, i + l)));
        },
        JsonV::Str(t) => {
            assert(s[i + 0] == '"');
            lemma_region_shift(s, i, r, 1, l);
            assert(r.subrange(1, l) =~= esc_str(t) + seq!['"']);
            lemma_rt_string(t, s, i + 1);
        },
        JsonV::Arr(items) => {
            assert(s[i + 0] == '[');
            assert(jdepth(v) >= 1);
            lemma_region_shift(s, i, r, 1, l);
            assert(r.subrange(1, l) =~= render_items(items) + seq![']']);
            lemma_rt_arr_first(items, s, i + 1, (d - 1) as nat);
        },
        JsonV::Obj(fields) => {
            assert(s[i + 0] == '{');
            assert(jdepth(v) >= 1);
            lemma_region_shift(s, i, r, 1, l);
            assert(r.subrange(1, l) =~= render_members(fields) + seq!['}']);
            lemma_rt_obj_first(fields, s, i + 1, (d - 1) as nat);
        },
    }
}

/// Parsing just after an opening bracket yields the rendered items.
proof fn lemma_rt_arr_first(items: Seq<JsonV>, s: Seq<char>, i: int, d: nat)
    requires
        region(s, i, render_items(items) + seq![']']),
        jdepth_seq(items) <= d,
    ensures
        sp_arr(s, i, d) == Some((items, i + render_items(items).len() + 1)),
    decreases items, 1nat,
{
    let reg = render_items(items) + seq![']'];
    let l = reg.len() as int;
    lemma_region_index(s, i, reg);
    if items.len() == 0 {
        assert(s[i + 0] == reg[0]);
        assert(s[i] == ']');
    } else {
        let v0 = items[0];
        let rest = items.drop_first();
        let r0 = render(v0);
        let vl = r0.len() as int;
        let art = arr_rest_text(rest);
        assert(reg =~= r0 + art) by {
            if items.len() == 1 {
                assert(render_items(items) == r0);
            } else {
                assert(render_items(items) == r0 + seq![','] + render_items(rest));
            }
        }
        lemma_render_head(v0);
        assert(s[i + 0] == reg[0]);
        assert(reg[0] == r0[0]);
        // The first item parses by induction; what follows it is the comma
        // or bracket of the remainder text, never a digit.
        lemma_region_shift(s, i, reg, 0, vl);
        assert(reg.subrange(0, vl) =~= r0);
        assert(s[i + vl] == reg[vl]);
        assert(reg[vl] == art[0]);
        assert(art[0] == ']' || art[0] == ',');
        assert(jdepth(v0) <= jdepth_seq(items));
        lemma_rt_value(v0, s, i, d);
        let j2 = i + vl;
        lemma_region_shift(s, i, reg, vl, l);
        assert(reg.subrange(vl, l) =~= art);
        assert(jdepth_seq(rest) <= jdepth_seq(items));
        lemma_rt_arr_rest(rest, s, j2, d);
        assert(seq![v0] + rest =~= items);
    }
}

/// Parsing after one array item consumes the comma-separated remainder and
/// the closing bracket.
proof fn lemma_rt_arr_rest(rest: Seq<JsonV>, s: Seq<char>, i: int, d: nat)
    requires
        region(s, i, arr_rest_text(rest)),
        jdepth_seq(rest) <= d,
    ensures
        sp_arr_rest(s, i, d) == Some((rest, i + arr_rest_text(rest).len())),
    decreases rest, 1nat,
{
    let reg = arr_rest_text(rest);
    let l = reg.len() as int;
    lemma_region_index(s, i, reg);
    assert(s[i + 0] == reg[0]);
    if rest.len() == 0 {
        assert(s[i] == ']');
    } else {
        assert(s[i] == ',');
        let v0 = rest[0];
        let tail = rest.drop_first();
        let r0 = render(v0);
        let vl = r0.len() as int;
        let att = arr_rest_text(tail);
        assert(reg =~= seq![','] + r0 + att) by {
            if rest.len() == 1 {
                assert(render_items(rest) == r0);
            } else {
                assert(render_items(rest) == r0 + seq![','] + render_items(tail));
            }
        }
        lemma_region_shift(s, i, reg, 1, 1 + vl);
        assert(reg.subrange(1, 1 + vl) =~= r0);
        assert(s[i + (1 + vl)] == reg[1 + vl]);
        assert(reg[1 + vl] == att[0]);
        assert(att[0] == ']' || att[0] == ',');
        lemma_render_head(v0);
        assert(jdepth(v0) <= jdepth_seq(rest));
        lemma_rt_value(v0, s, i + 1, d);
        let j2 = i + 1 + vl;
        lemma_region_shift(s, i, reg, 1 + vl, l);
        assert(reg.subrange(1 + vl, l) =~= att);
        assert(jdepth_seq(tail) <= jdepth_seq(rest));
        lemma_rt_arr_rest(tail, s, j2, d);
        assert(seq![v0] + tail =~= rest);
    }
}

/// Parsing just after an opening brace yields the rendered members.
proof fn lemma_rt_obj_first(fields: Seq<(Seq<char>, JsonV)>, s: Seq<char>, i: int, d: nat)
    requires
        region(s, i, render_members(fields) + seq!['}']),
        jdepth_fields(fields) <= d,
    ensures
        sp_obj(s, i, d) == Some((fields, i + render_members(fields).len() + 1)),
    decreases fields, 2nat,
{
    let reg = render_members(fields) + seq!['}'];
    lemma_region_index(s, i, reg);
    assert(s[i + 0] == reg[0]);
    if fields.len() == 0 {
        assert(s[i] == '}');
    } else {
        assert(reg[0] == render_str(fields[0].0)[0]);
        assert(s[i] == '"');
        lemma_rt_member(fields, s, i, d);
    }
}

/// Parsing one member and whatever follows it consumes the rendered members
/// and the closing brace.
proof fn lemma_rt_member(fields: Seq<(Seq<char>, JsonV)>, s: Seq<char>, i: int, d: nat)
    requires
        fields.len() >= 1,
        region(s, i, render_members(fields) + seq!['}']),
        jdepth_fields(fields) <= d,
    ensures
        sp_member(s, i, d) == Some((fields, i + render_members(fields).len() + 1)),
    decreases fields, 1nat,
{
    let reg = render_members(fields) + seq!['}'];
    let l = reg.len() as int;
    lemma_region_index(s, i, reg);
    let key = fields[0].0;
    let v0 = fields[0].1;
    let rest = fields.drop_first();
    let ks = render_str(key);
    let kl = ks.len() as int;
    let r0 = render(v0);
    let vl = r0.len() as int;
    let ort = obj_rest_text(rest);
    assert(reg =~= ks + seq![':'] + r0 + ort) by {
        if fields.len() == 1 {
            assert(render_members(fields) == ks + seq![':'] + r0);
        } else {
            assert(render_members(fields) == ks + seq![':'] + r0 + seq![','] + render_members(
                rest,
            ));
        }
    }
    assert(s[i + 0] == reg[0]);
    assert(reg[0] == '"');
    // The key string.
    lemma_region_shift(s, i, reg, 1, kl);
    assert(reg.subrange(1, kl) =~= esc_str(key) + seq!['"']);
    lemma_rt_string(key, s, i + 1);
    let j2 = i + kl;
    assert(s[i + kl] == reg[kl]);
    assert(reg[kl] == ':');
    // The member's value.
    lemma_region_shift(s, i, reg, kl + 1, kl + 1 + vl);
    assert(reg.subrange(kl + 1, kl + 1 + vl) =~= r0);
    assert(s[i + (kl + 1 + vl)] == reg[kl + 1 + vl]);
    assert(reg[kl + 1 + vl] == ort[0]);
    assert(ort[0] == '}' || ort[0] == ',');
    lemma_render_head(v0);
    assert(jdepth(v0) <= jdepth_fields(fields));
    lemma_rt_value(v0, s, j2 + 1, d);
    let j3 = j2 + 1 + vl;
    lemma_region_shift(s, i, reg, kl + 1 + vl, l);
    assert(reg.subrange(kl + 1 + vl, l) =~= ort);
    assert(jdepth_fields(rest) <= jdepth_fields(fields));
    lemma_rt_obj_rest(rest, s, j3, d);
    assert(seq![(key, v0)] + rest =~= fields);
    assert(ks == seq!['"'] + esc_str(key) + seq!['"']);
    assert(kl == esc_str(key).len() + 2);
    assert(sp_string(s, i + 1) == Some((key, i + kl)));
    assert(l == kl + 1 + vl + ort.len());
    let j3e = j2 + 1 + vl;
    assert(sp_colon_value(s, j2, d) == Some((v0, j3e)));
    assert(sp_obj_rest(s, j3, d) == Some((rest, j3 + ort.len() as int)));
    assert(sp_member(s, i, d) == Some((seq![(key, v0)] + rest, j3 + ort.len() as int)));
}

/// Parsing after one member consumes the comma-separated remainder and the
/// closing brace.
proof fn lemma_rt_obj_rest(rest: Seq<(Seq<char>, JsonV)>, s: Seq<char>, i: int, d: nat)
    requires
        region(s, i, obj_rest_text(rest)),
        jdepth_fields(rest) <= d,
    ensures
        sp_obj_rest(s, i, d) == Some((rest, i + obj_rest_text(rest).len())),
    decreases rest, 2nat,
{
    let reg = obj_rest_text(rest);
    let l = reg.len() as int;
    lemma_region_index(s, i, reg);
    assert(s[i + 0] == reg[0]);
    if rest.len() == 0 {
        assert(s[i] == '}');
    } else {
        assert(s[i] == ',');
        lemma_region_shift(s, i, reg, 1, l);
        assert(reg.subrange(1, l) =~= render_members(rest) + seq!['}']);
        lemma_rt_member(rest, s, i + 1, d);
    }
}

/// Whatever the serializer writes, the parser reads back unchanged.
pub proof fn lemma_json_round_trip(v: JsonV)
    requires
        jdepth(v) <= JSON_MAX_DEPTH,
    ensures
        sp_json(render(v)) == Some(v),
{
    let s = render(v);
    lemma_render_head(v);
    assert(s.subrange(0, s.len() as int) =~= s);
    lemma_rt_value(v, s, 0, JSON_MAX_DEPTH as nat);
}

} // verus!
