//! The executable JSON serializer and parser. Each function's contract ties
//! it exactly to the specification-level `render` and `sp_*` functions of
//! [`crate::json`], so the round-trip proof carries over to the running code.

use vstd::prelude::*;

use crate::json::{Json, JsonV, jview, jview_seq, jview_fields, digit_char, digit_val, esc_char, esc_str, hex4_at, hex4_val, hex_char, hex_val, is_digit, is_hex, is_ws, render, render_items, render_members, render_num, render_str, sp_arr, sp_arr_rest, sp_cons, sp_digits, sp_json, sp_member, sp_obj, sp_obj_rest, sp_string, sp_unicode_escape, sp_value, sp_ws_only, sp_colon_value, JSON_MAX_DEPTH};
use crate::text::{str_to_chars, chars_to_string, char_from_u32};

verus! {

broadcast use vstd::utf8::char_u32_cast, vstd::utf8::char_is_scalar;

// ---------------------------------------------------------------------------
// Helper lemmas for walking sequences front to back
// ---------------------------------------------------------------------------

pub proof fn lemma_jview_seq_push(s: Seq<Json>, x: Json)
    ensures
        jview_seq(s.push(x)) =~= jview_seq(s) + seq![jview(x)],
    decreases s.len(),
{
    if s.len() == 0 {
        assert(s.push(x)[0] == x);
        assert(s.push(x).drop_first() =~= Seq::<Json>::empty());
        assert(jview_seq(s.push(x)) == seq![jview(x)] + jview_seq(Seq::<Json>::empty()));
        assert(seq![jview(x)] + Seq::<JsonV>::empty() =~= seq![jview(x)]);
        assert(jview_seq(s) + seq![jview(x)] =~= seq![jview(x)]);
    } else {
        assert(s.push(x).len() != 0);
        assert(s.push(x)[0] == s[0]);
        assert(s.push(x).drop_first() =~= s.drop_first().push(x));
        assert(jview_seq(s.push(x)) == seq![jview(s[0])] + jview_seq(s.drop_first().push(x)));
        lemma_jview_seq_push(s.drop_first(), x);
        assert(jview_seq(s) == seq![jview(s[0])] + jview_seq(s.drop_first()));
    }
}

pub proof fn lemma_jview_fields_push(s: Seq<(String, Json)>, x: (String, Json))
    ensures
        jview_fields(s.push(x)) =~= jview_fields(s) + seq![(x.0@, jview(x.1))],
    decreases s.len(),
{
    if s.len() == 0 {
        assert(s.push(x)[0] == x);
        assert(s.push(x).drop_first() =~= Seq::<(String, Json)>::empty());
        assert(jview_fields(s.push(x)) == seq![(x.0@, jview(x.1))] + jview_fields(
            Seq::<(String, Json)>::empty(),
        ));
        assert(seq![(x.0@, jview(x.1))] + Seq::<(Seq<char>, JsonV)>::empty() =~= seq![
            (x.0@, jview(x.1)),
        ]);
        assert(jview_fields(s) + seq![(x.0@, jview(x.1))] =~= seq![(x.0@, jview(x.1))]);
    } else {
        assert(s.push(x).len() != 0);
        assert(s.push(x)[0] == s[0]);
        assert(s.push(x).drop_first() =~= s.drop_first().push(x));
        assert(jview_fields(s.push(x)) == seq![(s[0].0@, jview(s[0].1))] + jview_fields(
            s.drop_first().push(x),
        ));
        lemma_jview_fields_push(s.drop_first(), x);
        assert(jview_fields(s) == seq![(s[0].0@, jview(s[0].1))] + jview_fields(s.drop_first()));
    }
}

proof fn lemma_esc_str_skip(t: Seq<char>, k: int)
    requires
        0 <= k < t.len(),
    ensures
        esc_str(t.skip(k)) == esc_char(t[k]) + esc_str(t.skip(k + 1)),
{
    assert(t.skip(k)[0] == t[k]);
    assert(t.skip(k).drop_first() =~= t.skip(k + 1));
}

proof fn lemma_render_items_skip(s: Seq<JsonV>, k: int)
    requires
        0 <= k < s.len(),
    ensures
        render_items(s.skip(k)) == render(s[k]) + (if k + 1 < s.len() {
            seq![','] + render_items(s.skip(k + 1))
        } else {
            Seq::<char>::empty()
        }),
{
    assert(s.skip(k)[0] == s[k]);
    assert(s.skip(k).drop_first() =~= s.skip(k + 1));
    if k + 1 == s.len() {
        assert(render_items(s.skip(k)) == render(s[k]));
        assert(render(s[k]) + Seq::<char>::empty() =~= render(s[k]));
    }
}

proof fn lemma_render_members_skip(s: Seq<(Seq<char>, JsonV)>, k: int)
    requires
        0 <= k < s.len(),
    ensures
        render_members(s.skip(k)) == render_str(s[k].0) + seq![':'] + render(s[k].1) + (if k + 1
            < s.len() {
            seq![','] + render_members(s.skip(k + 1))
        } else {
            Seq::<char>::empty()
        }),
{
    assert(s.skip(k)[0] == s[k]);
    assert(s.skip(k).drop_first() =~= s.skip(k + 1));
    if k + 1 == s.len() {
        let one = render_str(s[k].0) + seq![':'] + render(s[k].1);
        assert(render_members(s.skip(k)) == one);
        assert(one + Seq::<char>::empty() =~= one);
    }
}

// ---------------------------------------------------------------------------
// The serializer
// ---------------------------------------------------------------------------

/// The character of a decimal digit.
fn digit_char_x(d: u64) -> (c: char)
    requires
        d < 10,
    ensures
        c == digit_char(d as nat),
{
    let b: u8 = 48 + (d as u8);
    proof {
        assert(b as char == ((48 + d as nat) as u32) as char);
    }
    b as char
}

/// The lower-case character of a hexadecimal digit.
fn hex_char_x(d: u32) -> (c: char)
    requires
        d < 16,
    ensures
        c == hex_char(d as nat),
{
    if d < 10 {
        digit_char_x(d as u64)
    } else {
        let b: u8 = 87 + (d as u8);
        proof {
            assert(b as char == ((87 + d as nat) as u32) as char);
        }
        b as char
    }
}

/// Appends the decimal digits of `n`.
fn push_num(n: u64, out: &mut Vec<char>)
    ensures
        final(out)@ == old(out)@ + render_num(n as nat),
    decreases n,
{
    if n < 10 {
        let c = digit_char_x(n);
        out.push(c);
        assert(out@ =~= old(out)@ + render_num(n as nat));
    } else {
        push_num(n / 10, out);
        let c = digit_char_x(n % 10);
        out.push(c);
        assert(out@ =~= old(out)@ + render_num(n as nat));
    }
}

/// Appends one character in its escaped form.
fn push_esc_char(c: char, out: &mut Vec<char>)
    ensures
        final(out)@ == old(out)@ + esc_char(c),
{
    if c == '"' {
        out.push('\\');
        out.push('"');
        assert(out@ =~= old(out)@ + esc_char(c));
    } else if c == '\\' {
        out.push('\\');
        out.push('\\');
        assert(out@ =~= old(out)@ + esc_char(c));
    } else if (c as u32) < 32 {
        out.push('\\');
        out.push('u');
        out.push('0');
        out.push('0');
        let hi = hex_char_x((c as u32) / 16);
        out.push(hi);
        let lo = hex_char_x((c as u32) % 16);
        out.push(lo);
        assert(out@ =~= old(out)@ + esc_char(c));
    } else {
        out.push(c);
        assert(out@ =~= old(out)@ + esc_char(c));
    }
}

/// Appends the escaped body of a string, quotes around it.
fn push_str_quoted(t: &str, out: &mut Vec<char>)
    ensures
        final(out)@ == old(out)@ + render_str(t@),
{
    let cv = str_to_chars(t);
    out.push('"');
    let ghost mid = out@;
    let n = cv.len();
    let mut k: usize = 0;
    assert(t@.skip(0) =~= t@);
    while k < n
        invariant
            n == cv.len(),
            cv@ == t@,
            k <= n,
            out@ + esc_str(t@.skip(k as int)) == mid + esc_str(t@),
        decreases n - k,
    {
        let c = cv[k];
        proof {
            lemma_esc_str_skip(t@, k as int);
        }
        push_esc_char(c, out);
        k = k + 1;
        assert(out@ + esc_str(t@.skip(k as int)) =~= mid + esc_str(t@));
    }
    assert(t@.skip(n as int) =~= Seq::<char>::empty());
    assert(out@ =~= mid + esc_str(t@));
    out.push('"');
    assert(out@ =~= old(out)@ + render_str(t@));
}

pub proof fn lemma_jview_seq_index(s: Seq<Json>)
    ensures
        jview_seq(s).len() == s.len(),
        forall|k: int| 0 <= k < s.len() ==> jview_seq(s)[k] == jview(s[k]),
    decreases s.len(),
{
    if s.len() > 0 {
        lemma_jview_seq_index(s.drop_first());
        assert forall|k: int| 0 <= k < s.len() implies jview_seq(s)[k] == jview(s[k]) by {
            if k > 0 {
                assert(jview_seq(s)[k] == jview_seq(s.drop_first())[k - 1]);
                assert(s.drop_first()[k - 1] == s[k]);
            }
        }
    }
}

pub proof fn lemma_jview_fields_index(s: Seq<(String, Json)>)
    ensures
        jview_fields(s).len() == s.len(),
        forall|k: int|
            0 <= k < s.len() ==> #[trigger] jview_fields(s)[k] == (s[k].0@, jview(s[k].1)),
    decreases s.len(),
{
    if s.len() > 0 {
        lemma_jview_fields_index(s.drop_first());
        assert forall|k: int|
            0 <= k < s.len() implies #[trigger] jview_fields(s)[k] == (s[k].0@, jview(
            s[k].1,
        )) by {
            if k > 0 {
                assert(jview_fields(s)[k] == jview_fields(s.drop_first())[k - 1]);
                assert(s.drop_first()[k - 1] == s[k]);
            }
        }
    }
}

/// Appends the serialized text of one JSON value.
fn render_value(j: &Json, out: &mut Vec<char>)
    ensures
        final(out)@ == old(out)@ + render(j@),
    decreases *j, 0nat,
{
    match j {
        Json::Null => {
            out.push('n');
            out.push('u');
            out.push('l');
            out.push('l');
            assert(out@ =~= old(out)@ + render(j@));
        },
        Json::Bool(b) => {
            if *b {
                out.push('t');
                out.push('r');
                out.push('u');
                out.push('e');
            } else {
                out.push('f');
                out.push('a');
                out.push('l');
                out.push('s');
                out.push('e');
            }
            assert(out@ =~= old(out)@ + render(j@));
        },
        Json::UInt(n) => {
            push_num(*n, out);
        },
        Json::Str(s) => {
            push_str_quoted(s.as_str(), out);
        },
        Json::Arr(items) => {
            render_arr(items, out);
            assert(out@ =~= old(out)@ + render(j@));
        },
        Json::Obj(fields) => {
            render_obj(fields, out);
            assert(out@ =~= old(out)@ + render(j@));
        },
    }
}

/// Appends a serialized array, brackets included.
#[verifier::loop_isolation(false)]
fn render_arr(items: &Vec<Json>, out: &mut Vec<char>)
    ensures
        final(out)@ == old(out)@ + seq!['['] + render_items(jview_seq(items@)) + seq![']'],
    decreases items@, 1nat,
{
    let ghost sv = jview_seq(items@);
    proof {
        lemma_jview_seq_index(items@);
    }
    out.push('[');
    let ghost mid = out@;
    let n = items.len();
    if n > 0 {
        render_value(&items[0], out);
        proof {
            lemma_render_items_skip(sv, 0);
            assert(sv.skip(0) =~= sv);
        }
        let mut k: usize = 1;
        while k < n
            invariant
                1 <= k <= n,
                out@ + (if k < n {
                    seq![','] + render_items(sv.skip(k as int))
                } else {
                    Seq::<char>::empty()
                }) == mid + render_items(sv),
            decreases n - k,
        {
            out.push(',');
            render_value(&items[k], out);
            proof {
                lemma_render_items_skip(sv, k as int);
            }
            k = k + 1;
            assert(out@ + (if k < n {
                seq![','] + render_items(sv.skip(k as int))
            } else {
                Seq::<char>::empty()
            }) =~= mid + render_items(sv));
        }
    }
    assert(out@ =~= mid + render_items(sv));
    out.push(']');
    assert(out@ =~= old(out)@ + seq!['['] + render_items(sv) + seq![']']);
}

/// Appends a serialized object, braces included.
#[verifier::loop_isolation(false)]
fn render_obj(fields: &Vec<(String, Json)>, out: &mut Vec<char>)
    ensures
        final(out)@ == old(out)@ + seq!['{'] + render_members(jview_fields(fields@)) + seq!['}'],
    decreases fields@, 1nat,
{
    let ghost fv = jview_fields(fields@);
    proof {
        lemma_jview_fields_index(fields@);
    }
    out.push('{');
    let ghost mid = out@;
    let n = fields.len();
    if n > 0 {
        push_str_quoted(fields[0].0.as_str(), out);
        out.push(':');
        render_value(&fields[0].1, out);
        proof {
            lemma_render_members_skip(fv, 0);
            assert(fv.skip(0) =~= fv);
            assert(out@ =~= mid + (render_str(fv[0].0) + seq![':'] + render(fv[0].1)));
        }
        let mut k: usize = 1;
        while k < n
            invariant
                1 <= k <= n,
                out@ + (if k < n {
                    seq![','] + render_members(fv.skip(k as int))
                } else {
                    Seq::<char>::empty()
                }) == mid + render_members(fv),
            decreases n - k,
        {
            out.push(',');
            push_str_quoted(fields[k].0.as_str(), out);
            out.push(':');
            render_value(&fields[k].1, out);
            proof {
                lemma_render_members_skip(fv, k as int);
            }
            k = k + 1;
            assert(out@ + (if k < n {
                seq![','] + render_members(fv.skip(k as int))
            } else {
                Seq::<char>::empty()
            }) =~= mid + render_members(fv));
        }
    }
    assert(out@ =~= mid + render_members(fv));
    out.push('}');
    assert(out@ =~= old(out)@ + seq!['{'] + render_members(fv) + seq!['}']);
}

/// The serialized text of a JSON value.
pub fn to_text(j: &Json) -> (r: String)
    ensures
        r@ == render(j@),
{
    let mut out: Vec<char> = Vec::new();
    render_value(j, &mut out);
    chars_to_string(&out)
}

// ---------------------------------------------------------------------------
// The parser
// ---------------------------------------------------------------------------

/// Prepend already-recognized characters to a string-body parse.
pub open spec fn sp_prepend_chars(a: Seq<char>, r: Option<(Seq<char>, int)>) -> Option<
    (Seq<char>, int),
> {
    match r {
        Some((t, j)) => Some((a + t, j)),
        None => None,
    }
}

/// Prepend already-recognized items to an array-tail parse.
pub open spec fn sp_prepend_items(a: Seq<JsonV>, r: Option<(Seq<JsonV>, int)>) -> Option<
    (Seq<JsonV>, int),
> {
    match r {
        Some((rest, j)) => Some((a + rest, j)),
        None => None,
    }
}

/// Prepend already-recognized members to an object-tail parse.
pub open spec fn sp_prepend_fields(
    a: Seq<(Seq<char>, JsonV)>,
    r: Option<(Seq<(Seq<char>, JsonV)>, int)>,
) -> Option<(Seq<(Seq<char>, JsonV)>, int)> {
    match r {
        Some((rest, j)) => Some((a + rest, j)),
        None => None,
    }
}

fn is_ws_x(c: char) -> (r: bool)
    ensures
        r == is_ws(c),
{
    c == ' ' || c == '\t' || c == '\n' || c == '\r'
}

fn is_digit_x(c: char) -> (r: bool)
    ensures
        r == is_digit(c),
{
    let v = c as u32;
    48 <= v && v <= 57
}

fn is_hex_x(c: char) -> (r: bool)
    ensures
        r == is_hex(c),
{
    let v = c as u32;
    (48 <= v && v <= 57) || (97 <= v && v <= 102) || (65 <= v && v <= 70)
}

fn hex_val_x(c: char) -> (r: u32)
    requires
        is_hex(c),
    ensures
        r == hex_val(c),
        r < 16,
{
    let v = c as u32;
    if v <= 57 {
        v - 48
    } else if v >= 97 {
        v - 87
    } else {
        v - 55
    }
}

/// The body of a JSON string, the position standing just after the opening
/// quote; returns the decoded text and the position after the closing quote.
#[verifier::loop_isolation(false)]
#[verifier::rlimit(60)]
fn pv_string(cs: &Vec<char>, i: usize) -> (r: Option<(String, usize)>)
    ensures
        match r {
            Some((t, p)) => sp_string(cs@, i as int) == Some((t@, p as int)) && i < p
                <= cs@.len(),
            None => sp_string(cs@, i as int) is None,
        },
{
    let n = cs.len();
    if i >= n {
        return None;
    }
    let mut cur = i;
    let mut acc: Vec<char> = Vec::new();
    proof {
        match sp_string(cs@, i as int) {
            Some((t, j)) => {
                assert(Seq::<char>::empty() + t =~= t);
            },
            None => {},
        }
    }
    loop
        invariant
            i <= cur <= n,
            n == cs@.len(),
            sp_string(cs@, i as int) == sp_prepend_chars(acc@, sp_string(cs@, cur as int)),
        decreases n - cur,
    {
        if cur >= n {
            return None;
        }
        let c = cs[cur];
        if c == '"' {
            let t = chars_to_string(&acc);
            proof {
                assert(acc@ + Seq::<char>::empty() =~= acc@);
            }
            return Some((t, cur + 1));
        } else if c == '\\' {
            if n - cur < 2 {
                return None;
            }
            let e = cs[cur + 1];
            if e == '"' || e == '\\' || e == '/' {
                proof {
                    lemma_pv_string_step(cs@, i as int, cur as int, acc@, e, (cur + 2) as int);
                }
                acc.push(e);
                cur = cur + 2;
            } else if e == 'b' {
                proof {
                    lemma_pv_string_step(
                        cs@,
                        i as int,
                        cur as int,
                        acc@,
                        '\u{8}',
                        (cur + 2) as int,
                    );
                }
                acc.push('\u{8}');
                cur = cur + 2;
            } else if e == 'f' {
                proof {
                    lemma_pv_string_step(
                        cs@,
                        i as int,
                        cur as int,
                        acc@,
                        '\u{c}',
                        (cur + 2) as int,
                    );
                }
                acc.push('\u{c}');
                cur = cur + 2;
            } else if e == 'n' {
                proof {
                    lemma_pv_string_step(cs@, i as int, cur as int, acc@, '\n', (cur + 2) as int);
                }
                acc.push('\n');
                cur = cur + 2;
            } else if e == 'r' {
                proof {
                    lemma_pv_string_step(cs@, i as int, cur as int, acc@, '\r', (cur + 2) as int);
                }
                acc.push('\r');
                cur = cur + 2;
            } else if e == 't' {
                proof {
                    lemma_pv_string_step(cs@, i as int, cur as int, acc@, '\t', (cur + 2) as int);
                }
                acc.push('\t');
                cur = cur + 2;
            } else if e == 'u' {
                if n - cur < 6 {
                    proof {
                        assert(cs@[cur as int] == '\\');
                        assert(cs@[cur as int + 1] == 'u');
                        assert(!hex4_at(cs@, cur as int + 2));
                        assert(sp_unicode_escape(cs@, cur as int) is None);
                        assert(sp_string(cs@, cur as int) == sp_unicode_escape(
                            cs@,
                            cur as int,
                        ));
                    }
                    return None;
                }
                if !(is_hex_x(cs[cur + 2]) && is_hex_x(cs[cur + 3]) && is_hex_x(cs[cur + 4])
                    && is_hex_x(cs[cur + 5])) {
                    return None;
                }
                let v: u32 = hex_val_x(cs[cur + 2]) * 0x1000 + hex_val_x(cs[cur + 3]) * 0x100
                    + hex_val_x(cs[cur + 4]) * 0x10 + hex_val_x(cs[cur + 5]);
                assert(v == hex4_val(cs@, cur + 2));
                if v < 0xD800 || v >= 0xE000 {
                    assert(vstd::utf8::is_scalar(v));
                    let c2 = char_from_u32(v).unwrap();
                    proof {
                        assert(sp_string(cs@, cur as int) == sp_cons(
                            c2,
                            sp_string(cs@, cur as int + 6),
                        ));
                        lemma_pv_string_step(
                            cs@,
                            i as int,
                            cur as int,
                            acc@,
                            c2,
                            (cur + 6) as int,
                        );
                    }
                    acc.push(c2);
                    cur = cur + 6;
                } else if v < 0xDC00 {
                    if n - cur < 8 || !(cs[cur + 6] == '\\' && cs[cur + 7] == 'u') {
                        return None;
                    }
                    if n - cur < 12 {
                        return None;
                    }
                    if !(is_hex_x(cs[cur + 8]) && is_hex_x(cs[cur + 9]) && is_hex_x(cs[cur + 10])
                        && is_hex_x(cs[cur + 11])) {
                        return None;
                    }
                    let lo: u32 = hex_val_x(cs[cur + 8]) * 0x1000 + hex_val_x(cs[cur + 9]) * 0x100
                        + hex_val_x(cs[cur + 10]) * 0x10 + hex_val_x(cs[cur + 11]);
                    assert(lo == hex4_val(cs@, cur + 8));
                    if !(0xDC00 <= lo && lo < 0xE000) {
                        return None;
                    }
                    let sc: u32 = 0x10000 + (v - 0xD800) * 0x400 + (lo - 0xDC00);
                    assert(vstd::utf8::is_scalar(sc));
                    let c2 = char_from_u32(sc).unwrap();
                    proof {
                        assert(sp_string(cs@, cur as int) == sp_cons(
                            c2,
                            sp_string(cs@, cur as int + 12),
                        ));
                        lemma_pv_string_step(
                            cs@,
                            i as int,
                            cur as int,
                            acc@,
                            c2,
                            (cur + 12) as int,
                        );
                    }
                    acc.push(c2);
                    cur = cur + 12;
                } else {
                    return None;
                }
            } else {
                return None;
            }
        } else if (c as u32) < 32 {
            return None;
        } else {
            proof {
                lemma_pv_string_step(cs@, i as int, cur as int, acc@, c, (cur + 1) as int);
            }
            acc.push(c);
            cur = cur + 1;
        }
    }
}

/// One step of the string-body loop: when the suffix parse at `cur` is one
/// recognized character ahead of the parse at `next`, the accumulator can
/// absorb that character.
proof fn lemma_pv_string_step(s: Seq<char>, i: int, cur: int, acc: Seq<char>, c: char, next: int)
    requires
        sp_string(s, i) == sp_prepend_chars(acc, sp_string(s, cur)),
        sp_string(s, cur) == sp_cons(c, sp_string(s, next)),
    ensures
        sp_string(s, i) == sp_prepend_chars(acc.push(c), sp_string(s, next)),
{
    match sp_string(s, next) {
        Some((t, j)) => {
            assert(acc + (seq![c] + t) =~= acc.push(c) + t);
        },
        None => {},
    }
}

/// A run of decimal digits starting at `i`, folded into a number.
#[verifier::loop_isolation(false)]
fn pv_digits(cs: &Vec<char>, i: usize) -> (r: Option<(u64, usize)>)
    requires
        i <= cs@.len(),
    ensures
        match r {
            Some((v, p)) => sp_digits(cs@, i as int, 0) == Some((v, p as int)) && i <= p
                <= cs@.len() && ((i < cs@.len() && is_digit(cs@[i as int])) ==> i < p),
            None => sp_digits(cs@, i as int, 0) is None,
        },
{
    let n = cs.len();
    if i >= n {
        return Some((0, i));
    }
    let mut cur = i;
    let mut acc: u64 = 0;
    loop
        invariant
            i <= cur <= n,
            n == cs@.len(),
            sp_digits(cs@, i as int, 0) == sp_digits(cs@, cur as int, acc),
        decreases n - cur,
    {
        if cur >= n || !is_digit_x(cs[cur]) {
            return Some((acc, cur));
        }
        let dv: u64 = (cs[cur] as u32 - 48) as u64;
        assert(dv == digit_val(cs@[cur as int]));
        if acc > (u64::MAX - dv) / 10 {
            proof {
                vstd::arithmetic::div_mod::lemma_fundamental_div_mod(
                    (u64::MAX - dv) as int,
                    10,
                );
                assert(acc * 10 + dv > u64::MAX);
            }
            return None;
        }
        proof {
            vstd::arithmetic::div_mod::lemma_fundamental_div_mod((u64::MAX - dv) as int, 10);
            assert(acc * 10 <= u64::MAX - dv);
        }
        acc = acc * 10 + dv;
        cur = cur + 1;
    }
}

/// The outcome of an array parse, given the items already read and the
/// parse of the remaining items.
pub open spec fn arr_result(a: Seq<JsonV>, r: Option<(Seq<JsonV>, int)>) -> Option<
    (JsonV, int),
> {
    match r {
        Some((rest, j)) => Some((JsonV::Arr(a + rest), j)),
        None => None,
    }
}

/// The outcome of an object parse, given the members already read and the
/// parse of the remaining members.
pub open spec fn obj_result(
    a: Seq<(Seq<char>, JsonV)>,
    r: Option<(Seq<(Seq<char>, JsonV)>, int)>,
) -> Option<(JsonV, int)> {
    match r {
        Some((rest, j)) => Some((JsonV::Obj(a + rest), j)),
        None => None,
    }
}

/// One JSON value starting at `i`, leading whitespace allowed.
#[verifier::loop_isolation(false)]
#[verifier::rlimit(100)]
fn pv_value(cs: &Vec<char>, i: usize, d: u32) -> (r: Option<(Json, usize)>)
    ensures
        match r {
            Some((jv, p)) => sp_value(cs@, i as int, d as nat) == Some((jv@, p as int)) && i < p
                <= cs@.len(),
            None => sp_value(cs@, i as int, d as nat) is None,
        },
    decreases cs@.len() - i, 0nat,
{
    let n = cs.len();
    if i >= n {
        return None;
    }
    let mut w = i;
    while w < n && is_ws_x(cs[w])
        invariant
            i <= w <= n,
            sp_value(cs@, i as int, d as nat) == sp_value(cs@, w as int, d as nat),
        decreases n - w,
    {
        w = w + 1;
    }
    if w >= n {
        return None;
    }
    let c = cs[w];
    if c == 'n' {
        if n - w >= 4 && cs[w + 1] == 'u' && cs[w + 2] == 'l' && cs[w + 3] == 'l' {
            return Some((Json::Null, w + 4));
        }
        return None;
    } else if c == 't' {
        if n - w >= 4 && cs[w + 1] == 'r' && cs[w + 2] == 'u' && cs[w + 3] == 'e' {
            return Some((Json::Bool(true), w + 4));
        }
        return None;
    } else if c == 'f' {
        if n - w >= 5 && cs[w + 1] == 'a' && cs[w + 2] == 'l' && cs[w + 3] == 's' && cs[w + 4]
            == 'e' {
            return Some((Json::Bool(false), w + 5));
        }
        return None;
    } else if c == '"' {
        match pv_string(cs, w + 1) {
            Some((t, p)) => {
                return Some((Json::Str(t), p));
            },
            None => {
                return None;
            },
        }
    } else if c == '[' {
        if d == 0 {
            return None;
        }
        let d2 = d - 1;
        let mut a = w + 1;
        while a < n && is_ws_x(cs[a])
            invariant
                w + 1 <= a <= n,
                sp_arr(cs@, w as int + 1, d2 as nat) == sp_arr(cs@, a as int, d2 as nat),
            decreases n - a,
        {
            a = a + 1;
        }
        if a >= n {
            return None;
        }
        let mut items: Vec<Json> = Vec::new();
        let mut cur: usize;
        if cs[a] == ']' {
            assert(jview(Json::Arr(items)) == JsonV::Arr(Seq::<JsonV>::empty()));
            return Some((Json::Arr(items), a + 1));
        }
        match pv_value(cs, a, d2) {
            None => {
                return None;
            },
            Some((j0, p0)) => {
                proof {
                    assert(jview_seq(seq![j0]) =~= seq![jview(j0)]) by {
                        assert(seq![j0].drop_first() =~= Seq::<Json>::empty());
                    }
                    match sp_arr_rest(cs@, p0 as int, d2 as nat) {
                        Some((rest, j)) => {
                            assert(seq![jview(j0)] + rest =~= jview_seq(seq![j0]) + rest);
                        },
                        None => {},
                    }
                }
                items.push(j0);
                assert(items@ =~= seq![j0]);
                cur = p0;
            },
        }
        loop
            invariant
                i < cur <= n,
                n == cs@.len(),
                d2 == d - 1,
                sp_value(cs@, i as int, d as nat) == arr_result(
                    jview_seq(items@),
                    sp_arr_rest(cs@, cur as int, d2 as nat),
                ),
            decreases n - cur,
        {
            if cur >= n {
                return None;
            }
            let c2 = cs[cur];
            if is_ws_x(c2) {
                cur = cur + 1;
            } else if c2 == ']' {
                proof {
                    assert(jview_seq(items@) + Seq::<JsonV>::empty() =~= jview_seq(items@));
                }
                return Some((Json::Arr(items), cur + 1));
            } else if c2 == ',' {
                match pv_value(cs, cur + 1, d2) {
                    None => {
                        return None;
                    },
                    Some((jk, pk)) => {
                        proof {
                            lemma_jview_seq_push(items@, jk);
                            match sp_arr_rest(cs@, pk as int, d2 as nat) {
                                Some((rest, j)) => {
                                    assert(jview_seq(items@) + (seq![jview(jk)] + rest) =~= (
                                    jview_seq(items@) + seq![jview(jk)]) + rest);
                                },
                                None => {},
                            }
                        }
                        items.push(jk);
                        cur = pk;
                    },
                }
            } else {
                return None;
            }
        }
    } else if c == '{' {
        if d == 0 {
            return None;
        }
        let d2 = d - 1;
        let mut a = w + 1;
        while a < n && is_ws_x(cs[a])
            invariant
                w + 1 <= a <= n,
                sp_obj(cs@, w as int + 1, d2 as nat) == sp_obj(cs@, a as int, d2 as nat),
            decreases n - a,
        {
            a = a + 1;
        }
        if a >= n {
            return None;
        }
        let mut fields: Vec<(String, Json)> = Vec::new();
        let mut cur: usize;
        if cs[a] == '}' {
            assert(jview(Json::Obj(fields)) == JsonV::Obj(Seq::<(Seq<char>, JsonV)>::empty()));
            return Some((Json::Obj(fields), a + 1));
        }
        match pv_member(cs, a, d2) {
            None => {
                return None;
            },
            Some((k0, v0, p0)) => {
                proof {
                    assert(jview_fields(seq![(k0, v0)]) =~= seq![(k0@, jview(v0))]) by {
                        assert(seq![(k0, v0)].drop_first() =~= Seq::<(String, Json)>::empty());
                    }
                    match sp_obj_rest(cs@, p0 as int, d2 as nat) {
                        Some((rest, j)) => {
                            assert(seq![(k0@, jview(v0))] + rest =~= jview_fields(seq![(k0, v0)])
                                + rest);
                        },
                        None => {},
                    }
                }
                fields.push((k0, v0));
                assert(fields@ =~= seq![(k0, v0)]);
                cur = p0;
            },
        }
        loop
            invariant
                i < cur <= n,
                n == cs@.len(),
                d2 == d - 1,
                sp_value(cs@, i as int, d as nat) == obj_result(
                    jview_fields(fields@),
                    sp_obj_rest(cs@, cur as int, d2 as nat),
                ),
            decreases n - cur,
        {
            if cur >= n {
                return None;
            }
            let c2 = cs[cur];
            if is_ws_x(c2) {
                cur = cur + 1;
            } else if c2 == '}' {
                proof {
                    assert(jview_fields(fields@) + Seq::<(Seq<char>, JsonV)>::empty()
                        =~= jview_fields(fields@));
                }
                return Some((Json::Obj(fields), cur + 1));
            } else if c2 == ',' {
                match pv_member(cs, cur + 1, d2) {
                    None => {
                        return None;
                    },
                    Some((kk, vk, pk)) => {
                        proof {
                            lemma_jview_fields_push(fields@, (kk, vk));
                            match sp_obj_rest(cs@, pk as int, d2 as nat) {
                                Some((rest, j)) => {
                                    assert(jview_fields(fields@) + (seq![(kk@, jview(vk))] + rest)
                                        =~= (jview_fields(fields@) + seq![(kk@, jview(vk))])
                                        + rest);
                                },
                                None => {},
                            }
                        }
                        fields.push((kk, vk));
                        cur = pk;
                    },
                }
            } else {
                return None;
            }
        }
    } else if is_digit_x(c) {
        match pv_digits(cs, w) {
            Some((v, p)) => {
                return Some((Json::UInt(v), p));
            },
            None => {
                return None;
            },
        }
    } else {
        return None;
    }
}

/// One `"key": value` member, leading whitespace allowed; yields the key,
/// the value, and the position just after the value.
#[verifier::loop_isolation(false)]
#[verifier::rlimit(60)]
fn pv_member(cs: &Vec<char>, m: usize, d: u32) -> (r: Option<(String, Json, usize)>)
    ensures
        match r {
            Some((key, jv, p)) => m < p <= cs@.len() && sp_member(cs@, m as int, d as nat) == (
            match sp_obj_rest(cs@, p as int, d as nat) {
                Some((rest, j)) => Some((seq![(key@, jv@)] + rest, j)),
                None => None,
            }),
            None => sp_member(cs@, m as int, d as nat) is None,
        },
    decreases cs@.len() - m, 1nat,
{
    let n = cs.len();
    if m >= n {
        return None;
    }
    let mut w = m;
    while w < n && is_ws_x(cs[w])
        invariant
            m <= w <= n,
            sp_member(cs@, m as int, d as nat) == sp_member(cs@, w as int, d as nat),
        decreases n - w,
    {
        w = w + 1;
    }
    if w >= n {
        return None;
    }
    if cs[w] != '"' {
        return None;
    }
    let (key, p1) = match pv_string(cs, w + 1) {
        Some(x) => x,
        None => {
            return None;
        },
    };
    let mut q = p1;
    while q < n && is_ws_x(cs[q])
        invariant
            p1 <= q <= n,
            sp_colon_value(cs@, p1 as int, d as nat) == sp_colon_value(cs@, q as int, d as nat),
        decreases n - q,
    {
        q = q + 1;
    }
    if q >= n {
        return None;
    }
    if cs[q] != ':' {
        return None;
    }
    match pv_value(cs, q + 1, d) {
        None => {
            return None;
        },
        Some((jv, p2)) => {
            Some((key, jv, p2))
        },
    }
}

/// Nothing but whitespace from `p` to the end of the text.
#[verifier::loop_isolation(false)]
fn ws_only_from(cs: &Vec<char>, p: usize) -> (r: bool)
    ensures
        r == sp_ws_only(cs@, p as int),
{
    let n = cs.len();
    let mut cur = p;
    loop
        invariant
            p <= cur,
            cur <= n || cur == p,
            n == cs@.len(),
            sp_ws_only(cs@, p as int) == sp_ws_only(cs@, cur as int),
        decreases n - cur,
    {
        if cur >= n {
            return true;
        }
        if !is_ws_x(cs[cur]) {
            return false;
        }
        cur = cur + 1;
    }
}

/// Parses a whole text as one JSON value, whitespace around it allowed.
pub fn from_text(s: &str) -> (r: Option<Json>)
    ensures
        match r {
            Some(j) => sp_json(s@) == Some(j@),
            None => sp_json(s@) is None,
        },
{
    let cs = str_to_chars(s);
    match pv_value(&cs, 0, JSON_MAX_DEPTH) {
        None => None,
        Some((j, p)) => {
            if ws_only_from(&cs, p) {
                Some(j)
            } else {
                None
            }
        },
    }
}

} // verus!
