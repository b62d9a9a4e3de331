//! Shared machinery of the schema codec: finding an object member by name
//! (first occurrence, any order, unknown members ignored) and reading one
//! typed field out of it, both in specification and in executable form.

use vstd::prelude::*;

use crate::json::{Json, JsonV, jview, jview_seq, jview_fields, jdepth, jdepth_seq};
use crate::json_exec::{lemma_jview_fields_index, lemma_jview_seq_index, lemma_jview_seq_push};
use crate::schema::DecodeError;
use crate::b64::{b64_inv, b64_decode_canonical};
use crate::text::str_eq;

verus! {

/// The first member of an object carrying the given name, if any. Members
/// a variant does not ask for are simply never looked up: that is the
/// decode-side tolerance that lets the schema grow by addition.
pub open spec fn jlookup(fs: Seq<(Seq<char>, JsonV)>, key: Seq<char>) -> Option<JsonV>
    decreases fs.len(),
{
    if fs.len() == 0 {
        None
    } else if fs[0].0 == key {
        Some(fs[0].1)
    } else {
        jlookup(fs.drop_first(), key)
    }
}

// ---------------------------------------------------------------------------
// Field readers, in specification form
// ---------------------------------------------------------------------------

pub open spec fn sget_str(fs: Seq<(Seq<char>, JsonV)>, key: Seq<char>) -> Result<
    Seq<char>,
    DecodeError,
> {
    match jlookup(fs, key) {
        Some(JsonV::Str(s)) => Ok(s),
        Some(_) => Err(DecodeError::MalformedField),
        None => Err(DecodeError::MissingField),
    }
}

pub open spec fn sget_u64(fs: Seq<(Seq<char>, JsonV)>, key: Seq<char>) -> Result<
    u64,
    DecodeError,
> {
    match jlookup(fs, key) {
        Some(JsonV::UInt(n)) => Ok(n),
        Some(_) => Err(DecodeError::MalformedField),
        None => Err(DecodeError::MissingField),
    }
}

pub open spec fn sget_u32(fs: Seq<(Seq<char>, JsonV)>, key: Seq<char>) -> Result<
    u32,
    DecodeError,
> {
    match jlookup(fs, key) {
        Some(JsonV::UInt(n)) => if n <= u32::MAX {
            Ok(n as u32)
        } else {
            Err(DecodeError::MalformedField)
        },
        Some(_) => Err(DecodeError::MalformedField),
        None => Err(DecodeError::MissingField),
    }
}

pub open spec fn sget_usize(fs: Seq<(Seq<char>, JsonV)>, key: Seq<char>) -> Result<
    usize,
    DecodeError,
> {
    match jlookup(fs, key) {
        Some(JsonV::UInt(n)) => if n <= usize::MAX {
            Ok(n as usize)
        } else {
            Err(DecodeError::MalformedField)
        },
        Some(_) => Err(DecodeError::MalformedField),
        None => Err(DecodeError::MissingField),
    }
}

pub open spec fn sget_bool(fs: Seq<(Seq<char>, JsonV)>, key: Seq<char>) -> Result<
    bool,
    DecodeError,
> {
    match jlookup(fs, key) {
        Some(JsonV::Bool(b)) => Ok(b),
        Some(_) => Err(DecodeError::MalformedField),
        None => Err(DecodeError::MissingField),
    }
}

/// A variable-length binary field: a string holding canonical base64.
pub open spec fn sget_bytes(fs: Seq<(Seq<char>, JsonV)>, key: Seq<char>) -> Result<
    Seq<u8>,
    DecodeError,
> {
    match jlookup(fs, key) {
        Some(JsonV::Str(s)) => match b64_inv(s) {
            Some(b) => Ok(b),
            None => Err(DecodeError::MalformedBinaryField),
        },
        Some(_) => Err(DecodeError::MalformedField),
        None => Err(DecodeError::MissingField),
    }
}

pub open spec fn json_byte(j: JsonV) -> bool {
    match j {
        JsonV::UInt(n) => n <= 255,
        _ => false,
    }
}

pub open spec fn json_byte_val(j: JsonV) -> u8 {
    match j {
        JsonV::UInt(n) => n as u8,
        _ => 0,
    }
}

/// A fixed 32-byte field (a public key): exactly 32 numbers, each a byte.
pub open spec fn key32_of(items: Seq<JsonV>) -> Option<Seq<u8>> {
    if items.len() == 32 && (forall|k: int| 0 <= k < 32 ==> json_byte(#[trigger] items[k])) {
        Some(Seq::new(32, |k: int| json_byte_val(items[k])))
    } else {
        None
    }
}

pub open spec fn sget_key32(fs: Seq<(Seq<char>, JsonV)>, key: Seq<char>) -> Result<
    Seq<u8>,
    DecodeError,
> {
    match jlookup(fs, key) {
        Some(JsonV::Arr(items)) => match key32_of(items) {
            Some(b) => Ok(b),
            None => Err(DecodeError::MalformedFixedField),
        },
        Some(_) => Err(DecodeError::MalformedFixedField),
        None => Err(DecodeError::MissingField),
    }
}

/// How a fixed 32-byte key appears on the wire: an array of its bytes.
pub open spec fn bytes_arr(b: Seq<u8>) -> Seq<JsonV> {
    Seq::new(b.len(), |i: int| JsonV::UInt(b[i] as u64))
}

// ---------------------------------------------------------------------------
// Field readers, executable
// ---------------------------------------------------------------------------

/// The first member with the given name, walking the members in order.
#[verifier::loop_isolation(false)]
pub fn obj_get<'a>(fields: &'a Vec<(String, Json)>, key: &str) -> (r: Option<&'a Json>)
    ensures
        match r {
            Some(j) => jlookup(jview_fields(fields@), key@) == Some(jview(*j)),
            None => jlookup(jview_fields(fields@), key@) is None,
        },
{
    let ghost fv = jview_fields(fields@);
    proof {
        lemma_jview_fields_index(fields@);
        assert(fv.skip(0) =~= fv);
    }
    let n = fields.len();
    let mut k: usize = 0;
    while k < n
        invariant
            k <= n,
            jlookup(fv, key@) == jlookup(fv.skip(k as int), key@),
        decreases n - k,
    {
        if str_eq(fields[k].0.as_str(), key) {
            proof {
                assert(fv.skip(k as int)[0] == fv[k as int]);
            }
            return Some(&fields[k].1);
        }
        proof {
            assert(fv.skip(k as int)[0] == fv[k as int]);
            assert(fv.skip(k as int).drop_first() =~= fv.skip(k as int + 1));
        }
        k = k + 1;
    }
    None
}

pub fn jget_str(fields: &Vec<(String, Json)>, key: &str) -> (r: Result<String, DecodeError>)
    ensures
        match r {
            Ok(s) => sget_str(jview_fields(fields@), key@) == Ok::<Seq<char>, DecodeError>(s@),
            Err(e) => sget_str(jview_fields(fields@), key@) == Err::<Seq<char>, DecodeError>(e),
        },
{
    match obj_get(fields, key) {
        Some(j) => match j {
            Json::Str(s) => Ok(s.clone()),
            _ => Err(DecodeError::MalformedField),
        },
        None => Err(DecodeError::MissingField),
    }
}

pub fn jget_u64(fields: &Vec<(String, Json)>, key: &str) -> (r: Result<u64, DecodeError>)
    ensures
        r == sget_u64(jview_fields(fields@), key@),
{
    match obj_get(fields, key) {
        Some(j) => match j {
            Json::UInt(n) => Ok(*n),
            _ => Err(DecodeError::MalformedField),
        },
        None => Err(DecodeError::MissingField),
    }
}

pub fn jget_u32(fields: &Vec<(String, Json)>, key: &str) -> (r: Result<u32, DecodeError>)
    ensures
        r == sget_u32(jview_fields(fields@), key@),
{
    match obj_get(fields, key) {
        Some(j) => match j {
            Json::UInt(n) => if *n <= u32::MAX as u64 {
                Ok(*n as u32)
            } else {
                Err(DecodeError::MalformedField)
            },
            _ => Err(DecodeError::MalformedField),
        },
        None => Err(DecodeError::MissingField),
    }
}

pub fn jget_usize(fields: &Vec<(String, Json)>, key: &str) -> (r: Result<usize, DecodeError>)
    ensures
        r == sget_usize(jview_fields(fields@), key@),
{
    match obj_get(fields, key) {
        Some(j) => match j {
            Json::UInt(n) => if *n <= usize::MAX as u64 {
                Ok(*n as usize)
            } else {
                Err(DecodeError::MalformedField)
            },
            _ => Err(DecodeError::MalformedField),
        },
        None => Err(DecodeError::MissingField),
    }
}

pub fn jget_bool(fields: &Vec<(String, Json)>, key: &str) -> (r: Result<bool, DecodeError>)
    ensures
        r == sget_bool(jview_fields(fields@), key@),
{
    match obj_get(fields, key) {
        Some(j) => match j {
            Json::Bool(b) => Ok(*b),
            _ => Err(DecodeError::MalformedField),
        },
        None => Err(DecodeError::MissingField),
    }
}

pub fn jget_bytes(fields: &Vec<(String, Json)>, key: &str) -> (r: Result<Vec<u8>, DecodeError>)
    ensures
        match r {
            Ok(v) => sget_bytes(jview_fields(fields@), key@) == Ok::<Seq<u8>, DecodeError>(v@),
            Err(e) => sget_bytes(jview_fields(fields@), key@) == Err::<Seq<u8>, DecodeError>(e),
        },
{
    match obj_get(fields, key) {
        Some(j) => match j {
            Json::Str(s) => match b64_decode_canonical(s.as_str()) {
                Some(v) => Ok(v),
                None => Err(DecodeError::MalformedBinaryField),
            },
            _ => Err(DecodeError::MalformedField),
        },
        None => Err(DecodeError::MissingField),
    }
}

fn key32_from_vec(v: &Vec<u8>) -> (r: [u8; 32])
    requires
        v@.len() == 32,
    ensures
        r@ == v@,
{
    let a: [u8; 32] = [v[0], v[1], v[2], v[3], v[4], v[5], v[6], v[7], v[8], v[9], v[10], v[11],
        v[12], v[13], v[14], v[15], v[16], v[17], v[18], v[19], v[20], v[21], v[22], v[23], v[24],
        v[25], v[26], v[27], v[28], v[29], v[30], v[31]];
    proof {
        assert(a@ =~= v@);
    }
    a
}

#[verifier::loop_isolation(false)]
pub fn jget_key32(fields: &Vec<(String, Json)>, key: &str) -> (r: Result<[u8; 32], DecodeError>)
    ensures
        match r {
            Ok(a) => sget_key32(jview_fields(fields@), key@) == Ok::<Seq<u8>, DecodeError>(a@),
            Err(e) => sget_key32(jview_fields(fields@), key@) == Err::<Seq<u8>, DecodeError>(e),
        },
{
    match obj_get(fields, key) {
        Some(j) => match j {
            Json::Arr(items) => {
                let ghost sv = jview_seq(items@);
                proof {
                    lemma_jview_seq_index(items@);
                }
                if items.len() != 32 {
                    return Err(DecodeError::MalformedFixedField);
                }
                let mut acc: Vec<u8> = Vec::new();
                let mut k: usize = 0;
                while k < 32
                    invariant
                        k <= 32,
                        acc@.len() == k,
                        forall|m: int| 0 <= m < k ==> json_byte(#[trigger] sv[m]),
                        forall|m: int| 0 <= m < k ==> acc@[m] == json_byte_val(#[trigger] sv[m]),
                    decreases 32 - k,
                {
                    match &items[k] {
                        Json::UInt(n) => {
                            if *n <= 255 {
                                acc.push(*n as u8);
                            } else {
                                proof {
                                    assert(!json_byte(sv[k as int]));
                                    assert(key32_of(sv) is None);
                                }
                                return Err(DecodeError::MalformedFixedField);
                            }
                        },
                        _ => {
                            proof {
                                assert(!json_byte(sv[k as int]));
                                assert(key32_of(sv) is None);
                            }
                            return Err(DecodeError::MalformedFixedField);
                        },
                    }
                    k = k + 1;
                }
                proof {
                    assert(key32_of(sv) is Some);
                    assert(acc@ =~= key32_of(sv).unwrap());
                }
                Ok(key32_from_vec(&acc))
            },
            _ => Err(DecodeError::MalformedFixedField),
        },
        None => Err(DecodeError::MissingField),
    }
}

/// A fixed 32-byte key as its wire form, an array of 32 numbers.
#[verifier::loop_isolation(false)]
pub fn key32_to_json(a: &[u8; 32]) -> (j: Json)
    ensures
        j@ == JsonV::Arr(bytes_arr(a@)),
{
    let mut items: Vec<Json> = Vec::new();
    let mut k: usize = 0;
    while k < 32
        invariant
            k <= 32,
            jview_seq(items@) =~= bytes_arr(a@).take(k as int),
        decreases 32 - k,
    {
        proof {
            lemma_jview_seq_push(items@, Json::UInt(a@[k as int] as u64));
        }
        items.push(Json::UInt(a[k] as u64));
        proof {
            assert(jview_seq(items@) =~= bytes_arr(a@).take(k as int + 1));
        }
        k = k + 1;
    }
    proof {
        assert(bytes_arr(a@).take(32) =~= bytes_arr(a@));
    }
    Json::Arr(items)
}


// ---------------------------------------------------------------------------
// Small facts the per-variant codec proofs lean on
// ---------------------------------------------------------------------------

/// The view of an object literal with 1 members.
pub proof fn lemma_jview_fields1(e1: (String, Json))
    ensures
        jview_fields(seq![e1]) == seq![(e1.0@, jview(e1.1))],
{
    reveal_with_fuel(jview_fields, 8);
    assert(seq![e1].drop_first() =~= seq![]);
    assert(jview_fields(seq![e1]) =~= seq![(e1.0@, jview(e1.1))]);
}

/// The view of an object literal with 2 members.
pub proof fn lemma_jview_fields2(e1: (String, Json), e2: (String, Json))
    ensures
        jview_fields(seq![e1, e2]) == seq![(e1.0@, jview(e1.1)), (e2.0@, jview(e2.1))],
{
    reveal_with_fuel(jview_fields, 8);
    assert(seq![e1, e2].drop_first() =~= seq![e2]);
    assert(seq![e2].drop_first() =~= seq![]);
    assert(jview_fields(seq![e1, e2]) =~= seq![(e1.0@, jview(e1.1)), (e2.0@, jview(e2.1))]);
}

/// The view of an object literal with 3 members.
pub proof fn lemma_jview_fields3(e1: (String, Json), e2: (String, Json), e3: (String, Json))
    ensures
        jview_fields(seq![e1, e2, e3]) == seq![(e1.0@, jview(e1.1)), (e2.0@, jview(e2.1)), (e3.0@, jview(e3.1))],
{
    reveal_with_fuel(jview_fields, 8);
    assert(seq![e1, e2, e3].drop_first() =~= seq![e2, e3]);
    assert(seq![e2, e3].drop_first() =~= seq![e3]);
    assert(seq![e3].drop_first() =~= seq![]);
    assert(jview_fields(seq![e1, e2, e3]) =~= seq![(e1.0@, jview(e1.1)), (e2.0@, jview(e2.1)), (e3.0@, jview(e3.1))]);
}

/// The view of an object literal with 4 members.
pub proof fn lemma_jview_fields4(e1: (String, Json), e2: (String, Json), e3: (String, Json), e4: (String, Json))
    ensures
        jview_fields(seq![e1, e2, e3, e4]) == seq![(e1.0@, jview(e1.1)), (e2.0@, jview(e2.1)), (e3.0@, jview(e3.1)), (e4.0@, jview(e4.1))],
{
    reveal_with_fuel(jview_fields, 8);
    assert(seq![e1, e2, e3, e4].drop_first() =~= seq![e2, e3, e4]);
    assert(seq![e2, e3, e4].drop_first() =~= seq![e3, e4]);
    assert(seq![e3, e4].drop_first() =~= seq![e4]);
    assert(seq![e4].drop_first() =~= seq![]);
    assert(jview_fields(seq![e1, e2, e3, e4]) =~= seq![(e1.0@, jview(e1.1)), (e2.0@, jview(e2.1)), (e3.0@, jview(e3.1)), (e4.0@, jview(e4.1))]);
}

/// The view of an object literal with 5 members.
pub proof fn lemma_jview_fields5(e1: (String, Json), e2: (String, Json), e3: (String, Json), e4: (String, Json), e5: (String, Json))
    ensures
        jview_fields(seq![e1, e2, e3, e4, e5]) == seq![(e1.0@, jview(e1.1)), (e2.0@, jview(e2.1)), (e3.0@, jview(e3.1)), (e4.0@, jview(e4.1)), (e5.0@, jview(e5.1))],
{
    reveal_with_fuel(jview_fields, 8);
    assert(seq![e1, e2, e3, e4, e5].drop_first() =~= seq![e2, e3, e4, e5]);
    assert(seq![e2, e3, e4, e5].drop_first() =~= seq![e3, e4, e5]);
    assert(seq![e3, e4, e5].drop_first() =~= seq![e4, e5]);
    assert(seq![e4, e5].drop_first() =~= seq![e5]);
    assert(seq![e5].drop_first() =~= seq![]);
    assert(jview_fields(seq![e1, e2, e3, e4, e5]) =~= seq![(e1.0@, jview(e1.1)), (e2.0@, jview(e2.1)), (e3.0@, jview(e3.1)), (e4.0@, jview(e4.1)), (e5.0@, jview(e5.1))]);
}

/// The view of an object literal with 6 members.
pub proof fn lemma_jview_fields6(e1: (String, Json), e2: (String, Json), e3: (String, Json), e4: (String, Json), e5: (String, Json), e6: (String, Json))
    ensures
        jview_fields(seq![e1, e2, e3, e4, e5, e6]) == seq![(e1.0@, jview(e1.1)), (e2.0@, jview(e2.1)), (e3.0@, jview(e3.1)), (e4.0@, jview(e4.1)), (e5.0@, jview(e5.1)), (e6.0@, jview(e6.1))],
{
    reveal_with_fuel(jview_fields, 8);
    assert(seq![e1, e2, e3, e4, e5, e6].drop_first() =~= seq![e2, e3, e4, e5, e6]);
    assert(seq![e2, e3, e4, e5, e6].drop_first() =~= seq![e3, e4, e5, e6]);
    assert(seq![e3, e4, e5, e6].drop_first() =~= seq![e4, e5, e6]);
    assert(seq![e4, e5, e6].drop_first() =~= seq![e5, e6]);
    assert(seq![e5, e6].drop_first() =~= seq![e6]);
    assert(seq![e6].drop_first() =~= seq![]);
    assert(jview_fields(seq![e1, e2, e3, e4, e5, e6]) =~= seq![(e1.0@, jview(e1.1)), (e2.0@, jview(e2.1)), (e3.0@, jview(e3.1)), (e4.0@, jview(e4.1)), (e5.0@, jview(e5.1)), (e6.0@, jview(e6.1))]);
}

/// A sequence of values each nested at most `b` deep is itself at most `b`.
pub proof fn lemma_jdepth_seq_le(s: Seq<JsonV>, b: nat)
    requires
        forall|i: int| 0 <= i < s.len() ==> jdepth(#[trigger] s[i]) <= b,
    ensures
        jdepth_seq(s) <= b,
    decreases s.len(),
{
    if s.len() > 0 {
        assert(jdepth(s[0]) <= b);
        lemma_jdepth_seq_le(s.drop_first(), b);
    }
}

/// The wire form of a byte array nests no deeper than its numbers.
pub proof fn lemma_bytes_arr_depth(b: Seq<u8>)
    ensures
        jdepth_seq(bytes_arr(b)) == 0,
{
    assert(forall|i: int| 0 <= i < bytes_arr(b).len() ==> jdepth(#[trigger] bytes_arr(b)[i]) <= 0);
    lemma_jdepth_seq_le(bytes_arr(b), 0);
}

/// A 32-byte key written as numbers reads back as the same bytes.
pub proof fn lemma_key32_arr_rt(b: Seq<u8>)
    requires
        b.len() == 32,
    ensures
        key32_of(bytes_arr(b)) == Some(b),
{
    assert(forall|k: int| 0 <= k < 32 ==> json_byte(#[trigger] bytes_arr(b)[k]));
    assert(key32_of(bytes_arr(b)).unwrap() =~= b);
}

} // verus!
