//! Standard base64 with padding: the text-safe form of the protocol's
//! variable-length binary fields (file chunks, conference invite cookies).
//!
//! The encoding is pinned down by the spec function [`b64_of`]; the calls
//! into the `base64` crate are trusted against it, and everything else —
//! injectivity, and the canonical decoder the schema uses — is proved.

use vstd::prelude::*;

use crate::text::{str_to_chars, str_eq};

verus! {

broadcast use vstd::utf8::char_u32_cast, vstd::utf8::char_is_scalar;

/// The alphabet of standard base64: letters, digits, `+` and `/`.
pub open spec fn b64_char(v: nat) -> char {
    if v < 26 {
        ((65 + v) as u32) as char
    } else if v < 52 {
        ((97 + (v - 26)) as u32) as char
    } else if v < 62 {
        ((48 + (v - 52)) as u32) as char
    } else if v == 62 {
        '+'
    } else {
        '/'
    }
}

/// Standard base64 with padding, as RFC 4648 defines it: three bytes make
/// four characters, a final byte or pair is padded with `=`.
pub open spec fn b64_of(b: Seq<u8>) -> Seq<char>
    decreases b.len(),
{
    if b.len() == 0 {
        Seq::empty()
    } else if b.len() == 1 {
        seq![
            b64_char((b[0] / 4) as nat),
            b64_char(((b[0] % 4) * 16) as nat),
            '=',
            '=',
        ]
    } else if b.len() == 2 {
        seq![
            b64_char((b[0] / 4) as nat),
            b64_char(((b[0] % 4) * 16 + b[1] / 16) as nat),
            b64_char(((b[1] % 16) * 4) as nat),
            '=',
        ]
    } else {
        seq![
            b64_char((b[0] / 4) as nat),
            b64_char(((b[0] % 4) * 16 + b[1] / 16) as nat),
            b64_char(((b[1] % 16) * 4 + b[2] / 64) as nat),
            b64_char((b[2] % 64) as nat),
        ] + b64_of(b.skip(3))
    }
}

/// Distinct six-bit values have distinct alphabet characters.
proof fn lemma_b64_char_inj(v1: nat, v2: nat)
    requires
        v1 < 64,
        v2 < 64,
        b64_char(v1) == b64_char(v2),
    ensures
        v1 == v2,
{
}

/// No alphabet character is the padding character.
proof fn lemma_b64_char_ne_pad(v: nat)
    requires
        v < 64,
    ensures
        b64_char(v) != '=',
{
    assert('=' as u32 == 61);
}

/// The encoding of `n` bytes takes four characters per started triple.
proof fn lemma_b64_len(b: Seq<u8>)
    ensures
        b64_of(b).len() == 4 * ((b.len() + 2) / 3),
    decreases b.len(),
{
    if b.len() > 2 {
        lemma_b64_len(b.skip(3));
    }
}

/// No two byte strings share an encoding.
pub proof fn lemma_b64_injective(b1: Seq<u8>, b2: Seq<u8>)
    requires
        b64_of(b1) == b64_of(b2),
    ensures
        b1 == b2,
    decreases b1.len(),
{
    lemma_b64_len(b1);
    lemma_b64_len(b2);
    let o = b64_of(b1);
    if b1.len() == 0 {
        assert(b2.len() == 0);
        assert(b1 =~= b2);
    } else if b1.len() == 1 {
        // Four characters, two of them padding.
        assert(b2.len() <= 2) by {
            if b2.len() >= 3 {
                assert(b64_of(b2).len() >= 8) by {
                    lemma_b64_len(b2.skip(3));
                }
            }
        }
        assert(b2.len() == 1) by {
            if b2.len() == 2 {
                lemma_b64_char_ne_pad(((b2[1] % 16) * 4) as nat);
                assert(o[2] == '=');
            }
        }
        lemma_b64_char_inj((b1[0] / 4) as nat, (b2[0] / 4) as nat);
        lemma_b64_char_inj(((b1[0] % 4) * 16) as nat, ((b2[0] % 4) * 16) as nat);
        assert(b1[0] == b2[0]);
        assert(b1 =~= b2);
    } else if b1.len() == 2 {
        assert(b2.len() <= 2) by {
            if b2.len() >= 3 {
                assert(b64_of(b2).len() >= 8) by {
                    lemma_b64_len(b2.skip(3));
                }
            }
        }
        assert(b2.len() == 2) by {
            if b2.len() == 1 {
                lemma_b64_char_ne_pad(((b1[1] % 16) * 4) as nat);
                assert(b64_of(b2)[2] == '=');
            }
        }
        lemma_b64_char_inj((b1[0] / 4) as nat, (b2[0] / 4) as nat);
        lemma_b64_char_inj(
            ((b1[0] % 4) * 16 + b1[1] / 16) as nat,
            ((b2[0] % 4) * 16 + b2[1] / 16) as nat,
        );
        lemma_b64_char_inj(((b1[1] % 16) * 4) as nat, ((b2[1] % 16) * 4) as nat);
        assert(b1[0] == b2[0]);
        assert(b1[1] == b2[1]);
        assert(b1 =~= b2);
    } else {
        assert(b2.len() >= 3) by {
            if b2.len() == 1 || b2.len() == 2 {
                lemma_b64_char_ne_pad(((b1[1] % 16) * 4 + b1[2] / 64) as nat);
                lemma_b64_char_ne_pad((b1[2] % 64) as nat);
                assert(b64_of(b2)[3] == '=');
                assert(o[3] != '=');
            }
        }
        let t1 = b64_of(b1.skip(3));
        let t2 = b64_of(b2.skip(3));
        assert(o[0] == b64_char((b1[0] / 4) as nat) && o[0] == b64_char((b2[0] / 4) as nat));
        assert(o[1] == b64_char(((b1[0] % 4) * 16 + b1[1] / 16) as nat) && o[1] == b64_char(
            ((b2[0] % 4) * 16 + b2[1] / 16) as nat,
        ));
        assert(o[2] == b64_char(((b1[1] % 16) * 4 + b1[2] / 64) as nat) && o[2] == b64_char(
            ((b2[1] % 16) * 4 + b2[2] / 64) as nat,
        ));
        assert(o[3] == b64_char((b1[2] % 64) as nat) && o[3] == b64_char((b2[2] % 64) as nat));
        lemma_b64_char_inj((b1[0] / 4) as nat, (b2[0] / 4) as nat);
        lemma_b64_char_inj(
            ((b1[0] % 4) * 16 + b1[1] / 16) as nat,
            ((b2[0] % 4) * 16 + b2[1] / 16) as nat,
        );
        lemma_b64_char_inj(
            ((b1[1] % 16) * 4 + b1[2] / 64) as nat,
            ((b2[1] % 16) * 4 + b2[2] / 64) as nat,
        );
        lemma_b64_char_inj((b1[2] % 64) as nat, (b2[2] % 64) as nat);
        assert(b1[0] == b2[0] && b1[1] == b2[1] && b1[2] == b2[2]);
        assert(t1 =~= t2) by {
            assert(t1 =~= o.skip(4));
            assert(t2 =~= b64_of(b2).skip(4));
        }
        lemma_b64_injective(b1.skip(3), b2.skip(3));
        assert(b1.len() == b2.len());
        assert forall|k: int| 0 <= k < b1.len() implies b1[k] == b2[k] by {
            if k >= 3 {
                assert(b1.skip(3)[k - 3] == b2.skip(3)[k - 3]);
            }
        }
        assert(b1 =~= b2);
    }
}

/// Every encoding is read back as exactly the bytes that made it.
pub proof fn lemma_b64_inv_of(b: Seq<u8>)
    ensures
        b64_inv(b64_of(b)) == Some(b),
{
    assert(exists|x: Seq<u8>| b64_of(b) == b64_of(x)) by {
        assert(b64_of(b) == b64_of(b));
    }
    let b0 = choose|x: Seq<u8>| b64_of(b) == b64_of(x);
    lemma_b64_injective(b, b0);
}

/// The bytes a text stands for under the canonical encoding, if any.
pub open spec fn b64_inv(s: Seq<char>) -> Option<Seq<u8>> {
    if exists|b: Seq<u8>| s == b64_of(b) {
        Some(choose|b: Seq<u8>| s == b64_of(b))
    } else {
        None
    }
}

/// Relies on `base64::encode` with the standard alphabet: the canonical
/// padded base64 text of the bytes, as `b64_of` states it. The bound is
/// the exact condition under which the crate's output-size computation
/// does not overflow, which would make it panic.
#[verifier::external_body]
fn b64_encode_raw(b: &Vec<u8>) -> (r: String)
    requires
        4 * ((b@.len() + 2) / 3) <= usize::MAX as nat,
    ensures
        r@ == b64_of(b@),
{
    base64::encode(b.as_slice())
}

/// Relies on `base64::decode` with the standard alphabet: it accepts the
/// canonical encoding of any bytes and gives back exactly those bytes.
/// Nothing is assumed of what it returns on other text.
#[verifier::external_body]
fn b64_decode_raw(s: &str) -> (r: Option<Vec<u8>>)
    ensures
        match r {
            Some(v) => forall|b: Seq<u8>| s@ == b64_of(b) ==> v@ == b,
            None => forall|b: Seq<u8>| s@ != b64_of(b),
        },
{
    base64::decode(s).ok()
}

/// The canonical base64 text of the given bytes.
pub fn b64_encode(b: &Vec<u8>) -> (r: String)
    requires
        4 * ((b@.len() + 2) / 3) <= usize::MAX as nat,
    ensures
        r@ == b64_of(b@),
{
    b64_encode_raw(b)
}

/// The bytes whose canonical encoding is exactly `s`, or nothing. Decoding
/// is strict: text the encoder would not produce is refused, so that what
/// a message means is a function of its exact bytes.
pub fn b64_decode_canonical(s: &str) -> (r: Option<Vec<u8>>)
    ensures
        match r {
            Some(v) => b64_inv(s@) == Some(v@),
            None => b64_inv(s@) is None,
        },
{
    let cs = str_to_chars(s);
    let ns = cs.len();
    match b64_decode_raw(s) {
        None => {
            proof {
                if exists|b: Seq<u8>| s@ == b64_of(b) {
                    let b0 = choose|b: Seq<u8>| s@ == b64_of(b);
                    assert(s@ == b64_of(b0));
                    assert(false);
                }
            }
            None
        },
        Some(v) => {
            let expected: u128 = 4u128 * ((v.len() as u128 + 2) / 3);
            if expected != ns as u128 {
                proof {
                    if exists|b: Seq<u8>| s@ == b64_of(b) {
                        let b0 = choose|b: Seq<u8>| s@ == b64_of(b);
                        assert(v@ == b0);
                        lemma_b64_len(b0);
                        assert(false);
                    }
                }
                None
            } else {
                let s2 = b64_encode_raw(&v);
                if str_eq(s2.as_str(), s) {
                    proof {
                        assert(s@ == b64_of(v@));
                        let b0 = choose|b: Seq<u8>| s@ == b64_of(b);
                        lemma_b64_injective(v@, b0);
                        assert(b64_inv(s@) == Some(v@));
                    }
                    Some(v)
                } else {
                    proof {
                        if exists|b: Seq<u8>| s@ == b64_of(b) {
                            let b0 = choose|b: Seq<u8>| s@ == b64_of(b);
                            assert(v@ == b0);
                            assert(s2@ == b64_of(v@));
                            assert(false);
                        }
                    }
                    None
                }
            }
        },
    }
}

} // verus!
