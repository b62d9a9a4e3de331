//! The snapshot records the schema carries — a friend, a conference peer,
//! a conference — as JSON objects, and lists of them as JSON arrays.

use vstd::prelude::*;

use crate::json::{Json, JsonV, jview, jview_seq, jview_fields, jdepth, jdepth_seq, jdepth_fields};
use crate::json_exec::{lemma_jview_seq_push, lemma_jview_seq_index};
use crate::json_rt::lemma_json_round_trip;
use crate::codec::{jlookup, sget_str, sget_u32, sget_u64, obj_get, jget_str, jget_u32, jget_u64, lemma_jdepth_seq_le, lemma_jview_fields3, lemma_jview_fields4, lemma_jview_fields6};
use crate::text::str_eq;

use crate::schema::{DecodeError, Friend, FriendV, PeerInfo, PeerInfoV, ConferenceInfo, ConferenceInfoV, UserStatus, ConferenceType, friends_view, peers_view, conferences_view};
use crate::codec_enums::{user_status_str, user_status_to_text, lemma_user_status_rt, sget_user_status, jget_user_status, conference_type_str, conference_type_to_text, lemma_conference_type_rt, sget_conference_type, jget_conference_type};

verus! {

broadcast use vstd::string::group_string_axioms;

/// The wire object of one peer info snapshot.
pub open spec fn peer_info_json(v: PeerInfoV) -> JsonV {
    JsonV::Obj(seq![
        ("number"@, JsonV::UInt(v.number as u64)),
        ("public_key"@, JsonV::Str(v.public_key)),
        ("name"@, JsonV::Str(v.name)),
    ])
}

pub open spec fn peer_info_from_json(j: JsonV) -> Result<PeerInfoV, DecodeError> {
    match j {
        JsonV::Obj(fs) => {
            match sget_u32(fs, "number"@) {
                Ok(number) => {
                    match sget_str(fs, "public_key"@) {
                        Ok(public_key) => {
                            match sget_str(fs, "name"@) {
                                Ok(name) => {
                                    Ok(PeerInfoV { number, public_key, name })
                                },
                                Err(e) => Err(e),
                            }
                        },
                        Err(e) => Err(e),
                    }
                },
                Err(e) => Err(e),
            }
        },
        _ => Err(DecodeError::MalformedField),
    }
}

fn peer_info_to_json_x(v: &PeerInfo) -> (j: Json)
    ensures
        j@ == peer_info_json(v@),
{
    let x1 = (String::from_str("number"), Json::UInt(v.number as u64));
    let ghost g1 = x1;
    let x2 = (String::from_str("public_key"), Json::Str(v.public_key.clone()));
    let ghost g2 = x2;
    let x3 = (String::from_str("name"), Json::Str(v.name.clone()));
    let ghost g3 = x3;
    let mut fields: Vec<(String, Json)> = Vec::new();
    fields.push(x1);
    fields.push(x2);
    fields.push(x3);
    proof {
        assert(fields@ =~= seq![g1, g2, g3]);
        lemma_jview_fields3(g1, g2, g3);
    }
    let j = Json::Obj(fields);
    proof {
        assert(jview(j) =~= peer_info_json(v@));
    }
    j
}

pub fn peer_info_to_json(v: &PeerInfo) -> (j: Json)
    ensures
        j@ == peer_info_json(v@),
{
    peer_info_to_json_x(v)
}

pub fn peer_info_of_json(j: &Json) -> (r: Result<PeerInfo, DecodeError>)
    ensures
        ({
            let sp = peer_info_from_json(j@);
            match r {
                Ok(x) => sp == Ok::<PeerInfoV, DecodeError>(x@),
                Err(e) => sp == Err::<PeerInfoV, DecodeError>(e),
            }
        }),
{
    match j {
        Json::Obj(fields) => {
            let number = match jget_u32(fields, "number") {
                Ok(v) => v,
                Err(e) => {
                    return Err(e);
                },
            };
            let public_key = match jget_str(fields, "public_key") {
                Ok(v) => v,
                Err(e) => {
                    return Err(e);
                },
            };
            let name = match jget_str(fields, "name") {
                Ok(v) => v,
                Err(e) => {
                    return Err(e);
                },
            };
            Ok(PeerInfo { number, public_key, name })
        },
        _ => Err(DecodeError::MalformedField),
    }
}

/// Reading back the wire object of a peer info gives the same snapshot,
/// and the object nests no deeper than 1.
pub proof fn lemma_peer_info_rt(v: PeerInfoV)
    ensures
        peer_info_from_json(peer_info_json(v)) == Ok::<PeerInfoV, DecodeError>(v),
        jdepth(peer_info_json(v)) <= 1,
{
    reveal_with_fuel(jlookup, 10);
    let m1 = ("number"@, JsonV::UInt(v.number as u64));
    let m2 = ("public_key"@, JsonV::Str(v.public_key));
    let m3 = ("name"@, JsonV::Str(v.name));
    let ms = seq![m1, m2, m3];
    assert(peer_info_json(v) == JsonV::Obj(ms));
    assert(ms.drop_first() =~= seq![m2, m3]);
    assert(seq![m2, m3].drop_first() =~= seq![m3]);
    assert(seq![m3].drop_first() =~= Seq::<(Seq<char>, JsonV)>::empty());
    let number = v.number;
    let public_key = v.public_key;
    let name = v.name;
    reveal_strlit("public_key");
    assert("public_key"@.len() == 10);
    reveal_strlit("number");
    assert("number"@.len() == 6);
    assert("public_key"@ != "number"@);
    reveal_strlit("name");
    assert("name"@.len() == 4);
    assert("name"@ != "number"@);
    assert("name"@ != "public_key"@);
    assert(jlookup(ms, "number"@) == Some(m1.1));
    assert(sget_u32(ms, "number"@) == Ok::<u32, DecodeError>(number));
    assert(jlookup(ms, "public_key"@) == Some(m2.1));
    assert(sget_str(ms, "public_key"@) == Ok::<Seq<char>, DecodeError>(public_key));
    assert(jlookup(ms, "name"@) == Some(m3.1));
    assert(sget_str(ms, "name"@) == Ok::<Seq<char>, DecodeError>(name));
    reveal_with_fuel(jdepth_fields, 10);
    assert(jdepth(m1.1) == 0);
    assert(jdepth(m2.1) == 0);
    assert(jdepth(m3.1) == 0);
    assert(jdepth_fields(seq![m3]) <= 0);
    assert(jdepth_fields(seq![m2, m3]) <= 0);
    assert(jdepth_fields(seq![m1, m2, m3]) <= 0);
    assert(jdepth(JsonV::Obj(ms)) <= 1);
}

/// A list of peer info snapshots as a JSON array.
pub open spec fn peer_infos_arr(s: Seq<PeerInfoV>) -> Seq<JsonV> {
    Seq::new(s.len(), |i: int| peer_info_json(s[i]))
}

pub open spec fn peer_infos_from_arr(items: Seq<JsonV>) -> Result<Seq<PeerInfoV>, DecodeError>
    decreases items.len(),
{
    if items.len() == 0 {
        Ok(Seq::empty())
    } else {
        match peer_info_from_json(items[0]) {
            Ok(x) => match peer_infos_from_arr(items.drop_first()) {
                Ok(rest) => Ok(seq![x] + rest),
                Err(e) => Err(e),
            },
            Err(e) => Err(e),
        }
    }
}

pub open spec fn sget_peer_infos(fs: Seq<(Seq<char>, JsonV)>, key: Seq<char>) -> Result<
    Seq<PeerInfoV>,
    DecodeError,
> {
    match jlookup(fs, key) {
        Some(JsonV::Arr(items)) => peer_infos_from_arr(items),
        Some(_) => Err(DecodeError::MalformedField),
        None => Err(DecodeError::MissingField),
    }
}

#[verifier::loop_isolation(false)]
pub fn peer_infos_to_json(v: &Vec<PeerInfo>) -> (j: Json)
    ensures
        j@ == JsonV::Arr(peer_infos_arr(peers_view(v@))),
{
    let ghost target = peer_infos_arr(peers_view(v@));
    let mut items: Vec<Json> = Vec::new();
    let n = v.len();
    let mut k: usize = 0;
    while k < n
        invariant
            k <= n,
            n == v@.len(),
            target == peer_infos_arr(peers_view(v@)),
            jview_seq(items@) =~= target.take(k as int),
        decreases n - k,
    {
        let e = peer_info_to_json(&v[k]);
        proof {
            lemma_jview_seq_push(items@, e);
        }
        items.push(e);
        proof {
            assert(jview_seq(items@) =~= target.take(k as int + 1));
        }
        k = k + 1;
    }
    proof {
        assert(target.take(n as int) =~= target);
    }
    Json::Arr(items)
}

#[verifier::loop_isolation(false)]
pub fn jget_peer_infos(fields: &Vec<(String, Json)>, key: &str) -> (r: Result<
    Vec<PeerInfo>,
    DecodeError,
>)
    ensures
        ({
            let sp = sget_peer_infos(jview_fields(fields@), key@);
            match r {
                Ok(v) => sp == Ok::<Seq<PeerInfoV>, DecodeError>(peers_view(v@)),
                Err(e) => sp == Err::<Seq<PeerInfoV>, DecodeError>(e),
            }
        }),
{
    match obj_get(fields, key) {
        Some(j) => match j {
            Json::Arr(items) => {
                let ghost sv = jview_seq(items@);
                proof {
                    lemma_jview_seq_index(items@);
                    assert(sv.skip(0) =~= sv);
                }
                let n = items.len();
                let mut out: Vec<PeerInfo> = Vec::new();
                let mut k: usize = 0;
                while k < n
                    invariant
                        k <= n,
                        n == items@.len(),
                        sv == jview_seq(items@),
                        peers_view(out@).len() == k,
                        peer_infos_from_arr(sv) == (match peer_infos_from_arr(sv.skip(k as int)) {
                            Ok(rest) => Ok::<Seq<PeerInfoV>, DecodeError>(peers_view(out@) + rest),
                            Err(e) => Err::<Seq<PeerInfoV>, DecodeError>(e),
                        }),
                    decreases n - k,
                {
                    proof {
                        assert(sv.skip(k as int)[0] == sv[k as int]);
                        assert(sv.skip(k as int).drop_first() =~= sv.skip(k as int + 1));
                    }
                    match peer_info_of_json(&items[k]) {
                        Ok(x) => {
                            let ghost prev = out@;
                            out.push(x);
                            proof {
                                assert(peers_view(out@) =~= peers_view(prev) + seq![x@]);
                                match peer_infos_from_arr(sv.skip(k as int + 1)) {
                                    Ok(rest) => {
                                        assert(peers_view(prev) + (seq![x@] + rest) =~= (peers_view(prev)
                                            + seq![x@]) + rest);
                                    },
                                    Err(_) => {},
                                }
                            }
                        },
                        Err(e) => {
                            return Err(e);
                        },
                    }
                    k = k + 1;
                }
                proof {
                    assert(sv.skip(n as int) =~= Seq::<JsonV>::empty());
                    assert(peers_view(out@) + Seq::<PeerInfoV>::empty() =~= peers_view(out@));
                }
                Ok(out)
            },
            _ => Err(DecodeError::MalformedField),
        },
        None => Err(DecodeError::MissingField),
    }
}

/// Reading back a rendered list gives the same snapshots.
pub proof fn lemma_peer_infos_arr_rt(s: Seq<PeerInfoV>)
    ensures
        peer_infos_from_arr(peer_infos_arr(s)) == Ok::<Seq<PeerInfoV>, DecodeError>(s),
    decreases s.len(),
{
    if s.len() == 0 {
        assert(peer_infos_arr(s).len() == 0);
        assert(s =~= Seq::<PeerInfoV>::empty());
    } else {
        lemma_peer_info_rt(s[0]);
        assert(peer_infos_arr(s).len() == s.len());
        assert(peer_infos_arr(s)[0] == peer_info_json(s[0]));
        assert(peer_info_from_json(peer_infos_arr(s)[0]) == Ok::<PeerInfoV, DecodeError>(s[0]));
        assert(peer_infos_arr(s).drop_first() =~= peer_infos_arr(s.drop_first()));
        lemma_peer_infos_arr_rt(s.drop_first());
        assert(peer_infos_from_arr(peer_infos_arr(s).drop_first()) == Ok::<Seq<PeerInfoV>, DecodeError>(
            s.drop_first(),
        ));
        assert(seq![s[0]] + s.drop_first() =~= s);
        assert(peer_infos_from_arr(peer_infos_arr(s)) == Ok::<Seq<PeerInfoV>, DecodeError>(seq![s[0]]
            + s.drop_first()));
    }
}

pub proof fn lemma_peer_infos_arr_depth(s: Seq<PeerInfoV>)
    ensures
        jdepth_seq(peer_infos_arr(s)) <= 1,
{
    assert forall|i: int| 0 <= i < peer_infos_arr(s).len() implies jdepth(
        #[trigger] peer_infos_arr(s)[i],
    ) <= 1 by {
        lemma_peer_info_rt(s[i]);
    }
    lemma_jdepth_seq_le(peer_infos_arr(s), 1);
}

/// The wire object of one friend snapshot.
pub open spec fn friend_json(v: FriendV) -> JsonV {
    JsonV::Obj(seq![
        ("number"@, JsonV::UInt(v.number as u64)),
        ("public_key"@, JsonV::Str(v.public_key)),
        ("name"@, JsonV::Str(v.name)),
        ("status"@, JsonV::Str(user_status_str(v.status))),
        ("status_message"@, JsonV::Str(v.status_message)),
        ("last_online"@, JsonV::UInt(v.last_online)),
    ])
}

pub open spec fn friend_from_json(j: JsonV) -> Result<FriendV, DecodeError> {
    match j {
        JsonV::Obj(fs) => {
            match sget_u32(fs, "number"@) {
                Ok(number) => {
                    match sget_str(fs, "public_key"@) {
                        Ok(public_key) => {
                            match sget_str(fs, "name"@) {
                                Ok(name) => {
                                    match sget_user_status(fs, "status"@) {
                                        Ok(status) => {
                                            match sget_str(fs, "status_message"@) {
                                                Ok(status_message) => {
                                                    match sget_u64(fs, "last_online"@) {
                                                        Ok(last_online) => {
                                                            Ok(FriendV { number, public_key, name, status, status_message, last_online })
                                                        },
                                                        Err(e) => Err(e),
                                                    }
                                                },
                                                Err(e) => Err(e),
                                            }
                                        },
                                        Err(e) => Err(e),
                                    }
                                },
                                Err(e) => Err(e),
                            }
                        },
                        Err(e) => Err(e),
                    }
                },
                Err(e) => Err(e),
            }
        },
        _ => Err(DecodeError::MalformedField),
    }
}

fn friend_to_json_x(v: &Friend) -> (j: Json)
    ensures
        j@ == friend_json(v@),
{
    let x1 = (String::from_str("number"), Json::UInt(v.number as u64));
    let ghost g1 = x1;
    let x2 = (String::from_str("public_key"), Json::Str(v.public_key.clone()));
    let ghost g2 = x2;
    let x3 = (String::from_str("name"), Json::Str(v.name.clone()));
    let ghost g3 = x3;
    let x4 = (String::from_str("status"), Json::Str(user_status_to_text(&v.status)));
    let ghost g4 = x4;
    let x5 = (String::from_str("status_message"), Json::Str(v.status_message.clone()));
    let ghost g5 = x5;
    let x6 = (String::from_str("last_online"), Json::UInt(v.last_online));
    let ghost g6 = x6;
    let mut fields: Vec<(String, Json)> = Vec::new();
    fields.push(x1);
    fields.push(x2);
    fields.push(x3);
    fields.push(x4);
    fields.push(x5);
    fields.push(x6);
    proof {
        assert(fields@ =~= seq![g1, g2, g3, g4, g5, g6]);
        lemma_jview_fields6(g1, g2, g3, g4, g5, g6);
    }
    let j = Json::Obj(fields);
    proof {
        assert(jview(j) =~= friend_json(v@));
    }
    j
}

pub fn friend_to_json(v: &Friend) -> (j: Json)
    ensures
        j@ == friend_json(v@),
{
    friend_to_json_x(v)
}

pub fn friend_of_json(j: &Json) -> (r: Result<Friend, DecodeError>)
    ensures
        ({
            let sp = friend_from_json(j@);
            match r {
                Ok(x) => sp == Ok::<FriendV, DecodeError>(x@),
                Err(e) => sp == Err::<FriendV, DecodeError>(e),
            }
        }),
{
    match j {
        Json::Obj(fields) => {
            let number = match jget_u32(fields, "number") {
                Ok(v) => v,
                Err(e) => {
                    return Err(e);
                },
            };
            let public_key = match jget_str(fields, "public_key") {
                Ok(v) => v,
                Err(e) => {
                    return Err(e);
                },
            };
            let name = match jget_str(fields, "name") {
                Ok(v) => v,
                Err(e) => {
                    return Err(e);
                },
            };
            let status = match jget_user_status(fields, "status") {
                Ok(v) => v,
                Err(e) => {
                    return Err(e);
                },
            };
            let status_message = match jget_str(fields, "status_message") {
                Ok(v) => v,
                Err(e) => {
                    return Err(e);
                },
            };
            let last_online = match jget_u64(fields, "last_online") {
                Ok(v) => v,
                Err(e) => {
                    return Err(e);
                },
            };
            Ok(Friend { number, public_key, name, status, status_message, last_online })
        },
        _ => Err(DecodeError::MalformedField),
    }
}

/// Reading back the wire object of a friend gives the same snapshot,
/// and the object nests no deeper than 1.
pub proof fn lemma_friend_rt(v: FriendV)
    ensures
        friend_from_json(friend_json(v)) == Ok::<FriendV, DecodeError>(v),
        jdepth(friend_json(v)) <= 1,
{
    reveal_with_fuel(jlookup, 10);
    let m1 = ("number"@, JsonV::UInt(v.number as u64));
    let m2 = ("public_key"@, JsonV::Str(v.public_key));
    let m3 = ("name"@, JsonV::Str(v.name));
    let m4 = ("status"@, JsonV::Str(user_status_str(v.status)));
    let m5 = ("status_message"@, JsonV::Str(v.status_message));
    let m6 = ("last_online"@, JsonV::UInt(v.last_online));
    let ms = seq![m1, m2, m3, m4, m5, m6];
    assert(friend_json(v) == JsonV::Obj(ms));
    assert(ms.drop_first() =~= seq![m2, m3, m4, m5, m6]);
    assert(seq![m2, m3, m4, m5, m6].drop_first() =~= seq![m3, m4, m5, m6]);
    assert(seq![m3, m4, m5, m6].drop_first() =~= seq![m4, m5, m6]);
    assert(seq![m4, m5, m6].drop_first() =~= seq![m5, m6]);
    assert(seq![m5, m6].drop_first() =~= seq![m6]);
    assert(seq![m6].drop_first() =~= Seq::<(Seq<char>, JsonV)>::empty());
    let number = v.number;
    let public_key = v.public_key;
    let name = v.name;
    let status = v.status;
    let status_message = v.status_message;
    let last_online = v.last_online;
    reveal_strlit("public_key");
    assert("public_key"@.len() == 10);
    reveal_strlit("number");
    assert("number"@.len() == 6);
    assert("public_key"@ != "number"@);
    reveal_strlit("name");
    assert("name"@.len() == 4);
    assert("name"@ != "number"@);
    assert("name"@ != "public_key"@);
    reveal_strlit("status");
    assert("status"@.len() == 6);
    assert("status"@[0] == 's');
    assert("number"@[0] == 'n');
    assert("status"@ != "number"@);
    assert("status"@ != "public_key"@);
    assert("status"@ != "name"@);
    reveal_strlit("status_message");
    assert("status_message"@.len() == 14);
    assert("status_message"@ != "number"@);
    assert("status_message"@ != "public_key"@);
    assert("status_message"@ != "name"@);
    assert("status_message"@ != "status"@);
    reveal_strlit("last_online");
    assert("last_online"@.len() == 11);
    assert("last_online"@ != "number"@);
    assert("last_online"@ != "public_key"@);
    assert("last_online"@ != "name"@);
    assert("last_online"@ != "status"@);
    assert("last_online"@ != "status_message"@);
    assert(jlookup(ms, "number"@) == Some(m1.1));
    assert(sget_u32(ms, "number"@) == Ok::<u32, DecodeError>(number));
    assert(jlookup(ms, "public_key"@) == Some(m2.1));
    assert(sget_str(ms, "public_key"@) == Ok::<Seq<char>, DecodeError>(public_key));
    assert(jlookup(ms, "name"@) == Some(m3.1));
    assert(sget_str(ms, "name"@) == Ok::<Seq<char>, DecodeError>(name));
    lemma_user_status_rt(status);
    assert(jlookup(ms, "status"@) == Some(m4.1));
    assert(sget_user_status(ms, "status"@) == Ok::<UserStatus, DecodeError>(status));
    assert(jlookup(ms, "status_message"@) == Some(m5.1));
    assert(sget_str(ms, "status_message"@) == Ok::<Seq<char>, DecodeError>(status_message));
    assert(jlookup(ms, "last_online"@) == Some(m6.1));
    assert(sget_u64(ms, "last_online"@) == Ok::<u64, DecodeError>(last_online));
    reveal_with_fuel(jdepth_fields, 10);
    assert(jdepth(m1.1) == 0);
    assert(jdepth(m2.1) == 0);
    assert(jdepth(m3.1) == 0);
    assert(jdepth(m4.1) == 0);
    assert(jdepth(m5.1) == 0);
    assert(jdepth(m6.1) == 0);
    assert(jdepth_fields(seq![m6]) <= 0);
    assert(jdepth_fields(seq![m5, m6]) <= 0);
    assert(jdepth_fields(seq![m4, m5, m6]) <= 0);
    assert(jdepth_fields(seq![m3, m4, m5, m6]) <= 0);
    assert(jdepth_fields(seq![m2, m3, m4, m5, m6]) <= 0);
    assert(jdepth_fields(seq![m1, m2, m3, m4, m5, m6]) <= 0);
    assert(jdepth(JsonV::Obj(ms)) <= 1);
}

/// A list of friend snapshots as a JSON array.
pub open spec fn friends_arr(s: Seq<FriendV>) -> Seq<JsonV> {
    Seq::new(s.len(), |i: int| friend_json(s[i]))
}

pub open spec fn friends_from_arr(items: Seq<JsonV>) -> Result<Seq<FriendV>, DecodeError>
    decreases items.len(),
{
    if items.len() == 0 {
        Ok(Seq::empty())
    } else {
        match friend_from_json(items[0]) {
            Ok(x) => match friends_from_arr(items.drop_first()) {
                Ok(rest) => Ok(seq![x] + rest),
                Err(e) => Err(e),
            },
            Err(e) => Err(e),
        }
    }
}

pub open spec fn sget_friends(fs: Seq<(Seq<char>, JsonV)>, key: Seq<char>) -> Result<
    Seq<FriendV>,
    DecodeError,
> {
    match jlookup(fs, key) {
        Some(JsonV::Arr(items)) => friends_from_arr(items),
        Some(_) => Err(DecodeError::MalformedField),
        None => Err(DecodeError::MissingField),
    }
}

#[verifier::loop_isolation(false)]
pub fn friends_to_json(v: &Vec<Friend>) -> (j: Json)
    ensures
        j@ == JsonV::Arr(friends_arr(friends_view(v@))),
{
    let ghost target = friends_arr(friends_view(v@));
    let mut items: Vec<Json> = Vec::new();
    let n = v.len();
    let mut k: usize = 0;
    while k < n
        invariant
            k <= n,
            n == v@.len(),
            target == friends_arr(friends_view(v@)),
            jview_seq(items@) =~= target.take(k as int),
        decreases n - k,
    {
        let e = friend_to_json(&v[k]);
        proof {
            lemma_jview_seq_push(items@, e);
        }
        items.push(e);
        proof {
            assert(jview_seq(items@) =~= target.take(k as int + 1));
        }
        k = k + 1;
    }
    proof {
        assert(target.take(n as int) =~= target);
    }
    Json::Arr(items)
}

#[verifier::loop_isolation(false)]
pub fn jget_friends(fields: &Vec<(String, Json)>, key: &str) -> (r: Result<
    Vec<Friend>,
    DecodeError,
>)
    ensures
        ({
            let sp = sget_friends(jview_fields(fields@), key@);
            match r {
                Ok(v) => sp == Ok::<Seq<FriendV>, DecodeError>(friends_view(v@)),
                Err(e) => sp == Err::<Seq<FriendV>, DecodeError>(e),
            }
        }),
{
    match obj_get(fields, key) {
        Some(j) => match j {
            Json::Arr(items) => {
                let ghost sv = jview_seq(items@);
                proof {
                    lemma_jview_seq_index(items@);
                    assert(sv.skip(0) =~= sv);
                }
                let n = items.len();
                let mut out: Vec<Friend> = Vec::new();
                let mut k: usize = 0;
                while k < n
                    invariant
                        k <= n,
                        n == items@.len(),
                        sv == jview_seq(items@),
                        friends_view(out@).len() == k,
                        friends_from_arr(sv) == (match friends_from_arr(sv.skip(k as int)) {
                            Ok(rest) => Ok::<Seq<FriendV>, DecodeError>(friends_view(out@) + rest),
                            Err(e) => Err::<Seq<FriendV>, DecodeError>(e),
                        }),
                    decreases n - k,
                {
                    proof {
                        assert(sv.skip(k as int)[0] == sv[k as int]);
                        assert(sv.skip(k as int).drop_first() =~= sv.skip(k as int + 1));
                    }
                    match friend_of_json(&items[k]) {
                        Ok(x) => {
                            let ghost prev = out@;
                            out.push(x);
                            proof {
                                assert(friends_view(out@) =~= friends_view(prev) + seq![x@]);
                                match friends_from_arr(sv.skip(k as int + 1)) {
                                    Ok(rest) => {
                                        assert(friends_view(prev) + (seq![x@] + rest) =~= (friends_view(prev)
                                            + seq![x@]) + rest);
                                    },
                                    Err(_) => {},
                                }
                            }
                        },
                        Err(e) => {
                            return Err(e);
                        },
                    }
                    k = k + 1;
                }
                proof {
                    assert(sv.skip(n as int) =~= Seq::<JsonV>::empty());
                    assert(friends_view(out@) + Seq::<FriendV>::empty() =~= friends_view(out@));
                }
                Ok(out)
            },
            _ => Err(DecodeError::MalformedField),
        },
        None => Err(DecodeError::MissingField),
    }
}

/// Reading back a rendered list gives the same snapshots.
pub proof fn lemma_friends_arr_rt(s: Seq<FriendV>)
    ensures
        friends_from_arr(friends_arr(s)) == Ok::<Seq<FriendV>, DecodeError>(s),
    decreases s.len(),
{
    if s.len() == 0 {
        assert(friends_arr(s).len() == 0);
        assert(s =~= Seq::<FriendV>::empty());
    } else {
        lemma_friend_rt(s[0]);
        assert(friends_arr(s).len() == s.len());
        assert(friends_arr(s)[0] == friend_json(s[0]));
        assert(friend_from_json(friends_arr(s)[0]) == Ok::<FriendV, DecodeError>(s[0]));
        assert(friends_arr(s).drop_first() =~= friends_arr(s.drop_first()));
        lemma_friends_arr_rt(s.drop_first());
        assert(friends_from_arr(friends_arr(s).drop_first()) == Ok::<Seq<FriendV>, DecodeError>(
            s.drop_first(),
        ));
        assert(seq![s[0]] + s.drop_first() =~= s);
        assert(friends_from_arr(friends_arr(s)) == Ok::<Seq<FriendV>, DecodeError>(seq![s[0]]
            + s.drop_first()));
    }
}

pub proof fn lemma_friends_arr_depth(s: Seq<FriendV>)
    ensures
        jdepth_seq(friends_arr(s)) <= 1,
{
    assert forall|i: int| 0 <= i < friends_arr(s).len() implies jdepth(
        #[trigger] friends_arr(s)[i],
    ) <= 1 by {
        lemma_friend_rt(s[i]);
    }
    lemma_jdepth_seq_le(friends_arr(s), 1);
}

/// The wire object of one conference info snapshot.
pub open spec fn conference_info_json(v: ConferenceInfoV) -> JsonV {
    JsonV::Obj(seq![
        ("number"@, JsonV::UInt(v.number as u64)),
        ("kind"@, JsonV::Str(conference_type_str(v.kind))),
        ("title"@, JsonV::Str(v.title)),
        ("peers"@, JsonV::Arr(peer_infos_arr(v.peers))),
    ])
}

pub open spec fn conference_info_from_json(j: JsonV) -> Result<ConferenceInfoV, DecodeError> {
    match j {
        JsonV::Obj(fs) => {
            match sget_u32(fs, "number"@) {
                Ok(number) => {
                    match sget_conference_type(fs, "kind"@) {
                        Ok(kind) => {
                            match sget_str(fs, "title"@) {
                                Ok(title) => {
                                    match sget_peer_infos(fs, "peers"@) {
                                        Ok(peers) => {
                                            Ok(ConferenceInfoV { number, kind, title, peers })
                                        },
                                        Err(e) => Err(e),
                                    }
                                },
                                Err(e) => Err(e),
                            }
                        },
                        Err(e) => Err(e),
                    }
                },
                Err(e) => Err(e),
            }
        },
        _ => Err(DecodeError::MalformedField),
    }
}

fn conference_info_to_json_x(v: &ConferenceInfo) -> (j: Json)
    ensures
        j@ == conference_info_json(v@),
{
    let x1 = (String::from_str("number"), Json::UInt(v.number as u64));
    let ghost g1 = x1;
    let x2 = (String::from_str("kind"), Json::Str(conference_type_to_text(&v.kind)));
    let ghost g2 = x2;
    let x3 = (String::from_str("title"), Json::Str(v.title.clone()));
    let ghost g3 = x3;
    let x4 = (String::from_str("peers"), peer_infos_to_json(&v.peers));
    let ghost g4 = x4;
    let mut fields: Vec<(String, Json)> = Vec::new();
    fields.push(x1);
    fields.push(x2);
    fields.push(x3);
    fields.push(x4);
    proof {
        assert(fields@ =~= seq![g1, g2, g3, g4]);
        lemma_jview_fields4(g1, g2, g3, g4);
    }
    let j = Json::Obj(fields);
    proof {
        assert(jview(j) =~= conference_info_json(v@));
    }
    j
}

pub fn conference_info_to_json(v: &ConferenceInfo) -> (j: Json)
    ensures
        j@ == conference_info_json(v@),
{
    conference_info_to_json_x(v)
}

pub fn conference_info_of_json(j: &Json) -> (r: Result<ConferenceInfo, DecodeError>)
    ensures
        ({
            let sp = conference_info_from_json(j@);
            match r {
                Ok(x) => sp == Ok::<ConferenceInfoV, DecodeError>(x@),
                Err(e) => sp == Err::<ConferenceInfoV, DecodeError>(e),
            }
        }),
{
    match j {
        Json::Obj(fields) => {
            let number = match jget_u32(fields, "number") {
                Ok(v) => v,
                Err(e) => {
                    return Err(e);
                },
            };
            let kind = match jget_conference_type(fields, "kind") {
                Ok(v) => v,
                Err(e) => {
                    return Err(e);
                },
            };
            let title = match jget_str(fields, "title") {
                Ok(v) => v,
                Err(e) => {
                    return Err(e);
                },
            };
            let peers = match jget_peer_infos(fields, "peers") {
                Ok(v) => v,
                Err(e) => {
                    return Err(e);
                },
            };
            Ok(ConferenceInfo { number, kind, title, peers })
        },
        _ => Err(DecodeError::MalformedField),
    }
}

/// Reading back the wire object of a conference info gives the same snapshot,
/// and the object nests no deeper than 3.
pub proof fn lemma_conference_info_rt(v: ConferenceInfoV)
    ensures
        conference_info_from_json(conference_info_json(v)) == Ok::<ConferenceInfoV, DecodeError>(v),
        jdepth(conference_info_json(v)) <= 3,
{
    reveal_with_fuel(jlookup, 10);
    let m1 = ("number"@, JsonV::UInt(v.number as u64));
    let m2 = ("kind"@, JsonV::Str(conference_type_str(v.kind)));
    let m3 = ("title"@, JsonV::Str(v.title));
    let m4 = ("peers"@, JsonV::Arr(peer_infos_arr(v.peers)));
    let ms = seq![m1, m2, m3, m4];
    assert(conference_info_json(v) == JsonV::Obj(ms));
    assert(ms.drop_first() =~= seq![m2, m3, m4]);
    assert(seq![m2, m3, m4].drop_first() =~= seq![m3, m4]);
    assert(seq![m3, m4].drop_first() =~= seq![m4]);
    assert(seq![m4].drop_first() =~= Seq::<(Seq<char>, JsonV)>::empty());
    let number = v.number;
    let kind = v.kind;
    let title = v.title;
    let peers = v.peers;
    reveal_strlit("kind");
    assert("kind"@.len() == 4);
    reveal_strlit("number");
    assert("number"@.len() == 6);
    assert("kind"@ != "number"@);
    reveal_strlit("title");
    assert("title"@.len() == 5);
    assert("title"@ != "number"@);
    assert("title"@ != "kind"@);
    reveal_strlit("peers");
    assert("peers"@.len() == 5);
    assert("peers"@ != "number"@);
    assert("peers"@ != "kind"@);
    assert("peers"@[0] == 'p');
    assert("title"@[0] == 't');
    assert("peers"@ != "title"@);
    assert(jlookup(ms, "number"@) == Some(m1.1));
    assert(sget_u32(ms, "number"@) == Ok::<u32, DecodeError>(number));
    lemma_conference_type_rt(kind);
    assert(jlookup(ms, "kind"@) == Some(m2.1));
    assert(sget_conference_type(ms, "kind"@) == Ok::<ConferenceType, DecodeError>(kind));
    assert(jlookup(ms, "title"@) == Some(m3.1));
    assert(sget_str(ms, "title"@) == Ok::<Seq<char>, DecodeError>(title));
    lemma_peer_infos_arr_rt(peers);
    assert(jlookup(ms, "peers"@) == Some(m4.1));
    assert(sget_peer_infos(ms, "peers"@) == Ok::<Seq<PeerInfoV>, DecodeError>(peers));
    reveal_with_fuel(jdepth_fields, 10);
    assert(jdepth(m1.1) == 0);
    assert(jdepth(m2.1) == 0);
    assert(jdepth(m3.1) == 0);
    lemma_peer_infos_arr_depth(peers);
    assert(jdepth(m4.1) <= 2);
    assert(jdepth_fields(seq![m4]) <= 2);
    assert(jdepth_fields(seq![m3, m4]) <= 2);
    assert(jdepth_fields(seq![m2, m3, m4]) <= 2);
    assert(jdepth_fields(seq![m1, m2, m3, m4]) <= 2);
    assert(jdepth(JsonV::Obj(ms)) <= 3);
}

/// A list of conference info snapshots as a JSON array.
pub open spec fn conference_infos_arr(s: Seq<ConferenceInfoV>) -> Seq<JsonV> {
    Seq::new(s.len(), |i: int| conference_info_json(s[i]))
}

pub open spec fn conference_infos_from_arr(items: Seq<JsonV>) -> Result<Seq<ConferenceInfoV>, DecodeError>
    decreases items.len(),
{
    if items.len() == 0 {
        Ok(Seq::empty())
    } else {
        match conference_info_from_json(items[0]) {
            Ok(x) => match conference_infos_from_arr(items.drop_first()) {
                Ok(rest) => Ok(seq![x] + rest),
                Err(e) => Err(e),
            },
            Err(e) => Err(e),
        }
    }
}

pub open spec fn sget_conference_infos(fs: Seq<(Seq<char>, JsonV)>, key: Seq<char>) -> Result<
    Seq<ConferenceInfoV>,
    DecodeError,
> {
    match jlookup(fs, key) {
        Some(JsonV::Arr(items)) => conference_infos_from_arr(items),
        Some(_) => Err(DecodeError::MalformedField),
        None => Err(DecodeError::MissingField),
    }
}

#[verifier::loop_isolation(false)]
pub fn conference_infos_to_json(v: &Vec<ConferenceInfo>) -> (j: Json)
    ensures
        j@ == JsonV::Arr(conference_infos_arr(conferences_view(v@))),
{
    let ghost target = conference_infos_arr(conferences_view(v@));
    let mut items: Vec<Json> = Vec::new();
    let n = v.len();
    let mut k: usize = 0;
    while k < n
        invariant
            k <= n,
            n == v@.len(),
            target == conference_infos_arr(conferences_view(v@)),
            jview_seq(items@) =~= target.take(k as int),
        decreases n - k,
    {
        let e = conference_info_to_json(&v[k]);
        proof {
            lemma_jview_seq_push(items@, e);
        }
        items.push(e);
        proof {
            assert(jview_seq(items@) =~= target.take(k as int + 1));
        }
        k = k + 1;
    }
    proof {
        assert(target.take(n as int) =~= target);
    }
    Json::Arr(items)
}

#[verifier::loop_isolation(false)]
pub fn jget_conference_infos(fields: &Vec<(String, Json)>, key: &str) -> (r: Result<
    Vec<ConferenceInfo>,
    DecodeError,
>)
    ensures
        ({
            let sp = sget_conference_infos(jview_fields(fields@), key@);
            match r {
                Ok(v) => sp == Ok::<Seq<ConferenceInfoV>, DecodeError>(conferences_view(v@)),
                Err(e) => sp == Err::<Seq<ConferenceInfoV>, DecodeError>(e),
            }
        }),
{
    match obj_get(fields, key) {
        Some(j) => match j {
            Json::Arr(items) => {
                let ghost sv = jview_seq(items@);
                proof {
                    lemma_jview_seq_index(items@);
                    assert(sv.skip(0) =~= sv);
                }
                let n = items.len();
                let mut out: Vec<ConferenceInfo> = Vec::new();
                let mut k: usize = 0;
                while k < n
                    invariant
                        k <= n,
                        n == items@.len(),
                        sv == jview_seq(items@),
                        conferences_view(out@).len() == k,
                        conference_infos_from_arr(sv) == (match conference_infos_from_arr(sv.skip(k as int)) {
                            Ok(rest) => Ok::<Seq<ConferenceInfoV>, DecodeError>(conferences_view(out@) + rest),
                            Err(e) => Err::<Seq<ConferenceInfoV>, DecodeError>(e),
                        }),
                    decreases n - k,
                {
                    proof {
                        assert(sv.skip(k as int)[0] == sv[k as int]);
                        assert(sv.skip(k as int).drop_first() =~= sv.skip(k as int + 1));
                    }
                    match conference_info_of_json(&items[k]) {
                        Ok(x) => {
                            let ghost prev = out@;
                            out.push(x);
                            proof {
                                assert(conferences_view(out@) =~= conferences_view(prev) + seq![x@]);
                                match conference_infos_from_arr(sv.skip(k as int + 1)) {
                                    Ok(rest) => {
                                        assert(conferences_view(prev) + (seq![x@] + rest) =~= (conferences_view(prev)
                                            + seq![x@]) + rest);
                                    },
                                    Err(_) => {},
                                }
                            }
                        },
                        Err(e) => {
                            return Err(e);
                        },
                    }
                    k = k + 1;
                }
                proof {
                    assert(sv.skip(n as int) =~= Seq::<JsonV>::empty());
                    assert(conferences_view(out@) + Seq::<ConferenceInfoV>::empty() =~= conferences_view(out@));
                }
                Ok(out)
            },
            _ => Err(DecodeError::MalformedField),
        },
        None => Err(DecodeError::MissingField),
    }
}

/// Reading back a rendered list gives the same snapshots.
pub proof fn lemma_conference_infos_arr_rt(s: Seq<ConferenceInfoV>)
    ensures
        conference_infos_from_arr(conference_infos_arr(s)) == Ok::<Seq<ConferenceInfoV>, DecodeError>(s),
    decreases s.len(),
{
    if s.len() == 0 {
        assert(conference_infos_arr(s).len() == 0);
        assert(s =~= Seq::<ConferenceInfoV>::empty());
    } else {
        lemma_conference_info_rt(s[0]);
        assert(conference_infos_arr(s).len() == s.len());
        assert(conference_infos_arr(s)[0] == conference_info_json(s[0]));
        assert(conference_info_from_json(conference_infos_arr(s)[0]) == Ok::<ConferenceInfoV, DecodeError>(s[0]));
        assert(conference_infos_arr(s).drop_first() =~= conference_infos_arr(s.drop_first()));
        lemma_conference_infos_arr_rt(s.drop_first());
        assert(conference_infos_from_arr(conference_infos_arr(s).drop_first()) == Ok::<Seq<ConferenceInfoV>, DecodeError>(
            s.drop_first(),
        ));
        assert(seq![s[0]] + s.drop_first() =~= s);
        assert(conference_infos_from_arr(conference_infos_arr(s)) == Ok::<Seq<ConferenceInfoV>, DecodeError>(seq![s[0]]
            + s.drop_first()));
    }
}

pub proof fn lemma_conference_infos_arr_depth(s: Seq<ConferenceInfoV>)
    ensures
        jdepth_seq(conference_infos_arr(s)) <= 3,
{
    assert forall|i: int| 0 <= i < conference_infos_arr(s).len() implies jdepth(
        #[trigger] conference_infos_arr(s)[i],
    ) <= 3 by {
        lemma_conference_info_rt(s[i]);
    }
    lemma_jdepth_seq_le(conference_infos_arr(s), 3);
}

} // verus!