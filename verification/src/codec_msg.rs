//! The `ServerMessage` envelope on the wire: exactly one of two shapes,
//! an object whose single meaningful member is either `Response` or
//! `Event`, holding that family's tagged object.

use vstd::prelude::*;

use crate::json::{Json, JsonV, jview, jdepth, jdepth_fields, render, sp_json};
use crate::json_exec::{to_text, from_text};
use crate::json_rt::lemma_json_round_trip;
use crate::codec::{jlookup, obj_get, lemma_jview_fields1};
use crate::codec_resp::{resp_to_json, resp_from_json, response_value_to_json, response_value_of_json, lemma_resp_from_to};
use crate::codec_event::{ev_to_json, ev_from_json, event_value_to_json, event_value_of_json, lemma_ev_from_to, ev_encodable, ev_wf};
use crate::schema::{DecodeError, ServerMessage, ServerMessageV, Response, Event};

verus! {

broadcast use vstd::string::group_string_axioms;

/// The wire object of one envelope: the outer tag names the kind.
pub open spec fn msg_to_json(v: ServerMessageV) -> JsonV {
    match v {
        ServerMessageV::Response(r) => JsonV::Obj(seq![("Response"@, resp_to_json(r))]),
        ServerMessageV::Event(e) => JsonV::Obj(seq![("Event"@, ev_to_json(e))]),
    }
}

/// What a JSON value means as an envelope: a `Response` member wins, then
/// an `Event` member; anything else is no envelope of this schema.
pub open spec fn msg_from_json(j: JsonV) -> Result<ServerMessageV, DecodeError> {
    match j {
        JsonV::Obj(fs) => match jlookup(fs, "Response"@) {
            Some(jr) => match resp_from_json(jr) {
                Ok(r) => Ok(ServerMessageV::Response(r)),
                Err(e) => Err(e),
            },
            None => match jlookup(fs, "Event"@) {
                Some(je) => match ev_from_json(je) {
                    Ok(e) => Ok(ServerMessageV::Event(e)),
                    Err(e) => Err(e),
                },
                None => Err(DecodeError::UnknownVariant),
            },
        },
        _ => Err(DecodeError::MalformedField),
    }
}

/// What a whole wire text means as an envelope.
pub open spec fn msg_decode(s: Seq<char>) -> Result<ServerMessageV, DecodeError> {
    match sp_json(s) {
        Some(j) => msg_from_json(j),
        None => Err(DecodeError::Syntax),
    }
}

/// The machine limit on encoding an envelope: that of the event it carries.
pub open spec fn msg_encodable(v: ServerMessageV) -> bool {
    match v {
        ServerMessageV::Event(e) => ev_encodable(e),
        _ => true,
    }
}

/// Structural soundness of a mirror envelope.
pub open spec fn msg_wf(v: ServerMessageV) -> bool {
    match v {
        ServerMessageV::Event(e) => ev_wf(e),
        _ => true,
    }
}

/// The view of every constructible envelope is well-formed.
pub proof fn lemma_msg_view_wf(x: ServerMessage)
    ensures
        msg_wf(x@),
{
}

/// Reading back the wire object of any envelope gives the same value, and
/// that object nests far below the parser's depth limit.
pub proof fn lemma_msg_from_to(v: ServerMessageV)
    requires
        msg_wf(v),
    ensures
        msg_from_json(msg_to_json(v)) == Ok::<ServerMessageV, DecodeError>(v),
        jdepth(msg_to_json(v)) <= 7,
{
    reveal_with_fuel(jlookup, 4);
    reveal_with_fuel(jdepth_fields, 4);
    reveal_strlit("Response");
    assert("Response"@.len() == 8);
    reveal_strlit("Event");
    assert("Event"@.len() == 5);
    assert("Event"@ != "Response"@);
    match v {
        ServerMessageV::Response(r) => {
            let ms = seq![("Response"@, resp_to_json(r))];
            assert(ms.drop_first() =~= Seq::<(Seq<char>, JsonV)>::empty());
            assert(jlookup(ms, "Response"@) == Some(resp_to_json(r)));
            lemma_resp_from_to(r);
            assert(jdepth_fields(ms) <= 6);
        },
        ServerMessageV::Event(e) => {
            let ms = seq![("Event"@, ev_to_json(e))];
            assert(ms.drop_first() =~= Seq::<(Seq<char>, JsonV)>::empty());
            assert(jlookup(ms, "Response"@) is None);
            assert(jlookup(ms, "Event"@) == Some(ev_to_json(e)));
            lemma_ev_from_to(e);
            assert(jdepth_fields(ms) <= 6);
        },
    }
}

/// Round trip: decoding the rendered text of any envelope yields exactly
/// that value.
pub proof fn lemma_server_message_round_trip(v: ServerMessageV)
    requires
        msg_wf(v),
    ensures
        msg_decode(render(msg_to_json(v))) == Ok::<ServerMessageV, DecodeError>(v),
{
    lemma_msg_from_to(v);
    lemma_json_round_trip(msg_to_json(v));
}

/// Builds the wire object of this envelope.
pub fn server_message_to_json(m: &ServerMessage) -> (j: Json)
    requires
        msg_encodable(m@),
    ensures
        j@ == msg_to_json(m@),
{
    match m {
        ServerMessage::Response(r) => {
            let x1 = (String::from_str("Response"), response_value_to_json(r));
            let ghost g1 = x1;
            let mut fields: Vec<(String, Json)> = Vec::new();
            fields.push(x1);
            proof {
                assert(fields@ =~= seq![g1]);
                lemma_jview_fields1(g1);
            }
            let j = Json::Obj(fields);
            proof {
                assert(jview(j) =~= msg_to_json(m@));
            }
            j
        },
        ServerMessage::Event(e) => {
            let x1 = (String::from_str("Event"), event_value_to_json(e));
            let ghost g1 = x1;
            let mut fields: Vec<(String, Json)> = Vec::new();
            fields.push(x1);
            proof {
                assert(fields@ =~= seq![g1]);
                lemma_jview_fields1(g1);
            }
            let j = Json::Obj(fields);
            proof {
                assert(jview(j) =~= msg_to_json(m@));
            }
            j
        },
    }
}

/// Reads one envelope out of a parsed JSON value.
pub fn server_message_of_json(j: &Json) -> (r: Result<ServerMessage, DecodeError>)
    ensures
        ({
            let sp = msg_from_json(j@);
            match r {
                Ok(m) => sp == Ok::<ServerMessageV, DecodeError>(m@),
                Err(e) => sp == Err::<ServerMessageV, DecodeError>(e),
            }
        }),
{
    match j {
        Json::Obj(fields) => match obj_get(fields, "Response") {
            Some(jr) => match response_value_of_json(jr) {
                Ok(r) => Ok(ServerMessage::Response(r)),
                Err(e) => Err(e),
            },
            None => match obj_get(fields, "Event") {
                Some(je) => match event_value_of_json(je) {
                    Ok(e) => Ok(ServerMessage::Event(e)),
                    Err(e) => Err(e),
                },
                None => Err(DecodeError::UnknownVariant),
            },
        },
        _ => Err(DecodeError::MalformedField),
    }
}

impl ServerMessage {
    /// The wire text of this envelope.
    pub fn to_wire(&self) -> (r: String)
        requires
            msg_encodable(self@),
        ensures
            r@ == render(msg_to_json(self@)),
    {
        let j = server_message_to_json(self);
        to_text(&j)
    }

    /// Reads one envelope out of wire text.
    pub fn from_wire(s: &str) -> (r: Result<ServerMessage, DecodeError>)
        ensures
            ({
                let sp = msg_decode(s@);
                match r {
                    Ok(m) => sp == Ok::<ServerMessageV, DecodeError>(m@),
                    Err(e) => sp == Err::<ServerMessageV, DecodeError>(e),
                }
            }),
    {
        match from_text(s) {
            Some(j) => server_message_of_json(&j),
            None => Err(DecodeError::Syntax),
        }
    }
}

} // verus!
