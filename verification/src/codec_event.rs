//! Events on the wire: each unsolicited daemon notification as a tagged JSON object.

use vstd::prelude::*;

use crate::json::{Json, JsonV, jview, jview_fields, jdepth, jdepth_fields, render, sp_json};
use crate::json_exec::{to_text, from_text};
use crate::json_rt::lemma_json_round_trip;
use crate::b64::{b64_of, b64_encode, lemma_b64_inv_of};
use crate::codec::{jlookup, sget_str, sget_u32, sget_usize, sget_bool, sget_bytes, sget_key32, bytes_arr, obj_get, jget_str, jget_u32, jget_usize, jget_bool, jget_bytes, jget_key32, key32_to_json, lemma_bytes_arr_depth, lemma_key32_arr_rt, lemma_jview_fields2, lemma_jview_fields3, lemma_jview_fields4, lemma_jview_fields5, lemma_jview_fields6};
use crate::text::str_eq;

use crate::schema::{DecodeError, Event, EventV, UserStatus, ConnectionStatus, MessageType, FileControl, ConferenceType};
use crate::codec_enums::{connection_status_str, connection_status_to_text, lemma_connection_status_rt, sget_connection_status, jget_connection_status, user_status_str, user_status_to_text, lemma_user_status_rt, sget_user_status, jget_user_status, message_type_str, message_type_to_text, lemma_message_type_rt, sget_message_type, jget_message_type, file_control_str, file_control_to_text, lemma_file_control_rt, sget_file_control, jget_file_control, conference_type_str, conference_type_to_text, lemma_conference_type_rt, sget_conference_type, jget_conference_type};

verus! {

broadcast use vstd::string::group_string_axioms;

/// The wire object of one event, its `event` discriminator first.
pub open spec fn ev_to_json(v: EventV) -> JsonV {
    match v {
        EventV::SecretKey { secret_key } => JsonV::Obj(seq![("event"@, JsonV::Str("SecretKey"@)), ("secret_key"@, JsonV::Str(secret_key))]),
        EventV::ConnectionStatus { status } => JsonV::Obj(seq![("event"@, JsonV::Str("ConnectionStatus"@)), ("status"@, JsonV::Str(connection_status_str(status)))]),
        EventV::FriendRequest { public_key, message } => JsonV::Obj(seq![("event"@, JsonV::Str("FriendRequest"@)), ("public_key"@, JsonV::Arr(bytes_arr(public_key))), ("message"@, JsonV::Str(message))]),
        EventV::FriendMessage { friend, kind, message } => JsonV::Obj(seq![("event"@, JsonV::Str("FriendMessage"@)), ("friend"@, JsonV::UInt(friend as u64)), ("kind"@, JsonV::Str(message_type_str(kind))), ("message"@, JsonV::Str(message))]),
        EventV::FriendName { friend, name } => JsonV::Obj(seq![("event"@, JsonV::Str("FriendName"@)), ("friend"@, JsonV::UInt(friend as u64)), ("name"@, JsonV::Str(name))]),
        EventV::FriendStatusMessage { friend, status } => JsonV::Obj(seq![("event"@, JsonV::Str("FriendStatusMessage"@)), ("friend"@, JsonV::UInt(friend as u64)), ("status"@, JsonV::Str(status))]),
        EventV::FriendStatus { friend, status } => JsonV::Obj(seq![("event"@, JsonV::Str("FriendStatus"@)), ("friend"@, JsonV::UInt(friend as u64)), ("status"@, JsonV::Str(user_status_str(status)))]),
        EventV::FriendConnectionStatus { friend, status } => JsonV::Obj(seq![("event"@, JsonV::Str("FriendConnectionStatus"@)), ("friend"@, JsonV::UInt(friend as u64)), ("status"@, JsonV::Str(connection_status_str(status)))]),
        EventV::FriendTyping { friend, is_typing } => JsonV::Obj(seq![("event"@, JsonV::Str("FriendTyping"@)), ("friend"@, JsonV::UInt(friend as u64)), ("is_typing"@, JsonV::Bool(is_typing))]),
        EventV::FriendReadReceipt { friend, message_id } => JsonV::Obj(seq![("event"@, JsonV::Str("FriendReadReceipt"@)), ("friend"@, JsonV::UInt(friend as u64)), ("message_id"@, JsonV::UInt(message_id as u64))]),
        EventV::FileControlReceipt { friend, file_number, control } => JsonV::Obj(seq![("event"@, JsonV::Str("FileControlReceipt"@)), ("friend"@, JsonV::UInt(friend as u64)), ("file_number"@, JsonV::UInt(file_number as u64)), ("control"@, JsonV::Str(file_control_str(control)))]),
        EventV::FileChunkRequest { friend, file_number, position, length } => JsonV::Obj(seq![("event"@, JsonV::Str("FileChunkRequest"@)), ("friend"@, JsonV::UInt(friend as u64)), ("file_number"@, JsonV::UInt(file_number as u64)), ("position"@, JsonV::UInt(position as u64)), ("length"@, JsonV::UInt(length as u64))]),
        EventV::FileReceipt { friend, file_number, kind, file_size, file_name } => JsonV::Obj(seq![("event"@, JsonV::Str("FileReceipt"@)), ("friend"@, JsonV::UInt(friend as u64)), ("file_number"@, JsonV::UInt(file_number as u64)), ("kind"@, JsonV::UInt(kind as u64)), ("file_size"@, JsonV::UInt(file_size as u64)), ("file_name"@, JsonV::Str(file_name))]),
        EventV::FileChunkReceipt { friend, file_number, position, data } => JsonV::Obj(seq![("event"@, JsonV::Str("FileChunkReceipt"@)), ("friend"@, JsonV::UInt(friend as u64)), ("file_number"@, JsonV::UInt(file_number as u64)), ("position"@, JsonV::UInt(position as u64)), ("data"@, JsonV::Str(b64_of(data)))]),
        EventV::ConferenceInvite { friend, kind, cookie } => JsonV::Obj(seq![("event"@, JsonV::Str("ConferenceInvite"@)), ("friend"@, JsonV::UInt(friend as u64)), ("kind"@, JsonV::Str(conference_type_str(kind))), ("cookie"@, JsonV::Str(b64_of(cookie)))]),
        EventV::ConferenceConnected { conference } => JsonV::Obj(seq![("event"@, JsonV::Str("ConferenceConnected"@)), ("conference"@, JsonV::UInt(conference as u64))]),
        EventV::ConferenceMessage { conference, peer, kind, message } => JsonV::Obj(seq![("event"@, JsonV::Str("ConferenceMessage"@)), ("conference"@, JsonV::UInt(conference as u64)), ("peer"@, JsonV::UInt(peer as u64)), ("kind"@, JsonV::Str(message_type_str(kind))), ("message"@, JsonV::Str(message))]),
        EventV::ConferenceTitle { conference, peer, title } => JsonV::Obj(seq![("event"@, JsonV::Str("ConferenceTitle"@)), ("conference"@, JsonV::UInt(conference as u64)), ("peer"@, JsonV::UInt(peer as u64)), ("title"@, JsonV::Str(title))]),
        EventV::ConferencePeerName { conference, peer, name } => JsonV::Obj(seq![("event"@, JsonV::Str("ConferencePeerName"@)), ("conference"@, JsonV::UInt(conference as u64)), ("peer"@, JsonV::UInt(peer as u64)), ("name"@, JsonV::Str(name))]),
        EventV::ConferencePeerListChanged { conference } => JsonV::Obj(seq![("event"@, JsonV::Str("ConferencePeerListChanged"@)), ("conference"@, JsonV::UInt(conference as u64))]),
    }
}

pub open spec fn ev_secret_key_from(fs: Seq<(Seq<char>, JsonV)>) -> Result<EventV, DecodeError> {
    match sget_str(fs, "secret_key"@) {
        Ok(secret_key) => {
            Ok(EventV::SecretKey { secret_key })
        },
        Err(e) => Err(e),
    }
}

pub open spec fn ev_connection_status_from(fs: Seq<(Seq<char>, JsonV)>) -> Result<EventV, DecodeError> {
    match sget_connection_status(fs, "status"@) {
        Ok(status) => {
            Ok(EventV::ConnectionStatus { status })
        },
        Err(e) => Err(e),
    }
}

pub open spec fn ev_friend_request_from(fs: Seq<(Seq<char>, JsonV)>) -> Result<EventV, DecodeError> {
    match sget_key32(fs, "public_key"@) {
        Ok(public_key) => {
            match sget_str(fs, "message"@) {
                Ok(message) => {
                    Ok(EventV::FriendRequest { public_key, message })
                },
                Err(e) => Err(e),
            }
        },
        Err(e) => Err(e),
    }
}

pub open spec fn ev_friend_message_from(fs: Seq<(Seq<char>, JsonV)>) -> Result<EventV, DecodeError> {
    match sget_u32(fs, "friend"@) {
        Ok(friend) => {
            match sget_message_type(fs, "kind"@) {
                Ok(kind) => {
                    match sget_str(fs, "message"@) {
                        Ok(message) => {
                            Ok(EventV::FriendMessage { friend, kind, message })
                        },
                        Err(e) => Err(e),
                    }
                },
                Err(e) => Err(e),
            }
        },
        Err(e) => Err(e),
    }
}

pub open spec fn ev_friend_name_from(fs: Seq<(Seq<char>, JsonV)>) -> Result<EventV, DecodeError> {
    match sget_u32(fs, "friend"@) {
        Ok(friend) => {
            match sget_str(fs, "name"@) {
                Ok(name) => {
                    Ok(EventV::FriendName { friend, name })
                },
                Err(e) => Err(e),
            }
        },
        Err(e) => Err(e),
    }
}

pub open spec fn ev_friend_status_message_from(fs: Seq<(Seq<char>, JsonV)>) -> Result<EventV, DecodeError> {
    match sget_u32(fs, "friend"@) {
        Ok(friend) => {
            match sget_str(fs, "status"@) {
                Ok(status) => {
                    Ok(EventV::FriendStatusMessage { friend, status })
                },
                Err(e) => Err(e),
            }
        },
        Err(e) => Err(e),
    }
}

pub open spec fn ev_friend_status_from(fs: Seq<(Seq<char>, JsonV)>) -> Result<EventV, DecodeError> {
    match sget_u32(fs, "friend"@) {
        Ok(friend) => {
            match sget_user_status(fs, "status"@) {
                Ok(status) => {
                    Ok(EventV::FriendStatus { friend, status })
                },
                Err(e) => Err(e),
            }
        },
        Err(e) => Err(e),
    }
}

pub open spec fn ev_friend_connection_status_from(fs: Seq<(Seq<char>, JsonV)>) -> Result<EventV, DecodeError> {
    match sget_u32(fs, "friend"@) {
        Ok(friend) => {
            match sget_connection_status(fs, "status"@) {
                Ok(status) => {
                    Ok(EventV::FriendConnectionStatus { friend, status })
                },
                Err(e) => Err(e),
            }
        },
        Err(e) => Err(e),
    }
}

pub open spec fn ev_friend_typing_from(fs: Seq<(Seq<char>, JsonV)>) -> Result<EventV, DecodeError> {
    match sget_u32(fs, "friend"@) {
        Ok(friend) => {
            match sget_bool(fs, "is_typing"@) {
                Ok(is_typing) => {
                    Ok(EventV::FriendTyping { friend, is_typing })
                },
                Err(e) => Err(e),
            }
        },
        Err(e) => Err(e),
    }
}

pub open spec fn ev_friend_read_receipt_from(fs: Seq<(Seq<char>, JsonV)>) -> Result<EventV, DecodeError> {
    match sget_u32(fs, "friend"@) {
        Ok(friend) => {
            match sget_u32(fs, "message_id"@) {
                Ok(message_id) => {
                    Ok(EventV::FriendReadReceipt { friend, message_id })
                },
                Err(e) => Err(e),
            }
        },
        Err(e) => Err(e),
    }
}

pub open spec fn ev_file_control_receipt_from(fs: Seq<(Seq<char>, JsonV)>) -> Result<EventV, DecodeError> {
    match sget_u32(fs, "friend"@) {
        Ok(friend) => {
            match sget_u32(fs, "file_number"@) {
                Ok(file_number) => {
                    match sget_file_control(fs, "control"@) {
                        Ok(control) => {
                            Ok(EventV::FileControlReceipt { friend, file_number, control })
                        },
                        Err(e) => Err(e),
                    }
                },
                Err(e) => Err(e),
            }
        },
        Err(e) => Err(e),
    }
}

pub open spec fn ev_file_chunk_request_from(fs: Seq<(Seq<char>, JsonV)>) -> Result<EventV, DecodeError> {
    match sget_u32(fs, "friend"@) {
        Ok(friend) => {
            match sget_u32(fs, "file_number"@) {
                Ok(file_number) => {
                    match sget_usize(fs, "position"@) {
                        Ok(position) => {
                            match sget_usize(fs, "length"@) {
                                Ok(length) => {
                                    Ok(EventV::FileChunkRequest { friend, file_number, position, length })
                                },
                                Err(e) => Err(e),
                            }
                        },
                        Err(e) => Err(e),
                    }
                },
                Err(e) => Err(e),
            }
        },
        Err(e) => Err(e),
    }
}

pub open spec fn ev_file_receipt_from(fs: Seq<(Seq<char>, JsonV)>) -> Result<EventV, DecodeError> {
    match sget_u32(fs, "friend"@) {
        Ok(friend) => {
            match sget_u32(fs, "file_number"@) {
                Ok(file_number) => {
                    match sget_u32(fs, "kind"@) {
                        Ok(kind) => {
                            match sget_usize(fs, "file_size"@) {
                                Ok(file_size) => {
                                    match sget_str(fs, "file_name"@) {
                                        Ok(file_name) => {
                                            Ok(EventV::FileReceipt { friend, file_number, kind, file_size, file_name })
                                        },
                                        Err(e) => Err(e),
                                    }
                                },
                                Err(e) => Err(e),
                            }
                        },
                        Err(e) => Err(e),
                    }
                },
                Err(e) => Err(e),
            }
        },
        Err(e) => Err(e),
    }
}

pub open spec fn ev_file_chunk_receipt_from(fs: Seq<(Seq<char>, JsonV)>) -> Result<EventV, DecodeError> {
    match sget_u32(fs, "friend"@) {
        Ok(friend) => {
            match sget_u32(fs, "file_number"@) {
                Ok(file_number) => {
                    match sget_usize(fs, "position"@) {
                        Ok(position) => {
                            match sget_bytes(fs, "data"@) {
                                Ok(data) => {
                                    Ok(EventV::FileChunkReceipt { friend, file_number, position, data })
                                },
                                Err(e) => Err(e),
                            }
                        },
                        Err(e) => Err(e),
                    }
                },
                Err(e) => Err(e),
            }
        },
        Err(e) => Err(e),
    }
}

pub open spec fn ev_conference_invite_from(fs: Seq<(Seq<char>, JsonV)>) -> Result<EventV, DecodeError> {
    match sget_u32(fs, "friend"@) {
        Ok(friend) => {
            match sget_conference_type(fs, "kind"@) {
                Ok(kind) => {
                    match sget_bytes(fs, "cookie"@) {
                        Ok(cookie) => {
                            Ok(EventV::ConferenceInvite { friend, kind, cookie })
                        },
                        Err(e) => Err(e),
                    }
                },
                Err(e) => Err(e),
            }
        },
        Err(e) => Err(e),
    }
}

pub open spec fn ev_conference_connected_from(fs: Seq<(Seq<char>, JsonV)>) -> Result<EventV, DecodeError> {
    match sget_u32(fs, "conference"@) {
        Ok(conference) => {
            Ok(EventV::ConferenceConnected { conference })
        },
        Err(e) => Err(e),
    }
}

pub open spec fn ev_conference_message_from(fs: Seq<(Seq<char>, JsonV)>) -> Result<EventV, DecodeError> {
    match sget_u32(fs, "conference"@) {
        Ok(conference) => {
            match sget_u32(fs, "peer"@) {
                Ok(peer) => {
                    match sget_message_type(fs, "kind"@) {
                        Ok(kind) => {
                            match sget_str(fs, "message"@) {
                                Ok(message) => {
                                    Ok(EventV::ConferenceMessage { conference, peer, kind, message })
                                },
                                Err(e) => Err(e),
                            }
                        },
                        Err(e) => Err(e),
                    }
                },
                Err(e) => Err(e),
            }
        },
        Err(e) => Err(e),
    }
}

pub open spec fn ev_conference_title_from(fs: Seq<(Seq<char>, JsonV)>) -> Result<EventV, DecodeError> {
    match sget_u32(fs, "conference"@) {
        Ok(conference) => {
            match sget_u32(fs, "peer"@) {
                Ok(peer) => {
                    match sget_str(fs, "title"@) {
                        Ok(title) => {
                            Ok(EventV::ConferenceTitle { conference, peer, title })
                        },
                        Err(e) => Err(e),
                    }
                },
                Err(e) => Err(e),
            }
        },
        Err(e) => Err(e),
    }
}

pub open spec fn ev_conference_peer_name_from(fs: Seq<(Seq<char>, JsonV)>) -> Result<EventV, DecodeError> {
    match sget_u32(fs, "conference"@) {
        Ok(conference) => {
            match sget_u32(fs, "peer"@) {
                Ok(peer) => {
                    match sget_str(fs, "name"@) {
                        Ok(name) => {
                            Ok(EventV::ConferencePeerName { conference, peer, name })
                        },
                        Err(e) => Err(e),
                    }
                },
                Err(e) => Err(e),
            }
        },
        Err(e) => Err(e),
    }
}

pub open spec fn ev_conference_peer_list_changed_from(fs: Seq<(Seq<char>, JsonV)>) -> Result<EventV, DecodeError> {
    match sget_u32(fs, "conference"@) {
        Ok(conference) => {
            Ok(EventV::ConferencePeerListChanged { conference })
        },
        Err(e) => Err(e),
    }
}

pub open spec fn ev_dispatch2(tag: Seq<char>, fs: Seq<(Seq<char>, JsonV)>) -> Result<
    EventV,
    DecodeError,
> {
    if tag == "FileReceipt"@ {
        ev_file_receipt_from(fs)
    } else if tag == "FileChunkReceipt"@ {
        ev_file_chunk_receipt_from(fs)
    } else if tag == "ConferenceInvite"@ {
        ev_conference_invite_from(fs)
    } else if tag == "ConferenceConnected"@ {
        ev_conference_connected_from(fs)
    } else if tag == "ConferenceMessage"@ {
        ev_conference_message_from(fs)
    } else if tag == "ConferenceTitle"@ {
        ev_conference_title_from(fs)
    } else if tag == "ConferencePeerName"@ {
        ev_conference_peer_name_from(fs)
    } else if tag == "ConferencePeerListChanged"@ {
        ev_conference_peer_list_changed_from(fs)
    } else {
        Err(DecodeError::UnknownVariant)
    }
}

pub open spec fn ev_dispatch(tag: Seq<char>, fs: Seq<(Seq<char>, JsonV)>) -> Result<
    EventV,
    DecodeError,
> {
    if tag == "SecretKey"@ {
        ev_secret_key_from(fs)
    } else if tag == "ConnectionStatus"@ {
        ev_connection_status_from(fs)
    } else if tag == "FriendRequest"@ {
        ev_friend_request_from(fs)
    } else if tag == "FriendMessage"@ {
        ev_friend_message_from(fs)
    } else if tag == "FriendName"@ {
        ev_friend_name_from(fs)
    } else if tag == "FriendStatusMessage"@ {
        ev_friend_status_message_from(fs)
    } else if tag == "FriendStatus"@ {
        ev_friend_status_from(fs)
    } else if tag == "FriendConnectionStatus"@ {
        ev_friend_connection_status_from(fs)
    } else if tag == "FriendTyping"@ {
        ev_friend_typing_from(fs)
    } else if tag == "FriendReadReceipt"@ {
        ev_friend_read_receipt_from(fs)
    } else if tag == "FileControlReceipt"@ {
        ev_file_control_receipt_from(fs)
    } else if tag == "FileChunkRequest"@ {
        ev_file_chunk_request_from(fs)
    } else {
        ev_dispatch2(tag, fs)
    }
}

/// What a JSON value means as a event.
pub open spec fn ev_from_json(j: JsonV) -> Result<EventV, DecodeError> {
    match j {
        JsonV::Obj(fs) => match jlookup(fs, "event"@) {
            Some(JsonV::Str(tag)) => ev_dispatch(tag, fs),
            Some(_) => Err(DecodeError::MalformedField),
            None => Err(DecodeError::MissingField),
        },
        _ => Err(DecodeError::MalformedField),
    }
}

/// What a whole wire text means as a event.
pub open spec fn ev_decode(s: Seq<char>) -> Result<EventV, DecodeError> {
    match sp_json(s) {
        Some(j) => ev_from_json(j),
        None => Err(DecodeError::Syntax),
    }
}

/// The machine limit on encoding: each binary field's base64 text must
/// fit in a `usize`-sized allocation.
pub open spec fn ev_encodable(v: EventV) -> bool {
    match v {
        EventV::FileChunkReceipt { data, .. } => 4 * ((data.len() + 2) / 3) <= usize::MAX as nat,
        EventV::ConferenceInvite { cookie, .. } => 4 * ((cookie.len() + 2) / 3) <= usize::MAX as nat,
        _ => true,
    }
}

/// Structural soundness of a mirror value: fixed 32-byte fields have 32 bytes.
pub open spec fn ev_wf(v: EventV) -> bool {
    match v {
        EventV::FriendRequest { public_key, .. } => public_key.len() == 32,
        _ => true,
    }
}

/// The view of every constructible event is well-formed.
pub proof fn lemma_ev_view_wf(x: Event)
    ensures
        ev_wf(x@),
{
}

fn ev_secret_key_json(secret_key: &String) -> (j: Json)
    ensures
        j@ == ev_to_json((EventV::SecretKey { secret_key: secret_key@ })),
{
    let x1 = (String::from_str("event"), Json::Str(String::from_str("SecretKey")));
    let ghost g1 = x1;
    let x2 = (String::from_str("secret_key"), Json::Str(secret_key.clone()));
    let ghost g2 = x2;
    let mut fields: Vec<(String, Json)> = Vec::new();
    fields.push(x1);
    fields.push(x2);
    proof {
        assert(fields@ =~= seq![g1, g2]);
        lemma_jview_fields2(g1, g2);
    }
    let j = Json::Obj(fields);
    proof {
        assert(jview(j) =~= ev_to_json((EventV::SecretKey { secret_key: secret_key@ })));
    }
    j
}

fn ev_connection_status_json(status: &ConnectionStatus) -> (j: Json)
    ensures
        j@ == ev_to_json((EventV::ConnectionStatus { status: *status })),
{
    let x1 = (String::from_str("event"), Json::Str(String::from_str("ConnectionStatus")));
    let ghost g1 = x1;
    let x2 = (String::from_str("status"), Json::Str(connection_status_to_text(status)));
    let ghost g2 = x2;
    let mut fields: Vec<(String, Json)> = Vec::new();
    fields.push(x1);
    fields.push(x2);
    proof {
        assert(fields@ =~= seq![g1, g2]);
        lemma_jview_fields2(g1, g2);
    }
    let j = Json::Obj(fields);
    proof {
        assert(jview(j) =~= ev_to_json((EventV::ConnectionStatus { status: *status })));
    }
    j
}

fn ev_friend_request_json(public_key: &[u8; 32], message: &String) -> (j: Json)
    ensures
        j@ == ev_to_json((EventV::FriendRequest { public_key: public_key@, message: message@ })),
{
    let x1 = (String::from_str("event"), Json::Str(String::from_str("FriendRequest")));
    let ghost g1 = x1;
    let x2 = (String::from_str("public_key"), key32_to_json(public_key));
    let ghost g2 = x2;
    let x3 = (String::from_str("message"), Json::Str(message.clone()));
    let ghost g3 = x3;
    let mut fields: Vec<(String, Json)> = Vec::new();
    fields.push(x1);
    fields.push(x2);
    fields.push(x3);
    proof {
        assert(fields@ =~= seq![g1, g2, g3]);
        lemma_jview_fields3(g1, g2, g3);
    }
    let j = Json::Obj(fields);
    proof {
        assert(jview(j) =~= ev_to_json((EventV::FriendRequest { public_key: public_key@, message: message@ })));
    }
    j
}

fn ev_friend_message_json(friend: &u32, kind: &MessageType, message: &String) -> (j: Json)
    ensures
        j@ == ev_to_json((EventV::FriendMessage { friend: *friend, kind: *kind, message: message@ })),
{
    let x1 = (String::from_str("event"), Json::Str(String::from_str("FriendMessage")));
    let ghost g1 = x1;
    let x2 = (String::from_str("friend"), Json::UInt(*friend as u64));
    let ghost g2 = x2;
    let x3 = (String::from_str("kind"), Json::Str(message_type_to_text(kind)));
    let ghost g3 = x3;
    let x4 = (String::from_str("message"), Json::Str(message.clone()));
    let ghost g4 = x4;
    let mut fields: Vec<(String, Json)> = Vec::new();
    fields.push(x1);
    fields.push(x2);
    fields.push(x3);
    fields.push(x4);
    proof {
        assert(fields@ =~= seq![g1, g2, g3, g4]);
        lemma_jview_fields4(g1, g2, g3, g4);
    }
    let j = Json::Obj(fields);
    proof {
        assert(jview(j) =~= ev_to_json((EventV::FriendMessage { friend: *friend, kind: *kind, message: message@ })));
    }
    j
}

fn ev_friend_name_json(friend: &u32, name: &String) -> (j: Json)
    ensures
        j@ == ev_to_json((EventV::FriendName { friend: *friend, name: name@ })),
{
    let x1 = (String::from_str("event"), Json::Str(String::from_str("FriendName")));
    let ghost g1 = x1;
    let x2 = (String::from_str("friend"), Json::UInt(*friend as u64));
    let ghost g2 = x2;
    let x3 = (String::from_str("name"), Json::Str(name.clone()));
    let ghost g3 = x3;
    let mut fields: Vec<(String, Json)> = Vec::new();
    fields.push(x1);
    fields.push(x2);
    fields.push(x3);
    proof {
        assert(fields@ =~= seq![g1, g2, g3]);
        lemma_jview_fields3(g1, g2, g3);
    }
    let j = Json::Obj(fields);
    proof {
        assert(jview(j) =~= ev_to_json((EventV::FriendName { friend: *friend, name: name@ })));
    }
    j
}

fn ev_friend_status_message_json(friend: &u32, status: &String) -> (j: Json)
    ensures
        j@ == ev_to_json((EventV::FriendStatusMessage { friend: *friend, status: status@ })),
{
    let x1 = (String::from_str("event"), Json::Str(String::from_str("FriendStatusMessage")));
    let ghost g1 = x1;
    let x2 = (String::from_str("friend"), Json::UInt(*friend as u64));
    let ghost g2 = x2;
    let x3 = (String::from_str("status"), Json::Str(status.clone()));
    let ghost g3 = x3;
    let mut fields: Vec<(String, Json)> = Vec::new();
    fields.push(x1);
    fields.push(x2);
    fields.push(x3);
    proof {
        assert(fields@ =~= seq![g1, g2, g3]);
        lemma_jview_fields3(g1, g2, g3);
    }
    let j = Json::Obj(fields);
    proof {
        assert(jview(j) =~= ev_to_json((EventV::FriendStatusMessage { friend: *friend, status: status@ })));
    }
    j
}

fn ev_friend_status_json(friend: &u32, status: &UserStatus) -> (j: Json)
    ensures
        j@ == ev_to_json((EventV::FriendStatus { friend: *friend, status: *status })),
{
    let x1 = (String::from_str("event"), Json::Str(String::from_str("FriendStatus")));
    let ghost g1 = x1;
    let x2 = (String::from_str("friend"), Json::UInt(*friend as u64));
    let ghost g2 = x2;
    let x3 = (String::from_str("status"), Json::Str(user_status_to_text(status)));
    let ghost g3 = x3;
    let mut fields: Vec<(String, Json)> = Vec::new();
    fields.push(x1);
    fields.push(x2);
    fields.push(x3);
    proof {
        assert(fields@ =~= seq![g1, g2, g3]);
        lemma_jview_fields3(g1, g2, g3);
    }
    let j = Json::Obj(fields);
    proof {
        assert(jview(j) =~= ev_to_json((EventV::FriendStatus { friend: *friend, status: *status })));
    }
    j
}

fn ev_friend_connection_status_json(friend: &u32, status: &ConnectionStatus) -> (j: Json)
    ensures
        j@ == ev_to_json((EventV::FriendConnectionStatus { friend: *friend, status: *status })),
{
    let x1 = (String::from_str("event"), Json::Str(String::from_str("FriendConnectionStatus")));
    let ghost g1 = x1;
    let x2 = (String::from_str("friend"), Json::UInt(*friend as u64));
    let ghost g2 = x2;
    let x3 = (String::from_str("status"), Json::Str(connection_status_to_text(status)));
    let ghost g3 = x3;
    let mut fields: Vec<(String, Json)> = Vec::new();
    fields.push(x1);
    fields.push(x2);
    fields.push(x3);
    proof {
        assert(fields@ =~= seq![g1, g2, g3]);
        lemma_jview_fields3(g1, g2, g3);
    }
    let j = Json::Obj(fields);
    proof {
        assert(jview(j) =~= ev_to_json((EventV::FriendConnectionStatus { friend: *friend, status: *status })));
    }
    j
}

fn ev_friend_typing_json(friend: &u32, is_typing: &bool) -> (j: Json)
    ensures
        j@ == ev_to_json((EventV::FriendTyping { friend: *friend, is_typing: *is_typing })),
{
    let x1 = (String::from_str("event"), Json::Str(String::from_str("FriendTyping")));
    let ghost g1 = x1;
    let x2 = (String::from_str("friend"), Json::UInt(*friend as u64));
    let ghost g2 = x2;
    let x3 = (String::from_str("is_typing"), Json::Bool(*is_typing));
    let ghost g3 = x3;
    let mut fields: Vec<(String, Json)> = Vec::new();
    fields.push(x1);
    fields.push(x2);
    fields.push(x3);
    proof {
        assert(fields@ =~= seq![g1, g2, g3]);
        lemma_jview_fields3(g1, g2, g3);
    }
    let j = Json::Obj(fields);
    proof {
        assert(jview(j) =~= ev_to_json((EventV::FriendTyping { friend: *friend, is_typing: *is_typing })));
    }
    j
}

fn ev_friend_read_receipt_json(friend: &u32, message_id: &u32) -> (j: Json)
    ensures
        j@ == ev_to_json((EventV::FriendReadReceipt { friend: *friend, message_id: *message_id })),
{
    let x1 = (String::from_str("event"), Json::Str(String::from_str("FriendReadReceipt")));
    let ghost g1 = x1;
    let x2 = (String::from_str("friend"), Json::UInt(*friend as u64));
    let ghost g2 = x2;
    let x3 = (String::from_str("message_id"), Json::UInt(*message_id as u64));
    let ghost g3 = x3;
    let mut fields: Vec<(String, Json)> = Vec::new();
    fields.push(x1);
    fields.push(x2);
    fields.push(x3);
    proof {
        assert(fields@ =~= seq![g1, g2, g3]);
        lemma_jview_fields3(g1, g2, g3);
    }
    let j = Json::Obj(fields);
    proof {
        assert(jview(j) =~= ev_to_json((EventV::FriendReadReceipt { friend: *friend, message_id: *message_id })));
    }
    j
}

fn ev_file_control_receipt_json(friend: &u32, file_number: &u32, control: &FileControl) -> (j: Json)
    ensures
        j@ == ev_to_json((EventV::FileControlReceipt { friend: *friend, file_number: *file_number, control: *control })),
{
    let x1 = (String::from_str("event"), Json::Str(String::from_str("FileControlReceipt")));
    let ghost g1 = x1;
    let x2 = (String::from_str("friend"), Json::UInt(*friend as u64));
    let ghost g2 = x2;
    let x3 = (String::from_str("file_number"), Json::UInt(*file_number as u64));
    let ghost g3 = x3;
    let x4 = (String::from_str("control"), Json::Str(file_control_to_text(control)));
    let ghost g4 = x4;
    let mut fields: Vec<(String, Json)> = Vec::new();
    fields.push(x1);
    fields.push(x2);
    fields.push(x3);
    fields.push(x4);
    proof {
        assert(fields@ =~= seq![g1, g2, g3, g4]);
        lemma_jview_fields4(g1, g2, g3, g4);
    }
    let j = Json::Obj(fields);
    proof {
        assert(jview(j) =~= ev_to_json((EventV::FileControlReceipt { friend: *friend, file_number: *file_number, control: *control })));
    }
    j
}

fn ev_file_chunk_request_json(friend: &u32, file_number: &u32, position: &usize, length: &usize) -> (j: Json)
    ensures
        j@ == ev_to_json((EventV::FileChunkRequest { friend: *friend, file_number: *file_number, position: *position, length: *length })),
{
    let x1 = (String::from_str("event"), Json::Str(String::from_str("FileChunkRequest")));
    let ghost g1 = x1;
    let x2 = (String::from_str("friend"), Json::UInt(*friend as u64));
    let ghost g2 = x2;
    let x3 = (String::from_str("file_number"), Json::UInt(*file_number as u64));
    let ghost g3 = x3;
    let x4 = (String::from_str("position"), Json::UInt(*position as u64));
    let ghost g4 = x4;
    let x5 = (String::from_str("length"), Json::UInt(*length as u64));
    let ghost g5 = x5;
    let mut fields: Vec<(String, Json)> = Vec::new();
    fields.push(x1);
    fields.push(x2);
    fields.push(x3);
    fields.push(x4);
    fields.push(x5);
    proof {
        assert(fields@ =~= seq![g1, g2, g3, g4, g5]);
        lemma_jview_fields5(g1, g2, g3, g4, g5);
    }
    let j = Json::Obj(fields);
    proof {
        assert(jview(j) =~= ev_to_json((EventV::FileChunkRequest { friend: *friend, file_number: *file_number, position: *position, length: *length })));
    }
    j
}

fn ev_file_receipt_json(friend: &u32, file_number: &u32, kind: &u32, file_size: &usize, file_name: &String) -> (j: Json)
    ensures
        j@ == ev_to_json((EventV::FileReceipt { friend: *friend, file_number: *file_number, kind: *kind, file_size: *file_size, file_name: file_name@ })),
{
    let x1 = (String::from_str("event"), Json::Str(String::from_str("FileReceipt")));
    let ghost g1 = x1;
    let x2 = (String::from_str("friend"), Json::UInt(*friend as u64));
    let ghost g2 = x2;
    let x3 = (String::from_str("file_number"), Json::UInt(*file_number as u64));
    let ghost g3 = x3;
    let x4 = (String::from_str("kind"), Json::UInt(*kind as u64));
    let ghost g4 = x4;
    let x5 = (String::from_str("file_size"), Json::UInt(*file_size as u64));
    let ghost g5 = x5;
    let x6 = (String::from_str("file_name"), Json::Str(file_name.clone()));
    let ghost g6 = x6;
    let mut fields: Vec<(String, Json)> = Vec::new();
    fields.push(x1);
    fields.push(x2);
    fields.push(x3);
    fields.push(x4);
    fields.push(x5);
    fields.push(x6);
    proof {
        assert(fields@ =~= seq![g1, g2, g3, g4, g5, g6]);
        lemma_jview_fields6(g1, g2, g3, g4, g5, g6);
    }
    let j = Json::Obj(fields);
    proof {
        assert(jview(j) =~= ev_to_json((EventV::FileReceipt { friend: *friend, file_number: *file_number, kind: *kind, file_size: *file_size, file_name: file_name@ })));
    }
    j
}

fn ev_file_chunk_receipt_json(friend: &u32, file_number: &u32, position: &usize, data: &Vec<u8>) -> (j: Json)
    requires
        4 * ((data@.len() + 2) / 3) <= usize::MAX as nat,
    ensures
        j@ == ev_to_json((EventV::FileChunkReceipt { friend: *friend, file_number: *file_number, position: *position, data: data@ })),
{
    let x1 = (String::from_str("event"), Json::Str(String::from_str("FileChunkReceipt")));
    let ghost g1 = x1;
    let x2 = (String::from_str("friend"), Json::UInt(*friend as u64));
    let ghost g2 = x2;
    let x3 = (String::from_str("file_number"), Json::UInt(*file_number as u64));
    let ghost g3 = x3;
    let x4 = (String::from_str("position"), Json::UInt(*position as u64));
    let ghost g4 = x4;
    let x5 = (String::from_str("data"), Json::Str(b64_encode(data)));
    let ghost g5 = x5;
    let mut fields: Vec<(String, Json)> = Vec::new();
    fields.push(x1);
    fields.push(x2);
    fields.push(x3);
    fields.push(x4);
    fields.push(x5);
    proof {
        assert(fields@ =~= seq![g1, g2, g3, g4, g5]);
        lemma_jview_fields5(g1, g2, g3, g4, g5);
    }
    let j = Json::Obj(fields);
    proof {
        assert(jview(j) =~= ev_to_json((EventV::FileChunkReceipt { friend: *friend, file_number: *file_number, position: *position, data: data@ })));
    }
    j
}

fn ev_conference_invite_json(friend: &u32, kind: &ConferenceType, cookie: &Vec<u8>) -> (j: Json)
    requires
        4 * ((cookie@.len() + 2) / 3) <= usize::MAX as nat,
    ensures
        j@ == ev_to_json((EventV::ConferenceInvite { friend: *friend, kind: *kind, cookie: cookie@ })),
{
    let x1 = (String::from_str("event"), Json::Str(String::from_str("ConferenceInvite")));
    let ghost g1 = x1;
    let x2 = (String::from_str("friend"), Json::UInt(*friend as u64));
    let ghost g2 = x2;
    let x3 = (String::from_str("kind"), Json::Str(conference_type_to_text(kind)));
    let ghost g3 = x3;
    let x4 = (String::from_str("cookie"), Json::Str(b64_encode(cookie)));
    let ghost g4 = x4;
    let mut fields: Vec<(String, Json)> = Vec::new();
    fields.push(x1);
    fields.push(x2);
    fields.push(x3);
    fields.push(x4);
    proof {
        assert(fields@ =~= seq![g1, g2, g3, g4]);
        lemma_jview_fields4(g1, g2, g3, g4);
    }
    let j = Json::Obj(fields);
    proof {
        assert(jview(j) =~= ev_to_json((EventV::ConferenceInvite { friend: *friend, kind: *kind, cookie: cookie@ })));
    }
    j
}

fn ev_conference_connected_json(conference: &u32) -> (j: Json)
    ensures
        j@ == ev_to_json((EventV::ConferenceConnected { conference: *conference })),
{
    let x1 = (String::from_str("event"), Json::Str(String::from_str("ConferenceConnected")));
    let ghost g1 = x1;
    let x2 = (String::from_str("conference"), Json::UInt(*conference as u64));
    let ghost g2 = x2;
    let mut fields: Vec<(String, Json)> = Vec::new();
    fields.push(x1);
    fields.push(x2);
    proof {
        assert(fields@ =~= seq![g1, g2]);
        lemma_jview_fields2(g1, g2);
    }
    let j = Json::Obj(fields);
    proof {
        assert(jview(j) =~= ev_to_json((EventV::ConferenceConnected { conference: *conference })));
    }
    j
}

fn ev_conference_message_json(conference: &u32, peer: &u32, kind: &MessageType, message: &String) -> (j: Json)
    ensures
        j@ == ev_to_json((EventV::ConferenceMessage { conference: *conference, peer: *peer, kind: *kind, message: message@ })),
{
    let x1 = (String::from_str("event"), Json::Str(String::from_str("ConferenceMessage")));
    let ghost g1 = x1;
    let x2 = (String::from_str("conference"), Json::UInt(*conference as u64));
    let ghost g2 = x2;
    let x3 = (String::from_str("peer"), Json::UInt(*peer as u64));
    let ghost g3 = x3;
    let x4 = (String::from_str("kind"), Json::Str(message_type_to_text(kind)));
    let ghost g4 = x4;
    let x5 = (String::from_str("message"), Json::Str(message.clone()));
    let ghost g5 = x5;
    let mut fields: Vec<(String, Json)> = Vec::new();
    fields.push(x1);
    fields.push(x2);
    fields.push(x3);
    fields.push(x4);
    fields.push(x5);
    proof {
        assert(fields@ =~= seq![g1, g2, g3, g4, g5]);
        lemma_jview_fields5(g1, g2, g3, g4, g5);
    }
    let j = Json::Obj(fields);
    proof {
        assert(jview(j) =~= ev_to_json((EventV::ConferenceMessage { conference: *conference, peer: *peer, kind: *kind, message: message@ })));
    }
    j
}

fn ev_conference_title_json(conference: &u32, peer: &u32, title: &String) -> (j: Json)
    ensures
        j@ == ev_to_json((EventV::ConferenceTitle { conference: *conference, peer: *peer, title: title@ })),
{
    let x1 = (String::from_str("event"), Json::Str(String::from_str("ConferenceTitle")));
    let ghost g1 = x1;
    let x2 = (String::from_str("conference"), Json::UInt(*conference as u64));
    let ghost g2 = x2;
    let x3 = (String::from_str("peer"), Json::UInt(*peer as u64));
    let ghost g3 = x3;
    let x4 = (String::from_str("title"), Json::Str(title.clone()));
    let ghost g4 = x4;
    let mut fields: Vec<(String, Json)> = Vec::new();
    fields.push(x1);
    fields.push(x2);
    fields.push(x3);
    fields.push(x4);
    proof {
        assert(fields@ =~= seq![g1, g2, g3, g4]);
        lemma_jview_fields4(g1, g2, g3, g4);
    }
    let j = Json::Obj(fields);
    proof {
        assert(jview(j) =~= ev_to_json((EventV::ConferenceTitle { conference: *conference, peer: *peer, title: title@ })));
    }
    j
}

fn ev_conference_peer_name_json(conference: &u32, peer: &u32, name: &String) -> (j: Json)
    ensures
        j@ == ev_to_json((EventV::ConferencePeerName { conference: *conference, peer: *peer, name: name@ })),
{
    let x1 = (String::from_str("event"), Json::Str(String::from_str("ConferencePeerName")));
    let ghost g1 = x1;
    let x2 = (String::from_str("conference"), Json::UInt(*conference as u64));
    let ghost g2 = x2;
    let x3 = (String::from_str("peer"), Json::UInt(*peer as u64));
    let ghost g3 = x3;
    let x4 = (String::from_str("name"), Json::Str(name.clone()));
    let ghost g4 = x4;
    let mut fields: Vec<(String, Json)> = Vec::new();
    fields.push(x1);
    fields.push(x2);
    fields.push(x3);
    fields.push(x4);
    proof {
        assert(fields@ =~= seq![g1, g2, g3, g4]);
        lemma_jview_fields4(g1, g2, g3, g4);
    }
    let j = Json::Obj(fields);
    proof {
        assert(jview(j) =~= ev_to_json((EventV::ConferencePeerName { conference: *conference, peer: *peer, name: name@ })));
    }
    j
}

fn ev_conference_peer_list_changed_json(conference: &u32) -> (j: Json)
    ensures
        j@ == ev_to_json((EventV::ConferencePeerListChanged { conference: *conference })),
{
    let x1 = (String::from_str("event"), Json::Str(String::from_str("ConferencePeerListChanged")));
    let ghost g1 = x1;
    let x2 = (String::from_str("conference"), Json::UInt(*conference as u64));
    let ghost g2 = x2;
    let mut fields: Vec<(String, Json)> = Vec::new();
    fields.push(x1);
    fields.push(x2);
    proof {
        assert(fields@ =~= seq![g1, g2]);
        lemma_jview_fields2(g1, g2);
    }
    let j = Json::Obj(fields);
    proof {
        assert(jview(j) =~= ev_to_json((EventV::ConferencePeerListChanged { conference: *conference })));
    }
    j
}

/// Builds the wire object of this event.
pub fn event_value_to_json(q: &Event) -> (j: Json)
    requires
        ev_encodable(q@),
    ensures
        j@ == ev_to_json(q@),
{
    match q {
        Event::SecretKey { secret_key } => ev_secret_key_json(secret_key),
        Event::ConnectionStatus { status } => ev_connection_status_json(status),
        Event::FriendRequest { public_key, message } => ev_friend_request_json(public_key, message),
        Event::FriendMessage { friend, kind, message } => ev_friend_message_json(friend, kind, message),
        Event::FriendName { friend, name } => ev_friend_name_json(friend, name),
        Event::FriendStatusMessage { friend, status } => ev_friend_status_message_json(friend, status),
        Event::FriendStatus { friend, status } => ev_friend_status_json(friend, status),
        Event::FriendConnectionStatus { friend, status } => ev_friend_connection_status_json(friend, status),
        Event::FriendTyping { friend, is_typing } => ev_friend_typing_json(friend, is_typing),
        Event::FriendReadReceipt { friend, message_id } => ev_friend_read_receipt_json(friend, message_id),
        Event::FileControlReceipt { friend, file_number, control } => ev_file_control_receipt_json(friend, file_number, control),
        Event::FileChunkRequest { friend, file_number, position, length } => ev_file_chunk_request_json(friend, file_number, position, length),
        Event::FileReceipt { friend, file_number, kind, file_size, file_name } => ev_file_receipt_json(friend, file_number, kind, file_size, file_name),
        Event::FileChunkReceipt { friend, file_number, position, data } => ev_file_chunk_receipt_json(friend, file_number, position, data),
        Event::ConferenceInvite { friend, kind, cookie } => ev_conference_invite_json(friend, kind, cookie),
        Event::ConferenceConnected { conference } => ev_conference_connected_json(conference),
        Event::ConferenceMessage { conference, peer, kind, message } => ev_conference_message_json(conference, peer, kind, message),
        Event::ConferenceTitle { conference, peer, title } => ev_conference_title_json(conference, peer, title),
        Event::ConferencePeerName { conference, peer, name } => ev_conference_peer_name_json(conference, peer, name),
        Event::ConferencePeerListChanged { conference } => ev_conference_peer_list_changed_json(conference),
    }
}

fn ev_secret_key_of(fields: &Vec<(String, Json)>) -> (r: Result<Event, DecodeError>)
    ensures
        ({
            let sp = ev_secret_key_from(jview_fields(fields@));
            match r {
                Ok(q) => sp == Ok::<EventV, DecodeError>(q@),
                Err(e) => sp == Err::<EventV, DecodeError>(e),
            }
        }),
{
    let secret_key = match jget_str(fields, "secret_key") {
        Ok(v) => v,
        Err(e) => {
            return Err(e);
        },
    };
    Ok(Event::SecretKey { secret_key })
}

fn ev_connection_status_of(fields: &Vec<(String, Json)>) -> (r: Result<Event, DecodeError>)
    ensures
        ({
            let sp = ev_connection_status_from(jview_fields(fields@));
            match r {
                Ok(q) => sp == Ok::<EventV, DecodeError>(q@),
                Err(e) => sp == Err::<EventV, DecodeError>(e),
            }
        }),
{
    let status = match jget_connection_status(fields, "status") {
        Ok(v) => v,
        Err(e) => {
            return Err(e);
        },
    };
    Ok(Event::ConnectionStatus { status })
}

fn ev_friend_request_of(fields: &Vec<(String, Json)>) -> (r: Result<Event, DecodeError>)
    ensures
        ({
            let sp = ev_friend_request_from(jview_fields(fields@));
            match r {
                Ok(q) => sp == Ok::<EventV, DecodeError>(q@),
                Err(e) => sp == Err::<EventV, DecodeError>(e),
            }
        }),
{
    let public_key = match jget_key32(fields, "public_key") {
        Ok(v) => v,
        Err(e) => {
            return Err(e);
        },
    };
    let message = match jget_str(fields, "message") {
        Ok(v) => v,
        Err(e) => {
            return Err(e);
        },
    };
    Ok(Event::FriendRequest { public_key, message })
}

fn ev_friend_message_of(fields: &Vec<(String, Json)>) -> (r: Result<Event, DecodeError>)
    ensures
        ({
            let sp = ev_friend_message_from(jview_fields(fields@));
            match r {
                Ok(q) => sp == Ok::<EventV, DecodeError>(q@),
                Err(e) => sp == Err::<EventV, DecodeError>(e),
            }
        }),
{
    let friend = match jget_u32(fields, "friend") {
        Ok(v) => v,
        Err(e) => {
            return Err(e);
        },
    };
    let kind = match jget_message_type(fields, "kind") {
        Ok(v) => v,
        Err(e) => {
            return Err(e);
        },
    };
    let message = match jget_str(fields, "message") {
        Ok(v) => v,
        Err(e) => {
            return Err(e);
        },
    };
    Ok(Event::FriendMessage { friend, kind, message })
}

fn ev_friend_name_of(fields: &Vec<(String, Json)>) -> (r: Result<Event, DecodeError>)
    ensures
        ({
            let sp = ev_friend_name_from(jview_fields(fields@));
            match r {
                Ok(q) => sp == Ok::<EventV, DecodeError>(q@),
                Err(e) => sp == Err::<EventV, DecodeError>(e),
            }
        }),
{
    let friend = match jget_u32(fields, "friend") {
        Ok(v) => v,
        Err(e) => {
            return Err(e);
        },
    };
    let name = match jget_str(fields, "name") {
        Ok(v) => v,
        Err(e) => {
            return Err(e);
        },
    };
    Ok(Event::FriendName { friend, name })
}

fn ev_friend_status_message_of(fields: &Vec<(String, Json)>) -> (r: Result<Event, DecodeError>)
    ensures
        ({
            let sp = ev_friend_status_message_from(jview_fields(fields@));
            match r {
                Ok(q) => sp == Ok::<EventV, DecodeError>(q@),
                Err(e) => sp == Err::<EventV, DecodeError>(e),
            }
        }),
{
    let friend = match jget_u32(fields, "friend") {
        Ok(v) => v,
        Err(e) => {
            return Err(e);
        },
    };
    let status = match jget_str(fields, "status") {
        Ok(v) => v,
        Err(e) => {
            return Err(e);
        },
    };
    Ok(Event::FriendStatusMessage { friend, status })
}

fn ev_friend_status_of(fields: &Vec<(String, Json)>) -> (r: Result<Event, DecodeError>)
    ensures
        ({
            let sp = ev_friend_status_from(jview_fields(fields@));
            match r {
                Ok(q) => sp == Ok::<EventV, DecodeError>(q@),
                Err(e) => sp == Err::<EventV, DecodeError>(e),
            }
        }),
{
    let friend = match jget_u32(fields, "friend") {
        Ok(v) => v,
        Err(e) => {
            return Err(e);
        },
    };
    let status = match jget_user_status(fields, "status") {
        Ok(v) => v,
        Err(e) => {
            return Err(e);
        },
    };
    Ok(Event::FriendStatus { friend, status })
}

fn ev_friend_connection_status_of(fields: &Vec<(String, Json)>) -> (r: Result<Event, DecodeError>)
    ensures
        ({
            let sp = ev_friend_connection_status_from(jview_fields(fields@));
            match r {
                Ok(q) => sp == Ok::<EventV, DecodeError>(q@),
                Err(e) => sp == Err::<EventV, DecodeError>(e),
            }
        }),
{
    let friend = match jget_u32(fields, "friend") {
        Ok(v) => v,
        Err(e) => {
            return Err(e);
        },
    };
    let status = match jget_connection_status(fields, "status") {
        Ok(v) => v,
        Err(e) => {
            return Err(e);
        },
    };
    Ok(Event::FriendConnectionStatus { friend, status })
}

fn ev_friend_typing_of(fields: &Vec<(String, Json)>) -> (r: Result<Event, DecodeError>)
    ensures
        ({
            let sp = ev_friend_typing_from(jview_fields(fields@));
            match r {
                Ok(q) => sp == Ok::<EventV, DecodeError>(q@),
                Err(e) => sp == Err::<EventV, DecodeError>(e),
            }
        }),
{
    let friend = match jget_u32(fields, "friend") {
        Ok(v) => v,
        Err(e) => {
            return Err(e);
        },
    };
    let is_typing = match jget_bool(fields, "is_typing") {
        Ok(v) => v,
        Err(e) => {
            return Err(e);
        },
    };
    Ok(Event::FriendTyping { friend, is_typing })
}

fn ev_friend_read_receipt_of(fields: &Vec<(String, Json)>) -> (r: Result<Event, DecodeError>)
    ensures
        ({
            let sp = ev_friend_read_receipt_from(jview_fields(fields@));
            match r {
                Ok(q) => sp == Ok::<EventV, DecodeError>(q@),
                Err(e) => sp == Err::<EventV, DecodeError>(e),
            }
        }),
{
    let friend = match jget_u32(fields, "friend") {
        Ok(v) => v,
        Err(e) => {
            return Err(e);
        },
    };
    let message_id = match jget_u32(fields, "message_id") {
        Ok(v) => v,
        Err(e) => {
            return Err(e);
        },
    };
    Ok(Event::FriendReadReceipt { friend, message_id })
}

fn ev_file_control_receipt_of(fields: &Vec<(String, Json)>) -> (r: Result<Event, DecodeError>)
    ensures
        ({
            let sp = ev_file_control_receipt_from(jview_fields(fields@));
            match r {
                Ok(q) => sp == Ok::<EventV, DecodeError>(q@),
                Err(e) => sp == Err::<EventV, DecodeError>(e),
            }
        }),
{
    let friend = match jget_u32(fields, "friend") {
        Ok(v) => v,
        Err(e) => {
            return Err(e);
        },
    };
    let file_number = match jget_u32(fields, "file_number") {
        Ok(v) => v,
        Err(e) => {
            return Err(e);
        },
    };
    let control = match jget_file_control(fields, "control") {
        Ok(v) => v,
        Err(e) => {
            return Err(e);
        },
    };
    Ok(Event::FileControlReceipt { friend, file_number, control })
}

fn ev_file_chunk_request_of(fields: &Vec<(String, Json)>) -> (r: Result<Event, DecodeError>)
    ensures
        ({
            let sp = ev_file_chunk_request_from(jview_fields(fields@));
            match r {
                Ok(q) => sp == Ok::<EventV, DecodeError>(q@),
                Err(e) => sp == Err::<EventV, DecodeError>(e),
            }
        }),
{
    let friend = match jget_u32(fields, "friend") {
        Ok(v) => v,
        Err(e) => {
            return Err(e);
        },
    };
    let file_number = match jget_u32(fields, "file_number") {
        Ok(v) => v,
        Err(e) => {
            return Err(e);
        },
    };
    let position = match jget_usize(fields, "position") {
        Ok(v) => v,
        Err(e) => {
            return Err(e);
        },
    };
    let length = match jget_usize(fields, "length") {
        Ok(v) => v,
        Err(e) => {
            return Err(e);
        },
    };
    Ok(Event::FileChunkRequest { friend, file_number, position, length })
}

fn ev_file_receipt_of(fields: &Vec<(String, Json)>) -> (r: Result<Event, DecodeError>)
    ensures
        ({
            let sp = ev_file_receipt_from(jview_fields(fields@));
            match r {
                Ok(q) => sp == Ok::<EventV, DecodeError>(q@),
                Err(e) => sp == Err::<EventV, DecodeError>(e),
            }
        }),
{
    let friend = match jget_u32(fields, "friend") {
        Ok(v) => v,
        Err(e) => {
            return Err(e);
        },
    };
    let file_number = match jget_u32(fields, "file_number") {
        Ok(v) => v,
        Err(e) => {
            return Err(e);
        },
    };
    let kind = match jget_u32(fields, "kind") {
        Ok(v) => v,
        Err(e) => {
            return Err(e);
        },
    };
    let file_size = match jget_usize(fields, "file_size") {
        Ok(v) => v,
        Err(e) => {
            return Err(e);
        },
    };
    let file_name = match jget_str(fields, "file_name") {
        Ok(v) => v,
        Err(e) => {
            return Err(e);
        },
    };
    Ok(Event::FileReceipt { friend, file_number, kind, file_size, file_name })
}

fn ev_file_chunk_receipt_of(fields: &Vec<(String, Json)>) -> (r: Result<Event, DecodeError>)
    ensures
        ({
            let sp = ev_file_chunk_receipt_from(jview_fields(fields@));
            match r {
                Ok(q) => sp == Ok::<EventV, DecodeError>(q@),
                Err(e) => sp == Err::<EventV, DecodeError>(e),
            }
        }),
{
    let friend = match jget_u32(fields, "friend") {
        Ok(v) => v,
        Err(e) => {
            return Err(e);
        },
    };
    let file_number = match jget_u32(fields, "file_number") {
        Ok(v) => v,
        Err(e) => {
            return Err(e);
        },
    };
    let position = match jget_usize(fields, "position") {
        Ok(v) => v,
        Err(e) => {
            return Err(e);
        },
    };
    let data = match jget_bytes(fields, "data") {
        Ok(v) => v,
        Err(e) => {
            return Err(e);
        },
    };
    Ok(Event::FileChunkReceipt { friend, file_number, position, data })
}

fn ev_conference_invite_of(fields: &Vec<(String, Json)>) -> (r: Result<Event, DecodeError>)
    ensures
        ({
            let sp = ev_conference_invite_from(jview_fields(fields@));
            match r {
                Ok(q) => sp == Ok::<EventV, DecodeError>(q@),
                Err(e) => sp == Err::<EventV, DecodeError>(e),
            }
        }),
{
    let friend = match jget_u32(fields, "friend") {
        Ok(v) => v,
        Err(e) => {
            return Err(e);
        },
    };
    let kind = match jget_conference_type(fields, "kind") {
        Ok(v) => v,
        Err(e) => {
            return Err(e);
        },
    };
    let cookie = match jget_bytes(fields, "cookie") {
        Ok(v) => v,
        Err(e) => {
            return Err(e);
        },
    };
    Ok(Event::ConferenceInvite { friend, kind, cookie })
}

fn ev_conference_connected_of(fields: &Vec<(String, Json)>) -> (r: Result<Event, DecodeError>)
    ensures
        ({
            let sp = ev_conference_connected_from(jview_fields(fields@));
            match r {
                Ok(q) => sp == Ok::<EventV, DecodeError>(q@),
                Err(e) => sp == Err::<EventV, DecodeError>(e),
            }
        }),
{
    let conference = match jget_u32(fields, "conference") {
        Ok(v) => v,
        Err(e) => {
            return Err(e);
        },
    };
    Ok(Event::ConferenceConnected { conference })
}

fn ev_conference_message_of(fields: &Vec<(String, Json)>) -> (r: Result<Event, DecodeError>)
    ensures
        ({
            let sp = ev_conference_message_from(jview_fields(fields@));
            match r {
                Ok(q) => sp == Ok::<EventV, DecodeError>(q@),
                Err(e) => sp == Err::<EventV, DecodeError>(e),
            }
        }),
{
    let conference = match jget_u32(fields, "conference") {
        Ok(v) => v,
        Err(e) => {
            return Err(e);
        },
    };
    let peer = match jget_u32(fields, "peer") {
        Ok(v) => v,
        Err(e) => {
            return Err(e);
        },
    };
    let kind = match jget_message_type(fields, "kind") {
        Ok(v) => v,
        Err(e) => {
            return Err(e);
        },
    };
    let message = match jget_str(fields, "message") {
        Ok(v) => v,
        Err(e) => {
            return Err(e);
        },
    };
    Ok(Event::ConferenceMessage { conference, peer, kind, message })
}

fn ev_conference_title_of(fields: &Vec<(String, Json)>) -> (r: Result<Event, DecodeError>)
    ensures
        ({
            let sp = ev_conference_title_from(jview_fields(fields@));
            match r {
                Ok(q) => sp == Ok::<EventV, DecodeError>(q@),
                Err(e) => sp == Err::<EventV, DecodeError>(e),
            }
        }),
{
    let conference = match jget_u32(fields, "conference") {
        Ok(v) => v,
        Err(e) => {
            return Err(e);
        },
    };
    let peer = match jget_u32(fields, "peer") {
        Ok(v) => v,
        Err(e) => {
            return Err(e);
        },
    };
    let title = match jget_str(fields, "title") {
        Ok(v) => v,
        Err(e) => {
            return Err(e);
        },
    };
    Ok(Event::ConferenceTitle { conference, peer, title })
}

fn ev_conference_peer_name_of(fields: &Vec<(String, Json)>) -> (r: Result<Event, DecodeError>)
    ensures
        ({
            let sp = ev_conference_peer_name_from(jview_fields(fields@));
            match r {
                Ok(q) => sp == Ok::<EventV, DecodeError>(q@),
                Err(e) => sp == Err::<EventV, DecodeError>(e),
            }
        }),
{
    let conference = match jget_u32(fields, "conference") {
        Ok(v) => v,
        Err(e) => {
            return Err(e);
        },
    };
    let peer = match jget_u32(fields, "peer") {
        Ok(v) => v,
        Err(e) => {
            return Err(e);
        },
    };
    let name = match jget_str(fields, "name") {
        Ok(v) => v,
        Err(e) => {
            return Err(e);
        },
    };
    Ok(Event::ConferencePeerName { conference, peer, name })
}

fn ev_conference_peer_list_changed_of(fields: &Vec<(String, Json)>) -> (r: Result<Event, DecodeError>)
    ensures
        ({
            let sp = ev_conference_peer_list_changed_from(jview_fields(fields@));
            match r {
                Ok(q) => sp == Ok::<EventV, DecodeError>(q@),
                Err(e) => sp == Err::<EventV, DecodeError>(e),
            }
        }),
{
    let conference = match jget_u32(fields, "conference") {
        Ok(v) => v,
        Err(e) => {
            return Err(e);
        },
    };
    Ok(Event::ConferencePeerListChanged { conference })
}

#[verifier::rlimit(100)]
fn ev_of_tag2(tag: &String, fields: &Vec<(String, Json)>) -> (r: Result<Event, DecodeError>)
    ensures
        ({
            let sp = ev_dispatch2(tag@, jview_fields(fields@));
            match r {
                Ok(q) => sp == Ok::<EventV, DecodeError>(q@),
                Err(e) => sp == Err::<EventV, DecodeError>(e),
            }
        }),
{
    if str_eq(tag.as_str(), "FileReceipt") {
        ev_file_receipt_of(fields)
    } else if str_eq(tag.as_str(), "FileChunkReceipt") {
        ev_file_chunk_receipt_of(fields)
    } else if str_eq(tag.as_str(), "ConferenceInvite") {
        ev_conference_invite_of(fields)
    } else if str_eq(tag.as_str(), "ConferenceConnected") {
        ev_conference_connected_of(fields)
    } else if str_eq(tag.as_str(), "ConferenceMessage") {
        ev_conference_message_of(fields)
    } else if str_eq(tag.as_str(), "ConferenceTitle") {
        ev_conference_title_of(fields)
    } else if str_eq(tag.as_str(), "ConferencePeerName") {
        ev_conference_peer_name_of(fields)
    } else if str_eq(tag.as_str(), "ConferencePeerListChanged") {
        ev_conference_peer_list_changed_of(fields)
    } else {
        Err(DecodeError::UnknownVariant)
    }
}

#[verifier::rlimit(100)]
fn ev_of_tag(tag: &String, fields: &Vec<(String, Json)>) -> (r: Result<Event, DecodeError>)
    ensures
        ({
            let sp = ev_dispatch(tag@, jview_fields(fields@));
            match r {
                Ok(q) => sp == Ok::<EventV, DecodeError>(q@),
                Err(e) => sp == Err::<EventV, DecodeError>(e),
            }
        }),
{
    if str_eq(tag.as_str(), "SecretKey") {
        ev_secret_key_of(fields)
    } else if str_eq(tag.as_str(), "ConnectionStatus") {
        ev_connection_status_of(fields)
    } else if str_eq(tag.as_str(), "FriendRequest") {
        ev_friend_request_of(fields)
    } else if str_eq(tag.as_str(), "FriendMessage") {
        ev_friend_message_of(fields)
    } else if str_eq(tag.as_str(), "FriendName") {
        ev_friend_name_of(fields)
    } else if str_eq(tag.as_str(), "FriendStatusMessage") {
        ev_friend_status_message_of(fields)
    } else if str_eq(tag.as_str(), "FriendStatus") {
        ev_friend_status_of(fields)
    } else if str_eq(tag.as_str(), "FriendConnectionStatus") {
        ev_friend_connection_status_of(fields)
    } else if str_eq(tag.as_str(), "FriendTyping") {
        ev_friend_typing_of(fields)
    } else if str_eq(tag.as_str(), "FriendReadReceipt") {
        ev_friend_read_receipt_of(fields)
    } else if str_eq(tag.as_str(), "FileControlReceipt") {
        ev_file_control_receipt_of(fields)
    } else if str_eq(tag.as_str(), "FileChunkRequest") {
        ev_file_chunk_request_of(fields)
    } else {
        ev_of_tag2(tag, fields)
    }
}

/// Reads one event out of a parsed JSON value.
pub fn event_value_of_json(j: &Json) -> (r: Result<Event, DecodeError>)
    ensures
        ({
            let sp = ev_from_json(j@);
            match r {
                Ok(q) => sp == Ok::<EventV, DecodeError>(q@),
                Err(e) => sp == Err::<EventV, DecodeError>(e),
            }
        }),
{
    match j {
        Json::Obj(fields) => match obj_get(fields, "event") {
            Some(tj) => match tj {
                Json::Str(tag) => ev_of_tag(tag, fields),
                _ => Err(DecodeError::MalformedField),
            },
            None => Err(DecodeError::MissingField),
        },
        _ => Err(DecodeError::MalformedField),
    }
}

proof fn lemma_ev_secret_key_rt(secret_key: Seq<char>)
    ensures
        ev_from_json(ev_to_json((EventV::SecretKey { secret_key }))) == Ok::<EventV, DecodeError>((EventV::SecretKey { secret_key })),
        jdepth(ev_to_json((EventV::SecretKey { secret_key }))) <= 6,
{
    reveal_with_fuel(jlookup, 10);
    let v = (EventV::SecretKey { secret_key });
    let m1 = ("event"@, JsonV::Str("SecretKey"@));
    let m2 = ("secret_key"@, JsonV::Str(secret_key));
    let ms = seq![m1, m2];
    assert(ev_to_json(v) == JsonV::Obj(ms));
    assert(ms.drop_first() =~= seq![m2]);
    assert(seq![m2].drop_first() =~= Seq::<(Seq<char>, JsonV)>::empty());
    reveal_strlit("event");
    assert("event"@.len() == 5);
    reveal_strlit("SecretKey");
    assert("SecretKey"@.len() == 9);
    reveal_strlit("secret_key");
    assert("secret_key"@.len() == 10);
    assert("secret_key"@ != "event"@);
    assert(jlookup(ms, "event"@) == Some(JsonV::Str("SecretKey"@)));
    assert(ev_from_json(JsonV::Obj(ms)) == ev_dispatch("SecretKey"@, ms));
    assert(ev_dispatch("SecretKey"@, ms) == ev_secret_key_from(ms));
    assert(jlookup(ms, "secret_key"@) == Some(m2.1));
    assert(sget_str(ms, "secret_key"@) == Ok::<Seq<char>, DecodeError>(secret_key));
    assert(ev_secret_key_from(ms) == Ok::<EventV, DecodeError>(v));
    reveal_with_fuel(jdepth_fields, 10);
    assert(jdepth(m1.1) == 0);
    assert(jdepth(m2.1) == 0);
    assert(jdepth_fields(seq![m2]) <= 5);
    assert(jdepth_fields(seq![m1, m2]) <= 5);
    assert(jdepth(JsonV::Obj(ms)) <= 6);
}

proof fn lemma_ev_connection_status_rt(status: ConnectionStatus)
    ensures
        ev_from_json(ev_to_json((EventV::ConnectionStatus { status }))) == Ok::<EventV, DecodeError>((EventV::ConnectionStatus { status })),
        jdepth(ev_to_json((EventV::ConnectionStatus { status }))) <= 6,
{
    reveal_with_fuel(jlookup, 10);
    let v = (EventV::ConnectionStatus { status });
    let m1 = ("event"@, JsonV::Str("ConnectionStatus"@));
    let m2 = ("status"@, JsonV::Str(connection_status_str(status)));
    let ms = seq![m1, m2];
    assert(ev_to_json(v) == JsonV::Obj(ms));
    assert(ms.drop_first() =~= seq![m2]);
    assert(seq![m2].drop_first() =~= Seq::<(Seq<char>, JsonV)>::empty());
    reveal_strlit("event");
    assert("event"@.len() == 5);
    reveal_strlit("ConnectionStatus");
    assert("ConnectionStatus"@.len() == 16);
    reveal_strlit("SecretKey");
    assert("SecretKey"@.len() == 9);
    assert("ConnectionStatus"@ != "SecretKey"@);
    reveal_strlit("status");
    assert("status"@.len() == 6);
    assert("status"@ != "event"@);
    assert(jlookup(ms, "event"@) == Some(JsonV::Str("ConnectionStatus"@)));
    assert(ev_from_json(JsonV::Obj(ms)) == ev_dispatch("ConnectionStatus"@, ms));
    assert(ev_dispatch("ConnectionStatus"@, ms) == ev_connection_status_from(ms));
    lemma_connection_status_rt(status);
    assert(jlookup(ms, "status"@) == Some(m2.1));
    assert(sget_connection_status(ms, "status"@) == Ok::<ConnectionStatus, DecodeError>(status));
    assert(ev_connection_status_from(ms) == Ok::<EventV, DecodeError>(v));
    reveal_with_fuel(jdepth_fields, 10);
    assert(jdepth(m1.1) == 0);
    assert(jdepth(m2.1) == 0);
    assert(jdepth_fields(seq![m2]) <= 5);
    assert(jdepth_fields(seq![m1, m2]) <= 5);
    assert(jdepth(JsonV::Obj(ms)) <= 6);
}

proof fn lemma_ev_friend_request_rt(public_key: Seq<u8>, message: Seq<char>)
    requires
        public_key.len() == 32,
    ensures
        ev_from_json(ev_to_json((EventV::FriendRequest { public_key, message }))) == Ok::<EventV, DecodeError>((EventV::FriendRequest { public_key, message })),
        jdepth(ev_to_json((EventV::FriendRequest { public_key, message }))) <= 6,
{
    reveal_with_fuel(jlookup, 10);
    let v = (EventV::FriendRequest { public_key, message });
    let m1 = ("event"@, JsonV::Str("FriendRequest"@));
    let m2 = ("public_key"@, JsonV::Arr(bytes_arr(public_key)));
    let m3 = ("message"@, JsonV::Str(message));
    let ms = seq![m1, m2, m3];
    assert(ev_to_json(v) == JsonV::Obj(ms));
    assert(ms.drop_first() =~= seq![m2, m3]);
    assert(seq![m2, m3].drop_first() =~= seq![m3]);
    assert(seq![m3].drop_first() =~= Seq::<(Seq<char>, JsonV)>::empty());
    reveal_strlit("event");
    assert("event"@.len() == 5);
    reveal_strlit("FriendRequest");
    assert("FriendRequest"@.len() == 13);
    reveal_strlit("SecretKey");
    assert("SecretKey"@.len() == 9);
    assert("FriendRequest"@ != "SecretKey"@);
    reveal_strlit("ConnectionStatus");
    assert("ConnectionStatus"@.len() == 16);
    assert("FriendRequest"@ != "ConnectionStatus"@);
    reveal_strlit("public_key");
    assert("public_key"@.len() == 10);
    assert("public_key"@ != "event"@);
    reveal_strlit("message");
    assert("message"@.len() == 7);
    assert("message"@ != "event"@);
    assert("message"@ != "public_key"@);
    assert(jlookup(ms, "event"@) == Some(JsonV::Str("FriendRequest"@)));
    assert(ev_from_json(JsonV::Obj(ms)) == ev_dispatch("FriendRequest"@, ms));
    assert(ev_dispatch("FriendRequest"@, ms) == ev_friend_request_from(ms));
    lemma_key32_arr_rt(public_key);
    assert(jlookup(ms, "public_key"@) == Some(m2.1));
    assert(sget_key32(ms, "public_key"@) == Ok::<Seq<u8>, DecodeError>(public_key));
    assert(jlookup(ms, "message"@) == Some(m3.1));
    assert(sget_str(ms, "message"@) == Ok::<Seq<char>, DecodeError>(message));
    assert(ev_friend_request_from(ms) == Ok::<EventV, DecodeError>(v));
    reveal_with_fuel(jdepth_fields, 10);
    assert(jdepth(m1.1) == 0);
    lemma_bytes_arr_depth(public_key);
    assert(jdepth(m2.1) <= 1);
    assert(jdepth(m3.1) == 0);
    assert(jdepth_fields(seq![m3]) <= 5);
    assert(jdepth_fields(seq![m2, m3]) <= 5);
    assert(jdepth_fields(seq![m1, m2, m3]) <= 5);
    assert(jdepth(JsonV::Obj(ms)) <= 6);
}

proof fn lemma_ev_friend_message_rt(friend: u32, kind: MessageType, message: Seq<char>)
    ensures
        ev_from_json(ev_to_json((EventV::FriendMessage { friend, kind, message }))) == Ok::<EventV, DecodeError>((EventV::FriendMessage { friend, kind, message })),
        jdepth(ev_to_json((EventV::FriendMessage { friend, kind, message }))) <= 6,
{
    reveal_with_fuel(jlookup, 10);
    let v = (EventV::FriendMessage { friend, kind, message });
    let m1 = ("event"@, JsonV::Str("FriendMessage"@));
    let m2 = ("friend"@, JsonV::UInt(friend as u64));
    let m3 = ("kind"@, JsonV::Str(message_type_str(kind)));
    let m4 = ("message"@, JsonV::Str(message));
    let ms = seq![m1, m2, m3, m4];
    assert(ev_to_json(v) == JsonV::Obj(ms));
    assert(ms.drop_first() =~= seq![m2, m3, m4]);
    assert(seq![m2, m3, m4].drop_first() =~= seq![m3, m4]);
    assert(seq![m3, m4].drop_first() =~= seq![m4]);
    assert(seq![m4].drop_first() =~= Seq::<(Seq<char>, JsonV)>::empty());
    reveal_strlit("event");
    assert("event"@.len() == 5);
    reveal_strlit("FriendMessage");
    assert("FriendMessage"@.len() == 13);
    reveal_strlit("SecretKey");
    assert("SecretKey"@.len() == 9);
    assert("FriendMessage"@ != "SecretKey"@);
    reveal_strlit("ConnectionStatus");
    assert("ConnectionStatus"@.len() == 16);
    assert("FriendMessage"@ != "ConnectionStatus"@);
    reveal_strlit("FriendRequest");
    assert("FriendRequest"@.len() == 13);
    assert("FriendMessage"@[6] == 'M');
    assert("FriendRequest"@[6] == 'R');
    assert("FriendMessage"@ != "FriendRequest"@);
    reveal_strlit("friend");
    assert("friend"@.len() == 6);
    assert("friend"@ != "event"@);
    reveal_strlit("kind");
    assert("kind"@.len() == 4);
    assert("kind"@ != "event"@);
    assert("kind"@ != "friend"@);
    reveal_strlit("message");
    assert("message"@.len() == 7);
    assert("message"@ != "event"@);
    assert("message"@ != "friend"@);
    assert("message"@ != "kind"@);
    assert(jlookup(ms, "event"@) == Some(JsonV::Str("FriendMessage"@)));
    assert(ev_from_json(JsonV::Obj(ms)) == ev_dispatch("FriendMessage"@, ms));
    assert(ev_dispatch("FriendMessage"@, ms) == ev_friend_message_from(ms));
    assert(jlookup(ms, "friend"@) == Some(m2.1));
    assert(sget_u32(ms, "friend"@) == Ok::<u32, DecodeError>(friend));
    lemma_message_type_rt(kind);
    assert(jlookup(ms, "kind"@) == Some(m3.1));
    assert(sget_message_type(ms, "kind"@) == Ok::<MessageType, DecodeError>(kind));
    assert(jlookup(ms, "message"@) == Some(m4.1));
    assert(sget_str(ms, "message"@) == Ok::<Seq<char>, DecodeError>(message));
    assert(ev_friend_message_from(ms) == Ok::<EventV, DecodeError>(v));
    reveal_with_fuel(jdepth_fields, 10);
    assert(jdepth(m1.1) == 0);
    assert(jdepth(m2.1) == 0);
    assert(jdepth(m3.1) == 0);
    assert(jdepth(m4.1) == 0);
    assert(jdepth_fields(seq![m4]) <= 5);
    assert(jdepth_fields(seq![m3, m4]) <= 5);
    assert(jdepth_fields(seq![m2, m3, m4]) <= 5);
    assert(jdepth_fields(seq![m1, m2, m3, m4]) <= 5);
    assert(jdepth(JsonV::Obj(ms)) <= 6);
}

proof fn lemma_ev_friend_name_rt(friend: u32, name: Seq<char>)
    ensures
        ev_from_json(ev_to_json((EventV::FriendName { friend, name }))) == Ok::<EventV, DecodeError>((EventV::FriendName { friend, name })),
        jdepth(ev_to_json((EventV::FriendName { friend, name }))) <= 6,
{
    reveal_with_fuel(jlookup, 10);
    let v = (EventV::FriendName { friend, name });
    let m1 = ("event"@, JsonV::Str("FriendName"@));
    let m2 = ("friend"@, JsonV::UInt(friend as u64));
    let m3 = ("name"@, JsonV::Str(name));
    let ms = seq![m1, m2, m3];
    assert(ev_to_json(v) == JsonV::Obj(ms));
    assert(ms.drop_first() =~= seq![m2, m3]);
    assert(seq![m2, m3].drop_first() =~= seq![m3]);
    assert(seq![m3].drop_first() =~= Seq::<(Seq<char>, JsonV)>::empty());
    reveal_strlit("event");
    assert("event"@.len() == 5);
    reveal_strlit("FriendName");
    assert("FriendName"@.len() == 10);
    reveal_strlit("SecretKey");
    assert("SecretKey"@.len() == 9);
    assert("FriendName"@ != "SecretKey"@);
    reveal_strlit("ConnectionStatus");
    assert("ConnectionStatus"@.len() == 16);
    assert("FriendName"@ != "ConnectionStatus"@);
    reveal_strlit("FriendRequest");
    assert("FriendRequest"@.len() == 13);
    assert("FriendName"@ != "FriendRequest"@);
    reveal_strlit("FriendMessage");
    assert("FriendMessage"@.len() == 13);
    assert("FriendName"@ != "FriendMessage"@);
    reveal_strlit("friend");
    assert("friend"@.len() == 6);
    assert("friend"@ != "event"@);
    reveal_strlit("name");
    assert("name"@.len() == 4);
    assert("name"@ != "event"@);
    assert("name"@ != "friend"@);
    assert(jlookup(ms, "event"@) == Some(JsonV::Str("FriendName"@)));
    assert(ev_from_json(JsonV::Obj(ms)) == ev_dispatch("FriendName"@, ms));
    assert(ev_dispatch("FriendName"@, ms) == ev_friend_name_from(ms));
    assert(jlookup(ms, "friend"@) == Some(m2.1));
    assert(sget_u32(ms, "friend"@) == Ok::<u32, DecodeError>(friend));
    assert(jlookup(ms, "name"@) == Some(m3.1));
    assert(sget_str(ms, "name"@) == Ok::<Seq<char>, DecodeError>(name));
    assert(ev_friend_name_from(ms) == Ok::<EventV, DecodeError>(v));
    reveal_with_fuel(jdepth_fields, 10);
    assert(jdepth(m1.1) == 0);
    assert(jdepth(m2.1) == 0);
    assert(jdepth(m3.1) == 0);
    assert(jdepth_fields(seq![m3]) <= 5);
    assert(jdepth_fields(seq![m2, m3]) <= 5);
    assert(jdepth_fields(seq![m1, m2, m3]) <= 5);
    assert(jdepth(JsonV::Obj(ms)) <= 6);
}

proof fn lemma_ev_friend_status_message_rt(friend: u32, status: Seq<char>)
    ensures
        ev_from_json(ev_to_json((EventV::FriendStatusMessage { friend, status }))) == Ok::<EventV, DecodeError>((EventV::FriendStatusMessage { friend, status })),
        jdepth(ev_to_json((EventV::FriendStatusMessage { friend, status }))) <= 6,
{
    reveal_with_fuel(jlookup, 10);
    let v = (EventV::FriendStatusMessage { friend, status });
    let m1 = ("event"@, JsonV::Str("FriendStatusMessage"@));
    let m2 = ("friend"@, JsonV::UInt(friend as u64));
    let m3 = ("status"@, JsonV::Str(status));
    let ms = seq![m1, m2, m3];
    assert(ev_to_json(v) == JsonV::Obj(ms));
    assert(ms.drop_first() =~= seq![m2, m3]);
    assert(seq![m2, m3].drop_first() =~= seq![m3]);
    assert(seq![m3].drop_first() =~= Seq::<(Seq<char>, JsonV)>::empty());
    reveal_strlit("event");
    assert("event"@.len() == 5);
    reveal_strlit("FriendStatusMessage");
    assert("FriendStatusMessage"@.len() == 19);
    reveal_strlit("SecretKey");
    assert("SecretKey"@.len() == 9);
    assert("FriendStatusMessage"@ != "SecretKey"@);
    reveal_strlit("ConnectionStatus");
    assert("ConnectionStatus"@.len() == 16);
    assert("FriendStatusMessage"@ != "ConnectionStatus"@);
    reveal_strlit("FriendRequest");
    assert("FriendRequest"@.len() == 13);
    assert("FriendStatusMessage"@ != "FriendRequest"@);
    reveal_strlit("FriendMessage");
    assert("FriendMessage"@.len() == 13);
    assert("FriendStatusMessage"@ != "FriendMessage"@);
    reveal_strlit("FriendName");
    assert("FriendName"@.len() == 10);
    assert("FriendStatusMessage"@ != "FriendName"@);
    reveal_strlit("friend");
    assert("friend"@.len() == 6);
    assert("friend"@ != "event"@);
    reveal_strlit("status");
    assert("status"@.len() == 6);
    assert("status"@ != "event"@);
    assert("status"@[0] == 's');
    assert("friend"@[0] == 'f');
    assert("status"@ != "friend"@);
    assert(jlookup(ms, "event"@) == Some(JsonV::Str("FriendStatusMessage"@)));
    assert(ev_from_json(JsonV::Obj(ms)) == ev_dispatch("FriendStatusMessage"@, ms));
    assert(ev_dispatch("FriendStatusMessage"@, ms) == ev_friend_status_message_from(ms));
    assert(jlookup(ms, "friend"@) == Some(m2.1));
    assert(sget_u32(ms, "friend"@) == Ok::<u32, DecodeError>(friend));
    assert(jlookup(ms, "status"@) == Some(m3.1));
    assert(sget_str(ms, "status"@) == Ok::<Seq<char>, DecodeError>(status));
    assert(ev_friend_status_message_from(ms) == Ok::<EventV, DecodeError>(v));
    reveal_with_fuel(jdepth_fields, 10);
    assert(jdepth(m1.1) == 0);
    assert(jdepth(m2.1) == 0);
    assert(jdepth(m3.1) == 0);
    assert(jdepth_fields(seq![m3]) <= 5);
    assert(jdepth_fields(seq![m2, m3]) <= 5);
    assert(jdepth_fields(seq![m1, m2, m3]) <= 5);
    assert(jdepth(JsonV::Obj(ms)) <= 6);
}

proof fn lemma_ev_friend_status_rt(friend: u32, status: UserStatus)
    ensures
        ev_from_json(ev_to_json((EventV::FriendStatus { friend, status }))) == Ok::<EventV, DecodeError>((EventV::FriendStatus { friend, status })),
        jdepth(ev_to_json((EventV::FriendStatus { friend, status }))) <= 6,
{
    reveal_with_fuel(jlookup, 10);
    let v = (EventV::FriendStatus { friend, status });
    let m1 = ("event"@, JsonV::Str("FriendStatus"@));
    let m2 = ("friend"@, JsonV::UInt(friend as u64));
    let m3 = ("status"@, JsonV::Str(user_status_str(status)));
    let ms = seq![m1, m2, m3];
    assert(ev_to_json(v) == JsonV::Obj(ms));
    assert(ms.drop_first() =~= seq![m2, m3]);
    assert(seq![m2, m3].drop_first() =~= seq![m3]);
    assert(seq![m3].drop_first() =~= Seq::<(Seq<char>, JsonV)>::empty());
    reveal_strlit("event");
    assert("event"@.len() == 5);
    reveal_strlit("FriendStatus");
    assert("FriendStatus"@.len() == 12);
    reveal_strlit("SecretKey");
    assert("SecretKey"@.len() == 9);
    assert("FriendStatus"@ != "SecretKey"@);
    reveal_strlit("ConnectionStatus");
    assert("ConnectionStatus"@.len() == 16);
    assert("FriendStatus"@ != "ConnectionStatus"@);
    reveal_strlit("FriendRequest");
    assert("FriendRequest"@.len() == 13);
    assert("FriendStatus"@ != "FriendRequest"@);
    reveal_strlit("FriendMessage");
    assert("FriendMessage"@.len() == 13);
    assert("FriendStatus"@ != "FriendMessage"@);
    reveal_strlit("FriendName");
    assert("FriendName"@.len() == 10);
    assert("FriendStatus"@ != "FriendName"@);
    reveal_strlit("FriendStatusMessage");
    assert("FriendStatusMessage"@.len() == 19);
    assert("FriendStatus"@ != "FriendStatusMessage"@);
    reveal_strlit("friend");
    assert("friend"@.len() == 6);
    assert("friend"@ != "event"@);
    reveal_strlit("status");
    assert("status"@.len() == 6);
    assert("status"@ != "event"@);
    assert("status"@[0] == 's');
    assert("friend"@[0] == 'f');
    assert("status"@ != "friend"@);
    assert(jlookup(ms, "event"@) == Some(JsonV::Str("FriendStatus"@)));
    assert(ev_from_json(JsonV::Obj(ms)) == ev_dispatch("FriendStatus"@, ms));
    assert(ev_dispatch("FriendStatus"@, ms) == ev_friend_status_from(ms));
    assert(jlookup(ms, "friend"@) == Some(m2.1));
    assert(sget_u32(ms, "friend"@) == Ok::<u32, DecodeError>(friend));
    lemma_user_status_rt(status);
    assert(jlookup(ms, "status"@) == Some(m3.1));
    assert(sget_user_status(ms, "status"@) == Ok::<UserStatus, DecodeError>(status));
    assert(ev_friend_status_from(ms) == Ok::<EventV, DecodeError>(v));
    reveal_with_fuel(jdepth_fields, 10);
    assert(jdepth(m1.1) == 0);
    assert(jdepth(m2.1) == 0);
    assert(jdepth(m3.1) == 0);
    assert(jdepth_fields(seq![m3]) <= 5);
    assert(jdepth_fields(seq![m2, m3]) <= 5);
    assert(jdepth_fields(seq![m1, m2, m3]) <= 5);
    assert(jdepth(JsonV::Obj(ms)) <= 6);
}

proof fn lemma_ev_friend_connection_status_rt(friend: u32, status: ConnectionStatus)
    ensures
        ev_from_json(ev_to_json((EventV::FriendConnectionStatus { friend, status }))) == Ok::<EventV, DecodeError>((EventV::FriendConnectionStatus { friend, status })),
        jdepth(ev_to_json((EventV::FriendConnectionStatus { friend, status }))) <= 6,
{
    reveal_with_fuel(jlookup, 10);
    let v = (EventV::FriendConnectionStatus { friend, status });
    let m1 = ("event"@, JsonV::Str("FriendConnectionStatus"@));
    let m2 = ("friend"@, JsonV::UInt(friend as u64));
    let m3 = ("status"@, JsonV::Str(connection_status_str(status)));
    let ms = seq![m1, m2, m3];
    assert(ev_to_json(v) == JsonV::Obj(ms));
    assert(ms.drop_first() =~= seq![m2, m3]);
    assert(seq![m2, m3].drop_first() =~= seq![m3]);
    assert(seq![m3].drop_first() =~= Seq::<(Seq<char>, JsonV)>::empty());
    reveal_strlit("event");
    assert("event"@.len() == 5);
    reveal_strlit("FriendConnectionStatus");
    assert("FriendConnectionStatus"@.len() == 22);
    reveal_strlit("SecretKey");
    assert("SecretKey"@.len() == 9);
    assert("FriendConnectionStatus"@ != "SecretKey"@);
    reveal_strlit("ConnectionStatus");
    assert("ConnectionStatus"@.len() == 16);
    assert("FriendConnectionStatus"@ != "ConnectionStatus"@);
    reveal_strlit("FriendRequest");
    assert("FriendRequest"@.len() == 13);
    assert("FriendConnectionStatus"@ != "FriendRequest"@);
    reveal_strlit("FriendMessage");
    assert("FriendMessage"@.len() == 13);
    assert("FriendConnectionStatus"@ != "FriendMessage"@);
    reveal_strlit("FriendName");
    assert("FriendName"@.len() == 10);
    assert("FriendConnectionStatus"@ != "FriendName"@);
    reveal_strlit("FriendStatusMessage");
    assert("FriendStatusMessage"@.len() == 19);
    assert("FriendConnectionStatus"@ != "FriendStatusMessage"@);
    reveal_strlit("FriendStatus");
    assert("FriendStatus"@.len() == 12);
    assert("FriendConnectionStatus"@ != "FriendStatus"@);
    reveal_strlit("friend");
    assert("friend"@.len() == 6);
    assert("friend"@ != "event"@);
    reveal_strlit("status");
    assert("status"@.len() == 6);
    assert("status"@ != "event"@);
    assert("status"@[0] == 's');
    assert("friend"@[0] == 'f');
    assert("status"@ != "friend"@);
    assert(jlookup(ms, "event"@) == Some(JsonV::Str("FriendConnectionStatus"@)));
    assert(ev_from_json(JsonV::Obj(ms)) == ev_dispatch("FriendConnectionStatus"@, ms));
    assert(ev_dispatch("FriendConnectionStatus"@, ms) == ev_friend_connection_status_from(ms));
    assert(jlookup(ms, "friend"@) == Some(m2.1));
    assert(sget_u32(ms, "friend"@) == Ok::<u32, DecodeError>(friend));
    lemma_connection_status_rt(status);
    assert(jlookup(ms, "status"@) == Some(m3.1));
    assert(sget_connection_status(ms, "status"@) == Ok::<ConnectionStatus, DecodeError>(status));
    assert(ev_friend_connection_status_from(ms) == Ok::<EventV, DecodeError>(v));
    reveal_with_fuel(jdepth_fields, 10);
    assert(jdepth(m1.1) == 0);
    assert(jdepth(m2.1) == 0);
    assert(jdepth(m3.1) == 0);
    assert(jdepth_fields(seq![m3]) <= 5);
    assert(jdepth_fields(seq![m2, m3]) <= 5);
    assert(jdepth_fields(seq![m1, m2, m3]) <= 5);
    assert(jdepth(JsonV::Obj(ms)) <= 6);
}

proof fn lemma_ev_friend_typing_rt(friend: u32, is_typing: bool)
    ensures
        ev_from_json(ev_to_json((EventV::FriendTyping { friend, is_typing }))) == Ok::<EventV, DecodeError>((EventV::FriendTyping { friend, is_typing })),
        jdepth(ev_to_json((EventV::FriendTyping { friend, is_typing }))) <= 6,
{
    reveal_with_fuel(jlookup, 10);
    let v = (EventV::FriendTyping { friend, is_typing });
    let m1 = ("event"@, JsonV::Str("FriendTyping"@));
    let m2 = ("friend"@, JsonV::UInt(friend as u64));
    let m3 = ("is_typing"@, JsonV::Bool(is_typing));
    let ms = seq![m1, m2, m3];
    assert(ev_to_json(v) == JsonV::Obj(ms));
    assert(ms.drop_first() =~= seq![m2, m3]);
    assert(seq![m2, m3].drop_first() =~= seq![m3]);
    assert(seq![m3].drop_first() =~= Seq::<(Seq<char>, JsonV)>::empty());
    reveal_strlit("event");
    assert("event"@.len() == 5);
    reveal_strlit("FriendTyping");
    assert("FriendTyping"@.len() == 12);
    reveal_strlit("SecretKey");
    assert("SecretKey"@.len() == 9);
    assert("FriendTyping"@ != "SecretKey"@);
    reveal_strlit("ConnectionStatus");
    assert("ConnectionStatus"@.len() == 16);
    assert("FriendTyping"@ != "ConnectionStatus"@);
    reveal_strlit("FriendRequest");
    assert("FriendRequest"@.len() == 13);
    assert("FriendTyping"@ != "FriendRequest"@);
    reveal_strlit("FriendMessage");
    assert("FriendMessage"@.len() == 13);
    assert("FriendTyping"@ != "FriendMessage"@);
    reveal_strlit("FriendName");
    assert("FriendName"@.len() == 10);
    assert("FriendTyping"@ != "FriendName"@);
    reveal_strlit("FriendStatusMessage");
    assert("FriendStatusMessage"@.len() == 19);
    assert("FriendTyping"@ != "FriendStatusMessage"@);
    reveal_strlit("FriendStatus");
    assert("FriendStatus"@.len() == 12);
    assert("FriendTyping"@[6] == 'T');
    assert("FriendStatus"@[6] == 'S');
    assert("FriendTyping"@ != "FriendStatus"@);
    reveal_strlit("FriendConnectionStatus");
    assert("FriendConnectionStatus"@.len() == 22);
    assert("FriendTyping"@ != "FriendConnectionStatus"@);
    reveal_strlit("friend");
    assert("friend"@.len() == 6);
    assert("friend"@ != "event"@);
    reveal_strlit("is_typing");
    assert("is_typing"@.len() == 9);
    assert("is_typing"@ != "event"@);
    assert("is_typing"@ != "friend"@);
    assert(jlookup(ms, "event"@) == Some(JsonV::Str("FriendTyping"@)));
    assert(ev_from_json(JsonV::Obj(ms)) == ev_dispatch("FriendTyping"@, ms));
    assert(ev_dispatch("FriendTyping"@, ms) == ev_friend_typing_from(ms));
    assert(jlookup(ms, "friend"@) == Some(m2.1));
    assert(sget_u32(ms, "friend"@) == Ok::<u32, DecodeError>(friend));
    assert(jlookup(ms, "is_typing"@) == Some(m3.1));
    assert(sget_bool(ms, "is_typing"@) == Ok::<bool, DecodeError>(is_typing));
    assert(ev_friend_typing_from(ms) == Ok::<EventV, DecodeError>(v));
    reveal_with_fuel(jdepth_fields, 10);
    assert(jdepth(m1.1) == 0);
    assert(jdepth(m2.1) == 0);
    assert(jdepth(m3.1) == 0);
    assert(jdepth_fields(seq![m3]) <= 5);
    assert(jdepth_fields(seq![m2, m3]) <= 5);
    assert(jdepth_fields(seq![m1, m2, m3]) <= 5);
    assert(jdepth(JsonV::Obj(ms)) <= 6);
}

proof fn lemma_ev_friend_read_receipt_rt(friend: u32, message_id: u32)
    ensures
        ev_from_json(ev_to_json((EventV::FriendReadReceipt { friend, message_id }))) == Ok::<EventV, DecodeError>((EventV::FriendReadReceipt { friend, message_id })),
        jdepth(ev_to_json((EventV::FriendReadReceipt { friend, message_id }))) <= 6,
{
    reveal_with_fuel(jlookup, 10);
    let v = (EventV::FriendReadReceipt { friend, message_id });
    let m1 = ("event"@, JsonV::Str("FriendReadReceipt"@));
    let m2 = ("friend"@, JsonV::UInt(friend as u64));
    let m3 = ("message_id"@, JsonV::UInt(message_id as u64));
    let ms = seq![m1, m2, m3];
    assert(ev_to_json(v) == JsonV::Obj(ms));
    assert(ms.drop_first() =~= seq![m2, m3]);
    assert(seq![m2, m3].drop_first() =~= seq![m3]);
    assert(seq![m3].drop_first() =~= Seq::<(Seq<char>, JsonV)>::empty());
    reveal_strlit("event");
    assert("event"@.len() == 5);
    reveal_strlit("FriendReadReceipt");
    assert("FriendReadReceipt"@.len() == 17);
    reveal_strlit("SecretKey");
    assert("SecretKey"@.len() == 9);
    assert("FriendReadReceipt"@ != "SecretKey"@);
    reveal_strlit("ConnectionStatus");
    assert("ConnectionStatus"@.len() == 16);
    assert("FriendReadReceipt"@ != "ConnectionStatus"@);
    reveal_strlit("FriendRequest");
    assert("FriendRequest"@.len() == 13);
    assert("FriendReadReceipt"@ != "FriendRequest"@);
    reveal_strlit("FriendMessage");
    assert("FriendMessage"@.len() == 13);
    assert("FriendReadReceipt"@ != "FriendMessage"@);
    reveal_strlit("FriendName");
    assert("FriendName"@.len() == 10);
    assert("FriendReadReceipt"@ != "FriendName"@);
    reveal_strlit("FriendStatusMessage");
    assert("FriendStatusMessage"@.len() == 19);
    assert("FriendReadReceipt"@ != "FriendStatusMessage"@);
    reveal_strlit("FriendStatus");
    assert("FriendStatus"@.len() == 12);
    assert("FriendReadReceipt"@ != "FriendStatus"@);
    reveal_strlit("FriendConnectionStatus");
    assert("FriendConnectionStatus"@.len() == 22);
    assert("FriendReadReceipt"@ != "FriendConnectionStatus"@);
    reveal_strlit("FriendTyping");
    assert("FriendTyping"@.len() == 12);
    assert("FriendReadReceipt"@ != "FriendTyping"@);
    reveal_strlit("friend");
    assert("friend"@.len() == 6);
    assert("friend"@ != "event"@);
    reveal_strlit("message_id");
    assert("message_id"@.len() == 10);
    assert("message_id"@ != "event"@);
    assert("message_id"@ != "friend"@);
    assert(jlookup(ms, "event"@) == Some(JsonV::Str("FriendReadReceipt"@)));
    assert(ev_from_json(JsonV::Obj(ms)) == ev_dispatch("FriendReadReceipt"@, ms));
    assert(ev_dispatch("FriendReadReceipt"@, ms) == ev_friend_read_receipt_from(ms));
    assert(jlookup(ms, "friend"@) == Some(m2.1));
    assert(sget_u32(ms, "friend"@) == Ok::<u32, DecodeError>(friend));
    assert(jlookup(ms, "message_id"@) == Some(m3.1));
    assert(sget_u32(ms, "message_id"@) == Ok::<u32, DecodeError>(message_id));
    assert(ev_friend_read_receipt_from(ms) == Ok::<EventV, DecodeError>(v));
    reveal_with_fuel(jdepth_fields, 10);
    assert(jdepth(m1.1) == 0);
    assert(jdepth(m2.1) == 0);
    assert(jdepth(m3.1) == 0);
    assert(jdepth_fields(seq![m3]) <= 5);
    assert(jdepth_fields(seq![m2, m3]) <= 5);
    assert(jdepth_fields(seq![m1, m2, m3]) <= 5);
    assert(jdepth(JsonV::Obj(ms)) <= 6);
}

proof fn lemma_ev_file_control_receipt_rt(friend: u32, file_number: u32, control: FileControl)
    ensures
        ev_from_json(ev_to_json((EventV::FileControlReceipt { friend, file_number, control }))) == Ok::<EventV, DecodeError>((EventV::FileControlReceipt { friend, file_number, control })),
        jdepth(ev_to_json((EventV::FileControlReceipt { friend, file_number, control }))) <= 6,
{
    reveal_with_fuel(jlookup, 10);
    let v = (EventV::FileControlReceipt { friend, file_number, control });
    let m1 = ("event"@, JsonV::Str("FileControlReceipt"@));
    let m2 = ("friend"@, JsonV::UInt(friend as u64));
    let m3 = ("file_number"@, JsonV::UInt(file_number as u64));
    let m4 = ("control"@, JsonV::Str(file_control_str(control)));
    let ms = seq![m1, m2, m3, m4];
    assert(ev_to_json(v) == JsonV::Obj(ms));
    assert(ms.drop_first() =~= seq![m2, m3, m4]);
    assert(seq![m2, m3, m4].drop_first() =~= seq![m3, m4]);
    assert(seq![m3, m4].drop_first() =~= seq![m4]);
    assert(seq![m4].drop_first() =~= Seq::<(Seq<char>, JsonV)>::empty());
    reveal_strlit("event");
    assert("event"@.len() == 5);
    reveal_strlit("FileControlReceipt");
    assert("FileControlReceipt"@.len() == 18);
    reveal_strlit("SecretKey");
    assert("SecretKey"@.len() == 9);
    assert("FileControlReceipt"@ != "SecretKey"@);
    reveal_strlit("ConnectionStatus");
    assert("ConnectionStatus"@.len() == 16);
    assert("FileControlReceipt"@ != "ConnectionStatus"@);
    reveal_strlit("FriendRequest");
    assert("FriendRequest"@.len() == 13);
    assert("FileControlReceipt"@ != "FriendRequest"@);
    reveal_strlit("FriendMessage");
    assert("FriendMessage"@.len() == 13);
    assert("FileControlReceipt"@ != "FriendMessage"@);
    reveal_strlit("FriendName");
    assert("FriendName"@.len() == 10);
    assert("FileControlReceipt"@ != "FriendName"@);
    reveal_strlit("FriendStatusMessage");
    assert("FriendStatusMessage"@.len() == 19);
    assert("FileControlReceipt"@ != "FriendStatusMessage"@);
    reveal_strlit("FriendStatus");
    assert("FriendStatus"@.len() == 12);
    assert("FileControlReceipt"@ != "FriendStatus"@);
    reveal_strlit("FriendConnectionStatus");
    assert("FriendConnectionStatus"@.len() == 22);
    assert("FileControlReceipt"@ != "FriendConnectionStatus"@);
    reveal_strlit("FriendTyping");
    assert("FriendTyping"@.len() == 12);
    assert("FileControlReceipt"@ != "FriendTyping"@);
    reveal_strlit("FriendReadReceipt");
    assert("FriendReadReceipt"@.len() == 17);
    assert("FileControlReceipt"@ != "FriendReadReceipt"@);
    reveal_strlit("friend");
    assert("friend"@.len() == 6);
    assert("friend"@ != "event"@);
    reveal_strlit("file_number");
    assert("file_number"@.len() == 11);
    assert("file_number"@ != "event"@);
    assert("file_number"@ != "friend"@);
    reveal_strlit("control");
    assert("control"@.len() == 7);
    assert("control"@ != "event"@);
    assert("control"@ != "friend"@);
    assert("control"@ != "file_number"@);
    assert(jlookup(ms, "event"@) == Some(JsonV::Str("FileControlReceipt"@)));
    assert(ev_from_json(JsonV::Obj(ms)) == ev_dispatch("FileControlReceipt"@, ms));
    assert(ev_dispatch("FileControlReceipt"@, ms) == ev_file_control_receipt_from(ms));
    assert(jlookup(ms, "friend"@) == Some(m2.1));
    assert(sget_u32(ms, "friend"@) == Ok::<u32, DecodeError>(friend));
    assert(jlookup(ms, "file_number"@) == Some(m3.1));
    assert(sget_u32(ms, "file_number"@) == Ok::<u32, DecodeError>(file_number));
    lemma_file_control_rt(control);
    assert(jlookup(ms, "control"@) == Some(m4.1));
    assert(sget_file_control(ms, "control"@) == Ok::<FileControl, DecodeError>(control));
    assert(ev_file_control_receipt_from(ms) == Ok::<EventV, DecodeError>(v));
    reveal_with_fuel(jdepth_fields, 10);
    assert(jdepth(m1.1) == 0);
    assert(jdepth(m2.1) == 0);
    assert(jdepth(m3.1) == 0);
    assert(jdepth(m4.1) == 0);
    assert(jdepth_fields(seq![m4]) <= 5);
    assert(jdepth_fields(seq![m3, m4]) <= 5);
    assert(jdepth_fields(seq![m2, m3, m4]) <= 5);
    assert(jdepth_fields(seq![m1, m2, m3, m4]) <= 5);
    assert(jdepth(JsonV::Obj(ms)) <= 6);
}

proof fn lemma_ev_file_chunk_request_rt(friend: u32, file_number: u32, position: usize, length: usize)
    ensures
        ev_from_json(ev_to_json((EventV::FileChunkRequest { friend, file_number, position, length }))) == Ok::<EventV, DecodeError>((EventV::FileChunkRequest { friend, file_number, position, length })),
        jdepth(ev_to_json((EventV::FileChunkRequest { friend, file_number, position, length }))) <= 6,
{
    reveal_with_fuel(jlookup, 10);
    let v = (EventV::FileChunkRequest { friend, file_number, position, length });
    let m1 = ("event"@, JsonV::Str("FileChunkRequest"@));
    let m2 = ("friend"@, JsonV::UInt(friend as u64));
    let m3 = ("file_number"@, JsonV::UInt(file_number as u64));
    let m4 = ("position"@, JsonV::UInt(position as u64));
    let m5 = ("length"@, JsonV::UInt(length as u64));
    let ms = seq![m1, m2, m3, m4, m5];
    assert(ev_to_json(v) == JsonV::Obj(ms));
    assert(ms.drop_first() =~= seq![m2, m3, m4, m5]);
    assert(seq![m2, m3, m4, m5].drop_first() =~= seq![m3, m4, m5]);
    assert(seq![m3, m4, m5].drop_first() =~= seq![m4, m5]);
    assert(seq![m4, m5].drop_first() =~= seq![m5]);
    assert(seq![m5].drop_first() =~= Seq::<(Seq<char>, JsonV)>::empty());
    reveal_strlit("event");
    assert("event"@.len() == 5);
    reveal_strlit("FileChunkRequest");
    assert("FileChunkRequest"@.len() == 16);
    reveal_strlit("SecretKey");
    assert("SecretKey"@.len() == 9);
    assert("FileChunkRequest"@ != "SecretKey"@);
    reveal_strlit("ConnectionStatus");
    assert("ConnectionStatus"@.len() == 16);
    assert("FileChunkRequest"@[0] == 'F');
    assert("ConnectionStatus"@[0] == 'C');
    assert("FileChunkRequest"@ != "ConnectionStatus"@);
    reveal_strlit("FriendRequest");
    assert("FriendRequest"@.len() == 13);
    assert("FileChunkRequest"@ != "FriendRequest"@);
    reveal_strlit("FriendMessage");
    assert("FriendMessage"@.len() == 13);
    assert("FileChunkRequest"@ != "FriendMessage"@);
    reveal_strlit("FriendName");
    assert("FriendName"@.len() == 10);
    assert("FileChunkRequest"@ != "FriendName"@);
    reveal_strlit("FriendStatusMessage");
    assert("FriendStatusMessage"@.len() == 19);
    assert("FileChunkRequest"@ != "FriendStatusMessage"@);
    reveal_strlit("FriendStatus");
    assert("FriendStatus"@.len() == 12);
    assert("FileChunkRequest"@ != "FriendStatus"@);
    reveal_strlit("FriendConnectionStatus");
    assert("FriendConnectionStatus"@.len() == 22);
    assert("FileChunkRequest"@ != "FriendConnectionStatus"@);
    reveal_strlit("FriendTyping");
    assert("FriendTyping"@.len() == 12);
    assert("FileChunkRequest"@ != "FriendTyping"@);
    reveal_strlit("FriendReadReceipt");
    assert("FriendReadReceipt"@.len() == 17);
    assert("FileChunkRequest"@ != "FriendReadReceipt"@);
    reveal_strlit("FileControlReceipt");
    assert("FileControlReceipt"@.len() == 18);
    assert("FileChunkRequest"@ != "FileControlReceipt"@);
    reveal_strlit("friend");
    assert("friend"@.len() == 6);
    assert("friend"@ != "event"@);
    reveal_strlit("file_number");
    assert("file_number"@.len() == 11);
    assert("file_number"@ != "event"@);
    assert("file_number"@ != "friend"@);
    reveal_strlit("position");
    assert("position"@.len() == 8);
    assert("position"@ != "event"@);
    assert("position"@ != "friend"@);
    assert("position"@ != "file_number"@);
    reveal_strlit("length");
    assert("length"@.len() == 6);
    assert("length"@ != "event"@);
    assert("length"@[0] == 'l');
    assert("friend"@[0] == 'f');
    assert("length"@ != "friend"@);
    assert("length"@ != "file_number"@);
    assert("length"@ != "position"@);
    assert(jlookup(ms, "event"@) == Some(JsonV::Str("FileChunkRequest"@)));
    assert(ev_from_json(JsonV::Obj(ms)) == ev_dispatch("FileChunkRequest"@, ms));
    assert(ev_dispatch("FileChunkRequest"@, ms) == ev_file_chunk_request_from(ms));
    assert(jlookup(ms, "friend"@) == Some(m2.1));
    assert(sget_u32(ms, "friend"@) == Ok::<u32, DecodeError>(friend));
    assert(jlookup(ms, "file_number"@) == Some(m3.1));
    assert(sget_u32(ms, "file_number"@) == Ok::<u32, DecodeError>(file_number));
    assert(jlookup(ms, "position"@) == Some(m4.1));
    assert(sget_usize(ms, "position"@) == Ok::<usize, DecodeError>(position));
    assert(jlookup(ms, "length"@) == Some(m5.1));
    assert(sget_usize(ms, "length"@) == Ok::<usize, DecodeError>(length));
    assert(ev_file_chunk_request_from(ms) == Ok::<EventV, DecodeError>(v));
    reveal_with_fuel(jdepth_fields, 10);
    assert(jdepth(m1.1) == 0);
    assert(jdepth(m2.1) == 0);
    assert(jdepth(m3.1) == 0);
    assert(jdepth(m4.1) == 0);
    assert(jdepth(m5.1) == 0);
    assert(jdepth_fields(seq![m5]) <= 5);
    assert(jdepth_fields(seq![m4, m5]) <= 5);
    assert(jdepth_fields(seq![m3, m4, m5]) <= 5);
    assert(jdepth_fields(seq![m2, m3, m4, m5]) <= 5);
    assert(jdepth_fields(seq![m1, m2, m3, m4, m5]) <= 5);
    assert(jdepth(JsonV::Obj(ms)) <= 6);
}

proof fn lemma_ev_file_receipt_rt(friend: u32, file_number: u32, kind: u32, file_size: usize, file_name: Seq<char>)
    ensures
        ev_from_json(ev_to_json((EventV::FileReceipt { friend, file_number, kind, file_size, file_name }))) == Ok::<EventV, DecodeError>((EventV::FileReceipt { friend, file_number, kind, file_size, file_name })),
        jdepth(ev_to_json((EventV::FileReceipt { friend, file_number, kind, file_size, file_name }))) <= 6,
{
    reveal_with_fuel(jlookup, 10);
    let v = (EventV::FileReceipt { friend, file_number, kind, file_size, file_name });
    let m1 = ("event"@, JsonV::Str("FileReceipt"@));
    let m2 = ("friend"@, JsonV::UInt(friend as u64));
    let m3 = ("file_number"@, JsonV::UInt(file_number as u64));
    let m4 = ("kind"@, JsonV::UInt(kind as u64));
    let m5 = ("file_size"@, JsonV::UInt(file_size as u64));
    let m6 = ("file_name"@, JsonV::Str(file_name));
    let ms = seq![m1, m2, m3, m4, m5, m6];
    assert(ev_to_json(v) == JsonV::Obj(ms));
    assert(ms.drop_first() =~= seq![m2, m3, m4, m5, m6]);
    assert(seq![m2, m3, m4, m5, m6].drop_first() =~= seq![m3, m4, m5, m6]);
    assert(seq![m3, m4, m5, m6].drop_first() =~= seq![m4, m5, m6]);
    assert(seq![m4, m5, m6].drop_first() =~= seq![m5, m6]);
    assert(seq![m5, m6].drop_first() =~= seq![m6]);
    assert(seq![m6].drop_first() =~= Seq::<(Seq<char>, JsonV)>::empty());
    reveal_strlit("event");
    assert("event"@.len() == 5);
    reveal_strlit("FileReceipt");
    assert("FileReceipt"@.len() == 11);
    reveal_strlit("SecretKey");
    assert("SecretKey"@.len() == 9);
    assert("FileReceipt"@ != "SecretKey"@);
    reveal_strlit("ConnectionStatus");
    assert("ConnectionStatus"@.len() == 16);
    assert("FileReceipt"@ != "ConnectionStatus"@);
    reveal_strlit("FriendRequest");
    assert("FriendRequest"@.len() == 13);
    assert("FileReceipt"@ != "FriendRequest"@);
    reveal_strlit("FriendMessage");
    assert("FriendMessage"@.len() == 13);
    assert("FileReceipt"@ != "FriendMessage"@);
    reveal_strlit("FriendName");
    assert("FriendName"@.len() == 10);
    assert("FileReceipt"@ != "FriendName"@);
    reveal_strlit("FriendStatusMessage");
    assert("FriendStatusMessage"@.len() == 19);
    assert("FileReceipt"@ != "FriendStatusMessage"@);
    reveal_strlit("FriendStatus");
    assert("FriendStatus"@.len() == 12);
    assert("FileReceipt"@ != "FriendStatus"@);
    reveal_strlit("FriendConnectionStatus");
    assert("FriendConnectionStatus"@.len() == 22);
    assert("FileReceipt"@ != "FriendConnectionStatus"@);
    reveal_strlit("FriendTyping");
    assert("FriendTyping"@.len() == 12);
    assert("FileReceipt"@ != "FriendTyping"@);
    reveal_strlit("FriendReadReceipt");
    assert("FriendReadReceipt"@.len() == 17);
    assert("FileReceipt"@ != "FriendReadReceipt"@);
    reveal_strlit("FileControlReceipt");
    assert("FileControlReceipt"@.len() == 18);
    assert("FileReceipt"@ != "FileControlReceipt"@);
    reveal_strlit("FileChunkRequest");
    assert("FileChunkRequest"@.len() == 16);
    assert("FileReceipt"@ != "FileChunkRequest"@);
    reveal_strlit("friend");
    assert("friend"@.len() == 6);
    assert("friend"@ != "event"@);
    reveal_strlit("file_number");
    assert("file_number"@.len() == 11);
    assert("file_number"@ != "event"@);
    assert("file_number"@ != "friend"@);
    reveal_strlit("kind");
    assert("kind"@.len() == 4);
    assert("kind"@ != "event"@);
    assert("kind"@ != "friend"@);
    assert("kind"@ != "file_number"@);
    reveal_strlit("file_size");
    assert("file_size"@.len() == 9);
    assert("file_size"@ != "event"@);
    assert("file_size"@ != "friend"@);
    assert("file_size"@ != "file_number"@);
    assert("file_size"@ != "kind"@);
    reveal_strlit("file_name");
    assert("file_name"@.len() == 9);
    assert("file_name"@ != "event"@);
    assert("file_name"@ != "friend"@);
    assert("file_name"@ != "file_number"@);
    assert("file_name"@ != "kind"@);
    assert("file_name"@[5] == 'n');
    assert("file_size"@[5] == 's');
    assert("file_name"@ != "file_size"@);
    assert(jlookup(ms, "event"@) == Some(JsonV::Str("FileReceipt"@)));
    assert(ev_from_json(JsonV::Obj(ms)) == ev_dispatch("FileReceipt"@, ms));
    assert(ev_dispatch("FileReceipt"@, ms) == ev_dispatch2("FileReceipt"@, ms));
    assert(ev_dispatch2("FileReceipt"@, ms) == ev_file_receipt_from(ms));
    assert(jlookup(ms, "friend"@) == Some(m2.1));
    assert(sget_u32(ms, "friend"@) == Ok::<u32, DecodeError>(friend));
    assert(jlookup(ms, "file_number"@) == Some(m3.1));
    assert(sget_u32(ms, "file_number"@) == Ok::<u32, DecodeError>(file_number));
    assert(jlookup(ms, "kind"@) == Some(m4.1));
    assert(sget_u32(ms, "kind"@) == Ok::<u32, DecodeError>(kind));
    assert(jlookup(ms, "file_size"@) == Some(m5.1));
    assert(sget_usize(ms, "file_size"@) == Ok::<usize, DecodeError>(file_size));
    assert(jlookup(ms, "file_name"@) == Some(m6.1));
    assert(sget_str(ms, "file_name"@) == Ok::<Seq<char>, DecodeError>(file_name));
    assert(ev_file_receipt_from(ms) == Ok::<EventV, DecodeError>(v));
    reveal_with_fuel(jdepth_fields, 10);
    assert(jdepth(m1.1) == 0);
    assert(jdepth(m2.1) == 0);
    assert(jdepth(m3.1) == 0);
    assert(jdepth(m4.1) == 0);
    assert(jdepth(m5.1) == 0);
    assert(jdepth(m6.1) == 0);
    assert(jdepth_fields(seq![m6]) <= 5);
    assert(jdepth_fields(seq![m5, m6]) <= 5);
    assert(jdepth_fields(seq![m4, m5, m6]) <= 5);
    assert(jdepth_fields(seq![m3, m4, m5, m6]) <= 5);
    assert(jdepth_fields(seq![m2, m3, m4, m5, m6]) <= 5);
    assert(jdepth_fields(seq![m1, m2, m3, m4, m5, m6]) <= 5);
    assert(jdepth(JsonV::Obj(ms)) <= 6);
}

proof fn lemma_ev_file_chunk_receipt_rt(friend: u32, file_number: u32, position: usize, data: Seq<u8>)
    ensures
        ev_from_json(ev_to_json((EventV::FileChunkReceipt { friend, file_number, position, data }))) == Ok::<EventV, DecodeError>((EventV::FileChunkReceipt { friend, file_number, position, data })),
        jdepth(ev_to_json((EventV::FileChunkReceipt { friend, file_number, position, data }))) <= 6,
{
    reveal_with_fuel(jlookup, 10);
    let v = (EventV::FileChunkReceipt { friend, file_number, position, data });
    let m1 = ("event"@, JsonV::Str("FileChunkReceipt"@));
    let m2 = ("friend"@, JsonV::UInt(friend as u64));
    let m3 = ("file_number"@, JsonV::UInt(file_number as u64));
    let m4 = ("position"@, JsonV::UInt(position as u64));
    let m5 = ("data"@, JsonV::Str(b64_of(data)));
    let ms = seq![m1, m2, m3, m4, m5];
    assert(ev_to_json(v) == JsonV::Obj(ms));
    assert(ms.drop_first() =~= seq![m2, m3, m4, m5]);
    assert(seq![m2, m3, m4, m5].drop_first() =~= seq![m3, m4, m5]);
    assert(seq![m3, m4, m5].drop_first() =~= seq![m4, m5]);
    assert(seq![m4, m5].drop_first() =~= seq![m5]);
    assert(seq![m5].drop_first() =~= Seq::<(Seq<char>, JsonV)>::empty());
    reveal_strlit("event");
    assert("event"@.len() == 5);
    reveal_strlit("FileChunkReceipt");
    assert("FileChunkReceipt"@.len() == 16);
    reveal_strlit("SecretKey");
    assert("SecretKey"@.len() == 9);
    assert("FileChunkReceipt"@ != "SecretKey"@);
    reveal_strlit("ConnectionStatus");
    assert("ConnectionStatus"@.len() == 16);
    assert("FileChunkReceipt"@[0] == 'F');
    assert("ConnectionStatus"@[0] == 'C');
    assert("FileChunkReceipt"@ != "ConnectionStatus"@);
    reveal_strlit("FriendRequest");
    assert("FriendRequest"@.len() == 13);
    assert("FileChunkReceipt"@ != "FriendRequest"@);
    reveal_strlit("FriendMessage");
    assert("FriendMessage"@.len() == 13);
    assert("FileChunkReceipt"@ != "FriendMessage"@);
    reveal_strlit("FriendName");
    assert("FriendName"@.len() == 10);
    assert("FileChunkReceipt"@ != "FriendName"@);
    reveal_strlit("FriendStatusMessage");
    assert("FriendStatusMessage"@.len() == 19);
    assert("FileChunkReceipt"@ != "FriendStatusMessage"@);
    reveal_strlit("FriendStatus");
    assert("FriendStatus"@.len() == 12);
    assert("FileChunkReceipt"@ != "FriendStatus"@);
    reveal_strlit("FriendConnectionStatus");
    assert("FriendConnectionStatus"@.len() == 22);
    assert("FileChunkReceipt"@ != "FriendConnectionStatus"@);
    reveal_strlit("FriendTyping");
    assert("FriendTyping"@.len() == 12);
    assert("FileChunkReceipt"@ != "FriendTyping"@);
    reveal_strlit("FriendReadReceipt");
    assert("FriendReadReceipt"@.len() == 17);
    assert("FileChunkReceipt"@ != "FriendReadReceipt"@);
    reveal_strlit("FileControlReceipt");
    assert("FileControlReceipt"@.len() == 18);
    assert("FileChunkReceipt"@ != "FileControlReceipt"@);
    reveal_strlit("FileChunkRequest");
    assert("FileChunkRequest"@.len() == 16);
    assert("FileChunkReceipt"@[11] == 'c');
    assert("FileChunkRequest"@[11] == 'q');
    assert("FileChunkReceipt"@ != "FileChunkRequest"@);
    reveal_strlit("FileReceipt");
    assert("FileReceipt"@.len() == 11);
    assert("FileChunkReceipt"@ != "FileReceipt"@);
    reveal_strlit("friend");
    assert("friend"@.len() == 6);
    assert("friend"@ != "event"@);
    reveal_strlit("file_number");
    assert("file_number"@.len() == 11);
    assert("file_number"@ != "event"@);
    assert("file_number"@ != "friend"@);
    reveal_strlit("position");
    assert("position"@.len() == 8);
    assert("position"@ != "event"@);
    assert("position"@ != "friend"@);
    assert("position"@ != "file_number"@);
    reveal_strlit("data");
    assert("data"@.len() == 4);
    assert("data"@ != "event"@);
    assert("data"@ != "friend"@);
    assert("data"@ != "file_number"@);
    assert("data"@ != "position"@);
    assert(jlookup(ms, "event"@) == Some(JsonV::Str("FileChunkReceipt"@)));
    assert(ev_from_json(JsonV::Obj(ms)) == ev_dispatch("FileChunkReceipt"@, ms));
    assert(ev_dispatch("FileChunkReceipt"@, ms) == ev_dispatch2("FileChunkReceipt"@, ms));
    assert(ev_dispatch2("FileChunkReceipt"@, ms) == ev_file_chunk_receipt_from(ms));
    assert(jlookup(ms, "friend"@) == Some(m2.1));
    assert(sget_u32(ms, "friend"@) == Ok::<u32, DecodeError>(friend));
    assert(jlookup(ms, "file_number"@) == Some(m3.1));
    assert(sget_u32(ms, "file_number"@) == Ok::<u32, DecodeError>(file_number));
    assert(jlookup(ms, "position"@) == Some(m4.1));
    assert(sget_usize(ms, "position"@) == Ok::<usize, DecodeError>(position));
    lemma_b64_inv_of(data);
    assert(jlookup(ms, "data"@) == Some(m5.1));
    assert(sget_bytes(ms, "data"@) == Ok::<Seq<u8>, DecodeError>(data));
    assert(ev_file_chunk_receipt_from(ms) == Ok::<EventV, DecodeError>(v));
    reveal_with_fuel(jdepth_fields, 10);
    assert(jdepth(m1.1) == 0);
    assert(jdepth(m2.1) == 0);
    assert(jdepth(m3.1) == 0);
    assert(jdepth(m4.1) == 0);
    assert(jdepth(m5.1) == 0);
    assert(jdepth_fields(seq![m5]) <= 5);
    assert(jdepth_fields(seq![m4, m5]) <= 5);
    assert(jdepth_fields(seq![m3, m4, m5]) <= 5);
    assert(jdepth_fields(seq![m2, m3, m4, m5]) <= 5);
    assert(jdepth_fields(seq![m1, m2, m3, m4, m5]) <= 5);
    assert(jdepth(JsonV::Obj(ms)) <= 6);
}

proof fn lemma_ev_conference_invite_rt(friend: u32, kind: ConferenceType, cookie: Seq<u8>)
    ensures
        ev_from_json(ev_to_json((EventV::ConferenceInvite { friend, kind, cookie }))) == Ok::<EventV, DecodeError>((EventV::ConferenceInvite { friend, kind, cookie })),
        jdepth(ev_to_json((EventV::ConferenceInvite { friend, kind, cookie }))) <= 6,
{
    reveal_with_fuel(jlookup, 10);
    let v = (EventV::ConferenceInvite { friend, kind, cookie });
    let m1 = ("event"@, JsonV::Str("ConferenceInvite"@));
    let m2 = ("friend"@, JsonV::UInt(friend as u64));
    let m3 = ("kind"@, JsonV::Str(conference_type_str(kind)));
    let m4 = ("cookie"@, JsonV::Str(b64_of(cookie)));
    let ms = seq![m1, m2, m3, m4];
    assert(ev_to_json(v) == JsonV::Obj(ms));
    assert(ms.drop_first() =~= seq![m2, m3, m4]);
    assert(seq![m2, m3, m4].drop_first() =~= seq![m3, m4]);
    assert(seq![m3, m4].drop_first() =~= seq![m4]);
    assert(seq![m4].drop_first() =~= Seq::<(Seq<char>, JsonV)>::empty());
    reveal_strlit("event");
    assert("event"@.len() == 5);
    reveal_strlit("ConferenceInvite");
    assert("ConferenceInvite"@.len() == 16);
    reveal_strlit("SecretKey");
    assert("SecretKey"@.len() == 9);
    assert("ConferenceInvite"@ != "SecretKey"@);
    reveal_strlit("ConnectionStatus");
    assert("ConnectionStatus"@.len() == 16);
    assert("ConferenceInvite"@[3] == 'f');
    assert("ConnectionStatus"@[3] == 'n');
    assert("ConferenceInvite"@ != "ConnectionStatus"@);
    reveal_strlit("FriendRequest");
    assert("FriendRequest"@.len() == 13);
    assert("ConferenceInvite"@ != "FriendRequest"@);
    reveal_strlit("FriendMessage");
    assert("FriendMessage"@.len() == 13);
    assert("ConferenceInvite"@ != "FriendMessage"@);
    reveal_strlit("FriendName");
    assert("FriendName"@.len() == 10);
    assert("ConferenceInvite"@ != "FriendName"@);
    reveal_strlit("FriendStatusMessage");
    assert("FriendStatusMessage"@.len() == 19);
    assert("ConferenceInvite"@ != "FriendStatusMessage"@);
    reveal_strlit("FriendStatus");
    assert("FriendStatus"@.len() == 12);
    assert("ConferenceInvite"@ != "FriendStatus"@);
    reveal_strlit("FriendConnectionStatus");
    assert("FriendConnectionStatus"@.len() == 22);
    assert("ConferenceInvite"@ != "FriendConnectionStatus"@);
    reveal_strlit("FriendTyping");
    assert("FriendTyping"@.len() == 12);
    assert("ConferenceInvite"@ != "FriendTyping"@);
    reveal_strlit("FriendReadReceipt");
    assert("FriendReadReceipt"@.len() == 17);
    assert("ConferenceInvite"@ != "FriendReadReceipt"@);
    reveal_strlit("FileControlReceipt");
    assert("FileControlReceipt"@.len() == 18);
    assert("ConferenceInvite"@ != "FileControlReceipt"@);
    reveal_strlit("FileChunkRequest");
    assert("FileChunkRequest"@.len() == 16);
    assert("ConferenceInvite"@[0] == 'C');
    assert("FileChunkRequest"@[0] == 'F');
    assert("ConferenceInvite"@ != "FileChunkRequest"@);
    reveal_strlit("FileReceipt");
    assert("FileReceipt"@.len() == 11);
    assert("ConferenceInvite"@ != "FileReceipt"@);
    reveal_strlit("FileChunkReceipt");
    assert("FileChunkReceipt"@.len() == 16);
    assert("ConferenceInvite"@[0] == 'C');
    assert("FileChunkReceipt"@[0] == 'F');
    assert("ConferenceInvite"@ != "FileChunkReceipt"@);
    reveal_strlit("friend");
    assert("friend"@.len() == 6);
    assert("friend"@ != "event"@);
    reveal_strlit("kind");
    assert("kind"@.len() == 4);
    assert("kind"@ != "event"@);
    assert("kind"@ != "friend"@);
    reveal_strlit("cookie");
    assert("cookie"@.len() == 6);
    assert("cookie"@ != "event"@);
    assert("cookie"@[0] == 'c');
    assert("friend"@[0] == 'f');
    assert("cookie"@ != "friend"@);
    assert("cookie"@ != "kind"@);
    assert(jlookup(ms, "event"@) == Some(JsonV::Str("ConferenceInvite"@)));
    assert(ev_from_json(JsonV::Obj(ms)) == ev_dispatch("ConferenceInvite"@, ms));
    assert(ev_dispatch("ConferenceInvite"@, ms) == ev_dispatch2("ConferenceInvite"@, ms));
    assert(ev_dispatch2("ConferenceInvite"@, ms) == ev_conference_invite_from(ms));
    assert(jlookup(ms, "friend"@) == Some(m2.1));
    assert(sget_u32(ms, "friend"@) == Ok::<u32, DecodeError>(friend));
    lemma_conference_type_rt(kind);
    assert(jlookup(ms, "kind"@) == Some(m3.1));
    assert(sget_conference_type(ms, "kind"@) == Ok::<ConferenceType, DecodeError>(kind));
    lemma_b64_inv_of(cookie);
    assert(jlookup(ms, "cookie"@) == Some(m4.1));
    assert(sget_bytes(ms, "cookie"@) == Ok::<Seq<u8>, DecodeError>(cookie));
    assert(ev_conference_invite_from(ms) == Ok::<EventV, DecodeError>(v));
    reveal_with_fuel(jdepth_fields, 10);
    assert(jdepth(m1.1) == 0);
    assert(jdepth(m2.1) == 0);
    assert(jdepth(m3.1) == 0);
    assert(jdepth(m4.1) == 0);
    assert(jdepth_fields(seq![m4]) <= 5);
    assert(jdepth_fields(seq![m3, m4]) <= 5);
    assert(jdepth_fields(seq![m2, m3, m4]) <= 5);
    assert(jdepth_fields(seq![m1, m2, m3, m4]) <= 5);
    assert(jdepth(JsonV::Obj(ms)) <= 6);
}

proof fn lemma_ev_conference_connected_rt(conference: u32)
    ensures
        ev_from_json(ev_to_json((EventV::ConferenceConnected { conference }))) == Ok::<EventV, DecodeError>((EventV::ConferenceConnected { conference })),
        jdepth(ev_to_json((EventV::ConferenceConnected { conference }))) <= 6,
{
    reveal_with_fuel(jlookup, 10);
    let v = (EventV::ConferenceConnected { conference });
    let m1 = ("event"@, JsonV::Str("ConferenceConnected"@));
    let m2 = ("conference"@, JsonV::UInt(conference as u64));
    let ms = seq![m1, m2];
    assert(ev_to_json(v) == JsonV::Obj(ms));
    assert(ms.drop_first() =~= seq![m2]);
    assert(seq![m2].drop_first() =~= Seq::<(Seq<char>, JsonV)>::empty());
    reveal_strlit("event");
    assert("event"@.len() == 5);
    reveal_strlit("ConferenceConnected");
    assert("ConferenceConnected"@.len() == 19);
    reveal_strlit("SecretKey");
    assert("SecretKey"@.len() == 9);
    assert("ConferenceConnected"@ != "SecretKey"@);
    reveal_strlit("ConnectionStatus");
    assert("ConnectionStatus"@.len() == 16);
    assert("ConferenceConnected"@ != "ConnectionStatus"@);
    reveal_strlit("FriendRequest");
    assert("FriendRequest"@.len() == 13);
    assert("ConferenceConnected"@ != "FriendRequest"@);
    reveal_strlit("FriendMessage");
    assert("FriendMessage"@.len() == 13);
    assert("ConferenceConnected"@ != "FriendMessage"@);
    reveal_strlit("FriendName");
    assert("FriendName"@.len() == 10);
    assert("ConferenceConnected"@ != "FriendName"@);
    reveal_strlit("FriendStatusMessage");
    assert("FriendStatusMessage"@.len() == 19);
    assert("ConferenceConnected"@[0] == 'C');
    assert("FriendStatusMessage"@[0] == 'F');
    assert("ConferenceConnected"@ != "FriendStatusMessage"@);
    reveal_strlit("FriendStatus");
    assert("FriendStatus"@.len() == 12);
    assert("ConferenceConnected"@ != "FriendStatus"@);
    reveal_strlit("FriendConnectionStatus");
    assert("FriendConnectionStatus"@.len() == 22);
    assert("ConferenceConnected"@ != "FriendConnectionStatus"@);
    reveal_strlit("FriendTyping");
    assert("FriendTyping"@.len() == 12);
    assert("ConferenceConnected"@ != "FriendTyping"@);
    reveal_strlit("FriendReadReceipt");
    assert("FriendReadReceipt"@.len() == 17);
    assert("ConferenceConnected"@ != "FriendReadReceipt"@);
    reveal_strlit("FileControlReceipt");
    assert("FileControlReceipt"@.len() == 18);
    assert("ConferenceConnected"@ != "FileControlReceipt"@);
    reveal_strlit("FileChunkRequest");
    assert("FileChunkRequest"@.len() == 16);
    assert("ConferenceConnected"@ != "FileChunkRequest"@);
    reveal_strlit("FileReceipt");
    assert("FileReceipt"@.len() == 11);
    assert("ConferenceConnected"@ != "FileReceipt"@);
    reveal_strlit("FileChunkReceipt");
    assert("FileChunkReceipt"@.len() == 16);
    assert("ConferenceConnected"@ != "FileChunkReceipt"@);
    reveal_strlit("ConferenceInvite");
    assert("ConferenceInvite"@.len() == 16);
    assert("ConferenceConnected"@ != "ConferenceInvite"@);
    reveal_strlit("conference");
    assert("conference"@.len() == 10);
    assert("conference"@ != "event"@);
    assert(jlookup(ms, "event"@) == Some(JsonV::Str("ConferenceConnected"@)));
    assert(ev_from_json(JsonV::Obj(ms)) == ev_dispatch("ConferenceConnected"@, ms));
    assert(ev_dispatch("ConferenceConnected"@, ms) == ev_dispatch2("ConferenceConnected"@, ms));
    assert(ev_dispatch2("ConferenceConnected"@, ms) == ev_conference_connected_from(ms));
    assert(jlookup(ms, "conference"@) == Some(m2.1));
    assert(sget_u32(ms, "conference"@) == Ok::<u32, DecodeError>(conference));
    assert(ev_conference_connected_from(ms) == Ok::<EventV, DecodeError>(v));
    reveal_with_fuel(jdepth_fields, 10);
    assert(jdepth(m1.1) == 0);
    assert(jdepth(m2.1) == 0);
    assert(jdepth_fields(seq![m2]) <= 5);
    assert(jdepth_fields(seq![m1, m2]) <= 5);
    assert(jdepth(JsonV::Obj(ms)) <= 6);
}

proof fn lemma_ev_conference_message_rt(conference: u32, peer: u32, kind: MessageType, message: Seq<char>)
    ensures
        ev_from_json(ev_to_json((EventV::ConferenceMessage { conference, peer, kind, message }))) == Ok::<EventV, DecodeError>((EventV::ConferenceMessage { conference, peer, kind, message })),
        jdepth(ev_to_json((EventV::ConferenceMessage { conference, peer, kind, message }))) <= 6,
{
    reveal_with_fuel(jlookup, 10);
    let v = (EventV::ConferenceMessage { conference, peer, kind, message });
    let m1 = ("event"@, JsonV::Str("ConferenceMessage"@));
    let m2 = ("conference"@, JsonV::UInt(conference as u64));
    let m3 = ("peer"@, JsonV::UInt(peer as u64));
    let m4 = ("kind"@, JsonV::Str(message_type_str(kind)));
    let m5 = ("message"@, JsonV::Str(message));
    let ms = seq![m1, m2, m3, m4, m5];
    assert(ev_to_json(v) == JsonV::Obj(ms));
    assert(ms.drop_first() =~= seq![m2, m3, m4, m5]);
    assert(seq![m2, m3, m4, m5].drop_first() =~= seq![m3, m4, m5]);
    assert(seq![m3, m4, m5].drop_first() =~= seq![m4, m5]);
    assert(seq![m4, m5].drop_first() =~= seq![m5]);
    assert(seq![m5].drop_first() =~= Seq::<(Seq<char>, JsonV)>::empty());
    reveal_strlit("event");
    assert("event"@.len() == 5);
    reveal_strlit("ConferenceMessage");
    assert("ConferenceMessage"@.len() == 17);
    reveal_strlit("SecretKey");
    assert("SecretKey"@.len() == 9);
    assert("ConferenceMessage"@ != "SecretKey"@);
    reveal_strlit("ConnectionStatus");
    assert("ConnectionStatus"@.len() == 16);
    assert("ConferenceMessage"@ != "ConnectionStatus"@);
    reveal_strlit("FriendRequest");
    assert("FriendRequest"@.len() == 13);
    assert("ConferenceMessage"@ != "FriendRequest"@);
    reveal_strlit("FriendMessage");
    assert("FriendMessage"@.len() == 13);
    assert("ConferenceMessage"@ != "FriendMessage"@);
    reveal_strlit("FriendName");
    assert("FriendName"@.len() == 10);
    assert("ConferenceMessage"@ != "FriendName"@);
    reveal_strlit("FriendStatusMessage");
    assert("FriendStatusMessage"@.len() == 19);
    assert("ConferenceMessage"@ != "FriendStatusMessage"@);
    reveal_strlit("FriendStatus");
    assert("FriendStatus"@.len() == 12);
    assert("ConferenceMessage"@ != "FriendStatus"@);
    reveal_strlit("FriendConnectionStatus");
    assert("FriendConnectionStatus"@.len() == 22);
    assert("ConferenceMessage"@ != "FriendConnectionStatus"@);
    reveal_strlit("FriendTyping");
    assert("FriendTyping"@.len() == 12);
    assert("ConferenceMessage"@ != "FriendTyping"@);
    reveal_strlit("FriendReadReceipt");
    assert("FriendReadReceipt"@.len() == 17);
    assert("ConferenceMessage"@[0] == 'C');
    assert("FriendReadReceipt"@[0] == 'F');
    assert("ConferenceMessage"@ != "FriendReadReceipt"@);
    reveal_strlit("FileControlReceipt");
    assert("FileControlReceipt"@.len() == 18);
    assert("ConferenceMessage"@ != "FileControlReceipt"@);
    reveal_strlit("FileChunkRequest");
    assert("FileChunkRequest"@.len() == 16);
    assert("ConferenceMessage"@ != "FileChunkRequest"@);
    reveal_strlit("FileReceipt");
    assert("FileReceipt"@.len() == 11);
    assert("ConferenceMessage"@ != "FileReceipt"@);
    reveal_strlit("FileChunkReceipt");
    assert("FileChunkReceipt"@.len() == 16);
    assert("ConferenceMessage"@ != "FileChunkReceipt"@);
    reveal_strlit("ConferenceInvite");
    assert("ConferenceInvite"@.len() == 16);
    assert("ConferenceMessage"@ != "ConferenceInvite"@);
    reveal_strlit("ConferenceConnected");
    assert("ConferenceConnected"@.len() == 19);
    assert("ConferenceMessage"@ != "ConferenceConnected"@);
    reveal_strlit("conference");
    assert("conference"@.len() == 10);
    assert("conference"@ != "event"@);
    reveal_strlit("peer");
    assert("peer"@.len() == 4);
    assert("peer"@ != "event"@);
    assert("peer"@ != "conference"@);
    reveal_strlit("kind");
    assert("kind"@.len() == 4);
    assert("kind"@ != "event"@);
    assert("kind"@ != "conference"@);
    assert("kind"@[0] == 'k');
    assert("peer"@[0] == 'p');
    assert("kind"@ != "peer"@);
    reveal_strlit("message");
    assert("message"@.len() == 7);
    assert("message"@ != "event"@);
    assert("message"@ != "conference"@);
    assert("message"@ != "peer"@);
    assert("message"@ != "kind"@);
    assert(jlookup(ms, "event"@) == Some(JsonV::Str("ConferenceMessage"@)));
    assert(ev_from_json(JsonV::Obj(ms)) == ev_dispatch("ConferenceMessage"@, ms));
    assert(ev_dispatch("ConferenceMessage"@, ms) == ev_dispatch2("ConferenceMessage"@, ms));
    assert(ev_dispatch2("ConferenceMessage"@, ms) == ev_conference_message_from(ms));
    assert(jlookup(ms, "conference"@) == Some(m2.1));
    assert(sget_u32(ms, "conference"@) == Ok::<u32, DecodeError>(conference));
    assert(jlookup(ms, "peer"@) == Some(m3.1));
    assert(sget_u32(ms, "peer"@) == Ok::<u32, DecodeError>(peer));
    lemma_message_type_rt(kind);
    assert(jlookup(ms, "kind"@) == Some(m4.1));
    assert(sget_message_type(ms, "kind"@) == Ok::<MessageType, DecodeError>(kind));
    assert(jlookup(ms, "message"@) == Some(m5.1));
    assert(sget_str(ms, "message"@) == Ok::<Seq<char>, DecodeError>(message));
    assert(ev_conference_message_from(ms) == Ok::<EventV, DecodeError>(v));
    reveal_with_fuel(jdepth_fields, 10);
    assert(jdepth(m1.1) == 0);
    assert(jdepth(m2.1) == 0);
    assert(jdepth(m3.1) == 0);
    assert(jdepth(m4.1) == 0);
    assert(jdepth(m5.1) == 0);
    assert(jdepth_fields(seq![m5]) <= 5);
    assert(jdepth_fields(seq![m4, m5]) <= 5);
    assert(jdepth_fields(seq![m3, m4, m5]) <= 5);
    assert(jdepth_fields(seq![m2, m3, m4, m5]) <= 5);
    assert(jdepth_fields(seq![m1, m2, m3, m4, m5]) <= 5);
    assert(jdepth(JsonV::Obj(ms)) <= 6);
}

proof fn lemma_ev_conference_title_rt(conference: u32, peer: u32, title: Seq<char>)
    ensures
        ev_from_json(ev_to_json((EventV::ConferenceTitle { conference, peer, title }))) == Ok::<EventV, DecodeError>((EventV::ConferenceTitle { conference, peer, title })),
        jdepth(ev_to_json((EventV::ConferenceTitle { conference, peer, title }))) <= 6,
{
    reveal_with_fuel(jlookup, 10);
    let v = (EventV::ConferenceTitle { conference, peer, title });
    let m1 = ("event"@, JsonV::Str("ConferenceTitle"@));
    let m2 = ("conference"@, JsonV::UInt(conference as u64));
    let m3 = ("peer"@, JsonV::UInt(peer as u64));
    let m4 = ("title"@, JsonV::Str(title));
    let ms = seq![m1, m2, m3, m4];
    assert(ev_to_json(v) == JsonV::Obj(ms));
    assert(ms.drop_first() =~= seq![m2, m3, m4]);
    assert(seq![m2, m3, m4].drop_first() =~= seq![m3, m4]);
    assert(seq![m3, m4].drop_first() =~= seq![m4]);
    assert(seq![m4].drop_first() =~= Seq::<(Seq<char>, JsonV)>::empty());
    reveal_strlit("event");
    assert("event"@.len() == 5);
    reveal_strlit("ConferenceTitle");
    assert("ConferenceTitle"@.len() == 15);
    reveal_strlit("SecretKey");
    assert("SecretKey"@.len() == 9);
    assert("ConferenceTitle"@ != "SecretKey"@);
    reveal_strlit("ConnectionStatus");
    assert("ConnectionStatus"@.len() == 16);
    assert("ConferenceTitle"@ != "ConnectionStatus"@);
    reveal_strlit("FriendRequest");
    assert("FriendRequest"@.len() == 13);
    assert("ConferenceTitle"@ != "FriendRequest"@);
    reveal_strlit("FriendMessage");
    assert("FriendMessage"@.len() == 13);
    assert("ConferenceTitle"@ != "FriendMessage"@);
    reveal_strlit("FriendName");
    assert("FriendName"@.len() == 10);
    assert("ConferenceTitle"@ != "FriendName"@);
    reveal_strlit("FriendStatusMessage");
    assert("FriendStatusMessage"@.len() == 19);
    assert("ConferenceTitle"@ != "FriendStatusMessage"@);
    reveal_strlit("FriendStatus");
    assert("FriendStatus"@.len() == 12);
    assert("ConferenceTitle"@ != "FriendStatus"@);
    reveal_strlit("FriendConnectionStatus");
    assert("FriendConnectionStatus"@.len() == 22);
    assert("ConferenceTitle"@ != "FriendConnectionStatus"@);
    reveal_strlit("FriendTyping");
    assert("FriendTyping"@.len() == 12);
    assert("ConferenceTitle"@ != "FriendTyping"@);
    reveal_strlit("FriendReadReceipt");
    assert("FriendReadReceipt"@.len() == 17);
    assert("ConferenceTitle"@ != "FriendReadReceipt"@);
    reveal_strlit("FileControlReceipt");
    assert("FileControlReceipt"@.len() == 18);
    assert("ConferenceTitle"@ != "FileControlReceipt"@);
    reveal_strlit("FileChunkRequest");
    assert("FileChunkRequest"@.len() == 16);
    assert("ConferenceTitle"@ != "FileChunkRequest"@);
    reveal_strlit("FileReceipt");
    assert("FileReceipt"@.len() == 11);
    assert("ConferenceTitle"@ != "FileReceipt"@);
    reveal_strlit("FileChunkReceipt");
    assert("FileChunkReceipt"@.len() == 16);
    assert("ConferenceTitle"@ != "FileChunkReceipt"@);
    reveal_strlit("ConferenceInvite");
    assert("ConferenceInvite"@.len() == 16);
    assert("ConferenceTitle"@ != "ConferenceInvite"@);
    reveal_strlit("ConferenceConnected");
    assert("ConferenceConnected"@.len() == 19);
    assert("ConferenceTitle"@ != "ConferenceConnected"@);
    reveal_strlit("ConferenceMessage");
    assert("ConferenceMessage"@.len() == 17);
    assert("ConferenceTitle"@ != "ConferenceMessage"@);
    reveal_strlit("conference");
    assert("conference"@.len() == 10);
    assert("conference"@ != "event"@);
    reveal_strlit("peer");
    assert("peer"@.len() == 4);
    assert("peer"@ != "event"@);
    assert("peer"@ != "conference"@);
    reveal_strlit("title");
    assert("title"@.len() == 5);
    assert("title"@[0] == 't');
    assert("event"@[0] == 'e');
    assert("title"@ != "event"@);
    assert("title"@ != "conference"@);
    assert("title"@ != "peer"@);
    assert(jlookup(ms, "event"@) == Some(JsonV::Str("ConferenceTitle"@)));
    assert(ev_from_json(JsonV::Obj(ms)) == ev_dispatch("ConferenceTitle"@, ms));
    assert(ev_dispatch("ConferenceTitle"@, ms) == ev_dispatch2("ConferenceTitle"@, ms));
    assert(ev_dispatch2("ConferenceTitle"@, ms) == ev_conference_title_from(ms));
    assert(jlookup(ms, "conference"@) == Some(m2.1));
    assert(sget_u32(ms, "conference"@) == Ok::<u32, DecodeError>(conference));
    assert(jlookup(ms, "peer"@) == Some(m3.1));
    assert(sget_u32(ms, "peer"@) == Ok::<u32, DecodeError>(peer));
    assert(jlookup(ms, "title"@) == Some(m4.1));
    assert(sget_str(ms, "title"@) == Ok::<Seq<char>, DecodeError>(title));
    assert(ev_conference_title_from(ms) == Ok::<EventV, DecodeError>(v));
    reveal_with_fuel(jdepth_fields, 10);
    assert(jdepth(m1.1) == 0);
    assert(jdepth(m2.1) == 0);
    assert(jdepth(m3.1) == 0);
    assert(jdepth(m4.1) == 0);
    assert(jdepth_fields(seq![m4]) <= 5);
    assert(jdepth_fields(seq![m3, m4]) <= 5);
    assert(jdepth_fields(seq![m2, m3, m4]) <= 5);
    assert(jdepth_fields(seq![m1, m2, m3, m4]) <= 5);
    assert(jdepth(JsonV::Obj(ms)) <= 6);
}

proof fn lemma_ev_conference_peer_name_rt(conference: u32, peer: u32, name: Seq<char>)
    ensures
        ev_from_json(ev_to_json((EventV::ConferencePeerName { conference, peer, name }))) == Ok::<EventV, DecodeError>((EventV::ConferencePeerName { conference, peer, name })),
        jdepth(ev_to_json((EventV::ConferencePeerName { conference, peer, name }))) <= 6,
{
    reveal_with_fuel(jlookup, 10);
    let v = (EventV::ConferencePeerName { conference, peer, name });
    let m1 = ("event"@, JsonV::Str("ConferencePeerName"@));
    let m2 = ("conference"@, JsonV::UInt(conference as u64));
    let m3 = ("peer"@, JsonV::UInt(peer as u64));
    let m4 = ("name"@, JsonV::Str(name));
    let ms = seq![m1, m2, m3, m4];
    assert(ev_to_json(v) == JsonV::Obj(ms));
    assert(ms.drop_first() =~= seq![m2, m3, m4]);
    assert(seq![m2, m3, m4].drop_first() =~= seq![m3, m4]);
    assert(seq![m3, m4].drop_first() =~= seq![m4]);
    assert(seq![m4].drop_first() =~= Seq::<(Seq<char>, JsonV)>::empty());
    reveal_strlit("event");
    assert("event"@.len() == 5);
    reveal_strlit("ConferencePeerName");
    assert("ConferencePeerName"@.len() == 18);
    reveal_strlit("SecretKey");
    assert("SecretKey"@.len() == 9);
    assert("ConferencePeerName"@ != "SecretKey"@);
    reveal_strlit("ConnectionStatus");
    assert("ConnectionStatus"@.len() == 16);
    assert("ConferencePeerName"@ != "ConnectionStatus"@);
    reveal_strlit("FriendRequest");
    assert("FriendRequest"@.len() == 13);
    assert("ConferencePeerName"@ != "FriendRequest"@);
    reveal_strlit("FriendMessage");
    assert("FriendMessage"@.len() == 13);
    assert("ConferencePeerName"@ != "FriendMessage"@);
    reveal_strlit("FriendName");
    assert("FriendName"@.len() == 10);
    assert("ConferencePeerName"@ != "FriendName"@);
    reveal_strlit("FriendStatusMessage");
    assert("FriendStatusMessage"@.len() == 19);
    assert("ConferencePeerName"@ != "FriendStatusMessage"@);
    reveal_strlit("FriendStatus");
    assert("FriendStatus"@.len() == 12);
    assert("ConferencePeerName"@ != "FriendStatus"@);
    reveal_strlit("FriendConnectionStatus");
    assert("FriendConnectionStatus"@.len() == 22);
    assert("ConferencePeerName"@ != "FriendConnectionStatus"@);
    reveal_strlit("FriendTyping");
    assert("FriendTyping"@.len() == 12);
    assert("ConferencePeerName"@ != "FriendTyping"@);
    reveal_strlit("FriendReadReceipt");
    assert("FriendReadReceipt"@.len() == 17);
    assert("ConferencePeerName"@ != "FriendReadReceipt"@);
    reveal_strlit("FileControlReceipt");
    assert("FileControlReceipt"@.len() == 18);
    assert("ConferencePeerName"@[0] == 'C');
    assert("FileControlReceipt"@[0] == 'F');
    assert("ConferencePeerName"@ != "FileControlReceipt"@);
    reveal_strlit("FileChunkRequest");
    assert("FileChunkRequest"@.len() == 16);
    assert("ConferencePeerName"@ != "FileChunkRequest"@);
    reveal_strlit("FileReceipt");
    assert("FileReceipt"@.len() == 11);
    assert("ConferencePeerName"@ != "FileReceipt"@);
    reveal_strlit("FileChunkReceipt");
    assert("FileChunkReceipt"@.len() == 16);
    assert("ConferencePeerName"@ != "FileChunkReceipt"@);
    reveal_strlit("ConferenceInvite");
    assert("ConferenceInvite"@.len() == 16);
    assert("ConferencePeerName"@ != "ConferenceInvite"@);
    reveal_strlit("ConferenceConnected");
    assert("ConferenceConnected"@.len() == 19);
    assert("ConferencePeerName"@ != "ConferenceConnected"@);
    reveal_strlit("ConferenceMessage");
    assert("ConferenceMessage"@.len() == 17);
    assert("ConferencePeerName"@ != "ConferenceMessage"@);
    reveal_strlit("ConferenceTitle");
    assert("ConferenceTitle"@.len() == 15);
    assert("ConferencePeerName"@ != "ConferenceTitle"@);
    reveal_strlit("conference");
    assert("conference"@.len() == 10);
    assert("conference"@ != "event"@);
    reveal_strlit("peer");
    assert("peer"@.len() == 4);
    assert("peer"@ != "event"@);
    assert("peer"@ != "conference"@);
    reveal_strlit("name");
    assert("name"@.len() == 4);
    assert("name"@ != "event"@);
    assert("name"@ != "conference"@);
    assert("name"@[0] == 'n');
    assert("peer"@[0] == 'p');
    assert("name"@ != "peer"@);
    assert(jlookup(ms, "event"@) == Some(JsonV::Str("ConferencePeerName"@)));
    assert(ev_from_json(JsonV::Obj(ms)) == ev_dispatch("ConferencePeerName"@, ms));
    assert(ev_dispatch("ConferencePeerName"@, ms) == ev_dispatch2("ConferencePeerName"@, ms));
    assert(ev_dispatch2("ConferencePeerName"@, ms) == ev_conference_peer_name_from(ms));
    assert(jlookup(ms, "conference"@) == Some(m2.1));
    assert(sget_u32(ms, "conference"@) == Ok::<u32, DecodeError>(conference));
    assert(jlookup(ms, "peer"@) == Some(m3.1));
    assert(sget_u32(ms, "peer"@) == Ok::<u32, DecodeError>(peer));
    assert(jlookup(ms, "name"@) == Some(m4.1));
    assert(sget_str(ms, "name"@) == Ok::<Seq<char>, DecodeError>(name));
    assert(ev_conference_peer_name_from(ms) == Ok::<EventV, DecodeError>(v));
    reveal_with_fuel(jdepth_fields, 10);
    assert(jdepth(m1.1) == 0);
    assert(jdepth(m2.1) == 0);
    assert(jdepth(m3.1) == 0);
    assert(jdepth(m4.1) == 0);
    assert(jdepth_fields(seq![m4]) <= 5);
    assert(jdepth_fields(seq![m3, m4]) <= 5);
    assert(jdepth_fields(seq![m2, m3, m4]) <= 5);
    assert(jdepth_fields(seq![m1, m2, m3, m4]) <= 5);
    assert(jdepth(JsonV::Obj(ms)) <= 6);
}

proof fn lemma_ev_conference_peer_list_changed_rt(conference: u32)
    ensures
        ev_from_json(ev_to_json((EventV::ConferencePeerListChanged { conference }))) == Ok::<EventV, DecodeError>((EventV::ConferencePeerListChanged { conference })),
        jdepth(ev_to_json((EventV::ConferencePeerListChanged { conference }))) <= 6,
{
    reveal_with_fuel(jlookup, 10);
    let v = (EventV::ConferencePeerListChanged { conference });
    let m1 = ("event"@, JsonV::Str("ConferencePeerListChanged"@));
    let m2 = ("conference"@, JsonV::UInt(conference as u64));
    let ms = seq![m1, m2];
    assert(ev_to_json(v) == JsonV::Obj(ms));
    assert(ms.drop_first() =~= seq![m2]);
    assert(seq![m2].drop_first() =~= Seq::<(Seq<char>, JsonV)>::empty());
    reveal_strlit("event");
    assert("event"@.len() == 5);
    reveal_strlit("ConferencePeerListChanged");
    assert("ConferencePeerListChanged"@.len() == 25);
    reveal_strlit("SecretKey");
    assert("SecretKey"@.len() == 9);
    assert("ConferencePeerListChanged"@ != "SecretKey"@);
    reveal_strlit("ConnectionStatus");
    assert("ConnectionStatus"@.len() == 16);
    assert("ConferencePeerListChanged"@ != "ConnectionStatus"@);
    reveal_strlit("FriendRequest");
    assert("FriendRequest"@.len() == 13);
    assert("ConferencePeerListChanged"@ != "FriendRequest"@);
    reveal_strlit("FriendMessage");
    assert("FriendMessage"@.len() == 13);
    assert("ConferencePeerListChanged"@ != "FriendMessage"@);
    reveal_strlit("FriendName");
    assert("FriendName"@.len() == 10);
    assert("ConferencePeerListChanged"@ != "FriendName"@);
    reveal_strlit("FriendStatusMessage");
    assert("FriendStatusMessage"@.len() == 19);
    assert("ConferencePeerListChanged"@ != "FriendStatusMessage"@);
    reveal_strlit("FriendStatus");
    assert("FriendStatus"@.len() == 12);
    assert("ConferencePeerListChanged"@ != "FriendStatus"@);
    reveal_strlit("FriendConnectionStatus");
    assert("FriendConnectionStatus"@.len() == 22);
    assert("ConferencePeerListChanged"@ != "FriendConnectionStatus"@);
    reveal_strlit("FriendTyping");
    assert("FriendTyping"@.len() == 12);
    assert("ConferencePeerListChanged"@ != "FriendTyping"@);
    reveal_strlit("FriendReadReceipt");
    assert("FriendReadReceipt"@.len() == 17);
    assert("ConferencePeerListChanged"@ != "FriendReadReceipt"@);
    reveal_strlit("FileControlReceipt");
    assert("FileControlReceipt"@.len() == 18);
    assert("ConferencePeerListChanged"@ != "FileControlReceipt"@);
    reveal_strlit("FileChunkRequest");
    assert("FileChunkRequest"@.len() == 16);
    assert("ConferencePeerListChanged"@ != "FileChunkRequest"@);
    reveal_strlit("FileReceipt");
    assert("FileReceipt"@.len() == 11);
    assert("ConferencePeerListChanged"@ != "FileReceipt"@);
    reveal_strlit("FileChunkReceipt");
    assert("FileChunkReceipt"@.len() == 16);
    assert("ConferencePeerListChanged"@ != "FileChunkReceipt"@);
    reveal_strlit("ConferenceInvite");
    assert("ConferenceInvite"@.len() == 16);
    assert("ConferencePeerListChanged"@ != "ConferenceInvite"@);
    reveal_strlit("ConferenceConnected");
    assert("ConferenceConnected"@.len() == 19);
    assert("ConferencePeerListChanged"@ != "ConferenceConnected"@);
    reveal_strlit("ConferenceMessage");
    assert("ConferenceMessage"@.len() == 17);
    assert("ConferencePeerListChanged"@ != "ConferenceMessage"@);
    reveal_strlit("ConferenceTitle");
    assert("ConferenceTitle"@.len() == 15);
    assert("ConferencePeerListChanged"@ != "ConferenceTitle"@);
    reveal_strlit("ConferencePeerName");
    assert("ConferencePeerName"@.len() == 18);
    assert("ConferencePeerListChanged"@ != "ConferencePeerName"@);
    reveal_strlit("conference");
    assert("conference"@.len() == 10);
    assert("conference"@ != "event"@);
    assert(jlookup(ms, "event"@) == Some(JsonV::Str("ConferencePeerListChanged"@)));
    assert(ev_from_json(JsonV::Obj(ms)) == ev_dispatch("ConferencePeerListChanged"@, ms));
    assert(ev_dispatch("ConferencePeerListChanged"@, ms) == ev_dispatch2("ConferencePeerListChanged"@, ms));
    assert(ev_dispatch2("ConferencePeerListChanged"@, ms) == ev_conference_peer_list_changed_from(ms));
    assert(jlookup(ms, "conference"@) == Some(m2.1));
    assert(sget_u32(ms, "conference"@) == Ok::<u32, DecodeError>(conference));
    assert(ev_conference_peer_list_changed_from(ms) == Ok::<EventV, DecodeError>(v));
    reveal_with_fuel(jdepth_fields, 10);
    assert(jdepth(m1.1) == 0);
    assert(jdepth(m2.1) == 0);
    assert(jdepth_fields(seq![m2]) <= 5);
    assert(jdepth_fields(seq![m1, m2]) <= 5);
    assert(jdepth(JsonV::Obj(ms)) <= 6);
}

/// Reading back the wire object of any event gives the same value, and
/// that object nests far below the parser's depth limit.
pub proof fn lemma_ev_from_to(v: EventV)
    requires
        ev_wf(v),
    ensures
        ev_from_json(ev_to_json(v)) == Ok::<EventV, DecodeError>(v),
        jdepth(ev_to_json(v)) <= 6,
{
    match v {
        EventV::SecretKey { secret_key } => lemma_ev_secret_key_rt(secret_key),
        EventV::ConnectionStatus { status } => lemma_ev_connection_status_rt(status),
        EventV::FriendRequest { public_key, message } => lemma_ev_friend_request_rt(public_key, message),
        EventV::FriendMessage { friend, kind, message } => lemma_ev_friend_message_rt(friend, kind, message),
        EventV::FriendName { friend, name } => lemma_ev_friend_name_rt(friend, name),
        EventV::FriendStatusMessage { friend, status } => lemma_ev_friend_status_message_rt(friend, status),
        EventV::FriendStatus { friend, status } => lemma_ev_friend_status_rt(friend, status),
        EventV::FriendConnectionStatus { friend, status } => lemma_ev_friend_connection_status_rt(friend, status),
        EventV::FriendTyping { friend, is_typing } => lemma_ev_friend_typing_rt(friend, is_typing),
        EventV::FriendReadReceipt { friend, message_id } => lemma_ev_friend_read_receipt_rt(friend, message_id),
        EventV::FileControlReceipt { friend, file_number, control } => lemma_ev_file_control_receipt_rt(friend, file_number, control),
        EventV::FileChunkRequest { friend, file_number, position, length } => lemma_ev_file_chunk_request_rt(friend, file_number, position, length),
        EventV::FileReceipt { friend, file_number, kind, file_size, file_name } => lemma_ev_file_receipt_rt(friend, file_number, kind, file_size, file_name),
        EventV::FileChunkReceipt { friend, file_number, position, data } => lemma_ev_file_chunk_receipt_rt(friend, file_number, position, data),
        EventV::ConferenceInvite { friend, kind, cookie } => lemma_ev_conference_invite_rt(friend, kind, cookie),
        EventV::ConferenceConnected { conference } => lemma_ev_conference_connected_rt(conference),
        EventV::ConferenceMessage { conference, peer, kind, message } => lemma_ev_conference_message_rt(conference, peer, kind, message),
        EventV::ConferenceTitle { conference, peer, title } => lemma_ev_conference_title_rt(conference, peer, title),
        EventV::ConferencePeerName { conference, peer, name } => lemma_ev_conference_peer_name_rt(conference, peer, name),
        EventV::ConferencePeerListChanged { conference } => lemma_ev_conference_peer_list_changed_rt(conference),
    }
}

/// Round trip: decoding the rendered text of any event yields exactly
/// that value.
pub proof fn lemma_event_round_trip(v: EventV)
    requires
        ev_wf(v),
    ensures
        ev_decode(render(ev_to_json(v))) == Ok::<EventV, DecodeError>(v),
{
    lemma_ev_from_to(v);
    lemma_json_round_trip(ev_to_json(v));
}

impl Event {
    /// The wire text of this event.
    pub fn to_wire(&self) -> (r: String)
        requires
            ev_encodable(self@),
        ensures
            r@ == render(ev_to_json(self@)),
    {
        let j = event_value_to_json(self);
        to_text(&j)
    }

    /// Reads one event out of wire text.
    pub fn from_wire(s: &str) -> (r: Result<Event, DecodeError>)
        ensures
            ({
                let sp = ev_decode(s@);
                match r {
                    Ok(q) => sp == Ok::<EventV, DecodeError>(q@),
                    Err(e) => sp == Err::<EventV, DecodeError>(e),
                }
            }),
    {
        match from_text(s) {
            Some(j) => event_value_of_json(&j),
            None => Err(DecodeError::Syntax),
        }
    }
}

} // verus!