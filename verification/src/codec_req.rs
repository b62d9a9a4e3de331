//! Requests on the wire: each client command as a tagged JSON object.

use vstd::prelude::*;

use crate::json::{Json, JsonV, jview, jview_fields, jdepth, jdepth_fields, render, sp_json};
use crate::json_exec::{to_text, from_text};
use crate::json_rt::lemma_json_round_trip;
use crate::b64::{b64_of, b64_encode, lemma_b64_inv_of};
use crate::codec::{jlookup, sget_str, sget_u32, sget_usize, sget_bytes, obj_get, jget_str, jget_u32, jget_usize, jget_bytes, lemma_jview_fields1, lemma_jview_fields2, lemma_jview_fields3, lemma_jview_fields4, lemma_jview_fields5};
use crate::text::str_eq;

use crate::schema::{DecodeError, Request, RequestV, UserStatus, MessageType, FileControl, FileKind};
use crate::codec_enums::{user_status_str, user_status_to_text, lemma_user_status_rt, sget_user_status, jget_user_status, message_type_str, message_type_to_text, lemma_message_type_rt, sget_message_type, jget_message_type, file_control_str, file_control_to_text, lemma_file_control_rt, sget_file_control, jget_file_control, file_kind_str, file_kind_to_text, lemma_file_kind_rt, sget_file_kind, jget_file_kind};

verus! {

broadcast use vstd::string::group_string_axioms;

/// The wire object of one request, its `request` discriminator first.
pub open spec fn req_to_json(v: RequestV) -> JsonV {
    match v {
        RequestV::Info => JsonV::Obj(seq![("request"@, JsonV::Str("Info"@))]),
        RequestV::AddFriend { tox_id, message } => JsonV::Obj(seq![("request"@, JsonV::Str("AddFriend"@)), ("tox_id"@, JsonV::Str(tox_id)), ("message"@, JsonV::Str(message))]),
        RequestV::AddFriendNorequest { tox_id } => JsonV::Obj(seq![("request"@, JsonV::Str("AddFriendNorequest"@)), ("tox_id"@, JsonV::Str(tox_id))]),
        RequestV::SendFriendMessage { friend, kind, message } => JsonV::Obj(seq![("request"@, JsonV::Str("SendFriendMessage"@)), ("friend"@, JsonV::UInt(friend as u64)), ("kind"@, JsonV::Str(message_type_str(kind))), ("message"@, JsonV::Str(message))]),
        RequestV::DeleteFriend { friend } => JsonV::Obj(seq![("request"@, JsonV::Str("DeleteFriend"@)), ("friend"@, JsonV::UInt(friend as u64))]),
        RequestV::GetConnectionStatus => JsonV::Obj(seq![("request"@, JsonV::Str("GetConnectionStatus"@))]),
        RequestV::GetAddress => JsonV::Obj(seq![("request"@, JsonV::Str("GetAddress"@))]),
        RequestV::GetNospam => JsonV::Obj(seq![("request"@, JsonV::Str("GetNospam"@))]),
        RequestV::SetNospam { nospam } => JsonV::Obj(seq![("request"@, JsonV::Str("SetNospam"@)), ("nospam"@, JsonV::Str(nospam))]),
        RequestV::GetPublicKey => JsonV::Obj(seq![("request"@, JsonV::Str("GetPublicKey"@))]),
        RequestV::SetName { name } => JsonV::Obj(seq![("request"@, JsonV::Str("SetName"@)), ("name"@, JsonV::Str(name))]),
        RequestV::GetName => JsonV::Obj(seq![("request"@, JsonV::Str("GetName"@))]),
        RequestV::SetStatusMessage { message } => JsonV::Obj(seq![("request"@, JsonV::Str("SetStatusMessage"@)), ("message"@, JsonV::Str(message))]),
        RequestV::GetStatusMessage => JsonV::Obj(seq![("request"@, JsonV::Str("GetStatusMessage"@))]),
        RequestV::SetStatus { status } => JsonV::Obj(seq![("request"@, JsonV::Str("SetStatus"@)), ("status"@, JsonV::Str(user_status_str(status)))]),
        RequestV::GetStatus => JsonV::Obj(seq![("request"@, JsonV::Str("GetStatus"@))]),
        RequestV::FriendByPublicKey { public_key } => JsonV::Obj(seq![("request"@, JsonV::Str("FriendByPublicKey"@)), ("public_key"@, JsonV::Str(public_key))]),
        RequestV::FriendExists { friend } => JsonV::Obj(seq![("request"@, JsonV::Str("FriendExists"@)), ("friend"@, JsonV::UInt(friend as u64))]),
        RequestV::GetFriendPublicKey { friend } => JsonV::Obj(seq![("request"@, JsonV::Str("GetFriendPublicKey"@)), ("friend"@, JsonV::UInt(friend as u64))]),
        RequestV::GetFriendLastOnline { friend } => JsonV::Obj(seq![("request"@, JsonV::Str("GetFriendLastOnline"@)), ("friend"@, JsonV::UInt(friend as u64))]),
        RequestV::GetFriendName { friend } => JsonV::Obj(seq![("request"@, JsonV::Str("GetFriendName"@)), ("friend"@, JsonV::UInt(friend as u64))]),
        RequestV::GetFriendStatusMessage { friend } => JsonV::Obj(seq![("request"@, JsonV::Str("GetFriendStatusMessage"@)), ("friend"@, JsonV::UInt(friend as u64))]),
        RequestV::GetFriendStatus { friend } => JsonV::Obj(seq![("request"@, JsonV::Str("GetFriendStatus"@)), ("friend"@, JsonV::UInt(friend as u64))]),
        RequestV::GetFriendConnectionStatus { friend } => JsonV::Obj(seq![("request"@, JsonV::Str("GetFriendConnectionStatus"@)), ("friend"@, JsonV::UInt(friend as u64))]),
        RequestV::ControlFile { friend, file_number, control } => JsonV::Obj(seq![("request"@, JsonV::Str("ControlFile"@)), ("friend"@, JsonV::UInt(friend as u64)), ("file_number"@, JsonV::UInt(file_number as u64)), ("control"@, JsonV::Str(file_control_str(control)))]),
        RequestV::SeekFile { friend, file_number, position } => JsonV::Obj(seq![("request"@, JsonV::Str("SeekFile"@)), ("friend"@, JsonV::UInt(friend as u64)), ("file_number"@, JsonV::UInt(file_number as u64)), ("position"@, JsonV::UInt(position as u64))]),
        RequestV::GetFileId { friend, file_number } => JsonV::Obj(seq![("request"@, JsonV::Str("GetFileId"@)), ("friend"@, JsonV::UInt(friend as u64)), ("file_number"@, JsonV::UInt(file_number as u64))]),
        RequestV::SendFile { friend, kind, file_size, file_name } => JsonV::Obj(seq![("request"@, JsonV::Str("SendFile"@)), ("friend"@, JsonV::UInt(friend as u64)), ("kind"@, JsonV::Str(file_kind_str(kind))), ("file_size"@, JsonV::UInt(file_size as u64)), ("file_name"@, JsonV::Str(file_name))]),
        RequestV::SendFileChunk { friend, file_number, position, data } => JsonV::Obj(seq![("request"@, JsonV::Str("SendFileChunk"@)), ("friend"@, JsonV::UInt(friend as u64)), ("file_number"@, JsonV::UInt(file_number as u64)), ("position"@, JsonV::UInt(position as u64)), ("data"@, JsonV::Str(b64_of(data)))]),
        RequestV::NewConference => JsonV::Obj(seq![("request"@, JsonV::Str("NewConference"@))]),
        RequestV::DeleteConference { conference } => JsonV::Obj(seq![("request"@, JsonV::Str("DeleteConference"@)), ("conference"@, JsonV::UInt(conference as u64))]),
        RequestV::GetPeerList { conference } => JsonV::Obj(seq![("request"@, JsonV::Str("GetPeerList"@)), ("conference"@, JsonV::UInt(conference as u64))]),
        RequestV::ConferencePeerCount { conference } => JsonV::Obj(seq![("request"@, JsonV::Str("ConferencePeerCount"@)), ("conference"@, JsonV::UInt(conference as u64))]),
        RequestV::GetPeerName { conference, peer } => JsonV::Obj(seq![("request"@, JsonV::Str("GetPeerName"@)), ("conference"@, JsonV::UInt(conference as u64)), ("peer"@, JsonV::UInt(peer as u64))]),
        RequestV::GetPeerPublicKey { conference, peer } => JsonV::Obj(seq![("request"@, JsonV::Str("GetPeerPublicKey"@)), ("conference"@, JsonV::UInt(conference as u64)), ("peer"@, JsonV::UInt(peer as u64))]),
        RequestV::IsOwnPeerNumber { conference, peer_number } => JsonV::Obj(seq![("request"@, JsonV::Str("IsOwnPeerNumber"@)), ("conference"@, JsonV::UInt(conference as u64)), ("peer_number"@, JsonV::UInt(peer_number as u64))]),
        RequestV::InviteToConference { friend, conference } => JsonV::Obj(seq![("request"@, JsonV::Str("InviteToConference"@)), ("friend"@, JsonV::UInt(friend as u64)), ("conference"@, JsonV::UInt(conference as u64))]),
        RequestV::JoinConference { friend, cookie } => JsonV::Obj(seq![("request"@, JsonV::Str("JoinConference"@)), ("friend"@, JsonV::UInt(friend as u64)), ("cookie"@, JsonV::Str(b64_of(cookie)))]),
        RequestV::SendConferenceMessage { conference, kind, message } => JsonV::Obj(seq![("request"@, JsonV::Str("SendConferenceMessage"@)), ("conference"@, JsonV::UInt(conference as u64)), ("kind"@, JsonV::Str(message_type_str(kind))), ("message"@, JsonV::Str(message))]),
        RequestV::GetConferenceTitle { conference } => JsonV::Obj(seq![("request"@, JsonV::Str("GetConferenceTitle"@)), ("conference"@, JsonV::UInt(conference as u64))]),
        RequestV::SetConferenceTitle { conference, title } => JsonV::Obj(seq![("request"@, JsonV::Str("SetConferenceTitle"@)), ("conference"@, JsonV::UInt(conference as u64)), ("title"@, JsonV::Str(title))]),
        RequestV::GetConferenceList => JsonV::Obj(seq![("request"@, JsonV::Str("GetConferenceList"@))]),
        RequestV::GetConferenceType { conference } => JsonV::Obj(seq![("request"@, JsonV::Str("GetConferenceType"@)), ("conference"@, JsonV::UInt(conference as u64))]),
    }
}

pub open spec fn req_add_friend_from(fs: Seq<(Seq<char>, JsonV)>) -> Result<RequestV, DecodeError> {
    match sget_str(fs, "tox_id"@) {
        Ok(tox_id) => {
            match sget_str(fs, "message"@) {
                Ok(message) => {
                    Ok(RequestV::AddFriend { tox_id, message })
                },
                Err(e) => Err(e),
            }
        },
        Err(e) => Err(e),
    }
}

pub open spec fn req_add_friend_norequest_from(fs: Seq<(Seq<char>, JsonV)>) -> Result<RequestV, DecodeError> {
    match sget_str(fs, "tox_id"@) {
        Ok(tox_id) => {
            Ok(RequestV::AddFriendNorequest { tox_id })
        },
        Err(e) => Err(e),
    }
}

pub open spec fn req_send_friend_message_from(fs: Seq<(Seq<char>, JsonV)>) -> Result<RequestV, DecodeError> {
    match sget_u32(fs, "friend"@) {
        Ok(friend) => {
            match sget_message_type(fs, "kind"@) {
                Ok(kind) => {
                    match sget_str(fs, "message"@) {
                        Ok(message) => {
                            Ok(RequestV::SendFriendMessage { friend, kind, message })
                        },
                        Err(e) => Err(e),
                    }
                },
                Err(e) => Err(e),
            }
        },
        Err(e) => Err(e),
    }
}

pub open spec fn req_delete_friend_from(fs: Seq<(Seq<char>, JsonV)>) -> Result<RequestV, DecodeError> {
    match sget_u32(fs, "friend"@) {
        Ok(friend) => {
            Ok(RequestV::DeleteFriend { friend })
        },
        Err(e) => Err(e),
    }
}

pub open spec fn req_set_nospam_from(fs: Seq<(Seq<char>, JsonV)>) -> Result<RequestV, DecodeError> {
    match sget_str(fs, "nospam"@) {
        Ok(nospam) => {
            Ok(RequestV::SetNospam { nospam })
        },
        Err(e) => Err(e),
    }
}

pub open spec fn req_set_name_from(fs: Seq<(Seq<char>, JsonV)>) -> Result<RequestV, DecodeError> {
    match sget_str(fs, "name"@) {
        Ok(name) => {
            Ok(RequestV::SetName { name })
        },
        Err(e) => Err(e),
    }
}

pub open spec fn req_set_status_message_from(fs: Seq<(Seq<char>, JsonV)>) -> Result<RequestV, DecodeError> {
    match sget_str(fs, "message"@) {
        Ok(message) => {
            Ok(RequestV::SetStatusMessage { message })
        },
        Err(e) => Err(e),
    }
}

pub open spec fn req_set_status_from(fs: Seq<(Seq<char>, JsonV)>) -> Result<RequestV, DecodeError> {
    match sget_user_status(fs, "status"@) {
        Ok(status) => {
            Ok(RequestV::SetStatus { status })
        },
        Err(e) => Err(e),
    }
}

pub open spec fn req_friend_by_public_key_from(fs: Seq<(Seq<char>, JsonV)>) -> Result<RequestV, DecodeError> {
    match sget_str(fs, "public_key"@) {
        Ok(public_key) => {
            Ok(RequestV::FriendByPublicKey { public_key })
        },
        Err(e) => Err(e),
    }
}

pub open spec fn req_friend_exists_from(fs: Seq<(Seq<char>, JsonV)>) -> Result<RequestV, DecodeError> {
    match sget_u32(fs, "friend"@) {
        Ok(friend) => {
            Ok(RequestV::FriendExists { friend })
        },
        Err(e) => Err(e),
    }
}

pub open spec fn req_get_friend_public_key_from(fs: Seq<(Seq<char>, JsonV)>) -> Result<RequestV, DecodeError> {
    match sget_u32(fs, "friend"@) {
        Ok(friend) => {
            Ok(RequestV::GetFriendPublicKey { friend })
        },
        Err(e) => Err(e),
    }
}

pub open spec fn req_get_friend_last_online_from(fs: Seq<(Seq<char>, JsonV)>) -> Result<RequestV, DecodeError> {
    match sget_u32(fs, "friend"@) {
        Ok(friend) => {
            Ok(RequestV::GetFriendLastOnline { friend })
        },
        Err(e) => Err(e),
    }
}

pub open spec fn req_get_friend_name_from(fs: Seq<(Seq<char>, JsonV)>) -> Result<RequestV, DecodeError> {
    match sget_u32(fs, "friend"@) {
        Ok(friend) => {
            Ok(RequestV::GetFriendName { friend })
        },
        Err(e) => Err(e),
    }
}

pub open spec fn req_get_friend_status_message_from(fs: Seq<(Seq<char>, JsonV)>) -> Result<RequestV, DecodeError> {
    match sget_u32(fs, "friend"@) {
        Ok(friend) => {
            Ok(RequestV::GetFriendStatusMessage { friend })
        },
        Err(e) => Err(e),
    }
}

pub open spec fn req_get_friend_status_from(fs: Seq<(Seq<char>, JsonV)>) -> Result<RequestV, DecodeError> {
    match sget_u32(fs, "friend"@) {
        Ok(friend) => {
            Ok(RequestV::GetFriendStatus { friend })
        },
        Err(e) => Err(e),
    }
}

pub open spec fn req_get_friend_connection_status_from(fs: Seq<(Seq<char>, JsonV)>) -> Result<RequestV, DecodeError> {
    match sget_u32(fs, "friend"@) {
        Ok(friend) => {
            Ok(RequestV::GetFriendConnectionStatus { friend })
        },
        Err(e) => Err(e),
    }
}

pub open spec fn req_control_file_from(fs: Seq<(Seq<char>, JsonV)>) -> Result<RequestV, DecodeError> {
    match sget_u32(fs, "friend"@) {
        Ok(friend) => {
            match sget_u32(fs, "file_number"@) {
                Ok(file_number) => {
                    match sget_file_control(fs, "control"@) {
                        Ok(control) => {
                            Ok(RequestV::ControlFile { friend, file_number, control })
                        },
                        Err(e) => Err(e),
                    }
                },
                Err(e) => Err(e),
            }
        },
        Err(e) => Err(e),
    }
}

pub open spec fn req_seek_file_from(fs: Seq<(Seq<char>, JsonV)>) -> Result<RequestV, DecodeError> {
    match sget_u32(fs, "friend"@) {
        Ok(friend) => {
            match sget_u32(fs, "file_number"@) {
                Ok(file_number) => {
                    match sget_usize(fs, "position"@) {
                        Ok(position) => {
                            Ok(RequestV::SeekFile { friend, file_number, position })
                        },
                        Err(e) => Err(e),
                    }
                },
                Err(e) => Err(e),
            }
        },
        Err(e) => Err(e),
    }
}

pub open spec fn req_get_file_id_from(fs: Seq<(Seq<char>, JsonV)>) -> Result<RequestV, DecodeError> {
    match sget_u32(fs, "friend"@) {
        Ok(friend) => {
            match sget_u32(fs, "file_number"@) {
                Ok(file_number) => {
                    Ok(RequestV::GetFileId { friend, file_number })
                },
                Err(e) => Err(e),
            }
        },
        Err(e) => Err(e),
    }
}

pub open spec fn req_send_file_from(fs: Seq<(Seq<char>, JsonV)>) -> Result<RequestV, DecodeError> {
    match sget_u32(fs, "friend"@) {
        Ok(friend) => {
            match sget_file_kind(fs, "kind"@) {
                Ok(kind) => {
                    match sget_usize(fs, "file_size"@) {
                        Ok(file_size) => {
                            match sget_str(fs, "file_name"@) {
                                Ok(file_name) => {
                                    Ok(RequestV::SendFile { friend, kind, file_size, file_name })
                                },
                                Err(e) => Err(e),
                            }
                        },
                        Err(e) => Err(e),
                    }
                },
                Err(e) => Err(e),
            }
        },
        Err(e) => Err(e),
    }
}

pub open spec fn req_send_file_chunk_from(fs: Seq<(Seq<char>, JsonV)>) -> Result<RequestV, DecodeError> {
    match sget_u32(fs, "friend"@) {
        Ok(friend) => {
            match sget_u32(fs, "file_number"@) {
                Ok(file_number) => {
                    match sget_usize(fs, "position"@) {
                        Ok(position) => {
                            match sget_bytes(fs, "data"@) {
                                Ok(data) => {
                                    Ok(RequestV::SendFileChunk { friend, file_number, position, data })
                                },
                                Err(e) => Err(e),
                            }
                        },
                        Err(e) => Err(e),
                    }
                },
                Err(e) => Err(e),
            }
        },
        Err(e) => Err(e),
    }
}

pub open spec fn req_delete_conference_from(fs: Seq<(Seq<char>, JsonV)>) -> Result<RequestV, DecodeError> {
    match sget_u32(fs, "conference"@) {
        Ok(conference) => {
            Ok(RequestV::DeleteConference { conference })
        },
        Err(e) => Err(e),
    }
}

pub open spec fn req_get_peer_list_from(fs: Seq<(Seq<char>, JsonV)>) -> Result<RequestV, DecodeError> {
    match sget_u32(fs, "conference"@) {
        Ok(conference) => {
            Ok(RequestV::GetPeerList { conference })
        },
        Err(e) => Err(e),
    }
}

pub open spec fn req_conference_peer_count_from(fs: Seq<(Seq<char>, JsonV)>) -> Result<RequestV, DecodeError> {
    match sget_u32(fs, "conference"@) {
        Ok(conference) => {
            Ok(RequestV::ConferencePeerCount { conference })
        },
        Err(e) => Err(e),
    }
}

pub open spec fn req_get_peer_name_from(fs: Seq<(Seq<char>, JsonV)>) -> Result<RequestV, DecodeError> {
    match sget_u32(fs, "conference"@) {
        Ok(conference) => {
            match sget_u32(fs, "peer"@) {
                Ok(peer) => {
                    Ok(RequestV::GetPeerName { conference, peer })
                },
                Err(e) => Err(e),
            }
        },
        Err(e) => Err(e),
    }
}

pub open spec fn req_get_peer_public_key_from(fs: Seq<(Seq<char>, JsonV)>) -> Result<RequestV, DecodeError> {
    match sget_u32(fs, "conference"@) {
        Ok(conference) => {
            match sget_u32(fs, "peer"@) {
                Ok(peer) => {
                    Ok(RequestV::GetPeerPublicKey { conference, peer })
                },
                Err(e) => Err(e),
            }
        },
        Err(e) => Err(e),
    }
}

pub open spec fn req_is_own_peer_number_from(fs: Seq<(Seq<char>, JsonV)>) -> Result<RequestV, DecodeError> {
    match sget_u32(fs, "conference"@) {
        Ok(conference) => {
            match sget_u32(fs, "peer_number"@) {
                Ok(peer_number) => {
                    Ok(RequestV::IsOwnPeerNumber { conference, peer_number })
                },
                Err(e) => Err(e),
            }
        },
        Err(e) => Err(e),
    }
}

pub open spec fn req_invite_to_conference_from(fs: Seq<(Seq<char>, JsonV)>) -> Result<RequestV, DecodeError> {
    match sget_u32(fs, "friend"@) {
        Ok(friend) => {
            match sget_u32(fs, "conference"@) {
                Ok(conference) => {
                    Ok(RequestV::InviteToConference { friend, conference })
                },
                Err(e) => Err(e),
            }
        },
        Err(e) => Err(e),
    }
}

pub open spec fn req_join_conference_from(fs: Seq<(Seq<char>, JsonV)>) -> Result<RequestV, DecodeError> {
    match sget_u32(fs, "friend"@) {
        Ok(friend) => {
            match sget_bytes(fs, "cookie"@) {
                Ok(cookie) => {
                    Ok(RequestV::JoinConference { friend, cookie })
                },
                Err(e) => Err(e),
            }
        },
        Err(e) => Err(e),
    }
}

pub open spec fn req_send_conference_message_from(fs: Seq<(Seq<char>, JsonV)>) -> Result<RequestV, DecodeError> {
    match sget_u32(fs, "conference"@) {
        Ok(conference) => {
            match sget_message_type(fs, "kind"@) {
                Ok(kind) => {
                    match sget_str(fs, "message"@) {
                        Ok(message) => {
                            Ok(RequestV::SendConferenceMessage { conference, kind, message })
                        },
                        Err(e) => Err(e),
                    }
                },
                Err(e) => Err(e),
            }
        },
        Err(e) => Err(e),
    }
}

pub open spec fn req_get_conference_title_from(fs: Seq<(Seq<char>, JsonV)>) -> Result<RequestV, DecodeError> {
    match sget_u32(fs, "conference"@) {
        Ok(conference) => {
            Ok(RequestV::GetConferenceTitle { conference })
        },
        Err(e) => Err(e),
    }
}

pub open spec fn req_set_conference_title_from(fs: Seq<(Seq<char>, JsonV)>) -> Result<RequestV, DecodeError> {
    match sget_u32(fs, "conference"@) {
        Ok(conference) => {
            match sget_str(fs, "title"@) {
                Ok(title) => {
                    Ok(RequestV::SetConferenceTitle { conference, title })
                },
                Err(e) => Err(e),
            }
        },
        Err(e) => Err(e),
    }
}

pub open spec fn req_get_conference_type_from(fs: Seq<(Seq<char>, JsonV)>) -> Result<RequestV, DecodeError> {
    match sget_u32(fs, "conference"@) {
        Ok(conference) => {
            Ok(RequestV::GetConferenceType { conference })
        },
        Err(e) => Err(e),
    }
}

pub open spec fn req_dispatch4(tag: Seq<char>, fs: Seq<(Seq<char>, JsonV)>) -> Result<
    RequestV,
    DecodeError,
> {
    if tag == "InviteToConference"@ {
        req_invite_to_conference_from(fs)
    } else if tag == "JoinConference"@ {
        req_join_conference_from(fs)
    } else if tag == "SendConferenceMessage"@ {
        req_send_conference_message_from(fs)
    } else if tag == "GetConferenceTitle"@ {
        req_get_conference_title_from(fs)
    } else if tag == "SetConferenceTitle"@ {
        req_set_conference_title_from(fs)
    } else if tag == "GetConferenceList"@ {
        Ok(RequestV::GetConferenceList)
    } else if tag == "GetConferenceType"@ {
        req_get_conference_type_from(fs)
    } else {
        Err(DecodeError::UnknownVariant)
    }
}

pub open spec fn req_dispatch3(tag: Seq<char>, fs: Seq<(Seq<char>, JsonV)>) -> Result<
    RequestV,
    DecodeError,
> {
    if tag == "ControlFile"@ {
        req_control_file_from(fs)
    } else if tag == "SeekFile"@ {
        req_seek_file_from(fs)
    } else if tag == "GetFileId"@ {
        req_get_file_id_from(fs)
    } else if tag == "SendFile"@ {
        req_send_file_from(fs)
    } else if tag == "SendFileChunk"@ {
        req_send_file_chunk_from(fs)
    } else if tag == "NewConference"@ {
        Ok(RequestV::NewConference)
    } else if tag == "DeleteConference"@ {
        req_delete_conference_from(fs)
    } else if tag == "GetPeerList"@ {
        req_get_peer_list_from(fs)
    } else if tag == "ConferencePeerCount"@ {
        req_conference_peer_count_from(fs)
    } else if tag == "GetPeerName"@ {
        req_get_peer_name_from(fs)
    } else if tag == "GetPeerPublicKey"@ {
        req_get_peer_public_key_from(fs)
    } else if tag == "IsOwnPeerNumber"@ {
        req_is_own_peer_number_from(fs)
    } else {
        req_dispatch4(tag, fs)
    }
}

pub open spec fn req_dispatch2(tag: Seq<char>, fs: Seq<(Seq<char>, JsonV)>) -> Result<
    RequestV,
    DecodeError,
> {
    if tag == "SetStatusMessage"@ {
        req_set_status_message_from(fs)
    } else if tag == "GetStatusMessage"@ {
        Ok(RequestV::GetStatusMessage)
    } else if tag == "SetStatus"@ {
        req_set_status_from(fs)
    } else if tag == "GetStatus"@ {
        Ok(RequestV::GetStatus)
    } else if tag == "FriendByPublicKey"@ {
        req_friend_by_public_key_from(fs)
    } else if tag == "FriendExists"@ {
        req_friend_exists_from(fs)
    } else if tag == "GetFriendPublicKey"@ {
        req_get_friend_public_key_from(fs)
    } else if tag == "GetFriendLastOnline"@ {
        req_get_friend_last_online_from(fs)
    } else if tag == "GetFriendName"@ {
        req_get_friend_name_from(fs)
    } else if tag == "GetFriendStatusMessage"@ {
        req_get_friend_status_message_from(fs)
    } else if tag == "GetFriendStatus"@ {
        req_get_friend_status_from(fs)
    } else if tag == "GetFriendConnectionStatus"@ {
        req_get_friend_connection_status_from(fs)
    } else {
        req_dispatch3(tag, fs)
    }
}

pub open spec fn req_dispatch(tag: Seq<char>, fs: Seq<(Seq<char>, JsonV)>) -> Result<
    RequestV,
    DecodeError,
> {
    if tag == "Info"@ {
        Ok(RequestV::Info)
    } else if tag == "AddFriend"@ {
        req_add_friend_from(fs)
    } else if tag == "AddFriendNorequest"@ {
        req_add_friend_norequest_from(fs)
    } else if tag == "SendFriendMessage"@ {
        req_send_friend_message_from(fs)
    } else if tag == "DeleteFriend"@ {
        req_delete_friend_from(fs)
    } else if tag == "GetConnectionStatus"@ {
        Ok(RequestV::GetConnectionStatus)
    } else if tag == "GetAddress"@ {
        Ok(RequestV::GetAddress)
    } else if tag == "GetNospam"@ {
        Ok(RequestV::GetNospam)
    } else if tag == "SetNospam"@ {
        req_set_nospam_from(fs)
    } else if tag == "GetPublicKey"@ {
        Ok(RequestV::GetPublicKey)
    } else if tag == "SetName"@ {
        req_set_name_from(fs)
    } else if tag == "GetName"@ {
        Ok(RequestV::GetName)
    } else {
        req_dispatch2(tag, fs)
    }
}

/// What a JSON value means as a request.
pub open spec fn req_from_json(j: JsonV) -> Result<RequestV, DecodeError> {
    match j {
        JsonV::Obj(fs) => match jlookup(fs, "request"@) {
            Some(JsonV::Str(tag)) => req_dispatch(tag, fs),
            Some(_) => Err(DecodeError::MalformedField),
            None => Err(DecodeError::MissingField),
        },
        _ => Err(DecodeError::MalformedField),
    }
}

/// What a whole wire text means as a request.
pub open spec fn req_decode(s: Seq<char>) -> Result<RequestV, DecodeError> {
    match sp_json(s) {
        Some(j) => req_from_json(j),
        None => Err(DecodeError::Syntax),
    }
}

/// The machine limit on encoding: each binary field's base64 text must
/// fit in a `usize`-sized allocation.
pub open spec fn req_encodable(v: RequestV) -> bool {
    match v {
        RequestV::SendFileChunk { data, .. } => 4 * ((data.len() + 2) / 3) <= usize::MAX as nat,
        RequestV::JoinConference { cookie, .. } => 4 * ((cookie.len() + 2) / 3) <= usize::MAX as nat,
        _ => true,
    }
}

fn req_info_json() -> (j: Json)
    ensures
        j@ == req_to_json(RequestV::Info),
{
    let x1 = (String::from_str("request"), Json::Str(String::from_str("Info")));
    let ghost g1 = x1;
    let mut fields: Vec<(String, Json)> = Vec::new();
    fields.push(x1);
    proof {
        assert(fields@ =~= seq![g1]);
        lemma_jview_fields1(g1);
    }
    let j = Json::Obj(fields);
    proof {
        assert(jview(j) =~= req_to_json(RequestV::Info));
    }
    j
}

fn req_add_friend_json(tox_id: &String, message: &String) -> (j: Json)
    ensures
        j@ == req_to_json((RequestV::AddFriend { tox_id: tox_id@, message: message@ })),
{
    let x1 = (String::from_str("request"), Json::Str(String::from_str("AddFriend")));
    let ghost g1 = x1;
    let x2 = (String::from_str("tox_id"), Json::Str(tox_id.clone()));
    let ghost g2 = x2;
    let x3 = (String::from_str("message"), Json::Str(message.clone()));
    let ghost g3 = x3;
    let mut fields: Vec<(String, Json)> = Vec::new();
    fields.push(x1);
    fields.push(x2);
    fields.push(x3);
    proof {
        assert(fields@ =~= seq![g1, g2, g3]);
        lemma_jview_fields3(g1, g2, g3);
    }
    let j = Json::Obj(fields);
    proof {
        assert(jview(j) =~= req_to_json((RequestV::AddFriend { tox_id: tox_id@, message: message@ })));
    }
    j
}

fn req_add_friend_norequest_json(tox_id: &String) -> (j: Json)
    ensures
        j@ == req_to_json((RequestV::AddFriendNorequest { tox_id: tox_id@ })),
{
    let x1 = (String::from_str("request"), Json::Str(String::from_str("AddFriendNorequest")));
    let ghost g1 = x1;
    let x2 = (String::from_str("tox_id"), Json::Str(tox_id.clone()));
    let ghost g2 = x2;
    let mut fields: Vec<(String, Json)> = Vec::new();
    fields.push(x1);
    fields.push(x2);
    proof {
        assert(fields@ =~= seq![g1, g2]);
        lemma_jview_fields2(g1, g2);
    }
    let j = Json::Obj(fields);
    proof {
        assert(jview(j) =~= req_to_json((RequestV::AddFriendNorequest { tox_id: tox_id@ })));
    }
    j
}

fn req_send_friend_message_json(friend: &u32, kind: &MessageType, message: &String) -> (j: Json)
    ensures
        j@ == req_to_json((RequestV::SendFriendMessage { friend: *friend, kind: *kind, message: message@ })),
{
    let x1 = (String::from_str("request"), Json::Str(String::from_str("SendFriendMessage")));
    let ghost g1 = x1;
    let x2 = (String::from_str("friend"), Json::UInt(*friend as u64));
    let ghost g2 = x2;
    let x3 = (String::from_str("kind"), Json::Str(message_type_to_text(kind)));
    let ghost g3 = x3;
    let x4 = (String::from_str("message"), Json::Str(message.clone()));
    let ghost g4 = x4;
    let mut fields: Vec<(String, Json)> = Vec::new();
    fields.push(x1);
    fields.push(x2);
    fields.push(x3);
    fields.push(x4);
    proof {
        assert(fields@ =~= seq![g1, g2, g3, g4]);
        lemma_jview_fields4(g1, g2, g3, g4);
    }
    let j = Json::Obj(fields);
    proof {
        assert(jview(j) =~= req_to_json((RequestV::SendFriendMessage { friend: *friend, kind: *kind, message: message@ })));
    }
    j
}

fn req_delete_friend_json(friend: &u32) -> (j: Json)
    ensures
        j@ == req_to_json((RequestV::DeleteFriend { friend: *friend })),
{
    let x1 = (String::from_str("request"), Json::Str(String::from_str("DeleteFriend")));
    let ghost g1 = x1;
    let x2 = (String::from_str("friend"), Json::UInt(*friend as u64));
    let ghost g2 = x2;
    let mut fields: Vec<(String, Json)> = Vec::new();
    fields.push(x1);
    fields.push(x2);
    proof {
        assert(fields@ =~= seq![g1, g2]);
        lemma_jview_fields2(g1, g2);
    }
    let j = Json::Obj(fields);
    proof {
        assert(jview(j) =~= req_to_json((RequestV::DeleteFriend { friend: *friend })));
    }
    j
}

fn req_get_connection_status_json() -> (j: Json)
    ensures
        j@ == req_to_json(RequestV::GetConnectionStatus),
{
    let x1 = (String::from_str("request"), Json::Str(String::from_str("GetConnectionStatus")));
    let ghost g1 = x1;
    let mut fields: Vec<(String, Json)> = Vec::new();
    fields.push(x1);
    proof {
        assert(fields@ =~= seq![g1]);
        lemma_jview_fields1(g1);
    }
    let j = Json::Obj(fields);
    proof {
        assert(jview(j) =~= req_to_json(RequestV::GetConnectionStatus));
    }
    j
}

fn req_get_address_json() -> (j: Json)
    ensures
        j@ == req_to_json(RequestV::GetAddress),
{
    let x1 = (String::from_str("request"), Json::Str(String::from_str("GetAddress")));
    let ghost g1 = x1;
    let mut fields: Vec<(String, Json)> = Vec::new();
    fields.push(x1);
    proof {
        assert(fields@ =~= seq![g1]);
        lemma_jview_fields1(g1);
    }
    let j = Json::Obj(fields);
    proof {
        assert(jview(j) =~= req_to_json(RequestV::GetAddress));
    }
    j
}

fn req_get_nospam_json() -> (j: Json)
    ensures
        j@ == req_to_json(RequestV::GetNospam),
{
    let x1 = (String::from_str("request"), Json::Str(String::from_str("GetNospam")));
    let ghost g1 = x1;
    let mut fields: Vec<(String, Json)> = Vec::new();
    fields.push(x1);
    proof {
        assert(fields@ =~= seq![g1]);
        lemma_jview_fields1(g1);
    }
    let j = Json::Obj(fields);
    proof {
        assert(jview(j) =~= req_to_json(RequestV::GetNospam));
    }
    j
}

fn req_set_nospam_json(nospam: &String) -> (j: Json)
    ensures
        j@ == req_to_json((RequestV::SetNospam { nospam: nospam@ })),
{
    let x1 = (String::from_str("request"), Json::Str(String::from_str("SetNospam")));
    let ghost g1 = x1;
    let x2 = (String::from_str("nospam"), Json::Str(nospam.clone()));
    let ghost g2 = x2;
    let mut fields: Vec<(String, Json)> = Vec::new();
    fields.push(x1);
    fields.push(x2);
    proof {
        assert(fields@ =~= seq![g1, g2]);
        lemma_jview_fields2(g1, g2);
    }
    let j = Json::Obj(fields);
    proof {
        assert(jview(j) =~= req_to_json((RequestV::SetNospam { nospam: nospam@ })));
    }
    j
}

fn req_get_public_key_json() -> (j: Json)
    ensures
        j@ == req_to_json(RequestV::GetPublicKey),
{
    let x1 = (String::from_str("request"), Json::Str(String::from_str("GetPublicKey")));
    let ghost g1 = x1;
    let mut fields: Vec<(String, Json)> = Vec::new();
    fields.push(x1);
    proof {
        assert(fields@ =~= seq![g1]);
        lemma_jview_fields1(g1);
    }
    let j = Json::Obj(fields);
    proof {
        assert(jview(j) =~= req_to_json(RequestV::GetPublicKey));
    }
    j
}

fn req_set_name_json(name: &String) -> (j: Json)
    ensures
        j@ == req_to_json((RequestV::SetName { name: name@ })),
{
    let x1 = (String::from_str("request"), Json::Str(String::from_str("SetName")));
    let ghost g1 = x1;
    let x2 = (String::from_str("name"), Json::Str(name.clone()));
    let ghost g2 = x2;
    let mut fields: Vec<(String, Json)> = Vec::new();
    fields.push(x1);
    fields.push(x2);
    proof {
        assert(fields@ =~= seq![g1, g2]);
        lemma_jview_fields2(g1, g2);
    }
    let j = Json::Obj(fields);
    proof {
        assert(jview(j) =~= req_to_json((RequestV::SetName { name: name@ })));
    }
    j
}

fn req_get_name_json() -> (j: Json)
    ensures
        j@ == req_to_json(RequestV::GetName),
{
    let x1 = (String::from_str("request"), Json::Str(String::from_str("GetName")));
    let ghost g1 = x1;
    let mut fields: Vec<(String, Json)> = Vec::new();
    fields.push(x1);
    proof {
        assert(fields@ =~= seq![g1]);
        lemma_jview_fields1(g1);
    }
    let j = Json::Obj(fields);
    proof {
        assert(jview(j) =~= req_to_json(RequestV::GetName));
    }
    j
}

fn req_set_status_message_json(message: &String) -> (j: Json)
    ensures
        j@ == req_to_json((RequestV::SetStatusMessage { message: message@ })),
{
    let x1 = (String::from_str("request"), Json::Str(String::from_str("SetStatusMessage")));
    let ghost g1 = x1;
    let x2 = (String::from_str("message"), Json::Str(message.clone()));
    let ghost g2 = x2;
    let mut fields: Vec<(String, Json)> = Vec::new();
    fields.push(x1);
    fields.push(x2);
    proof {
        assert(fields@ =~= seq![g1, g2]);
        lemma_jview_fields2(g1, g2);
    }
    let j = Json::Obj(fields);
    proof {
        assert(jview(j) =~= req_to_json((RequestV::SetStatusMessage { message: message@ })));
    }
    j
}

fn req_get_status_message_json() -> (j: Json)
    ensures
        j@ == req_to_json(RequestV::GetStatusMessage),
{
    let x1 = (String::from_str("request"), Json::Str(String::from_str("GetStatusMessage")));
    let ghost g1 = x1;
    let mut fields: Vec<(String, Json)> = Vec::new();
    fields.push(x1);
    proof {
        assert(fields@ =~= seq![g1]);
        lemma_jview_fields1(g1);
    }
    let j = Json::Obj(fields);
    proof {
        assert(jview(j) =~= req_to_json(RequestV::GetStatusMessage));
    }
    j
}

fn req_set_status_json(status: &UserStatus) -> (j: Json)
    ensures
        j@ == req_to_json((RequestV::SetStatus { status: *status })),
{
    let x1 = (String::from_str("request"), Json::Str(String::from_str("SetStatus")));
    let ghost g1 = x1;
    let x2 = (String::from_str("status"), Json::Str(user_status_to_text(status)));
    let ghost g2 = x2;
    let mut fields: Vec<(String, Json)> = Vec::new();
    fields.push(x1);
    fields.push(x2);
    proof {
        assert(fields@ =~= seq![g1, g2]);
        lemma_jview_fields2(g1, g2);
    }
    let j = Json::Obj(fields);
    proof {
        assert(jview(j) =~= req_to_json((RequestV::SetStatus { status: *status })));
    }
    j
}

fn req_get_status_json() -> (j: Json)
    ensures
        j@ == req_to_json(RequestV::GetStatus),
{
    let x1 = (String::from_str("request"), Json::Str(String::from_str("GetStatus")));
    let ghost g1 = x1;
    let mut fields: Vec<(String, Json)> = Vec::new();
    fields.push(x1);
    proof {
        assert(fields@ =~= seq![g1]);
        lemma_jview_fields1(g1);
    }
    let j = Json::Obj(fields);
    proof {
        assert(jview(j) =~= req_to_json(RequestV::GetStatus));
    }
    j
}

fn req_friend_by_public_key_json(public_key: &String) -> (j: Json)
    ensures
        j@ == req_to_json((RequestV::FriendByPublicKey { public_key: public_key@ })),
{
    let x1 = (String::from_str("request"), Json::Str(String::from_str("FriendByPublicKey")));
    let ghost g1 = x1;
    let x2 = (String::from_str("public_key"), Json::Str(public_key.clone()));
    let ghost g2 = x2;
    let mut fields: Vec<(String, Json)> = Vec::new();
    fields.push(x1);
    fields.push(x2);
    proof {
        assert(fields@ =~= seq![g1, g2]);
        lemma_jview_fields2(g1, g2);
    }
    let j = Json::Obj(fields);
    proof {
        assert(jview(j) =~= req_to_json((RequestV::FriendByPublicKey { public_key: public_key@ })));
    }
    j
}

fn req_friend_exists_json(friend: &u32) -> (j: Json)
    ensures
        j@ == req_to_json((RequestV::FriendExists { friend: *friend })),
{
    let x1 = (String::from_str("request"), Json::Str(String::from_str("FriendExists")));
    let ghost g1 = x1;
    let x2 = (String::from_str("friend"), Json::UInt(*friend as u64));
    let ghost g2 = x2;
    let mut fields: Vec<(String, Json)> = Vec::new();
    fields.push(x1);
    fields.push(x2);
    proof {
        assert(fields@ =~= seq![g1, g2]);
        lemma_jview_fields2(g1, g2);
    }
    let j = Json::Obj(fields);
    proof {
        assert(jview(j) =~= req_to_json((RequestV::FriendExists { friend: *friend })));
    }
    j
}

fn req_get_friend_public_key_json(friend: &u32) -> (j: Json)
    ensures
        j@ == req_to_json((RequestV::GetFriendPublicKey { friend: *friend })),
{
    let x1 = (String::from_str("request"), Json::Str(String::from_str("GetFriendPublicKey")));
    let ghost g1 = x1;
    let x2 = (String::from_str("friend"), Json::UInt(*friend as u64));
    let ghost g2 = x2;
    let mut fields: Vec<(String, Json)> = Vec::new();
    fields.push(x1);
    fields.push(x2);
    proof {
        assert(fields@ =~= seq![g1, g2]);
        lemma_jview_fields2(g1, g2);
    }
    let j = Json::Obj(fields);
    proof {
        assert(jview(j) =~= req_to_json((RequestV::GetFriendPublicKey { friend: *friend })));
    }
    j
}

fn req_get_friend_last_online_json(friend: &u32) -> (j: Json)
    ensures
        j@ == req_to_json((RequestV::GetFriendLastOnline { friend: *friend })),
{
    let x1 = (String::from_str("request"), Json::Str(String::from_str("GetFriendLastOnline")));
    let ghost g1 = x1;
    let x2 = (String::from_str("friend"), Json::UInt(*friend as u64));
    let ghost g2 = x2;
    let mut fields: Vec<(String, Json)> = Vec::new();
    fields.push(x1);
    fields.push(x2);
    proof {
        assert(fields@ =~= seq![g1, g2]);
        lemma_jview_fields2(g1, g2);
    }
    let j = Json::Obj(fields);
    proof {
        assert(jview(j) =~= req_to_json((RequestV::GetFriendLastOnline { friend: *friend })));
    }
    j
}

fn req_get_friend_name_json(friend: &u32) -> (j: Json)
    ensures
        j@ == req_to_json((RequestV::GetFriendName { friend: *friend })),
{
    let x1 = (String::from_str("request"), Json::Str(String::from_str("GetFriendName")));
    let ghost g1 = x1;
    let x2 = (String::from_str("friend"), Json::UInt(*friend as u64));
    let ghost g2 = x2;
    let mut fields: Vec<(String, Json)> = Vec::new();
    fields.push(x1);
    fields.push(x2);
    proof {
        assert(fields@ =~= seq![g1, g2]);
        lemma_jview_fields2(g1, g2);
    }
    let j = Json::Obj(fields);
    proof {
        assert(jview(j) =~= req_to_json((RequestV::GetFriendName { friend: *friend })));
    }
    j
}

fn req_get_friend_status_message_json(friend: &u32) -> (j: Json)
    ensures
        j@ == req_to_json((RequestV::GetFriendStatusMessage { friend: *friend })),
{
    let x1 = (String::from_str("request"), Json::Str(String::from_str("GetFriendStatusMessage")));
    let ghost g1 = x1;
    let x2 = (String::from_str("friend"), Json::UInt(*friend as u64));
    let ghost g2 = x2;
    let mut fields: Vec<(String, Json)> = Vec::new();
    fields.push(x1);
    fields.push(x2);
    proof {
        assert(fields@ =~= seq![g1, g2]);
        lemma_jview_fields2(g1, g2);
    }
    let j = Json::Obj(fields);
    proof {
        assert(jview(j) =~= req_to_json((RequestV::GetFriendStatusMessage { friend: *friend })));
    }
    j
}

fn req_get_friend_status_json(friend: &u32) -> (j: Json)
    ensures
        j@ == req_to_json((RequestV::GetFriendStatus { friend: *friend })),
{
    let x1 = (String::from_str("request"), Json::Str(String::from_str("GetFriendStatus")));
    let ghost g1 = x1;
    let x2 = (String::from_str("friend"), Json::UInt(*friend as u64));
    let ghost g2 = x2;
    let mut fields: Vec<(String, Json)> = Vec::new();
    fields.push(x1);
    fields.push(x2);
    proof {
        assert(fields@ =~= seq![g1, g2]);
        lemma_jview_fields2(g1, g2);
    }
    let j = Json::Obj(fields);
    proof {
        assert(jview(j) =~= req_to_json((RequestV::GetFriendStatus { friend: *friend })));
    }
    j
}

fn req_get_friend_connection_status_json(friend: &u32) -> (j: Json)
    ensures
        j@ == req_to_json((RequestV::GetFriendConnectionStatus { friend: *friend })),
{
    let x1 = (String::from_str("request"), Json::Str(String::from_str("GetFriendConnectionStatus")));
    let ghost g1 = x1;
    let x2 = (String::from_str("friend"), Json::UInt(*friend as u64));
    let ghost g2 = x2;
    let mut fields: Vec<(String, Json)> = Vec::new();
    fields.push(x1);
    fields.push(x2);
    proof {
        assert(fields@ =~= seq![g1, g2]);
        lemma_jview_fields2(g1, g2);
    }
    let j = Json::Obj(fields);
    proof {
        assert(jview(j) =~= req_to_json((RequestV::GetFriendConnectionStatus { friend: *friend })));
    }
    j
}

fn req_control_file_json(friend: &u32, file_number: &u32, control: &FileControl) -> (j: Json)
    ensures
        j@ == req_to_json((RequestV::ControlFile { friend: *friend, file_number: *file_number, control: *control })),
{
    let x1 = (String::from_str("request"), Json::Str(String::from_str("ControlFile")));
    let ghost g1 = x1;
    let x2 = (String::from_str("friend"), Json::UInt(*friend as u64));
    let ghost g2 = x2;
    let x3 = (String::from_str("file_number"), Json::UInt(*file_number as u64));
    let ghost g3 = x3;
    let x4 = (String::from_str("control"), Json::Str(file_control_to_text(control)));
    let ghost g4 = x4;
    let mut fields: Vec<(String, Json)> = Vec::new();
    fields.push(x1);
    fields.push(x2);
    fields.push(x3);
    fields.push(x4);
    proof {
        assert(fields@ =~= seq![g1, g2, g3, g4]);
        lemma_jview_fields4(g1, g2, g3, g4);
    }
    let j = Json::Obj(fields);
    proof {
        assert(jview(j) =~= req_to_json((RequestV::ControlFile { friend: *friend, file_number: *file_number, control: *control })));
    }
    j
}

fn req_seek_file_json(friend: &u32, file_number: &u32, position: &usize) -> (j: Json)
    ensures
        j@ == req_to_json((RequestV::SeekFile { friend: *friend, file_number: *file_number, position: *position })),
{
    let x1 = (String::from_str("request"), Json::Str(String::from_str("SeekFile")));
    let ghost g1 = x1;
    let x2 = (String::from_str("friend"), Json::UInt(*friend as u64));
    let ghost g2 = x2;
    let x3 = (String::from_str("file_number"), Json::UInt(*file_number as u64));
    let ghost g3 = x3;
    let x4 = (String::from_str("position"), Json::UInt(*position as u64));
    let ghost g4 = x4;
    let mut fields: Vec<(String, Json)> = Vec::new();
    fields.push(x1);
    fields.push(x2);
    fields.push(x3);
    fields.push(x4);
    proof {
        assert(fields@ =~= seq![g1, g2, g3, g4]);
        lemma_jview_fields4(g1, g2, g3, g4);
    }
    let j = Json::Obj(fields);
    proof {
        assert(jview(j) =~= req_to_json((RequestV::SeekFile { friend: *friend, file_number: *file_number, position: *position })));
    }
    j
}

fn req_get_file_id_json(friend: &u32, file_number: &u32) -> (j: Json)
    ensures
        j@ == req_to_json((RequestV::GetFileId { friend: *friend, file_number: *file_number })),
{
    let x1 = (String::from_str("request"), Json::Str(String::from_str("GetFileId")));
    let ghost g1 = x1;
    let x2 = (String::from_str("friend"), Json::UInt(*friend as u64));
    let ghost g2 = x2;
    let x3 = (String::from_str("file_number"), Json::UInt(*file_number as u64));
    let ghost g3 = x3;
    let mut fields: Vec<(String, Json)> = Vec::new();
    fields.push(x1);
    fields.push(x2);
    fields.push(x3);
    proof {
        assert(fields@ =~= seq![g1, g2, g3]);
        lemma_jview_fields3(g1, g2, g3);
    }
    let j = Json::Obj(fields);
    proof {
        assert(jview(j) =~= req_to_json((RequestV::GetFileId { friend: *friend, file_number: *file_number })));
    }
    j
}

fn req_send_file_json(friend: &u32, kind: &FileKind, file_size: &usize, file_name: &String) -> (j: Json)
    ensures
        j@ == req_to_json((RequestV::SendFile { friend: *friend, kind: *kind, file_size: *file_size, file_name: file_name@ })),
{
    let x1 = (String::from_str("request"), Json::Str(String::from_str("SendFile")));
    let ghost g1 = x1;
    let x2 = (String::from_str("friend"), Json::UInt(*friend as u64));
    let ghost g2 = x2;
    let x3 = (String::from_str("kind"), Json::Str(file_kind_to_text(kind)));
    let ghost g3 = x3;
    let x4 = (String::from_str("file_size"), Json::UInt(*file_size as u64));
    let ghost g4 = x4;
    let x5 = (String::from_str("file_name"), Json::Str(file_name.clone()));
    let ghost g5 = x5;
    let mut fields: Vec<(String, Json)> = Vec::new();
    fields.push(x1);
    fields.push(x2);
    fields.push(x3);
    fields.push(x4);
    fields.push(x5);
    proof {
        assert(fields@ =~= seq![g1, g2, g3, g4, g5]);
        lemma_jview_fields5(g1, g2, g3, g4, g5);
    }
    let j = Json::Obj(fields);
    proof {
        assert(jview(j) =~= req_to_json((RequestV::SendFile { friend: *friend, kind: *kind, file_size: *file_size, file_name: file_name@ })));
    }
    j
}

fn req_send_file_chunk_json(friend: &u32, file_number: &u32, position: &usize, data: &Vec<u8>) -> (j: Json)
    requires
        4 * ((data@.len() + 2) / 3) <= usize::MAX as nat,
    ensures
        j@ == req_to_json((RequestV::SendFileChunk { friend: *friend, file_number: *file_number, position: *position, data: data@ })),
{
    let x1 = (String::from_str("request"), Json::Str(String::from_str("SendFileChunk")));
    let ghost g1 = x1;
    let x2 = (String::from_str("friend"), Json::UInt(*friend as u64));
    let ghost g2 = x2;
    let x3 = (String::from_str("file_number"), Json::UInt(*file_number as u64));
    let ghost g3 = x3;
    let x4 = (String::from_str("position"), Json::UInt(*position as u64));
    let ghost g4 = x4;
    let x5 = (String::from_str("data"), Json::Str(b64_encode(data)));
    let ghost g5 = x5;
    let mut fields: Vec<(String, Json)> = Vec::new();
    fields.push(x1);
    fields.push(x2);
    fields.push(x3);
    fields.push(x4);
    fields.push(x5);
    proof {
        assert(fields@ =~= seq![g1, g2, g3, g4, g5]);
        lemma_jview_fields5(g1, g2, g3, g4, g5);
    }
    let j = Json::Obj(fields);
    proof {
        assert(jview(j) =~= req_to_json((RequestV::SendFileChunk { friend: *friend, file_number: *file_number, position: *position, data: data@ })));
    }
    j
}

fn req_new_conference_json() -> (j: Json)
    ensures
        j@ == req_to_json(RequestV::NewConference),
{
    let x1 = (String::from_str("request"), Json::Str(String::from_str("NewConference")));
    let ghost g1 = x1;
    let mut fields: Vec<(String, Json)> = Vec::new();
    fields.push(x1);
    proof {
        assert(fields@ =~= seq![g1]);
        lemma_jview_fields1(g1);
    }
    let j = Json::Obj(fields);
    proof {
        assert(jview(j) =~= req_to_json(RequestV::NewConference));
    }
    j
}

fn req_delete_conference_json(conference: &u32) -> (j: Json)
    ensures
        j@ == req_to_json((RequestV::DeleteConference { conference: *conference })),
{
    let x1 = (String::from_str("request"), Json::Str(String::from_str("DeleteConference")));
    let ghost g1 = x1;
    let x2 = (String::from_str("conference"), Json::UInt(*conference as u64));
    let ghost g2 = x2;
    let mut fields: Vec<(String, Json)> = Vec::new();
    fields.push(x1);
    fields.push(x2);
    proof {
        assert(fields@ =~= seq![g1, g2]);
        lemma_jview_fields2(g1, g2);
    }
    let j = Json::Obj(fields);
    proof {
        assert(jview(j) =~= req_to_json((RequestV::DeleteConference { conference: *conference })));
    }
    j
}

fn req_get_peer_list_json(conference: &u32) -> (j: Json)
    ensures
        j@ == req_to_json((RequestV::GetPeerList { conference: *conference })),
{
    let x1 = (String::from_str("request"), Json::Str(String::from_str("GetPeerList")));
    let ghost g1 = x1;
    let x2 = (String::from_str("conference"), Json::UInt(*conference as u64));
    let ghost g2 = x2;
    let mut fields: Vec<(String, Json)> = Vec::new();
    fields.push(x1);
    fields.push(x2);
    proof {
        assert(fields@ =~= seq![g1, g2]);
        lemma_jview_fields2(g1, g2);
    }
    let j = Json::Obj(fields);
    proof {
        assert(jview(j) =~= req_to_json((RequestV::GetPeerList { conference: *conference })));
    }
    j
}

fn req_conference_peer_count_json(conference: &u32) -> (j: Json)
    ensures
        j@ == req_to_json((RequestV::ConferencePeerCount { conference: *conference })),
{
    let x1 = (String::from_str("request"), Json::Str(String::from_str("ConferencePeerCount")));
    let ghost g1 = x1;
    let x2 = (String::from_str("conference"), Json::UInt(*conference as u64));
    let ghost g2 = x2;
    let mut fields: Vec<(String, Json)> = Vec::new();
    fields.push(x1);
    fields.push(x2);
    proof {
        assert(fields@ =~= seq![g1, g2]);
        lemma_jview_fields2(g1, g2);
    }
    let j = Json::Obj(fields);
    proof {
        assert(jview(j) =~= req_to_json((RequestV::ConferencePeerCount { conference: *conference })));
    }
    j
}

fn req_get_peer_name_json(conference: &u32, peer: &u32) -> (j: Json)
    ensures
        j@ == req_to_json((RequestV::GetPeerName { conference: *conference, peer: *peer })),
{
    let x1 = (String::from_str("request"), Json::Str(String::from_str("GetPeerName")));
    let ghost g1 = x1;
    let x2 = (String::from_str("conference"), Json::UInt(*conference as u64));
    let ghost g2 = x2;
    let x3 = (String::from_str("peer"), Json::UInt(*peer as u64));
    let ghost g3 = x3;
    let mut fields: Vec<(String, Json)> = Vec::new();
    fields.push(x1);
    fields.push(x2);
    fields.push(x3);
    proof {
        assert(fields@ =~= seq![g1, g2, g3]);
        lemma_jview_fields3(g1, g2, g3);
    }
    let j = Json::Obj(fields);
    proof {
        assert(jview(j) =~= req_to_json((RequestV::GetPeerName { conference: *conference, peer: *peer })));
    }
    j
}

fn req_get_peer_public_key_json(conference: &u32, peer: &u32) -> (j: Json)
    ensures
        j@ == req_to_json((RequestV::GetPeerPublicKey { conference: *conference, peer: *peer })),
{
    let x1 = (String::from_str("request"), Json::Str(String::from_str("GetPeerPublicKey")));
    let ghost g1 = x1;
    let x2 = (String::from_str("conference"), Json::UInt(*conference as u64));
    let ghost g2 = x2;
    let x3 = (String::from_str("peer"), Json::UInt(*peer as u64));
    let ghost g3 = x3;
    let mut fields: Vec<(String, Json)> = Vec::new();
    fields.push(x1);
    fields.push(x2);
    fields.push(x3);
    proof {
        assert(fields@ =~= seq![g1, g2, g3]);
        lemma_jview_fields3(g1, g2, g3);
    }
    let j = Json::Obj(fields);
    proof {
        assert(jview(j) =~= req_to_json((RequestV::GetPeerPublicKey { conference: *conference, peer: *peer })));
    }
    j
}

fn req_is_own_peer_number_json(conference: &u32, peer_number: &u32) -> (j: Json)
    ensures
        j@ == req_to_json((RequestV::IsOwnPeerNumber { conference: *conference, peer_number: *peer_number })),
{
    let x1 = (String::from_str("request"), Json::Str(String::from_str("IsOwnPeerNumber")));
    let ghost g1 = x1;
    let x2 = (String::from_str("conference"), Json::UInt(*conference as u64));
    let ghost g2 = x2;
    let x3 = (String::from_str("peer_number"), Json::UInt(*peer_number as u64));
    let ghost g3 = x3;
    let mut fields: Vec<(String, Json)> = Vec::new();
    fields.push(x1);
    fields.push(x2);
    fields.push(x3);
    proof {
        assert(fields@ =~= seq![g1, g2, g3]);
        lemma_jview_fields3(g1, g2, g3);
    }
    let j = Json::Obj(fields);
    proof {
        assert(jview(j) =~= req_to_json((RequestV::IsOwnPeerNumber { conference: *conference, peer_number: *peer_number })));
    }
    j
}

fn req_invite_to_conference_json(friend: &u32, conference: &u32) -> (j: Json)
    ensures
        j@ == req_to_json((RequestV::InviteToConference { friend: *friend, conference: *conference })),
{
    let x1 = (String::from_str("request"), Json::Str(String::from_str("InviteToConference")));
    let ghost g1 = x1;
    let x2 = (String::from_str("friend"), Json::UInt(*friend as u64));
    let ghost g2 = x2;
    let x3 = (String::from_str("conference"), Json::UInt(*conference as u64));
    let ghost g3 = x3;
    let mut fields: Vec<(String, Json)> = Vec::new();
    fields.push(x1);
    fields.push(x2);
    fields.push(x3);
    proof {
        assert(fields@ =~= seq![g1, g2, g3]);
        lemma_jview_fields3(g1, g2, g3);
    }
    let j = Json::Obj(fields);
    proof {
        assert(jview(j) =~= req_to_json((RequestV::InviteToConference { friend: *friend, conference: *conference })));
    }
    j
}

fn req_join_conference_json(friend: &u32, cookie: &Vec<u8>) -> (j: Json)
    requires
        4 * ((cookie@.len() + 2) / 3) <= usize::MAX as nat,
    ensures
        j@ == req_to_json((RequestV::JoinConference { friend: *friend, cookie: cookie@ })),
{
    let x1 = (String::from_str("request"), Json::Str(String::from_str("JoinConference")));
    let ghost g1 = x1;
    let x2 = (String::from_str("friend"), Json::UInt(*friend as u64));
    let ghost g2 = x2;
    let x3 = (String::from_str("cookie"), Json::Str(b64_encode(cookie)));
    let ghost g3 = x3;
    let mut fields: Vec<(String, Json)> = Vec::new();
    fields.push(x1);
    fields.push(x2);
    fields.push(x3);
    proof {
        assert(fields@ =~= seq![g1, g2, g3]);
        lemma_jview_fields3(g1, g2, g3);
    }
    let j = Json::Obj(fields);
    proof {
        assert(jview(j) =~= req_to_json((RequestV::JoinConference { friend: *friend, cookie: cookie@ })));
    }
    j
}

fn req_send_conference_message_json(conference: &u32, kind: &MessageType, message: &String) -> (j: Json)
    ensures
        j@ == req_to_json((RequestV::SendConferenceMessage { conference: *conference, kind: *kind, message: message@ })),
{
    let x1 = (String::from_str("request"), Json::Str(String::from_str("SendConferenceMessage")));
    let ghost g1 = x1;
    let x2 = (String::from_str("conference"), Json::UInt(*conference as u64));
    let ghost g2 = x2;
    let x3 = (String::from_str("kind"), Json::Str(message_type_to_text(kind)));
    let ghost g3 = x3;
    let x4 = (String::from_str("message"), Json::Str(message.clone()));
    let ghost g4 = x4;
    let mut fields: Vec<(String, Json)> = Vec::new();
    fields.push(x1);
    fields.push(x2);
    fields.push(x3);
    fields.push(x4);
    proof {
        assert(fields@ =~= seq![g1, g2, g3, g4]);
        lemma_jview_fields4(g1, g2, g3, g4);
    }
    let j = Json::Obj(fields);
    proof {
        assert(jview(j) =~= req_to_json((RequestV::SendConferenceMessage { conference: *conference, kind: *kind, message: message@ })));
    }
    j
}

fn req_get_conference_title_json(conference: &u32) -> (j: Json)
    ensures
        j@ == req_to_json((RequestV::GetConferenceTitle { conference: *conference })),
{
    let x1 = (String::from_str("request"), Json::Str(String::from_str("GetConferenceTitle")));
    let ghost g1 = x1;
    let x2 = (String::from_str("conference"), Json::UInt(*conference as u64));
    let ghost g2 = x2;
    let mut fields: Vec<(String, Json)> = Vec::new();
    fields.push(x1);
    fields.push(x2);
    proof {
        assert(fields@ =~= seq![g1, g2]);
        lemma_jview_fields2(g1, g2);
    }
    let j = Json::Obj(fields);
    proof {
        assert(jview(j) =~= req_to_json((RequestV::GetConferenceTitle { conference: *conference })));
    }
    j
}

fn req_set_conference_title_json(conference: &u32, title: &String) -> (j: Json)
    ensures
        j@ == req_to_json((RequestV::SetConferenceTitle { conference: *conference, title: title@ })),
{
    let x1 = (String::from_str("request"), Json::Str(String::from_str("SetConferenceTitle")));
    let ghost g1 = x1;
    let x2 = (String::from_str("conference"), Json::UInt(*conference as u64));
    let ghost g2 = x2;
    let x3 = (String::from_str("title"), Json::Str(title.clone()));
    let ghost g3 = x3;
    let mut fields: Vec<(String, Json)> = Vec::new();
    fields.push(x1);
    fields.push(x2);
    fields.push(x3);
    proof {
        assert(fields@ =~= seq![g1, g2, g3]);
        lemma_jview_fields3(g1, g2, g3);
    }
    let j = Json::Obj(fields);
    proof {
        assert(jview(j) =~= req_to_json((RequestV::SetConferenceTitle { conference: *conference, title: title@ })));
    }
    j
}

fn req_get_conference_list_json() -> (j: Json)
    ensures
        j@ == req_to_json(RequestV::GetConferenceList),
{
    let x1 = (String::from_str("request"), Json::Str(String::from_str("GetConferenceList")));
    let ghost g1 = x1;
    let mut fields: Vec<(String, Json)> = Vec::new();
    fields.push(x1);
    proof {
        assert(fields@ =~= seq![g1]);
        lemma_jview_fields1(g1);
    }
    let j = Json::Obj(fields);
    proof {
        assert(jview(j) =~= req_to_json(RequestV::GetConferenceList));
    }
    j
}

fn req_get_conference_type_json(conference: &u32) -> (j: Json)
    ensures
        j@ == req_to_json((RequestV::GetConferenceType { conference: *conference })),
{
    let x1 = (String::from_str("request"), Json::Str(String::from_str("GetConferenceType")));
    let ghost g1 = x1;
    let x2 = (String::from_str("conference"), Json::UInt(*conference as u64));
    let ghost g2 = x2;
    let mut fields: Vec<(String, Json)> = Vec::new();
    fields.push(x1);
    fields.push(x2);
    proof {
        assert(fields@ =~= seq![g1, g2]);
        lemma_jview_fields2(g1, g2);
    }
    let j = Json::Obj(fields);
    proof {
        assert(jview(j) =~= req_to_json((RequestV::GetConferenceType { conference: *conference })));
    }
    j
}

/// Builds the wire object of this request.
pub fn request_value_to_json(q: &Request) -> (j: Json)
    requires
        req_encodable(q@),
    ensures
        j@ == req_to_json(q@),
{
    match q {
        Request::Info => req_info_json(),
        Request::AddFriend { tox_id, message } => req_add_friend_json(tox_id, message),
        Request::AddFriendNorequest { tox_id } => req_add_friend_norequest_json(tox_id),
        Request::SendFriendMessage { friend, kind, message } => req_send_friend_message_json(friend, kind, message),
        Request::DeleteFriend { friend } => req_delete_friend_json(friend),
        Request::GetConnectionStatus => req_get_connection_status_json(),
        Request::GetAddress => req_get_address_json(),
        Request::GetNospam => req_get_nospam_json(),
        Request::SetNospam { nospam } => req_set_nospam_json(nospam),
        Request::GetPublicKey => req_get_public_key_json(),
        Request::SetName { name } => req_set_name_json(name),
        Request::GetName => req_get_name_json(),
        Request::SetStatusMessage { message } => req_set_status_message_json(message),
        Request::GetStatusMessage => req_get_status_message_json(),
        Request::SetStatus { status } => req_set_status_json(status),
        Request::GetStatus => req_get_status_json(),
        Request::FriendByPublicKey { public_key } => req_friend_by_public_key_json(public_key),
        Request::FriendExists { friend } => req_friend_exists_json(friend),
        Request::GetFriendPublicKey { friend } => req_get_friend_public_key_json(friend),
        Request::GetFriendLastOnline { friend } => req_get_friend_last_online_json(friend),
        Request::GetFriendName { friend } => req_get_friend_name_json(friend),
        Request::GetFriendStatusMessage { friend } => req_get_friend_status_message_json(friend),
        Request::GetFriendStatus { friend } => req_get_friend_status_json(friend),
        Request::GetFriendConnectionStatus { friend } => req_get_friend_connection_status_json(friend),
        Request::ControlFile { friend, file_number, control } => req_control_file_json(friend, file_number, control),
        Request::SeekFile { friend, file_number, position } => req_seek_file_json(friend, file_number, position),
        Request::GetFileId { friend, file_number } => req_get_file_id_json(friend, file_number),
        Request::SendFile { friend, kind, file_size, file_name } => req_send_file_json(friend, kind, file_size, file_name),
        Request::SendFileChunk { friend, file_number, position, data } => req_send_file_chunk_json(friend, file_number, position, data),
        Request::NewConference => req_new_conference_json(),
        Request::DeleteConference { conference } => req_delete_conference_json(conference),
        Request::GetPeerList { conference } => req_get_peer_list_json(conference),
        Request::ConferencePeerCount { conference } => req_conference_peer_count_json(conference),
        Request::GetPeerName { conference, peer } => req_get_peer_name_json(conference, peer),
        Request::GetPeerPublicKey { conference, peer } => req_get_peer_public_key_json(conference, peer),
        Request::IsOwnPeerNumber { conference, peer_number } => req_is_own_peer_number_json(conference, peer_number),
        Request::InviteToConference { friend, conference } => req_invite_to_conference_json(friend, conference),
        Request::JoinConference { friend, cookie } => req_join_conference_json(friend, cookie),
        Request::SendConferenceMessage { conference, kind, message } => req_send_conference_message_json(conference, kind, message),
        Request::GetConferenceTitle { conference } => req_get_conference_title_json(conference),
        Request::SetConferenceTitle { conference, title } => req_set_conference_title_json(conference, title),
        Request::GetConferenceList => req_get_conference_list_json(),
        Request::GetConferenceType { conference } => req_get_conference_type_json(conference),
    }
}

fn req_add_friend_of(fields: &Vec<(String, Json)>) -> (r: Result<Request, DecodeError>)
    ensures
        ({
            let sp = req_add_friend_from(jview_fields(fields@));
            match r {
                Ok(q) => sp == Ok::<RequestV, DecodeError>(q@),
                Err(e) => sp == Err::<RequestV, DecodeError>(e),
            }
        }),
{
    let tox_id = match jget_str(fields, "tox_id") {
        Ok(v) => v,
        Err(e) => {
            return Err(e);
        },
    };
    let message = match jget_str(fields, "message") {
        Ok(v) => v,
        Err(e) => {
            return Err(e);
        },
    };
    Ok(Request::AddFriend { tox_id, message })
}

fn req_add_friend_norequest_of(fields: &Vec<(String, Json)>) -> (r: Result<Request, DecodeError>)
    ensures
        ({
            let sp = req_add_friend_norequest_from(jview_fields(fields@));
            match r {
                Ok(q) => sp == Ok::<RequestV, DecodeError>(q@),
                Err(e) => sp == Err::<RequestV, DecodeError>(e),
            }
        }),
{
    let tox_id = match jget_str(fields, "tox_id") {
        Ok(v) => v,
        Err(e) => {
            return Err(e);
        },
    };
    Ok(Request::AddFriendNorequest { tox_id })
}

fn req_send_friend_message_of(fields: &Vec<(String, Json)>) -> (r: Result<Request, DecodeError>)
    ensures
        ({
            let sp = req_send_friend_message_from(jview_fields(fields@));
            match r {
                Ok(q) => sp == Ok::<RequestV, DecodeError>(q@),
                Err(e) => sp == Err::<RequestV, DecodeError>(e),
            }
        }),
{
    let friend = match jget_u32(fields, "friend") {
        Ok(v) => v,
        Err(e) => {
            return Err(e);
        },
    };
    let kind = match jget_message_type(fields, "kind") {
        Ok(v) => v,
        Err(e) => {
            return Err(e);
        },
    };
    let message = match jget_str(fields, "message") {
        Ok(v) => v,
        Err(e) => {
            return Err(e);
        },
    };
    Ok(Request::SendFriendMessage { friend, kind, message })
}

fn req_delete_friend_of(fields: &Vec<(String, Json)>) -> (r: Result<Request, DecodeError>)
    ensures
        ({
            let sp = req_delete_friend_from(jview_fields(fields@));
            match r {
                Ok(q) => sp == Ok::<RequestV, DecodeError>(q@),
                Err(e) => sp == Err::<RequestV, DecodeError>(e),
            }
        }),
{
    let friend = match jget_u32(fields, "friend") {
        Ok(v) => v,
        Err(e) => {
            return Err(e);
        },
    };
    Ok(Request::DeleteFriend { friend })
}

fn req_set_nospam_of(fields: &Vec<(String, Json)>) -> (r: Result<Request, DecodeError>)
    ensures
        ({
            let sp = req_set_nospam_from(jview_fields(fields@));
            match r {
                Ok(q) => sp == Ok::<RequestV, DecodeError>(q@),
                Err(e) => sp == Err::<RequestV, DecodeError>(e),
            }
        }),
{
    let nospam = match jget_str(fields, "nospam") {
        Ok(v) => v,
        Err(e) => {
            return Err(e);
        },
    };
    Ok(Request::SetNospam { nospam })
}

fn req_set_name_of(fields: &Vec<(String, Json)>) -> (r: Result<Request, DecodeError>)
    ensures
        ({
            let sp = req_set_name_from(jview_fields(fields@));
            match r {
                Ok(q) => sp == Ok::<RequestV, DecodeError>(q@),
                Err(e) => sp == Err::<RequestV, DecodeError>(e),
            }
        }),
{
    let name = match jget_str(fields, "name") {
        Ok(v) => v,
        Err(e) => {
            return Err(e);
        },
    };
    Ok(Request::SetName { name })
}

fn req_set_status_message_of(fields: &Vec<(String, Json)>) -> (r: Result<Request, DecodeError>)
    ensures
        ({
            let sp = req_set_status_message_from(jview_fields(fields@));
            match r {
                Ok(q) => sp == Ok::<RequestV, DecodeError>(q@),
                Err(e) => sp == Err::<RequestV, DecodeError>(e),
            }
        }),
{
    let message = match jget_str(fields, "message") {
        Ok(v) => v,
        Err(e) => {
            return Err(e);
        },
    };
    Ok(Request::SetStatusMessage { message })
}

fn req_set_status_of(fields: &Vec<(String, Json)>) -> (r: Result<Request, DecodeError>)
    ensures
        ({
            let sp = req_set_status_from(jview_fields(fields@));
            match r {
                Ok(q) => sp == Ok::<RequestV, DecodeError>(q@),
                Err(e) => sp == Err::<RequestV, DecodeError>(e),
            }
        }),
{
    let status = match jget_user_status(fields, "status") {
        Ok(v) => v,
        Err(e) => {
            return Err(e);
        },
    };
    Ok(Request::SetStatus { status })
}

fn req_friend_by_public_key_of(fields: &Vec<(String, Json)>) -> (r: Result<Request, DecodeError>)
    ensures
        ({
            let sp = req_friend_by_public_key_from(jview_fields(fields@));
            match r {
                Ok(q) => sp == Ok::<RequestV, DecodeError>(q@),
                Err(e) => sp == Err::<RequestV, DecodeError>(e),
            }
        }),
{
    let public_key = match jget_str(fields, "public_key") {
        Ok(v) => v,
        Err(e) => {
            return Err(e);
        },
    };
    Ok(Request::FriendByPublicKey { public_key })
}

fn req_friend_exists_of(fields: &Vec<(String, Json)>) -> (r: Result<Request, DecodeError>)
    ensures
        ({
            let sp = req_friend_exists_from(jview_fields(fields@));
            match r {
                Ok(q) => sp == Ok::<RequestV, DecodeError>(q@),
                Err(e) => sp == Err::<RequestV, DecodeError>(e),
            }
        }),
{
    let friend = match jget_u32(fields, "friend") {
        Ok(v) => v,
        Err(e) => {
            return Err(e);
        },
    };
    Ok(Request::FriendExists { friend })
}

fn req_get_friend_public_key_of(fields: &Vec<(String, Json)>) -> (r: Result<Request, DecodeError>)
    ensures
        ({
            let sp = req_get_friend_public_key_from(jview_fields(fields@));
            match r {
                Ok(q) => sp == Ok::<RequestV, DecodeError>(q@),
                Err(e) => sp == Err::<RequestV, DecodeError>(e),
            }
        }),
{
    let friend = match jget_u32(fields, "friend") {
        Ok(v) => v,
        Err(e) => {
            return Err(e);
        },
    };
    Ok(Request::GetFriendPublicKey { friend })
}

fn req_get_friend_last_online_of(fields: &Vec<(String, Json)>) -> (r: Result<Request, DecodeError>)
    ensures
        ({
            let sp = req_get_friend_last_online_from(jview_fields(fields@));
            match r {
                Ok(q) => sp == Ok::<RequestV, DecodeError>(q@),
                Err(e) => sp == Err::<RequestV, DecodeError>(e),
            }
        }),
{
    let friend = match jget_u32(fields, "friend") {
        Ok(v) => v,
        Err(e) => {
            return Err(e);
        },
    };
    Ok(Request::GetFriendLastOnline { friend })
}

fn req_get_friend_name_of(fields: &Vec<(String, Json)>) -> (r: Result<Request, DecodeError>)
    ensures
        ({
            let sp = req_get_friend_name_from(jview_fields(fields@));
            match r {
                Ok(q) => sp == Ok::<RequestV, DecodeError>(q@),
                Err(e) => sp == Err::<RequestV, DecodeError>(e),
            }
        }),
{
    let friend = match jget_u32(fields, "friend") {
        Ok(v) => v,
        Err(e) => {
            return Err(e);
        },
    };
    Ok(Request::GetFriendName { friend })
}

fn req_get_friend_status_message_of(fields: &Vec<(String, Json)>) -> (r: Result<Request, DecodeError>)
    ensures
        ({
            let sp = req_get_friend_status_message_from(jview_fields(fields@));
            match r {
                Ok(q) => sp == Ok::<RequestV, DecodeError>(q@),
                Err(e) => sp == Err::<RequestV, DecodeError>(e),
            }
        }),
{
    let friend = match jget_u32(fields, "friend") {
        Ok(v) => v,
        Err(e) => {
            return Err(e);
        },
    };
    Ok(Request::GetFriendStatusMessage { friend })
}

fn req_get_friend_status_of(fields: &Vec<(String, Json)>) -> (r: Result<Request, DecodeError>)
    ensures
        ({
            let sp = req_get_friend_status_from(jview_fields(fields@));
            match r {
                Ok(q) => sp == Ok::<RequestV, DecodeError>(q@),
                Err(e) => sp == Err::<RequestV, DecodeError>(e),
            }
        }),
{
    let friend = match jget_u32(fields, "friend") {
        Ok(v) => v,
        Err(e) => {
            return Err(e);
        },
    };
    Ok(Request::GetFriendStatus { friend })
}

fn req_get_friend_connection_status_of(fields: &Vec<(String, Json)>) -> (r: Result<Request, DecodeError>)
    ensures
        ({
            let sp = req_get_friend_connection_status_from(jview_fields(fields@));
            match r {
                Ok(q) => sp == Ok::<RequestV, DecodeError>(q@),
                Err(e) => sp == Err::<RequestV, DecodeError>(e),
            }
        }),
{
    let friend = match jget_u32(fields, "friend") {
        Ok(v) => v,
        Err(e) => {
            return Err(e);
        },
    };
    Ok(Request::GetFriendConnectionStatus { friend })
}

fn req_control_file_of(fields: &Vec<(String, Json)>) -> (r: Result<Request, DecodeError>)
    ensures
        ({
            let sp = req_control_file_from(jview_fields(fields@));
            match r {
                Ok(q) => sp == Ok::<RequestV, DecodeError>(q@),
                Err(e) => sp == Err::<RequestV, DecodeError>(e),
            }
        }),
{
    let friend = match jget_u32(fields, "friend") {
        Ok(v) => v,
        Err(e) => {
            return Err(e);
        },
    };
    let file_number = match jget_u32(fields, "file_number") {
        Ok(v) => v,
        Err(e) => {
            return Err(e);
        },
    };
    let control = match jget_file_control(fields, "control") {
        Ok(v) => v,
        Err(e) => {
            return Err(e);
        },
    };
    Ok(Request::ControlFile { friend, file_number, control })
}

fn req_seek_file_of(fields: &Vec<(String, Json)>) -> (r: Result<Request, DecodeError>)
    ensures
        ({
            let sp = req_seek_file_from(jview_fields(fields@));
            match r {
                Ok(q) => sp == Ok::<RequestV, DecodeError>(q@),
                Err(e) => sp == Err::<RequestV, DecodeError>(e),
            }
        }),
{
    let friend = match jget_u32(fields, "friend") {
        Ok(v) => v,
        Err(e) => {
            return Err(e);
        },
    };
    let file_number = match jget_u32(fields, "file_number") {
        Ok(v) => v,
        Err(e) => {
            return Err(e);
        },
    };
    let position = match jget_usize(fields, "position") {
        Ok(v) => v,
        Err(e) => {
            return Err(e);
        },
    };
    Ok(Request::SeekFile { friend, file_number, position })
}

fn req_get_file_id_of(fields: &Vec<(String, Json)>) -> (r: Result<Request, DecodeError>)
    ensures
        ({
            let sp = req_get_file_id_from(jview_fields(fields@));
            match r {
                Ok(q) => sp == Ok::<RequestV, DecodeError>(q@),
                Err(e) => sp == Err::<RequestV, DecodeError>(e),
            }
        }),
{
    let friend = match jget_u32(fields, "friend") {
        Ok(v) => v,
        Err(e) => {
            return Err(e);
        },
    };
    let file_number = match jget_u32(fields, "file_number") {
        Ok(v) => v,
        Err(e) => {
            return Err(e);
        },
    };
    Ok(Request::GetFileId { friend, file_number })
}

fn req_send_file_of(fields: &Vec<(String, Json)>) -> (r: Result<Request, DecodeError>)
    ensures
        ({
            let sp = req_send_file_from(jview_fields(fields@));
            match r {
                Ok(q) => sp == Ok::<RequestV, DecodeError>(q@),
                Err(e) => sp == Err::<RequestV, DecodeError>(e),
            }
        }),
{
    let friend = match jget_u32(fields, "friend") {
        Ok(v) => v,
        Err(e) => {
            return Err(e);
        },
    };
    let kind = match jget_file_kind(fields, "kind") {
        Ok(v) => v,
        Err(e) => {
            return Err(e);
        },
    };
    let file_size = match jget_usize(fields, "file_size") {
        Ok(v) => v,
        Err(e) => {
            return Err(e);
        },
    };
    let file_name = match jget_str(fields, "file_name") {
        Ok(v) => v,
        Err(e) => {
            return Err(e);
        },
    };
    Ok(Request::SendFile { friend, kind, file_size, file_name })
}

fn req_send_file_chunk_of(fields: &Vec<(String, Json)>) -> (r: Result<Request, DecodeError>)
    ensures
        ({
            let sp = req_send_file_chunk_from(jview_fields(fields@));
            match r {
                Ok(q) => sp == Ok::<RequestV, DecodeError>(q@),
                Err(e) => sp == Err::<RequestV, DecodeError>(e),
            }
        }),
{
    let friend = match jget_u32(fields, "friend") {
        Ok(v) => v,
        Err(e) => {
            return Err(e);
        },
    };
    let file_number = match jget_u32(fields, "file_number") {
        Ok(v) => v,
        Err(e) => {
            return Err(e);
        },
    };
    let position = match jget_usize(fields, "position") {
        Ok(v) => v,
        Err(e) => {
            return Err(e);
        },
    };
    let data = match jget_bytes(fields, "data") {
        Ok(v) => v,
        Err(e) => {
            return Err(e);
        },
    };
    Ok(Request::SendFileChunk { friend, file_number, position, data })
}

fn req_delete_conference_of(fields: &Vec<(String, Json)>) -> (r: Result<Request, DecodeError>)
    ensures
        ({
            let sp = req_delete_conference_from(jview_fields(fields@));
            match r {
                Ok(q) => sp == Ok::<RequestV, DecodeError>(q@),
                Err(e) => sp == Err::<RequestV, DecodeError>(e),
            }
        }),
{
    let conference = match jget_u32(fields, "conference") {
        Ok(v) => v,
        Err(e) => {
            return Err(e);
        },
    };
    Ok(Request::DeleteConference { conference })
}

fn req_get_peer_list_of(fields: &Vec<(String, Json)>) -> (r: Result<Request, DecodeError>)
    ensures
        ({
            let sp = req_get_peer_list_from(jview_fields(fields@));
            match r {
                Ok(q) => sp == Ok::<RequestV, DecodeError>(q@),
                Err(e) => sp == Err::<RequestV, DecodeError>(e),
            }
        }),
{
    let conference = match jget_u32(fields, "conference") {
        Ok(v) => v,
        Err(e) => {
            return Err(e);
        },
    };
    Ok(Request::GetPeerList { conference })
}

fn req_conference_peer_count_of(fields: &Vec<(String, Json)>) -> (r: Result<Request, DecodeError>)
    ensures
        ({
            let sp = req_conference_peer_count_from(jview_fields(fields@));
            match r {
                Ok(q) => sp == Ok::<RequestV, DecodeError>(q@),
                Err(e) => sp == Err::<RequestV, DecodeError>(e),
            }
        }),
{
    let conference = match jget_u32(fields, "conference") {
        Ok(v) => v,
        Err(e) => {
            return Err(e);
        },
    };
    Ok(Request::ConferencePeerCount { conference })
}

fn req_get_peer_name_of(fields: &Vec<(String, Json)>) -> (r: Result<Request, DecodeError>)
    ensures
        ({
            let sp = req_get_peer_name_from(jview_fields(fields@));
            match r {
                Ok(q) => sp == Ok::<RequestV, DecodeError>(q@),
                Err(e) => sp == Err::<RequestV, DecodeError>(e),
            }
        }),
{
    let conference = match jget_u32(fields, "conference") {
        Ok(v) => v,
        Err(e) => {
            return Err(e);
        },
    };
    let peer = match jget_u32(fields, "peer") {
        Ok(v) => v,
        Err(e) => {
            return Err(e);
        },
    };
    Ok(Request::GetPeerName { conference, peer })
}

fn req_get_peer_public_key_of(fields: &Vec<(String, Json)>) -> (r: Result<Request, DecodeError>)
    ensures
        ({
            let sp = req_get_peer_public_key_from(jview_fields(fields@));
            match r {
                Ok(q) => sp == Ok::<RequestV, DecodeError>(q@),
                Err(e) => sp == Err::<RequestV, DecodeError>(e),
            }
        }),
{
    let conference = match jget_u32(fields, "conference") {
        Ok(v) => v,
        Err(e) => {
            return Err(e);
        },
    };
    let peer = match jget_u32(fields, "peer") {
        Ok(v) => v,
        Err(e) => {
            return Err(e);
        },
    };
    Ok(Request::GetPeerPublicKey { conference, peer })
}

fn req_is_own_peer_number_of(fields: &Vec<(String, Json)>) -> (r: Result<Request, DecodeError>)
    ensures
        ({
            let sp = req_is_own_peer_number_from(jview_fields(fields@));
            match r {
                Ok(q) => sp == Ok::<RequestV, DecodeError>(q@),
                Err(e) => sp == Err::<RequestV, DecodeError>(e),
            }
        }),
{
    let conference = match jget_u32(fields, "conference") {
        Ok(v) => v,
        Err(e) => {
            return Err(e);
        },
    };
    let peer_number = match jget_u32(fields, "peer_number") {
        Ok(v) => v,
        Err(e) => {
            return Err(e);
        },
    };
    Ok(Request::IsOwnPeerNumber { conference, peer_number })
}

fn req_invite_to_conference_of(fields: &Vec<(String, Json)>) -> (r: Result<Request, DecodeError>)
    ensures
        ({
            let sp = req_invite_to_conference_from(jview_fields(fields@));
            match r {
                Ok(q) => sp == Ok::<RequestV, DecodeError>(q@),
                Err(e) => sp == Err::<RequestV, DecodeError>(e),
            }
        }),
{
    let friend = match jget_u32(fields, "friend") {
        Ok(v) => v,
        Err(e) => {
            return Err(e);
        },
    };
    let conference = match jget_u32(fields, "conference") {
        Ok(v) => v,
        Err(e) => {
            return Err(e);
        },
    };
    Ok(Request::InviteToConference { friend, conference })
}

fn req_join_conference_of(fields: &Vec<(String, Json)>) -> (r: Result<Request, DecodeError>)
    ensures
        ({
            let sp = req_join_conference_from(jview_fields(fields@));
            match r {
                Ok(q) => sp == Ok::<RequestV, DecodeError>(q@),
                Err(e) => sp == Err::<RequestV, DecodeError>(e),
            }
        }),
{
    let friend = match jget_u32(fields, "friend") {
        Ok(v) => v,
        Err(e) => {
            return Err(e);
        },
    };
    let cookie = match jget_bytes(fields, "cookie") {
        Ok(v) => v,
        Err(e) => {
            return Err(e);
        },
    };
    Ok(Request::JoinConference { friend, cookie })
}

fn req_send_conference_message_of(fields: &Vec<(String, Json)>) -> (r: Result<Request, DecodeError>)
    ensures
        ({
            let sp = req_send_conference_message_from(jview_fields(fields@));
            match r {
                Ok(q) => sp == Ok::<RequestV, DecodeError>(q@),
                Err(e) => sp == Err::<RequestV, DecodeError>(e),
            }
        }),
{
    let conference = match jget_u32(fields, "conference") {
        Ok(v) => v,
        Err(e) => {
            return Err(e);
        },
    };
    let kind = match jget_message_type(fields, "kind") {
        Ok(v) => v,
        Err(e) => {
            return Err(e);
        },
    };
    let message = match jget_str(fields, "message") {
        Ok(v) => v,
        Err(e) => {
            return Err(e);
        },
    };
    Ok(Request::SendConferenceMessage { conference, kind, message })
}

fn req_get_conference_title_of(fields: &Vec<(String, Json)>) -> (r: Result<Request, DecodeError>)
    ensures
        ({
            let sp = req_get_conference_title_from(jview_fields(fields@));
            match r {
                Ok(q) => sp == Ok::<RequestV, DecodeError>(q@),
                Err(e) => sp == Err::<RequestV, DecodeError>(e),
            }
        }),
{
    let conference = match jget_u32(fields, "conference") {
        Ok(v) => v,
        Err(e) => {
            return Err(e);
        },
    };
    Ok(Request::GetConferenceTitle { conference })
}

fn req_set_conference_title_of(fields: &Vec<(String, Json)>) -> (r: Result<Request, DecodeError>)
    ensures
        ({
            let sp = req_set_conference_title_from(jview_fields(fields@));
            match r {
                Ok(q) => sp == Ok::<RequestV, DecodeError>(q@),
                Err(e) => sp == Err::<RequestV, DecodeError>(e),
            }
        }),
{
    let conference = match jget_u32(fields, "conference") {
        Ok(v) => v,
        Err(e) => {
            return Err(e);
        },
    };
    let title = match jget_str(fields, "title") {
        Ok(v) => v,
        Err(e) => {
            return Err(e);
        },
    };
    Ok(Request::SetConferenceTitle { conference, title })
}

fn req_get_conference_type_of(fields: &Vec<(String, Json)>) -> (r: Result<Request, DecodeError>)
    ensures
        ({
            let sp = req_get_conference_type_from(jview_fields(fields@));
            match r {
                Ok(q) => sp == Ok::<RequestV, DecodeError>(q@),
                Err(e) => sp == Err::<RequestV, DecodeError>(e),
            }
        }),
{
    let conference = match jget_u32(fields, "conference") {
        Ok(v) => v,
        Err(e) => {
            return Err(e);
        },
    };
    Ok(Request::GetConferenceType { conference })
}

#[verifier::rlimit(100)]
fn req_of_tag4(tag: &String, fields: &Vec<(String, Json)>) -> (r: Result<Request, DecodeError>)
    ensures
        ({
            let sp = req_dispatch4(tag@, jview_fields(fields@));
            match r {
                Ok(q) => sp == Ok::<RequestV, DecodeError>(q@),
                Err(e) => sp == Err::<RequestV, DecodeError>(e),
            }
        }),
{
    if str_eq(tag.as_str(), "InviteToConference") {
        req_invite_to_conference_of(fields)
    } else if str_eq(tag.as_str(), "JoinConference") {
        req_join_conference_of(fields)
    } else if str_eq(tag.as_str(), "SendConferenceMessage") {
        req_send_conference_message_of(fields)
    } else if str_eq(tag.as_str(), "GetConferenceTitle") {
        req_get_conference_title_of(fields)
    } else if str_eq(tag.as_str(), "SetConferenceTitle") {
        req_set_conference_title_of(fields)
    } else if str_eq(tag.as_str(), "GetConferenceList") {
        Ok(Request::GetConferenceList)
    } else if str_eq(tag.as_str(), "GetConferenceType") {
        req_get_conference_type_of(fields)
    } else {
        Err(DecodeError::UnknownVariant)
    }
}

#[verifier::rlimit(100)]
fn req_of_tag3(tag: &String, fields: &Vec<(String, Json)>) -> (r: Result<Request, DecodeError>)
    ensures
        ({
            let sp = req_dispatch3(tag@, jview_fields(fields@));
            match r {
                Ok(q) => sp == Ok::<RequestV, DecodeError>(q@),
                Err(e) => sp == Err::<RequestV, DecodeError>(e),
            }
        }),
{
    if str_eq(tag.as_str(), "ControlFile") {
        req_control_file_of(fields)
    } else if str_eq(tag.as_str(), "SeekFile") {
        req_seek_file_of(fields)
    } else if str_eq(tag.as_str(), "GetFileId") {
        req_get_file_id_of(fields)
    } else if str_eq(tag.as_str(), "SendFile") {
        req_send_file_of(fields)
    } else if str_eq(tag.as_str(), "SendFileChunk") {
        req_send_file_chunk_of(fields)
    } else if str_eq(tag.as_str(), "NewConference") {
        Ok(Request::NewConference)
    } else if str_eq(tag.as_str(), "DeleteConference") {
        req_delete_conference_of(fields)
    } else if str_eq(tag.as_str(), "GetPeerList") {
        req_get_peer_list_of(fields)
    } else if str_eq(tag.as_str(), "ConferencePeerCount") {
        req_conference_peer_count_of(fields)
    } else if str_eq(tag.as_str(), "GetPeerName") {
        req_get_peer_name_of(fields)
    } else if str_eq(tag.as_str(), "GetPeerPublicKey") {
        req_get_peer_public_key_of(fields)
    } else if str_eq(tag.as_str(), "IsOwnPeerNumber") {
        req_is_own_peer_number_of(fields)
    } else {
        req_of_tag4(tag, fields)
    }
}

#[verifier::rlimit(100)]
fn req_of_tag2(tag: &String, fields: &Vec<(String, Json)>) -> (r: Result<Request, DecodeError>)
    ensures
        ({
            let sp = req_dispatch2(tag@, jview_fields(fields@));
            match r {
                Ok(q) => sp == Ok::<RequestV, DecodeError>(q@),
                Err(e) => sp == Err::<RequestV, DecodeError>(e),
            }
        }),
{
    if str_eq(tag.as_str(), "SetStatusMessage") {
        req_set_status_message_of(fields)
    } else if str_eq(tag.as_str(), "GetStatusMessage") {
        Ok(Request::GetStatusMessage)
    } else if str_eq(tag.as_str(), "SetStatus") {
        req_set_status_of(fields)
    } else if str_eq(tag.as_str(), "GetStatus") {
        Ok(Request::GetStatus)
    } else if str_eq(tag.as_str(), "FriendByPublicKey") {
        req_friend_by_public_key_of(fields)
    } else if str_eq(tag.as_str(), "FriendExists") {
        req_friend_exists_of(fields)
    } else if str_eq(tag.as_str(), "GetFriendPublicKey") {
        req_get_friend_public_key_of(fields)
    } else if str_eq(tag.as_str(), "GetFriendLastOnline") {
        req_get_friend_last_online_of(fields)
    } else if str_eq(tag.as_str(), "GetFriendName") {
        req_get_friend_name_of(fields)
    } else if str_eq(tag.as_str(), "GetFriendStatusMessage") {
        req_get_friend_status_message_of(fields)
    } else if str_eq(tag.as_str(), "GetFriendStatus") {
        req_get_friend_status_of(fields)
    } else if str_eq(tag.as_str(), "GetFriendConnectionStatus") {
        req_get_friend_connection_status_of(fields)
    } else {
        req_of_tag3(tag, fields)
    }
}

#[verifier::rlimit(100)]
fn req_of_tag(tag: &String, fields: &Vec<(String, Json)>) -> (r: Result<Request, DecodeError>)
    ensures
        ({
            let sp = req_dispatch(tag@, jview_fields(fields@));
            match r {
                Ok(q) => sp == Ok::<RequestV, DecodeError>(q@),
                Err(e) => sp == Err::<RequestV, DecodeError>(e),
            }
        }),
{
    if str_eq(tag.as_str(), "Info") {
        Ok(Request::Info)
    } else if str_eq(tag.as_str(), "AddFriend") {
        req_add_friend_of(fields)
    } else if str_eq(tag.as_str(), "AddFriendNorequest") {
        req_add_friend_norequest_of(fields)
    } else if str_eq(tag.as_str(), "SendFriendMessage") {
        req_send_friend_message_of(fields)
    } else if str_eq(tag.as_str(), "DeleteFriend") {
        req_delete_friend_of(fields)
    } else if str_eq(tag.as_str(), "GetConnectionStatus") {
        Ok(Request::GetConnectionStatus)
    } else if str_eq(tag.as_str(), "GetAddress") {
        Ok(Request::GetAddress)
    } else if str_eq(tag.as_str(), "GetNospam") {
        Ok(Request::GetNospam)
    } else if str_eq(tag.as_str(), "SetNospam") {
        req_set_nospam_of(fields)
    } else if str_eq(tag.as_str(), "GetPublicKey") {
        Ok(Request::GetPublicKey)
    } else if str_eq(tag.as_str(), "SetName") {
        req_set_name_of(fields)
    } else if str_eq(tag.as_str(), "GetName") {
        Ok(Request::GetName)
    } else {
        req_of_tag2(tag, fields)
    }
}

/// Reads one request out of a parsed JSON value.
pub fn request_value_of_json(j: &Json) -> (r: Result<Request, DecodeError>)
    ensures
        ({
            let sp = req_from_json(j@);
            match r {
                Ok(q) => sp == Ok::<RequestV, DecodeError>(q@),
                Err(e) => sp == Err::<RequestV, DecodeError>(e),
            }
        }),
{
    match j {
        Json::Obj(fields) => match obj_get(fields, "request") {
            Some(tj) => match tj {
                Json::Str(tag) => req_of_tag(tag, fields),
                _ => Err(DecodeError::MalformedField),
            },
            None => Err(DecodeError::MissingField),
        },
        _ => Err(DecodeError::MalformedField),
    }
}

proof fn lemma_req_info_rt()
    ensures
        req_from_json(req_to_json(RequestV::Info)) == Ok::<RequestV, DecodeError>(RequestV::Info),
        jdepth(req_to_json(RequestV::Info)) <= 6,
{
    reveal_with_fuel(jlookup, 10);
    let v = RequestV::Info;
    let m1 = ("request"@, JsonV::Str("Info"@));
    let ms = seq![m1];
    assert(req_to_json(v) == JsonV::Obj(ms));
    assert(ms.drop_first() =~= seq![]);
    reveal_strlit("request");
    assert("request"@.len() == 7);
    reveal_strlit("Info");
    assert("Info"@.len() == 4);
    assert(jlookup(ms, "request"@) == Some(JsonV::Str("Info"@)));
    assert(req_from_json(JsonV::Obj(ms)) == req_dispatch("Info"@, ms));
    assert(req_dispatch("Info"@, ms) == Ok::<RequestV, DecodeError>(v));
    reveal_with_fuel(jdepth_fields, 10);
    assert(jdepth(m1.1) == 0);
    assert(jdepth_fields(seq![m1]) <= 5);
    assert(jdepth(JsonV::Obj(ms)) <= 6);
}

proof fn lemma_req_add_friend_rt(tox_id: Seq<char>, message: Seq<char>)
    ensures
        req_from_json(req_to_json((RequestV::AddFriend { tox_id, message }))) == Ok::<RequestV, DecodeError>((RequestV::AddFriend { tox_id, message })),
        jdepth(req_to_json((RequestV::AddFriend { tox_id, message }))) <= 6,
{
    reveal_with_fuel(jlookup, 10);
    let v = (RequestV::AddFriend { tox_id, message });
    let m1 = ("request"@, JsonV::Str("AddFriend"@));
    let m2 = ("tox_id"@, JsonV::Str(tox_id));
    let m3 = ("message"@, JsonV::Str(message));
    let ms = seq![m1, m2, m3];
    assert(req_to_json(v) == JsonV::Obj(ms));
    assert(ms.drop_first() =~= seq![m2, m3]);
    assert(seq![m2, m3].drop_first() =~= seq![m3]);
    assert(seq![m3].drop_first() =~= Seq::<(Seq<char>, JsonV)>::empty());
    reveal_strlit("request");
    assert("request"@.len() == 7);
    reveal_strlit("AddFriend");
    assert("AddFriend"@.len() == 9);
    reveal_strlit("Info");
    assert("Info"@.len() == 4);
    assert("AddFriend"@ != "Info"@);
    reveal_strlit("tox_id");
    assert("tox_id"@.len() == 6);
    assert("tox_id"@ != "request"@);
    reveal_strlit("message");
    assert("message"@.len() == 7);
    assert("message"@[0] == 'm');
    assert("request"@[0] == 'r');
    assert("message"@ != "request"@);
    assert("message"@ != "tox_id"@);
    assert(jlookup(ms, "request"@) == Some(JsonV::Str("AddFriend"@)));
    assert(req_from_json(JsonV::Obj(ms)) == req_dispatch("AddFriend"@, ms));
    assert(req_dispatch("AddFriend"@, ms) == req_add_friend_from(ms));
    assert(jlookup(ms, "tox_id"@) == Some(m2.1));
    assert(sget_str(ms, "tox_id"@) == Ok::<Seq<char>, DecodeError>(tox_id));
    assert(jlookup(ms, "message"@) == Some(m3.1));
    assert(sget_str(ms, "message"@) == Ok::<Seq<char>, DecodeError>(message));
    assert(req_add_friend_from(ms) == Ok::<RequestV, DecodeError>(v));
    reveal_with_fuel(jdepth_fields, 10);
    assert(jdepth(m1.1) == 0);
    assert(jdepth(m2.1) == 0);
    assert(jdepth(m3.1) == 0);
    assert(jdepth_fields(seq![m3]) <= 5);
    assert(jdepth_fields(seq![m2, m3]) <= 5);
    assert(jdepth_fields(seq![m1, m2, m3]) <= 5);
    assert(jdepth(JsonV::Obj(ms)) <= 6);
}

proof fn lemma_req_add_friend_norequest_rt(tox_id: Seq<char>)
    ensures
        req_from_json(req_to_json((RequestV::AddFriendNorequest { tox_id }))) == Ok::<RequestV, DecodeError>((RequestV::AddFriendNorequest { tox_id })),
        jdepth(req_to_json((RequestV::AddFriendNorequest { tox_id }))) <= 6,
{
    reveal_with_fuel(jlookup, 10);
    let v = (RequestV::AddFriendNorequest { tox_id });
    let m1 = ("request"@, JsonV::Str("AddFriendNorequest"@));
    let m2 = ("tox_id"@, JsonV::Str(tox_id));
    let ms = seq![m1, m2];
    assert(req_to_json(v) == JsonV::Obj(ms));
    assert(ms.drop_first() =~= seq![m2]);
    assert(seq![m2].drop_first() =~= Seq::<(Seq<char>, JsonV)>::empty());
    reveal_strlit("request");
    assert("request"@.len() == 7);
    reveal_strlit("AddFriendNorequest");
    assert("AddFriendNorequest"@.len() == 18);
    reveal_strlit("Info");
    assert("Info"@.len() == 4);
    assert("AddFriendNorequest"@ != "Info"@);
    reveal_strlit("AddFriend");
    assert("AddFriend"@.len() == 9);
    assert("AddFriendNorequest"@ != "AddFriend"@);
    reveal_strlit("tox_id");
    assert("tox_id"@.len() == 6);
    assert("tox_id"@ != "request"@);
    assert(jlookup(ms, "request"@) == Some(JsonV::Str("AddFriendNorequest"@)));
    assert(req_from_json(JsonV::Obj(ms)) == req_dispatch("AddFriendNorequest"@, ms));
    assert(req_dispatch("AddFriendNorequest"@, ms) == req_add_friend_norequest_from(ms));
    assert(jlookup(ms, "tox_id"@) == Some(m2.1));
    assert(sget_str(ms, "tox_id"@) == Ok::<Seq<char>, DecodeError>(tox_id));
    assert(req_add_friend_norequest_from(ms) == Ok::<RequestV, DecodeError>(v));
    reveal_with_fuel(jdepth_fields, 10);
    assert(jdepth(m1.1) == 0);
    assert(jdepth(m2.1) == 0);
    assert(jdepth_fields(seq![m2]) <= 5);
    assert(jdepth_fields(seq![m1, m2]) <= 5);
    assert(jdepth(JsonV::Obj(ms)) <= 6);
}

proof fn lemma_req_send_friend_message_rt(friend: u32, kind: MessageType, message: Seq<char>)
    ensures
        req_from_json(req_to_json((RequestV::SendFriendMessage { friend, kind, message }))) == Ok::<RequestV, DecodeError>((RequestV::SendFriendMessage { friend, kind, message })),
        jdepth(req_to_json((RequestV::SendFriendMessage { friend, kind, message }))) <= 6,
{
    reveal_with_fuel(jlookup, 10);
    let v = (RequestV::SendFriendMessage { friend, kind, message });
    let m1 = ("request"@, JsonV::Str("SendFriendMessage"@));
    let m2 = ("friend"@, JsonV::UInt(friend as u64));
    let m3 = ("kind"@, JsonV::Str(message_type_str(kind)));
    let m4 = ("message"@, JsonV::Str(message));
    let ms = seq![m1, m2, m3, m4];
    assert(req_to_json(v) == JsonV::Obj(ms));
    assert(ms.drop_first() =~= seq![m2, m3, m4]);
    assert(seq![m2, m3, m4].drop_first() =~= seq![m3, m4]);
    assert(seq![m3, m4].drop_first() =~= seq![m4]);
    assert(seq![m4].drop_first() =~= Seq::<(Seq<char>, JsonV)>::empty());
    reveal_strlit("request");
    assert("request"@.len() == 7);
    reveal_strlit("SendFriendMessage");
    assert("SendFriendMessage"@.len() == 17);
    reveal_strlit("Info");
    assert("Info"@.len() == 4);
    assert("SendFriendMessage"@ != "Info"@);
    reveal_strlit("AddFriend");
    assert("AddFriend"@.len() == 9);
    assert("SendFriendMessage"@ != "AddFriend"@);
    reveal_strlit("AddFriendNorequest");
    assert("AddFriendNorequest"@.len() == 18);
    assert("SendFriendMessage"@ != "AddFriendNorequest"@);
    reveal_strlit("friend");
    assert("friend"@.len() == 6);
    assert("friend"@ != "request"@);
    reveal_strlit("kind");
    assert("kind"@.len() == 4);
    assert("kind"@ != "request"@);
    assert("kind"@ != "friend"@);
    reveal_strlit("message");
    assert("message"@.len() == 7);
    assert("message"@[0] == 'm');
    assert("request"@[0] == 'r');
    assert("message"@ != "request"@);
    assert("message"@ != "friend"@);
    assert("message"@ != "kind"@);
    assert(jlookup(ms, "request"@) == Some(JsonV::Str("SendFriendMessage"@)));
    assert(req_from_json(JsonV::Obj(ms)) == req_dispatch("SendFriendMessage"@, ms));
    assert(req_dispatch("SendFriendMessage"@, ms) == req_send_friend_message_from(ms));
    assert(jlookup(ms, "friend"@) == Some(m2.1));
    assert(sget_u32(ms, "friend"@) == Ok::<u32, DecodeError>(friend));
    lemma_message_type_rt(kind);
    assert(jlookup(ms, "kind"@) == Some(m3.1));
    assert(sget_message_type(ms, "kind"@) == Ok::<MessageType, DecodeError>(kind));
    assert(jlookup(ms, "message"@) == Some(m4.1));
    assert(sget_str(ms, "message"@) == Ok::<Seq<char>, DecodeError>(message));
    assert(req_send_friend_message_from(ms) == Ok::<RequestV, DecodeError>(v));
    reveal_with_fuel(jdepth_fields, 10);
    assert(jdepth(m1.1) == 0);
    assert(jdepth(m2.1) == 0);
    assert(jdepth(m3.1) == 0);
    assert(jdepth(m4.1) == 0);
    assert(jdepth_fields(seq![m4]) <= 5);
    assert(jdepth_fields(seq![m3, m4]) <= 5);
    assert(jdepth_fields(seq![m2, m3, m4]) <= 5);
    assert(jdepth_fields(seq![m1, m2, m3, m4]) <= 5);
    assert(jdepth(JsonV::Obj(ms)) <= 6);
}

proof fn lemma_req_delete_friend_rt(friend: u32)
    ensures
        req_from_json(req_to_json((RequestV::DeleteFriend { friend }))) == Ok::<RequestV, DecodeError>((RequestV::DeleteFriend { friend })),
        jdepth(req_to_json((RequestV::DeleteFriend { friend }))) <= 6,
{
    reveal_with_fuel(jlookup, 10);
    let v = (RequestV::DeleteFriend { friend });
    let m1 = ("request"@, JsonV::Str("DeleteFriend"@));
    let m2 = ("friend"@, JsonV::UInt(friend as u64));
    let ms = seq![m1, m2];
    assert(req_to_json(v) == JsonV::Obj(ms));
    assert(ms.drop_first() =~= seq![m2]);
    assert(seq![m2].drop_first() =~= Seq::<(Seq<char>, JsonV)>::empty());
    reveal_strlit("request");
    assert("request"@.len() == 7);
    reveal_strlit("DeleteFriend");
    assert("DeleteFriend"@.len() == 12);
    reveal_strlit("Info");
    assert("Info"@.len() == 4);
    assert("DeleteFriend"@ != "Info"@);
    reveal_strlit("AddFriend");
    assert("AddFriend"@.len() == 9);
    assert("DeleteFriend"@ != "AddFriend"@);
    reveal_strlit("AddFriendNorequest");
    assert("AddFriendNorequest"@.len() == 18);
    assert("DeleteFriend"@ != "AddFriendNorequest"@);
    reveal_strlit("SendFriendMessage");
    assert("SendFriendMessage"@.len() == 17);
    assert("DeleteFriend"@ != "SendFriendMessage"@);
    reveal_strlit("friend");
    assert("friend"@.len() == 6);
    assert("friend"@ != "request"@);
    assert(jlookup(ms, "request"@) == Some(JsonV::Str("DeleteFriend"@)));
    assert(req_from_json(JsonV::Obj(ms)) == req_dispatch("DeleteFriend"@, ms));
    assert(req_dispatch("DeleteFriend"@, ms) == req_delete_friend_from(ms));
    assert(jlookup(ms, "friend"@) == Some(m2.1));
    assert(sget_u32(ms, "friend"@) == Ok::<u32, DecodeError>(friend));
    assert(req_delete_friend_from(ms) == Ok::<RequestV, DecodeError>(v));
    reveal_with_fuel(jdepth_fields, 10);
    assert(jdepth(m1.1) == 0);
    assert(jdepth(m2.1) == 0);
    assert(jdepth_fields(seq![m2]) <= 5);
    assert(jdepth_fields(seq![m1, m2]) <= 5);
    assert(jdepth(JsonV::Obj(ms)) <= 6);
}

proof fn lemma_req_get_connection_status_rt()
    ensures
        req_from_json(req_to_json(RequestV::GetConnectionStatus)) == Ok::<RequestV, DecodeError>(RequestV::GetConnectionStatus),
        jdepth(req_to_json(RequestV::GetConnectionStatus)) <= 6,
{
    reveal_with_fuel(jlookup, 10);
    let v = RequestV::GetConnectionStatus;
    let m1 = ("request"@, JsonV::Str("GetConnectionStatus"@));
    let ms = seq![m1];
    assert(req_to_json(v) == JsonV::Obj(ms));
    assert(ms.drop_first() =~= seq![]);
    reveal_strlit("request");
    assert("request"@.len() == 7);
    reveal_strlit("GetConnectionStatus");
    assert("GetConnectionStatus"@.len() == 19);
    reveal_strlit("Info");
    assert("Info"@.len() == 4);
    assert("GetConnectionStatus"@ != "Info"@);
    reveal_strlit("AddFriend");
    assert("AddFriend"@.len() == 9);
    assert("GetConnectionStatus"@ != "AddFriend"@);
    reveal_strlit("AddFriendNorequest");
    assert("AddFriendNorequest"@.len() == 18);
    assert("GetConnectionStatus"@ != "AddFriendNorequest"@);
    reveal_strlit("SendFriendMessage");
    assert("SendFriendMessage"@.len() == 17);
    assert("GetConnectionStatus"@ != "SendFriendMessage"@);
    reveal_strlit("DeleteFriend");
    assert("DeleteFriend"@.len() == 12);
    assert("GetConnectionStatus"@ != "DeleteFriend"@);
    assert(jlookup(ms, "request"@) == Some(JsonV::Str("GetConnectionStatus"@)));
    assert(req_from_json(JsonV::Obj(ms)) == req_dispatch("GetConnectionStatus"@, ms));
    assert(req_dispatch("GetConnectionStatus"@, ms) == Ok::<RequestV, DecodeError>(v));
    reveal_with_fuel(jdepth_fields, 10);
    assert(jdepth(m1.1) == 0);
    assert(jdepth_fields(seq![m1]) <= 5);
    assert(jdepth(JsonV::Obj(ms)) <= 6);
}

proof fn lemma_req_get_address_rt()
    ensures
        req_from_json(req_to_json(RequestV::GetAddress)) == Ok::<RequestV, DecodeError>(RequestV::GetAddress),
        jdepth(req_to_json(RequestV::GetAddress)) <= 6,
{
    reveal_with_fuel(jlookup, 10);
    let v = RequestV::GetAddress;
    let m1 = ("request"@, JsonV::Str("GetAddress"@));
    let ms = seq![m1];
    assert(req_to_json(v) == JsonV::Obj(ms));
    assert(ms.drop_first() =~= seq![]);
    reveal_strlit("request");
    assert("request"@.len() == 7);
    reveal_strlit("GetAddress");
    assert("GetAddress"@.len() == 10);
    reveal_strlit("Info");
    assert("Info"@.len() == 4);
    assert("GetAddress"@ != "Info"@);
    reveal_strlit("AddFriend");
    assert("AddFriend"@.len() == 9);
    assert("GetAddress"@ != "AddFriend"@);
    reveal_strlit("AddFriendNorequest");
    assert("AddFriendNorequest"@.len() == 18);
    assert("GetAddress"@ != "AddFriendNorequest"@);
    reveal_strlit("SendFriendMessage");
    assert("SendFriendMessage"@.len() == 17);
    assert("GetAddress"@ != "SendFriendMessage"@);
    reveal_strlit("DeleteFriend");
    assert("DeleteFriend"@.len() == 12);
    assert("GetAddress"@ != "DeleteFriend"@);
    reveal_strlit("GetConnectionStatus");
    assert("GetConnectionStatus"@.len() == 19);
    assert("GetAddress"@ != "GetConnectionStatus"@);
    assert(jlookup(ms, "request"@) == Some(JsonV::Str("GetAddress"@)));
    assert(req_from_json(JsonV::Obj(ms)) == req_dispatch("GetAddress"@, ms));
    assert(req_dispatch("GetAddress"@, ms) == Ok::<RequestV, DecodeError>(v));
    reveal_with_fuel(jdepth_fields, 10);
    assert(jdepth(m1.1) == 0);
    assert(jdepth_fields(seq![m1]) <= 5);
    assert(jdepth(JsonV::Obj(ms)) <= 6);
}

proof fn lemma_req_get_nospam_rt()
    ensures
        req_from_json(req_to_json(RequestV::GetNospam)) == Ok::<RequestV, DecodeError>(RequestV::GetNospam),
        jdepth(req_to_json(RequestV::GetNospam)) <= 6,
{
    reveal_with_fuel(jlookup, 10);
    let v = RequestV::GetNospam;
    let m1 = ("request"@, JsonV::Str("GetNospam"@));
    let ms = seq![m1];
    assert(req_to_json(v) == JsonV::Obj(ms));
    assert(ms.drop_first() =~= seq![]);
    reveal_strlit("request");
    assert("request"@.len() == 7);
    reveal_strlit("GetNospam");
    assert("GetNospam"@.len() == 9);
    reveal_strlit("Info");
    assert("Info"@.len() == 4);
    assert("GetNospam"@ != "Info"@);
    reveal_strlit("AddFriend");
    assert("AddFriend"@.len() == 9);
    assert("GetNospam"@[0] == 'G');
    assert("AddFriend"@[0] == 'A');
    assert("GetNospam"@ != "AddFriend"@);
    reveal_strlit("AddFriendNorequest");
    assert("AddFriendNorequest"@.len() == 18);
    assert("GetNospam"@ != "AddFriendNorequest"@);
    reveal_strlit("SendFriendMessage");
    assert("SendFriendMessage"@.len() == 17);
    assert("GetNospam"@ != "SendFriendMessage"@);
    reveal_strlit("DeleteFriend");
    assert("DeleteFriend"@.len() == 12);
    assert("GetNospam"@ != "DeleteFriend"@);
    reveal_strlit("GetConnectionStatus");
    assert("GetConnectionStatus"@.len() == 19);
    assert("GetNospam"@ != "GetConnectionStatus"@);
    reveal_strlit("GetAddress");
    assert("GetAddress"@.len() == 10);
    assert("GetNospam"@ != "GetAddress"@);
    assert(jlookup(ms, "request"@) == Some(JsonV::Str("GetNospam"@)));
    assert(req_from_json(JsonV::Obj(ms)) == req_dispatch("GetNospam"@, ms));
    assert(req_dispatch("GetNospam"@, ms) == Ok::<RequestV, DecodeError>(v));
    reveal_with_fuel(jdepth_fields, 10);
    assert(jdepth(m1.1) == 0);
    assert(jdepth_fields(seq![m1]) <= 5);
    assert(jdepth(JsonV::Obj(ms)) <= 6);
}

proof fn lemma_req_set_nospam_rt(nospam: Seq<char>)
    ensures
        req_from_json(req_to_json((RequestV::SetNospam { nospam }))) == Ok::<RequestV, DecodeError>((RequestV::SetNospam { nospam })),
        jdepth(req_to_json((RequestV::SetNospam { nospam }))) <= 6,
{
    reveal_with_fuel(jlookup, 10);
    let v = (RequestV::SetNospam { nospam });
    let m1 = ("request"@, JsonV::Str("SetNospam"@));
    let m2 = ("nospam"@, JsonV::Str(nospam));
    let ms = seq![m1, m2];
    assert(req_to_json(v) == JsonV::Obj(ms));
    assert(ms.drop_first() =~= seq![m2]);
    assert(seq![m2].drop_first() =~= Seq::<(Seq<char>, JsonV)>::empty());
    reveal_strlit("request");
    assert("request"@.len() == 7);
    reveal_strlit("SetNospam");
    assert("SetNospam"@.len() == 9);
    reveal_strlit("Info");
    assert("Info"@.len() == 4);
    assert("SetNospam"@ != "Info"@);
    reveal_strlit("AddFriend");
    assert("AddFriend"@.len() == 9);
    assert("SetNospam"@[0] == 'S');
    assert("AddFriend"@[0] == 'A');
    assert("SetNospam"@ != "AddFriend"@);
    reveal_strlit("AddFriendNorequest");
    assert("AddFriendNorequest"@.len() == 18);
    assert("SetNospam"@ != "AddFriendNorequest"@);
    reveal_strlit("SendFriendMessage");
    assert("SendFriendMessage"@.len() == 17);
    assert("SetNospam"@ != "SendFriendMessage"@);
    reveal_strlit("DeleteFriend");
    assert("DeleteFriend"@.len() == 12);
    assert("SetNospam"@ != "DeleteFriend"@);
    reveal_strlit("GetConnectionStatus");
    assert("GetConnectionStatus"@.len() == 19);
    assert("SetNospam"@ != "GetConnectionStatus"@);
    reveal_strlit("GetAddress");
    assert("GetAddress"@.len() == 10);
    assert("SetNospam"@ != "GetAddress"@);
    reveal_strlit("GetNospam");
    assert("GetNospam"@.len() == 9);
    assert("SetNospam"@[0] == 'S');
    assert("GetNospam"@[0] == 'G');
    assert("SetNospam"@ != "GetNospam"@);
    reveal_strlit("nospam");
    assert("nospam"@.len() == 6);
    assert("nospam"@ != "request"@);
    assert(jlookup(ms, "request"@) == Some(JsonV::Str("SetNospam"@)));
    assert(req_from_json(JsonV::Obj(ms)) == req_dispatch("SetNospam"@, ms));
    assert(req_dispatch("SetNospam"@, ms) == req_set_nospam_from(ms));
    assert(jlookup(ms, "nospam"@) == Some(m2.1));
    assert(sget_str(ms, "nospam"@) == Ok::<Seq<char>, DecodeError>(nospam));
    assert(req_set_nospam_from(ms) == Ok::<RequestV, DecodeError>(v));
    reveal_with_fuel(jdepth_fields, 10);
    assert(jdepth(m1.1) == 0);
    assert(jdepth(m2.1) == 0);
    assert(jdepth_fields(seq![m2]) <= 5);
    assert(jdepth_fields(seq![m1, m2]) <= 5);
    assert(jdepth(JsonV::Obj(ms)) <= 6);
}

proof fn lemma_req_get_public_key_rt()
    ensures
        req_from_json(req_to_json(RequestV::GetPublicKey)) == Ok::<RequestV, DecodeError>(RequestV::GetPublicKey),
        jdepth(req_to_json(RequestV::GetPublicKey)) <= 6,
{
    reveal_with_fuel(jlookup, 10);
    let v = RequestV::GetPublicKey;
    let m1 = ("request"@, JsonV::Str("GetPublicKey"@));
    let ms = seq![m1];
    assert(req_to_json(v) == JsonV::Obj(ms));
    assert(ms.drop_first() =~= seq![]);
    reveal_strlit("request");
    assert("request"@.len() == 7);
    reveal_strlit("GetPublicKey");
    assert("GetPublicKey"@.len() == 12);
    reveal_strlit("Info");
    assert("Info"@.len() == 4);
    assert("GetPublicKey"@ != "Info"@);
    reveal_strlit("AddFriend");
    assert("AddFriend"@.len() == 9);
    assert("GetPublicKey"@ != "AddFriend"@);
    reveal_strlit("AddFriendNorequest");
    assert("AddFriendNorequest"@.len() == 18);
    assert("GetPublicKey"@ != "AddFriendNorequest"@);
    reveal_strlit("SendFriendMessage");
    assert("SendFriendMessage"@.len() == 17);
    assert("GetPublicKey"@ != "SendFriendMessage"@);
    reveal_strlit("DeleteFriend");
    assert("DeleteFriend"@.len() == 12);
    assert("GetPublicKey"@[0] == 'G');
    assert("DeleteFriend"@[0] == 'D');
    assert("GetPublicKey"@ != "DeleteFriend"@);
    reveal_strlit("GetConnectionStatus");
    assert("GetConnectionStatus"@.len() == 19);
    assert("GetPublicKey"@ != "GetConnectionStatus"@);
    reveal_strlit("GetAddress");
    assert("GetAddress"@.len() == 10);
    assert("GetPublicKey"@ != "GetAddress"@);
    reveal_strlit("GetNospam");
    assert("GetNospam"@.len() == 9);
    assert("GetPublicKey"@ != "GetNospam"@);
    reveal_strlit("SetNospam");
    assert("SetNospam"@.len() == 9);
    assert("GetPublicKey"@ != "SetNospam"@);
    assert(jlookup(ms, "request"@) == Some(JsonV::Str("GetPublicKey"@)));
    assert(req_from_json(JsonV::Obj(ms)) == req_dispatch("GetPublicKey"@, ms));
    assert(req_dispatch("GetPublicKey"@, ms) == Ok::<RequestV, DecodeError>(v));
    reveal_with_fuel(jdepth_fields, 10);
    assert(jdepth(m1.1) == 0);
    assert(jdepth_fields(seq![m1]) <= 5);
    assert(jdepth(JsonV::Obj(ms)) <= 6);
}

proof fn lemma_req_set_name_rt(name: Seq<char>)
    ensures
        req_from_json(req_to_json((RequestV::SetName { name }))) == Ok::<RequestV, DecodeError>((RequestV::SetName { name })),
        jdepth(req_to_json((RequestV::SetName { name }))) <= 6,
{
    reveal_with_fuel(jlookup, 10);
    let v = (RequestV::SetName { name });
    let m1 = ("request"@, JsonV::Str("SetName"@));
    let m2 = ("name"@, JsonV::Str(name));
    let ms = seq![m1, m2];
    assert(req_to_json(v) == JsonV::Obj(ms));
    assert(ms.drop_first() =~= seq![m2]);
    assert(seq![m2].drop_first() =~= Seq::<(Seq<char>, JsonV)>::empty());
    reveal_strlit("request");
    assert("request"@.len() == 7);
    reveal_strlit("SetName");
    assert("SetName"@.len() == 7);
    reveal_strlit("Info");
    assert("Info"@.len() == 4);
    assert("SetName"@ != "Info"@);
    reveal_strlit("AddFriend");
    assert("AddFriend"@.len() == 9);
    assert("SetName"@ != "AddFriend"@);
    reveal_strlit("AddFriendNorequest");
    assert("AddFriendNorequest"@.len() == 18);
    assert("SetName"@ != "AddFriendNorequest"@);
    reveal_strlit("SendFriendMessage");
    assert("SendFriendMessage"@.len() == 17);
    assert("SetName"@ != "SendFriendMessage"@);
    reveal_strlit("DeleteFriend");
    assert("DeleteFriend"@.len() == 12);
    assert("SetName"@ != "DeleteFriend"@);
    reveal_strlit("GetConnectionStatus");
    assert("GetConnectionStatus"@.len() == 19);
    assert("SetName"@ != "GetConnectionStatus"@);
    reveal_strlit("GetAddress");
    assert("GetAddress"@.len() == 10);
    assert("SetName"@ != "GetAddress"@);
    reveal_strlit("GetNospam");
    assert("GetNospam"@.len() == 9);
    assert("SetName"@ != "GetNospam"@);
    reveal_strlit("SetNospam");
    assert("SetNospam"@.len() == 9);
    assert("SetName"@ != "SetNospam"@);
    reveal_strlit("GetPublicKey");
    assert("GetPublicKey"@.len() == 12);
    assert("SetName"@ != "GetPublicKey"@);
    reveal_strlit("name");
    assert("name"@.len() == 4);
    assert("name"@ != "request"@);
    assert(jlookup(ms, "request"@) == Some(JsonV::Str("SetName"@)));
    assert(req_from_json(JsonV::Obj(ms)) == req_dispatch("SetName"@, ms));
    assert(req_dispatch("SetName"@, ms) == req_set_name_from(ms));
    assert(jlookup(ms, "name"@) == Some(m2.1));
    assert(sget_str(ms, "name"@) == Ok::<Seq<char>, DecodeError>(name));
    assert(req_set_name_from(ms) == Ok::<RequestV, DecodeError>(v));
    reveal_with_fuel(jdepth_fields, 10);
    assert(jdepth(m1.1) == 0);
    assert(jdepth(m2.1) == 0);
    assert(jdepth_fields(seq![m2]) <= 5);
    assert(jdepth_fields(seq![m1, m2]) <= 5);
    assert(jdepth(JsonV::Obj(ms)) <= 6);
}

proof fn lemma_req_get_name_rt()
    ensures
        req_from_json(req_to_json(RequestV::GetName)) == Ok::<RequestV, DecodeError>(RequestV::GetName),
        jdepth(req_to_json(RequestV::GetName)) <= 6,
{
    reveal_with_fuel(jlookup, 10);
    let v = RequestV::GetName;
    let m1 = ("request"@, JsonV::Str("GetName"@));
    let ms = seq![m1];
    assert(req_to_json(v) == JsonV::Obj(ms));
    assert(ms.drop_first() =~= seq![]);
    reveal_strlit("request");
    assert("request"@.len() == 7);
    reveal_strlit("GetName");
    assert("GetName"@.len() == 7);
    reveal_strlit("Info");
    assert("Info"@.len() == 4);
    assert("GetName"@ != "Info"@);
    reveal_strlit("AddFriend");
    assert("AddFriend"@.len() == 9);
    assert("GetName"@ != "AddFriend"@);
    reveal_strlit("AddFriendNorequest");
    assert("AddFriendNorequest"@.len() == 18);
    assert("GetName"@ != "AddFriendNorequest"@);
    reveal_strlit("SendFriendMessage");
    assert("SendFriendMessage"@.len() == 17);
    assert("GetName"@ != "SendFriendMessage"@);
    reveal_strlit("DeleteFriend");
    assert("DeleteFriend"@.len() == 12);
    assert("GetName"@ != "DeleteFriend"@);
    reveal_strlit("GetConnectionStatus");
    assert("GetConnectionStatus"@.len() == 19);
    assert("GetName"@ != "GetConnectionStatus"@);
    reveal_strlit("GetAddress");
    assert("GetAddress"@.len() == 10);
    assert("GetName"@ != "GetAddress"@);
    reveal_strlit("GetNospam");
    assert("GetNospam"@.len() == 9);
    assert("GetName"@ != "GetNospam"@);
    reveal_strlit("SetNospam");
    assert("SetNospam"@.len() == 9);
    assert("GetName"@ != "SetNospam"@);
    reveal_strlit("GetPublicKey");
    assert("GetPublicKey"@.len() == 12);
    assert("GetName"@ != "GetPublicKey"@);
    reveal_strlit("SetName");
    assert("SetName"@.len() == 7);
    assert("GetName"@[0] == 'G');
    assert("SetName"@[0] == 'S');
    assert("GetName"@ != "SetName"@);
    assert(jlookup(ms, "request"@) == Some(JsonV::Str("GetName"@)));
    assert(req_from_json(JsonV::Obj(ms)) == req_dispatch("GetName"@, ms));
    assert(req_dispatch("GetName"@, ms) == Ok::<RequestV, DecodeError>(v));
    reveal_with_fuel(jdepth_fields, 10);
    assert(jdepth(m1.1) == 0);
    assert(jdepth_fields(seq![m1]) <= 5);
    assert(jdepth(JsonV::Obj(ms)) <= 6);
}

proof fn lemma_req_set_status_message_rt(message: Seq<char>)
    ensures
        req_from_json(req_to_json((RequestV::SetStatusMessage { message }))) == Ok::<RequestV, DecodeError>((RequestV::SetStatusMessage { message })),
        jdepth(req_to_json((RequestV::SetStatusMessage { message }))) <= 6,
{
    reveal_with_fuel(jlookup, 10);
    let v = (RequestV::SetStatusMessage { message });
    let m1 = ("request"@, JsonV::Str("SetStatusMessage"@));
    let m2 = ("message"@, JsonV::Str(message));
    let ms = seq![m1, m2];
    assert(req_to_json(v) == JsonV::Obj(ms));
    assert(ms.drop_first() =~= seq![m2]);
    assert(seq![m2].drop_first() =~= Seq::<(Seq<char>, JsonV)>::empty());
    reveal_strlit("request");
    assert("request"@.len() == 7);
    reveal_strlit("SetStatusMessage");
    assert("SetStatusMessage"@.len() == 16);
    reveal_strlit("Info");
    assert("Info"@.len() == 4);
    assert("SetStatusMessage"@ != "Info"@);
    reveal_strlit("AddFriend");
    assert("AddFriend"@.len() == 9);
    assert("SetStatusMessage"@ != "AddFriend"@);
    reveal_strlit("AddFriendNorequest");
    assert("AddFriendNorequest"@.len() == 18);
    assert("SetStatusMessage"@ != "AddFriendNorequest"@);
    reveal_strlit("SendFriendMessage");
    assert("SendFriendMessage"@.len() == 17);
    assert("SetStatusMessage"@ != "SendFriendMessage"@);
    reveal_strlit("DeleteFriend");
    assert("DeleteFriend"@.len() == 12);
    assert("SetStatusMessage"@ != "DeleteFriend"@);
    reveal_strlit("GetConnectionStatus");
    assert("GetConnectionStatus"@.len() == 19);
    assert("SetStatusMessage"@ != "GetConnectionStatus"@);
    reveal_strlit("GetAddress");
    assert("GetAddress"@.len() == 10);
    assert("SetStatusMessage"@ != "GetAddress"@);
    reveal_strlit("GetNospam");
    assert("GetNospam"@.len() == 9);
    assert("SetStatusMessage"@ != "GetNospam"@);
    reveal_strlit("SetNospam");
    assert("SetNospam"@.len() == 9);
    assert("SetStatusMessage"@ != "SetNospam"@);
    reveal_strlit("GetPublicKey");
    assert("GetPublicKey"@.len() == 12);
    assert("SetStatusMessage"@ != "GetPublicKey"@);
    reveal_strlit("SetName");
    assert("SetName"@.len() == 7);
    assert("SetStatusMessage"@ != "SetName"@);
    reveal_strlit("GetName");
    assert("GetName"@.len() == 7);
    assert("SetStatusMessage"@ != "GetName"@);
    reveal_strlit("message");
    assert("message"@.len() == 7);
    assert("message"@[0] == 'm');
    assert("request"@[0] == 'r');
    assert("message"@ != "request"@);
    assert(jlookup(ms, "request"@) == Some(JsonV::Str("SetStatusMessage"@)));
    assert(req_from_json(JsonV::Obj(ms)) == req_dispatch("SetStatusMessage"@, ms));
    assert(req_dispatch("SetStatusMessage"@, ms) == req_dispatch2("SetStatusMessage"@, ms));
    assert(req_dispatch2("SetStatusMessage"@, ms) == req_set_status_message_from(ms));
    assert(jlookup(ms, "message"@) == Some(m2.1));
    assert(sget_str(ms, "message"@) == Ok::<Seq<char>, DecodeError>(message));
    assert(req_set_status_message_from(ms) == Ok::<RequestV, DecodeError>(v));
    reveal_with_fuel(jdepth_fields, 10);
    assert(jdepth(m1.1) == 0);
    assert(jdepth(m2.1) == 0);
    assert(jdepth_fields(seq![m2]) <= 5);
    assert(jdepth_fields(seq![m1, m2]) <= 5);
    assert(jdepth(JsonV::Obj(ms)) <= 6);
}

proof fn lemma_req_get_status_message_rt()
    ensures
        req_from_json(req_to_json(RequestV::GetStatusMessage)) == Ok::<RequestV, DecodeError>(RequestV::GetStatusMessage),
        jdepth(req_to_json(RequestV::GetStatusMessage)) <= 6,
{
    reveal_with_fuel(jlookup, 10);
    let v = RequestV::GetStatusMessage;
    let m1 = ("request"@, JsonV::Str("GetStatusMessage"@));
    let ms = seq![m1];
    assert(req_to_json(v) == JsonV::Obj(ms));
    assert(ms.drop_first() =~= seq![]);
    reveal_strlit("request");
    assert("request"@.len() == 7);
    reveal_strlit("GetStatusMessage");
    assert("GetStatusMessage"@.len() == 16);
    reveal_strlit("Info");
    assert("Info"@.len() == 4);
    assert("GetStatusMessage"@ != "Info"@);
    reveal_strlit("AddFriend");
    assert("AddFriend"@.len() == 9);
    assert("GetStatusMessage"@ != "AddFriend"@);
    reveal_strlit("AddFriendNorequest");
    assert("AddFriendNorequest"@.len() == 18);
    assert("GetStatusMessage"@ != "AddFriendNorequest"@);
    reveal_strlit("SendFriendMessage");
    assert("SendFriendMessage"@.len() == 17);
    assert("GetStatusMessage"@ != "SendFriendMessage"@);
    reveal_strlit("DeleteFriend");
    assert("DeleteFriend"@.len() == 12);
    assert("GetStatusMessage"@ != "DeleteFriend"@);
    reveal_strlit("GetConnectionStatus");
    assert("GetConnectionStatus"@.len() == 19);
    assert("GetStatusMessage"@ != "GetConnectionStatus"@);
    reveal_strlit("GetAddress");
    assert("GetAddress"@.len() == 10);
    assert("GetStatusMessage"@ != "GetAddress"@);
    reveal_strlit("GetNospam");
    assert("GetNospam"@.len() == 9);
    assert("GetStatusMessage"@ != "GetNospam"@);
    reveal_strlit("SetNospam");
    assert("SetNospam"@.len() == 9);
    assert("GetStatusMessage"@ != "SetNospam"@);
    reveal_strlit("GetPublicKey");
    assert("GetPublicKey"@.len() == 12);
    assert("GetStatusMessage"@ != "GetPublicKey"@);
    reveal_strlit("SetName");
    assert("SetName"@.len() == 7);
    assert("GetStatusMessage"@ != "SetName"@);
    reveal_strlit("GetName");
    assert("GetName"@.len() == 7);
    assert("GetStatusMessage"@ != "GetName"@);
    reveal_strlit("SetStatusMessage");
    assert("SetStatusMessage"@.len() == 16);
    assert("GetStatusMessage"@[0] == 'G');
    assert("SetStatusMessage"@[0] == 'S');
    assert("GetStatusMessage"@ != "SetStatusMessage"@);
    assert(jlookup(ms, "request"@) == Some(JsonV::Str("GetStatusMessage"@)));
    assert(req_from_json(JsonV::Obj(ms)) == req_dispatch("GetStatusMessage"@, ms));
    assert(req_dispatch("GetStatusMessage"@, ms) == req_dispatch2("GetStatusMessage"@, ms));
    assert(req_dispatch2("GetStatusMessage"@, ms) == Ok::<RequestV, DecodeError>(v));
    reveal_with_fuel(jdepth_fields, 10);
    assert(jdepth(m1.1) == 0);
    assert(jdepth_fields(seq![m1]) <= 5);
    assert(jdepth(JsonV::Obj(ms)) <= 6);
}

proof fn lemma_req_set_status_rt(status: UserStatus)
    ensures
        req_from_json(req_to_json((RequestV::SetStatus { status }))) == Ok::<RequestV, DecodeError>((RequestV::SetStatus { status })),
        jdepth(req_to_json((RequestV::SetStatus { status }))) <= 6,
{
    reveal_with_fuel(jlookup, 10);
    let v = (RequestV::SetStatus { status });
    let m1 = ("request"@, JsonV::Str("SetStatus"@));
    let m2 = ("status"@, JsonV::Str(user_status_str(status)));
    let ms = seq![m1, m2];
    assert(req_to_json(v) == JsonV::Obj(ms));
    assert(ms.drop_first() =~= seq![m2]);
    assert(seq![m2].drop_first() =~= Seq::<(Seq<char>, JsonV)>::empty());
    reveal_strlit("request");
    assert("request"@.len() == 7);
    reveal_strlit("SetStatus");
    assert("SetStatus"@.len() == 9);
    reveal_strlit("Info");
    assert("Info"@.len() == 4);
    assert("SetStatus"@ != "Info"@);
    reveal_strlit("AddFriend");
    assert("AddFriend"@.len() == 9);
    assert("SetStatus"@[0] == 'S');
    assert("AddFriend"@[0] == 'A');
    assert("SetStatus"@ != "AddFriend"@);
    reveal_strlit("AddFriendNorequest");
    assert("AddFriendNorequest"@.len() == 18);
    assert("SetStatus"@ != "AddFriendNorequest"@);
    reveal_strlit("SendFriendMessage");
    assert("SendFriendMessage"@.len() == 17);
    assert("SetStatus"@ != "SendFriendMessage"@);
    reveal_strlit("DeleteFriend");
    assert("DeleteFriend"@.len() == 12);
    assert("SetStatus"@ != "DeleteFriend"@);
    reveal_strlit("GetConnectionStatus");
    assert("GetConnectionStatus"@.len() == 19);
    assert("SetStatus"@ != "GetConnectionStatus"@);
    reveal_strlit("GetAddress");
    assert("GetAddress"@.len() == 10);
    assert("SetStatus"@ != "GetAddress"@);
    reveal_strlit("GetNospam");
    assert("GetNospam"@.len() == 9);
    assert("SetStatus"@[0] == 'S');
    assert("GetNospam"@[0] == 'G');
    assert("SetStatus"@ != "GetNospam"@);
    reveal_strlit("SetNospam");
    assert("SetNospam"@.len() == 9);
    assert("SetStatus"@[3] == 'S');
    assert("SetNospam"@[3] == 'N');
    assert("SetStatus"@ != "SetNospam"@);
    reveal_strlit("GetPublicKey");
    assert("GetPublicKey"@.len() == 12);
    assert("SetStatus"@ != "GetPublicKey"@);
    reveal_strlit("SetName");
    assert("SetName"@.len() == 7);
    assert("SetStatus"@ != "SetName"@);
    reveal_strlit("GetName");
    assert("GetName"@.len() == 7);
    assert("SetStatus"@ != "GetName"@);
    reveal_strlit("SetStatusMessage");
    assert("SetStatusMessage"@.len() == 16);
    assert("SetStatus"@ != "SetStatusMessage"@);
    reveal_strlit("GetStatusMessage");
    assert("GetStatusMessage"@.len() == 16);
    assert("SetStatus"@ != "GetStatusMessage"@);
    reveal_strlit("status");
    assert("status"@.len() == 6);
    assert("status"@ != "request"@);
    assert(jlookup(ms, "request"@) == Some(JsonV::Str("SetStatus"@)));
    assert(req_from_json(JsonV::Obj(ms)) == req_dispatch("SetStatus"@, ms));
    assert(req_dispatch("SetStatus"@, ms) == req_dispatch2("SetStatus"@, ms));
    assert(req_dispatch2("SetStatus"@, ms) == req_set_status_from(ms));
    lemma_user_status_rt(status);
    assert(jlookup(ms, "status"@) == Some(m2.1));
    assert(sget_user_status(ms, "status"@) == Ok::<UserStatus, DecodeError>(status));
    assert(req_set_status_from(ms) == Ok::<RequestV, DecodeError>(v));
    reveal_with_fuel(jdepth_fields, 10);
    assert(jdepth(m1.1) == 0);
    assert(jdepth(m2.1) == 0);
    assert(jdepth_fields(seq![m2]) <= 5);
    assert(jdepth_fields(seq![m1, m2]) <= 5);
    assert(jdepth(JsonV::Obj(ms)) <= 6);
}

proof fn lemma_req_get_status_rt()
    ensures
        req_from_json(req_to_json(RequestV::GetStatus)) == Ok::<RequestV, DecodeError>(RequestV::GetStatus),
        jdepth(req_to_json(RequestV::GetStatus)) <= 6,
{
    reveal_with_fuel(jlookup, 10);
    let v = RequestV::GetStatus;
    let m1 = ("request"@, JsonV::Str("GetStatus"@));
    let ms = seq![m1];
    assert(req_to_json(v) == JsonV::Obj(ms));
    assert(ms.drop_first() =~= seq![]);
    reveal_strlit("request");
    assert("request"@.len() == 7);
    reveal_strlit("GetStatus");
    assert("GetStatus"@.len() == 9);
    reveal_strlit("Info");
    assert("Info"@.len() == 4);
    assert("GetStatus"@ != "Info"@);
    reveal_strlit("AddFriend");
    assert("AddFriend"@.len() == 9);
    assert("GetStatus"@[0] == 'G');
    assert("AddFriend"@[0] == 'A');
    assert("GetStatus"@ != "AddFriend"@);
    reveal_strlit("AddFriendNorequest");
    assert("AddFriendNorequest"@.len() == 18);
    assert("GetStatus"@ != "AddFriendNorequest"@);
    reveal_strlit("SendFriendMessage");
    assert("SendFriendMessage"@.len() == 17);
    assert("GetStatus"@ != "SendFriendMessage"@);
    reveal_strlit("DeleteFriend");
    assert("DeleteFriend"@.len() == 12);
    assert("GetStatus"@ != "DeleteFriend"@);
    reveal_strlit("GetConnectionStatus");
    assert("GetConnectionStatus"@.len() == 19);
    assert("GetStatus"@ != "GetConnectionStatus"@);
    reveal_strlit("GetAddress");
    assert("GetAddress"@.len() == 10);
    assert("GetStatus"@ != "GetAddress"@);
    reveal_strlit("GetNospam");
    assert("GetNospam"@.len() == 9);
    assert("GetStatus"@[3] == 'S');
    assert("GetNospam"@[3] == 'N');
    assert("GetStatus"@ != "GetNospam"@);
    reveal_strlit("SetNospam");
    assert("SetNospam"@.len() == 9);
    assert("GetStatus"@[0] == 'G');
    assert("SetNospam"@[0] == 'S');
    assert("GetStatus"@ != "SetNospam"@);
    reveal_strlit("GetPublicKey");
    assert("GetPublicKey"@.len() == 12);
    assert("GetStatus"@ != "GetPublicKey"@);
    reveal_strlit("SetName");
    assert("SetName"@.len() == 7);
    assert("GetStatus"@ != "SetName"@);
    reveal_strlit("GetName");
    assert("GetName"@.len() == 7);
    assert("GetStatus"@ != "GetName"@);
    reveal_strlit("SetStatusMessage");
    assert("SetStatusMessage"@.len() == 16);
    assert("GetStatus"@ != "SetStatusMessage"@);
    reveal_strlit("GetStatusMessage");
    assert("GetStatusMessage"@.len() == 16);
    assert("GetStatus"@ != "GetStatusMessage"@);
    reveal_strlit("SetStatus");
    assert("SetStatus"@.len() == 9);
    assert("GetStatus"@[0] == 'G');
    assert("SetStatus"@[0] == 'S');
    assert("GetStatus"@ != "SetStatus"@);
    assert(jlookup(ms, "request"@) == Some(JsonV::Str("GetStatus"@)));
    assert(req_from_json(JsonV::Obj(ms)) == req_dispatch("GetStatus"@, ms));
    assert(req_dispatch("GetStatus"@, ms) == req_dispatch2("GetStatus"@, ms));
    assert(req_dispatch2("GetStatus"@, ms) == Ok::<RequestV, DecodeError>(v));
    reveal_with_fuel(jdepth_fields, 10);
    assert(jdepth(m1.1) == 0);
    assert(jdepth_fields(seq![m1]) <= 5);
    assert(jdepth(JsonV::Obj(ms)) <= 6);
}

proof fn lemma_req_friend_by_public_key_rt(public_key: Seq<char>)
    ensures
        req_from_json(req_to_json((RequestV::FriendByPublicKey { public_key }))) == Ok::<RequestV, DecodeError>((RequestV::FriendByPublicKey { public_key })),
        jdepth(req_to_json((RequestV::FriendByPublicKey { public_key }))) <= 6,
{
    reveal_with_fuel(jlookup, 10);
    let v = (RequestV::FriendByPublicKey { public_key });
    let m1 = ("request"@, JsonV::Str("FriendByPublicKey"@));
    let m2 = ("public_key"@, JsonV::Str(public_key));
    let ms = seq![m1, m2];
    assert(req_to_json(v) == JsonV::Obj(ms));
    assert(ms.drop_first() =~= seq![m2]);
    assert(seq![m2].drop_first() =~= Seq::<(Seq<char>, JsonV)>::empty());
    reveal_strlit("request");
    assert("request"@.len() == 7);
    reveal_strlit("FriendByPublicKey");
    assert("FriendByPublicKey"@.len() == 17);
    reveal_strlit("Info");
    assert("Info"@.len() == 4);
    assert("FriendByPublicKey"@ != "Info"@);
    reveal_strlit("AddFriend");
    assert("AddFriend"@.len() == 9);
    assert("FriendByPublicKey"@ != "AddFriend"@);
    reveal_strlit("AddFriendNorequest");
    assert("AddFriendNorequest"@.len() == 18);
    assert("FriendByPublicKey"@ != "AddFriendNorequest"@);
    reveal_strlit("SendFriendMessage");
    assert("SendFriendMessage"@.len() == 17);
    assert("FriendByPublicKey"@[0] == 'F');
    assert("SendFriendMessage"@[0] == 'S');
    assert("FriendByPublicKey"@ != "SendFriendMessage"@);
    reveal_strlit("DeleteFriend");
    assert("DeleteFriend"@.len() == 12);
    assert("FriendByPublicKey"@ != "DeleteFriend"@);
    reveal_strlit("GetConnectionStatus");
    assert("GetConnectionStatus"@.len() == 19);
    assert("FriendByPublicKey"@ != "GetConnectionStatus"@);
    reveal_strlit("GetAddress");
    assert("GetAddress"@.len() == 10);
    assert("FriendByPublicKey"@ != "GetAddress"@);
    reveal_strlit("GetNospam");
    assert("GetNospam"@.len() == 9);
    assert("FriendByPublicKey"@ != "GetNospam"@);
    reveal_strlit("SetNospam");
    assert("SetNospam"@.len() == 9);
    assert("FriendByPublicKey"@ != "SetNospam"@);
    reveal_strlit("GetPublicKey");
    assert("GetPublicKey"@.len() == 12);
    assert("FriendByPublicKey"@ != "GetPublicKey"@);
    reveal_strlit("SetName");
    assert("SetName"@.len() == 7);
    assert("FriendByPublicKey"@ != "SetName"@);
    reveal_strlit("GetName");
    assert("GetName"@.len() == 7);
    assert("FriendByPublicKey"@ != "GetName"@);
    reveal_strlit("SetStatusMessage");
    assert("SetStatusMessage"@.len() == 16);
    assert("FriendByPublicKey"@ != "SetStatusMessage"@);
    reveal_strlit("GetStatusMessage");
    assert("GetStatusMessage"@.len() == 16);
    assert("FriendByPublicKey"@ != "GetStatusMessage"@);
    reveal_strlit("SetStatus");
    assert("SetStatus"@.len() == 9);
    assert("FriendByPublicKey"@ != "SetStatus"@);
    reveal_strlit("GetStatus");
    assert("GetStatus"@.len() == 9);
    assert("FriendByPublicKey"@ != "GetStatus"@);
    reveal_strlit("public_key");
    assert("public_key"@.len() == 10);
    assert("public_key"@ != "request"@);
    assert(jlookup(ms, "request"@) == Some(JsonV::Str("FriendByPublicKey"@)));
    assert(req_from_json(JsonV::Obj(ms)) == req_dispatch("FriendByPublicKey"@, ms));
    assert(req_dispatch("FriendByPublicKey"@, ms) == req_dispatch2("FriendByPublicKey"@, ms));
    assert(req_dispatch2("FriendByPublicKey"@, ms) == req_friend_by_public_key_from(ms));
    assert(jlookup(ms, "public_key"@) == Some(m2.1));
    assert(sget_str(ms, "public_key"@) == Ok::<Seq<char>, DecodeError>(public_key));
    assert(req_friend_by_public_key_from(ms) == Ok::<RequestV, DecodeError>(v));
    reveal_with_fuel(jdepth_fields, 10);
    assert(jdepth(m1.1) == 0);
    assert(jdepth(m2.1) == 0);
    assert(jdepth_fields(seq![m2]) <= 5);
    assert(jdepth_fields(seq![m1, m2]) <= 5);
    assert(jdepth(JsonV::Obj(ms)) <= 6);
}

proof fn lemma_req_friend_exists_rt(friend: u32)
    ensures
        req_from_json(req_to_json((RequestV::FriendExists { friend }))) == Ok::<RequestV, DecodeError>((RequestV::FriendExists { friend })),
        jdepth(req_to_json((RequestV::FriendExists { friend }))) <= 6,
{
    reveal_with_fuel(jlookup, 10);
    let v = (RequestV::FriendExists { friend });
    let m1 = ("request"@, JsonV::Str("FriendExists"@));
    let m2 = ("friend"@, JsonV::UInt(friend as u64));
    let ms = seq![m1, m2];
    assert(req_to_json(v) == JsonV::Obj(ms));
    assert(ms.drop_first() =~= seq![m2]);
    assert(seq![m2].drop_first() =~= Seq::<(Seq<char>, JsonV)>::empty());
    reveal_strlit("request");
    assert("request"@.len() == 7);
    reveal_strlit("FriendExists");
    assert("FriendExists"@.len() == 12);
    reveal_strlit("Info");
    assert("Info"@.len() == 4);
    assert("FriendExists"@ != "Info"@);
    reveal_strlit("AddFriend");
    assert("AddFriend"@.len() == 9);
    assert("FriendExists"@ != "AddFriend"@);
    reveal_strlit("AddFriendNorequest");
    assert("AddFriendNorequest"@.len() == 18);
    assert("FriendExists"@ != "AddFriendNorequest"@);
    reveal_strlit("SendFriendMessage");
    assert("SendFriendMessage"@.len() == 17);
    assert("FriendExists"@ != "SendFriendMessage"@);
    reveal_strlit("DeleteFriend");
    assert("DeleteFriend"@.len() == 12);
    assert("FriendExists"@[0] == 'F');
    assert("DeleteFriend"@[0] == 'D');
    assert("FriendExists"@ != "DeleteFriend"@);
    reveal_strlit("GetConnectionStatus");
    assert("GetConnectionStatus"@.len() == 19);
    assert("FriendExists"@ != "GetConnectionStatus"@);
    reveal_strlit("GetAddress");
    assert("GetAddress"@.len() == 10);
    assert("FriendExists"@ != "GetAddress"@);
    reveal_strlit("GetNospam");
    assert("GetNospam"@.len() == 9);
    assert("FriendExists"@ != "GetNospam"@);
    reveal_strlit("SetNospam");
    assert("SetNospam"@.len() == 9);
    assert("FriendExists"@ != "SetNospam"@);
    reveal_strlit("GetPublicKey");
    assert("GetPublicKey"@.len() == 12);
    assert("FriendExists"@[0] == 'F');
    assert("GetPublicKey"@[0] == 'G');
    assert("FriendExists"@ != "GetPublicKey"@);
    reveal_strlit("SetName");
    assert("SetName"@.len() == 7);
    assert("FriendExists"@ != "SetName"@);
    reveal_strlit("GetName");
    assert("GetName"@.len() == 7);
    assert("FriendExists"@ != "GetName"@);
    reveal_strlit("SetStatusMessage");
    assert("SetStatusMessage"@.len() == 16);
    assert("FriendExists"@ != "SetStatusMessage"@);
    reveal_strlit("GetStatusMessage");
    assert("GetStatusMessage"@.len() == 16);
    assert("FriendExists"@ != "GetStatusMessage"@);
    reveal_strlit("SetStatus");
    assert("SetStatus"@.len() == 9);
    assert("FriendExists"@ != "SetStatus"@);
    reveal_strlit("GetStatus");
    assert("GetStatus"@.len() == 9);
    assert("FriendExists"@ != "GetStatus"@);
    reveal_strlit("FriendByPublicKey");
    assert("FriendByPublicKey"@.len() == 17);
    assert("FriendExists"@ != "FriendByPublicKey"@);
    reveal_strlit("friend");
    assert("friend"@.len() == 6);
    assert("friend"@ != "request"@);
    assert(jlookup(ms, "request"@) == Some(JsonV::Str("FriendExists"@)));
    assert(req_from_json(JsonV::Obj(ms)) == req_dispatch("FriendExists"@, ms));
    assert(req_dispatch("FriendExists"@, ms) == req_dispatch2("FriendExists"@, ms));
    assert(req_dispatch2("FriendExists"@, ms) == req_friend_exists_from(ms));
    assert(jlookup(ms, "friend"@) == Some(m2.1));
    assert(sget_u32(ms, "friend"@) == Ok::<u32, DecodeError>(friend));
    assert(req_friend_exists_from(ms) == Ok::<RequestV, DecodeError>(v));
    reveal_with_fuel(jdepth_fields, 10);
    assert(jdepth(m1.1) == 0);
    assert(jdepth(m2.1) == 0);
    assert(jdepth_fields(seq![m2]) <= 5);
    assert(jdepth_fields(seq![m1, m2]) <= 5);
    assert(jdepth(JsonV::Obj(ms)) <= 6);
}

proof fn lemma_req_get_friend_public_key_rt(friend: u32)
    ensures
        req_from_json(req_to_json((RequestV::GetFriendPublicKey { friend }))) == Ok::<RequestV, DecodeError>((RequestV::GetFriendPublicKey { friend })),
        jdepth(req_to_json((RequestV::GetFriendPublicKey { friend }))) <= 6,
{
    reveal_with_fuel(jlookup, 10);
    let v = (RequestV::GetFriendPublicKey { friend });
    let m1 = ("request"@, JsonV::Str("GetFriendPublicKey"@));
    let m2 = ("friend"@, JsonV::UInt(friend as u64));
    let ms = seq![m1, m2];
    assert(req_to_json(v) == JsonV::Obj(ms));
    assert(ms.drop_first() =~= seq![m2]);
    assert(seq![m2].drop_first() =~= Seq::<(Seq<char>, JsonV)>::empty());
    reveal_strlit("request");
    assert("request"@.len() == 7);
    reveal_strlit("GetFriendPublicKey");
    assert("GetFriendPublicKey"@.len() == 18);
    reveal_strlit("Info");
    assert("Info"@.len() == 4);
    assert("GetFriendPublicKey"@ != "Info"@);
    reveal_strlit("AddFriend");
    assert("AddFriend"@.len() == 9);
    assert("GetFriendPublicKey"@ != "AddFriend"@);
    reveal_strlit("AddFriendNorequest");
    assert("AddFriendNorequest"@.len() == 18);
    assert("GetFriendPublicKey"@[0] == 'G');
    assert("AddFriendNorequest"@[0] == 'A');
    assert("GetFriendPublicKey"@ != "AddFriendNorequest"@);
    reveal_strlit("SendFriendMessage");
    assert("SendFriendMessage"@.len() == 17);
    assert("GetFriendPublicKey"@ != "SendFriendMessage"@);
    reveal_strlit("DeleteFriend");
    assert("DeleteFriend"@.len() == 12);
    assert("GetFriendPublicKey"@ != "DeleteFriend"@);
    reveal_strlit("GetConnectionStatus");
    assert("GetConnectionStatus"@.len() == 19);
    assert("GetFriendPublicKey"@ != "GetConnectionStatus"@);
    reveal_strlit("GetAddress");
    assert("GetAddress"@.len() == 10);
    assert("GetFriendPublicKey"@ != "GetAddress"@);
    reveal_strlit("GetNospam");
    assert("GetNospam"@.len() == 9);
    assert("GetFriendPublicKey"@ != "GetNospam"@);
    reveal_strlit("SetNospam");
    assert("SetNospam"@.len() == 9);
    assert("GetFriendPublicKey"@ != "SetNospam"@);
    reveal_strlit("GetPublicKey");
    assert("GetPublicKey"@.len() == 12);
    assert("GetFriendPublicKey"@ != "GetPublicKey"@);
    reveal_strlit("SetName");
    assert("SetName"@.len() == 7);
    assert("GetFriendPublicKey"@ != "SetName"@);
    reveal_strlit("GetName");
    assert("GetName"@.len() == 7);
    assert("GetFriendPublicKey"@ != "GetName"@);
    reveal_strlit("SetStatusMessage");
    assert("SetStatusMessage"@.len() == 16);
    assert("GetFriendPublicKey"@ != "SetStatusMessage"@);
    reveal_strlit("GetStatusMessage");
    assert("GetStatusMessage"@.len() == 16);
    assert("GetFriendPublicKey"@ != "GetStatusMessage"@);
    reveal_strlit("SetStatus");
    assert("SetStatus"@.len() == 9);
    assert("GetFriendPublicKey"@ != "SetStatus"@);
    reveal_strlit("GetStatus");
    assert("GetStatus"@.len() == 9);
    assert("GetFriendPublicKey"@ != "GetStatus"@);
    reveal_strlit("FriendByPublicKey");
    assert("FriendByPublicKey"@.len() == 17);
    assert("GetFriendPublicKey"@ != "FriendByPublicKey"@);
    reveal_strlit("FriendExists");
    assert("FriendExists"@.len() == 12);
    assert("GetFriendPublicKey"@ != "FriendExists"@);
    reveal_strlit("friend");
    assert("friend"@.len() == 6);
    assert("friend"@ != "request"@);
    assert(jlookup(ms, "request"@) == Some(JsonV::Str("GetFriendPublicKey"@)));
    assert(req_from_json(JsonV::Obj(ms)) == req_dispatch("GetFriendPublicKey"@, ms));
    assert(req_dispatch("GetFriendPublicKey"@, ms) == req_dispatch2("GetFriendPublicKey"@, ms));
    assert(req_dispatch2("GetFriendPublicKey"@, ms) == req_get_friend_public_key_from(ms));
    assert(jlookup(ms, "friend"@) == Some(m2.1));
    assert(sget_u32(ms, "friend"@) == Ok::<u32, DecodeError>(friend));
    assert(req_get_friend_public_key_from(ms) == Ok::<RequestV, DecodeError>(v));
    reveal_with_fuel(jdepth_fields, 10);
    assert(jdepth(m1.1) == 0);
    assert(jdepth(m2.1) == 0);
    assert(jdepth_fields(seq![m2]) <= 5);
    assert(jdepth_fields(seq![m1, m2]) <= 5);
    assert(jdepth(JsonV::Obj(ms)) <= 6);
}

proof fn lemma_req_get_friend_last_online_rt(friend: u32)
    ensures
        req_from_json(req_to_json((RequestV::GetFriendLastOnline { friend }))) == Ok::<RequestV, DecodeError>((RequestV::GetFriendLastOnline { friend })),
        jdepth(req_to_json((RequestV::GetFriendLastOnline { friend }))) <= 6,
{
    reveal_with_fuel(jlookup, 10);
    let v = (RequestV::GetFriendLastOnline { friend });
    let m1 = ("request"@, JsonV::Str("GetFriendLastOnline"@));
    let m2 = ("friend"@, JsonV::UInt(friend as u64));
    let ms = seq![m1, m2];
    assert(req_to_json(v) == JsonV::Obj(ms));
    assert(ms.drop_first() =~= seq![m2]);
    assert(seq![m2].drop_first() =~= Seq::<(Seq<char>, JsonV)>::empty());
    reveal_strlit("request");
    assert("request"@.len() == 7);
    reveal_strlit("GetFriendLastOnline");
    assert("GetFriendLastOnline"@.len() == 19);
    reveal_strlit("Info");
    assert("Info"@.len() == 4);
    assert("GetFriendLastOnline"@ != "Info"@);
    reveal_strlit("AddFriend");
    assert("AddFriend"@.len() == 9);
    assert("GetFriendLastOnline"@ != "AddFriend"@);
    reveal_strlit("AddFriendNorequest");
    assert("AddFriendNorequest"@.len() == 18);
    assert("GetFriendLastOnline"@ != "AddFriendNorequest"@);
    reveal_strlit("SendFriendMessage");
    assert("SendFriendMessage"@.len() == 17);
    assert("GetFriendLastOnline"@ != "SendFriendMessage"@);
    reveal_strlit("DeleteFriend");
    assert("DeleteFriend"@.len() == 12);
    assert("GetFriendLastOnline"@ != "DeleteFriend"@);
    reveal_strlit("GetConnectionStatus");
    assert("GetConnectionStatus"@.len() == 19);
    assert("GetFriendLastOnline"@[3] == 'F');
    assert("GetConnectionStatus"@[3] == 'C');
    assert("GetFriendLastOnline"@ != "GetConnectionStatus"@);
    reveal_strlit("GetAddress");
    assert("GetAddress"@.len() == 10);
    assert("GetFriendLastOnline"@ != "GetAddress"@);
    reveal_strlit("GetNospam");
    assert("GetNospam"@.len() == 9);
    assert("GetFriendLastOnline"@ != "GetNospam"@);
    reveal_strlit("SetNospam");
    assert("SetNospam"@.len() == 9);
    assert("GetFriendLastOnline"@ != "SetNospam"@);
    reveal_strlit("GetPublicKey");
    assert("GetPublicKey"@.len() == 12);
    assert("GetFriendLastOnline"@ != "GetPublicKey"@);
    reveal_strlit("SetName");
    assert("SetName"@.len() == 7);
    assert("GetFriendLastOnline"@ != "SetName"@);
    reveal_strlit("GetName");
    assert("GetName"@.len() == 7);
    assert("GetFriendLastOnline"@ != "GetName"@);
    reveal_strlit("SetStatusMessage");
    assert("SetStatusMessage"@.len() == 16);
    assert("GetFriendLastOnline"@ != "SetStatusMessage"@);
    reveal_strlit("GetStatusMessage");
    assert("GetStatusMessage"@.len() == 16);
    assert("GetFriendLastOnline"@ != "GetStatusMessage"@);
    reveal_strlit("SetStatus");
    assert("SetStatus"@.len() == 9);
    assert("GetFriendLastOnline"@ != "SetStatus"@);
    reveal_strlit("GetStatus");
    assert("GetStatus"@.len() == 9);
    assert("GetFriendLastOnline"@ != "GetStatus"@);
    reveal_strlit("FriendByPublicKey");
    assert("FriendByPublicKey"@.len() == 17);
    assert("GetFriendLastOnline"@ != "FriendByPublicKey"@);
    reveal_strlit("FriendExists");
    assert("FriendExists"@.len() == 12);
    assert("GetFriendLastOnline"@ != "FriendExists"@);
    reveal_strlit("GetFriendPublicKey");
    assert("GetFriendPublicKey"@.len() == 18);
    assert("GetFriendLastOnline"@ != "GetFriendPublicKey"@);
    reveal_strlit("friend");
    assert("friend"@.len() == 6);
    assert("friend"@ != "request"@);
    assert(jlookup(ms, "request"@) == Some(JsonV::Str("GetFriendLastOnline"@)));
    assert(req_from_json(JsonV::Obj(ms)) == req_dispatch("GetFriendLastOnline"@, ms));
    assert(req_dispatch("GetFriendLastOnline"@, ms) == req_dispatch2("GetFriendLastOnline"@, ms));
    assert(req_dispatch2("GetFriendLastOnline"@, ms) == req_get_friend_last_online_from(ms));
    assert(jlookup(ms, "friend"@) == Some(m2.1));
    assert(sget_u32(ms, "friend"@) == Ok::<u32, DecodeError>(friend));
    assert(req_get_friend_last_online_from(ms) == Ok::<RequestV, DecodeError>(v));
    reveal_with_fuel(jdepth_fields, 10);
    assert(jdepth(m1.1) == 0);
    assert(jdepth(m2.1) == 0);
    assert(jdepth_fields(seq![m2]) <= 5);
    assert(jdepth_fields(seq![m1, m2]) <= 5);
    assert(jdepth(JsonV::Obj(ms)) <= 6);
}

proof fn lemma_req_get_friend_name_rt(friend: u32)
    ensures
        req_from_json(req_to_json((RequestV::GetFriendName { friend }))) == Ok::<RequestV, DecodeError>((RequestV::GetFriendName { friend })),
        jdepth(req_to_json((RequestV::GetFriendName { friend }))) <= 6,
{
    reveal_with_fuel(jlookup, 10);
    let v = (RequestV::GetFriendName { friend });
    let m1 = ("request"@, JsonV::Str("GetFriendName"@));
    let m2 = ("friend"@, JsonV::UInt(friend as u64));
    let ms = seq![m1, m2];
    assert(req_to_json(v) == JsonV::Obj(ms));
    assert(ms.drop_first() =~= seq![m2]);
    assert(seq![m2].drop_first() =~= Seq::<(Seq<char>, JsonV)>::empty());
    reveal_strlit("request");
    assert("request"@.len() == 7);
    reveal_strlit("GetFriendName");
    assert("GetFriendName"@.len() == 13);
    reveal_strlit("Info");
    assert("Info"@.len() == 4);
    assert("GetFriendName"@ != "Info"@);
    reveal_strlit("AddFriend");
    assert("AddFriend"@.len() == 9);
    assert("GetFriendName"@ != "AddFriend"@);
    reveal_strlit("AddFriendNorequest");
    assert("AddFriendNorequest"@.len() == 18);
    assert("GetFriendName"@ != "AddFriendNorequest"@);
    reveal_strlit("SendFriendMessage");
    assert("SendFriendMessage"@.len() == 17);
    assert("GetFriendName"@ != "SendFriendMessage"@);
    reveal_strlit("DeleteFriend");
    assert("DeleteFriend"@.len() == 12);
    assert("GetFriendName"@ != "DeleteFriend"@);
    reveal_strlit("GetConnectionStatus");
    assert("GetConnectionStatus"@.len() == 19);
    assert("GetFriendName"@ != "GetConnectionStatus"@);
    reveal_strlit("GetAddress");
    assert("GetAddress"@.len() == 10);
    assert("GetFriendName"@ != "GetAddress"@);
    reveal_strlit("GetNospam");
    assert("GetNospam"@.len() == 9);
    assert("GetFriendName"@ != "GetNospam"@);
    reveal_strlit("SetNospam");
    assert("SetNospam"@.len() == 9);
    assert("GetFriendName"@ != "SetNospam"@);
    reveal_strlit("GetPublicKey");
    assert("GetPublicKey"@.len() == 12);
    assert("GetFriendName"@ != "GetPublicKey"@);
    reveal_strlit("SetName");
    assert("SetName"@.len() == 7);
    assert("GetFriendName"@ != "SetName"@);
    reveal_strlit("GetName");
    assert("GetName"@.len() == 7);
    assert("GetFriendName"@ != "GetName"@);
    reveal_strlit("SetStatusMessage");
    assert("SetStatusMessage"@.len() == 16);
    assert("GetFriendName"@ != "SetStatusMessage"@);
    reveal_strlit("GetStatusMessage");
    assert("GetStatusMessage"@.len() == 16);
    assert("GetFriendName"@ != "GetStatusMessage"@);
    reveal_strlit("SetStatus");
    assert("SetStatus"@.len() == 9);
    assert("GetFriendName"@ != "SetStatus"@);
    reveal_strlit("GetStatus");
    assert("GetStatus"@.len() == 9);
    assert("GetFriendName"@ != "GetStatus"@);
    reveal_strlit("FriendByPublicKey");
    assert("FriendByPublicKey"@.len() == 17);
    assert("GetFriendName"@ != "FriendByPublicKey"@);
    reveal_strlit("FriendExists");
    assert("FriendExists"@.len() == 12);
    assert("GetFriendName"@ != "FriendExists"@);
    reveal_strlit("GetFriendPublicKey");
    assert("GetFriendPublicKey"@.len() == 18);
    assert("GetFriendName"@ != "GetFriendPublicKey"@);
    reveal_strlit("GetFriendLastOnline");
    assert("GetFriendLastOnline"@.len() == 19);
    assert("GetFriendName"@ != "GetFriendLastOnline"@);
    reveal_strlit("friend");
    assert("friend"@.len() == 6);
    assert("friend"@ != "request"@);
    assert(jlookup(ms, "request"@) == Some(JsonV::Str("GetFriendName"@)));
    assert(req_from_json(JsonV::Obj(ms)) == req_dispatch("GetFriendName"@, ms));
    assert(req_dispatch("GetFriendName"@, ms) == req_dispatch2("GetFriendName"@, ms));
    assert(req_dispatch2("GetFriendName"@, ms) == req_get_friend_name_from(ms));
    assert(jlookup(ms, "friend"@) == Some(m2.1));
    assert(sget_u32(ms, "friend"@) == Ok::<u32, DecodeError>(friend));
    assert(req_get_friend_name_from(ms) == Ok::<RequestV, DecodeError>(v));
    reveal_with_fuel(jdepth_fields, 10);
    assert(jdepth(m1.1) == 0);
    assert(jdepth(m2.1) == 0);
    assert(jdepth_fields(seq![m2]) <= 5);
    assert(jdepth_fields(seq![m1, m2]) <= 5);
    assert(jdepth(JsonV::Obj(ms)) <= 6);
}

proof fn lemma_req_get_friend_status_message_rt(friend: u32)
    ensures
        req_from_json(req_to_json((RequestV::GetFriendStatusMessage { friend }))) == Ok::<RequestV, DecodeError>((RequestV::GetFriendStatusMessage { friend })),
        jdepth(req_to_json((RequestV::GetFriendStatusMessage { friend }))) <= 6,
{
    reveal_with_fuel(jlookup, 10);
    let v = (RequestV::GetFriendStatusMessage { friend });
    let m1 = ("request"@, JsonV::Str("GetFriendStatusMessage"@));
    let m2 = ("friend"@, JsonV::UInt(friend as u64));
    let ms = seq![m1, m2];
    assert(req_to_json(v) == JsonV::Obj(ms));
    assert(ms.drop_first() =~= seq![m2]);
    assert(seq![m2].drop_first() =~= Seq::<(Seq<char>, JsonV)>::empty());
    reveal_strlit("request");
    assert("request"@.len() == 7);
    reveal_strlit("GetFriendStatusMessage");
    assert("GetFriendStatusMessage"@.len() == 22);
    reveal_strlit("Info");
    assert("Info"@.len() == 4);
    assert("GetFriendStatusMessage"@ != "Info"@);
    reveal_strlit("AddFriend");
    assert("AddFriend"@.len() == 9);
    assert("GetFriendStatusMessage"@ != "AddFriend"@);
    reveal_strlit("AddFriendNorequest");
    assert("AddFriendNorequest"@.len() == 18);
    assert("GetFriendStatusMessage"@ != "AddFriendNorequest"@);
    reveal_strlit("SendFriendMessage");
    assert("SendFriendMessage"@.len() == 17);
    assert("GetFriendStatusMessage"@ != "SendFriendMessage"@);
    reveal_strlit("DeleteFriend");
    assert("DeleteFriend"@.len() == 12);
    assert("GetFriendStatusMessage"@ != "DeleteFriend"@);
    reveal_strlit("GetConnectionStatus");
    assert("GetConnectionStatus"@.len() == 19);
    assert("GetFriendStatusMessage"@ != "GetConnectionStatus"@);
    reveal_strlit("GetAddress");
    assert("GetAddress"@.len() == 10);
    assert("GetFriendStatusMessage"@ != "GetAddress"@);
    reveal_strlit("GetNospam");
    assert("GetNospam"@.len() == 9);
    assert("GetFriendStatusMessage"@ != "GetNospam"@);
    reveal_strlit("SetNospam");
    assert("SetNospam"@.len() == 9);
    assert("GetFriendStatusMessage"@ != "SetNospam"@);
    reveal_strlit("GetPublicKey");
    assert("GetPublicKey"@.len() == 12);
    assert("GetFriendStatusMessage"@ != "GetPublicKey"@);
    reveal_strlit("SetName");
    assert("SetName"@.len() == 7);
    assert("GetFriendStatusMessage"@ != "SetName"@);
    reveal_strlit("GetName");
    assert("GetName"@.len() == 7);
    assert("GetFriendStatusMessage"@ != "GetName"@);
    reveal_strlit("SetStatusMessage");
    assert("SetStatusMessage"@.len() == 16);
    assert("GetFriendStatusMessage"@ != "SetStatusMessage"@);
    reveal_strlit("GetStatusMessage");
    assert("GetStatusMessage"@.len() == 16);
    assert("GetFriendStatusMessage"@ != "GetStatusMessage"@);
    reveal_strlit("SetStatus");
    assert("SetStatus"@.len() == 9);
    assert("GetFriendStatusMessage"@ != "SetStatus"@);
    reveal_strlit("GetStatus");
    assert("GetStatus"@.len() == 9);
    assert("GetFriendStatusMessage"@ != "GetStatus"@);
    reveal_strlit("FriendByPublicKey");
    assert("FriendByPublicKey"@.len() == 17);
    assert("GetFriendStatusMessage"@ != "FriendByPublicKey"@);
    reveal_strlit("FriendExists");
    assert("FriendExists"@.len() == 12);
    assert("GetFriendStatusMessage"@ != "FriendExists"@);
    reveal_strlit("GetFriendPublicKey");
    assert("GetFriendPublicKey"@.len() == 18);
    assert("GetFriendStatusMessage"@ != "GetFriendPublicKey"@);
    reveal_strlit("GetFriendLastOnline");
    assert("GetFriendLastOnline"@.len() == 19);
    assert("GetFriendStatusMessage"@ != "GetFriendLastOnline"@);
    reveal_strlit("GetFriendName");
    assert("GetFriendName"@.len() == 13);
    assert("GetFriendStatusMessage"@ != "GetFriendName"@);
    reveal_strlit("friend");
    assert("friend"@.len() == 6);
    assert("friend"@ != "request"@);
    assert(jlookup(ms, "request"@) == Some(JsonV::Str("GetFriendStatusMessage"@)));
    assert(req_from_json(JsonV::Obj(ms)) == req_dispatch("GetFriendStatusMessage"@, ms));
    assert(req_dispatch("GetFriendStatusMessage"@, ms) == req_dispatch2("GetFriendStatusMessage"@, ms));
    assert(req_dispatch2("GetFriendStatusMessage"@, ms) == req_get_friend_status_message_from(ms));
    assert(jlookup(ms, "friend"@) == Some(m2.1));
    assert(sget_u32(ms, "friend"@) == Ok::<u32, DecodeError>(friend));
    assert(req_get_friend_status_message_from(ms) == Ok::<RequestV, DecodeError>(v));
    reveal_with_fuel(jdepth_fields, 10);
    assert(jdepth(m1.1) == 0);
    assert(jdepth(m2.1) == 0);
    assert(jdepth_fields(seq![m2]) <= 5);
    assert(jdepth_fields(seq![m1, m2]) <= 5);
    assert(jdepth(JsonV::Obj(ms)) <= 6);
}

proof fn lemma_req_get_friend_status_rt(friend: u32)
    ensures
        req_from_json(req_to_json((RequestV::GetFriendStatus { friend }))) == Ok::<RequestV, DecodeError>((RequestV::GetFriendStatus { friend })),
        jdepth(req_to_json((RequestV::GetFriendStatus { friend }))) <= 6,
{
    reveal_with_fuel(jlookup, 10);
    let v = (RequestV::GetFriendStatus { friend });
    let m1 = ("request"@, JsonV::Str("GetFriendStatus"@));
    let m2 = ("friend"@, JsonV::UInt(friend as u64));
    let ms = seq![m1, m2];
    assert(req_to_json(v) == JsonV::Obj(ms));
    assert(ms.drop_first() =~= seq![m2]);
    assert(seq![m2].drop_first() =~= Seq::<(Seq<char>, JsonV)>::empty());
    reveal_strlit("request");
    assert("request"@.len() == 7);
    reveal_strlit("GetFriendStatus");
    assert("GetFriendStatus"@.len() == 15);
    reveal_strlit("Info");
    assert("Info"@.len() == 4);
    assert("GetFriendStatus"@ != "Info"@);
    reveal_strlit("AddFriend");
    assert("AddFriend"@.len() == 9);
    assert("GetFriendStatus"@ != "AddFriend"@);
    reveal_strlit("AddFriendNorequest");
    assert("AddFriendNorequest"@.len() == 18);
    assert("GetFriendStatus"@ != "AddFriendNorequest"@);
    reveal_strlit("SendFriendMessage");
    assert("SendFriendMessage"@.len() == 17);
    assert("GetFriendStatus"@ != "SendFriendMessage"@);
    reveal_strlit("DeleteFriend");
    assert("DeleteFriend"@.len() == 12);
    assert("GetFriendStatus"@ != "DeleteFriend"@);
    reveal_strlit("GetConnectionStatus");
    assert("GetConnectionStatus"@.len() == 19);
    assert("GetFriendStatus"@ != "GetConnectionStatus"@);
    reveal_strlit("GetAddress");
    assert("GetAddress"@.len() == 10);
    assert("GetFriendStatus"@ != "GetAddress"@);
    reveal_strlit("GetNospam");
    assert("GetNospam"@.len() == 9);
    assert("GetFriendStatus"@ != "GetNospam"@);
    reveal_strlit("SetNospam");
    assert("SetNospam"@.len() == 9);
    assert("GetFriendStatus"@ != "SetNospam"@);
    reveal_strlit("GetPublicKey");
    assert("GetPublicKey"@.len() == 12);
    assert("GetFriendStatus"@ != "GetPublicKey"@);
    reveal_strlit("SetName");
    assert("SetName"@.len() == 7);
    assert("GetFriendStatus"@ != "SetName"@);
    reveal_strlit("GetName");
    assert("GetName"@.len() == 7);
    assert("GetFriendStatus"@ != "GetName"@);
    reveal_strlit("SetStatusMessage");
    assert("SetStatusMessage"@.len() == 16);
    assert("GetFriendStatus"@ != "SetStatusMessage"@);
    reveal_strlit("GetStatusMessage");
    assert("GetStatusMessage"@.len() == 16);
    assert("GetFriendStatus"@ != "GetStatusMessage"@);
    reveal_strlit("SetStatus");
    assert("SetStatus"@.len() == 9);
    assert("GetFriendStatus"@ != "SetStatus"@);
    reveal_strlit("GetStatus");
    assert("GetStatus"@.len() == 9);
    assert("GetFriendStatus"@ != "GetStatus"@);
    reveal_strlit("FriendByPublicKey");
    assert("FriendByPublicKey"@.len() == 17);
    assert("GetFriendStatus"@ != "FriendByPublicKey"@);
    reveal_strlit("FriendExists");
    assert("FriendExists"@.len() == 12);
    assert("GetFriendStatus"@ != "FriendExists"@);
    reveal_strlit("GetFriendPublicKey");
    assert("GetFriendPublicKey"@.len() == 18);
    assert("GetFriendStatus"@ != "GetFriendPublicKey"@);
    reveal_strlit("GetFriendLastOnline");
    assert("GetFriendLastOnline"@.len() == 19);
    assert("GetFriendStatus"@ != "GetFriendLastOnline"@);
    reveal_strlit("GetFriendName");
    assert("GetFriendName"@.len() == 13);
    assert("GetFriendStatus"@ != "GetFriendName"@);
    reveal_strlit("GetFriendStatusMessage");
    assert("GetFriendStatusMessage"@.len() == 22);
    assert("GetFriendStatus"@ != "GetFriendStatusMessage"@);
    reveal_strlit("friend");
    assert("friend"@.len() == 6);
    assert("friend"@ != "request"@);
    assert(jlookup(ms, "request"@) == Some(JsonV::Str("GetFriendStatus"@)));
    assert(req_from_json(JsonV::Obj(ms)) == req_dispatch("GetFriendStatus"@, ms));
    assert(req_dispatch("GetFriendStatus"@, ms) == req_dispatch2("GetFriendStatus"@, ms));
    assert(req_dispatch2("GetFriendStatus"@, ms) == req_get_friend_status_from(ms));
    assert(jlookup(ms, "friend"@) == Some(m2.1));
    assert(sget_u32(ms, "friend"@) == Ok::<u32, DecodeError>(friend));
    assert(req_get_friend_status_from(ms) == Ok::<RequestV, DecodeError>(v));
    reveal_with_fuel(jdepth_fields, 10);
    assert(jdepth(m1.1) == 0);
    assert(jdepth(m2.1) == 0);
    assert(jdepth_fields(seq![m2]) <= 5);
    assert(jdepth_fields(seq![m1, m2]) <= 5);
    assert(jdepth(JsonV::Obj(ms)) <= 6);
}

proof fn lemma_req_get_friend_connection_status_rt(friend: u32)
    ensures
        req_from_json(req_to_json((RequestV::GetFriendConnectionStatus { friend }))) == Ok::<RequestV, DecodeError>((RequestV::GetFriendConnectionStatus { friend })),
        jdepth(req_to_json((RequestV::GetFriendConnectionStatus { friend }))) <= 6,
{
    reveal_with_fuel(jlookup, 10);
    let v = (RequestV::GetFriendConnectionStatus { friend });
    let m1 = ("request"@, JsonV::Str("GetFriendConnectionStatus"@));
    let m2 = ("friend"@, JsonV::UInt(friend as u64));
    let ms = seq![m1, m2];
    assert(req_to_json(v) == JsonV::Obj(ms));
    assert(ms.drop_first() =~= seq![m2]);
    assert(seq![m2].drop_first() =~= Seq::<(Seq<char>, JsonV)>::empty());
    reveal_strlit("request");
    assert("request"@.len() == 7);
    reveal_strlit("GetFriendConnectionStatus");
    assert("GetFriendConnectionStatus"@.len() == 25);
    reveal_strlit("Info");
    assert("Info"@.len() == 4);
    assert("GetFriendConnectionStatus"@ != "Info"@);
    reveal_strlit("AddFriend");
    assert("AddFriend"@.len() == 9);
    assert("GetFriendConnectionStatus"@ != "AddFriend"@);
    reveal_strlit("AddFriendNorequest");
    assert("AddFriendNorequest"@.len() == 18);
    assert("GetFriendConnectionStatus"@ != "AddFriendNorequest"@);
    reveal_strlit("SendFriendMessage");
    assert("SendFriendMessage"@.len() == 17);
    assert("GetFriendConnectionStatus"@ != "SendFriendMessage"@);
    reveal_strlit("DeleteFriend");
    assert("DeleteFriend"@.len() == 12);
    assert("GetFriendConnectionStatus"@ != "DeleteFriend"@);
    reveal_strlit("GetConnectionStatus");
    assert("GetConnectionStatus"@.len() == 19);
    assert("GetFriendConnectionStatus"@ != "GetConnectionStatus"@);
    reveal_strlit("GetAddress");
    assert("GetAddress"@.len() == 10);
    assert("GetFriendConnectionStatus"@ != "GetAddress"@);
    reveal_strlit("GetNospam");
    assert("GetNospam"@.len() == 9);
    assert("GetFriendConnectionStatus"@ != "GetNospam"@);
    reveal_strlit("SetNospam");
    assert("SetNospam"@.len() == 9);
    assert("GetFriendConnectionStatus"@ != "SetNospam"@);
    reveal_strlit("GetPublicKey");
    assert("GetPublicKey"@.len() == 12);
    assert("GetFriendConnectionStatus"@ != "GetPublicKey"@);
    reveal_strlit("SetName");
    assert("SetName"@.len() == 7);
    assert("GetFriendConnectionStatus"@ != "SetName"@);
    reveal_strlit("GetName");
    assert("GetName"@.len() == 7);
    assert("GetFriendConnectionStatus"@ != "GetName"@);
    reveal_strlit("SetStatusMessage");
    assert("SetStatusMessage"@.len() == 16);
    assert("GetFriendConnectionStatus"@ != "SetStatusMessage"@);
    reveal_strlit("GetStatusMessage");
    assert("GetStatusMessage"@.len() == 16);
    assert("GetFriendConnectionStatus"@ != "GetStatusMessage"@);
    reveal_strlit("SetStatus");
    assert("SetStatus"@.len() == 9);
    assert("GetFriendConnectionStatus"@ != "SetStatus"@);
    reveal_strlit("GetStatus");
    assert("GetStatus"@.len() == 9);
    assert("GetFriendConnectionStatus"@ != "GetStatus"@);
    reveal_strlit("FriendByPublicKey");
    assert("FriendByPublicKey"@.len() == 17);
    assert("GetFriendConnectionStatus"@ != "FriendByPublicKey"@);
    reveal_strlit("FriendExists");
    assert("FriendExists"@.len() == 12);
    assert("GetFriendConnectionStatus"@ != "FriendExists"@);
    reveal_strlit("GetFriendPublicKey");
    assert("GetFriendPublicKey"@.len() == 18);
    assert("GetFriendConnectionStatus"@ != "GetFriendPublicKey"@);
    reveal_strlit("GetFriendLastOnline");
    assert("GetFriendLastOnline"@.len() == 19);
    assert("GetFriendConnectionStatus"@ != "GetFriendLastOnline"@);
    reveal_strlit("GetFriendName");
    assert("GetFriendName"@.len() == 13);
    assert("GetFriendConnectionStatus"@ != "GetFriendName"@);
    reveal_strlit("GetFriendStatusMessage");
    assert("GetFriendStatusMessage"@.len() == 22);
    assert("GetFriendConnectionStatus"@ != "GetFriendStatusMessage"@);
    reveal_strlit("GetFriendStatus");
    assert("GetFriendStatus"@.len() == 15);
    assert("GetFriendConnectionStatus"@ != "GetFriendStatus"@);
    reveal_strlit("friend");
    assert("friend"@.len() == 6);
    assert("friend"@ != "request"@);
    assert(jlookup(ms, "request"@) == Some(JsonV::Str("GetFriendConnectionStatus"@)));
    assert(req_from_json(JsonV::Obj(ms)) == req_dispatch("GetFriendConnectionStatus"@, ms));
    assert(req_dispatch("GetFriendConnectionStatus"@, ms) == req_dispatch2("GetFriendConnectionStatus"@, ms));
    assert(req_dispatch2("GetFriendConnectionStatus"@, ms) == req_get_friend_connection_status_from(ms));
    assert(jlookup(ms, "friend"@) == Some(m2.1));
    assert(sget_u32(ms, "friend"@) == Ok::<u32, DecodeError>(friend));
    assert(req_get_friend_connection_status_from(ms) == Ok::<RequestV, DecodeError>(v));
    reveal_with_fuel(jdepth_fields, 10);
    assert(jdepth(m1.1) == 0);
    assert(jdepth(m2.1) == 0);
    assert(jdepth_fields(seq![m2]) <= 5);
    assert(jdepth_fields(seq![m1, m2]) <= 5);
    assert(jdepth(JsonV::Obj(ms)) <= 6);
}

proof fn lemma_req_control_file_rt(friend: u32, file_number: u32, control: FileControl)
    ensures
        req_from_json(req_to_json((RequestV::ControlFile { friend, file_number, control }))) == Ok::<RequestV, DecodeError>((RequestV::ControlFile { friend, file_number, control })),
        jdepth(req_to_json((RequestV::ControlFile { friend, file_number, control }))) <= 6,
{
    reveal_with_fuel(jlookup, 10);
    let v = (RequestV::ControlFile { friend, file_number, control });
    let m1 = ("request"@, JsonV::Str("ControlFile"@));
    let m2 = ("friend"@, JsonV::UInt(friend as u64));
    let m3 = ("file_number"@, JsonV::UInt(file_number as u64));
    let m4 = ("control"@, JsonV::Str(file_control_str(control)));
    let ms = seq![m1, m2, m3, m4];
    assert(req_to_json(v) == JsonV::Obj(ms));
    assert(ms.drop_first() =~= seq![m2, m3, m4]);
    assert(seq![m2, m3, m4].drop_first() =~= seq![m3, m4]);
    assert(seq![m3, m4].drop_first() =~= seq![m4]);
    assert(seq![m4].drop_first() =~= Seq::<(Seq<char>, JsonV)>::empty());
    reveal_strlit("request");
    assert("request"@.len() == 7);
    reveal_strlit("ControlFile");
    assert("ControlFile"@.len() == 11);
    reveal_strlit("Info");
    assert("Info"@.len() == 4);
    assert("ControlFile"@ != "Info"@);
    reveal_strlit("AddFriend");
    assert("AddFriend"@.len() == 9);
    assert("ControlFile"@ != "AddFriend"@);
    reveal_strlit("AddFriendNorequest");
    assert("AddFriendNorequest"@.len() == 18);
    assert("ControlFile"@ != "AddFriendNorequest"@);
    reveal_strlit("SendFriendMessage");
    assert("SendFriendMessage"@.len() == 17);
    assert("ControlFile"@ != "SendFriendMessage"@);
    reveal_strlit("DeleteFriend");
    assert("DeleteFriend"@.len() == 12);
    assert("ControlFile"@ != "DeleteFriend"@);
    reveal_strlit("GetConnectionStatus");
    assert("GetConnectionStatus"@.len() == 19);
    assert("ControlFile"@ != "GetConnectionStatus"@);
    reveal_strlit("GetAddress");
    assert("GetAddress"@.len() == 10);
    assert("ControlFile"@ != "GetAddress"@);
    reveal_strlit("GetNospam");
    assert("GetNospam"@.len() == 9);
    assert("ControlFile"@ != "GetNospam"@);
    reveal_strlit("SetNospam");
    assert("SetNospam"@.len() == 9);
    assert("ControlFile"@ != "SetNospam"@);
    reveal_strlit("GetPublicKey");
    assert("GetPublicKey"@.len() == 12);
    assert("ControlFile"@ != "GetPublicKey"@);
    reveal_strlit("SetName");
    assert("SetName"@.len() == 7);
    assert("ControlFile"@ != "SetName"@);
    reveal_strlit("GetName");
    assert("GetName"@.len() == 7);
    assert("ControlFile"@ != "GetName"@);
    reveal_strlit("SetStatusMessage");
    assert("SetStatusMessage"@.len() == 16);
    assert("ControlFile"@ != "SetStatusMessage"@);
    reveal_strlit("GetStatusMessage");
    assert("GetStatusMessage"@.len() == 16);
    assert("ControlFile"@ != "GetStatusMessage"@);
    reveal_strlit("SetStatus");
    assert("SetStatus"@.len() == 9);
    assert("ControlFile"@ != "SetStatus"@);
    reveal_strlit("GetStatus");
    assert("GetStatus"@.len() == 9);
    assert("ControlFile"@ != "GetStatus"@);
    reveal_strlit("FriendByPublicKey");
    assert("FriendByPublicKey"@.len() == 17);
    assert("ControlFile"@ != "FriendByPublicKey"@);
    reveal_strlit("FriendExists");
    assert("FriendExists"@.len() == 12);
    assert("ControlFile"@ != "FriendExists"@);
    reveal_strlit("GetFriendPublicKey");
    assert("GetFriendPublicKey"@.len() == 18);
    assert("ControlFile"@ != "GetFriendPublicKey"@);
    reveal_strlit("GetFriendLastOnline");
    assert("GetFriendLastOnline"@.len() == 19);
    assert("ControlFile"@ != "GetFriendLastOnline"@);
    reveal_strlit("GetFriendName");
    assert("GetFriendName"@.len() == 13);
    assert("ControlFile"@ != "GetFriendName"@);
    reveal_strlit("GetFriendStatusMessage");
    assert("GetFriendStatusMessage"@.len() == 22);
    assert("ControlFile"@ != "GetFriendStatusMessage"@);
    reveal_strlit("GetFriendStatus");
    assert("GetFriendStatus"@.len() == 15);
    assert("ControlFile"@ != "GetFriendStatus"@);
    reveal_strlit("GetFriendConnectionStatus");
    assert("GetFriendConnectionStatus"@.len() == 25);
    assert("ControlFile"@ != "GetFriendConnectionStatus"@);
    reveal_strlit("friend");
    assert("friend"@.len() == 6);
    assert("friend"@ != "request"@);
    reveal_strlit("file_number");
    assert("file_number"@.len() == 11);
    assert("file_number"@ != "request"@);
    assert("file_number"@ != "friend"@);
    reveal_strlit("control");
    assert("control"@.len() == 7);
    assert("control"@[0] == 'c');
    assert("request"@[0] == 'r');
    assert("control"@ != "request"@);
    assert("control"@ != "friend"@);
    assert("control"@ != "file_number"@);
    assert(jlookup(ms, "request"@) == Some(JsonV::Str("ControlFile"@)));
    assert(req_from_json(JsonV::Obj(ms)) == req_dispatch("ControlFile"@, ms));
    assert(req_dispatch("ControlFile"@, ms) == req_dispatch2("ControlFile"@, ms));
    assert(req_dispatch2("ControlFile"@, ms) == req_dispatch3("ControlFile"@, ms));
    assert(req_dispatch3("ControlFile"@, ms) == req_control_file_from(ms));
    assert(jlookup(ms, "friend"@) == Some(m2.1));
    assert(sget_u32(ms, "friend"@) == Ok::<u32, DecodeError>(friend));
    assert(jlookup(ms, "file_number"@) == Some(m3.1));
    assert(sget_u32(ms, "file_number"@) == Ok::<u32, DecodeError>(file_number));
    lemma_file_control_rt(control);
    assert(jlookup(ms, "control"@) == Some(m4.1));
    assert(sget_file_control(ms, "control"@) == Ok::<FileControl, DecodeError>(control));
    assert(req_control_file_from(ms) == Ok::<RequestV, DecodeError>(v));
    reveal_with_fuel(jdepth_fields, 10);
    assert(jdepth(m1.1) == 0);
    assert(jdepth(m2.1) == 0);
    assert(jdepth(m3.1) == 0);
    assert(jdepth(m4.1) == 0);
    assert(jdepth_fields(seq![m4]) <= 5);
    assert(jdepth_fields(seq![m3, m4]) <= 5);
    assert(jdepth_fields(seq![m2, m3, m4]) <= 5);
    assert(jdepth_fields(seq![m1, m2, m3, m4]) <= 5);
    assert(jdepth(JsonV::Obj(ms)) <= 6);
}

proof fn lemma_req_seek_file_rt(friend: u32, file_number: u32, position: usize)
    ensures
        req_from_json(req_to_json((RequestV::SeekFile { friend, file_number, position }))) == Ok::<RequestV, DecodeError>((RequestV::SeekFile { friend, file_number, position })),
        jdepth(req_to_json((RequestV::SeekFile { friend, file_number, position }))) <= 6,
{
    reveal_with_fuel(jlookup, 10);
    let v = (RequestV::SeekFile { friend, file_number, position });
    let m1 = ("request"@, JsonV::Str("SeekFile"@));
    let m2 = ("friend"@, JsonV::UInt(friend as u64));
    let m3 = ("file_number"@, JsonV::UInt(file_number as u64));
    let m4 = ("position"@, JsonV::UInt(position as u64));
    let ms = seq![m1, m2, m3, m4];
    assert(req_to_json(v) == JsonV::Obj(ms));
    assert(ms.drop_first() =~= seq![m2, m3, m4]);
    assert(seq![m2, m3, m4].drop_first() =~= seq![m3, m4]);
    assert(seq![m3, m4].drop_first() =~= seq![m4]);
    assert(seq![m4].drop_first() =~= Seq::<(Seq<char>, JsonV)>::empty());
    reveal_strlit("request");
    assert("request"@.len() == 7);
    reveal_strlit("SeekFile");
    assert("SeekFile"@.len() == 8);
    reveal_strlit("Info");
    assert("Info"@.len() == 4);
    assert("SeekFile"@ != "Info"@);
    reveal_strlit("AddFriend");
    assert("AddFriend"@.len() == 9);
    assert("SeekFile"@ != "AddFriend"@);
    reveal_strlit("AddFriendNorequest");
    assert("AddFriendNorequest"@.len() == 18);
    assert("SeekFile"@ != "AddFriendNorequest"@);
    reveal_strlit("SendFriendMessage");
    assert("SendFriendMessage"@.len() == 17);
    assert("SeekFile"@ != "SendFriendMessage"@);
    reveal_strlit("DeleteFriend");
    assert("DeleteFriend"@.len() == 12);
    assert("SeekFile"@ != "DeleteFriend"@);
    reveal_strlit("GetConnectionStatus");
    assert("GetConnectionStatus"@.len() == 19);
    assert("SeekFile"@ != "GetConnectionStatus"@);
    reveal_strlit("GetAddress");
    assert("GetAddress"@.len() == 10);
    assert("SeekFile"@ != "GetAddress"@);
    reveal_strlit("GetNospam");
    assert("GetNospam"@.len() == 9);
    assert("SeekFile"@ != "GetNospam"@);
    reveal_strlit("SetNospam");
    assert("SetNospam"@.len() == 9);
    assert("SeekFile"@ != "SetNospam"@);
    reveal_strlit("GetPublicKey");
    assert("GetPublicKey"@.len() == 12);
    assert("SeekFile"@ != "GetPublicKey"@);
    reveal_strlit("SetName");
    assert("SetName"@.len() == 7);
    assert("SeekFile"@ != "SetName"@);
    reveal_strlit("GetName");
    assert("GetName"@.len() == 7);
    assert("SeekFile"@ != "GetName"@);
    reveal_strlit("SetStatusMessage");
    assert("SetStatusMessage"@.len() == 16);
    assert("SeekFile"@ != "SetStatusMessage"@);
    reveal_strlit("GetStatusMessage");
    assert("GetStatusMessage"@.len() == 16);
    assert("SeekFile"@ != "GetStatusMessage"@);
    reveal_strlit("SetStatus");
    assert("SetStatus"@.len() == 9);
    assert("SeekFile"@ != "SetStatus"@);
    reveal_strlit("GetStatus");
    assert("GetStatus"@.len() == 9);
    assert("SeekFile"@ != "GetStatus"@);
    reveal_strlit("FriendByPublicKey");
    assert("FriendByPublicKey"@.len() == 17);
    assert("SeekFile"@ != "FriendByPublicKey"@);
    reveal_strlit("FriendExists");
    assert("FriendExists"@.len() == 12);
    assert("SeekFile"@ != "FriendExists"@);
    reveal_strlit("GetFriendPublicKey");
    assert("GetFriendPublicKey"@.len() == 18);
    assert("SeekFile"@ != "GetFriendPublicKey"@);
    reveal_strlit("GetFriendLastOnline");
    assert("GetFriendLastOnline"@.len() == 19);
    assert("SeekFile"@ != "GetFriendLastOnline"@);
    reveal_strlit("GetFriendName");
    assert("GetFriendName"@.len() == 13);
    assert("SeekFile"@ != "GetFriendName"@);
    reveal_strlit("GetFriendStatusMessage");
    assert("GetFriendStatusMessage"@.len() == 22);
    assert("SeekFile"@ != "GetFriendStatusMessage"@);
    reveal_strlit("GetFriendStatus");
    assert("GetFriendStatus"@.len() == 15);
    assert("SeekFile"@ != "GetFriendStatus"@);
    reveal_strlit("GetFriendConnectionStatus");
    assert("GetFriendConnectionStatus"@.len() == 25);
    assert("SeekFile"@ != "GetFriendConnectionStatus"@);
    reveal_strlit("ControlFile");
    assert("ControlFile"@.len() == 11);
    assert("SeekFile"@ != "ControlFile"@);
    reveal_strlit("friend");
    assert("friend"@.len() == 6);
    assert("friend"@ != "request"@);
    reveal_strlit("file_number");
    assert("file_number"@.len() == 11);
    assert("file_number"@ != "request"@);
    assert("file_number"@ != "friend"@);
    reveal_strlit("position");
    assert("position"@.len() == 8);
    assert("position"@ != "request"@);
    assert("position"@ != "friend"@);
    assert("position"@ != "file_number"@);
    assert(jlookup(ms, "request"@) == Some(JsonV::Str("SeekFile"@)));
    assert(req_from_json(JsonV::Obj(ms)) == req_dispatch("SeekFile"@, ms));
    assert(req_dispatch("SeekFile"@, ms) == req_dispatch2("SeekFile"@, ms));
    assert(req_dispatch2("SeekFile"@, ms) == req_dispatch3("SeekFile"@, ms));
    assert(req_dispatch3("SeekFile"@, ms) == req_seek_file_from(ms));
    assert(jlookup(ms, "friend"@) == Some(m2.1));
    assert(sget_u32(ms, "friend"@) == Ok::<u32, DecodeError>(friend));
    assert(jlookup(ms, "file_number"@) == Some(m3.1));
    assert(sget_u32(ms, "file_number"@) == Ok::<u32, DecodeError>(file_number));
    assert(jlookup(ms, "position"@) == Some(m4.1));
    assert(sget_usize(ms, "position"@) == Ok::<usize, DecodeError>(position));
    assert(req_seek_file_from(ms) == Ok::<RequestV, DecodeError>(v));
    reveal_with_fuel(jdepth_fields, 10);
    assert(jdepth(m1.1) == 0);
    assert(jdepth(m2.1) == 0);
    assert(jdepth(m3.1) == 0);
    assert(jdepth(m4.1) == 0);
    assert(jdepth_fields(seq![m4]) <= 5);
    assert(jdepth_fields(seq![m3, m4]) <= 5);
    assert(jdepth_fields(seq![m2, m3, m4]) <= 5);
    assert(jdepth_fields(seq![m1, m2, m3, m4]) <= 5);
    assert(jdepth(JsonV::Obj(ms)) <= 6);
}

proof fn lemma_req_get_file_id_rt(friend: u32, file_number: u32)
    ensures
        req_from_json(req_to_json((RequestV::GetFileId { friend, file_number }))) == Ok::<RequestV, DecodeError>((RequestV::GetFileId { friend, file_number })),
        jdepth(req_to_json((RequestV::GetFileId { friend, file_number }))) <= 6,
{
    reveal_with_fuel(jlookup, 10);
    let v = (RequestV::GetFileId { friend, file_number });
    let m1 = ("request"@, JsonV::Str("GetFileId"@));
    let m2 = ("friend"@, JsonV::UInt(friend as u64));
    let m3 = ("file_number"@, JsonV::UInt(file_number as u64));
    let ms = seq![m1, m2, m3];
    assert(req_to_json(v) == JsonV::Obj(ms));
    assert(ms.drop_first() =~= seq![m2, m3]);
    assert(seq![m2, m3].drop_first() =~= seq![m3]);
    assert(seq![m3].drop_first() =~= Seq::<(Seq<char>, JsonV)>::empty());
    reveal_strlit("request");
    assert("request"@.len() == 7);
    reveal_strlit("GetFileId");
    assert("GetFileId"@.len() == 9);
    reveal_strlit("Info");
    assert("Info"@.len() == 4);
    assert("GetFileId"@ != "Info"@);
    reveal_strlit("AddFriend");
    assert("AddFriend"@.len() == 9);
    assert("GetFileId"@[0] == 'G');
    assert("AddFriend"@[0] == 'A');
    assert("GetFileId"@ != "AddFriend"@);
    reveal_strlit("AddFriendNorequest");
    assert("AddFriendNorequest"@.len() == 18);
    assert("GetFileId"@ != "AddFriendNorequest"@);
    reveal_strlit("SendFriendMessage");
    assert("SendFriendMessage"@.len() == 17);
    assert("GetFileId"@ != "SendFriendMessage"@);
    reveal_strlit("DeleteFriend");
    assert("DeleteFriend"@.len() == 12);
    assert("GetFileId"@ != "DeleteFriend"@);
    reveal_strlit("GetConnectionStatus");
    assert("GetConnectionStatus"@.len() == 19);
    assert("GetFileId"@ != "GetConnectionStatus"@);
    reveal_strlit("GetAddress");
    assert("GetAddress"@.len() == 10);
    assert("GetFileId"@ != "GetAddress"@);
    reveal_strlit("GetNospam");
    assert("GetNospam"@.len() == 9);
    assert("GetFileId"@[3] == 'F');
    assert("GetNospam"@[3] == 'N');
    assert("GetFileId"@ != "GetNospam"@);
    reveal_strlit("SetNospam");
    assert("SetNospam"@.len() == 9);
    assert("GetFileId"@[0] == 'G');
    assert("SetNospam"@[0] == 'S');
    assert("GetFileId"@ != "SetNospam"@);
    reveal_strlit("GetPublicKey");
    assert("GetPublicKey"@.len() == 12);
    assert("GetFileId"@ != "GetPublicKey"@);
    reveal_strlit("SetName");
    assert("SetName"@.len() == 7);
    assert("GetFileId"@ != "SetName"@);
    reveal_strlit("GetName");
    assert("GetName"@.len() == 7);
    assert("GetFileId"@ != "GetName"@);
    reveal_strlit("SetStatusMessage");
    assert("SetStatusMessage"@.len() == 16);
    assert("GetFileId"@ != "SetStatusMessage"@);
    reveal_strlit("GetStatusMessage");
    assert("GetStatusMessage"@.len() == 16);
    assert("GetFileId"@ != "GetStatusMessage"@);
    reveal_strlit("SetStatus");
    assert("SetStatus"@.len() == 9);
    assert("GetFileId"@[0] == 'G');
    assert("SetStatus"@[0] == 'S');
    assert("GetFileId"@ != "SetStatus"@);
    reveal_strlit("GetStatus");
    assert("GetStatus"@.len() == 9);
    assert("GetFileId"@[3] == 'F');
    assert("GetStatus"@[3] == 'S');
    assert("GetFileId"@ != "GetStatus"@);
    reveal_strlit("FriendByPublicKey");
    assert("FriendByPublicKey"@.len() == 17);
    assert("GetFileId"@ != "FriendByPublicKey"@);
    reveal_strlit("FriendExists");
    assert("FriendExists"@.len() == 12);
    assert("GetFileId"@ != "FriendExists"@);
    reveal_strlit("GetFriendPublicKey");
    assert("GetFriendPublicKey"@.len() == 18);
    assert("GetFileId"@ != "GetFriendPublicKey"@);
    reveal_strlit("GetFriendLastOnline");
    assert("GetFriendLastOnline"@.len() == 19);
    assert("GetFileId"@ != "GetFriendLastOnline"@);
    reveal_strlit("GetFriendName");
    assert("GetFriendName"@.len() == 13);
    assert("GetFileId"@ != "GetFriendName"@);
    reveal_strlit("GetFriendStatusMessage");
    assert("GetFriendStatusMessage"@.len() == 22);
    assert("GetFileId"@ != "GetFriendStatusMessage"@);
    reveal_strlit("GetFriendStatus");
    assert("GetFriendStatus"@.len() == 15);
    assert("GetFileId"@ != "GetFriendStatus"@);
    reveal_strlit("GetFriendConnectionStatus");
    assert("GetFriendConnectionStatus"@.len() == 25);
    assert("GetFileId"@ != "GetFriendConnectionStatus"@);
    reveal_strlit("ControlFile");
    assert("ControlFile"@.len() == 11);
    assert("GetFileId"@ != "ControlFile"@);
    reveal_strlit("SeekFile");
    assert("SeekFile"@.len() == 8);
    assert("GetFileId"@ != "SeekFile"@);
    reveal_strlit("friend");
    assert("friend"@.len() == 6);
    assert("friend"@ != "request"@);
    reveal_strlit("file_number");
    assert("file_number"@.len() == 11);
    assert("file_number"@ != "request"@);
    assert("file_number"@ != "friend"@);
    assert(jlookup(ms, "request"@) == Some(JsonV::Str("GetFileId"@)));
    assert(req_from_json(JsonV::Obj(ms)) == req_dispatch("GetFileId"@, ms));
    assert(req_dispatch("GetFileId"@, ms) == req_dispatch2("GetFileId"@, ms));
    assert(req_dispatch2("GetFileId"@, ms) == req_dispatch3("GetFileId"@, ms));
    assert(req_dispatch3("GetFileId"@, ms) == req_get_file_id_from(ms));
    assert(jlookup(ms, "friend"@) == Some(m2.1));
    assert(sget_u32(ms, "friend"@) == Ok::<u32, DecodeError>(friend));
    assert(jlookup(ms, "file_number"@) == Some(m3.1));
    assert(sget_u32(ms, "file_number"@) == Ok::<u32, DecodeError>(file_number));
    assert(req_get_file_id_from(ms) == Ok::<RequestV, DecodeError>(v));
    reveal_with_fuel(jdepth_fields, 10);
    assert(jdepth(m1.1) == 0);
    assert(jdepth(m2.1) == 0);
    assert(jdepth(m3.1) == 0);
    assert(jdepth_fields(seq![m3]) <= 5);
    assert(jdepth_fields(seq![m2, m3]) <= 5);
    assert(jdepth_fields(seq![m1, m2, m3]) <= 5);
    assert(jdepth(JsonV::Obj(ms)) <= 6);
}

proof fn lemma_req_send_file_rt(friend: u32, kind: FileKind, file_size: usize, file_name: Seq<char>)
    ensures
        req_from_json(req_to_json((RequestV::SendFile { friend, kind, file_size, file_name }))) == Ok::<RequestV, DecodeError>((RequestV::SendFile { friend, kind, file_size, file_name })),
        jdepth(req_to_json((RequestV::SendFile { friend, kind, file_size, file_name }))) <= 6,
{
    reveal_with_fuel(jlookup, 10);
    let v = (RequestV::SendFile { friend, kind, file_size, file_name });
    let m1 = ("request"@, JsonV::Str("SendFile"@));
    let m2 = ("friend"@, JsonV::UInt(friend as u64));
    let m3 = ("kind"@, JsonV::Str(file_kind_str(kind)));
    let m4 = ("file_size"@, JsonV::UInt(file_size as u64));
    let m5 = ("file_name"@, JsonV::Str(file_name));
    let ms = seq![m1, m2, m3, m4, m5];
    assert(req_to_json(v) == JsonV::Obj(ms));
    assert(ms.drop_first() =~= seq![m2, m3, m4, m5]);
    assert(seq![m2, m3, m4, m5].drop_first() =~= seq![m3, m4, m5]);
    assert(seq![m3, m4, m5].drop_first() =~= seq![m4, m5]);
    assert(seq![m4, m5].drop_first() =~= seq![m5]);
    assert(seq![m5].drop_first() =~= Seq::<(Seq<char>, JsonV)>::empty());
    reveal_strlit("request");
    assert("request"@.len() == 7);
    reveal_strlit("SendFile");
    assert("SendFile"@.len() == 8);
    reveal_strlit("Info");
    assert("Info"@.len() == 4);
    assert("SendFile"@ != "Info"@);
    reveal_strlit("AddFriend");
    assert("AddFriend"@.len() == 9);
    assert("SendFile"@ != "AddFriend"@);
    reveal_strlit("AddFriendNorequest");
    assert("AddFriendNorequest"@.len() == 18);
    assert("SendFile"@ != "AddFriendNorequest"@);
    reveal_strlit("SendFriendMessage");
    assert("SendFriendMessage"@.len() == 17);
    assert("SendFile"@ != "SendFriendMessage"@);
    reveal_strlit("DeleteFriend");
    assert("DeleteFriend"@.len() == 12);
    assert("SendFile"@ != "DeleteFriend"@);
    reveal_strlit("GetConnectionStatus");
    assert("GetConnectionStatus"@.len() == 19);
    assert("SendFile"@ != "GetConnectionStatus"@);
    reveal_strlit("GetAddress");
    assert("GetAddress"@.len() == 10);
    assert("SendFile"@ != "GetAddress"@);
    reveal_strlit("GetNospam");
    assert("GetNospam"@.len() == 9);
    assert("SendFile"@ != "GetNospam"@);
    reveal_strlit("SetNospam");
    assert("SetNospam"@.len() == 9);
    assert("SendFile"@ != "SetNospam"@);
    reveal_strlit("GetPublicKey");
    assert("GetPublicKey"@.len() == 12);
    assert("SendFile"@ != "GetPublicKey"@);
    reveal_strlit("SetName");
    assert("SetName"@.len() == 7);
    assert("SendFile"@ != "SetName"@);
    reveal_strlit("GetName");
    assert("GetName"@.len() == 7);
    assert("SendFile"@ != "GetName"@);
    reveal_strlit("SetStatusMessage");
    assert("SetStatusMessage"@.len() == 16);
    assert("SendFile"@ != "SetStatusMessage"@);
    reveal_strlit("GetStatusMessage");
    assert("GetStatusMessage"@.len() == 16);
    assert("SendFile"@ != "GetStatusMessage"@);
    reveal_strlit("SetStatus");
    assert("SetStatus"@.len() == 9);
    assert("SendFile"@ != "SetStatus"@);
    reveal_strlit("GetStatus");
    assert("GetStatus"@.len() == 9);
    assert("SendFile"@ != "GetStatus"@);
    reveal_strlit("FriendByPublicKey");
    assert("FriendByPublicKey"@.len() == 17);
    assert("SendFile"@ != "FriendByPublicKey"@);
    reveal_strlit("FriendExists");
    assert("FriendExists"@.len() == 12);
    assert("SendFile"@ != "FriendExists"@);
    reveal_strlit("GetFriendPublicKey");
    assert("GetFriendPublicKey"@.len() == 18);
    assert("SendFile"@ != "GetFriendPublicKey"@);
    reveal_strlit("GetFriendLastOnline");
    assert("GetFriendLastOnline"@.len() == 19);
    assert("SendFile"@ != "GetFriendLastOnline"@);
    reveal_strlit("GetFriendName");
    assert("GetFriendName"@.len() == 13);
    assert("SendFile"@ != "GetFriendName"@);
    reveal_strlit("GetFriendStatusMessage");
    assert("GetFriendStatusMessage"@.len() == 22);
    assert("SendFile"@ != "GetFriendStatusMessage"@);
    reveal_strlit("GetFriendStatus");
    assert("GetFriendStatus"@.len() == 15);
    assert("SendFile"@ != "GetFriendStatus"@);
    reveal_strlit("GetFriendConnectionStatus");
    assert("GetFriendConnectionStatus"@.len() == 25);
    assert("SendFile"@ != "GetFriendConnectionStatus"@);
    reveal_strlit("ControlFile");
    assert("ControlFile"@.len() == 11);
    assert("SendFile"@ != "ControlFile"@);
    reveal_strlit("SeekFile");
    assert("SeekFile"@.len() == 8);
    assert("SendFile"@[2] == 'n');
    assert("SeekFile"@[2] == 'e');
    assert("SendFile"@ != "SeekFile"@);
    reveal_strlit("GetFileId");
    assert("GetFileId"@.len() == 9);
    assert("SendFile"@ != "GetFileId"@);
    reveal_strlit("friend");
    assert("friend"@.len() == 6);
    assert("friend"@ != "request"@);
    reveal_strlit("kind");
    assert("kind"@.len() == 4);
    assert("kind"@ != "request"@);
    assert("kind"@ != "friend"@);
    reveal_strlit("file_size");
    assert("file_size"@.len() == 9);
    assert("file_size"@ != "request"@);
    assert("file_size"@ != "friend"@);
    assert("file_size"@ != "kind"@);
    reveal_strlit("file_name");
    assert("file_name"@.len() == 9);
    assert("file_name"@ != "request"@);
    assert("file_name"@ != "friend"@);
    assert("file_name"@ != "kind"@);
    assert("file_name"@[5] == 'n');
    assert("file_size"@[5] == 's');
    assert("file_name"@ != "file_size"@);
    assert(jlookup(ms, "request"@) == Some(JsonV::Str("SendFile"@)));
    assert(req_from_json(JsonV::Obj(ms)) == req_dispatch("SendFile"@, ms));
    assert(req_dispatch("SendFile"@, ms) == req_dispatch2("SendFile"@, ms));
    assert(req_dispatch2("SendFile"@, ms) == req_dispatch3("SendFile"@, ms));
    assert(req_dispatch3("SendFile"@, ms) == req_send_file_from(ms));
    assert(jlookup(ms, "friend"@) == Some(m2.1));
    assert(sget_u32(ms, "friend"@) == Ok::<u32, DecodeError>(friend));
    lemma_file_kind_rt(kind);
    assert(jlookup(ms, "kind"@) == Some(m3.1));
    assert(sget_file_kind(ms, "kind"@) == Ok::<FileKind, DecodeError>(kind));
    assert(jlookup(ms, "file_size"@) == Some(m4.1));
    assert(sget_usize(ms, "file_size"@) == Ok::<usize, DecodeError>(file_size));
    assert(jlookup(ms, "file_name"@) == Some(m5.1));
    assert(sget_str(ms, "file_name"@) == Ok::<Seq<char>, DecodeError>(file_name));
    assert(req_send_file_from(ms) == Ok::<RequestV, DecodeError>(v));
    reveal_with_fuel(jdepth_fields, 10);
    assert(jdepth(m1.1) == 0);
    assert(jdepth(m2.1) == 0);
    assert(jdepth(m3.1) == 0);
    assert(jdepth(m4.1) == 0);
    assert(jdepth(m5.1) == 0);
    assert(jdepth_fields(seq![m5]) <= 5);
    assert(jdepth_fields(seq![m4, m5]) <= 5);
    assert(jdepth_fields(seq![m3, m4, m5]) <= 5);
    assert(jdepth_fields(seq![m2, m3, m4, m5]) <= 5);
    assert(jdepth_fields(seq![m1, m2, m3, m4, m5]) <= 5);
    assert(jdepth(JsonV::Obj(ms)) <= 6);
}

proof fn lemma_req_send_file_chunk_rt(friend: u32, file_number: u32, position: usize, data: Seq<u8>)
    ensures
        req_from_json(req_to_json((RequestV::SendFileChunk { friend, file_number, position, data }))) == Ok::<RequestV, DecodeError>((RequestV::SendFileChunk { friend, file_number, position, data })),
        jdepth(req_to_json((RequestV::SendFileChunk { friend, file_number, position, data }))) <= 6,
{
    reveal_with_fuel(jlookup, 10);
    let v = (RequestV::SendFileChunk { friend, file_number, position, data });
    let m1 = ("request"@, JsonV::Str("SendFileChunk"@));
    let m2 = ("friend"@, JsonV::UInt(friend as u64));
    let m3 = ("file_number"@, JsonV::UInt(file_number as u64));
    let m4 = ("position"@, JsonV::UInt(position as u64));
    let m5 = ("data"@, JsonV::Str(b64_of(data)));
    let ms = seq![m1, m2, m3, m4, m5];
    assert(req_to_json(v) == JsonV::Obj(ms));
    assert(ms.drop_first() =~= seq![m2, m3, m4, m5]);
    assert(seq![m2, m3, m4, m5].drop_first() =~= seq![m3, m4, m5]);
    assert(seq![m3, m4, m5].drop_first() =~= seq![m4, m5]);
    assert(seq![m4, m5].drop_first() =~= seq![m5]);
    assert(seq![m5].drop_first() =~= Seq::<(Seq<char>, JsonV)>::empty());
    reveal_strlit("request");
    assert("request"@.len() == 7);
    reveal_strlit("SendFileChunk");
    assert("SendFileChunk"@.len() == 13);
    reveal_strlit("Info");
    assert("Info"@.len() == 4);
    assert("SendFileChunk"@ != "Info"@);
    reveal_strlit("AddFriend");
    assert("AddFriend"@.len() == 9);
    assert("SendFileChunk"@ != "AddFriend"@);
    reveal_strlit("AddFriendNorequest");
    assert("AddFriendNorequest"@.len() == 18);
    assert("SendFileChunk"@ != "AddFriendNorequest"@);
    reveal_strlit("SendFriendMessage");
    assert("SendFriendMessage"@.len() == 17);
    assert("SendFileChunk"@ != "SendFriendMessage"@);
    reveal_strlit("DeleteFriend");
    assert("DeleteFriend"@.len() == 12);
    assert("SendFileChunk"@ != "DeleteFriend"@);
    reveal_strlit("GetConnectionStatus");
    assert("GetConnectionStatus"@.len() == 19);
    assert("SendFileChunk"@ != "GetConnectionStatus"@);
    reveal_strlit("GetAddress");
    assert("GetAddress"@.len() == 10);
    assert("SendFileChunk"@ != "GetAddress"@);
    reveal_strlit("GetNospam");
    assert("GetNospam"@.len() == 9);
    assert("SendFileChunk"@ != "GetNospam"@);
    reveal_strlit("SetNospam");
    assert("SetNospam"@.len() == 9);
    assert("SendFileChunk"@ != "SetNospam"@);
    reveal_strlit("GetPublicKey");
    assert("GetPublicKey"@.len() == 12);
    assert("SendFileChunk"@ != "GetPublicKey"@);
    reveal_strlit("SetName");
    assert("SetName"@.len() == 7);
    assert("SendFileChunk"@ != "SetName"@);
    reveal_strlit("GetName");
    assert("GetName"@.len() == 7);
    assert("SendFileChunk"@ != "GetName"@);
    reveal_strlit("SetStatusMessage");
    assert("SetStatusMessage"@.len() == 16);
    assert("SendFileChunk"@ != "SetStatusMessage"@);
    reveal_strlit("GetStatusMessage");
    assert("GetStatusMessage"@.len() == 16);
    assert("SendFileChunk"@ != "GetStatusMessage"@);
    reveal_strlit("SetStatus");
    assert("SetStatus"@.len() == 9);
    assert("SendFileChunk"@ != "SetStatus"@);
    reveal_strlit("GetStatus");
    assert("GetStatus"@.len() == 9);
    assert("SendFileChunk"@ != "GetStatus"@);
    reveal_strlit("FriendByPublicKey");
    assert("FriendByPublicKey"@.len() == 17);
    assert("SendFileChunk"@ != "FriendByPublicKey"@);
    reveal_strlit("FriendExists");
    assert("FriendExists"@.len() == 12);
    assert("SendFileChunk"@ != "FriendExists"@);
    reveal_strlit("GetFriendPublicKey");
    assert("GetFriendPublicKey"@.len() == 18);
    assert("SendFileChunk"@ != "GetFriendPublicKey"@);
    reveal_strlit("GetFriendLastOnline");
    assert("GetFriendLastOnline"@.len() == 19);
    assert("SendFileChunk"@ != "GetFriendLastOnline"@);
    reveal_strlit("GetFriendName");
    assert("GetFriendName"@.len() == 13);
    assert("SendFileChunk"@[0] == 'S');
    assert("GetFriendName"@[0] == 'G');
    assert("SendFileChunk"@ != "GetFriendName"@);
    reveal_strlit("GetFriendStatusMessage");
    assert("GetFriendStatusMessage"@.len() == 22);
    assert("SendFileChunk"@ != "GetFriendStatusMessage"@);
    reveal_strlit("GetFriendStatus");
    assert("GetFriendStatus"@.len() == 15);
    assert("SendFileChunk"@ != "GetFriendStatus"@);
    reveal_strlit("GetFriendConnectionStatus");
    assert("GetFriendConnectionStatus"@.len() == 25);
    assert("SendFileChunk"@ != "GetFriendConnectionStatus"@);
    reveal_strlit("ControlFile");
    assert("ControlFile"@.len() == 11);
    assert("SendFileChunk"@ != "ControlFile"@);
    reveal_strlit("SeekFile");
    assert("SeekFile"@.len() == 8);
    assert("SendFileChunk"@ != "SeekFile"@);
    reveal_strlit("GetFileId");
    assert("GetFileId"@.len() == 9);
    assert("SendFileChunk"@ != "GetFileId"@);
    reveal_strlit("SendFile");
    assert("SendFile"@.len() == 8);
    assert("SendFileChunk"@ != "SendFile"@);
    reveal_strlit("friend");
    assert("friend"@.len() == 6);
    assert("friend"@ != "request"@);
    reveal_strlit("file_number");
    assert("file_number"@.len() == 11);
    assert("file_number"@ != "request"@);
    assert("file_number"@ != "friend"@);
    reveal_strlit("position");
    assert("position"@.len() == 8);
    assert("position"@ != "request"@);
    assert("position"@ != "friend"@);
    assert("position"@ != "file_number"@);
    reveal_strlit("data");
    assert("data"@.len() == 4);
    assert("data"@ != "request"@);
    assert("data"@ != "friend"@);
    assert("data"@ != "file_number"@);
    assert("data"@ != "position"@);
    assert(jlookup(ms, "request"@) == Some(JsonV::Str("SendFileChunk"@)));
    assert(req_from_json(JsonV::Obj(ms)) == req_dispatch("SendFileChunk"@, ms));
    assert(req_dispatch("SendFileChunk"@, ms) == req_dispatch2("SendFileChunk"@, ms));
    assert(req_dispatch2("SendFileChunk"@, ms) == req_dispatch3("SendFileChunk"@, ms));
    assert(req_dispatch3("SendFileChunk"@, ms) == req_send_file_chunk_from(ms));
    assert(jlookup(ms, "friend"@) == Some(m2.1));
    assert(sget_u32(ms, "friend"@) == Ok::<u32, DecodeError>(friend));
    assert(jlookup(ms, "file_number"@) == Some(m3.1));
    assert(sget_u32(ms, "file_number"@) == Ok::<u32, DecodeError>(file_number));
    assert(jlookup(ms, "position"@) == Some(m4.1));
    assert(sget_usize(ms, "position"@) == Ok::<usize, DecodeError>(position));
    lemma_b64_inv_of(data);
    assert(jlookup(ms, "data"@) == Some(m5.1));
    assert(sget_bytes(ms, "data"@) == Ok::<Seq<u8>, DecodeError>(data));
    assert(req_send_file_chunk_from(ms) == Ok::<RequestV, DecodeError>(v));
    reveal_with_fuel(jdepth_fields, 10);
    assert(jdepth(m1.1) == 0);
    assert(jdepth(m2.1) == 0);
    assert(jdepth(m3.1) == 0);
    assert(jdepth(m4.1) == 0);
    assert(jdepth(m5.1) == 0);
    assert(jdepth_fields(seq![m5]) <= 5);
    assert(jdepth_fields(seq![m4, m5]) <= 5);
    assert(jdepth_fields(seq![m3, m4, m5]) <= 5);
    assert(jdepth_fields(seq![m2, m3, m4, m5]) <= 5);
    assert(jdepth_fields(seq![m1, m2, m3, m4, m5]) <= 5);
    assert(jdepth(JsonV::Obj(ms)) <= 6);
}

proof fn lemma_req_new_conference_rt()
    ensures
        req_from_json(req_to_json(RequestV::NewConference)) == Ok::<RequestV, DecodeError>(RequestV::NewConference),
        jdepth(req_to_json(RequestV::NewConference)) <= 6,
{
    reveal_with_fuel(jlookup, 10);
    let v = RequestV::NewConference;
    let m1 = ("request"@, JsonV::Str("NewConference"@));
    let ms = seq![m1];
    assert(req_to_json(v) == JsonV::Obj(ms));
    assert(ms.drop_first() =~= seq![]);
    reveal_strlit("request");
    assert("request"@.len() == 7);
    reveal_strlit("NewConference");
    assert("NewConference"@.len() == 13);
    reveal_strlit("Info");
    assert("Info"@.len() == 4);
    assert("NewConference"@ != "Info"@);
    reveal_strlit("AddFriend");
    assert("AddFriend"@.len() == 9);
    assert("NewConference"@ != "AddFriend"@);
    reveal_strlit("AddFriendNorequest");
    assert("AddFriendNorequest"@.len() == 18);
    assert("NewConference"@ != "AddFriendNorequest"@);
    reveal_strlit("SendFriendMessage");
    assert("SendFriendMessage"@.len() == 17);
    assert("NewConference"@ != "SendFriendMessage"@);
    reveal_strlit("DeleteFriend");
    assert("DeleteFriend"@.len() == 12);
    assert("NewConference"@ != "DeleteFriend"@);
    reveal_strlit("GetConnectionStatus");
    assert("GetConnectionStatus"@.len() == 19);
    assert("NewConference"@ != "GetConnectionStatus"@);
    reveal_strlit("GetAddress");
    assert("GetAddress"@.len() == 10);
    assert("NewConference"@ != "GetAddress"@);
    reveal_strlit("GetNospam");
    assert("GetNospam"@.len() == 9);
    assert("NewConference"@ != "GetNospam"@);
    reveal_strlit("SetNospam");
    assert("SetNospam"@.len() == 9);
    assert("NewConference"@ != "SetNospam"@);
    reveal_strlit("GetPublicKey");
    assert("GetPublicKey"@.len() == 12);
    assert("NewConference"@ != "GetPublicKey"@);
    reveal_strlit("SetName");
    assert("SetName"@.len() == 7);
    assert("NewConference"@ != "SetName"@);
    reveal_strlit("GetName");
    assert("GetName"@.len() == 7);
    assert("NewConference"@ != "GetName"@);
    reveal_strlit("SetStatusMessage");
    assert("SetStatusMessage"@.len() == 16);
    assert("NewConference"@ != "SetStatusMessage"@);
    reveal_strlit("GetStatusMessage");
    assert("GetStatusMessage"@.len() == 16);
    assert("NewConference"@ != "GetStatusMessage"@);
    reveal_strlit("SetStatus");
    assert("SetStatus"@.len() == 9);
    assert("NewConference"@ != "SetStatus"@);
    reveal_strlit("GetStatus");
    assert("GetStatus"@.len() == 9);
    assert("NewConference"@ != "GetStatus"@);
    reveal_strlit("FriendByPublicKey");
    assert("FriendByPublicKey"@.len() == 17);
    assert("NewConference"@ != "FriendByPublicKey"@);
    reveal_strlit("FriendExists");
    assert("FriendExists"@.len() == 12);
    assert("NewConference"@ != "FriendExists"@);
    reveal_strlit("GetFriendPublicKey");
    assert("GetFriendPublicKey"@.len() == 18);
    assert("NewConference"@ != "GetFriendPublicKey"@);
    reveal_strlit("GetFriendLastOnline");
    assert("GetFriendLastOnline"@.len() == 19);
    assert("NewConference"@ != "GetFriendLastOnline"@);
    reveal_strlit("GetFriendName");
    assert("GetFriendName"@.len() == 13);
    assert("NewConference"@[0] == 'N');
    assert("GetFriendName"@[0] == 'G');
    assert("NewConference"@ != "GetFriendName"@);
    reveal_strlit("GetFriendStatusMessage");
    assert("GetFriendStatusMessage"@.len() == 22);
    assert("NewConference"@ != "GetFriendStatusMessage"@);
    reveal_strlit("GetFriendStatus");
    assert("GetFriendStatus"@.len() == 15);
    assert("NewConference"@ != "GetFriendStatus"@);
    reveal_strlit("GetFriendConnectionStatus");
    assert("GetFriendConnectionStatus"@.len() == 25);
    assert("NewConference"@ != "GetFriendConnectionStatus"@);
    reveal_strlit("ControlFile");
    assert("ControlFile"@.len() == 11);
    assert("NewConference"@ != "ControlFile"@);
    reveal_strlit("SeekFile");
    assert("SeekFile"@.len() == 8);
    assert("NewConference"@ != "SeekFile"@);
    reveal_strlit("GetFileId");
    assert("GetFileId"@.len() == 9);
    assert("NewConference"@ != "GetFileId"@);
    reveal_strlit("SendFile");
    assert("SendFile"@.len() == 8);
    assert("NewConference"@ != "SendFile"@);
    reveal_strlit("SendFileChunk");
    assert("SendFileChunk"@.len() == 13);
    assert("NewConference"@[0] == 'N');
    assert("SendFileChunk"@[0] == 'S');
    assert("NewConference"@ != "SendFileChunk"@);
    assert(jlookup(ms, "request"@) == Some(JsonV::Str("NewConference"@)));
    assert(req_from_json(JsonV::Obj(ms)) == req_dispatch("NewConference"@, ms));
    assert(req_dispatch("NewConference"@, ms) == req_dispatch2("NewConference"@, ms));
    assert(req_dispatch2("NewConference"@, ms) == req_dispatch3("NewConference"@, ms));
    assert(req_dispatch3("NewConference"@, ms) == Ok::<RequestV, DecodeError>(v));
    reveal_with_fuel(jdepth_fields, 10);
    assert(jdepth(m1.1) == 0);
    assert(jdepth_fields(seq![m1]) <= 5);
    assert(jdepth(JsonV::Obj(ms)) <= 6);
}

proof fn lemma_req_delete_conference_rt(conference: u32)
    ensures
        req_from_json(req_to_json((RequestV::DeleteConference { conference }))) == Ok::<RequestV, DecodeError>((RequestV::DeleteConference { conference })),
        jdepth(req_to_json((RequestV::DeleteConference { conference }))) <= 6,
{
    reveal_with_fuel(jlookup, 10);
    let v = (RequestV::DeleteConference { conference });
    let m1 = ("request"@, JsonV::Str("DeleteConference"@));
    let m2 = ("conference"@, JsonV::UInt(conference as u64));
    let ms = seq![m1, m2];
    assert(req_to_json(v) == JsonV::Obj(ms));
    assert(ms.drop_first() =~= seq![m2]);
    assert(seq![m2].drop_first() =~= Seq::<(Seq<char>, JsonV)>::empty());
    reveal_strlit("request");
    assert("request"@.len() == 7);
    reveal_strlit("DeleteConference");
    assert("DeleteConference"@.len() == 16);
    reveal_strlit("Info");
    assert("Info"@.len() == 4);
    assert("DeleteConference"@ != "Info"@);
    reveal_strlit("AddFriend");
    assert("AddFriend"@.len() == 9);
    assert("DeleteConference"@ != "AddFriend"@);
    reveal_strlit("AddFriendNorequest");
    assert("AddFriendNorequest"@.len() == 18);
    assert("DeleteConference"@ != "AddFriendNorequest"@);
    reveal_strlit("SendFriendMessage");
    assert("SendFriendMessage"@.len() == 17);
    assert("DeleteConference"@ != "SendFriendMessage"@);
    reveal_strlit("DeleteFriend");
    assert("DeleteFriend"@.len() == 12);
    assert("DeleteConference"@ != "DeleteFriend"@);
    reveal_strlit("GetConnectionStatus");
    assert("GetConnectionStatus"@.len() == 19);
    assert("DeleteConference"@ != "GetConnectionStatus"@);
    reveal_strlit("GetAddress");
    assert("GetAddress"@.len() == 10);
    assert("DeleteConference"@ != "GetAddress"@);
    reveal_strlit("GetNospam");
    assert("GetNospam"@.len() == 9);
    assert("DeleteConference"@ != "GetNospam"@);
    reveal_strlit("SetNospam");
    assert("SetNospam"@.len() == 9);
    assert("DeleteConference"@ != "SetNospam"@);
    reveal_strlit("GetPublicKey");
    assert("GetPublicKey"@.len() == 12);
    assert("DeleteConference"@ != "GetPublicKey"@);
    reveal_strlit("SetName");
    assert("SetName"@.len() == 7);
    assert("DeleteConference"@ != "SetName"@);
    reveal_strlit("GetName");
    assert("GetName"@.len() == 7);
    assert("DeleteConference"@ != "GetName"@);
    reveal_strlit("SetStatusMessage");
    assert("SetStatusMessage"@.len() == 16);
    assert("DeleteConference"@[0] == 'D');
    assert("SetStatusMessage"@[0] == 'S');
    assert("DeleteConference"@ != "SetStatusMessage"@);
    reveal_strlit("GetStatusMessage");
    assert("GetStatusMessage"@.len() == 16);
    assert("DeleteConference"@[0] == 'D');
    assert("GetStatusMessage"@[0] == 'G');
    assert("DeleteConference"@ != "GetStatusMessage"@);
    reveal_strlit("SetStatus");
    assert("SetStatus"@.len() == 9);
    assert("DeleteConference"@ != "SetStatus"@);
    reveal_strlit("GetStatus");
    assert("GetStatus"@.len() == 9);
    assert("DeleteConference"@ != "GetStatus"@);
    reveal_strlit("FriendByPublicKey");
    assert("FriendByPublicKey"@.len() == 17);
    assert("DeleteConference"@ != "FriendByPublicKey"@);
    reveal_strlit("FriendExists");
    assert("FriendExists"@.len() == 12);
    assert("DeleteConference"@ != "FriendExists"@);
    reveal_strlit("GetFriendPublicKey");
    assert("GetFriendPublicKey"@.len() == 18);
    assert("DeleteConference"@ != "GetFriendPublicKey"@);
    reveal_strlit("GetFriendLastOnline");
    assert("GetFriendLastOnline"@.len() == 19);
    assert("DeleteConference"@ != "GetFriendLastOnline"@);
    reveal_strlit("GetFriendName");
    assert("GetFriendName"@.len() == 13);
    assert("DeleteConference"@ != "GetFriendName"@);
    reveal_strlit("GetFriendStatusMessage");
    assert("GetFriendStatusMessage"@.len() == 22);
    assert("DeleteConference"@ != "GetFriendStatusMessage"@);
    reveal_strlit("GetFriendStatus");
    assert("GetFriendStatus"@.len() == 15);
    assert("DeleteConference"@ != "GetFriendStatus"@);
    reveal_strlit("GetFriendConnectionStatus");
    assert("GetFriendConnectionStatus"@.len() == 25);
    assert("DeleteConference"@ != "GetFriendConnectionStatus"@);
    reveal_strlit("ControlFile");
    assert("ControlFile"@.len() == 11);
    assert("DeleteConference"@ != "ControlFile"@);
    reveal_strlit("SeekFile");
    assert("SeekFile"@.len() == 8);
    assert("DeleteConference"@ != "SeekFile"@);
    reveal_strlit("GetFileId");
    assert("GetFileId"@.len() == 9);
    assert("DeleteConference"@ != "GetFileId"@);
    reveal_strlit("SendFile");
    assert("SendFile"@.len() == 8);
    assert("DeleteConference"@ != "SendFile"@);
    reveal_strlit("SendFileChunk");
    assert("SendFileChunk"@.len() == 13);
    assert("DeleteConference"@ != "SendFileChunk"@);
    reveal_strlit("NewConference");
    assert("NewConference"@.len() == 13);
    assert("DeleteConference"@ != "NewConference"@);
    reveal_strlit("conference");
    assert("conference"@.len() == 10);
    assert("conference"@ != "request"@);
    assert(jlookup(ms, "request"@) == Some(JsonV::Str("DeleteConference"@)));
    assert(req_from_json(JsonV::Obj(ms)) == req_dispatch("DeleteConference"@, ms));
    assert(req_dispatch("DeleteConference"@, ms) == req_dispatch2("DeleteConference"@, ms));
    assert(req_dispatch2("DeleteConference"@, ms) == req_dispatch3("DeleteConference"@, ms));
    assert(req_dispatch3("DeleteConference"@, ms) == req_delete_conference_from(ms));
    assert(jlookup(ms, "conference"@) == Some(m2.1));
    assert(sget_u32(ms, "conference"@) == Ok::<u32, DecodeError>(conference));
    assert(req_delete_conference_from(ms) == Ok::<RequestV, DecodeError>(v));
    reveal_with_fuel(jdepth_fields, 10);
    assert(jdepth(m1.1) == 0);
    assert(jdepth(m2.1) == 0);
    assert(jdepth_fields(seq![m2]) <= 5);
    assert(jdepth_fields(seq![m1, m2]) <= 5);
    assert(jdepth(JsonV::Obj(ms)) <= 6);
}

proof fn lemma_req_get_peer_list_rt(conference: u32)
    ensures
        req_from_json(req_to_json((RequestV::GetPeerList { conference }))) == Ok::<RequestV, DecodeError>((RequestV::GetPeerList { conference })),
        jdepth(req_to_json((RequestV::GetPeerList { conference }))) <= 6,
{
    reveal_with_fuel(jlookup, 10);
    let v = (RequestV::GetPeerList { conference });
    let m1 = ("request"@, JsonV::Str("GetPeerList"@));
    let m2 = ("conference"@, JsonV::UInt(conference as u64));
    let ms = seq![m1, m2];
    assert(req_to_json(v) == JsonV::Obj(ms));
    assert(ms.drop_first() =~= seq![m2]);
    assert(seq![m2].drop_first() =~= Seq::<(Seq<char>, JsonV)>::empty());
    reveal_strlit("request");
    assert("request"@.len() == 7);
    reveal_strlit("GetPeerList");
    assert("GetPeerList"@.len() == 11);
    reveal_strlit("Info");
    assert("Info"@.len() == 4);
    assert("GetPeerList"@ != "Info"@);
    reveal_strlit("AddFriend");
    assert("AddFriend"@.len() == 9);
    assert("GetPeerList"@ != "AddFriend"@);
    reveal_strlit("AddFriendNorequest");
    assert("AddFriendNorequest"@.len() == 18);
    assert("GetPeerList"@ != "AddFriendNorequest"@);
    reveal_strlit("SendFriendMessage");
    assert("SendFriendMessage"@.len() == 17);
    assert("GetPeerList"@ != "SendFriendMessage"@);
    reveal_strlit("DeleteFriend");
    assert("DeleteFriend"@.len() == 12);
    assert("GetPeerList"@ != "DeleteFriend"@);
    reveal_strlit("GetConnectionStatus");
    assert("GetConnectionStatus"@.len() == 19);
    assert("GetPeerList"@ != "GetConnectionStatus"@);
    reveal_strlit("GetAddress");
    assert("GetAddress"@.len() == 10);
    assert("GetPeerList"@ != "GetAddress"@);
    reveal_strlit("GetNospam");
    assert("GetNospam"@.len() == 9);
    assert("GetPeerList"@ != "GetNospam"@);
    reveal_strlit("SetNospam");
    assert("SetNospam"@.len() == 9);
    assert("GetPeerList"@ != "SetNospam"@);
    reveal_strlit("GetPublicKey");
    assert("GetPublicKey"@.len() == 12);
    assert("GetPeerList"@ != "GetPublicKey"@);
    reveal_strlit("SetName");
    assert("SetName"@.len() == 7);
    assert("GetPeerList"@ != "SetName"@);
    reveal_strlit("GetName");
    assert("GetName"@.len() == 7);
    assert("GetPeerList"@ != "GetName"@);
    reveal_strlit("SetStatusMessage");
    assert("SetStatusMessage"@.len() == 16);
    assert("GetPeerList"@ != "SetStatusMessage"@);
    reveal_strlit("GetStatusMessage");
    assert("GetStatusMessage"@.len() == 16);
    assert("GetPeerList"@ != "GetStatusMessage"@);
    reveal_strlit("SetStatus");
    assert("SetStatus"@.len() == 9);
    assert("GetPeerList"@ != "SetStatus"@);
    reveal_strlit("GetStatus");
    assert("GetStatus"@.len() == 9);
    assert("GetPeerList"@ != "GetStatus"@);
    reveal_strlit("FriendByPublicKey");
    assert("FriendByPublicKey"@.len() == 17);
    assert("GetPeerList"@ != "FriendByPublicKey"@);
    reveal_strlit("FriendExists");
    assert("FriendExists"@.len() == 12);
    assert("GetPeerList"@ != "FriendExists"@);
    reveal_strlit("GetFriendPublicKey");
    assert("GetFriendPublicKey"@.len() == 18);
    assert("GetPeerList"@ != "GetFriendPublicKey"@);
    reveal_strlit("GetFriendLastOnline");
    assert("GetFriendLastOnline"@.len() == 19);
    assert("GetPeerList"@ != "GetFriendLastOnline"@);
    reveal_strlit("GetFriendName");
    assert("GetFriendName"@.len() == 13);
    assert("GetPeerList"@ != "GetFriendName"@);
    reveal_strlit("GetFriendStatusMessage");
    assert("GetFriendStatusMessage"@.len() == 22);
    assert("GetPeerList"@ != "GetFriendStatusMessage"@);
    reveal_strlit("GetFriendStatus");
    assert("GetFriendStatus"@.len() == 15);
    assert("GetPeerList"@ != "GetFriendStatus"@);
    reveal_strlit("GetFriendConnectionStatus");
    assert("GetFriendConnectionStatus"@.len() == 25);
    assert("GetPeerList"@ != "GetFriendConnectionStatus"@);
    reveal_strlit("ControlFile");
    assert("ControlFile"@.len() == 11);
    assert("GetPeerList"@[0] == 'G');
    assert("ControlFile"@[0] == 'C');
    assert("GetPeerList"@ != "ControlFile"@);
    reveal_strlit("SeekFile");
    assert("SeekFile"@.len() == 8);
    assert("GetPeerList"@ != "SeekFile"@);
    reveal_strlit("GetFileId");
    assert("GetFileId"@.len() == 9);
    assert("GetPeerList"@ != "GetFileId"@);
    reveal_strlit("SendFile");
    assert("SendFile"@.len() == 8);
    assert("GetPeerList"@ != "SendFile"@);
    reveal_strlit("SendFileChunk");
    assert("SendFileChunk"@.len() == 13);
    assert("GetPeerList"@ != "SendFileChunk"@);
    reveal_strlit("NewConference");
    assert("NewConference"@.len() == 13);
    assert("GetPeerList"@ != "NewConference"@);
    reveal_strlit("DeleteConference");
    assert("DeleteConference"@.len() == 16);
    assert("GetPeerList"@ != "DeleteConference"@);
    reveal_strlit("conference");
    assert("conference"@.len() == 10);
    assert("conference"@ != "request"@);
    assert(jlookup(ms, "request"@) == Some(JsonV::Str("GetPeerList"@)));
    assert(req_from_json(JsonV::Obj(ms)) == req_dispatch("GetPeerList"@, ms));
    assert(req_dispatch("GetPeerList"@, ms) == req_dispatch2("GetPeerList"@, ms));
    assert(req_dispatch2("GetPeerList"@, ms) == req_dispatch3("GetPeerList"@, ms));
    assert(req_dispatch3("GetPeerList"@, ms) == req_get_peer_list_from(ms));
    assert(jlookup(ms, "conference"@) == Some(m2.1));
    assert(sget_u32(ms, "conference"@) == Ok::<u32, DecodeError>(conference));
    assert(req_get_peer_list_from(ms) == Ok::<RequestV, DecodeError>(v));
    reveal_with_fuel(jdepth_fields, 10);
    assert(jdepth(m1.1) == 0);
    assert(jdepth(m2.1) == 0);
    assert(jdepth_fields(seq![m2]) <= 5);
    assert(jdepth_fields(seq![m1, m2]) <= 5);
    assert(jdepth(JsonV::Obj(ms)) <= 6);
}

proof fn lemma_req_conference_peer_count_rt(conference: u32)
    ensures
        req_from_json(req_to_json((RequestV::ConferencePeerCount { conference }))) == Ok::<RequestV, DecodeError>((RequestV::ConferencePeerCount { conference })),
        jdepth(req_to_json((RequestV::ConferencePeerCount { conference }))) <= 6,
{
    reveal_with_fuel(jlookup, 10);
    let v = (RequestV::ConferencePeerCount { conference });
    let m1 = ("request"@, JsonV::Str("ConferencePeerCount"@));
    let m2 = ("conference"@, JsonV::UInt(conference as u64));
    let ms = seq![m1, m2];
    assert(req_to_json(v) == JsonV::Obj(ms));
    assert(ms.drop_first() =~= seq![m2]);
    assert(seq![m2].drop_first() =~= Seq::<(Seq<char>, JsonV)>::empty());
    reveal_strlit("request");
    assert("request"@.len() == 7);
    reveal_strlit("ConferencePeerCount");
    assert("ConferencePeerCount"@.len() == 19);
    reveal_strlit("Info");
    assert("Info"@.len() == 4);
    assert("ConferencePeerCount"@ != "Info"@);
    reveal_strlit("AddFriend");
    assert("AddFriend"@.len() == 9);
    assert("ConferencePeerCount"@ != "AddFriend"@);
    reveal_strlit("AddFriendNorequest");
    assert("AddFriendNorequest"@.len() == 18);
    assert("ConferencePeerCount"@ != "AddFriendNorequest"@);
    reveal_strlit("SendFriendMessage");
    assert("SendFriendMessage"@.len() == 17);
    assert("ConferencePeerCount"@ != "SendFriendMessage"@);
    reveal_strlit("DeleteFriend");
    assert("DeleteFriend"@.len() == 12);
    assert("ConferencePeerCount"@ != "DeleteFriend"@);
    reveal_strlit("GetConnectionStatus");
    assert("GetConnectionStatus"@.len() == 19);
    assert("ConferencePeerCount"@[0] == 'C');
    assert("GetConnectionStatus"@[0] == 'G');
    assert("ConferencePeerCount"@ != "GetConnectionStatus"@);
    reveal_strlit("GetAddress");
    assert("GetAddress"@.len() == 10);
    assert("ConferencePeerCount"@ != "GetAddress"@);
    reveal_strlit("GetNospam");
    assert("GetNospam"@.len() == 9);
    assert("ConferencePeerCount"@ != "GetNospam"@);
    reveal_strlit("SetNospam");
    assert("SetNospam"@.len() == 9);
    assert("ConferencePeerCount"@ != "SetNospam"@);
    reveal_strlit("GetPublicKey");
    assert("GetPublicKey"@.len() == 12);
    assert("ConferencePeerCount"@ != "GetPublicKey"@);
    reveal_strlit("SetName");
    assert("SetName"@.len() == 7);
    assert("ConferencePeerCount"@ != "SetName"@);
    reveal_strlit("GetName");
    assert("GetName"@.len() == 7);
    assert("ConferencePeerCount"@ != "GetName"@);
    reveal_strlit("SetStatusMessage");
    assert("SetStatusMessage"@.len() == 16);
    assert("ConferencePeerCount"@ != "SetStatusMessage"@);
    reveal_strlit("GetStatusMessage");
    assert("GetStatusMessage"@.len() == 16);
    assert("ConferencePeerCount"@ != "GetStatusMessage"@);
    reveal_strlit("SetStatus");
    assert("SetStatus"@.len() == 9);
    assert("ConferencePeerCount"@ != "SetStatus"@);
    reveal_strlit("GetStatus");
    assert("GetStatus"@.len() == 9);
    assert("ConferencePeerCount"@ != "GetStatus"@);
    reveal_strlit("FriendByPublicKey");
    assert("FriendByPublicKey"@.len() == 17);
    assert("ConferencePeerCount"@ != "FriendByPublicKey"@);
    reveal_strlit("FriendExists");
    assert("FriendExists"@.len() == 12);
    assert("ConferencePeerCount"@ != "FriendExists"@);
    reveal_strlit("GetFriendPublicKey");
    assert("GetFriendPublicKey"@.len() == 18);
    assert("ConferencePeerCount"@ != "GetFriendPublicKey"@);
    reveal_strlit("GetFriendLastOnline");
    assert("GetFriendLastOnline"@.len() == 19);
    assert("ConferencePeerCount"@[0] == 'C');
    assert("GetFriendLastOnline"@[0] == 'G');
    assert("ConferencePeerCount"@ != "GetFriendLastOnline"@);
    reveal_strlit("GetFriendName");
    assert("GetFriendName"@.len() == 13);
    assert("ConferencePeerCount"@ != "GetFriendName"@);
    reveal_strlit("GetFriendStatusMessage");
    assert("GetFriendStatusMessage"@.len() == 22);
    assert("ConferencePeerCount"@ != "GetFriendStatusMessage"@);
    reveal_strlit("GetFriendStatus");
    assert("GetFriendStatus"@.len() == 15);
    assert("ConferencePeerCount"@ != "GetFriendStatus"@);
    reveal_strlit("GetFriendConnectionStatus");
    assert("GetFriendConnectionStatus"@.len() == 25);
    assert("ConferencePeerCount"@ != "GetFriendConnectionStatus"@);
    reveal_strlit("ControlFile");
    assert("ControlFile"@.len() == 11);
    assert("ConferencePeerCount"@ != "ControlFile"@);
    reveal_strlit("SeekFile");
    assert("SeekFile"@.len() == 8);
    assert("ConferencePeerCount"@ != "SeekFile"@);
    reveal_strlit("GetFileId");
    assert("GetFileId"@.len() == 9);
    assert("ConferencePeerCount"@ != "GetFileId"@);
    reveal_strlit("SendFile");
    assert("SendFile"@.len() == 8);
    assert("ConferencePeerCount"@ != "SendFile"@);
    reveal_strlit("SendFileChunk");
    assert("SendFileChunk"@.len() == 13);
    assert("ConferencePeerCount"@ != "SendFileChunk"@);
    reveal_strlit("NewConference");
    assert("NewConference"@.len() == 13);
    assert("ConferencePeerCount"@ != "NewConference"@);
    reveal_strlit("DeleteConference");
    assert("DeleteConference"@.len() == 16);
    assert("ConferencePeerCount"@ != "DeleteConference"@);
    reveal_strlit("GetPeerList");
    assert("GetPeerList"@.len() == 11);
    assert("ConferencePeerCount"@ != "GetPeerList"@);
    reveal_strlit("conference");
    assert("conference"@.len() == 10);
    assert("conference"@ != "request"@);
    assert(jlookup(ms, "request"@) == Some(JsonV::Str("ConferencePeerCount"@)));
    assert(req_from_json(JsonV::Obj(ms)) == req_dispatch("ConferencePeerCount"@, ms));
    assert(req_dispatch("ConferencePeerCount"@, ms) == req_dispatch2("ConferencePeerCount"@, ms));
    assert(req_dispatch2("ConferencePeerCount"@, ms) == req_dispatch3("ConferencePeerCount"@, ms));
    assert(req_dispatch3("ConferencePeerCount"@, ms) == req_conference_peer_count_from(ms));
    assert(jlookup(ms, "conference"@) == Some(m2.1));
    assert(sget_u32(ms, "conference"@) == Ok::<u32, DecodeError>(conference));
    assert(req_conference_peer_count_from(ms) == Ok::<RequestV, DecodeError>(v));
    reveal_with_fuel(jdepth_fields, 10);
    assert(jdepth(m1.1) == 0);
    assert(jdepth(m2.1) == 0);
    assert(jdepth_fields(seq![m2]) <= 5);
    assert(jdepth_fields(seq![m1, m2]) <= 5);
    assert(jdepth(JsonV::Obj(ms)) <= 6);
}

proof fn lemma_req_get_peer_name_rt(conference: u32, peer: u32)
    ensures
        req_from_json(req_to_json((RequestV::GetPeerName { conference, peer }))) == Ok::<RequestV, DecodeError>((RequestV::GetPeerName { conference, peer })),
        jdepth(req_to_json((RequestV::GetPeerName { conference, peer }))) <= 6,
{
    reveal_with_fuel(jlookup, 10);
    let v = (RequestV::GetPeerName { conference, peer });
    let m1 = ("request"@, JsonV::Str("GetPeerName"@));
    let m2 = ("conference"@, JsonV::UInt(conference as u64));
    let m3 = ("peer"@, JsonV::UInt(peer as u64));
    let ms = seq![m1, m2, m3];
    assert(req_to_json(v) == JsonV::Obj(ms));
    assert(ms.drop_first() =~= seq![m2, m3]);
    assert(seq![m2, m3].drop_first() =~= seq![m3]);
    assert(seq![m3].drop_first() =~= Seq::<(Seq<char>, JsonV)>::empty());
    reveal_strlit("request");
    assert("request"@.len() == 7);
    reveal_strlit("GetPeerName");
    assert("GetPeerName"@.len() == 11);
    reveal_strlit("Info");
    assert("Info"@.len() == 4);
    assert("GetPeerName"@ != "Info"@);
    reveal_strlit("AddFriend");
    assert("AddFriend"@.len() == 9);
    assert("GetPeerName"@ != "AddFriend"@);
    reveal_strlit("AddFriendNorequest");
    assert("AddFriendNorequest"@.len() == 18);
    assert("GetPeerName"@ != "AddFriendNorequest"@);
    reveal_strlit("SendFriendMessage");
    assert("SendFriendMessage"@.len() == 17);
    assert("GetPeerName"@ != "SendFriendMessage"@);
    reveal_strlit("DeleteFriend");
    assert("DeleteFriend"@.len() == 12);
    assert("GetPeerName"@ != "DeleteFriend"@);
    reveal_strlit("GetConnectionStatus");
    assert("GetConnectionStatus"@.len() == 19);
    assert("GetPeerName"@ != "GetConnectionStatus"@);
    reveal_strlit("GetAddress");
    assert("GetAddress"@.len() == 10);
    assert("GetPeerName"@ != "GetAddress"@);
    reveal_strlit("GetNospam");
    assert("GetNospam"@.len() == 9);
    assert("GetPeerName"@ != "GetNospam"@);
    reveal_strlit("SetNospam");
    assert("SetNospam"@.len() == 9);
    assert("GetPeerName"@ != "SetNospam"@);
    reveal_strlit("GetPublicKey");
    assert("GetPublicKey"@.len() == 12);
    assert("GetPeerName"@ != "GetPublicKey"@);
    reveal_strlit("SetName");
    assert("SetName"@.len() == 7);
    assert("GetPeerName"@ != "SetName"@);
    reveal_strlit("GetName");
    assert("GetName"@.len() == 7);
    assert("GetPeerName"@ != "GetName"@);
    reveal_strlit("SetStatusMessage");
    assert("SetStatusMessage"@.len() == 16);
    assert("GetPeerName"@ != "SetStatusMessage"@);
    reveal_strlit("GetStatusMessage");
    assert("GetStatusMessage"@.len() == 16);
    assert("GetPeerName"@ != "GetStatusMessage"@);
    reveal_strlit("SetStatus");
    assert("SetStatus"@.len() == 9);
    assert("GetPeerName"@ != "SetStatus"@);
    reveal_strlit("GetStatus");
    assert("GetStatus"@.len() == 9);
    assert("GetPeerName"@ != "GetStatus"@);
    reveal_strlit("FriendByPublicKey");
    assert("FriendByPublicKey"@.len() == 17);
    assert("GetPeerName"@ != "FriendByPublicKey"@);
    reveal_strlit("FriendExists");
    assert("FriendExists"@.len() == 12);
    assert("GetPeerName"@ != "FriendExists"@);
    reveal_strlit("GetFriendPublicKey");
    assert("GetFriendPublicKey"@.len() == 18);
    assert("GetPeerName"@ != "GetFriendPublicKey"@);
    reveal_strlit("GetFriendLastOnline");
    assert("GetFriendLastOnline"@.len() == 19);
    assert("GetPeerName"@ != "GetFriendLastOnline"@);
    reveal_strlit("GetFriendName");
    assert("GetFriendName"@.len() == 13);
    assert("GetPeerName"@ != "GetFriendName"@);
    reveal_strlit("GetFriendStatusMessage");
    assert("GetFriendStatusMessage"@.len() == 22);
    assert("GetPeerName"@ != "GetFriendStatusMessage"@);
    reveal_strlit("GetFriendStatus");
    assert("GetFriendStatus"@.len() == 15);
    assert("GetPeerName"@ != "GetFriendStatus"@);
    reveal_strlit("GetFriendConnectionStatus");
    assert("GetFriendConnectionStatus"@.len() == 25);
    assert("GetPeerName"@ != "GetFriendConnectionStatus"@);
    reveal_strlit("ControlFile");
    assert("ControlFile"@.len() == 11);
    assert("GetPeerName"@[0] == 'G');
    assert("ControlFile"@[0] == 'C');
    assert("GetPeerName"@ != "ControlFile"@);
    reveal_strlit("SeekFile");
    assert("SeekFile"@.len() == 8);
    assert("GetPeerName"@ != "SeekFile"@);
    reveal_strlit("GetFileId");
    assert("GetFileId"@.len() == 9);
    assert("GetPeerName"@ != "GetFileId"@);
    reveal_strlit("SendFile");
    assert("SendFile"@.len() == 8);
    assert("GetPeerName"@ != "SendFile"@);
    reveal_strlit("SendFileChunk");
    assert("SendFileChunk"@.len() == 13);
    assert("GetPeerName"@ != "SendFileChunk"@);
    reveal_strlit("NewConference");
    assert("NewConference"@.len() == 13);
    assert("GetPeerName"@ != "NewConference"@);
    reveal_strlit("DeleteConference");
    assert("DeleteConference"@.len() == 16);
    assert("GetPeerName"@ != "DeleteConference"@);
    reveal_strlit("GetPeerList");
    assert("GetPeerList"@.len() == 11);
    assert("GetPeerName"@[7] == 'N');
    assert("GetPeerList"@[7] == 'L');
    assert("GetPeerName"@ != "GetPeerList"@);
    reveal_strlit("ConferencePeerCount");
    assert("ConferencePeerCount"@.len() == 19);
    assert("GetPeerName"@ != "ConferencePeerCount"@);
    reveal_strlit("conference");
    assert("conference"@.len() == 10);
    assert("conference"@ != "request"@);
    reveal_strlit("peer");
    assert("peer"@.len() == 4);
    assert("peer"@ != "request"@);
    assert("peer"@ != "conference"@);
    assert(jlookup(ms, "request"@) == Some(JsonV::Str("GetPeerName"@)));
    assert(req_from_json(JsonV::Obj(ms)) == req_dispatch("GetPeerName"@, ms));
    assert(req_dispatch("GetPeerName"@, ms) == req_dispatch2("GetPeerName"@, ms));
    assert(req_dispatch2("GetPeerName"@, ms) == req_dispatch3("GetPeerName"@, ms));
    assert(req_dispatch3("GetPeerName"@, ms) == req_get_peer_name_from(ms));
    assert(jlookup(ms, "conference"@) == Some(m2.1));
    assert(sget_u32(ms, "conference"@) == Ok::<u32, DecodeError>(conference));
    assert(jlookup(ms, "peer"@) == Some(m3.1));
    assert(sget_u32(ms, "peer"@) == Ok::<u32, DecodeError>(peer));
    assert(req_get_peer_name_from(ms) == Ok::<RequestV, DecodeError>(v));
    reveal_with_fuel(jdepth_fields, 10);
    assert(jdepth(m1.1) == 0);
    assert(jdepth(m2.1) == 0);
    assert(jdepth(m3.1) == 0);
    assert(jdepth_fields(seq![m3]) <= 5);
    assert(jdepth_fields(seq![m2, m3]) <= 5);
    assert(jdepth_fields(seq![m1, m2, m3]) <= 5);
    assert(jdepth(JsonV::Obj(ms)) <= 6);
}

proof fn lemma_req_get_peer_public_key_rt(conference: u32, peer: u32)
    ensures
        req_from_json(req_to_json((RequestV::GetPeerPublicKey { conference, peer }))) == Ok::<RequestV, DecodeError>((RequestV::GetPeerPublicKey { conference, peer })),
        jdepth(req_to_json((RequestV::GetPeerPublicKey { conference, peer }))) <= 6,
{
    reveal_with_fuel(jlookup, 10);
    let v = (RequestV::GetPeerPublicKey { conference, peer });
    let m1 = ("request"@, JsonV::Str("GetPeerPublicKey"@));
    let m2 = ("conference"@, JsonV::UInt(conference as u64));
    let m3 = ("peer"@, JsonV::UInt(peer as u64));
    let ms = seq![m1, m2, m3];
    assert(req_to_json(v) == JsonV::Obj(ms));
    assert(ms.drop_first() =~= seq![m2, m3]);
    assert(seq![m2, m3].drop_first() =~= seq![m3]);
    assert(seq![m3].drop_first() =~= Seq::<(Seq<char>, JsonV)>::empty());
    reveal_strlit("request");
    assert("request"@.len() == 7);
    reveal_strlit("GetPeerPublicKey");
    assert("GetPeerPublicKey"@.len() == 16);
    reveal_strlit("Info");
    assert("Info"@.len() == 4);
    assert("GetPeerPublicKey"@ != "Info"@);
    reveal_strlit("AddFriend");
    assert("AddFriend"@.len() == 9);
    assert("GetPeerPublicKey"@ != "AddFriend"@);
    reveal_strlit("AddFriendNorequest");
    assert("AddFriendNorequest"@.len() == 18);
    assert("GetPeerPublicKey"@ != "AddFriendNorequest"@);
    reveal_strlit("SendFriendMessage");
    assert("SendFriendMessage"@.len() == 17);
    assert("GetPeerPublicKey"@ != "SendFriendMessage"@);
    reveal_strlit("DeleteFriend");
    assert("DeleteFriend"@.len() == 12);
    assert("GetPeerPublicKey"@ != "DeleteFriend"@);
    reveal_strlit("GetConnectionStatus");
    assert("GetConnectionStatus"@.len() == 19);
    assert("GetPeerPublicKey"@ != "GetConnectionStatus"@);
    reveal_strlit("GetAddress");
    assert("GetAddress"@.len() == 10);
    assert("GetPeerPublicKey"@ != "GetAddress"@);
    reveal_strlit("GetNospam");
    assert("GetNospam"@.len() == 9);
    assert("GetPeerPublicKey"@ != "GetNospam"@);
    reveal_strlit("SetNospam");
    assert("SetNospam"@.len() == 9);
    assert("GetPeerPublicKey"@ != "SetNospam"@);
    reveal_strlit("GetPublicKey");
    assert("GetPublicKey"@.len() == 12);
    assert("GetPeerPublicKey"@ != "GetPublicKey"@);
    reveal_strlit("SetName");
    assert("SetName"@.len() == 7);
    assert("GetPeerPublicKey"@ != "SetName"@);
    reveal_strlit("GetName");
    assert("GetName"@.len() == 7);
    assert("GetPeerPublicKey"@ != "GetName"@);
    reveal_strlit("SetStatusMessage");
    assert("SetStatusMessage"@.len() == 16);
    assert("GetPeerPublicKey"@[0] == 'G');
    assert("SetStatusMessage"@[0] == 'S');
    assert("GetPeerPublicKey"@ != "SetStatusMessage"@);
    reveal_strlit("GetStatusMessage");
    assert("GetStatusMessage"@.len() == 16);
    assert("GetPeerPublicKey"@[3] == 'P');
    assert("GetStatusMessage"@[3] == 'S');
    assert("GetPeerPublicKey"@ != "GetStatusMessage"@);
    reveal_strlit("SetStatus");
    assert("SetStatus"@.len() == 9);
    assert("GetPeerPublicKey"@ != "SetStatus"@);
    reveal_strlit("GetStatus");
    assert("GetStatus"@.len() == 9);
    assert("GetPeerPublicKey"@ != "GetStatus"@);
    reveal_strlit("FriendByPublicKey");
    assert("FriendByPublicKey"@.len() == 17);
    assert("GetPeerPublicKey"@ != "FriendByPublicKey"@);
    reveal_strlit("FriendExists");
    assert("FriendExists"@.len() == 12);
    assert("GetPeerPublicKey"@ != "FriendExists"@);
    reveal_strlit("GetFriendPublicKey");
    assert("GetFriendPublicKey"@.len() == 18);
    assert("GetPeerPublicKey"@ != "GetFriendPublicKey"@);
    reveal_strlit("GetFriendLastOnline");
    assert("GetFriendLastOnline"@.len() == 19);
    assert("GetPeerPublicKey"@ != "GetFriendLastOnline"@);
    reveal_strlit("GetFriendName");
    assert("GetFriendName"@.len() == 13);
    assert("GetPeerPublicKey"@ != "GetFriendName"@);
    reveal_strlit("GetFriendStatusMessage");
    assert("GetFriendStatusMessage"@.len() == 22);
    assert("GetPeerPublicKey"@ != "GetFriendStatusMessage"@);
    reveal_strlit("GetFriendStatus");
    assert("GetFriendStatus"@.len() == 15);
    assert("GetPeerPublicKey"@ != "GetFriendStatus"@);
    reveal_strlit("GetFriendConnectionStatus");
    assert("GetFriendConnectionStatus"@.len() == 25);
    assert("GetPeerPublicKey"@ != "GetFriendConnectionStatus"@);
    reveal_strlit("ControlFile");
    assert("ControlFile"@.len() == 11);
    assert("GetPeerPublicKey"@ != "ControlFile"@);
    reveal_strlit("SeekFile");
    assert("SeekFile"@.len() == 8);
    assert("GetPeerPublicKey"@ != "SeekFile"@);
    reveal_strlit("GetFileId");
    assert("GetFileId"@.len() == 9);
    assert("GetPeerPublicKey"@ != "GetFileId"@);
    reveal_strlit("SendFile");
    assert("SendFile"@.len() == 8);
    assert("GetPeerPublicKey"@ != "SendFile"@);
    reveal_strlit("SendFileChunk");
    assert("SendFileChunk"@.len() == 13);
    assert("GetPeerPublicKey"@ != "SendFileChunk"@);
    reveal_strlit("NewConference");
    assert("NewConference"@.len() == 13);
    assert("GetPeerPublicKey"@ != "NewConference"@);
    reveal_strlit("DeleteConference");
    assert("DeleteConference"@.len() == 16);
    assert("GetPeerPublicKey"@[0] == 'G');
    assert("DeleteConference"@[0] == 'D');
    assert("GetPeerPublicKey"@ != "DeleteConference"@);
    reveal_strlit("GetPeerList");
    assert("GetPeerList"@.len() == 11);
    assert("GetPeerPublicKey"@ != "GetPeerList"@);
    reveal_strlit("ConferencePeerCount");
    assert("ConferencePeerCount"@.len() == 19);
    assert("GetPeerPublicKey"@ != "ConferencePeerCount"@);
    reveal_strlit("GetPeerName");
    assert("GetPeerName"@.len() == 11);
    assert("GetPeerPublicKey"@ != "GetPeerName"@);
    reveal_strlit("conference");
    assert("conference"@.len() == 10);
    assert("conference"@ != "request"@);
    reveal_strlit("peer");
    assert("peer"@.len() == 4);
    assert("peer"@ != "request"@);
    assert("peer"@ != "conference"@);
    assert(jlookup(ms, "request"@) == Some(JsonV::Str("GetPeerPublicKey"@)));
    assert(req_from_json(JsonV::Obj(ms)) == req_dispatch("GetPeerPublicKey"@, ms));
    assert(req_dispatch("GetPeerPublicKey"@, ms) == req_dispatch2("GetPeerPublicKey"@, ms));
    assert(req_dispatch2("GetPeerPublicKey"@, ms) == req_dispatch3("GetPeerPublicKey"@, ms));
    assert(req_dispatch3("GetPeerPublicKey"@, ms) == req_get_peer_public_key_from(ms));
    assert(jlookup(ms, "conference"@) == Some(m2.1));
    assert(sget_u32(ms, "conference"@) == Ok::<u32, DecodeError>(conference));
    assert(jlookup(ms, "peer"@) == Some(m3.1));
    assert(sget_u32(ms, "peer"@) == Ok::<u32, DecodeError>(peer));
    assert(req_get_peer_public_key_from(ms) == Ok::<RequestV, DecodeError>(v));
    reveal_with_fuel(jdepth_fields, 10);
    assert(jdepth(m1.1) == 0);
    assert(jdepth(m2.1) == 0);
    assert(jdepth(m3.1) == 0);
    assert(jdepth_fields(seq![m3]) <= 5);
    assert(jdepth_fields(seq![m2, m3]) <= 5);
    assert(jdepth_fields(seq![m1, m2, m3]) <= 5);
    assert(jdepth(JsonV::Obj(ms)) <= 6);
}

proof fn lemma_req_is_own_peer_number_rt(conference: u32, peer_number: u32)
    ensures
        req_from_json(req_to_json((RequestV::IsOwnPeerNumber { conference, peer_number }))) == Ok::<RequestV, DecodeError>((RequestV::IsOwnPeerNumber { conference, peer_number })),
        jdepth(req_to_json((RequestV::IsOwnPeerNumber { conference, peer_number }))) <= 6,
{
    reveal_with_fuel(jlookup, 10);
    let v = (RequestV::IsOwnPeerNumber { conference, peer_number });
    let m1 = ("request"@, JsonV::Str("IsOwnPeerNumber"@));
    let m2 = ("conference"@, JsonV::UInt(conference as u64));
    let m3 = ("peer_number"@, JsonV::UInt(peer_number as u64));
    let ms = seq![m1, m2, m3];
    assert(req_to_json(v) == JsonV::Obj(ms));
    assert(ms.drop_first() =~= seq![m2, m3]);
    assert(seq![m2, m3].drop_first() =~= seq![m3]);
    assert(seq![m3].drop_first() =~= Seq::<(Seq<char>, JsonV)>::empty());
    reveal_strlit("request");
    assert("request"@.len() == 7);
    reveal_strlit("IsOwnPeerNumber");
    assert("IsOwnPeerNumber"@.len() == 15);
    reveal_strlit("Info");
    assert("Info"@.len() == 4);
    assert("IsOwnPeerNumber"@ != "Info"@);
    reveal_strlit("AddFriend");
    assert("AddFriend"@.len() == 9);
    assert("IsOwnPeerNumber"@ != "AddFriend"@);
    reveal_strlit("AddFriendNorequest");
    assert("AddFriendNorequest"@.len() == 18);
    assert("IsOwnPeerNumber"@ != "AddFriendNorequest"@);
    reveal_strlit("SendFriendMessage");
    assert("SendFriendMessage"@.len() == 17);
    assert("IsOwnPeerNumber"@ != "SendFriendMessage"@);
    reveal_strlit("DeleteFriend");
    assert("DeleteFriend"@.len() == 12);
    assert("IsOwnPeerNumber"@ != "DeleteFriend"@);
    reveal_strlit("GetConnectionStatus");
    assert("GetConnectionStatus"@.len() == 19);
    assert("IsOwnPeerNumber"@ != "GetConnectionStatus"@);
    reveal_strlit("GetAddress");
    assert("GetAddress"@.len() == 10);
    assert("IsOwnPeerNumber"@ != "GetAddress"@);
    reveal_strlit("GetNospam");
    assert("GetNospam"@.len() == 9);
    assert("IsOwnPeerNumber"@ != "GetNospam"@);
    reveal_strlit("SetNospam");
    assert("SetNospam"@.len() == 9);
    assert("IsOwnPeerNumber"@ != "SetNospam"@);
    reveal_strlit("GetPublicKey");
    assert("GetPublicKey"@.len() == 12);
    assert("IsOwnPeerNumber"@ != "GetPublicKey"@);
    reveal_strlit("SetName");
    assert("SetName"@.len() == 7);
    assert("IsOwnPeerNumber"@ != "SetName"@);
    reveal_strlit("GetName");
    assert("GetName"@.len() == 7);
    assert("IsOwnPeerNumber"@ != "GetName"@);
    reveal_strlit("SetStatusMessage");
    assert("SetStatusMessage"@.len() == 16);
    assert("IsOwnPeerNumber"@ != "SetStatusMessage"@);
    reveal_strlit("GetStatusMessage");
    assert("GetStatusMessage"@.len() == 16);
    assert("IsOwnPeerNumber"@ != "GetStatusMessage"@);
    reveal_strlit("SetStatus");
    assert("SetStatus"@.len() == 9);
    assert("IsOwnPeerNumber"@ != "SetStatus"@);
    reveal_strlit("GetStatus");
    assert("GetStatus"@.len() == 9);
    assert("IsOwnPeerNumber"@ != "GetStatus"@);
    reveal_strlit("FriendByPublicKey");
    assert("FriendByPublicKey"@.len() == 17);
    assert("IsOwnPeerNumber"@ != "FriendByPublicKey"@);
    reveal_strlit("FriendExists");
    assert("FriendExists"@.len() == 12);
    assert("IsOwnPeerNumber"@ != "FriendExists"@);
    reveal_strlit("GetFriendPublicKey");
    assert("GetFriendPublicKey"@.len() == 18);
    assert("IsOwnPeerNumber"@ != "GetFriendPublicKey"@);
    reveal_strlit("GetFriendLastOnline");
    assert("GetFriendLastOnline"@.len() == 19);
    assert("IsOwnPeerNumber"@ != "GetFriendLastOnline"@);
    reveal_strlit("GetFriendName");
    assert("GetFriendName"@.len() == 13);
    assert("IsOwnPeerNumber"@ != "GetFriendName"@);
    reveal_strlit("GetFriendStatusMessage");
    assert("GetFriendStatusMessage"@.len() == 22);
    assert("IsOwnPeerNumber"@ != "GetFriendStatusMessage"@);
    reveal_strlit("GetFriendStatus");
    assert("GetFriendStatus"@.len() == 15);
    assert("IsOwnPeerNumber"@[0] == 'I');
    assert("GetFriendStatus"@[0] == 'G');
    assert("IsOwnPeerNumber"@ != "GetFriendStatus"@);
    reveal_strlit("GetFriendConnectionStatus");
    assert("GetFriendConnectionStatus"@.len() == 25);
    assert("IsOwnPeerNumber"@ != "GetFriendConnectionStatus"@);
    reveal_strlit("ControlFile");
    assert("ControlFile"@.len() == 11);
    assert("IsOwnPeerNumber"@ != "ControlFile"@);
    reveal_strlit("SeekFile");
    assert("SeekFile"@.len() == 8);
    assert("IsOwnPeerNumber"@ != "SeekFile"@);
    reveal_strlit("GetFileId");
    assert("GetFileId"@.len() == 9);
    assert("IsOwnPeerNumber"@ != "GetFileId"@);
    reveal_strlit("SendFile");
    assert("SendFile"@.len() == 8);
    assert("IsOwnPeerNumber"@ != "SendFile"@);
    reveal_strlit("SendFileChunk");
    assert("SendFileChunk"@.len() == 13);
    assert("IsOwnPeerNumber"@ != "SendFileChunk"@);
    reveal_strlit("NewConference");
    assert("NewConference"@.len() == 13);
    assert("IsOwnPeerNumber"@ != "NewConference"@);
    reveal_strlit("DeleteConference");
    assert("DeleteConference"@.len() == 16);
    assert("IsOwnPeerNumber"@ != "DeleteConference"@);
    reveal_strlit("GetPeerList");
    assert("GetPeerList"@.len() == 11);
    assert("IsOwnPeerNumber"@ != "GetPeerList"@);
    reveal_strlit("ConferencePeerCount");
    assert("ConferencePeerCount"@.len() == 19);
    assert("IsOwnPeerNumber"@ != "ConferencePeerCount"@);
    reveal_strlit("GetPeerName");
    assert("GetPeerName"@.len() == 11);
    assert("IsOwnPeerNumber"@ != "GetPeerName"@);
    reveal_strlit("GetPeerPublicKey");
    assert("GetPeerPublicKey"@.len() == 16);
    assert("IsOwnPeerNumber"@ != "GetPeerPublicKey"@);
    reveal_strlit("conference");
    assert("conference"@.len() == 10);
    assert("conference"@ != "request"@);
    reveal_strlit("peer_number");
    assert("peer_number"@.len() == 11);
    assert("peer_number"@ != "request"@);
    assert("peer_number"@ != "conference"@);
    assert(jlookup(ms, "request"@) == Some(JsonV::Str("IsOwnPeerNumber"@)));
    assert(req_from_json(JsonV::Obj(ms)) == req_dispatch("IsOwnPeerNumber"@, ms));
    assert(req_dispatch("IsOwnPeerNumber"@, ms) == req_dispatch2("IsOwnPeerNumber"@, ms));
    assert(req_dispatch2("IsOwnPeerNumber"@, ms) == req_dispatch3("IsOwnPeerNumber"@, ms));
    assert(req_dispatch3("IsOwnPeerNumber"@, ms) == req_is_own_peer_number_from(ms));
    assert(jlookup(ms, "conference"@) == Some(m2.1));
    assert(sget_u32(ms, "conference"@) == Ok::<u32, DecodeError>(conference));
    assert(jlookup(ms, "peer_number"@) == Some(m3.1));
    assert(sget_u32(ms, "peer_number"@) == Ok::<u32, DecodeError>(peer_number));
    assert(req_is_own_peer_number_from(ms) == Ok::<RequestV, DecodeError>(v));
    reveal_with_fuel(jdepth_fields, 10);
    assert(jdepth(m1.1) == 0);
    assert(jdepth(m2.1) == 0);
    assert(jdepth(m3.1) == 0);
    assert(jdepth_fields(seq![m3]) <= 5);
    assert(jdepth_fields(seq![m2, m3]) <= 5);
    assert(jdepth_fields(seq![m1, m2, m3]) <= 5);
    assert(jdepth(JsonV::Obj(ms)) <= 6);
}

proof fn lemma_req_invite_to_conference_rt(friend: u32, conference: u32)
    ensures
        req_from_json(req_to_json((RequestV::InviteToConference { friend, conference }))) == Ok::<RequestV, DecodeError>((RequestV::InviteToConference { friend, conference })),
        jdepth(req_to_json((RequestV::InviteToConference { friend, conference }))) <= 6,
{
    reveal_with_fuel(jlookup, 10);
    let v = (RequestV::InviteToConference { friend, conference });
    let m1 = ("request"@, JsonV::Str("InviteToConference"@));
    let m2 = ("friend"@, JsonV::UInt(friend as u64));
    let m3 = ("conference"@, JsonV::UInt(conference as u64));
    let ms = seq![m1, m2, m3];
    assert(req_to_json(v) == JsonV::Obj(ms));
    assert(ms.drop_first() =~= seq![m2, m3]);
    assert(seq![m2, m3].drop_first() =~= seq![m3]);
    assert(seq![m3].drop_first() =~= Seq::<(Seq<char>, JsonV)>::empty());
    reveal_strlit("request");
    assert("request"@.len() == 7);
    reveal_strlit("InviteToConference");
    assert("InviteToConference"@.len() == 18);
    reveal_strlit("Info");
    assert("Info"@.len() == 4);
    assert("InviteToConference"@ != "Info"@);
    reveal_strlit("AddFriend");
    assert("AddFriend"@.len() == 9);
    assert("InviteToConference"@ != "AddFriend"@);
    reveal_strlit("AddFriendNorequest");
    assert("AddFriendNorequest"@.len() == 18);
    assert("InviteToConference"@[0] == 'I');
    assert("AddFriendNorequest"@[0] == 'A');
    assert("InviteToConference"@ != "AddFriendNorequest"@);
    reveal_strlit("SendFriendMessage");
    assert("SendFriendMessage"@.len() == 17);
    assert("InviteToConference"@ != "SendFriendMessage"@);
    reveal_strlit("DeleteFriend");
    assert("DeleteFriend"@.len() == 12);
    assert("InviteToConference"@ != "DeleteFriend"@);
    reveal_strlit("GetConnectionStatus");
    assert("GetConnectionStatus"@.len() == 19);
    assert("InviteToConference"@ != "GetConnectionStatus"@);
    reveal_strlit("GetAddress");
    assert("GetAddress"@.len() == 10);
    assert("InviteToConference"@ != "GetAddress"@);
    reveal_strlit("GetNospam");
    assert("GetNospam"@.len() == 9);
    assert("InviteToConference"@ != "GetNospam"@);
    reveal_strlit("SetNospam");
    assert("SetNospam"@.len() == 9);
    assert("InviteToConference"@ != "SetNospam"@);
    reveal_strlit("GetPublicKey");
    assert("GetPublicKey"@.len() == 12);
    assert("InviteToConference"@ != "GetPublicKey"@);
    reveal_strlit("SetName");
    assert("SetName"@.len() == 7);
    assert("InviteToConference"@ != "SetName"@);
    reveal_strlit("GetName");
    assert("GetName"@.len() == 7);
    assert("InviteToConference"@ != "GetName"@);
    reveal_strlit("SetStatusMessage");
    assert("SetStatusMessage"@.len() == 16);
    assert("InviteToConference"@ != "SetStatusMessage"@);
    reveal_strlit("GetStatusMessage");
    assert("GetStatusMessage"@.len() == 16);
    assert("InviteToConference"@ != "GetStatusMessage"@);
    reveal_strlit("SetStatus");
    assert("SetStatus"@.len() == 9);
    assert("InviteToConference"@ != "SetStatus"@);
    reveal_strlit("GetStatus");
    assert("GetStatus"@.len() == 9);
    assert("InviteToConference"@ != "GetStatus"@);
    reveal_strlit("FriendByPublicKey");
    assert("FriendByPublicKey"@.len() == 17);
    assert("InviteToConference"@ != "FriendByPublicKey"@);
    reveal_strlit("FriendExists");
    assert("FriendExists"@.len() == 12);
    assert("InviteToConference"@ != "FriendExists"@);
    reveal_strlit("GetFriendPublicKey");
    assert("GetFriendPublicKey"@.len() == 18);
    assert("InviteToConference"@[0] == 'I');
    assert("GetFriendPublicKey"@[0] == 'G');
    assert("InviteToConference"@ != "GetFriendPublicKey"@);
    reveal_strlit("GetFriendLastOnline");
    assert("GetFriendLastOnline"@.len() == 19);
    assert("InviteToConference"@ != "GetFriendLastOnline"@);
    reveal_strlit("GetFriendName");
    assert("GetFriendName"@.len() == 13);
    assert("InviteToConference"@ != "GetFriendName"@);
    reveal_strlit("GetFriendStatusMessage");
    assert("GetFriendStatusMessage"@.len() == 22);
    assert("InviteToConference"@ != "GetFriendStatusMessage"@);
    reveal_strlit("GetFriendStatus");
    assert("GetFriendStatus"@.len() == 15);
    assert("InviteToConference"@ != "GetFriendStatus"@);
    reveal_strlit("GetFriendConnectionStatus");
    assert("GetFriendConnectionStatus"@.len() == 25);
    assert("InviteToConference"@ != "GetFriendConnectionStatus"@);
    reveal_strlit("ControlFile");
    assert("ControlFile"@.len() == 11);
    assert("InviteToConference"@ != "ControlFile"@);
    reveal_strlit("SeekFile");
    assert("SeekFile"@.len() == 8);
    assert("InviteToConference"@ != "SeekFile"@);
    reveal_strlit("GetFileId");
    assert("GetFileId"@.len() == 9);
    assert("InviteToConference"@ != "GetFileId"@);
    reveal_strlit("SendFile");
    assert("SendFile"@.len() == 8);
    assert("InviteToConference"@ != "SendFile"@);
    reveal_strlit("SendFileChunk");
    assert("SendFileChunk"@.len() == 13);
    assert("InviteToConference"@ != "SendFileChunk"@);
    reveal_strlit("NewConference");
    assert("NewConference"@.len() == 13);
    assert("InviteToConference"@ != "NewConference"@);
    reveal_strlit("DeleteConference");
    assert("DeleteConference"@.len() == 16);
    assert("InviteToConference"@ != "DeleteConference"@);
    reveal_strlit("GetPeerList");
    assert("GetPeerList"@.len() == 11);
    assert("InviteToConference"@ != "GetPeerList"@);
    reveal_strlit("ConferencePeerCount");
    assert("ConferencePeerCount"@.len() == 19);
    assert("InviteToConference"@ != "ConferencePeerCount"@);
    reveal_strlit("GetPeerName");
    assert("GetPeerName"@.len() == 11);
    assert("InviteToConference"@ != "GetPeerName"@);
    reveal_strlit("GetPeerPublicKey");
    assert("GetPeerPublicKey"@.len() == 16);
    assert("InviteToConference"@ != "GetPeerPublicKey"@);
    reveal_strlit("IsOwnPeerNumber");
    assert("IsOwnPeerNumber"@.len() == 15);
    assert("InviteToConference"@ != "IsOwnPeerNumber"@);
    reveal_strlit("friend");
    assert("friend"@.len() == 6);
    assert("friend"@ != "request"@);
    reveal_strlit("conference");
    assert("conference"@.len() == 10);
    assert("conference"@ != "request"@);
    assert("conference"@ != "friend"@);
    assert(jlookup(ms, "request"@) == Some(JsonV::Str("InviteToConference"@)));
    assert(req_from_json(JsonV::Obj(ms)) == req_dispatch("InviteToConference"@, ms));
    assert(req_dispatch("InviteToConference"@, ms) == req_dispatch2("InviteToConference"@, ms));
    assert(req_dispatch2("InviteToConference"@, ms) == req_dispatch3("InviteToConference"@, ms));
    assert(req_dispatch3("InviteToConference"@, ms) == req_dispatch4("InviteToConference"@, ms));
    assert(req_dispatch4("InviteToConference"@, ms) == req_invite_to_conference_from(ms));
    assert(jlookup(ms, "friend"@) == Some(m2.1));
    assert(sget_u32(ms, "friend"@) == Ok::<u32, DecodeError>(friend));
    assert(jlookup(ms, "conference"@) == Some(m3.1));
    assert(sget_u32(ms, "conference"@) == Ok::<u32, DecodeError>(conference));
    assert(req_invite_to_conference_from(ms) == Ok::<RequestV, DecodeError>(v));
    reveal_with_fuel(jdepth_fields, 10);
    assert(jdepth(m1.1) == 0);
    assert(jdepth(m2.1) == 0);
    assert(jdepth(m3.1) == 0);
    assert(jdepth_fields(seq![m3]) <= 5);
    assert(jdepth_fields(seq![m2, m3]) <= 5);
    assert(jdepth_fields(seq![m1, m2, m3]) <= 5);
    assert(jdepth(JsonV::Obj(ms)) <= 6);
}

proof fn lemma_req_join_conference_rt(friend: u32, cookie: Seq<u8>)
    ensures
        req_from_json(req_to_json((RequestV::JoinConference { friend, cookie }))) == Ok::<RequestV, DecodeError>((RequestV::JoinConference { friend, cookie })),
        jdepth(req_to_json((RequestV::JoinConference { friend, cookie }))) <= 6,
{
    reveal_with_fuel(jlookup, 10);
    let v = (RequestV::JoinConference { friend, cookie });
    let m1 = ("request"@, JsonV::Str("JoinConference"@));
    let m2 = ("friend"@, JsonV::UInt(friend as u64));
    let m3 = ("cookie"@, JsonV::Str(b64_of(cookie)));
    let ms = seq![m1, m2, m3];
    assert(req_to_json(v) == JsonV::Obj(ms));
    assert(ms.drop_first() =~= seq![m2, m3]);
    assert(seq![m2, m3].drop_first() =~= seq![m3]);
    assert(seq![m3].drop_first() =~= Seq::<(Seq<char>, JsonV)>::empty());
    reveal_strlit("request");
    assert("request"@.len() == 7);
    reveal_strlit("JoinConference");
    assert("JoinConference"@.len() == 14);
    reveal_strlit("Info");
    assert("Info"@.len() == 4);
    assert("JoinConference"@ != "Info"@);
    reveal_strlit("AddFriend");
    assert("AddFriend"@.len() == 9);
    assert("JoinConference"@ != "AddFriend"@);
    reveal_strlit("AddFriendNorequest");
    assert("AddFriendNorequest"@.len() == 18);
    assert("JoinConference"@ != "AddFriendNorequest"@);
    reveal_strlit("SendFriendMessage");
    assert("SendFriendMessage"@.len() == 17);
    assert("JoinConference"@ != "SendFriendMessage"@);
    reveal_strlit("DeleteFriend");
    assert("DeleteFriend"@.len() == 12);
    assert("JoinConference"@ != "DeleteFriend"@);
    reveal_strlit("GetConnectionStatus");
    assert("GetConnectionStatus"@.len() == 19);
    assert("JoinConference"@ != "GetConnectionStatus"@);
    reveal_strlit("GetAddress");
    assert("GetAddress"@.len() == 10);
    assert("JoinConference"@ != "GetAddress"@);
    reveal_strlit("GetNospam");
    assert("GetNospam"@.len() == 9);
    assert("JoinConference"@ != "GetNospam"@);
    reveal_strlit("SetNospam");
    assert("SetNospam"@.len() == 9);
    assert("JoinConference"@ != "SetNospam"@);
    reveal_strlit("GetPublicKey");
    assert("GetPublicKey"@.len() == 12);
    assert("JoinConference"@ != "GetPublicKey"@);
    reveal_strlit("SetName");
    assert("SetName"@.len() == 7);
    assert("JoinConference"@ != "SetName"@);
    reveal_strlit("GetName");
    assert("GetName"@.len() == 7);
    assert("JoinConference"@ != "GetName"@);
    reveal_strlit("SetStatusMessage");
    assert("SetStatusMessage"@.len() == 16);
    assert("JoinConference"@ != "SetStatusMessage"@);
    reveal_strlit("GetStatusMessage");
    assert("GetStatusMessage"@.len() == 16);
    assert("JoinConference"@ != "GetStatusMessage"@);
    reveal_strlit("SetStatus");
    assert("SetStatus"@.len() == 9);
    assert("JoinConference"@ != "SetStatus"@);
    reveal_strlit("GetStatus");
    assert("GetStatus"@.len() == 9);
    assert("JoinConference"@ != "GetStatus"@);
    reveal_strlit("FriendByPublicKey");
    assert("FriendByPublicKey"@.len() == 17);
    assert("JoinConference"@ != "FriendByPublicKey"@);
    reveal_strlit("FriendExists");
    assert("FriendExists"@.len() == 12);
    assert("JoinConference"@ != "FriendExists"@);
    reveal_strlit("GetFriendPublicKey");
    assert("GetFriendPublicKey"@.len() == 18);
    assert("JoinConference"@ != "GetFriendPublicKey"@);
    reveal_strlit("GetFriendLastOnline");
    assert("GetFriendLastOnline"@.len() == 19);
    assert("JoinConference"@ != "GetFriendLastOnline"@);
    reveal_strlit("GetFriendName");
    assert("GetFriendName"@.len() == 13);
    assert("JoinConference"@ != "GetFriendName"@);
    reveal_strlit("GetFriendStatusMessage");
    assert("GetFriendStatusMessage"@.len() == 22);
    assert("JoinConference"@ != "GetFriendStatusMessage"@);
    reveal_strlit("GetFriendStatus");
    assert("GetFriendStatus"@.len() == 15);
    assert("JoinConference"@ != "GetFriendStatus"@);
    reveal_strlit("GetFriendConnectionStatus");
    assert("GetFriendConnectionStatus"@.len() == 25);
    assert("JoinConference"@ != "GetFriendConnectionStatus"@);
    reveal_strlit("ControlFile");
    assert("ControlFile"@.len() == 11);
    assert("JoinConference"@ != "ControlFile"@);
    reveal_strlit("SeekFile");
    assert("SeekFile"@.len() == 8);
    assert("JoinConference"@ != "SeekFile"@);
    reveal_strlit("GetFileId");
    assert("GetFileId"@.len() == 9);
    assert("JoinConference"@ != "GetFileId"@);
    reveal_strlit("SendFile");
    assert("SendFile"@.len() == 8);
    assert("JoinConference"@ != "SendFile"@);
    reveal_strlit("SendFileChunk");
    assert("SendFileChunk"@.len() == 13);
    assert("JoinConference"@ != "SendFileChunk"@);
    reveal_strlit("NewConference");
    assert("NewConference"@.len() == 13);
    assert("JoinConference"@ != "NewConference"@);
    reveal_strlit("DeleteConference");
    assert("DeleteConference"@.len() == 16);
    assert("JoinConference"@ != "DeleteConference"@);
    reveal_strlit("GetPeerList");
    assert("GetPeerList"@.len() == 11);
    assert("JoinConference"@ != "GetPeerList"@);
    reveal_strlit("ConferencePeerCount");
    assert("ConferencePeerCount"@.len() == 19);
    assert("JoinConference"@ != "ConferencePeerCount"@);
    reveal_strlit("GetPeerName");
    assert("GetPeerName"@.len() == 11);
    assert("JoinConference"@ != "GetPeerName"@);
    reveal_strlit("GetPeerPublicKey");
    assert("GetPeerPublicKey"@.len() == 16);
    assert("JoinConference"@ != "GetPeerPublicKey"@);
    reveal_strlit("IsOwnPeerNumber");
    assert("IsOwnPeerNumber"@.len() == 15);
    assert("JoinConference"@ != "IsOwnPeerNumber"@);
    reveal_strlit("InviteToConference");
    assert("InviteToConference"@.len() == 18);
    assert("JoinConference"@ != "InviteToConference"@);
    reveal_strlit("friend");
    assert("friend"@.len() == 6);
    assert("friend"@ != "request"@);
    reveal_strlit("cookie");
    assert("cookie"@.len() == 6);
    assert("cookie"@ != "request"@);
    assert("cookie"@[0] == 'c');
    assert("friend"@[0] == 'f');
    assert("cookie"@ != "friend"@);
    assert(jlookup(ms, "request"@) == Some(JsonV::Str("JoinConference"@)));
    assert(req_from_json(JsonV::Obj(ms)) == req_dispatch("JoinConference"@, ms));
    assert(req_dispatch("JoinConference"@, ms) == req_dispatch2("JoinConference"@, ms));
    assert(req_dispatch2("JoinConference"@, ms) == req_dispatch3("JoinConference"@, ms));
    assert(req_dispatch3("JoinConference"@, ms) == req_dispatch4("JoinConference"@, ms));
    assert(req_dispatch4("JoinConference"@, ms) == req_join_conference_from(ms));
    assert(jlookup(ms, "friend"@) == Some(m2.1));
    assert(sget_u32(ms, "friend"@) == Ok::<u32, DecodeError>(friend));
    lemma_b64_inv_of(cookie);
    assert(jlookup(ms, "cookie"@) == Some(m3.1));
    assert(sget_bytes(ms, "cookie"@) == Ok::<Seq<u8>, DecodeError>(cookie));
    assert(req_join_conference_from(ms) == Ok::<RequestV, DecodeError>(v));
    reveal_with_fuel(jdepth_fields, 10);
    assert(jdepth(m1.1) == 0);
    assert(jdepth(m2.1) == 0);
    assert(jdepth(m3.1) == 0);
    assert(jdepth_fields(seq![m3]) <= 5);
    assert(jdepth_fields(seq![m2, m3]) <= 5);
    assert(jdepth_fields(seq![m1, m2, m3]) <= 5);
    assert(jdepth(JsonV::Obj(ms)) <= 6);
}

proof fn lemma_req_send_conference_message_rt(conference: u32, kind: MessageType, message: Seq<char>)
    ensures
        req_from_json(req_to_json((RequestV::SendConferenceMessage { conference, kind, message }))) == Ok::<RequestV, DecodeError>((RequestV::SendConferenceMessage { conference, kind, message })),
        jdepth(req_to_json((RequestV::SendConferenceMessage { conference, kind, message }))) <= 6,
{
    reveal_with_fuel(jlookup, 10);
    let v = (RequestV::SendConferenceMessage { conference, kind, message });
    let m1 = ("request"@, JsonV::Str("SendConferenceMessage"@));
    let m2 = ("conference"@, JsonV::UInt(conference as u64));
    let m3 = ("kind"@, JsonV::Str(message_type_str(kind)));
    let m4 = ("message"@, JsonV::Str(message));
    let ms = seq![m1, m2, m3, m4];
    assert(req_to_json(v) == JsonV::Obj(ms));
    assert(ms.drop_first() =~= seq![m2, m3, m4]);
    assert(seq![m2, m3, m4].drop_first() =~= seq![m3, m4]);
    assert(seq![m3, m4].drop_first() =~= seq![m4]);
    assert(seq![m4].drop_first() =~= Seq::<(Seq<char>, JsonV)>::empty());
    reveal_strlit("request");
    assert("request"@.len() == 7);
    reveal_strlit("SendConferenceMessage");
    assert("SendConferenceMessage"@.len() == 21);
    reveal_strlit("Info");
    assert("Info"@.len() == 4);
    assert("SendConferenceMessage"@ != "Info"@);
    reveal_strlit("AddFriend");
    assert("AddFriend"@.len() == 9);
    assert("SendConferenceMessage"@ != "AddFriend"@);
    reveal_strlit("AddFriendNorequest");
    assert("AddFriendNorequest"@.len() == 18);
    assert("SendConferenceMessage"@ != "AddFriendNorequest"@);
    reveal_strlit("SendFriendMessage");
    assert("SendFriendMessage"@.len() == 17);
    assert("SendConferenceMessage"@ != "SendFriendMessage"@);
    reveal_strlit("DeleteFriend");
    assert("DeleteFriend"@.len() == 12);
    assert("SendConferenceMessage"@ != "DeleteFriend"@);
    reveal_strlit("GetConnectionStatus");
    assert("GetConnectionStatus"@.len() == 19);
    assert("SendConferenceMessage"@ != "GetConnectionStatus"@);
    reveal_strlit("GetAddress");
    assert("GetAddress"@.len() == 10);
    assert("SendConferenceMessage"@ != "GetAddress"@);
    reveal_strlit("GetNospam");
    assert("GetNospam"@.len() == 9);
    assert("SendConferenceMessage"@ != "GetNospam"@);
    reveal_strlit("SetNospam");
    assert("SetNospam"@.len() == 9);
    assert("SendConferenceMessage"@ != "SetNospam"@);
    reveal_strlit("GetPublicKey");
    assert("GetPublicKey"@.len() == 12);
    assert("SendConferenceMessage"@ != "GetPublicKey"@);
    reveal_strlit("SetName");
    assert("SetName"@.len() == 7);
    assert("SendConferenceMessage"@ != "SetName"@);
    reveal_strlit("GetName");
    assert("GetName"@.len() == 7);
    assert("SendConferenceMessage"@ != "GetName"@);
    reveal_strlit("SetStatusMessage");
    assert("SetStatusMessage"@.len() == 16);
    assert("SendConferenceMessage"@ != "SetStatusMessage"@);
    reveal_strlit("GetStatusMessage");
    assert("GetStatusMessage"@.len() == 16);
    assert("SendConferenceMessage"@ != "GetStatusMessage"@);
    reveal_strlit("SetStatus");
    assert("SetStatus"@.len() == 9);
    assert("SendConferenceMessage"@ != "SetStatus"@);
    reveal_strlit("GetStatus");
    assert("GetStatus"@.len() == 9);
    assert("SendConferenceMessage"@ != "GetStatus"@);
    reveal_strlit("FriendByPublicKey");
    assert("FriendByPublicKey"@.len() == 17);
    assert("SendConferenceMessage"@ != "FriendByPublicKey"@);
    reveal_strlit("FriendExists");
    assert("FriendExists"@.len() == 12);
    assert("SendConferenceMessage"@ != "FriendExists"@);
    reveal_strlit("GetFriendPublicKey");
    assert("GetFriendPublicKey"@.len() == 18);
    assert("SendConferenceMessage"@ != "GetFriendPublicKey"@);
    reveal_strlit("GetFriendLastOnline");
    assert("GetFriendLastOnline"@.len() == 19);
    assert("SendConferenceMessage"@ != "GetFriendLastOnline"@);
    reveal_strlit("GetFriendName");
    assert("GetFriendName"@.len() == 13);
    assert("SendConferenceMessage"@ != "GetFriendName"@);
    reveal_strlit("GetFriendStatusMessage");
    assert("GetFriendStatusMessage"@.len() == 22);
    assert("SendConferenceMessage"@ != "GetFriendStatusMessage"@);
    reveal_strlit("GetFriendStatus");
    assert("GetFriendStatus"@.len() == 15);
    assert("SendConferenceMessage"@ != "GetFriendStatus"@);
    reveal_strlit("GetFriendConnectionStatus");
    assert("GetFriendConnectionStatus"@.len() == 25);
    assert("SendConferenceMessage"@ != "GetFriendConnectionStatus"@);
    reveal_strlit("ControlFile");
    assert("ControlFile"@.len() == 11);
    assert("SendConferenceMessage"@ != "ControlFile"@);
    reveal_strlit("SeekFile");
    assert("SeekFile"@.len() == 8);
    assert("SendConferenceMessage"@ != "SeekFile"@);
    reveal_strlit("GetFileId");
    assert("GetFileId"@.len() == 9);
    assert("SendConferenceMessage"@ != "GetFileId"@);
    reveal_strlit("SendFile");
    assert("SendFile"@.len() == 8);
    assert("SendConferenceMessage"@ != "SendFile"@);
    reveal_strlit("SendFileChunk");
    assert("SendFileChunk"@.len() == 13);
    assert("SendConferenceMessage"@ != "SendFileChunk"@);
    reveal_strlit("NewConference");
    assert("NewConference"@.len() == 13);
    assert("SendConferenceMessage"@ != "NewConference"@);
    reveal_strlit("DeleteConference");
    assert("DeleteConference"@.len() == 16);
    assert("SendConferenceMessage"@ != "DeleteConference"@);
    reveal_strlit("GetPeerList");
    assert("GetPeerList"@.len() == 11);
    assert("SendConferenceMessage"@ != "GetPeerList"@);
    reveal_strlit("ConferencePeerCount");
    assert("ConferencePeerCount"@.len() == 19);
    assert("SendConferenceMessage"@ != "ConferencePeerCount"@);
    reveal_strlit("GetPeerName");
    assert("GetPeerName"@.len() == 11);
    assert("SendConferenceMessage"@ != "GetPeerName"@);
    reveal_strlit("GetPeerPublicKey");
    assert("GetPeerPublicKey"@.len() == 16);
    assert("SendConferenceMessage"@ != "GetPeerPublicKey"@);
    reveal_strlit("IsOwnPeerNumber");
    assert("IsOwnPeerNumber"@.len() == 15);
    assert("SendConferenceMessage"@ != "IsOwnPeerNumber"@);
    reveal_strlit("InviteToConference");
    assert("InviteToConference"@.len() == 18);
    assert("SendConferenceMessage"@ != "InviteToConference"@);
    reveal_strlit("JoinConference");
    assert("JoinConference"@.len() == 14);
    assert("SendConferenceMessage"@ != "JoinConference"@);
    reveal_strlit("conference");
    assert("conference"@.len() == 10);
    assert("conference"@ != "request"@);
    reveal_strlit("kind");
    assert("kind"@.len() == 4);
    assert("kind"@ != "request"@);
    assert("kind"@ != "conference"@);
    reveal_strlit("message");
    assert("message"@.len() == 7);
    assert("message"@[0] == 'm');
    assert("request"@[0] == 'r');
    assert("message"@ != "request"@);
    assert("message"@ != "conference"@);
    assert("message"@ != "kind"@);
    assert(jlookup(ms, "request"@) == Some(JsonV::Str("SendConferenceMessage"@)));
    assert(req_from_json(JsonV::Obj(ms)) == req_dispatch("SendConferenceMessage"@, ms));
    assert(req_dispatch("SendConferenceMessage"@, ms) == req_dispatch2("SendConferenceMessage"@, ms));
    assert(req_dispatch2("SendConferenceMessage"@, ms) == req_dispatch3("SendConferenceMessage"@, ms));
    assert(req_dispatch3("SendConferenceMessage"@, ms) == req_dispatch4("SendConferenceMessage"@, ms));
    assert(req_dispatch4("SendConferenceMessage"@, ms) == req_send_conference_message_from(ms));
    assert(jlookup(ms, "conference"@) == Some(m2.1));
    assert(sget_u32(ms, "conference"@) == Ok::<u32, DecodeError>(conference));
    lemma_message_type_rt(kind);
    assert(jlookup(ms, "kind"@) == Some(m3.1));
    assert(sget_message_type(ms, "kind"@) == Ok::<MessageType, DecodeError>(kind));
    assert(jlookup(ms, "message"@) == Some(m4.1));
    assert(sget_str(ms, "message"@) == Ok::<Seq<char>, DecodeError>(message));
    assert(req_send_conference_message_from(ms) == Ok::<RequestV, DecodeError>(v));
    reveal_with_fuel(jdepth_fields, 10);
    assert(jdepth(m1.1) == 0);
    assert(jdepth(m2.1) == 0);
    assert(jdepth(m3.1) == 0);
    assert(jdepth(m4.1) == 0);
    assert(jdepth_fields(seq![m4]) <= 5);
    assert(jdepth_fields(seq![m3, m4]) <= 5);
    assert(jdepth_fields(seq![m2, m3, m4]) <= 5);
    assert(jdepth_fields(seq![m1, m2, m3, m4]) <= 5);
    assert(jdepth(JsonV::Obj(ms)) <= 6);
}

proof fn lemma_req_get_conference_title_rt(conference: u32)
    ensures
        req_from_json(req_to_json((RequestV::GetConferenceTitle { conference }))) == Ok::<RequestV, DecodeError>((RequestV::GetConferenceTitle { conference })),
        jdepth(req_to_json((RequestV::GetConferenceTitle { conference }))) <= 6,
{
    reveal_with_fuel(jlookup, 10);
    let v = (RequestV::GetConferenceTitle { conference });
    let m1 = ("request"@, JsonV::Str("GetConferenceTitle"@));
    let m2 = ("conference"@, JsonV::UInt(conference as u64));
    let ms = seq![m1, m2];
    assert(req_to_json(v) == JsonV::Obj(ms));
    assert(ms.drop_first() =~= seq![m2]);
    assert(seq![m2].drop_first() =~= Seq::<(Seq<char>, JsonV)>::empty());
    reveal_strlit("request");
    assert("request"@.len() == 7);
    reveal_strlit("GetConferenceTitle");
    assert("GetConferenceTitle"@.len() == 18);
    reveal_strlit("Info");
    assert("Info"@.len() == 4);
    assert("GetConferenceTitle"@ != "Info"@);
    reveal_strlit("AddFriend");
    assert("AddFriend"@.len() == 9);
    assert("GetConferenceTitle"@ != "AddFriend"@);
    reveal_strlit("AddFriendNorequest");
    assert("AddFriendNorequest"@.len() == 18);
    assert("GetConferenceTitle"@[0] == 'G');
    assert("AddFriendNorequest"@[0] == 'A');
    assert("GetConferenceTitle"@ != "AddFriendNorequest"@);
    reveal_strlit("SendFriendMessage");
    assert("SendFriendMessage"@.len() == 17);
    assert("GetConferenceTitle"@ != "SendFriendMessage"@);
    reveal_strlit("DeleteFriend");
    assert("DeleteFriend"@.len() == 12);
    assert("GetConferenceTitle"@ != "DeleteFriend"@);
    reveal_strlit("GetConnectionStatus");
    assert("GetConnectionStatus"@.len() == 19);
    assert("GetConferenceTitle"@ != "GetConnectionStatus"@);
    reveal_strlit("GetAddress");
    assert("GetAddress"@.len() == 10);
    assert("GetConferenceTitle"@ != "GetAddress"@);
    reveal_strlit("GetNospam");
    assert("GetNospam"@.len() == 9);
    assert("GetConferenceTitle"@ != "GetNospam"@);
    reveal_strlit("SetNospam");
    assert("SetNospam"@.len() == 9);
    assert("GetConferenceTitle"@ != "SetNospam"@);
    reveal_strlit("GetPublicKey");
    assert("GetPublicKey"@.len() == 12);
    assert("GetConferenceTitle"@ != "GetPublicKey"@);
    reveal_strlit("SetName");
    assert("SetName"@.len() == 7);
    assert("GetConferenceTitle"@ != "SetName"@);
    reveal_strlit("GetName");
    assert("GetName"@.len() == 7);
    assert("GetConferenceTitle"@ != "GetName"@);
    reveal_strlit("SetStatusMessage");
    assert("SetStatusMessage"@.len() == 16);
    assert("GetConferenceTitle"@ != "SetStatusMessage"@);
    reveal_strlit("GetStatusMessage");
    assert("GetStatusMessage"@.len() == 16);
    assert("GetConferenceTitle"@ != "GetStatusMessage"@);
    reveal_strlit("SetStatus");
    assert("SetStatus"@.len() == 9);
    assert("GetConferenceTitle"@ != "SetStatus"@);
    reveal_strlit("GetStatus");
    assert("GetStatus"@.len() == 9);
    assert("GetConferenceTitle"@ != "GetStatus"@);
    reveal_strlit("FriendByPublicKey");
    assert("FriendByPublicKey"@.len() == 17);
    assert("GetConferenceTitle"@ != "FriendByPublicKey"@);
    reveal_strlit("FriendExists");
    assert("FriendExists"@.len() == 12);
    assert("GetConferenceTitle"@ != "FriendExists"@);
    reveal_strlit("GetFriendPublicKey");
    assert("GetFriendPublicKey"@.len() == 18);
    assert("GetConferenceTitle"@[3] == 'C');
    assert("GetFriendPublicKey"@[3] == 'F');
    assert("GetConferenceTitle"@ != "GetFriendPublicKey"@);
    reveal_strlit("GetFriendLastOnline");
    assert("GetFriendLastOnline"@.len() == 19);
    assert("GetConferenceTitle"@ != "GetFriendLastOnline"@);
    reveal_strlit("GetFriendName");
    assert("GetFriendName"@.len() == 13);
    assert("GetConferenceTitle"@ != "GetFriendName"@);
    reveal_strlit("GetFriendStatusMessage");
    assert("GetFriendStatusMessage"@.len() == 22);
    assert("GetConferenceTitle"@ != "GetFriendStatusMessage"@);
    reveal_strlit("GetFriendStatus");
    assert("GetFriendStatus"@.len() == 15);
    assert("GetConferenceTitle"@ != "GetFriendStatus"@);
    reveal_strlit("GetFriendConnectionStatus");
    assert("GetFriendConnectionStatus"@.len() == 25);
    assert("GetConferenceTitle"@ != "GetFriendConnectionStatus"@);
    reveal_strlit("ControlFile");
    assert("ControlFile"@.len() == 11);
    assert("GetConferenceTitle"@ != "ControlFile"@);
    reveal_strlit("SeekFile");
    assert("SeekFile"@.len() == 8);
    assert("GetConferenceTitle"@ != "SeekFile"@);
    reveal_strlit("GetFileId");
    assert("GetFileId"@.len() == 9);
    assert("GetConferenceTitle"@ != "GetFileId"@);
    reveal_strlit("SendFile");
    assert("SendFile"@.len() == 8);
    assert("GetConferenceTitle"@ != "SendFile"@);
    reveal_strlit("SendFileChunk");
    assert("SendFileChunk"@.len() == 13);
    assert("GetConferenceTitle"@ != "SendFileChunk"@);
    reveal_strlit("NewConference");
    assert("NewConference"@.len() == 13);
    assert("GetConferenceTitle"@ != "NewConference"@);
    reveal_strlit("DeleteConference");
    assert("DeleteConference"@.len() == 16);
    assert("GetConferenceTitle"@ != "DeleteConference"@);
    reveal_strlit("GetPeerList");
    assert("GetPeerList"@.len() == 11);
    assert("GetConferenceTitle"@ != "GetPeerList"@);
    reveal_strlit("ConferencePeerCount");
    assert("ConferencePeerCount"@.len() == 19);
    assert("GetConferenceTitle"@ != "ConferencePeerCount"@);
    reveal_strlit("GetPeerName");
    assert("GetPeerName"@.len() == 11);
    assert("GetConferenceTitle"@ != "GetPeerName"@);
    reveal_strlit("GetPeerPublicKey");
    assert("GetPeerPublicKey"@.len() == 16);
    assert("GetConferenceTitle"@ != "GetPeerPublicKey"@);
    reveal_strlit("IsOwnPeerNumber");
    assert("IsOwnPeerNumber"@.len() == 15);
    assert("GetConferenceTitle"@ != "IsOwnPeerNumber"@);
    reveal_strlit("InviteToConference");
    assert("InviteToConference"@.len() == 18);
    assert("GetConferenceTitle"@[0] == 'G');
    assert("InviteToConference"@[0] == 'I');
    assert("GetConferenceTitle"@ != "InviteToConference"@);
    reveal_strlit("JoinConference");
    assert("JoinConference"@.len() == 14);
    assert("GetConferenceTitle"@ != "JoinConference"@);
    reveal_strlit("SendConferenceMessage");
    assert("SendConferenceMessage"@.len() == 21);
    assert("GetConferenceTitle"@ != "SendConferenceMessage"@);
    reveal_strlit("conference");
    assert("conference"@.len() == 10);
    assert("conference"@ != "request"@);
    assert(jlookup(ms, "request"@) == Some(JsonV::Str("GetConferenceTitle"@)));
    assert(req_from_json(JsonV::Obj(ms)) == req_dispatch("GetConferenceTitle"@, ms));
    assert(req_dispatch("GetConferenceTitle"@, ms) == req_dispatch2("GetConferenceTitle"@, ms));
    assert(req_dispatch2("GetConferenceTitle"@, ms) == req_dispatch3("GetConferenceTitle"@, ms));
    assert(req_dispatch3("GetConferenceTitle"@, ms) == req_dispatch4("GetConferenceTitle"@, ms));
    assert(req_dispatch4("GetConferenceTitle"@, ms) == req_get_conference_title_from(ms));
    assert(jlookup(ms, "conference"@) == Some(m2.1));
    assert(sget_u32(ms, "conference"@) == Ok::<u32, DecodeError>(conference));
    assert(req_get_conference_title_from(ms) == Ok::<RequestV, DecodeError>(v));
    reveal_with_fuel(jdepth_fields, 10);
    assert(jdepth(m1.1) == 0);
    assert(jdepth(m2.1) == 0);
    assert(jdepth_fields(seq![m2]) <= 5);
    assert(jdepth_fields(seq![m1, m2]) <= 5);
    assert(jdepth(JsonV::Obj(ms)) <= 6);
}

proof fn lemma_req_set_conference_title_rt(conference: u32, title: Seq<char>)
    ensures
        req_from_json(req_to_json((RequestV::SetConferenceTitle { conference, title }))) == Ok::<RequestV, DecodeError>((RequestV::SetConferenceTitle { conference, title })),
        jdepth(req_to_json((RequestV::SetConferenceTitle { conference, title }))) <= 6,
{
    reveal_with_fuel(jlookup, 10);
    let v = (RequestV::SetConferenceTitle { conference, title });
    let m1 = ("request"@, JsonV::Str("SetConferenceTitle"@));
    let m2 = ("conference"@, JsonV::UInt(conference as u64));
    let m3 = ("title"@, JsonV::Str(title));
    let ms = seq![m1, m2, m3];
    assert(req_to_json(v) == JsonV::Obj(ms));
    assert(ms.drop_first() =~= seq![m2, m3]);
    assert(seq![m2, m3].drop_first() =~= seq![m3]);
    assert(seq![m3].drop_first() =~= Seq::<(Seq<char>, JsonV)>::empty());
    reveal_strlit("request");
    assert("request"@.len() == 7);
    reveal_strlit("SetConferenceTitle");
    assert("SetConferenceTitle"@.len() == 18);
    reveal_strlit("Info");
    assert("Info"@.len() == 4);
    assert("SetConferenceTitle"@ != "Info"@);
    reveal_strlit("AddFriend");
    assert("AddFriend"@.len() == 9);
    assert("SetConferenceTitle"@ != "AddFriend"@);
    reveal_strlit("AddFriendNorequest");
    assert("AddFriendNorequest"@.len() == 18);
    assert("SetConferenceTitle"@[0] == 'S');
    assert("AddFriendNorequest"@[0] == 'A');
    assert("SetConferenceTitle"@ != "AddFriendNorequest"@);
    reveal_strlit("SendFriendMessage");
    assert("SendFriendMessage"@.len() == 17);
    assert("SetConferenceTitle"@ != "SendFriendMessage"@);
    reveal_strlit("DeleteFriend");
    assert("DeleteFriend"@.len() == 12);
    assert("SetConferenceTitle"@ != "DeleteFriend"@);
    reveal_strlit("GetConnectionStatus");
    assert("GetConnectionStatus"@.len() == 19);
    assert("SetConferenceTitle"@ != "GetConnectionStatus"@);
    reveal_strlit("GetAddress");
    assert("GetAddress"@.len() == 10);
    assert("SetConferenceTitle"@ != "GetAddress"@);
    reveal_strlit("GetNospam");
    assert("GetNospam"@.len() == 9);
    assert("SetConferenceTitle"@ != "GetNospam"@);
    reveal_strlit("SetNospam");
    assert("SetNospam"@.len() == 9);
    assert("SetConferenceTitle"@ != "SetNospam"@);
    reveal_strlit("GetPublicKey");
    assert("GetPublicKey"@.len() == 12);
    assert("SetConferenceTitle"@ != "GetPublicKey"@);
    reveal_strlit("SetName");
    assert("SetName"@.len() == 7);
    assert("SetConferenceTitle"@ != "SetName"@);
    reveal_strlit("GetName");
    assert("GetName"@.len() == 7);
    assert("SetConferenceTitle"@ != "GetName"@);
    reveal_strlit("SetStatusMessage");
    assert("SetStatusMessage"@.len() == 16);
    assert("SetConferenceTitle"@ != "SetStatusMessage"@);
    reveal_strlit("GetStatusMessage");
    assert("GetStatusMessage"@.len() == 16);
    assert("SetConferenceTitle"@ != "GetStatusMessage"@);
    reveal_strlit("SetStatus");
    assert("SetStatus"@.len() == 9);
    assert("SetConferenceTitle"@ != "SetStatus"@);
    reveal_strlit("GetStatus");
    assert("GetStatus"@.len() == 9);
    assert("SetConferenceTitle"@ != "GetStatus"@);
    reveal_strlit("FriendByPublicKey");
    assert("FriendByPublicKey"@.len() == 17);
    assert("SetConferenceTitle"@ != "FriendByPublicKey"@);
    reveal_strlit("FriendExists");
    assert("FriendExists"@.len() == 12);
    assert("SetConferenceTitle"@ != "FriendExists"@);
    reveal_strlit("GetFriendPublicKey");
    assert("GetFriendPublicKey"@.len() == 18);
    assert("SetConferenceTitle"@[0] == 'S');
    assert("GetFriendPublicKey"@[0] == 'G');
    assert("SetConferenceTitle"@ != "GetFriendPublicKey"@);
    reveal_strlit("GetFriendLastOnline");
    assert("GetFriendLastOnline"@.len() == 19);
    assert("SetConferenceTitle"@ != "GetFriendLastOnline"@);
    reveal_strlit("GetFriendName");
    assert("GetFriendName"@.len() == 13);
    assert("SetConferenceTitle"@ != "GetFriendName"@);
    reveal_strlit("GetFriendStatusMessage");
    assert("GetFriendStatusMessage"@.len() == 22);
    assert("SetConferenceTitle"@ != "GetFriendStatusMessage"@);
    reveal_strlit("GetFriendStatus");
    assert("GetFriendStatus"@.len() == 15);
    assert("SetConferenceTitle"@ != "GetFriendStatus"@);
    reveal_strlit("GetFriendConnectionStatus");
    assert("GetFriendConnectionStatus"@.len() == 25);
    assert("SetConferenceTitle"@ != "GetFriendConnectionStatus"@);
    reveal_strlit("ControlFile");
    assert("ControlFile"@.len() == 11);
    assert("SetConferenceTitle"@ != "ControlFile"@);
    reveal_strlit("SeekFile");
    assert("SeekFile"@.len() == 8);
    assert("SetConferenceTitle"@ != "SeekFile"@);
    reveal_strlit("GetFileId");
    assert("GetFileId"@.len() == 9);
    assert("SetConferenceTitle"@ != "GetFileId"@);
    reveal_strlit("SendFile");
    assert("SendFile"@.len() == 8);
    assert("SetConferenceTitle"@ != "SendFile"@);
    reveal_strlit("SendFileChunk");
    assert("SendFileChunk"@.len() == 13);
    assert("SetConferenceTitle"@ != "SendFileChunk"@);
    reveal_strlit("NewConference");
    assert("NewConference"@.len() == 13);
    assert("SetConferenceTitle"@ != "NewConference"@);
    reveal_strlit("DeleteConference");
    assert("DeleteConference"@.len() == 16);
    assert("SetConferenceTitle"@ != "DeleteConference"@);
    reveal_strlit("GetPeerList");
    assert("GetPeerList"@.len() == 11);
    assert("SetConferenceTitle"@ != "GetPeerList"@);
    reveal_strlit("ConferencePeerCount");
    assert("ConferencePeerCount"@.len() == 19);
    assert("SetConferenceTitle"@ != "ConferencePeerCount"@);
    reveal_strlit("GetPeerName");
    assert("GetPeerName"@.len() == 11);
    assert("SetConferenceTitle"@ != "GetPeerName"@);
    reveal_strlit("GetPeerPublicKey");
    assert("GetPeerPublicKey"@.len() == 16);
    assert("SetConferenceTitle"@ != "GetPeerPublicKey"@);
    reveal_strlit("IsOwnPeerNumber");
    assert("IsOwnPeerNumber"@.len() == 15);
    assert("SetConferenceTitle"@ != "IsOwnPeerNumber"@);
    reveal_strlit("InviteToConference");
    assert("InviteToConference"@.len() == 18);
    assert("SetConferenceTitle"@[0] == 'S');
    assert("InviteToConference"@[0] == 'I');
    assert("SetConferenceTitle"@ != "InviteToConference"@);
    reveal_strlit("JoinConference");
    assert("JoinConference"@.len() == 14);
    assert("SetConferenceTitle"@ != "JoinConference"@);
    reveal_strlit("SendConferenceMessage");
    assert("SendConferenceMessage"@.len() == 21);
    assert("SetConferenceTitle"@ != "SendConferenceMessage"@);
    reveal_strlit("GetConferenceTitle");
    assert("GetConferenceTitle"@.len() == 18);
    assert("SetConferenceTitle"@[0] == 'S');
    assert("GetConferenceTitle"@[0] == 'G');
    assert("SetConferenceTitle"@ != "GetConferenceTitle"@);
    reveal_strlit("conference");
    assert("conference"@.len() == 10);
    assert("conference"@ != "request"@);
    reveal_strlit("title");
    assert("title"@.len() == 5);
    assert("title"@ != "request"@);
    assert("title"@ != "conference"@);
    assert(jlookup(ms, "request"@) == Some(JsonV::Str("SetConferenceTitle"@)));
    assert(req_from_json(JsonV::Obj(ms)) == req_dispatch("SetConferenceTitle"@, ms));
    assert(req_dispatch("SetConferenceTitle"@, ms) == req_dispatch2("SetConferenceTitle"@, ms));
    assert(req_dispatch2("SetConferenceTitle"@, ms) == req_dispatch3("SetConferenceTitle"@, ms));
    assert(req_dispatch3("SetConferenceTitle"@, ms) == req_dispatch4("SetConferenceTitle"@, ms));
    assert(req_dispatch4("SetConferenceTitle"@, ms) == req_set_conference_title_from(ms));
    assert(jlookup(ms, "conference"@) == Some(m2.1));
    assert(sget_u32(ms, "conference"@) == Ok::<u32, DecodeError>(conference));
    assert(jlookup(ms, "title"@) == Some(m3.1));
    assert(sget_str(ms, "title"@) == Ok::<Seq<char>, DecodeError>(title));
    assert(req_set_conference_title_from(ms) == Ok::<RequestV, DecodeError>(v));
    reveal_with_fuel(jdepth_fields, 10);
    assert(jdepth(m1.1) == 0);
    assert(jdepth(m2.1) == 0);
    assert(jdepth(m3.1) == 0);
    assert(jdepth_fields(seq![m3]) <= 5);
    assert(jdepth_fields(seq![m2, m3]) <= 5);
    assert(jdepth_fields(seq![m1, m2, m3]) <= 5);
    assert(jdepth(JsonV::Obj(ms)) <= 6);
}

proof fn lemma_req_get_conference_list_rt()
    ensures
        req_from_json(req_to_json(RequestV::GetConferenceList)) == Ok::<RequestV, DecodeError>(RequestV::GetConferenceList),
        jdepth(req_to_json(RequestV::GetConferenceList)) <= 6,
{
    reveal_with_fuel(jlookup, 10);
    let v = RequestV::GetConferenceList;
    let m1 = ("request"@, JsonV::Str("GetConferenceList"@));
    let ms = seq![m1];
    assert(req_to_json(v) == JsonV::Obj(ms));
    assert(ms.drop_first() =~= seq![]);
    reveal_strlit("request");
    assert("request"@.len() == 7);
    reveal_strlit("GetConferenceList");
    assert("GetConferenceList"@.len() == 17);
    reveal_strlit("Info");
    assert("Info"@.len() == 4);
    assert("GetConferenceList"@ != "Info"@);
    reveal_strlit("AddFriend");
    assert("AddFriend"@.len() == 9);
    assert("GetConferenceList"@ != "AddFriend"@);
    reveal_strlit("AddFriendNorequest");
    assert("AddFriendNorequest"@.len() == 18);
    assert("GetConferenceList"@ != "AddFriendNorequest"@);
    reveal_strlit("SendFriendMessage");
    assert("SendFriendMessage"@.len() == 17);
    assert("GetConferenceList"@[0] == 'G');
    assert("SendFriendMessage"@[0] == 'S');
    assert("GetConferenceList"@ != "SendFriendMessage"@);
    reveal_strlit("DeleteFriend");
    assert("DeleteFriend"@.len() == 12);
    assert("GetConferenceList"@ != "DeleteFriend"@);
    reveal_strlit("GetConnectionStatus");
    assert("GetConnectionStatus"@.len() == 19);
    assert("GetConferenceList"@ != "GetConnectionStatus"@);
    reveal_strlit("GetAddress");
    assert("GetAddress"@.len() == 10);
    assert("GetConferenceList"@ != "GetAddress"@);
    reveal_strlit("GetNospam");
    assert("GetNospam"@.len() == 9);
    assert("GetConferenceList"@ != "GetNospam"@);
    reveal_strlit("SetNospam");
    assert("SetNospam"@.len() == 9);
    assert("GetConferenceList"@ != "SetNospam"@);
    reveal_strlit("GetPublicKey");
    assert("GetPublicKey"@.len() == 12);
    assert("GetConferenceList"@ != "GetPublicKey"@);
    reveal_strlit("SetName");
    assert("SetName"@.len() == 7);
    assert("GetConferenceList"@ != "SetName"@);
    reveal_strlit("GetName");
    assert("GetName"@.len() == 7);
    assert("GetConferenceList"@ != "GetName"@);
    reveal_strlit("SetStatusMessage");
    assert("SetStatusMessage"@.len() == 16);
    assert("GetConferenceList"@ != "SetStatusMessage"@);
    reveal_strlit("GetStatusMessage");
    assert("GetStatusMessage"@.len() == 16);
    assert("GetConferenceList"@ != "GetStatusMessage"@);
    reveal_strlit("SetStatus");
    assert("SetStatus"@.len() == 9);
    assert("GetConferenceList"@ != "SetStatus"@);
    reveal_strlit("GetStatus");
    assert("GetStatus"@.len() == 9);
    assert("GetConferenceList"@ != "GetStatus"@);
    reveal_strlit("FriendByPublicKey");
    assert("FriendByPublicKey"@.len() == 17);
    assert("GetConferenceList"@[0] == 'G');
    assert("FriendByPublicKey"@[0] == 'F');
    assert("GetConferenceList"@ != "FriendByPublicKey"@);
    reveal_strlit("FriendExists");
    assert("FriendExists"@.len() == 12);
    assert("GetConferenceList"@ != "FriendExists"@);
    reveal_strlit("GetFriendPublicKey");
    assert("GetFriendPublicKey"@.len() == 18);
    assert("GetConferenceList"@ != "GetFriendPublicKey"@);
    reveal_strlit("GetFriendLastOnline");
    assert("GetFriendLastOnline"@.len() == 19);
    assert("GetConferenceList"@ != "GetFriendLastOnline"@);
    reveal_strlit("GetFriendName");
    assert("GetFriendName"@.len() == 13);
    assert("GetConferenceList"@ != "GetFriendName"@);
    reveal_strlit("GetFriendStatusMessage");
    assert("GetFriendStatusMessage"@.len() == 22);
    assert("GetConferenceList"@ != "GetFriendStatusMessage"@);
    reveal_strlit("GetFriendStatus");
    assert("GetFriendStatus"@.len() == 15);
    assert("GetConferenceList"@ != "GetFriendStatus"@);
    reveal_strlit("GetFriendConnectionStatus");
    assert("GetFriendConnectionStatus"@.len() == 25);
    assert("GetConferenceList"@ != "GetFriendConnectionStatus"@);
    reveal_strlit("ControlFile");
    assert("ControlFile"@.len() == 11);
    assert("GetConferenceList"@ != "ControlFile"@);
    reveal_strlit("SeekFile");
    assert("SeekFile"@.len() == 8);
    assert("GetConferenceList"@ != "SeekFile"@);
    reveal_strlit("GetFileId");
    assert("GetFileId"@.len() == 9);
    assert("GetConferenceList"@ != "GetFileId"@);
    reveal_strlit("SendFile");
    assert("SendFile"@.len() == 8);
    assert("GetConferenceList"@ != "SendFile"@);
    reveal_strlit("SendFileChunk");
    assert("SendFileChunk"@.len() == 13);
    assert("GetConferenceList"@ != "SendFileChunk"@);
    reveal_strlit("NewConference");
    assert("NewConference"@.len() == 13);
    assert("GetConferenceList"@ != "NewConference"@);
    reveal_strlit("DeleteConference");
    assert("DeleteConference"@.len() == 16);
    assert("GetConferenceList"@ != "DeleteConference"@);
    reveal_strlit("GetPeerList");
    assert("GetPeerList"@.len() == 11);
    assert("GetConferenceList"@ != "GetPeerList"@);
    reveal_strlit("ConferencePeerCount");
    assert("ConferencePeerCount"@.len() == 19);
    assert("GetConferenceList"@ != "ConferencePeerCount"@);
    reveal_strlit("GetPeerName");
    assert("GetPeerName"@.len() == 11);
    assert("GetConferenceList"@ != "GetPeerName"@);
    reveal_strlit("GetPeerPublicKey");
    assert("GetPeerPublicKey"@.len() == 16);
    assert("GetConferenceList"@ != "GetPeerPublicKey"@);
    reveal_strlit("IsOwnPeerNumber");
    assert("IsOwnPeerNumber"@.len() == 15);
    assert("GetConferenceList"@ != "IsOwnPeerNumber"@);
    reveal_strlit("InviteToConference");
    assert("InviteToConference"@.len() == 18);
    assert("GetConferenceList"@ != "InviteToConference"@);
    reveal_strlit("JoinConference");
    assert("JoinConference"@.len() == 14);
    assert("GetConferenceList"@ != "JoinConference"@);
    reveal_strlit("SendConferenceMessage");
    assert("SendConferenceMessage"@.len() == 21);
    assert("GetConferenceList"@ != "SendConferenceMessage"@);
    reveal_strlit("GetConferenceTitle");
    assert("GetConferenceTitle"@.len() == 18);
    assert("GetConferenceList"@ != "GetConferenceTitle"@);
    reveal_strlit("SetConferenceTitle");
    assert("SetConferenceTitle"@.len() == 18);
    assert("GetConferenceList"@ != "SetConferenceTitle"@);
    assert(jlookup(ms, "request"@) == Some(JsonV::Str("GetConferenceList"@)));
    assert(req_from_json(JsonV::Obj(ms)) == req_dispatch("GetConferenceList"@, ms));
    assert(req_dispatch("GetConferenceList"@, ms) == req_dispatch2("GetConferenceList"@, ms));
    assert(req_dispatch2("GetConferenceList"@, ms) == req_dispatch3("GetConferenceList"@, ms));
    assert(req_dispatch3("GetConferenceList"@, ms) == req_dispatch4("GetConferenceList"@, ms));
    assert(req_dispatch4("GetConferenceList"@, ms) == Ok::<RequestV, DecodeError>(v));
    reveal_with_fuel(jdepth_fields, 10);
    assert(jdepth(m1.1) == 0);
    assert(jdepth_fields(seq![m1]) <= 5);
    assert(jdepth(JsonV::Obj(ms)) <= 6);
}

proof fn lemma_req_get_conference_type_rt(conference: u32)
    ensures
        req_from_json(req_to_json((RequestV::GetConferenceType { conference }))) == Ok::<RequestV, DecodeError>((RequestV::GetConferenceType { conference })),
        jdepth(req_to_json((RequestV::GetConferenceType { conference }))) <= 6,
{
    reveal_with_fuel(jlookup, 10);
    let v = (RequestV::GetConferenceType { conference });
    let m1 = ("request"@, JsonV::Str("GetConferenceType"@));
    let m2 = ("conference"@, JsonV::UInt(conference as u64));
    let ms = seq![m1, m2];
    assert(req_to_json(v) == JsonV::Obj(ms));
    assert(ms.drop_first() =~= seq![m2]);
    assert(seq![m2].drop_first() =~= Seq::<(Seq<char>, JsonV)>::empty());
    reveal_strlit("request");
    assert("request"@.len() == 7);
    reveal_strlit("GetConferenceType");
    assert("GetConferenceType"@.len() == 17);
    reveal_strlit("Info");
    assert("Info"@.len() == 4);
    assert("GetConferenceType"@ != "Info"@);
    reveal_strlit("AddFriend");
    assert("AddFriend"@.len() == 9);
    assert("GetConferenceType"@ != "AddFriend"@);
    reveal_strlit("AddFriendNorequest");
    assert("AddFriendNorequest"@.len() == 18);
    assert("GetConferenceType"@ != "AddFriendNorequest"@);
    reveal_strlit("SendFriendMessage");
    assert("SendFriendMessage"@.len() == 17);
    assert("GetConferenceType"@[0] == 'G');
    assert("SendFriendMessage"@[0] == 'S');
    assert("GetConferenceType"@ != "SendFriendMessage"@);
    reveal_strlit("DeleteFriend");
    assert("DeleteFriend"@.len() == 12);
    assert("GetConferenceType"@ != "DeleteFriend"@);
    reveal_strlit("GetConnectionStatus");
    assert("GetConnectionStatus"@.len() == 19);
    assert("GetConferenceType"@ != "GetConnectionStatus"@);
    reveal_strlit("GetAddress");
    assert("GetAddress"@.len() == 10);
    assert("GetConferenceType"@ != "GetAddress"@);
    reveal_strlit("GetNospam");
    assert("GetNospam"@.len() == 9);
    assert("GetConferenceType"@ != "GetNospam"@);
    reveal_strlit("SetNospam");
    assert("SetNospam"@.len() == 9);
    assert("GetConferenceType"@ != "SetNospam"@);
    reveal_strlit("GetPublicKey");
    assert("GetPublicKey"@.len() == 12);
    assert("GetConferenceType"@ != "GetPublicKey"@);
    reveal_strlit("SetName");
    assert("SetName"@.len() == 7);
    assert("GetConferenceType"@ != "SetName"@);
    reveal_strlit("GetName");
    assert("GetName"@.len() == 7);
    assert("GetConferenceType"@ != "GetName"@);
    reveal_strlit("SetStatusMessage");
    assert("SetStatusMessage"@.len() == 16);
    assert("GetConferenceType"@ != "SetStatusMessage"@);
    reveal_strlit("GetStatusMessage");
    assert("GetStatusMessage"@.len() == 16);
    assert("GetConferenceType"@ != "GetStatusMessage"@);
    reveal_strlit("SetStatus");
    assert("SetStatus"@.len() == 9);
    assert("GetConferenceType"@ != "SetStatus"@);
    reveal_strlit("GetStatus");
    assert("GetStatus"@.len() == 9);
    assert("GetConferenceType"@ != "GetStatus"@);
    reveal_strlit("FriendByPublicKey");
    assert("FriendByPublicKey"@.len() == 17);
    assert("GetConferenceType"@[0] == 'G');
    assert("FriendByPublicKey"@[0] == 'F');
    assert("GetConferenceType"@ != "FriendByPublicKey"@);
    reveal_strlit("FriendExists");
    assert("FriendExists"@.len() == 12);
    assert("GetConferenceType"@ != "FriendExists"@);
    reveal_strlit("GetFriendPublicKey");
    assert("GetFriendPublicKey"@.len() == 18);
    assert("GetConferenceType"@ != "GetFriendPublicKey"@);
    reveal_strlit("GetFriendLastOnline");
    assert("GetFriendLastOnline"@.len() == 19);
    assert("GetConferenceType"@ != "GetFriendLastOnline"@);
    reveal_strlit("GetFriendName");
    assert("GetFriendName"@.len() == 13);
    assert("GetConferenceType"@ != "GetFriendName"@);
    reveal_strlit("GetFriendStatusMessage");
    assert("GetFriendStatusMessage"@.len() == 22);
    assert("GetConferenceType"@ != "GetFriendStatusMessage"@);
    reveal_strlit("GetFriendStatus");
    assert("GetFriendStatus"@.len() == 15);
    assert("GetConferenceType"@ != "GetFriendStatus"@);
    reveal_strlit("GetFriendConnectionStatus");
    assert("GetFriendConnectionStatus"@.len() == 25);
    assert("GetConferenceType"@ != "GetFriendConnectionStatus"@);
    reveal_strlit("ControlFile");
    assert("ControlFile"@.len() == 11);
    assert("GetConferenceType"@ != "ControlFile"@);
    reveal_strlit("SeekFile");
    assert("SeekFile"@.len() == 8);
    assert("GetConferenceType"@ != "SeekFile"@);
    reveal_strlit("GetFileId");
    assert("GetFileId"@.len() == 9);
    assert("GetConferenceType"@ != "GetFileId"@);
    reveal_strlit("SendFile");
    assert("SendFile"@.len() == 8);
    assert("GetConferenceType"@ != "SendFile"@);
    reveal_strlit("SendFileChunk");
    assert("SendFileChunk"@.len() == 13);
    assert("GetConferenceType"@ != "SendFileChunk"@);
    reveal_strlit("NewConference");
    assert("NewConference"@.len() == 13);
    assert("GetConferenceType"@ != "NewConference"@);
    reveal_strlit("DeleteConference");
    assert("DeleteConference"@.len() == 16);
    assert("GetConferenceType"@ != "DeleteConference"@);
    reveal_strlit("GetPeerList");
    assert("GetPeerList"@.len() == 11);
    assert("GetConferenceType"@ != "GetPeerList"@);
    reveal_strlit("ConferencePeerCount");
    assert("ConferencePeerCount"@.len() == 19);
    assert("GetConferenceType"@ != "ConferencePeerCount"@);
    reveal_strlit("GetPeerName");
    assert("GetPeerName"@.len() == 11);
    assert("GetConferenceType"@ != "GetPeerName"@);
    reveal_strlit("GetPeerPublicKey");
    assert("GetPeerPublicKey"@.len() == 16);
    assert("GetConferenceType"@ != "GetPeerPublicKey"@);
    reveal_strlit("IsOwnPeerNumber");
    assert("IsOwnPeerNumber"@.len() == 15);
    assert("GetConferenceType"@ != "IsOwnPeerNumber"@);
    reveal_strlit("InviteToConference");
    assert("InviteToConference"@.len() == 18);
    assert("GetConferenceType"@ != "InviteToConference"@);
    reveal_strlit("JoinConference");
    assert("JoinConference"@.len() == 14);
    assert("GetConferenceType"@ != "JoinConference"@);
    reveal_strlit("SendConferenceMessage");
    assert("SendConferenceMessage"@.len() == 21);
    assert("GetConferenceType"@ != "SendConferenceMessage"@);
    reveal_strlit("GetConferenceTitle");
    assert("GetConferenceTitle"@.len() == 18);
    assert("GetConferenceType"@ != "GetConferenceTitle"@);
    reveal_strlit("SetConferenceTitle");
    assert("SetConferenceTitle"@.len() == 18);
    assert("GetConferenceType"@ != "SetConferenceTitle"@);
    reveal_strlit("GetConferenceList");
    assert("GetConferenceList"@.len() == 17);
    assert("GetConferenceType"@[13] == 'T');
    assert("GetConferenceList"@[13] == 'L');
    assert("GetConferenceType"@ != "GetConferenceList"@);
    reveal_strlit("conference");
    assert("conference"@.len() == 10);
    assert("conference"@ != "request"@);
    assert(jlookup(ms, "request"@) == Some(JsonV::Str("GetConferenceType"@)));
    assert(req_from_json(JsonV::Obj(ms)) == req_dispatch("GetConferenceType"@, ms));
    assert(req_dispatch("GetConferenceType"@, ms) == req_dispatch2("GetConferenceType"@, ms));
    assert(req_dispatch2("GetConferenceType"@, ms) == req_dispatch3("GetConferenceType"@, ms));
    assert(req_dispatch3("GetConferenceType"@, ms) == req_dispatch4("GetConferenceType"@, ms));
    assert(req_dispatch4("GetConferenceType"@, ms) == req_get_conference_type_from(ms));
    assert(jlookup(ms, "conference"@) == Some(m2.1));
    assert(sget_u32(ms, "conference"@) == Ok::<u32, DecodeError>(conference));
    assert(req_get_conference_type_from(ms) == Ok::<RequestV, DecodeError>(v));
    reveal_with_fuel(jdepth_fields, 10);
    assert(jdepth(m1.1) == 0);
    assert(jdepth(m2.1) == 0);
    assert(jdepth_fields(seq![m2]) <= 5);
    assert(jdepth_fields(seq![m1, m2]) <= 5);
    assert(jdepth(JsonV::Obj(ms)) <= 6);
}

/// Reading back the wire object of any request gives the same value, and
/// that object nests far below the parser's depth limit.
pub proof fn lemma_req_from_to(v: RequestV)
    ensures
        req_from_json(req_to_json(v)) == Ok::<RequestV, DecodeError>(v),
        jdepth(req_to_json(v)) <= 6,
{
    match v {
        RequestV::Info => lemma_req_info_rt(),
        RequestV::AddFriend { tox_id, message } => lemma_req_add_friend_rt(tox_id, message),
        RequestV::AddFriendNorequest { tox_id } => lemma_req_add_friend_norequest_rt(tox_id),
        RequestV::SendFriendMessage { friend, kind, message } => lemma_req_send_friend_message_rt(friend, kind, message),
        RequestV::DeleteFriend { friend } => lemma_req_delete_friend_rt(friend),
        RequestV::GetConnectionStatus => lemma_req_get_connection_status_rt(),
        RequestV::GetAddress => lemma_req_get_address_rt(),
        RequestV::GetNospam => lemma_req_get_nospam_rt(),
        RequestV::SetNospam { nospam } => lemma_req_set_nospam_rt(nospam),
        RequestV::GetPublicKey => lemma_req_get_public_key_rt(),
        RequestV::SetName { name } => lemma_req_set_name_rt(name),
        RequestV::GetName => lemma_req_get_name_rt(),
        RequestV::SetStatusMessage { message } => lemma_req_set_status_message_rt(message),
        RequestV::GetStatusMessage => lemma_req_get_status_message_rt(),
        RequestV::SetStatus { status } => lemma_req_set_status_rt(status),
        RequestV::GetStatus => lemma_req_get_status_rt(),
        RequestV::FriendByPublicKey { public_key } => lemma_req_friend_by_public_key_rt(public_key),
        RequestV::FriendExists { friend } => lemma_req_friend_exists_rt(friend),
        RequestV::GetFriendPublicKey { friend } => lemma_req_get_friend_public_key_rt(friend),
        RequestV::GetFriendLastOnline { friend } => lemma_req_get_friend_last_online_rt(friend),
        RequestV::GetFriendName { friend } => lemma_req_get_friend_name_rt(friend),
        RequestV::GetFriendStatusMessage { friend } => lemma_req_get_friend_status_message_rt(friend),
        RequestV::GetFriendStatus { friend } => lemma_req_get_friend_status_rt(friend),
        RequestV::GetFriendConnectionStatus { friend } => lemma_req_get_friend_connection_status_rt(friend),
        RequestV::ControlFile { friend, file_number, control } => lemma_req_control_file_rt(friend, file_number, control),
        RequestV::SeekFile { friend, file_number, position } => lemma_req_seek_file_rt(friend, file_number, position),
        RequestV::GetFileId { friend, file_number } => lemma_req_get_file_id_rt(friend, file_number),
        RequestV::SendFile { friend, kind, file_size, file_name } => lemma_req_send_file_rt(friend, kind, file_size, file_name),
        RequestV::SendFileChunk { friend, file_number, position, data } => lemma_req_send_file_chunk_rt(friend, file_number, position, data),
        RequestV::NewConference => lemma_req_new_conference_rt(),
        RequestV::DeleteConference { conference } => lemma_req_delete_conference_rt(conference),
        RequestV::GetPeerList { conference } => lemma_req_get_peer_list_rt(conference),
        RequestV::ConferencePeerCount { conference } => lemma_req_conference_peer_count_rt(conference),
        RequestV::GetPeerName { conference, peer } => lemma_req_get_peer_name_rt(conference, peer),
        RequestV::GetPeerPublicKey { conference, peer } => lemma_req_get_peer_public_key_rt(conference, peer),
        RequestV::IsOwnPeerNumber { conference, peer_number } => lemma_req_is_own_peer_number_rt(conference, peer_number),
        RequestV::InviteToConference { friend, conference } => lemma_req_invite_to_conference_rt(friend, conference),
        RequestV::JoinConference { friend, cookie } => lemma_req_join_conference_rt(friend, cookie),
        RequestV::SendConferenceMessage { conference, kind, message } => lemma_req_send_conference_message_rt(conference, kind, message),
        RequestV::GetConferenceTitle { conference } => lemma_req_get_conference_title_rt(conference),
        RequestV::SetConferenceTitle { conference, title } => lemma_req_set_conference_title_rt(conference, title),
        RequestV::GetConferenceList => lemma_req_get_conference_list_rt(),
        RequestV::GetConferenceType { conference } => lemma_req_get_conference_type_rt(conference),
    }
}

/// Round trip: decoding the rendered text of any request yields exactly
/// that value.
pub proof fn lemma_request_round_trip(v: RequestV)
    ensures
        req_decode(render(req_to_json(v))) == Ok::<RequestV, DecodeError>(v),
{
    lemma_req_from_to(v);
    lemma_json_round_trip(req_to_json(v));
}

impl Request {
    /// The wire text of this request.
    pub fn to_wire(&self) -> (r: String)
        requires
            req_encodable(self@),
        ensures
            r@ == render(req_to_json(self@)),
    {
        let j = request_value_to_json(self);
        to_text(&j)
    }

    /// Reads one request out of wire text.
    pub fn from_wire(s: &str) -> (r: Result<Request, DecodeError>)
        ensures
            ({
                let sp = req_decode(s@);
                match r {
                    Ok(q) => sp == Ok::<RequestV, DecodeError>(q@),
                    Err(e) => sp == Err::<RequestV, DecodeError>(e),
                }
            }),
    {
        match from_text(s) {
            Some(j) => request_value_of_json(&j),
            None => Err(DecodeError::Syntax),
        }
    }
}

} // verus!