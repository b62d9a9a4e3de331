//! Responses on the wire: each reply and scoped error as a tagged JSON object.

use vstd::prelude::*;

use crate::json::{Json, JsonV, jview, jview_fields, jdepth, jdepth_fields, render, sp_json};
use crate::json_exec::{to_text, from_text};
use crate::json_rt::lemma_json_round_trip;
use crate::codec::{jlookup, sget_str, sget_u32, sget_u64, sget_bool, obj_get, jget_str, jget_u32, jget_u64, jget_bool, lemma_jview_fields1, lemma_jview_fields2, lemma_jview_fields6};
use crate::text::str_eq;

use crate::schema::{DecodeError, Response, ResponseV, Friend, FriendV, PeerInfo, PeerInfoV, ConferenceInfo, ConferenceInfoV, UserStatus, ConnectionStatus, ConferenceType, AddFriendError, SendFriendMessageError, FileControlError, FileSeekError, FileGetError, FileSendError, FileSendChunkError, ConferenceInviteError, ConferenceJoinError, ConferencePeerQueryError, ConferenceSendError, ConferenceTitleError, friends_view, peers_view, conferences_view};
use crate::codec_enums::{connection_status_str, connection_status_to_text, lemma_connection_status_rt, sget_connection_status, jget_connection_status, user_status_str, user_status_to_text, lemma_user_status_rt, sget_user_status, jget_user_status, conference_type_str, conference_type_to_text, lemma_conference_type_rt, sget_conference_type, jget_conference_type, add_friend_error_str, add_friend_error_to_text, lemma_add_friend_error_rt, sget_add_friend_error, jget_add_friend_error, send_friend_message_error_str, send_friend_message_error_to_text, lemma_send_friend_message_error_rt, sget_send_friend_message_error, jget_send_friend_message_error, file_control_error_str, file_control_error_to_text, lemma_file_control_error_rt, sget_file_control_error, jget_file_control_error, file_seek_error_str, file_seek_error_to_text, lemma_file_seek_error_rt, sget_file_seek_error, jget_file_seek_error, file_get_error_str, file_get_error_to_text, lemma_file_get_error_rt, sget_file_get_error, jget_file_get_error, file_send_error_str, file_send_error_to_text, lemma_file_send_error_rt, sget_file_send_error, jget_file_send_error, file_send_chunk_error_str, file_send_chunk_error_to_text, lemma_file_send_chunk_error_rt, sget_file_send_chunk_error, jget_file_send_chunk_error, conference_invite_error_str, conference_invite_error_to_text, lemma_conference_invite_error_rt, sget_conference_invite_error, jget_conference_invite_error, conference_join_error_str, conference_join_error_to_text, lemma_conference_join_error_rt, sget_conference_join_error, jget_conference_join_error, conference_peer_query_error_str, conference_peer_query_error_to_text, lemma_conference_peer_query_error_rt, sget_conference_peer_query_error, jget_conference_peer_query_error, conference_send_error_str, conference_send_error_to_text, lemma_conference_send_error_rt, sget_conference_send_error, jget_conference_send_error, conference_title_error_str, conference_title_error_to_text, lemma_conference_title_error_rt, sget_conference_title_error, jget_conference_title_error};
use crate::codec_rec::{friends_arr, peer_infos_arr, conference_infos_arr, sget_friends, sget_peer_infos, sget_conference_infos, jget_friends, jget_peer_infos, jget_conference_infos, friends_to_json, peer_infos_to_json, conference_infos_to_json, lemma_friends_arr_rt, lemma_peer_infos_arr_rt, lemma_conference_infos_arr_rt, lemma_friends_arr_depth, lemma_peer_infos_arr_depth, lemma_conference_infos_arr_depth};

verus! {

broadcast use vstd::string::group_string_axioms;

/// The wire object of one response, its `response` discriminator first.
pub open spec fn resp_to_json(v: ResponseV) -> JsonV {
    match v {
        ResponseV::Okay => JsonV::Obj(seq![("response"@, JsonV::Str("Ok"@))]),
        ResponseV::MessageSent { message_id } => JsonV::Obj(seq![("response"@, JsonV::Str("MessageSent"@)), ("message_id"@, JsonV::UInt(message_id as u64))]),
        ResponseV::Info { tox_id, name, status, status_message, friends } => JsonV::Obj(seq![("response"@, JsonV::Str("Info"@)), ("tox_id"@, JsonV::Str(tox_id)), ("name"@, JsonV::Str(name)), ("status"@, JsonV::Str(user_status_str(status))), ("status_message"@, JsonV::Str(status_message)), ("friends"@, JsonV::Arr(friends_arr(friends)))]),
        ResponseV::ConnectionStatus { status } => JsonV::Obj(seq![("response"@, JsonV::Str("ConnectionStatus"@)), ("status"@, JsonV::Str(connection_status_str(status)))]),
        ResponseV::Address { address } => JsonV::Obj(seq![("response"@, JsonV::Str("Address"@)), ("address"@, JsonV::Str(address))]),
        ResponseV::Nospam { nospam } => JsonV::Obj(seq![("response"@, JsonV::Str("Nospam"@)), ("nospam"@, JsonV::Str(nospam))]),
        ResponseV::PublicKey { public_key } => JsonV::Obj(seq![("response"@, JsonV::Str("PublicKey"@)), ("public_key"@, JsonV::Str(public_key))]),
        ResponseV::Name { name } => JsonV::Obj(seq![("response"@, JsonV::Str("Name"@)), ("name"@, JsonV::Str(name))]),
        ResponseV::StatusMessage { status } => JsonV::Obj(seq![("response"@, JsonV::Str("StatusMessage"@)), ("status"@, JsonV::Str(status))]),
        ResponseV::Status { status } => JsonV::Obj(seq![("response"@, JsonV::Str("Status"@)), ("status"@, JsonV::Str(user_status_str(status)))]),
        ResponseV::Friend { friend } => JsonV::Obj(seq![("response"@, JsonV::Str("Friend"@)), ("friend"@, JsonV::UInt(friend as u64))]),
        ResponseV::FriendExists { exists } => JsonV::Obj(seq![("response"@, JsonV::Str("FriendExists"@)), ("exists"@, JsonV::Bool(exists))]),
        ResponseV::LastOnline { last_online } => JsonV::Obj(seq![("response"@, JsonV::Str("LastOnline"@)), ("last_online"@, JsonV::UInt(last_online))]),
        ResponseV::FileId { id } => JsonV::Obj(seq![("response"@, JsonV::Str("FileId"@)), ("id"@, JsonV::Str(id))]),
        ResponseV::FileNumber { file_number } => JsonV::Obj(seq![("response"@, JsonV::Str("FileNumber"@)), ("file_number"@, JsonV::UInt(file_number as u64))]),
        ResponseV::FileControlError { error } => JsonV::Obj(seq![("response"@, JsonV::Str("FileControlError"@)), ("error"@, JsonV::Str(file_control_error_str(error)))]),
        ResponseV::FileSeekError { error } => JsonV::Obj(seq![("response"@, JsonV::Str("FileSeekError"@)), ("error"@, JsonV::Str(file_seek_error_str(error)))]),
        ResponseV::FileGetError { error } => JsonV::Obj(seq![("response"@, JsonV::Str("FileGetError"@)), ("error"@, JsonV::Str(file_get_error_str(error)))]),
        ResponseV::FileSendError { error } => JsonV::Obj(seq![("response"@, JsonV::Str("FileSendError"@)), ("error"@, JsonV::Str(file_send_error_str(error)))]),
        ResponseV::FileSendChunkError { error } => JsonV::Obj(seq![("response"@, JsonV::Str("FileSendChunkError"@)), ("error"@, JsonV::Str(file_send_chunk_error_str(error)))]),
        ResponseV::Conference { conference } => JsonV::Obj(seq![("response"@, JsonV::Str("Conference"@)), ("conference"@, JsonV::UInt(conference as u64))]),
        ResponseV::ConferencePeerList { peers } => JsonV::Obj(seq![("response"@, JsonV::Str("ConferencePeerList"@)), ("peers"@, JsonV::Arr(peer_infos_arr(peers)))]),
        ResponseV::ConferencePeerCount { count } => JsonV::Obj(seq![("response"@, JsonV::Str("ConferencePeerCount"@)), ("count"@, JsonV::UInt(count as u64))]),
        ResponseV::ConferencePeerName { name } => JsonV::Obj(seq![("response"@, JsonV::Str("ConferencePeerName"@)), ("name"@, JsonV::Str(name))]),
        ResponseV::ConferencePeerPublicKey { public_key } => JsonV::Obj(seq![("response"@, JsonV::Str("ConferencePeerPublicKey"@)), ("public_key"@, JsonV::Str(public_key))]),
        ResponseV::IsOwnPeerNumber { is_own } => JsonV::Obj(seq![("response"@, JsonV::Str("IsOwnPeerNumber"@)), ("is_own"@, JsonV::Bool(is_own))]),
        ResponseV::ConferenceTitle { title } => JsonV::Obj(seq![("response"@, JsonV::Str("ConferenceTitle"@)), ("title"@, JsonV::Str(title))]),
        ResponseV::ConferenceList { conferences } => JsonV::Obj(seq![("response"@, JsonV::Str("ConferenceList"@)), ("conferences"@, JsonV::Arr(conference_infos_arr(conferences)))]),
        ResponseV::ConferenceType { kind } => JsonV::Obj(seq![("response"@, JsonV::Str("ConferenceType"@)), ("kind"@, JsonV::Str(conference_type_str(kind)))]),
        ResponseV::AddFriendError { error } => JsonV::Obj(seq![("response"@, JsonV::Str("AddFriendError"@)), ("error"@, JsonV::Str(add_friend_error_str(error)))]),
        ResponseV::SendFriendMessageError { error } => JsonV::Obj(seq![("response"@, JsonV::Str("SendFriendMessageError"@)), ("error"@, JsonV::Str(send_friend_message_error_str(error)))]),
        ResponseV::FriendNotFoundError => JsonV::Obj(seq![("response"@, JsonV::Str("FriendNotFoundError"@))]),
        ResponseV::ConferenceInviteError { error } => JsonV::Obj(seq![("response"@, JsonV::Str("ConferenceInviteError"@)), ("error"@, JsonV::Str(conference_invite_error_str(error)))]),
        ResponseV::ConferenceJoinError { error } => JsonV::Obj(seq![("response"@, JsonV::Str("ConferenceJoinError"@)), ("error"@, JsonV::Str(conference_join_error_str(error)))]),
        ResponseV::ConferencePeerQueryError { error } => JsonV::Obj(seq![("response"@, JsonV::Str("ConferencePeerQueryError"@)), ("error"@, JsonV::Str(conference_peer_query_error_str(error)))]),
        ResponseV::ConferenceSendError { error } => JsonV::Obj(seq![("response"@, JsonV::Str("ConferenceSendError"@)), ("error"@, JsonV::Str(conference_send_error_str(error)))]),
        ResponseV::ConferenceTitleError { error } => JsonV::Obj(seq![("response"@, JsonV::Str("ConferenceTitleError"@)), ("error"@, JsonV::Str(conference_title_error_str(error)))]),
    }
}

pub open spec fn resp_message_sent_from(fs: Seq<(Seq<char>, JsonV)>) -> Result<ResponseV, DecodeError> {
    match sget_u32(fs, "message_id"@) {
        Ok(message_id) => {
            Ok(ResponseV::MessageSent { message_id })
        },
        Err(e) => Err(e),
    }
}

pub open spec fn resp_info_from(fs: Seq<(Seq<char>, JsonV)>) -> Result<ResponseV, DecodeError> {
    match sget_str(fs, "tox_id"@) {
        Ok(tox_id) => {
            match sget_str(fs, "name"@) {
                Ok(name) => {
                    match sget_user_status(fs, "status"@) {
                        Ok(status) => {
                            match sget_str(fs, "status_message"@) {
                                Ok(status_message) => {
                                    match sget_friends(fs, "friends"@) {
                                        Ok(friends) => {
                                            Ok(ResponseV::Info { tox_id, name, status, status_message, friends })
                                        },
                                        Err(e) => Err(e),
                                    }
                                },
                                Err(e) => Err(e),
                            }
                        },
                        Err(e) => Err(e),
                    }
                },
                Err(e) => Err(e),
            }
        },
        Err(e) => Err(e),
    }
}

pub open spec fn resp_connection_status_from(fs: Seq<(Seq<char>, JsonV)>) -> Result<ResponseV, DecodeError> {
    match sget_connection_status(fs, "status"@) {
        Ok(status) => {
            Ok(ResponseV::ConnectionStatus { status })
        },
        Err(e) => Err(e),
    }
}

pub open spec fn resp_address_from(fs: Seq<(Seq<char>, JsonV)>) -> Result<ResponseV, DecodeError> {
    match sget_str(fs, "address"@) {
        Ok(address) => {
            Ok(ResponseV::Address { address })
        },
        Err(e) => Err(e),
    }
}

pub open spec fn resp_nospam_from(fs: Seq<(Seq<char>, JsonV)>) -> Result<ResponseV, DecodeError> {
    match sget_str(fs, "nospam"@) {
        Ok(nospam) => {
            Ok(ResponseV::Nospam { nospam })
        },
        Err(e) => Err(e),
    }
}

pub open spec fn resp_public_key_from(fs: Seq<(Seq<char>, JsonV)>) -> Result<ResponseV, DecodeError> {
    match sget_str(fs, "public_key"@) {
        Ok(public_key) => {
            Ok(ResponseV::PublicKey { public_key })
        },
        Err(e) => Err(e),
    }
}

pub open spec fn resp_name_from(fs: Seq<(Seq<char>, JsonV)>) -> Result<ResponseV, DecodeError> {
    match sget_str(fs, "name"@) {
        Ok(name) => {
            Ok(ResponseV::Name { name })
        },
        Err(e) => Err(e),
    }
}

pub open spec fn resp_status_message_from(fs: Seq<(Seq<char>, JsonV)>) -> Result<ResponseV, DecodeError> {
    match sget_str(fs, "status"@) {
        Ok(status) => {
            Ok(ResponseV::StatusMessage { status })
        },
        Err(e) => Err(e),
    }
}

pub open spec fn resp_status_from(fs: Seq<(Seq<char>, JsonV)>) -> Result<ResponseV, DecodeError> {
    match sget_user_status(fs, "status"@) {
        Ok(status) => {
            Ok(ResponseV::Status { status })
        },
        Err(e) => Err(e),
    }
}

pub open spec fn resp_friend_from(fs: Seq<(Seq<char>, JsonV)>) -> Result<ResponseV, DecodeError> {
    match sget_u32(fs, "friend"@) {
        Ok(friend) => {
            Ok(ResponseV::Friend { friend })
        },
        Err(e) => Err(e),
    }
}

pub open spec fn resp_friend_exists_from(fs: Seq<(Seq<char>, JsonV)>) -> Result<ResponseV, DecodeError> {
    match sget_bool(fs, "exists"@) {
        Ok(exists) => {
            Ok(ResponseV::FriendExists { exists })
        },
        Err(e) => Err(e),
    }
}

pub open spec fn resp_last_online_from(fs: Seq<(Seq<char>, JsonV)>) -> Result<ResponseV, DecodeError> {
    match sget_u64(fs, "last_online"@) {
        Ok(last_online) => {
            Ok(ResponseV::LastOnline { last_online })
        },
        Err(e) => Err(e),
    }
}

pub open spec fn resp_file_id_from(fs: Seq<(Seq<char>, JsonV)>) -> Result<ResponseV, DecodeError> {
    match sget_str(fs, "id"@) {
        Ok(id) => {
            Ok(ResponseV::FileId { id })
        },
        Err(e) => Err(e),
    }
}

pub open spec fn resp_file_number_from(fs: Seq<(Seq<char>, JsonV)>) -> Result<ResponseV, DecodeError> {
    match sget_u32(fs, "file_number"@) {
        Ok(file_number) => {
            Ok(ResponseV::FileNumber { file_number })
        },
        Err(e) => Err(e),
    }
}

pub open spec fn resp_file_control_error_from(fs: Seq<(Seq<char>, JsonV)>) -> Result<ResponseV, DecodeError> {
    match sget_file_control_error(fs, "error"@) {
        Ok(error) => {
            Ok(ResponseV::FileControlError { error })
        },
        Err(e) => Err(e),
    }
}

pub open spec fn resp_file_seek_error_from(fs: Seq<(Seq<char>, JsonV)>) -> Result<ResponseV, DecodeError> {
    match sget_file_seek_error(fs, "error"@) {
        Ok(error) => {
            Ok(ResponseV::FileSeekError { error })
        },
        Err(e) => Err(e),
    }
}

pub open spec fn resp_file_get_error_from(fs: Seq<(Seq<char>, JsonV)>) -> Result<ResponseV, DecodeError> {
    match sget_file_get_error(fs, "error"@) {
        Ok(error) => {
            Ok(ResponseV::FileGetError { error })
        },
        Err(e) => Err(e),
    }
}

pub open spec fn resp_file_send_error_from(fs: Seq<(Seq<char>, JsonV)>) -> Result<ResponseV, DecodeError> {
    match sget_file_send_error(fs, "error"@) {
        Ok(error) => {
            Ok(ResponseV::FileSendError { error })
        },
        Err(e) => Err(e),
    }
}

pub open spec fn resp_file_send_chunk_error_from(fs: Seq<(Seq<char>, JsonV)>) -> Result<ResponseV, DecodeError> {
    match sget_file_send_chunk_error(fs, "error"@) {
        Ok(error) => {
            Ok(ResponseV::FileSendChunkError { error })
        },
        Err(e) => Err(e),
    }
}

pub open spec fn resp_conference_from(fs: Seq<(Seq<char>, JsonV)>) -> Result<ResponseV, DecodeError> {
    match sget_u32(fs, "conference"@) {
        Ok(conference) => {
            Ok(ResponseV::Conference { conference })
        },
        Err(e) => Err(e),
    }
}

pub open spec fn resp_conference_peer_list_from(fs: Seq<(Seq<char>, JsonV)>) -> Result<ResponseV, DecodeError> {
    match sget_peer_infos(fs, "peers"@) {
        Ok(peers) => {
            Ok(ResponseV::ConferencePeerList { peers })
        },
        Err(e) => Err(e),
    }
}

pub open spec fn resp_conference_peer_count_from(fs: Seq<(Seq<char>, JsonV)>) -> Result<ResponseV, DecodeError> {
    match sget_u32(fs, "count"@) {
        Ok(count) => {
            Ok(ResponseV::ConferencePeerCount { count })
        },
        Err(e) => Err(e),
    }
}

pub open spec fn resp_conference_peer_name_from(fs: Seq<(Seq<char>, JsonV)>) -> Result<ResponseV, DecodeError> {
    match sget_str(fs, "name"@) {
        Ok(name) => {
            Ok(ResponseV::ConferencePeerName { name })
        },
        Err(e) => Err(e),
    }
}

pub open spec fn resp_conference_peer_public_key_from(fs: Seq<(Seq<char>, JsonV)>) -> Result<ResponseV, DecodeError> {
    match sget_str(fs, "public_key"@) {
        Ok(public_key) => {
            Ok(ResponseV::ConferencePeerPublicKey { public_key })
        },
        Err(e) => Err(e),
    }
}

pub open spec fn resp_is_own_peer_number_from(fs: Seq<(Seq<char>, JsonV)>) -> Result<ResponseV, DecodeError> {
    match sget_bool(fs, "is_own"@) {
        Ok(is_own) => {
            Ok(ResponseV::IsOwnPeerNumber { is_own })
        },
        Err(e) => Err(e),
    }
}

pub open spec fn resp_conference_title_from(fs: Seq<(Seq<char>, JsonV)>) -> Result<ResponseV, DecodeError> {
    match sget_str(fs, "title"@) {
        Ok(title) => {
            Ok(ResponseV::ConferenceTitle { title })
        },
        Err(e) => Err(e),
    }
}

pub open spec fn resp_conference_list_from(fs: Seq<(Seq<char>, JsonV)>) -> Result<ResponseV, DecodeError> {
    match sget_conference_infos(fs, "conferences"@) {
        Ok(conferences) => {
            Ok(ResponseV::ConferenceList { conferences })
        },
        Err(e) => Err(e),
    }
}

pub open spec fn resp_conference_type_from(fs: Seq<(Seq<char>, JsonV)>) -> Result<ResponseV, DecodeError> {
    match sget_conference_type(fs, "kind"@) {
        Ok(kind) => {
            Ok(ResponseV::ConferenceType { kind })
        },
        Err(e) => Err(e),
    }
}

pub open spec fn resp_add_friend_error_from(fs: Seq<(Seq<char>, JsonV)>) -> Result<ResponseV, DecodeError> {
    match sget_add_friend_error(fs, "error"@) {
        Ok(error) => {
            Ok(ResponseV::AddFriendError { error })
        },
        Err(e) => Err(e),
    }
}

pub open spec fn resp_send_friend_message_error_from(fs: Seq<(Seq<char>, JsonV)>) -> Result<ResponseV, DecodeError> {
    match sget_send_friend_message_error(fs, "error"@) {
        Ok(error) => {
            Ok(ResponseV::SendFriendMessageError { error })
        },
        Err(e) => Err(e),
    }
}

pub open spec fn resp_conference_invite_error_from(fs: Seq<(Seq<char>, JsonV)>) -> Result<ResponseV, DecodeError> {
    match sget_conference_invite_error(fs, "error"@) {
        Ok(error) => {
            Ok(ResponseV::ConferenceInviteError { error })
        },
        Err(e) => Err(e),
    }
}

pub open spec fn resp_conference_join_error_from(fs: Seq<(Seq<char>, JsonV)>) -> Result<ResponseV, DecodeError> {
    match sget_conference_join_error(fs, "error"@) {
        Ok(error) => {
            Ok(ResponseV::ConferenceJoinError { error })
        },
        Err(e) => Err(e),
    }
}

pub open spec fn resp_conference_peer_query_error_from(fs: Seq<(Seq<char>, JsonV)>) -> Result<ResponseV, DecodeError> {
    match sget_conference_peer_query_error(fs, "error"@) {
        Ok(error) => {
            Ok(ResponseV::ConferencePeerQueryError { error })
        },
        Err(e) => Err(e),
    }
}

pub open spec fn resp_conference_send_error_from(fs: Seq<(Seq<char>, JsonV)>) -> Result<ResponseV, DecodeError> {
    match sget_conference_send_error(fs, "error"@) {
        Ok(error) => {
            Ok(ResponseV::ConferenceSendError { error })
        },
        Err(e) => Err(e),
    }
}

pub open spec fn resp_conference_title_error_from(fs: Seq<(Seq<char>, JsonV)>) -> Result<ResponseV, DecodeError> {
    match sget_conference_title_error(fs, "error"@) {
        Ok(error) => {
            Ok(ResponseV::ConferenceTitleError { error })
        },
        Err(e) => Err(e),
    }
}

pub open spec fn resp_dispatch4(tag: Seq<char>, fs: Seq<(Seq<char>, JsonV)>) -> Result<
    ResponseV,
    DecodeError,
> {
    if tag == "ConferenceTitleError"@ {
        resp_conference_title_error_from(fs)
    } else {
        Err(DecodeError::UnknownVariant)
    }
}

pub open spec fn resp_dispatch3(tag: Seq<char>, fs: Seq<(Seq<char>, JsonV)>) -> Result<
    ResponseV,
    DecodeError,
> {
    if tag == "ConferencePeerPublicKey"@ {
        resp_conference_peer_public_key_from(fs)
    } else if tag == "IsOwnPeerNumber"@ {
        resp_is_own_peer_number_from(fs)
    } else if tag == "ConferenceTitle"@ {
        resp_conference_title_from(fs)
    } else if tag == "ConferenceList"@ {
        resp_conference_list_from(fs)
    } else if tag == "ConferenceType"@ {
        resp_conference_type_from(fs)
    } else if tag == "AddFriendError"@ {
        resp_add_friend_error_from(fs)
    } else if tag == "SendFriendMessageError"@ {
        resp_send_friend_message_error_from(fs)
    } else if tag == "FriendNotFoundError"@ {
        Ok(ResponseV::FriendNotFoundError)
    } else if tag == "ConferenceInviteError"@ {
        resp_conference_invite_error_from(fs)
    } else if tag == "ConferenceJoinError"@ {
        resp_conference_join_error_from(fs)
    } else if tag == "ConferencePeerQueryError"@ {
        resp_conference_peer_query_error_from(fs)
    } else if tag == "ConferenceSendError"@ {
        resp_conference_send_error_from(fs)
    } else {
        resp_dispatch4(tag, fs)
    }
}

pub open spec fn resp_dispatch2(tag: Seq<char>, fs: Seq<(Seq<char>, JsonV)>) -> Result<
    ResponseV,
    DecodeError,
> {
    if tag == "LastOnline"@ {
        resp_last_online_from(fs)
    } else if tag == "FileId"@ {
        resp_file_id_from(fs)
    } else if tag == "FileNumber"@ {
        resp_file_number_from(fs)
    } else if tag == "FileControlError"@ {
        resp_file_control_error_from(fs)
    } else if tag == "FileSeekError"@ {
        resp_file_seek_error_from(fs)
    } else if tag == "FileGetError"@ {
        resp_file_get_error_from(fs)
    } else if tag == "FileSendError"@ {
        resp_file_send_error_from(fs)
    } else if tag == "FileSendChunkError"@ {
        resp_file_send_chunk_error_from(fs)
    } else if tag == "Conference"@ {
        resp_conference_from(fs)
    } else if tag == "ConferencePeerList"@ {
        resp_conference_peer_list_from(fs)
    } else if tag == "ConferencePeerCount"@ {
        resp_conference_peer_count_from(fs)
    } else if tag == "ConferencePeerName"@ {
        resp_conference_peer_name_from(fs)
    } else {
        resp_dispatch3(tag, fs)
    }
}

pub open spec fn resp_dispatch(tag: Seq<char>, fs: Seq<(Seq<char>, JsonV)>) -> Result<
    ResponseV,
    DecodeError,
> {
    if tag == "Ok"@ {
        Ok(ResponseV::Okay)
    } else if tag == "MessageSent"@ {
        resp_message_sent_from(fs)
    } else if tag == "Info"@ {
        resp_info_from(fs)
    } else if tag == "ConnectionStatus"@ {
        resp_connection_status_from(fs)
    } else if tag == "Address"@ {
        resp_address_from(fs)
    } else if tag == "Nospam"@ {
        resp_nospam_from(fs)
    } else if tag == "PublicKey"@ {
        resp_public_key_from(fs)
    } else if tag == "Name"@ {
        resp_name_from(fs)
    } else if tag == "StatusMessage"@ {
        resp_status_message_from(fs)
    } else if tag == "Status"@ {
        resp_status_from(fs)
    } else if tag == "Friend"@ {
        resp_friend_from(fs)
    } else if tag == "FriendExists"@ {
        resp_friend_exists_from(fs)
    } else {
        resp_dispatch2(tag, fs)
    }
}

/// What a JSON value means as a response.
pub open spec fn resp_from_json(j: JsonV) -> Result<ResponseV, DecodeError> {
    match j {
        JsonV::Obj(fs) => match jlookup(fs, "response"@) {
            Some(JsonV::Str(tag)) => resp_dispatch(tag, fs),
            Some(_) => Err(DecodeError::MalformedField),
            None => Err(DecodeError::MissingField),
        },
        _ => Err(DecodeError::MalformedField),
    }
}

/// What a whole wire text means as a response.
pub open spec fn resp_decode(s: Seq<char>) -> Result<ResponseV, DecodeError> {
    match sp_json(s) {
        Some(j) => resp_from_json(j),
        None => Err(DecodeError::Syntax),
    }
}

fn resp_okay_json() -> (j: Json)
    ensures
        j@ == resp_to_json(ResponseV::Okay),
{
    let x1 = (String::from_str("response"), Json::Str(String::from_str("Ok")));
    let ghost g1 = x1;
    let mut fields: Vec<(String, Json)> = Vec::new();
    fields.push(x1);
    proof {
        assert(fields@ =~= seq![g1]);
        lemma_jview_fields1(g1);
    }
    let j = Json::Obj(fields);
    proof {
        assert(jview(j) =~= resp_to_json(ResponseV::Okay));
    }
    j
}

fn resp_message_sent_json(message_id: &u32) -> (j: Json)
    ensures
        j@ == resp_to_json((ResponseV::MessageSent { message_id: *message_id })),
{
    let x1 = (String::from_str("response"), Json::Str(String::from_str("MessageSent")));
    let ghost g1 = x1;
    let x2 = (String::from_str("message_id"), Json::UInt(*message_id as u64));
    let ghost g2 = x2;
    let mut fields: Vec<(String, Json)> = Vec::new();
    fields.push(x1);
    fields.push(x2);
    proof {
        assert(fields@ =~= seq![g1, g2]);
        lemma_jview_fields2(g1, g2);
    }
    let j = Json::Obj(fields);
    proof {
        assert(jview(j) =~= resp_to_json((ResponseV::MessageSent { message_id: *message_id })));
    }
    j
}

fn resp_info_json(tox_id: &String, name: &String, status: &UserStatus, status_message: &String, friends: &Vec<Friend>) -> (j: Json)
    ensures
        j@ == resp_to_json((ResponseV::Info { tox_id: tox_id@, name: name@, status: *status, status_message: status_message@, friends: friends_view(friends@) })),
{
    let x1 = (String::from_str("response"), Json::Str(String::from_str("Info")));
    let ghost g1 = x1;
    let x2 = (String::from_str("tox_id"), Json::Str(tox_id.clone()));
    let ghost g2 = x2;
    let x3 = (String::from_str("name"), Json::Str(name.clone()));
    let ghost g3 = x3;
    let x4 = (String::from_str("status"), Json::Str(user_status_to_text(status)));
    let ghost g4 = x4;
    let x5 = (String::from_str("status_message"), Json::Str(status_message.clone()));
    let ghost g5 = x5;
    let x6 = (String::from_str("friends"), friends_to_json(friends));
    let ghost g6 = x6;
    let mut fields: Vec<(String, Json)> = Vec::new();
    fields.push(x1);
    fields.push(x2);
    fields.push(x3);
    fields.push(x4);
    fields.push(x5);
    fields.push(x6);
    proof {
        assert(fields@ =~= seq![g1, g2, g3, g4, g5, g6]);
        lemma_jview_fields6(g1, g2, g3, g4, g5, g6);
    }
    let j = Json::Obj(fields);
    proof {
        assert(jview(j) =~= resp_to_json((ResponseV::Info { tox_id: tox_id@, name: name@, status: *status, status_message: status_message@, friends: friends_view(friends@) })));
    }
    j
}

fn resp_connection_status_json(status: &ConnectionStatus) -> (j: Json)
    ensures
        j@ == resp_to_json((ResponseV::ConnectionStatus { status: *status })),
{
    let x1 = (String::from_str("response"), Json::Str(String::from_str("ConnectionStatus")));
    let ghost g1 = x1;
    let x2 = (String::from_str("status"), Json::Str(connection_status_to_text(status)));
    let ghost g2 = x2;
    let mut fields: Vec<(String, Json)> = Vec::new();
    fields.push(x1);
    fields.push(x2);
    proof {
        assert(fields@ =~= seq![g1, g2]);
        lemma_jview_fields2(g1, g2);
    }
    let j = Json::Obj(fields);
    proof {
        assert(jview(j) =~= resp_to_json((ResponseV::ConnectionStatus { status: *status })));
    }
    j
}

fn resp_address_json(address: &String) -> (j: Json)
    ensures
        j@ == resp_to_json((ResponseV::Address { address: address@ })),
{
    let x1 = (String::from_str("response"), Json::Str(String::from_str("Address")));
    let ghost g1 = x1;
    let x2 = (String::from_str("address"), Json::Str(address.clone()));
    let ghost g2 = x2;
    let mut fields: Vec<(String, Json)> = Vec::new();
    fields.push(x1);
    fields.push(x2);
    proof {
        assert(fields@ =~= seq![g1, g2]);
        lemma_jview_fields2(g1, g2);
    }
    let j = Json::Obj(fields);
    proof {
        assert(jview(j) =~= resp_to_json((ResponseV::Address { address: address@ })));
    }
    j
}

fn resp_nospam_json(nospam: &String) -> (j: Json)
    ensures
        j@ == resp_to_json((ResponseV::Nospam { nospam: nospam@ })),
{
    let x1 = (String::from_str("response"), Json::Str(String::from_str("Nospam")));
    let ghost g1 = x1;
    let x2 = (String::from_str("nospam"), Json::Str(nospam.clone()));
    let ghost g2 = x2;
    let mut fields: Vec<(String, Json)> = Vec::new();
    fields.push(x1);
    fields.push(x2);
    proof {
        assert(fields@ =~= seq![g1, g2]);
        lemma_jview_fields2(g1, g2);
    }
    let j = Json::Obj(fields);
    proof {
        assert(jview(j) =~= resp_to_json((ResponseV::Nospam { nospam: nospam@ })));
    }
    j
}

fn resp_public_key_json(public_key: &String) -> (j: Json)
    ensures
        j@ == resp_to_json((ResponseV::PublicKey { public_key: public_key@ })),
{
    let x1 = (String::from_str("response"), Json::Str(String::from_str("PublicKey")));
    let ghost g1 = x1;
    let x2 = (String::from_str("public_key"), Json::Str(public_key.clone()));
    let ghost g2 = x2;
    let mut fields: Vec<(String, Json)> = Vec::new();
    fields.push(x1);
    fields.push(x2);
    proof {
        assert(fields@ =~= seq![g1, g2]);
        lemma_jview_fields2(g1, g2);
    }
    let j = Json::Obj(fields);
    proof {
        assert(jview(j) =~= resp_to_json((ResponseV::PublicKey { public_key: public_key@ })));
    }
    j
}

fn resp_name_json(name: &String) -> (j: Json)
    ensures
        j@ == resp_to_json((ResponseV::Name { name: name@ })),
{
    let x1 = (String::from_str("response"), Json::Str(String::from_str("Name")));
    let ghost g1 = x1;
    let x2 = (String::from_str("name"), Json::Str(name.clone()));
    let ghost g2 = x2;
    let mut fields: Vec<(String, Json)> = Vec::new();
    fields.push(x1);
    fields.push(x2);
    proof {
        assert(fields@ =~= seq![g1, g2]);
        lemma_jview_fields2(g1, g2);
    }
    let j = Json::Obj(fields);
    proof {
        assert(jview(j) =~= resp_to_json((ResponseV::Name { name: name@ })));
    }
    j
}

fn resp_status_message_json(status: &String) -> (j: Json)
    ensures
        j@ == resp_to_json((ResponseV::StatusMessage { status: status@ })),
{
    let x1 = (String::from_str("response"), Json::Str(String::from_str("StatusMessage")));
    let ghost g1 = x1;
    let x2 = (String::from_str("status"), Json::Str(status.clone()));
    let ghost g2 = x2;
    let mut fields: Vec<(String, Json)> = Vec::new();
    fields.push(x1);
    fields.push(x2);
    proof {
        assert(fields@ =~= seq![g1, g2]);
        lemma_jview_fields2(g1, g2);
    }
    let j = Json::Obj(fields);
    proof {
        assert(jview(j) =~= resp_to_json((ResponseV::StatusMessage { status: status@ })));
    }
    j
}

fn resp_status_json(status: &UserStatus) -> (j: Json)
    ensures
        j@ == resp_to_json((ResponseV::Status { status: *status })),
{
    let x1 = (String::from_str("response"), Json::Str(String::from_str("Status")));
    let ghost g1 = x1;
    let x2 = (String::from_str("status"), Json::Str(user_status_to_text(status)));
    let ghost g2 = x2;
    let mut fields: Vec<(String, Json)> = Vec::new();
    fields.push(x1);
    fields.push(x2);
    proof {
        assert(fields@ =~= seq![g1, g2]);
        lemma_jview_fields2(g1, g2);
    }
    let j = Json::Obj(fields);
    proof {
        assert(jview(j) =~= resp_to_json((ResponseV::Status { status: *status })));
    }
    j
}

fn resp_friend_json(friend: &u32) -> (j: Json)
    ensures
        j@ == resp_to_json((ResponseV::Friend { friend: *friend })),
{
    let x1 = (String::from_str("response"), Json::Str(String::from_str("Friend")));
    let ghost g1 = x1;
    let x2 = (String::from_str("friend"), Json::UInt(*friend as u64));
    let ghost g2 = x2;
    let mut fields: Vec<(String, Json)> = Vec::new();
    fields.push(x1);
    fields.push(x2);
    proof {
        assert(fields@ =~= seq![g1, g2]);
        lemma_jview_fields2(g1, g2);
    }
    let j = Json::Obj(fields);
    proof {
        assert(jview(j) =~= resp_to_json((ResponseV::Friend { friend: *friend })));
    }
    j
}

fn resp_friend_exists_json(exists: &bool) -> (j: Json)
    ensures
        j@ == resp_to_json((ResponseV::FriendExists { exists: *exists })),
{
    let x1 = (String::from_str("response"), Json::Str(String::from_str("FriendExists")));
    let ghost g1 = x1;
    let x2 = (String::from_str("exists"), Json::Bool(*exists));
    let ghost g2 = x2;
    let mut fields: Vec<(String, Json)> = Vec::new();
    fields.push(x1);
    fields.push(x2);
    proof {
        assert(fields@ =~= seq![g1, g2]);
        lemma_jview_fields2(g1, g2);
    }
    let j = Json::Obj(fields);
    proof {
        assert(jview(j) =~= resp_to_json((ResponseV::FriendExists { exists: *exists })));
    }
    j
}

fn resp_last_online_json(last_online: &u64) -> (j: Json)
    ensures
        j@ == resp_to_json((ResponseV::LastOnline { last_online: *last_online })),
{
    let x1 = (String::from_str("response"), Json::Str(String::from_str("LastOnline")));
    let ghost g1 = x1;
    let x2 = (String::from_str("last_online"), Json::UInt(*last_online));
    let ghost g2 = x2;
    let mut fields: Vec<(String, Json)> = Vec::new();
    fields.push(x1);
    fields.push(x2);
    proof {
        assert(fields@ =~= seq![g1, g2]);
        lemma_jview_fields2(g1, g2);
    }
    let j = Json::Obj(fields);
    proof {
        assert(jview(j) =~= resp_to_json((ResponseV::LastOnline { last_online: *last_online })));
    }
    j
}

fn resp_file_id_json(id: &String) -> (j: Json)
    ensures
        j@ == resp_to_json((ResponseV::FileId { id: id@ })),
{
    let x1 = (String::from_str("response"), Json::Str(String::from_str("FileId")));
    let ghost g1 = x1;
    let x2 = (String::from_str("id"), Json::Str(id.clone()));
    let ghost g2 = x2;
    let mut fields: Vec<(String, Json)> = Vec::new();
    fields.push(x1);
    fields.push(x2);
    proof {
        assert(fields@ =~= seq![g1, g2]);
        lemma_jview_fields2(g1, g2);
    }
    let j = Json::Obj(fields);
    proof {
        assert(jview(j) =~= resp_to_json((ResponseV::FileId { id: id@ })));
    }
    j
}

fn resp_file_number_json(file_number: &u32) -> (j: Json)
    ensures
        j@ == resp_to_json((ResponseV::FileNumber { file_number: *file_number })),
{
    let x1 = (String::from_str("response"), Json::Str(String::from_str("FileNumber")));
    let ghost g1 = x1;
    let x2 = (String::from_str("file_number"), Json::UInt(*file_number as u64));
    let ghost g2 = x2;
    let mut fields: Vec<(String, Json)> = Vec::new();
    fields.push(x1);
    fields.push(x2);
    proof {
        assert(fields@ =~= seq![g1, g2]);
        lemma_jview_fields2(g1, g2);
    }
    let j = Json::Obj(fields);
    proof {
        assert(jview(j) =~= resp_to_json((ResponseV::FileNumber { file_number: *file_number })));
    }
    j
}

fn resp_file_control_error_json(error: &FileControlError) -> (j: Json)
    ensures
        j@ == resp_to_json((ResponseV::FileControlError { error: *error })),
{
    let x1 = (String::from_str("response"), Json::Str(String::from_str("FileControlError")));
    let ghost g1 = x1;
    let x2 = (String::from_str("error"), Json::Str(file_control_error_to_text(error)));
    let ghost g2 = x2;
    let mut fields: Vec<(String, Json)> = Vec::new();
    fields.push(x1);
    fields.push(x2);
    proof {
        assert(fields@ =~= seq![g1, g2]);
        lemma_jview_fields2(g1, g2);
    }
    let j = Json::Obj(fields);
    proof {
        assert(jview(j) =~= resp_to_json((ResponseV::FileControlError { error: *error })));
    }
    j
}

fn resp_file_seek_error_json(error: &FileSeekError) -> (j: Json)
    ensures
        j@ == resp_to_json((ResponseV::FileSeekError { error: *error })),
{
    let x1 = (String::from_str("response"), Json::Str(String::from_str("FileSeekError")));
    let ghost g1 = x1;
    let x2 = (String::from_str("error"), Json::Str(file_seek_error_to_text(error)));
    let ghost g2 = x2;
    let mut fields: Vec<(String, Json)> = Vec::new();
    fields.push(x1);
    fields.push(x2);
    proof {
        assert(fields@ =~= seq![g1, g2]);
        lemma_jview_fields2(g1, g2);
    }
    let j = Json::Obj(fields);
    proof {
        assert(jview(j) =~= resp_to_json((ResponseV::FileSeekError { error: *error })));
    }
    j
}

fn resp_file_get_error_json(error: &FileGetError) -> (j: Json)
    ensures
        j@ == resp_to_json((ResponseV::FileGetError { error: *error })),
{
    let x1 = (String::from_str("response"), Json::Str(String::from_str("FileGetError")));
    let ghost g1 = x1;
    let x2 = (String::from_str("error"), Json::Str(file_get_error_to_text(error)));
    let ghost g2 = x2;
    let mut fields: Vec<(String, Json)> = Vec::new();
    fields.push(x1);
    fields.push(x2);
    proof {
        assert(fields@ =~= seq![g1, g2]);
        lemma_jview_fields2(g1, g2);
    }
    let j = Json::Obj(fields);
    proof {
        assert(jview(j) =~= resp_to_json((ResponseV::FileGetError { error: *error })));
    }
    j
}

fn resp_file_send_error_json(error: &FileSendError) -> (j: Json)
    ensures
        j@ == resp_to_json((ResponseV::FileSendError { error: *error })),
{
    let x1 = (String::from_str("response"), Json::Str(String::from_str("FileSendError")));
    let ghost g1 = x1;
    let x2 = (String::from_str("error"), Json::Str(file_send_error_to_text(error)));
    let ghost g2 = x2;
    let mut fields: Vec<(String, Json)> = Vec::new();
    fields.push(x1);
    fields.push(x2);
    proof {
        assert(fields@ =~= seq![g1, g2]);
        lemma_jview_fields2(g1, g2);
    }
    let j = Json::Obj(fields);
    proof {
        assert(jview(j) =~= resp_to_json((ResponseV::FileSendError { error: *error })));
    }
    j
}

fn resp_file_send_chunk_error_json(error: &FileSendChunkError) -> (j: Json)
    ensures
        j@ == resp_to_json((ResponseV::FileSendChunkError { error: *error })),
{
    let x1 = (String::from_str("response"), Json::Str(String::from_str("FileSendChunkError")));
    let ghost g1 = x1;
    let x2 = (String::from_str("error"), Json::Str(file_send_chunk_error_to_text(error)));
    let ghost g2 = x2;
    let mut fields: Vec<(String, Json)> = Vec::new();
    fields.push(x1);
    fields.push(x2);
    proof {
        assert(fields@ =~= seq![g1, g2]);
        lemma_jview_fields2(g1, g2);
    }
    let j = Json::Obj(fields);
    proof {
        assert(jview(j) =~= resp_to_json((ResponseV::FileSendChunkError { error: *error })));
    }
    j
}

fn resp_conference_json(conference: &u32) -> (j: Json)
    ensures
        j@ == resp_to_json((ResponseV::Conference { conference: *conference })),
{
    let x1 = (String::from_str("response"), Json::Str(String::from_str("Conference")));
    let ghost g1 = x1;
    let x2 = (String::from_str("conference"), Json::UInt(*conference as u64));
    let ghost g2 = x2;
    let mut fields: Vec<(String, Json)> = Vec::new();
    fields.push(x1);
    fields.push(x2);
    proof {
        assert(fields@ =~= seq![g1, g2]);
        lemma_jview_fields2(g1, g2);
    }
    let j = Json::Obj(fields);
    proof {
        assert(jview(j) =~= resp_to_json((ResponseV::Conference { conference: *conference })));
    }
    j
}

fn resp_conference_peer_list_json(peers: &Vec<PeerInfo>) -> (j: Json)
    ensures
        j@ == resp_to_json((ResponseV::ConferencePeerList { peers: peers_view(peers@) })),
{
    let x1 = (String::from_str("response"), Json::Str(String::from_str("ConferencePeerList")));
    let ghost g1 = x1;
    let x2 = (String::from_str("peers"), peer_infos_to_json(peers));
    let ghost g2 = x2;
    let mut fields: Vec<(String, Json)> = Vec::new();
    fields.push(x1);
    fields.push(x2);
    proof {
        assert(fields@ =~= seq![g1, g2]);
        lemma_jview_fields2(g1, g2);
    }
    let j = Json::Obj(fields);
    proof {
        assert(jview(j) =~= resp_to_json((ResponseV::ConferencePeerList { peers: peers_view(peers@) })));
    }
    j
}

fn resp_conference_peer_count_json(count: &u32) -> (j: Json)
    ensures
        j@ == resp_to_json((ResponseV::ConferencePeerCount { count: *count })),
{
    let x1 = (String::from_str("response"), Json::Str(String::from_str("ConferencePeerCount")));
    let ghost g1 = x1;
    let x2 = (String::from_str("count"), Json::UInt(*count as u64));
    let ghost g2 = x2;
    let mut fields: Vec<(String, Json)> = Vec::new();
    fields.push(x1);
    fields.push(x2);
    proof {
        assert(fields@ =~= seq![g1, g2]);
        lemma_jview_fields2(g1, g2);
    }
    let j = Json::Obj(fields);
    proof {
        assert(jview(j) =~= resp_to_json((ResponseV::ConferencePeerCount { count: *count })));
    }
    j
}

fn resp_conference_peer_name_json(name: &String) -> (j: Json)
    ensures
        j@ == resp_to_json((ResponseV::ConferencePeerName { name: name@ })),
{
    let x1 = (String::from_str("response"), Json::Str(String::from_str("ConferencePeerName")));
    let ghost g1 = x1;
    let x2 = (String::from_str("name"), Json::Str(name.clone()));
    let ghost g2 = x2;
    let mut fields: Vec<(String, Json)> = Vec::new();
    fields.push(x1);
    fields.push(x2);
    proof {
        assert(fields@ =~= seq![g1, g2]);
        lemma_jview_fields2(g1, g2);
    }
    let j = Json::Obj(fields);
    proof {
        assert(jview(j) =~= resp_to_json((ResponseV::ConferencePeerName { name: name@ })));
    }
    j
}

fn resp_conference_peer_public_key_json(public_key: &String) -> (j: Json)
    ensures
        j@ == resp_to_json((ResponseV::ConferencePeerPublicKey { public_key: public_key@ })),
{
    let x1 = (String::from_str("response"), Json::Str(String::from_str("ConferencePeerPublicKey")));
    let ghost g1 = x1;
    let x2 = (String::from_str("public_key"), Json::Str(public_key.clone()));
    let ghost g2 = x2;
    let mut fields: Vec<(String, Json)> = Vec::new();
    fields.push(x1);
    fields.push(x2);
    proof {
        assert(fields@ =~= seq![g1, g2]);
        lemma_jview_fields2(g1, g2);
    }
    let j = Json::Obj(fields);
    proof {
        assert(jview(j) =~= resp_to_json((ResponseV::ConferencePeerPublicKey { public_key: public_key@ })));
    }
    j
}

fn resp_is_own_peer_number_json(is_own: &bool) -> (j: Json)
    ensures
        j@ == resp_to_json((ResponseV::IsOwnPeerNumber { is_own: *is_own })),
{
    let x1 = (String::from_str("response"), Json::Str(String::from_str("IsOwnPeerNumber")));
    let ghost g1 = x1;
    let x2 = (String::from_str("is_own"), Json::Bool(*is_own));
    let ghost g2 = x2;
    let mut fields: Vec<(String, Json)> = Vec::new();
    fields.push(x1);
    fields.push(x2);
    proof {
        assert(fields@ =~= seq![g1, g2]);
        lemma_jview_fields2(g1, g2);
    }
    let j = Json::Obj(fields);
    proof {
        assert(jview(j) =~= resp_to_json((ResponseV::IsOwnPeerNumber { is_own: *is_own })));
    }
    j
}

fn resp_conference_title_json(title: &String) -> (j: Json)
    ensures
        j@ == resp_to_json((ResponseV::ConferenceTitle { title: title@ })),
{
    let x1 = (String::from_str("response"), Json::Str(String::from_str("ConferenceTitle")));
    let ghost g1 = x1;
    let x2 = (String::from_str("title"), Json::Str(title.clone()));
    let ghost g2 = x2;
    let mut fields: Vec<(String, Json)> = Vec::new();
    fields.push(x1);
    fields.push(x2);
    proof {
        assert(fields@ =~= seq![g1, g2]);
        lemma_jview_fields2(g1, g2);
    }
    let j = Json::Obj(fields);
    proof {
        assert(jview(j) =~= resp_to_json((ResponseV::ConferenceTitle { title: title@ })));
    }
    j
}

fn resp_conference_list_json(conferences: &Vec<ConferenceInfo>) -> (j: Json)
    ensures
        j@ == resp_to_json((ResponseV::ConferenceList { conferences: conferences_view(conferences@) })),
{
    let x1 = (String::from_str("response"), Json::Str(String::from_str("ConferenceList")));
    let ghost g1 = x1;
    let x2 = (String::from_str("conferences"), conference_infos_to_json(conferences));
    let ghost g2 = x2;
    let mut fields: Vec<(String, Json)> = Vec::new();
    fields.push(x1);
    fields.push(x2);
    proof {
        assert(fields@ =~= seq![g1, g2]);
        lemma_jview_fields2(g1, g2);
    }
    let j = Json::Obj(fields);
    proof {
        assert(jview(j) =~= resp_to_json((ResponseV::ConferenceList { conferences: conferences_view(conferences@) })));
    }
    j
}

fn resp_conference_type_json(kind: &ConferenceType) -> (j: Json)
    ensures
        j@ == resp_to_json((ResponseV::ConferenceType { kind: *kind })),
{
    let x1 = (String::from_str("response"), Json::Str(String::from_str("ConferenceType")));
    let ghost g1 = x1;
    let x2 = (String::from_str("kind"), Json::Str(conference_type_to_text(kind)));
    let ghost g2 = x2;
    let mut fields: Vec<(String, Json)> = Vec::new();
    fields.push(x1);
    fields.push(x2);
    proof {
        assert(fields@ =~= seq![g1, g2]);
        lemma_jview_fields2(g1, g2);
    }
    let j = Json::Obj(fields);
    proof {
        assert(jview(j) =~= resp_to_json((ResponseV::ConferenceType { kind: *kind })));
    }
    j
}

fn resp_add_friend_error_json(error: &AddFriendError) -> (j: Json)
    ensures
        j@ == resp_to_json((ResponseV::AddFriendError { error: *error })),
{
    let x1 = (String::from_str("response"), Json::Str(String::from_str("AddFriendError")));
    let ghost g1 = x1;
    let x2 = (String::from_str("error"), Json::Str(add_friend_error_to_text(error)));
    let ghost g2 = x2;
    let mut fields: Vec<(String, Json)> = Vec::new();
    fields.push(x1);
    fields.push(x2);
    proof {
        assert(fields@ =~= seq![g1, g2]);
        lemma_jview_fields2(g1, g2);
    }
    let j = Json::Obj(fields);
    proof {
        assert(jview(j) =~= resp_to_json((ResponseV::AddFriendError { error: *error })));
    }
    j
}

fn resp_send_friend_message_error_json(error: &SendFriendMessageError) -> (j: Json)
    ensures
        j@ == resp_to_json((ResponseV::SendFriendMessageError { error: *error })),
{
    let x1 = (String::from_str("response"), Json::Str(String::from_str("SendFriendMessageError")));
    let ghost g1 = x1;
    let x2 = (String::from_str("error"), Json::Str(send_friend_message_error_to_text(error)));
    let ghost g2 = x2;
    let mut fields: Vec<(String, Json)> = Vec::new();
    fields.push(x1);
    fields.push(x2);
    proof {
        assert(fields@ =~= seq![g1, g2]);
        lemma_jview_fields2(g1, g2);
    }
    let j = Json::Obj(fields);
    proof {
        assert(jview(j) =~= resp_to_json((ResponseV::SendFriendMessageError { error: *error })));
    }
    j
}

fn resp_friend_not_found_error_json() -> (j: Json)
    ensures
        j@ == resp_to_json(ResponseV::FriendNotFoundError),
{
    let x1 = (String::from_str("response"), Json::Str(String::from_str("FriendNotFoundError")));
    let ghost g1 = x1;
    let mut fields: Vec<(String, Json)> = Vec::new();
    fields.push(x1);
    proof {
        assert(fields@ =~= seq![g1]);
        lemma_jview_fields1(g1);
    }
    let j = Json::Obj(fields);
    proof {
        assert(jview(j) =~= resp_to_json(ResponseV::FriendNotFoundError));
    }
    j
}

fn resp_conference_invite_error_json(error: &ConferenceInviteError) -> (j: Json)
    ensures
        j@ == resp_to_json((ResponseV::ConferenceInviteError { error: *error })),
{
    let x1 = (String::from_str("response"), Json::Str(String::from_str("ConferenceInviteError")));
    let ghost g1 = x1;
    let x2 = (String::from_str("error"), Json::Str(conference_invite_error_to_text(error)));
    let ghost g2 = x2;
    let mut fields: Vec<(String, Json)> = Vec::new();
    fields.push(x1);
    fields.push(x2);
    proof {
        assert(fields@ =~= seq![g1, g2]);
        lemma_jview_fields2(g1, g2);
    }
    let j = Json::Obj(fields);
    proof {
        assert(jview(j) =~= resp_to_json((ResponseV::ConferenceInviteError { error: *error })));
    }
    j
}

fn resp_conference_join_error_json(error: &ConferenceJoinError) -> (j: Json)
    ensures
        j@ == resp_to_json((ResponseV::ConferenceJoinError { error: *error })),
{
    let x1 = (String::from_str("response"), Json::Str(String::from_str("ConferenceJoinError")));
    let ghost g1 = x1;
    let x2 = (String::from_str("error"), Json::Str(conference_join_error_to_text(error)));
    let ghost g2 = x2;
    let mut fields: Vec<(String, Json)> = Vec::new();
    fields.push(x1);
    fields.push(x2);
    proof {
        assert(fields@ =~= seq![g1, g2]);
        lemma_jview_fields2(g1, g2);
    }
    let j = Json::Obj(fields);
    proof {
        assert(jview(j) =~= resp_to_json((ResponseV::ConferenceJoinError { error: *error })));
    }
    j
}

fn resp_conference_peer_query_error_json(error: &ConferencePeerQueryError) -> (j: Json)
    ensures
        j@ == resp_to_json((ResponseV::ConferencePeerQueryError { error: *error })),
{
    let x1 = (String::from_str("response"), Json::Str(String::from_str("ConferencePeerQueryError")));
    let ghost g1 = x1;
    let x2 = (String::from_str("error"), Json::Str(conference_peer_query_error_to_text(error)));
    let ghost g2 = x2;
    let mut fields: Vec<(String, Json)> = Vec::new();
    fields.push(x1);
    fields.push(x2);
    proof {
        assert(fields@ =~= seq![g1, g2]);
        lemma_jview_fields2(g1, g2);
    }
    let j = Json::Obj(fields);
    proof {
        assert(jview(j) =~= resp_to_json((ResponseV::ConferencePeerQueryError { error: *error })));
    }
    j
}

fn resp_conference_send_error_json(error: &ConferenceSendError) -> (j: Json)
    ensures
        j@ == resp_to_json((ResponseV::ConferenceSendError { error: *error })),
{
    let x1 = (String::from_str("response"), Json::Str(String::from_str("ConferenceSendError")));
    let ghost g1 = x1;
    let x2 = (String::from_str("error"), Json::Str(conference_send_error_to_text(error)));
    let ghost g2 = x2;
    let mut fields: Vec<(String, Json)> = Vec::new();
    fields.push(x1);
    fields.push(x2);
    proof {
        assert(fields@ =~= seq![g1, g2]);
        lemma_jview_fields2(g1, g2);
    }
    let j = Json::Obj(fields);
    proof {
        assert(jview(j) =~= resp_to_json((ResponseV::ConferenceSendError { error: *error })));
    }
    j
}

fn resp_conference_title_error_json(error: &ConferenceTitleError) -> (j: Json)
    ensures
        j@ == resp_to_json((ResponseV::ConferenceTitleError { error: *error })),
{
    let x1 = (String::from_str("response"), Json::Str(String::from_str("ConferenceTitleError")));
    let ghost g1 = x1;
    let x2 = (String::from_str("error"), Json::Str(conference_title_error_to_text(error)));
    let ghost g2 = x2;
    let mut fields: Vec<(String, Json)> = Vec::new();
    fields.push(x1);
    fields.push(x2);
    proof {
        assert(fields@ =~= seq![g1, g2]);
        lemma_jview_fields2(g1, g2);
    }
    let j = Json::Obj(fields);
    proof {
        assert(jview(j) =~= resp_to_json((ResponseV::ConferenceTitleError { error: *error })));
    }
    j
}

/// Builds the wire object of this response.
pub fn response_value_to_json(q: &Response) -> (j: Json)
    ensures
        j@ == resp_to_json(q@),
{
    match q {
        Response::Okay => resp_okay_json(),
        Response::MessageSent { message_id } => resp_message_sent_json(message_id),
        Response::Info { tox_id, name, status, status_message, friends } => resp_info_json(tox_id, name, status, status_message, friends),
        Response::ConnectionStatus { status } => resp_connection_status_json(status),
        Response::Address { address } => resp_address_json(address),
        Response::Nospam { nospam } => resp_nospam_json(nospam),
        Response::PublicKey { public_key } => resp_public_key_json(public_key),
        Response::Name { name } => resp_name_json(name),
        Response::StatusMessage { status } => resp_status_message_json(status),
        Response::Status { status } => resp_status_json(status),
        Response::Friend { friend } => resp_friend_json(friend),
        Response::FriendExists { exists } => resp_friend_exists_json(exists),
        Response::LastOnline { last_online } => resp_last_online_json(last_online),
        Response::FileId { id } => resp_file_id_json(id),
        Response::FileNumber { file_number } => resp_file_number_json(file_number),
        Response::FileControlError { error } => resp_file_control_error_json(error),
        Response::FileSeekError { error } => resp_file_seek_error_json(error),
        Response::FileGetError { error } => resp_file_get_error_json(error),
        Response::FileSendError { error } => resp_file_send_error_json(error),
        Response::FileSendChunkError { error } => resp_file_send_chunk_error_json(error),
        Response::Conference { conference } => resp_conference_json(conference),
        Response::ConferencePeerList { peers } => resp_conference_peer_list_json(peers),
        Response::ConferencePeerCount { count } => resp_conference_peer_count_json(count),
        Response::ConferencePeerName { name } => resp_conference_peer_name_json(name),
        Response::ConferencePeerPublicKey { public_key } => resp_conference_peer_public_key_json(public_key),
        Response::IsOwnPeerNumber { is_own } => resp_is_own_peer_number_json(is_own),
        Response::ConferenceTitle { title } => resp_conference_title_json(title),
        Response::ConferenceList { conferences } => resp_conference_list_json(conferences),
        Response::ConferenceType { kind } => resp_conference_type_json(kind),
        Response::AddFriendError { error } => resp_add_friend_error_json(error),
        Response::SendFriendMessageError { error } => resp_send_friend_message_error_json(error),
        Response::FriendNotFoundError => resp_friend_not_found_error_json(),
        Response::ConferenceInviteError { error } => resp_conference_invite_error_json(error),
        Response::ConferenceJoinError { error } => resp_conference_join_error_json(error),
        Response::ConferencePeerQueryError { error } => resp_conference_peer_query_error_json(error),
        Response::ConferenceSendError { error } => resp_conference_send_error_json(error),
        Response::ConferenceTitleError { error } => resp_conference_title_error_json(error),
    }
}

fn resp_message_sent_of(fields: &Vec<(String, Json)>) -> (r: Result<Response, DecodeError>)
    ensures
        ({
            let sp = resp_message_sent_from(jview_fields(fields@));
            match r {
                Ok(q) => sp == Ok::<ResponseV, DecodeError>(q@),
                Err(e) => sp == Err::<ResponseV, DecodeError>(e),
            }
        }),
{
    let message_id = match jget_u32(fields, "message_id") {
        Ok(v) => v,
        Err(e) => {
            return Err(e);
        },
    };
    Ok(Response::MessageSent { message_id })
}

fn resp_info_of(fields: &Vec<(String, Json)>) -> (r: Result<Response, DecodeError>)
    ensures
        ({
            let sp = resp_info_from(jview_fields(fields@));
            match r {
                Ok(q) => sp == Ok::<ResponseV, DecodeError>(q@),
                Err(e) => sp == Err::<ResponseV, DecodeError>(e),
            }
        }),
{
    let tox_id = match jget_str(fields, "tox_id") {
        Ok(v) => v,
        Err(e) => {
            return Err(e);
        },
    };
    let name = match jget_str(fields, "name") {
        Ok(v) => v,
        Err(e) => {
            return Err(e);
        },
    };
    let status = match jget_user_status(fields, "status") {
        Ok(v) => v,
        Err(e) => {
            return Err(e);
        },
    };
    let status_message = match jget_str(fields, "status_message") {
        Ok(v) => v,
        Err(e) => {
            return Err(e);
        },
    };
    let friends = match jget_friends(fields, "friends") {
        Ok(v) => v,
        Err(e) => {
            return Err(e);
        },
    };
    Ok(Response::Info { tox_id, name, status, status_message, friends })
}

fn resp_connection_status_of(fields: &Vec<(String, Json)>) -> (r: Result<Response, DecodeError>)
    ensures
        ({
            let sp = resp_connection_status_from(jview_fields(fields@));
            match r {
                Ok(q) => sp == Ok::<ResponseV, DecodeError>(q@),
                Err(e) => sp == Err::<ResponseV, DecodeError>(e),
            }
        }),
{
    let status = match jget_connection_status(fields, "status") {
        Ok(v) => v,
        Err(e) => {
            return Err(e);
        },
    };
    Ok(Response::ConnectionStatus { status })
}

fn resp_address_of(fields: &Vec<(String, Json)>) -> (r: Result<Response, DecodeError>)
    ensures
        ({
            let sp = resp_address_from(jview_fields(fields@));
            match r {
                Ok(q) => sp == Ok::<ResponseV, DecodeError>(q@),
                Err(e) => sp == Err::<ResponseV, DecodeError>(e),
            }
        }),
{
    let address = match jget_str(fields, "address") {
        Ok(v) => v,
        Err(e) => {
            return Err(e);
        },
    };
    Ok(Response::Address { address })
}

fn resp_nospam_of(fields: &Vec<(String, Json)>) -> (r: Result<Response, DecodeError>)
    ensures
        ({
            let sp = resp_nospam_from(jview_fields(fields@));
            match r {
                Ok(q) => sp == Ok::<ResponseV, DecodeError>(q@),
                Err(e) => sp == Err::<ResponseV, DecodeError>(e),
            }
        }),
{
    let nospam = match jget_str(fields, "nospam") {
        Ok(v) => v,
        Err(e) => {
            return Err(e);
        },
    };
    Ok(Response::Nospam { nospam })
}

fn resp_public_key_of(fields: &Vec<(String, Json)>) -> (r: Result<Response, DecodeError>)
    ensures
        ({
            let sp = resp_public_key_from(jview_fields(fields@));
            match r {
                Ok(q) => sp == Ok::<ResponseV, DecodeError>(q@),
                Err(e) => sp == Err::<ResponseV, DecodeError>(e),
            }
        }),
{
    let public_key = match jget_str(fields, "public_key") {
        Ok(v) => v,
        Err(e) => {
            return Err(e);
        },
    };
    Ok(Response::PublicKey { public_key })
}

fn resp_name_of(fields: &Vec<(String, Json)>) -> (r: Result<Response, DecodeError>)
    ensures
        ({
            let sp = resp_name_from(jview_fields(fields@));
            match r {
                Ok(q) => sp == Ok::<ResponseV, DecodeError>(q@),
                Err(e) => sp == Err::<ResponseV, DecodeError>(e),
            }
        }),
{
    let name = match jget_str(fields, "name") {
        Ok(v) => v,
        Err(e) => {
            return Err(e);
        },
    };
    Ok(Response::Name { name })
}

fn resp_status_message_of(fields: &Vec<(String, Json)>) -> (r: Result<Response, DecodeError>)
    ensures
        ({
            let sp = resp_status_message_from(jview_fields(fields@));
            match r {
                Ok(q) => sp == Ok::<ResponseV, DecodeError>(q@),
                Err(e) => sp == Err::<ResponseV, DecodeError>(e),
            }
        }),
{
    let status = match jget_str(fields, "status") {
        Ok(v) => v,
        Err(e) => {
            return Err(e);
        },
    };
    Ok(Response::StatusMessage { status })
}

fn resp_status_of(fields: &Vec<(String, Json)>) -> (r: Result<Response, DecodeError>)
    ensures
        ({
            let sp = resp_status_from(jview_fields(fields@));
            match r {
                Ok(q) => sp == Ok::<ResponseV, DecodeError>(q@),
                Err(e) => sp == Err::<ResponseV, DecodeError>(e),
            }
        }),
{
    let status = match jget_user_status(fields, "status") {
        Ok(v) => v,
        Err(e) => {
            return Err(e);
        },
    };
    Ok(Response::Status { status })
}

fn resp_friend_of(fields: &Vec<(String, Json)>) -> (r: Result<Response, DecodeError>)
    ensures
        ({
            let sp = resp_friend_from(jview_fields(fields@));
            match r {
                Ok(q) => sp == Ok::<ResponseV, DecodeError>(q@),
                Err(e) => sp == Err::<ResponseV, DecodeError>(e),
            }
        }),
{
    let friend = match jget_u32(fields, "friend") {
        Ok(v) => v,
        Err(e) => {
            return Err(e);
        },
    };
    Ok(Response::Friend { friend })
}

fn resp_friend_exists_of(fields: &Vec<(String, Json)>) -> (r: Result<Response, DecodeError>)
    ensures
        ({
            let sp = resp_friend_exists_from(jview_fields(fields@));
            match r {
                Ok(q) => sp == Ok::<ResponseV, DecodeError>(q@),
                Err(e) => sp == Err::<ResponseV, DecodeError>(e),
            }
        }),
{
    let exists = match jget_bool(fields, "exists") {
        Ok(v) => v,
        Err(e) => {
            return Err(e);
        },
    };
    Ok(Response::FriendExists { exists })
}

fn resp_last_online_of(fields: &Vec<(String, Json)>) -> (r: Result<Response, DecodeError>)
    ensures
        ({
            let sp = resp_last_online_from(jview_fields(fields@));
            match r {
                Ok(q) => sp == Ok::<ResponseV, DecodeError>(q@),
                Err(e) => sp == Err::<ResponseV, DecodeError>(e),
            }
        }),
{
    let last_online = match jget_u64(fields, "last_online") {
        Ok(v) => v,
        Err(e) => {
            return Err(e);
        },
    };
    Ok(Response::LastOnline { last_online })
}

fn resp_file_id_of(fields: &Vec<(String, Json)>) -> (r: Result<Response, DecodeError>)
    ensures
        ({
            let sp = resp_file_id_from(jview_fields(fields@));
            match r {
                Ok(q) => sp == Ok::<ResponseV, DecodeError>(q@),
                Err(e) => sp == Err::<ResponseV, DecodeError>(e),
            }
        }),
{
    let id = match jget_str(fields, "id") {
        Ok(v) => v,
        Err(e) => {
            return Err(e);
        },
    };
    Ok(Response::FileId { id })
}

fn resp_file_number_of(fields: &Vec<(String, Json)>) -> (r: Result<Response, DecodeError>)
    ensures
        ({
            let sp = resp_file_number_from(jview_fields(fields@));
            match r {
                Ok(q) => sp == Ok::<ResponseV, DecodeError>(q@),
                Err(e) => sp == Err::<ResponseV, DecodeError>(e),
            }
        }),
{
    let file_number = match jget_u32(fields, "file_number") {
        Ok(v) => v,
        Err(e) => {
            return Err(e);
        },
    };
    Ok(Response::FileNumber { file_number })
}

fn resp_file_control_error_of(fields: &Vec<(String, Json)>) -> (r: Result<Response, DecodeError>)
    ensures
        ({
            let sp = resp_file_control_error_from(jview_fields(fields@));
            match r {
                Ok(q) => sp == Ok::<ResponseV, DecodeError>(q@),
                Err(e) => sp == Err::<ResponseV, DecodeError>(e),
            }
        }),
{
    let error = match jget_file_control_error(fields, "error") {
        Ok(v) => v,
        Err(e) => {
            return Err(e);
        },
    };
    Ok(Response::FileControlError { error })
}

fn resp_file_seek_error_of(fields: &Vec<(String, Json)>) -> (r: Result<Response, DecodeError>)
    ensures
        ({
            let sp = resp_file_seek_error_from(jview_fields(fields@));
            match r {
                Ok(q) => sp == Ok::<ResponseV, DecodeError>(q@),
                Err(e) => sp == Err::<ResponseV, DecodeError>(e),
            }
        }),
{
    let error = match jget_file_seek_error(fields, "error") {
        Ok(v) => v,
        Err(e) => {
            return Err(e);
        },
    };
    Ok(Response::FileSeekError { error })
}

fn resp_file_get_error_of(fields: &Vec<(String, Json)>) -> (r: Result<Response, DecodeError>)
    ensures
        ({
            let sp = resp_file_get_error_from(jview_fields(fields@));
            match r {
                Ok(q) => sp == Ok::<ResponseV, DecodeError>(q@),
                Err(e) => sp == Err::<ResponseV, DecodeError>(e),
            }
        }),
{
    let error = match jget_file_get_error(fields, "error") {
        Ok(v) => v,
        Err(e) => {
            return Err(e);
        },
    };
    Ok(Response::FileGetError { error })
}

fn resp_file_send_error_of(fields: &Vec<(String, Json)>) -> (r: Result<Response, DecodeError>)
    ensures
        ({
            let sp = resp_file_send_error_from(jview_fields(fields@));
            match r {
                Ok(q) => sp == Ok::<ResponseV, DecodeError>(q@),
                Err(e) => sp == Err::<ResponseV, DecodeError>(e),
            }
        }),
{
    let error = match jget_file_send_error(fields, "error") {
        Ok(v) => v,
        Err(e) => {
            return Err(e);
        },
    };
    Ok(Response::FileSendError { error })
}

fn resp_file_send_chunk_error_of(fields: &Vec<(String, Json)>) -> (r: Result<Response, DecodeError>)
    ensures
        ({
            let sp = resp_file_send_chunk_error_from(jview_fields(fields@));
            match r {
                Ok(q) => sp == Ok::<ResponseV, DecodeError>(q@),
                Err(e) => sp == Err::<ResponseV, DecodeError>(e),
            }
        }),
{
    let error = match jget_file_send_chunk_error(fields, "error") {
        Ok(v) => v,
        Err(e) => {
            return Err(e);
        },
    };
    Ok(Response::FileSendChunkError { error })
}

fn resp_conference_of(fields: &Vec<(String, Json)>) -> (r: Result<Response, DecodeError>)
    ensures
        ({
            let sp = resp_conference_from(jview_fields(fields@));
            match r {
                Ok(q) => sp == Ok::<ResponseV, DecodeError>(q@),
                Err(e) => sp == Err::<ResponseV, DecodeError>(e),
            }
        }),
{
    let conference = match jget_u32(fields, "conference") {
        Ok(v) => v,
        Err(e) => {
            return Err(e);
        },
    };
    Ok(Response::Conference { conference })
}

fn resp_conference_peer_list_of(fields: &Vec<(String, Json)>) -> (r: Result<Response, DecodeError>)
    ensures
        ({
            let sp = resp_conference_peer_list_from(jview_fields(fields@));
            match r {
                Ok(q) => sp == Ok::<ResponseV, DecodeError>(q@),
                Err(e) => sp == Err::<ResponseV, DecodeError>(e),
            }
        }),
{
    let peers = match jget_peer_infos(fields, "peers") {
        Ok(v) => v,
        Err(e) => {
            return Err(e);
        },
    };
    Ok(Response::ConferencePeerList { peers })
}

fn resp_conference_peer_count_of(fields: &Vec<(String, Json)>) -> (r: Result<Response, DecodeError>)
    ensures
        ({
            let sp = resp_conference_peer_count_from(jview_fields(fields@));
            match r {
                Ok(q) => sp == Ok::<ResponseV, DecodeError>(q@),
                Err(e) => sp == Err::<ResponseV, DecodeError>(e),
            }
        }),
{
    let count = match jget_u32(fields, "count") {
        Ok(v) => v,
        Err(e) => {
            return Err(e);
        },
    };
    Ok(Response::ConferencePeerCount { count })
}

fn resp_conference_peer_name_of(fields: &Vec<(String, Json)>) -> (r: Result<Response, DecodeError>)
    ensures
        ({
            let sp = resp_conference_peer_name_from(jview_fields(fields@));
            match r {
                Ok(q) => sp == Ok::<ResponseV, DecodeError>(q@),
                Err(e) => sp == Err::<ResponseV, DecodeError>(e),
            }
        }),
{
    let name = match jget_str(fields, "name") {
        Ok(v) => v,
        Err(e) => {
            return Err(e);
        },
    };
    Ok(Response::ConferencePeerName { name })
}

fn resp_conference_peer_public_key_of(fields: &Vec<(String, Json)>) -> (r: Result<Response, DecodeError>)
    ensures
        ({
            let sp = resp_conference_peer_public_key_from(jview_fields(fields@));
            match r {
                Ok(q) => sp == Ok::<ResponseV, DecodeError>(q@),
                Err(e) => sp == Err::<ResponseV, DecodeError>(e),
            }
        }),
{
    let public_key = match jget_str(fields, "public_key") {
        Ok(v) => v,
        Err(e) => {
            return Err(e);
        },
    };
    Ok(Response::ConferencePeerPublicKey { public_key })
}

fn resp_is_own_peer_number_of(fields: &Vec<(String, Json)>) -> (r: Result<Response, DecodeError>)
    ensures
        ({
            let sp = resp_is_own_peer_number_from(jview_fields(fields@));
            match r {
                Ok(q) => sp == Ok::<ResponseV, DecodeError>(q@),
                Err(e) => sp == Err::<ResponseV, DecodeError>(e),
            }
        }),
{
    let is_own = match jget_bool(fields, "is_own") {
        Ok(v) => v,
        Err(e) => {
            return Err(e);
        },
    };
    Ok(Response::IsOwnPeerNumber { is_own })
}

fn resp_conference_title_of(fields: &Vec<(String, Json)>) -> (r: Result<Response, DecodeError>)
    ensures
        ({
            let sp = resp_conference_title_from(jview_fields(fields@));
            match r {
                Ok(q) => sp == Ok::<ResponseV, DecodeError>(q@),
                Err(e) => sp == Err::<ResponseV, DecodeError>(e),
            }
        }),
{
    let title = match jget_str(fields, "title") {
        Ok(v) => v,
        Err(e) => {
            return Err(e);
        },
    };
    Ok(Response::ConferenceTitle { title })
}

fn resp_conference_list_of(fields: &Vec<(String, Json)>) -> (r: Result<Response, DecodeError>)
    ensures
        ({
            let sp = resp_conference_list_from(jview_fields(fields@));
            match r {
                Ok(q) => sp == Ok::<ResponseV, DecodeError>(q@),
                Err(e) => sp == Err::<ResponseV, DecodeError>(e),
            }
        }),
{
    let conferences = match jget_conference_infos(fields, "conferences") {
        Ok(v) => v,
        Err(e) => {
            return Err(e);
        },
    };
    Ok(Response::ConferenceList { conferences })
}

fn resp_conference_type_of(fields: &Vec<(String, Json)>) -> (r: Result<Response, DecodeError>)
    ensures
        ({
            let sp = resp_conference_type_from(jview_fields(fields@));
            match r {
                Ok(q) => sp == Ok::<ResponseV, DecodeError>(q@),
                Err(e) => sp == Err::<ResponseV, DecodeError>(e),
            }
        }),
{
    let kind = match jget_conference_type(fields, "kind") {
        Ok(v) => v,
        Err(e) => {
            return Err(e);
        },
    };
    Ok(Response::ConferenceType { kind })
}

fn resp_add_friend_error_of(fields: &Vec<(String, Json)>) -> (r: Result<Response, DecodeError>)
    ensures
        ({
            let sp = resp_add_friend_error_from(jview_fields(fields@));
            match r {
                Ok(q) => sp == Ok::<ResponseV, DecodeError>(q@),
                Err(e) => sp == Err::<ResponseV, DecodeError>(e),
            }
        }),
{
    let error = match jget_add_friend_error(fields, "error") {
        Ok(v) => v,
        Err(e) => {
            return Err(e);
        },
    };
    Ok(Response::AddFriendError { error })
}

fn resp_send_friend_message_error_of(fields: &Vec<(String, Json)>) -> (r: Result<Response, DecodeError>)
    ensures
        ({
            let sp = resp_send_friend_message_error_from(jview_fields(fields@));
            match r {
                Ok(q) => sp == Ok::<ResponseV, DecodeError>(q@),
                Err(e) => sp == Err::<ResponseV, DecodeError>(e),
            }
        }),
{
    let error = match jget_send_friend_message_error(fields, "error") {
        Ok(v) => v,
        Err(e) => {
            return Err(e);
        },
    };
    Ok(Response::SendFriendMessageError { error })
}

fn resp_conference_invite_error_of(fields: &Vec<(String, Json)>) -> (r: Result<Response, DecodeError>)
    ensures
        ({
            let sp = resp_conference_invite_error_from(jview_fields(fields@));
            match r {
                Ok(q) => sp == Ok::<ResponseV, DecodeError>(q@),
                Err(e) => sp == Err::<ResponseV, DecodeError>(e),
            }
        }),
{
    let error = match jget_conference_invite_error(fields, "error") {
        Ok(v) => v,
        Err(e) => {
            return Err(e);
        },
    };
    Ok(Response::ConferenceInviteError { error })
}

fn resp_conference_join_error_of(fields: &Vec<(String, Json)>) -> (r: Result<Response, DecodeError>)
    ensures
        ({
            let sp = resp_conference_join_error_from(jview_fields(fields@));
            match r {
                Ok(q) => sp == Ok::<ResponseV, DecodeError>(q@),
                Err(e) => sp == Err::<ResponseV, DecodeError>(e),
            }
        }),
{
    let error = match jget_conference_join_error(fields, "error") {
        Ok(v) => v,
        Err(e) => {
            return Err(e);
        },
    };
    Ok(Response::ConferenceJoinError { error })
}

fn resp_conference_peer_query_error_of(fields: &Vec<(String, Json)>) -> (r: Result<Response, DecodeError>)
    ensures
        ({
            let sp = resp_conference_peer_query_error_from(jview_fields(fields@));
            match r {
                Ok(q) => sp == Ok::<ResponseV, DecodeError>(q@),
                Err(e) => sp == Err::<ResponseV, DecodeError>(e),
            }
        }),
{
    let error = match jget_conference_peer_query_error(fields, "error") {
        Ok(v) => v,
        Err(e) => {
            return Err(e);
        },
    };
    Ok(Response::ConferencePeerQueryError { error })
}

fn resp_conference_send_error_of(fields: &Vec<(String, Json)>) -> (r: Result<Response, DecodeError>)
    ensures
        ({
            let sp = resp_conference_send_error_from(jview_fields(fields@));
            match r {
                Ok(q) => sp == Ok::<ResponseV, DecodeError>(q@),
                Err(e) => sp == Err::<ResponseV, DecodeError>(e),
            }
        }),
{
    let error = match jget_conference_send_error(fields, "error") {
        Ok(v) => v,
        Err(e) => {
            return Err(e);
        },
    };
    Ok(Response::ConferenceSendError { error })
}

fn resp_conference_title_error_of(fields: &Vec<(String, Json)>) -> (r: Result<Response, DecodeError>)
    ensures
        ({
            let sp = resp_conference_title_error_from(jview_fields(fields@));
            match r {
                Ok(q) => sp == Ok::<ResponseV, DecodeError>(q@),
                Err(e) => sp == Err::<ResponseV, DecodeError>(e),
            }
        }),
{
    let error = match jget_conference_title_error(fields, "error") {
        Ok(v) => v,
        Err(e) => {
            return Err(e);
        },
    };
    Ok(Response::ConferenceTitleError { error })
}

#[verifier::rlimit(100)]
fn resp_of_tag4(tag: &String, fields: &Vec<(String, Json)>) -> (r: Result<Response, DecodeError>)
    ensures
        ({
            let sp = resp_dispatch4(tag@, jview_fields(fields@));
            match r {
                Ok(q) => sp == Ok::<ResponseV, DecodeError>(q@),
                Err(e) => sp == Err::<ResponseV, DecodeError>(e),
            }
        }),
{
    if str_eq(tag.as_str(), "ConferenceTitleError") {
        resp_conference_title_error_of(fields)
    } else {
        Err(DecodeError::UnknownVariant)
    }
}

#[verifier::rlimit(100)]
fn resp_of_tag3(tag: &String, fields: &Vec<(String, Json)>) -> (r: Result<Response, DecodeError>)
    ensures
        ({
            let sp = resp_dispatch3(tag@, jview_fields(fields@));
            match r {
                Ok(q) => sp == Ok::<ResponseV, DecodeError>(q@),
                Err(e) => sp == Err::<ResponseV, DecodeError>(e),
            }
        }),
{
    if str_eq(tag.as_str(), "ConferencePeerPublicKey") {
        resp_conference_peer_public_key_of(fields)
    } else if str_eq(tag.as_str(), "IsOwnPeerNumber") {
        resp_is_own_peer_number_of(fields)
    } else if str_eq(tag.as_str(), "ConferenceTitle") {
        resp_conference_title_of(fields)
    } else if str_eq(tag.as_str(), "ConferenceList") {
        resp_conference_list_of(fields)
    } else if str_eq(tag.as_str(), "ConferenceType") {
        resp_conference_type_of(fields)
    } else if str_eq(tag.as_str(), "AddFriendError") {
        resp_add_friend_error_of(fields)
    } else if str_eq(tag.as_str(), "SendFriendMessageError") {
        resp_send_friend_message_error_of(fields)
    } else if str_eq(tag.as_str(), "FriendNotFoundError") {
        Ok(Response::FriendNotFoundError)
    } else if str_eq(tag.as_str(), "ConferenceInviteError") {
        resp_conference_invite_error_of(fields)
    } else if str_eq(tag.as_str(), "ConferenceJoinError") {
        resp_conference_join_error_of(fields)
    } else if str_eq(tag.as_str(), "ConferencePeerQueryError") {
        resp_conference_peer_query_error_of(fields)
    } else if str_eq(tag.as_str(), "ConferenceSendError") {
        resp_conference_send_error_of(fields)
    } else {
        resp_of_tag4(tag, fields)
    }
}

#[verifier::rlimit(100)]
fn resp_of_tag2(tag: &String, fields: &Vec<(String, Json)>) -> (r: Result<Response, DecodeError>)
    ensures
        ({
            let sp = resp_dispatch2(tag@, jview_fields(fields@));
            match r {
                Ok(q) => sp == Ok::<ResponseV, DecodeError>(q@),
                Err(e) => sp == Err::<ResponseV, DecodeError>(e),
            }
        }),
{
    if str_eq(tag.as_str(), "LastOnline") {
        resp_last_online_of(fields)
    } else if str_eq(tag.as_str(), "FileId") {
        resp_file_id_of(fields)
    } else if str_eq(tag.as_str(), "FileNumber") {
        resp_file_number_of(fields)
    } else if str_eq(tag.as_str(), "FileControlError") {
        resp_file_control_error_of(fields)
    } else if str_eq(tag.as_str(), "FileSeekError") {
        resp_file_seek_error_of(fields)
    } else if str_eq(tag.as_str(), "FileGetError") {
        resp_file_get_error_of(fields)
    } else if str_eq(tag.as_str(), "FileSendError") {
        resp_file_send_error_of(fields)
    } else if str_eq(tag.as_str(), "FileSendChunkError") {
        resp_file_send_chunk_error_of(fields)
    } else if str_eq(tag.as_str(), "Conference") {
        resp_conference_of(fields)
    } else if str_eq(tag.as_str(), "ConferencePeerList") {
        resp_conference_peer_list_of(fields)
    } else if str_eq(tag.as_str(), "ConferencePeerCount") {
        resp_conference_peer_count_of(fields)
    } else if str_eq(tag.as_str(), "ConferencePeerName") {
        resp_conference_peer_name_of(fields)
    } else {
        resp_of_tag3(tag, fields)
    }
}

#[verifier::rlimit(100)]
fn resp_of_tag(tag: &String, fields: &Vec<(String, Json)>) -> (r: Result<Response, DecodeError>)
    ensures
        ({
            let sp = resp_dispatch(tag@, jview_fields(fields@));
            match r {
                Ok(q) => sp == Ok::<ResponseV, DecodeError>(q@),
                Err(e) => sp == Err::<ResponseV, DecodeError>(e),
            }
        }),
{
    if str_eq(tag.as_str(), "Ok") {
        Ok(Response::Okay)
    } else if str_eq(tag.as_str(), "MessageSent") {
        resp_message_sent_of(fields)
    } else if str_eq(tag.as_str(), "Info") {
        resp_info_of(fields)
    } else if str_eq(tag.as_str(), "ConnectionStatus") {
        resp_connection_status_of(fields)
    } else if str_eq(tag.as_str(), "Address") {
        resp_address_of(fields)
    } else if str_eq(tag.as_str(), "Nospam") {
        resp_nospam_of(fields)
    } else if str_eq(tag.as_str(), "PublicKey") {
        resp_public_key_of(fields)
    } else if str_eq(tag.as_str(), "Name") {
        resp_name_of(fields)
    } else if str_eq(tag.as_str(), "StatusMessage") {
        resp_status_message_of(fields)
    } else if str_eq(tag.as_str(), "Status") {
        resp_status_of(fields)
    } else if str_eq(tag.as_str(), "Friend") {
        resp_friend_of(fields)
    } else if str_eq(tag.as_str(), "FriendExists") {
        resp_friend_exists_of(fields)
    } else {
        resp_of_tag2(tag, fields)
    }
}

/// Reads one response out of a parsed JSON value.
pub fn response_value_of_json(j: &Json) -> (r: Result<Response, DecodeError>)
    ensures
        ({
            let sp = resp_from_json(j@);
            match r {
                Ok(q) => sp == Ok::<ResponseV, DecodeError>(q@),
                Err(e) => sp == Err::<ResponseV, DecodeError>(e),
            }
        }),
{
    match j {
        Json::Obj(fields) => match obj_get(fields, "response") {
            Some(tj) => match tj {
                Json::Str(tag) => resp_of_tag(tag, fields),
                _ => Err(DecodeError::MalformedField),
            },
            None => Err(DecodeError::MissingField),
        },
        _ => Err(DecodeError::MalformedField),
    }
}

proof fn lemma_resp_okay_rt()
    ensures
        resp_from_json(resp_to_json(ResponseV::Okay)) == Ok::<ResponseV, DecodeError>(ResponseV::Okay),
        jdepth(resp_to_json(ResponseV::Okay)) <= 6,
{
    reveal_with_fuel(jlookup, 10);
    let v = ResponseV::Okay;
    let m1 = ("response"@, JsonV::Str("Ok"@));
    let ms = seq![m1];
    assert(resp_to_json(v) == JsonV::Obj(ms));
    assert(ms.drop_first() =~= seq![]);
    reveal_strlit("response");
    assert("response"@.len() == 8);
    reveal_strlit("Ok");
    assert("Ok"@.len() == 2);
    assert(jlookup(ms, "response"@) == Some(JsonV::Str("Ok"@)));
    assert(resp_from_json(JsonV::Obj(ms)) == resp_dispatch("Ok"@, ms));
    assert(resp_dispatch("Ok"@, ms) == Ok::<ResponseV, DecodeError>(v));
    reveal_with_fuel(jdepth_fields, 10);
    assert(jdepth(m1.1) == 0);
    assert(jdepth_fields(seq![m1]) <= 5);
    assert(jdepth(JsonV::Obj(ms)) <= 6);
}

proof fn lemma_resp_message_sent_rt(message_id: u32)
    ensures
        resp_from_json(resp_to_json((ResponseV::MessageSent { message_id }))) == Ok::<ResponseV, DecodeError>((ResponseV::MessageSent { message_id })),
        jdepth(resp_to_json((ResponseV::MessageSent { message_id }))) <= 6,
{
    reveal_with_fuel(jlookup, 10);
    let v = (ResponseV::MessageSent { message_id });
    let m1 = ("response"@, JsonV::Str("MessageSent"@));
    let m2 = ("message_id"@, JsonV::UInt(message_id as u64));
    let ms = seq![m1, m2];
    assert(resp_to_json(v) == JsonV::Obj(ms));
    assert(ms.drop_first() =~= seq![m2]);
    assert(seq![m2].drop_first() =~= Seq::<(Seq<char>, JsonV)>::empty());
    reveal_strlit("response");
    assert("response"@.len() == 8);
    reveal_strlit("MessageSent");
    assert("MessageSent"@.len() == 11);
    reveal_strlit("Ok");
    assert("Ok"@.len() == 2);
    assert("MessageSent"@ != "Ok"@);
    reveal_strlit("message_id");
    assert("message_id"@.len() == 10);
    assert("message_id"@ != "response"@);
    assert(jlookup(ms, "response"@) == Some(JsonV::Str("MessageSent"@)));
    assert(resp_from_json(JsonV::Obj(ms)) == resp_dispatch("MessageSent"@, ms));
    assert(resp_dispatch("MessageSent"@, ms) == resp_message_sent_from(ms));
    assert(jlookup(ms, "message_id"@) == Some(m2.1));
    assert(sget_u32(ms, "message_id"@) == Ok::<u32, DecodeError>(message_id));
    assert(resp_message_sent_from(ms) == Ok::<ResponseV, DecodeError>(v));
    reveal_with_fuel(jdepth_fields, 10);
    assert(jdepth(m1.1) == 0);
    assert(jdepth(m2.1) == 0);
    assert(jdepth_fields(seq![m2]) <= 5);
    assert(jdepth_fields(seq![m1, m2]) <= 5);
    assert(jdepth(JsonV::Obj(ms)) <= 6);
}

proof fn lemma_resp_info_rt(tox_id: Seq<char>, name: Seq<char>, status: UserStatus, status_message: Seq<char>, friends: Seq<FriendV>)
    ensures
        resp_from_json(resp_to_json((ResponseV::Info { tox_id, name, status, status_message, friends }))) == Ok::<ResponseV, DecodeError>((ResponseV::Info { tox_id, name, status, status_message, friends })),
        jdepth(resp_to_json((ResponseV::Info { tox_id, name, status, status_message, friends }))) <= 6,
{
    reveal_with_fuel(jlookup, 10);
    let v = (ResponseV::Info { tox_id, name, status, status_message, friends });
    let m1 = ("response"@, JsonV::Str("Info"@));
    let m2 = ("tox_id"@, JsonV::Str(tox_id));
    let m3 = ("name"@, JsonV::Str(name));
    let m4 = ("status"@, JsonV::Str(user_status_str(status)));
    let m5 = ("status_message"@, JsonV::Str(status_message));
    let m6 = ("friends"@, JsonV::Arr(friends_arr(friends)));
    let ms = seq![m1, m2, m3, m4, m5, m6];
    assert(resp_to_json(v) == JsonV::Obj(ms));
    assert(ms.drop_first() =~= seq![m2, m3, m4, m5, m6]);
    assert(seq![m2, m3, m4, m5, m6].drop_first() =~= seq![m3, m4, m5, m6]);
    assert(seq![m3, m4, m5, m6].drop_first() =~= seq![m4, m5, m6]);
    assert(seq![m4, m5, m6].drop_first() =~= seq![m5, m6]);
    assert(seq![m5, m6].drop_first() =~= seq![m6]);
    assert(seq![m6].drop_first() =~= Seq::<(Seq<char>, JsonV)>::empty());
    reveal_strlit("response");
    assert("response"@.len() == 8);
    reveal_strlit("Info");
    assert("Info"@.len() == 4);
    reveal_strlit("Ok");
    assert("Ok"@.len() == 2);
    assert("Info"@ != "Ok"@);
    reveal_strlit("MessageSent");
    assert("MessageSent"@.len() == 11);
    assert("Info"@ != "MessageSent"@);
    reveal_strlit("tox_id");
    assert("tox_id"@.len() == 6);
    assert("tox_id"@ != "response"@);
    reveal_strlit("name");
    assert("name"@.len() == 4);
    assert("name"@ != "response"@);
    assert("name"@ != "tox_id"@);
    reveal_strlit("status");
    assert("status"@.len() == 6);
    assert("status"@ != "response"@);
    assert("status"@[0] == 's');
    assert("tox_id"@[0] == 't');
    assert("status"@ != "tox_id"@);
    assert("status"@ != "name"@);
    reveal_strlit("status_message");
    assert("status_message"@.len() == 14);
    assert("status_message"@ != "response"@);
    assert("status_message"@ != "tox_id"@);
    assert("status_message"@ != "name"@);
    assert("status_message"@ != "status"@);
    reveal_strlit("friends");
    assert("friends"@.len() == 7);
    assert("friends"@ != "response"@);
    assert("friends"@ != "tox_id"@);
    assert("friends"@ != "name"@);
    assert("friends"@ != "status"@);
    assert("friends"@ != "status_message"@);
    assert(jlookup(ms, "response"@) == Some(JsonV::Str("Info"@)));
    assert(resp_from_json(JsonV::Obj(ms)) == resp_dispatch("Info"@, ms));
    assert(resp_dispatch("Info"@, ms) == resp_info_from(ms));
    assert(jlookup(ms, "tox_id"@) == Some(m2.1));
    assert(sget_str(ms, "tox_id"@) == Ok::<Seq<char>, DecodeError>(tox_id));
    assert(jlookup(ms, "name"@) == Some(m3.1));
    assert(sget_str(ms, "name"@) == Ok::<Seq<char>, DecodeError>(name));
    lemma_user_status_rt(status);
    assert(jlookup(ms, "status"@) == Some(m4.1));
    assert(sget_user_status(ms, "status"@) == Ok::<UserStatus, DecodeError>(status));
    assert(jlookup(ms, "status_message"@) == Some(m5.1));
    assert(sget_str(ms, "status_message"@) == Ok::<Seq<char>, DecodeError>(status_message));
    lemma_friends_arr_rt(friends);
    assert(jlookup(ms, "friends"@) == Some(m6.1));
    assert(sget_friends(ms, "friends"@) == Ok::<Seq<FriendV>, DecodeError>(friends));
    assert(resp_info_from(ms) == Ok::<ResponseV, DecodeError>(v));
    reveal_with_fuel(jdepth_fields, 10);
    assert(jdepth(m1.1) == 0);
    assert(jdepth(m2.1) == 0);
    assert(jdepth(m3.1) == 0);
    assert(jdepth(m4.1) == 0);
    assert(jdepth(m5.1) == 0);
    lemma_friends_arr_depth(friends);
    assert(jdepth(m6.1) <= 2);
    assert(jdepth_fields(seq![m6]) <= 5);
    assert(jdepth_fields(seq![m5, m6]) <= 5);
    assert(jdepth_fields(seq![m4, m5, m6]) <= 5);
    assert(jdepth_fields(seq![m3, m4, m5, m6]) <= 5);
    assert(jdepth_fields(seq![m2, m3, m4, m5, m6]) <= 5);
    assert(jdepth_fields(seq![m1, m2, m3, m4, m5, m6]) <= 5);
    assert(jdepth(JsonV::Obj(ms)) <= 6);
}

proof fn lemma_resp_connection_status_rt(status: ConnectionStatus)
    ensures
        resp_from_json(resp_to_json((ResponseV::ConnectionStatus { status }))) == Ok::<ResponseV, DecodeError>((ResponseV::ConnectionStatus { status })),
        jdepth(resp_to_json((ResponseV::ConnectionStatus { status }))) <= 6,
{
    reveal_with_fuel(jlookup, 10);
    let v = (ResponseV::ConnectionStatus { status });
    let m1 = ("response"@, JsonV::Str("ConnectionStatus"@));
    let m2 = ("status"@, JsonV::Str(connection_status_str(status)));
    let ms = seq![m1, m2];
    assert(resp_to_json(v) == JsonV::Obj(ms));
    assert(ms.drop_first() =~= seq![m2]);
    assert(seq![m2].drop_first() =~= Seq::<(Seq<char>, JsonV)>::empty());
    reveal_strlit("response");
    assert("response"@.len() == 8);
    reveal_strlit("ConnectionStatus");
    assert("ConnectionStatus"@.len() == 16);
    reveal_strlit("Ok");
    assert("Ok"@.len() == 2);
    assert("ConnectionStatus"@ != "Ok"@);
    reveal_strlit("MessageSent");
    assert("MessageSent"@.len() == 11);
    assert("ConnectionStatus"@ != "MessageSent"@);
    reveal_strlit("Info");
    assert("Info"@.len() == 4);
    assert("ConnectionStatus"@ != "Info"@);
    reveal_strlit("status");
    assert("status"@.len() == 6);
    assert("status"@ != "response"@);
    assert(jlookup(ms, "response"@) == Some(JsonV::Str("ConnectionStatus"@)));
    assert(resp_from_json(JsonV::Obj(ms)) == resp_dispatch("ConnectionStatus"@, ms));
    assert(resp_dispatch("ConnectionStatus"@, ms) == resp_connection_status_from(ms));
    lemma_connection_status_rt(status);
    assert(jlookup(ms, "status"@) == Some(m2.1));
    assert(sget_connection_status(ms, "status"@) == Ok::<ConnectionStatus, DecodeError>(status));
    assert(resp_connection_status_from(ms) == Ok::<ResponseV, DecodeError>(v));
    reveal_with_fuel(jdepth_fields, 10);
    assert(jdepth(m1.1) == 0);
    assert(jdepth(m2.1) == 0);
    assert(jdepth_fields(seq![m2]) <= 5);
    assert(jdepth_fields(seq![m1, m2]) <= 5);
    assert(jdepth(JsonV::Obj(ms)) <= 6);
}

proof fn lemma_resp_address_rt(address: Seq<char>)
    ensures
        resp_from_json(resp_to_json((ResponseV::Address { address }))) == Ok::<ResponseV, DecodeError>((ResponseV::Address { address })),
        jdepth(resp_to_json((ResponseV::Address { address }))) <= 6,
{
    reveal_with_fuel(jlookup, 10);
    let v = (ResponseV::Address { address });
    let m1 = ("response"@, JsonV::Str("Address"@));
    let m2 = ("address"@, JsonV::Str(address));
    let ms = seq![m1, m2];
    assert(resp_to_json(v) == JsonV::Obj(ms));
    assert(ms.drop_first() =~= seq![m2]);
    assert(seq![m2].drop_first() =~= Seq::<(Seq<char>, JsonV)>::empty());
    reveal_strlit("response");
    assert("response"@.len() == 8);
    reveal_strlit("Address");
    assert("Address"@.len() == 7);
    reveal_strlit("Ok");
    assert("Ok"@.len() == 2);
    assert("Address"@ != "Ok"@);
    reveal_strlit("MessageSent");
    assert("MessageSent"@.len() == 11);
    assert("Address"@ != "MessageSent"@);
    reveal_strlit("Info");
    assert("Info"@.len() == 4);
    assert("Address"@ != "Info"@);
    reveal_strlit("ConnectionStatus");
    assert("ConnectionStatus"@.len() == 16);
    assert("Address"@ != "ConnectionStatus"@);
    reveal_strlit("address");
    assert("address"@.len() == 7);
    assert("address"@ != "response"@);
    assert(jlookup(ms, "response"@) == Some(JsonV::Str("Address"@)));
    assert(resp_from_json(JsonV::Obj(ms)) == resp_dispatch("Address"@, ms));
    assert(resp_dispatch("Address"@, ms) == resp_address_from(ms));
    assert(jlookup(ms, "address"@) == Some(m2.1));
    assert(sget_str(ms, "address"@) == Ok::<Seq<char>, DecodeError>(address));
    assert(resp_address_from(ms) == Ok::<ResponseV, DecodeError>(v));
    reveal_with_fuel(jdepth_fields, 10);
    assert(jdepth(m1.1) == 0);
    assert(jdepth(m2.1) == 0);
    assert(jdepth_fields(seq![m2]) <= 5);
    assert(jdepth_fields(seq![m1, m2]) <= 5);
    assert(jdepth(JsonV::Obj(ms)) <= 6);
}

proof fn lemma_resp_nospam_rt(nospam: Seq<char>)
    ensures
        resp_from_json(resp_to_json((ResponseV::Nospam { nospam }))) == Ok::<ResponseV, DecodeError>((ResponseV::Nospam { nospam })),
        jdepth(resp_to_json((ResponseV::Nospam { nospam }))) <= 6,
{
    reveal_with_fuel(jlookup, 10);
    let v = (ResponseV::Nospam { nospam });
    let m1 = ("response"@, JsonV::Str("Nospam"@));
    let m2 = ("nospam"@, JsonV::Str(nospam));
    let ms = seq![m1, m2];
    assert(resp_to_json(v) == JsonV::Obj(ms));
    assert(ms.drop_first() =~= seq![m2]);
    assert(seq![m2].drop_first() =~= Seq::<(Seq<char>, JsonV)>::empty());
    reveal_strlit("response");
    assert("response"@.len() == 8);
    reveal_strlit("Nospam");
    assert("Nospam"@.len() == 6);
    reveal_strlit("Ok");
    assert("Ok"@.len() == 2);
    assert("Nospam"@ != "Ok"@);
    reveal_strlit("MessageSent");
    assert("MessageSent"@.len() == 11);
    assert("Nospam"@ != "MessageSent"@);
    reveal_strlit("Info");
    assert("Info"@.len() == 4);
    assert("Nospam"@ != "Info"@);
    reveal_strlit("ConnectionStatus");
    assert("ConnectionStatus"@.len() == 16);
    assert("Nospam"@ != "ConnectionStatus"@);
    reveal_strlit("Address");
    assert("Address"@.len() == 7);
    assert("Nospam"@ != "Address"@);
    reveal_strlit("nospam");
    assert("nospam"@.len() == 6);
    assert("nospam"@ != "response"@);
    assert(jlookup(ms, "response"@) == Some(JsonV::Str("Nospam"@)));
    assert(resp_from_json(JsonV::Obj(ms)) == resp_dispatch("Nospam"@, ms));
    assert(resp_dispatch("Nospam"@, ms) == resp_nospam_from(ms));
    assert(jlookup(ms, "nospam"@) == Some(m2.1));
    assert(sget_str(ms, "nospam"@) == Ok::<Seq<char>, DecodeError>(nospam));
    assert(resp_nospam_from(ms) == Ok::<ResponseV, DecodeError>(v));
    reveal_with_fuel(jdepth_fields, 10);
    assert(jdepth(m1.1) == 0);
    assert(jdepth(m2.1) == 0);
    assert(jdepth_fields(seq![m2]) <= 5);
    assert(jdepth_fields(seq![m1, m2]) <= 5);
    assert(jdepth(JsonV::Obj(ms)) <= 6);
}

proof fn lemma_resp_public_key_rt(public_key: Seq<char>)
    ensures
        resp_from_json(resp_to_json((ResponseV::PublicKey { public_key }))) == Ok::<ResponseV, DecodeError>((ResponseV::PublicKey { public_key })),
        jdepth(resp_to_json((ResponseV::PublicKey { public_key }))) <= 6,
{
    reveal_with_fuel(jlookup, 10);
    let v = (ResponseV::PublicKey { public_key });
    let m1 = ("response"@, JsonV::Str("PublicKey"@));
    let m2 = ("public_key"@, JsonV::Str(public_key));
    let ms = seq![m1, m2];
    assert(resp_to_json(v) == JsonV::Obj(ms));
    assert(ms.drop_first() =~= seq![m2]);
    assert(seq![m2].drop_first() =~= Seq::<(Seq<char>, JsonV)>::empty());
    reveal_strlit("response");
    assert("response"@.len() == 8);
    reveal_strlit("PublicKey");
    assert("PublicKey"@.len() == 9);
    reveal_strlit("Ok");
    assert("Ok"@.len() == 2);
    assert("PublicKey"@ != "Ok"@);
    reveal_strlit("MessageSent");
    assert("MessageSent"@.len() == 11);
    assert("PublicKey"@ != "MessageSent"@);
    reveal_strlit("Info");
    assert("Info"@.len() == 4);
    assert("PublicKey"@ != "Info"@);
    reveal_strlit("ConnectionStatus");
    assert("ConnectionStatus"@.len() == 16);
    assert("PublicKey"@ != "ConnectionStatus"@);
    reveal_strlit("Address");
    assert("Address"@.len() == 7);
    assert("PublicKey"@ != "Address"@);
    reveal_strlit("Nospam");
    assert("Nospam"@.len() == 6);
    assert("PublicKey"@ != "Nospam"@);
    reveal_strlit("public_key");
    assert("public_key"@.len() == 10);
    assert("public_key"@ != "response"@);
    assert(jlookup(ms, "response"@) == Some(JsonV::Str("PublicKey"@)));
    assert(resp_from_json(JsonV::Obj(ms)) == resp_dispatch("PublicKey"@, ms));
    assert(resp_dispatch("PublicKey"@, ms) == resp_public_key_from(ms));
    assert(jlookup(ms, "public_key"@) == Some(m2.1));
    assert(sget_str(ms, "public_key"@) == Ok::<Seq<char>, DecodeError>(public_key));
    assert(resp_public_key_from(ms) == Ok::<ResponseV, DecodeError>(v));
    reveal_with_fuel(jdepth_fields, 10);
    assert(jdepth(m1.1) == 0);
    assert(jdepth(m2.1) == 0);
    assert(jdepth_fields(seq![m2]) <= 5);
    assert(jdepth_fields(seq![m1, m2]) <= 5);
    assert(jdepth(JsonV::Obj(ms)) <= 6);
}

proof fn lemma_resp_name_rt(name: Seq<char>)
    ensures
        resp_from_json(resp_to_json((ResponseV::Name { name }))) == Ok::<ResponseV, DecodeError>((ResponseV::Name { name })),
        jdepth(resp_to_json((ResponseV::Name { name }))) <= 6,
{
    reveal_with_fuel(jlookup, 10);
    let v = (ResponseV::Name { name });
    let m1 = ("response"@, JsonV::Str("Name"@));
    let m2 = ("name"@, JsonV::Str(name));
    let ms = seq![m1, m2];
    assert(resp_to_json(v) == JsonV::Obj(ms));
    assert(ms.drop_first() =~= seq![m2]);
    assert(seq![m2].drop_first() =~= Seq::<(Seq<char>, JsonV)>::empty());
    reveal_strlit("response");
    assert("response"@.len() == 8);
    reveal_strlit("Name");
    assert("Name"@.len() == 4);
    reveal_strlit("Ok");
    assert("Ok"@.len() == 2);
    assert("Name"@ != "Ok"@);
    reveal_strlit("MessageSent");
    assert("MessageSent"@.len() == 11);
    assert("Name"@ != "MessageSent"@);
    reveal_strlit("Info");
    assert("Info"@.len() == 4);
    assert("Name"@[0] == 'N');
    assert("Info"@[0] == 'I');
    assert("Name"@ != "Info"@);
    reveal_strlit("ConnectionStatus");
    assert("ConnectionStatus"@.len() == 16);
    assert("Name"@ != "ConnectionStatus"@);
    reveal_strlit("Address");
    assert("Address"@.len() == 7);
    assert("Name"@ != "Address"@);
    reveal_strlit("Nospam");
    assert("Nospam"@.len() == 6);
    assert("Name"@ != "Nospam"@);
    reveal_strlit("PublicKey");
    assert("PublicKey"@.len() == 9);
    assert("Name"@ != "PublicKey"@);
    reveal_strlit("name");
    assert("name"@.len() == 4);
    assert("name"@ != "response"@);
    assert(jlookup(ms, "response"@) == Some(JsonV::Str("Name"@)));
    assert(resp_from_json(JsonV::Obj(ms)) == resp_dispatch("Name"@, ms));
    assert(resp_dispatch("Name"@, ms) == resp_name_from(ms));
    assert(jlookup(ms, "name"@) == Some(m2.1));
    assert(sget_str(ms, "name"@) == Ok::<Seq<char>, DecodeError>(name));
    assert(resp_name_from(ms) == Ok::<ResponseV, DecodeError>(v));
    reveal_with_fuel(jdepth_fields, 10);
    assert(jdepth(m1.1) == 0);
    assert(jdepth(m2.1) == 0);
    assert(jdepth_fields(seq![m2]) <= 5);
    assert(jdepth_fields(seq![m1, m2]) <= 5);
    assert(jdepth(JsonV::Obj(ms)) <= 6);
}

proof fn lemma_resp_status_message_rt(status: Seq<char>)
    ensures
        resp_from_json(resp_to_json((ResponseV::StatusMessage { status }))) == Ok::<ResponseV, DecodeError>((ResponseV::StatusMessage { status })),
        jdepth(resp_to_json((ResponseV::StatusMessage { status }))) <= 6,
{
    reveal_with_fuel(jlookup, 10);
    let v = (ResponseV::StatusMessage { status });
    let m1 = ("response"@, JsonV::Str("StatusMessage"@));
    let m2 = ("status"@, JsonV::Str(status));
    let ms = seq![m1, m2];
    assert(resp_to_json(v) == JsonV::Obj(ms));
    assert(ms.drop_first() =~= seq![m2]);
    assert(seq![m2].drop_first() =~= Seq::<(Seq<char>, JsonV)>::empty());
    reveal_strlit("response");
    assert("response"@.len() == 8);
    reveal_strlit("StatusMessage");
    assert("StatusMessage"@.len() == 13);
    reveal_strlit("Ok");
    assert("Ok"@.len() == 2);
    assert("StatusMessage"@ != "Ok"@);
    reveal_strlit("MessageSent");
    assert("MessageSent"@.len() == 11);
    assert("StatusMessage"@ != "MessageSent"@);
    reveal_strlit("Info");
    assert("Info"@.len() == 4);
    assert("StatusMessage"@ != "Info"@);
    reveal_strlit("ConnectionStatus");
    assert("ConnectionStatus"@.len() == 16);
    assert("StatusMessage"@ != "ConnectionStatus"@);
    reveal_strlit("Address");
    assert("Address"@.len() == 7);
    assert("StatusMessage"@ != "Address"@);
    reveal_strlit("Nospam");
    assert("Nospam"@.len() == 6);
    assert("StatusMessage"@ != "Nospam"@);
    reveal_strlit("PublicKey");
    assert("PublicKey"@.len() == 9);
    assert("StatusMessage"@ != "PublicKey"@);
    reveal_strlit("Name");
    assert("Name"@.len() == 4);
    assert("StatusMessage"@ != "Name"@);
    reveal_strlit("status");
    assert("status"@.len() == 6);
    assert("status"@ != "response"@);
    assert(jlookup(ms, "response"@) == Some(JsonV::Str("StatusMessage"@)));
    assert(resp_from_json(JsonV::Obj(ms)) == resp_dispatch("StatusMessage"@, ms));
    assert(resp_dispatch("StatusMessage"@, ms) == resp_status_message_from(ms));
    assert(jlookup(ms, "status"@) == Some(m2.1));
    assert(sget_str(ms, "status"@) == Ok::<Seq<char>, DecodeError>(status));
    assert(resp_status_message_from(ms) == Ok::<ResponseV, DecodeError>(v));
    reveal_with_fuel(jdepth_fields, 10);
    assert(jdepth(m1.1) == 0);
    assert(jdepth(m2.1) == 0);
    assert(jdepth_fields(seq![m2]) <= 5);
    assert(jdepth_fields(seq![m1, m2]) <= 5);
    assert(jdepth(JsonV::Obj(ms)) <= 6);
}

proof fn lemma_resp_status_rt(status: UserStatus)
    ensures
        resp_from_json(resp_to_json((ResponseV::Status { status }))) == Ok::<ResponseV, DecodeError>((ResponseV::Status { status })),
        jdepth(resp_to_json((ResponseV::Status { status }))) <= 6,
{
    reveal_with_fuel(jlookup, 10);
    let v = (ResponseV::Status { status });
    let m1 = ("response"@, JsonV::Str("Status"@));
    let m2 = ("status"@, JsonV::Str(user_status_str(status)));
    let ms = seq![m1, m2];
    assert(resp_to_json(v) == JsonV::Obj(ms));
    assert(ms.drop_first() =~= seq![m2]);
    assert(seq![m2].drop_first() =~= Seq::<(Seq<char>, JsonV)>::empty());
    reveal_strlit("response");
    assert("response"@.len() == 8);
    reveal_strlit("Status");
    assert("Status"@.len() == 6);
    reveal_strlit("Ok");
    assert("Ok"@.len() == 2);
    assert("Status"@ != "Ok"@);
    reveal_strlit("MessageSent");
    assert("MessageSent"@.len() == 11);
    assert("Status"@ != "MessageSent"@);
    reveal_strlit("Info");
    assert("Info"@.len() == 4);
    assert("Status"@ != "Info"@);
    reveal_strlit("ConnectionStatus");
    assert("ConnectionStatus"@.len() == 16);
    assert("Status"@ != "ConnectionStatus"@);
    reveal_strlit("Address");
    assert("Address"@.len() == 7);
    assert("Status"@ != "Address"@);
    reveal_strlit("Nospam");
    assert("Nospam"@.len() == 6);
    assert("Status"@[0] == 'S');
    assert("Nospam"@[0] == 'N');
    assert("Status"@ != "Nospam"@);
    reveal_strlit("PublicKey");
    assert("PublicKey"@.len() == 9);
    assert("Status"@ != "PublicKey"@);
    reveal_strlit("Name");
    assert("Name"@.len() == 4);
    assert("Status"@ != "Name"@);
    reveal_strlit("StatusMessage");
    assert("StatusMessage"@.len() == 13);
    assert("Status"@ != "StatusMessage"@);
    reveal_strlit("status");
    assert("status"@.len() == 6);
    assert("status"@ != "response"@);
    assert(jlookup(ms, "response"@) == Some(JsonV::Str("Status"@)));
    assert(resp_from_json(JsonV::Obj(ms)) == resp_dispatch("Status"@, ms));
    assert(resp_dispatch("Status"@, ms) == resp_status_from(ms));
    lemma_user_status_rt(status);
    assert(jlookup(ms, "status"@) == Some(m2.1));
    assert(sget_user_status(ms, "status"@) == Ok::<UserStatus, DecodeError>(status));
    assert(resp_status_from(ms) == Ok::<ResponseV, DecodeError>(v));
    reveal_with_fuel(jdepth_fields, 10);
    assert(jdepth(m1.1) == 0);
    assert(jdepth(m2.1) == 0);
    assert(jdepth_fields(seq![m2]) <= 5);
    assert(jdepth_fields(seq![m1, m2]) <= 5);
    assert(jdepth(JsonV::Obj(ms)) <= 6);
}

proof fn lemma_resp_friend_rt(friend: u32)
    ensures
        resp_from_json(resp_to_json((ResponseV::Friend { friend }))) == Ok::<ResponseV, DecodeError>((ResponseV::Friend { friend })),
        jdepth(resp_to_json((ResponseV::Friend { friend }))) <= 6,
{
    reveal_with_fuel(jlookup, 10);
    let v = (ResponseV::Friend { friend });
    let m1 = ("response"@, JsonV::Str("Friend"@));
    let m2 = ("friend"@, JsonV::UInt(friend as u64));
    let ms = seq![m1, m2];
    assert(resp_to_json(v) == JsonV::Obj(ms));
    assert(ms.drop_first() =~= seq![m2]);
    assert(seq![m2].drop_first() =~= Seq::<(Seq<char>, JsonV)>::empty());
    reveal_strlit("response");
    assert("response"@.len() == 8);
    reveal_strlit("Friend");
    assert("Friend"@.len() == 6);
    reveal_strlit("Ok");
    assert("Ok"@.len() == 2);
    assert("Friend"@ != "Ok"@);
    reveal_strlit("MessageSent");
    assert("MessageSent"@.len() == 11);
    assert("Friend"@ != "MessageSent"@);
    reveal_strlit("Info");
    assert("Info"@.len() == 4);
    assert("Friend"@ != "Info"@);
    reveal_strlit("ConnectionStatus");
    assert("ConnectionStatus"@.len() == 16);
    assert("Friend"@ != "ConnectionStatus"@);
    reveal_strlit("Address");
    assert("Address"@.len() == 7);
    assert("Friend"@ != "Address"@);
    reveal_strlit("Nospam");
    assert("Nospam"@.len() == 6);
    assert("Friend"@[0] == 'F');
    assert("Nospam"@[0] == 'N');
    assert("Friend"@ != "Nospam"@);
    reveal_strlit("PublicKey");
    assert("PublicKey"@.len() == 9);
    assert("Friend"@ != "PublicKey"@);
    reveal_strlit("Name");
    assert("Name"@.len() == 4);
    assert("Friend"@ != "Name"@);
    reveal_strlit("StatusMessage");
    assert("StatusMessage"@.len() == 13);
    assert("Friend"@ != "StatusMessage"@);
    reveal_strlit("Status");
    assert("Status"@.len() == 6);
    assert("Friend"@[0] == 'F');
    assert("Status"@[0] == 'S');
    assert("Friend"@ != "Status"@);
    reveal_strlit("friend");
    assert("friend"@.len() == 6);
    assert("friend"@ != "response"@);
    assert(jlookup(ms, "response"@) == Some(JsonV::Str("Friend"@)));
    assert(resp_from_json(JsonV::Obj(ms)) == resp_dispatch("Friend"@, ms));
    assert(resp_dispatch("Friend"@, ms) == resp_friend_from(ms));
    assert(jlookup(ms, "friend"@) == Some(m2.1));
    assert(sget_u32(ms, "friend"@) == Ok::<u32, DecodeError>(friend));
    assert(resp_friend_from(ms) == Ok::<ResponseV, DecodeError>(v));
    reveal_with_fuel(jdepth_fields, 10);
    assert(jdepth(m1.1) == 0);
    assert(jdepth(m2.1) == 0);
    assert(jdepth_fields(seq![m2]) <= 5);
    assert(jdepth_fields(seq![m1, m2]) <= 5);
    assert(jdepth(JsonV::Obj(ms)) <= 6);
}

proof fn lemma_resp_friend_exists_rt(exists: bool)
    ensures
        resp_from_json(resp_to_json((ResponseV::FriendExists { exists }))) == Ok::<ResponseV, DecodeError>((ResponseV::FriendExists { exists })),
        jdepth(resp_to_json((ResponseV::FriendExists { exists }))) <= 6,
{
    reveal_with_fuel(jlookup, 10);
    let v = (ResponseV::FriendExists { exists });
    let m1 = ("response"@, JsonV::Str("FriendExists"@));
    let m2 = ("exists"@, JsonV::Bool(exists));
    let ms = seq![m1, m2];
    assert(resp_to_json(v) == JsonV::Obj(ms));
    assert(ms.drop_first() =~= seq![m2]);
    assert(seq![m2].drop_first() =~= Seq::<(Seq<char>, JsonV)>::empty());
    reveal_strlit("response");
    assert("response"@.len() == 8);
    reveal_strlit("FriendExists");
    assert("FriendExists"@.len() == 12);
    reveal_strlit("Ok");
    assert("Ok"@.len() == 2);
    assert("FriendExists"@ != "Ok"@);
    reveal_strlit("MessageSent");
    assert("MessageSent"@.len() == 11);
    assert("FriendExists"@ != "MessageSent"@);
    reveal_strlit("Info");
    assert("Info"@.len() == 4);
    assert("FriendExists"@ != "Info"@);
    reveal_strlit("ConnectionStatus");
    assert("ConnectionStatus"@.len() == 16);
    assert("FriendExists"@ != "ConnectionStatus"@);
    reveal_strlit("Address");
    assert("Address"@.len() == 7);
    assert("FriendExists"@ != "Address"@);
    reveal_strlit("Nospam");
    assert("Nospam"@.len() == 6);
    assert("FriendExists"@ != "Nospam"@);
    reveal_strlit("PublicKey");
    assert("PublicKey"@.len() == 9);
    assert("FriendExists"@ != "PublicKey"@);
    reveal_strlit("Name");
    assert("Name"@.len() == 4);
    assert("FriendExists"@ != "Name"@);
    reveal_strlit("StatusMessage");
    assert("StatusMessage"@.len() == 13);
    assert("FriendExists"@ != "StatusMessage"@);
    reveal_strlit("Status");
    assert("Status"@.len() == 6);
    assert("FriendExists"@ != "Status"@);
    reveal_strlit("Friend");
    assert("Friend"@.len() == 6);
    assert("FriendExists"@ != "Friend"@);
    reveal_strlit("exists");
    assert("exists"@.len() == 6);
    assert("exists"@ != "response"@);
    assert(jlookup(ms, "response"@) == Some(JsonV::Str("FriendExists"@)));
    assert(resp_from_json(JsonV::Obj(ms)) == resp_dispatch("FriendExists"@, ms));
    assert(resp_dispatch("FriendExists"@, ms) == resp_friend_exists_from(ms));
    assert(jlookup(ms, "exists"@) == Some(m2.1));
    assert(sget_bool(ms, "exists"@) == Ok::<bool, DecodeError>(exists));
    assert(resp_friend_exists_from(ms) == Ok::<ResponseV, DecodeError>(v));
    reveal_with_fuel(jdepth_fields, 10);
    assert(jdepth(m1.1) == 0);
    assert(jdepth(m2.1) == 0);
    assert(jdepth_fields(seq![m2]) <= 5);
    assert(jdepth_fields(seq![m1, m2]) <= 5);
    assert(jdepth(JsonV::Obj(ms)) <= 6);
}

proof fn lemma_resp_last_online_rt(last_online: u64)
    ensures
        resp_from_json(resp_to_json((ResponseV::LastOnline { last_online }))) == Ok::<ResponseV, DecodeError>((ResponseV::LastOnline { last_online })),
        jdepth(resp_to_json((ResponseV::LastOnline { last_online }))) <= 6,
{
    reveal_with_fuel(jlookup, 10);
    let v = (ResponseV::LastOnline { last_online });
    let m1 = ("response"@, JsonV::Str("LastOnline"@));
    let m2 = ("last_online"@, JsonV::UInt(last_online));
    let ms = seq![m1, m2];
    assert(resp_to_json(v) == JsonV::Obj(ms));
    assert(ms.drop_first() =~= seq![m2]);
    assert(seq![m2].drop_first() =~= Seq::<(Seq<char>, JsonV)>::empty());
    reveal_strlit("response");
    assert("response"@.len() == 8);
    reveal_strlit("LastOnline");
    assert("LastOnline"@.len() == 10);
    reveal_strlit("Ok");
    assert("Ok"@.len() == 2);
    assert("LastOnline"@ != "Ok"@);
    reveal_strlit("MessageSent");
    assert("MessageSent"@.len() == 11);
    assert("LastOnline"@ != "MessageSent"@);
    reveal_strlit("Info");
    assert("Info"@.len() == 4);
    assert("LastOnline"@ != "Info"@);
    reveal_strlit("ConnectionStatus");
    assert("ConnectionStatus"@.len() == 16);
    assert("LastOnline"@ != "ConnectionStatus"@);
    reveal_strlit("Address");
    assert("Address"@.len() == 7);
    assert("LastOnline"@ != "Address"@);
    reveal_strlit("Nospam");
    assert("Nospam"@.len() == 6);
    assert("LastOnline"@ != "Nospam"@);
    reveal_strlit("PublicKey");
    assert("PublicKey"@.len() == 9);
    assert("LastOnline"@ != "PublicKey"@);
    reveal_strlit("Name");
    assert("Name"@.len() == 4);
    assert("LastOnline"@ != "Name"@);
    reveal_strlit("StatusMessage");
    assert("StatusMessage"@.len() == 13);
    assert("LastOnline"@ != "StatusMessage"@);
    reveal_strlit("Status");
    assert("Status"@.len() == 6);
    assert("LastOnline"@ != "Status"@);
    reveal_strlit("Friend");
    assert("Friend"@.len() == 6);
    assert("LastOnline"@ != "Friend"@);
    reveal_strlit("FriendExists");
    assert("FriendExists"@.len() == 12);
    assert("LastOnline"@ != "FriendExists"@);
    reveal_strlit("last_online");
    assert("last_online"@.len() == 11);
    assert("last_online"@ != "response"@);
    assert(jlookup(ms, "response"@) == Some(JsonV::Str("LastOnline"@)));
    assert(resp_from_json(JsonV::Obj(ms)) == resp_dispatch("LastOnline"@, ms));
    assert(resp_dispatch("LastOnline"@, ms) == resp_dispatch2("LastOnline"@, ms));
    assert(resp_dispatch2("LastOnline"@, ms) == resp_last_online_from(ms));
    assert(jlookup(ms, "last_online"@) == Some(m2.1));
    assert(sget_u64(ms, "last_online"@) == Ok::<u64, DecodeError>(last_online));
    assert(resp_last_online_from(ms) == Ok::<ResponseV, DecodeError>(v));
    reveal_with_fuel(jdepth_fields, 10);
    assert(jdepth(m1.1) == 0);
    assert(jdepth(m2.1) == 0);
    assert(jdepth_fields(seq![m2]) <= 5);
    assert(jdepth_fields(seq![m1, m2]) <= 5);
    assert(jdepth(JsonV::Obj(ms)) <= 6);
}

proof fn lemma_resp_file_id_rt(id: Seq<char>)
    ensures
        resp_from_json(resp_to_json((ResponseV::FileId { id }))) == Ok::<ResponseV, DecodeError>((ResponseV::FileId { id })),
        jdepth(resp_to_json((ResponseV::FileId { id }))) <= 6,
{
    reveal_with_fuel(jlookup, 10);
    let v = (ResponseV::FileId { id });
    let m1 = ("response"@, JsonV::Str("FileId"@));
    let m2 = ("id"@, JsonV::Str(id));
    let ms = seq![m1, m2];
    assert(resp_to_json(v) == JsonV::Obj(ms));
    assert(ms.drop_first() =~= seq![m2]);
    assert(seq![m2].drop_first() =~= Seq::<(Seq<char>, JsonV)>::empty());
    reveal_strlit("response");
    assert("response"@.len() == 8);
    reveal_strlit("FileId");
    assert("FileId"@.len() == 6);
    reveal_strlit("Ok");
    assert("Ok"@.len() == 2);
    assert("FileId"@ != "Ok"@);
    reveal_strlit("MessageSent");
    assert("MessageSent"@.len() == 11);
    assert("FileId"@ != "MessageSent"@);
    reveal_strlit("Info");
    assert("Info"@.len() == 4);
    assert("FileId"@ != "Info"@);
    reveal_strlit("ConnectionStatus");
    assert("ConnectionStatus"@.len() == 16);
    assert("FileId"@ != "ConnectionStatus"@);
    reveal_strlit("Address");
    assert("Address"@.len() == 7);
    assert("FileId"@ != "Address"@);
    reveal_strlit("Nospam");
    assert("Nospam"@.len() == 6);
    assert("FileId"@[0] == 'F');
    assert("Nospam"@[0] == 'N');
    assert("FileId"@ != "Nospam"@);
    reveal_strlit("PublicKey");
    assert("PublicKey"@.len() == 9);
    assert("FileId"@ != "PublicKey"@);
    reveal_strlit("Name");
    assert("Name"@.len() == 4);
    assert("FileId"@ != "Name"@);
    reveal_strlit("StatusMessage");
    assert("StatusMessage"@.len() == 13);
    assert("FileId"@ != "StatusMessage"@);
    reveal_strlit("Status");
    assert("Status"@.len() == 6);
    assert("FileId"@[0] == 'F');
    assert("Status"@[0] == 'S');
    assert("FileId"@ != "Status"@);
    reveal_strlit("Friend");
    assert("Friend"@.len() == 6);
    assert("FileId"@[1] == 'i');
    assert("Friend"@[1] == 'r');
    assert("FileId"@ != "Friend"@);
    reveal_strlit("FriendExists");
    assert("FriendExists"@.len() == 12);
    assert("FileId"@ != "FriendExists"@);
    reveal_strlit("LastOnline");
    assert("LastOnline"@.len() == 10);
    assert("FileId"@ != "LastOnline"@);
    reveal_strlit("id");
    assert("id"@.len() == 2);
    assert("id"@ != "response"@);
    assert(jlookup(ms, "response"@) == Some(JsonV::Str("FileId"@)));
    assert(resp_from_json(JsonV::Obj(ms)) == resp_dispatch("FileId"@, ms));
    assert(resp_dispatch("FileId"@, ms) == resp_dispatch2("FileId"@, ms));
    assert(resp_dispatch2("FileId"@, ms) == resp_file_id_from(ms));
    assert(jlookup(ms, "id"@) == Some(m2.1));
    assert(sget_str(ms, "id"@) == Ok::<Seq<char>, DecodeError>(id));
    assert(resp_file_id_from(ms) == Ok::<ResponseV, DecodeError>(v));
    reveal_with_fuel(jdepth_fields, 10);
    assert(jdepth(m1.1) == 0);
    assert(jdepth(m2.1) == 0);
    assert(jdepth_fields(seq![m2]) <= 5);
    assert(jdepth_fields(seq![m1, m2]) <= 5);
    assert(jdepth(JsonV::Obj(ms)) <= 6);
}

proof fn lemma_resp_file_number_rt(file_number: u32)
    ensures
        resp_from_json(resp_to_json((ResponseV::FileNumber { file_number }))) == Ok::<ResponseV, DecodeError>((ResponseV::FileNumber { file_number })),
        jdepth(resp_to_json((ResponseV::FileNumber { file_number }))) <= 6,
{
    reveal_with_fuel(jlookup, 10);
    let v = (ResponseV::FileNumber { file_number });
    let m1 = ("response"@, JsonV::Str("FileNumber"@));
    let m2 = ("file_number"@, JsonV::UInt(file_number as u64));
    let ms = seq![m1, m2];
    assert(resp_to_json(v) == JsonV::Obj(ms));
    assert(ms.drop_first() =~= seq![m2]);
    assert(seq![m2].drop_first() =~= Seq::<(Seq<char>, JsonV)>::empty());
    reveal_strlit("response");
    assert("response"@.len() == 8);
    reveal_strlit("FileNumber");
    assert("FileNumber"@.len() == 10);
    reveal_strlit("Ok");
    assert("Ok"@.len() == 2);
    assert("FileNumber"@ != "Ok"@);
    reveal_strlit("MessageSent");
    assert("MessageSent"@.len() == 11);
    assert("FileNumber"@ != "MessageSent"@);
    reveal_strlit("Info");
    assert("Info"@.len() == 4);
    assert("FileNumber"@ != "Info"@);
    reveal_strlit("ConnectionStatus");
    assert("ConnectionStatus"@.len() == 16);
    assert("FileNumber"@ != "ConnectionStatus"@);
    reveal_strlit("Address");
    assert("Address"@.len() == 7);
    assert("FileNumber"@ != "Address"@);
    reveal_strlit("Nospam");
    assert("Nospam"@.len() == 6);
    assert("FileNumber"@ != "Nospam"@);
    reveal_strlit("PublicKey");
    assert("PublicKey"@.len() == 9);
    assert("FileNumber"@ != "PublicKey"@);
    reveal_strlit("Name");
    assert("Name"@.len() == 4);
    assert("FileNumber"@ != "Name"@);
    reveal_strlit("StatusMessage");
    assert("StatusMessage"@.len() == 13);
    assert("FileNumber"@ != "StatusMessage"@);
    reveal_strlit("Status");
    assert("Status"@.len() == 6);
    assert("FileNumber"@ != "Status"@);
    reveal_strlit("Friend");
    assert("Friend"@.len() == 6);
    assert("FileNumber"@ != "Friend"@);
    reveal_strlit("FriendExists");
    assert("FriendExists"@.len() == 12);
    assert("FileNumber"@ != "FriendExists"@);
    reveal_strlit("LastOnline");
    assert("LastOnline"@.len() == 10);
    assert("FileNumber"@[0] == 'F');
    assert("LastOnline"@[0] == 'L');
    assert("FileNumber"@ != "LastOnline"@);
    reveal_strlit("FileId");
    assert("FileId"@.len() == 6);
    assert("FileNumber"@ != "FileId"@);
    reveal_strlit("file_number");
    assert("file_number"@.len() == 11);
    assert("file_number"@ != "response"@);
    assert(jlookup(ms, "response"@) == Some(JsonV::Str("FileNumber"@)));
    assert(resp_from_json(JsonV::Obj(ms)) == resp_dispatch("FileNumber"@, ms));
    assert(resp_dispatch("FileNumber"@, ms) == resp_dispatch2("FileNumber"@, ms));
    assert(resp_dispatch2("FileNumber"@, ms) == resp_file_number_from(ms));
    assert(jlookup(ms, "file_number"@) == Some(m2.1));
    assert(sget_u32(ms, "file_number"@) == Ok::<u32, DecodeError>(file_number));
    assert(resp_file_number_from(ms) == Ok::<ResponseV, DecodeError>(v));
    reveal_with_fuel(jdepth_fields, 10);
    assert(jdepth(m1.1) == 0);
    assert(jdepth(m2.1) == 0);
    assert(jdepth_fields(seq![m2]) <= 5);
    assert(jdepth_fields(seq![m1, m2]) <= 5);
    assert(jdepth(JsonV::Obj(ms)) <= 6);
}

proof fn lemma_resp_file_control_error_rt(error: FileControlError)
    ensures
        resp_from_json(resp_to_json((ResponseV::FileControlError { error }))) == Ok::<ResponseV, DecodeError>((ResponseV::FileControlError { error })),
        jdepth(resp_to_json((ResponseV::FileControlError { error }))) <= 6,
{
    reveal_with_fuel(jlookup, 10);
    let v = (ResponseV::FileControlError { error });
    let m1 = ("response"@, JsonV::Str("FileControlError"@));
    let m2 = ("error"@, JsonV::Str(file_control_error_str(error)));
    let ms = seq![m1, m2];
    assert(resp_to_json(v) == JsonV::Obj(ms));
    assert(ms.drop_first() =~= seq![m2]);
    assert(seq![m2].drop_first() =~= Seq::<(Seq<char>, JsonV)>::empty());
    reveal_strlit("response");
    assert("response"@.len() == 8);
    reveal_strlit("FileControlError");
    assert("FileControlError"@.len() == 16);
    reveal_strlit("Ok");
    assert("Ok"@.len() == 2);
    assert("FileControlError"@ != "Ok"@);
    reveal_strlit("MessageSent");
    assert("MessageSent"@.len() == 11);
    assert("FileControlError"@ != "MessageSent"@);
    reveal_strlit("Info");
    assert("Info"@.len() == 4);
    assert("FileControlError"@ != "Info"@);
    reveal_strlit("ConnectionStatus");
    assert("ConnectionStatus"@.len() == 16);
    assert("FileControlError"@[0] == 'F');
    assert("ConnectionStatus"@[0] == 'C');
    assert("FileControlError"@ != "ConnectionStatus"@);
    reveal_strlit("Address");
    assert("Address"@.len() == 7);
    assert("FileControlError"@ != "Address"@);
    reveal_strlit("Nospam");
    assert("Nospam"@.len() == 6);
    assert("FileControlError"@ != "Nospam"@);
    reveal_strlit("PublicKey");
    assert("PublicKey"@.len() == 9);
    assert("FileControlError"@ != "PublicKey"@);
    reveal_strlit("Name");
    assert("Name"@.len() == 4);
    assert("FileControlError"@ != "Name"@);
    reveal_strlit("StatusMessage");
    assert("StatusMessage"@.len() == 13);
    assert("FileControlError"@ != "StatusMessage"@);
    reveal_strlit("Status");
    assert("Status"@.len() == 6);
    assert("FileControlError"@ != "Status"@);
    reveal_strlit("Friend");
    assert("Friend"@.len() == 6);
    assert("FileControlError"@ != "Friend"@);
    reveal_strlit("FriendExists");
    assert("FriendExists"@.len() == 12);
    assert("FileControlError"@ != "FriendExists"@);
    reveal_strlit("LastOnline");
    assert("LastOnline"@.len() == 10);
    assert("FileControlError"@ != "LastOnline"@);
    reveal_strlit("FileId");
    assert("FileId"@.len() == 6);
    assert("FileControlError"@ != "FileId"@);
    reveal_strlit("FileNumber");
    assert("FileNumber"@.len() == 10);
    assert("FileControlError"@ != "FileNumber"@);
    reveal_strlit("error");
    assert("error"@.len() == 5);
    assert("error"@ != "response"@);
    assert(jlookup(ms, "response"@) == Some(JsonV::Str("FileControlError"@)));
    assert(resp_from_json(JsonV::Obj(ms)) == resp_dispatch("FileControlError"@, ms));
    assert(resp_dispatch("FileControlError"@, ms) == resp_dispatch2("FileControlError"@, ms));
    assert(resp_dispatch2("FileControlError"@, ms) == resp_file_control_error_from(ms));
    lemma_file_control_error_rt(error);
    assert(jlookup(ms, "error"@) == Some(m2.1));
    assert(sget_file_control_error(ms, "error"@) == Ok::<FileControlError, DecodeError>(error));
    assert(resp_file_control_error_from(ms) == Ok::<ResponseV, DecodeError>(v));
    reveal_with_fuel(jdepth_fields, 10);
    assert(jdepth(m1.1) == 0);
    assert(jdepth(m2.1) == 0);
    assert(jdepth_fields(seq![m2]) <= 5);
    assert(jdepth_fields(seq![m1, m2]) <= 5);
    assert(jdepth(JsonV::Obj(ms)) <= 6);
}

proof fn lemma_resp_file_seek_error_rt(error: FileSeekError)
    ensures
        resp_from_json(resp_to_json((ResponseV::FileSeekError { error }))) == Ok::<ResponseV, DecodeError>((ResponseV::FileSeekError { error })),
        jdepth(resp_to_json((ResponseV::FileSeekError { error }))) <= 6,
{
    reveal_with_fuel(jlookup, 10);
    let v = (ResponseV::FileSeekError { error });
    let m1 = ("response"@, JsonV::Str("FileSeekError"@));
    let m2 = ("error"@, JsonV::Str(file_seek_error_str(error)));
    let ms = seq![m1, m2];
    assert(resp_to_json(v) == JsonV::Obj(ms));
    assert(ms.drop_first() =~= seq![m2]);
    assert(seq![m2].drop_first() =~= Seq::<(Seq<char>, JsonV)>::empty());
    reveal_strlit("response");
    assert("response"@.len() == 8);
    reveal_strlit("FileSeekError");
    assert("FileSeekError"@.len() == 13);
    reveal_strlit("Ok");
    assert("Ok"@.len() == 2);
    assert("FileSeekError"@ != "Ok"@);
    reveal_strlit("MessageSent");
    assert("MessageSent"@.len() == 11);
    assert("FileSeekError"@ != "MessageSent"@);
    reveal_strlit("Info");
    assert("Info"@.len() == 4);
    assert("FileSeekError"@ != "Info"@);
    reveal_strlit("ConnectionStatus");
    assert("ConnectionStatus"@.len() == 16);
    assert("FileSeekError"@ != "ConnectionStatus"@);
    reveal_strlit("Address");
    assert("Address"@.len() == 7);
    assert("FileSeekError"@ != "Address"@);
    reveal_strlit("Nospam");
    assert("Nospam"@.len() == 6);
    assert("FileSeekError"@ != "Nospam"@);
    reveal_strlit("PublicKey");
    assert("PublicKey"@.len() == 9);
    assert("FileSeekError"@ != "PublicKey"@);
    reveal_strlit("Name");
    assert("Name"@.len() == 4);
    assert("FileSeekError"@ != "Name"@);
    reveal_strlit("StatusMessage");
    assert("StatusMessage"@.len() == 13);
    assert("FileSeekError"@[0] == 'F');
    assert("StatusMessage"@[0] == 'S');
    assert("FileSeekError"@ != "StatusMessage"@);
    reveal_strlit("Status");
    assert("Status"@.len() == 6);
    assert("FileSeekError"@ != "Status"@);
    reveal_strlit("Friend");
    assert("Friend"@.len() == 6);
    assert("FileSeekError"@ != "Friend"@);
    reveal_strlit("FriendExists");
    assert("FriendExists"@.len() == 12);
    assert("FileSeekError"@ != "FriendExists"@);
    reveal_strlit("LastOnline");
    assert("LastOnline"@.len() == 10);
    assert("FileSeekError"@ != "LastOnline"@);
    reveal_strlit("FileId");
    assert("FileId"@.len() == 6);
    assert("FileSeekError"@ != "FileId"@);
    reveal_strlit("FileNumber");
    assert("FileNumber"@.len() == 10);
    assert("FileSeekError"@ != "FileNumber"@);
    reveal_strlit("FileControlError");
    assert("FileControlError"@.len() == 16);
    assert("FileSeekError"@ != "FileControlError"@);
    reveal_strlit("error");
    assert("error"@.len() == 5);
    assert("error"@ != "response"@);
    assert(jlookup(ms, "response"@) == Some(JsonV::Str("FileSeekError"@)));
    assert(resp_from_json(JsonV::Obj(ms)) == resp_dispatch("FileSeekError"@, ms));
    assert(resp_dispatch("FileSeekError"@, ms) == resp_dispatch2("FileSeekError"@, ms));
    assert(resp_dispatch2("FileSeekError"@, ms) == resp_file_seek_error_from(ms));
    lemma_file_seek_error_rt(error);
    assert(jlookup(ms, "error"@) == Some(m2.1));
    assert(sget_file_seek_error(ms, "error"@) == Ok::<FileSeekError, DecodeError>(error));
    assert(resp_file_seek_error_from(ms) == Ok::<ResponseV, DecodeError>(v));
    reveal_with_fuel(jdepth_fields, 10);
    assert(jdepth(m1.1) == 0);
    assert(jdepth(m2.1) == 0);
    assert(jdepth_fields(seq![m2]) <= 5);
    assert(jdepth_fields(seq![m1, m2]) <= 5);
    assert(jdepth(JsonV::Obj(ms)) <= 6);
}

proof fn lemma_resp_file_get_error_rt(error: FileGetError)
    ensures
        resp_from_json(resp_to_json((ResponseV::FileGetError { error }))) == Ok::<ResponseV, DecodeError>((ResponseV::FileGetError { error })),
        jdepth(resp_to_json((ResponseV::FileGetError { error }))) <= 6,
{
    reveal_with_fuel(jlookup, 10);
    let v = (ResponseV::FileGetError { error });
    let m1 = ("response"@, JsonV::Str("FileGetError"@));
    let m2 = ("error"@, JsonV::Str(file_get_error_str(error)));
    let ms = seq![m1, m2];
    assert(resp_to_json(v) == JsonV::Obj(ms));
    assert(ms.drop_first() =~= seq![m2]);
    assert(seq![m2].drop_first() =~= Seq::<(Seq<char>, JsonV)>::empty());
    reveal_strlit("response");
    assert("response"@.len() == 8);
    reveal_strlit("FileGetError");
    assert("FileGetError"@.len() == 12);
    reveal_strlit("Ok");
    assert("Ok"@.len() == 2);
    assert("FileGetError"@ != "Ok"@);
    reveal_strlit("MessageSent");
    assert("MessageSent"@.len() == 11);
    assert("FileGetError"@ != "MessageSent"@);
    reveal_strlit("Info");
    assert("Info"@.len() == 4);
    assert("FileGetError"@ != "Info"@);
    reveal_strlit("ConnectionStatus");
    assert("ConnectionStatus"@.len() == 16);
    assert("FileGetError"@ != "ConnectionStatus"@);
    reveal_strlit("Address");
    assert("Address"@.len() == 7);
    assert("FileGetError"@ != "Address"@);
    reveal_strlit("Nospam");
    assert("Nospam"@.len() == 6);
    assert("FileGetError"@ != "Nospam"@);
    reveal_strlit("PublicKey");
    assert("PublicKey"@.len() == 9);
    assert("FileGetError"@ != "PublicKey"@);
    reveal_strlit("Name");
    assert("Name"@.len() == 4);
    assert("FileGetError"@ != "Name"@);
    reveal_strlit("StatusMessage");
    assert("StatusMessage"@.len() == 13);
    assert("FileGetError"@ != "StatusMessage"@);
    reveal_strlit("Status");
    assert("Status"@.len() == 6);
    assert("FileGetError"@ != "Status"@);
    reveal_strlit("Friend");
    assert("Friend"@.len() == 6);
    assert("FileGetError"@ != "Friend"@);
    reveal_strlit("FriendExists");
    assert("FriendExists"@.len() == 12);
    assert("FileGetError"@[1] == 'i');
    assert("FriendExists"@[1] == 'r');
    assert("FileGetError"@ != "FriendExists"@);
    reveal_strlit("LastOnline");
    assert("LastOnline"@.len() == 10);
    assert("FileGetError"@ != "LastOnline"@);
    reveal_strlit("FileId");
    assert("FileId"@.len() == 6);
    assert("FileGetError"@ != "FileId"@);
    reveal_strlit("FileNumber");
    assert("FileNumber"@.len() == 10);
    assert("FileGetError"@ != "FileNumber"@);
    reveal_strlit("FileControlError");
    assert("FileControlError"@.len() == 16);
    assert("FileGetError"@ != "FileControlError"@);
    reveal_strlit("FileSeekError");
    assert("FileSeekError"@.len() == 13);
    assert("FileGetError"@ != "FileSeekError"@);
    reveal_strlit("error");
    assert("error"@.len() == 5);
    assert("error"@ != "response"@);
    assert(jlookup(ms, "response"@) == Some(JsonV::Str("FileGetError"@)));
    assert(resp_from_json(JsonV::Obj(ms)) == resp_dispatch("FileGetError"@, ms));
    assert(resp_dispatch("FileGetError"@, ms) == resp_dispatch2("FileGetError"@, ms));
    assert(resp_dispatch2("FileGetError"@, ms) == resp_file_get_error_from(ms));
    lemma_file_get_error_rt(error);
    assert(jlookup(ms, "error"@) == Some(m2.1));
    assert(sget_file_get_error(ms, "error"@) == Ok::<FileGetError, DecodeError>(error));
    assert(resp_file_get_error_from(ms) == Ok::<ResponseV, DecodeError>(v));
    reveal_with_fuel(jdepth_fields, 10);
    assert(jdepth(m1.1) == 0);
    assert(jdepth(m2.1) == 0);
    assert(jdepth_fields(seq![m2]) <= 5);
    assert(jdepth_fields(seq![m1, m2]) <= 5);
    assert(jdepth(JsonV::Obj(ms)) <= 6);
}

proof fn lemma_resp_file_send_error_rt(error: FileSendError)
    ensures
        resp_from_json(resp_to_json((ResponseV::FileSendError { error }))) == Ok::<ResponseV, DecodeError>((ResponseV::FileSendError { error })),
        jdepth(resp_to_json((ResponseV::FileSendError { error }))) <= 6,
{
    reveal_with_fuel(jlookup, 10);
    let v = (ResponseV::FileSendError { error });
    let m1 = ("response"@, JsonV::Str("FileSendError"@));
    let m2 = ("error"@, JsonV::Str(file_send_error_str(error)));
    let ms = seq![m1, m2];
    assert(resp_to_json(v) == JsonV::Obj(ms));
    assert(ms.drop_first() =~= seq![m2]);
    assert(seq![m2].drop_first() =~= Seq::<(Seq<char>, JsonV)>::empty());
    reveal_strlit("response");
    assert("response"@.len() == 8);
    reveal_strlit("FileSendError");
    assert("FileSendError"@.len() == 13);
    reveal_strlit("Ok");
    assert("Ok"@.len() == 2);
    assert("FileSendError"@ != "Ok"@);
    reveal_strlit("MessageSent");
    assert("MessageSent"@.len() == 11);
    assert("FileSendError"@ != "MessageSent"@);
    reveal_strlit("Info");
    assert("Info"@.len() == 4);
    assert("FileSendError"@ != "Info"@);
    reveal_strlit("ConnectionStatus");
    assert("ConnectionStatus"@.len() == 16);
    assert("FileSendError"@ != "ConnectionStatus"@);
    reveal_strlit("Address");
    assert("Address"@.len() == 7);
    assert("FileSendError"@ != "Address"@);
    reveal_strlit("Nospam");
    assert("Nospam"@.len() == 6);
    assert("FileSendError"@ != "Nospam"@);
    reveal_strlit("PublicKey");
    assert("PublicKey"@.len() == 9);
    assert("FileSendError"@ != "PublicKey"@);
    reveal_strlit("Name");
    assert("Name"@.len() == 4);
    assert("FileSendError"@ != "Name"@);
    reveal_strlit("StatusMessage");
    assert("StatusMessage"@.len() == 13);
    assert("FileSendError"@[0] == 'F');
    assert("StatusMessage"@[0] == 'S');
    assert("FileSendError"@ != "StatusMessage"@);
    reveal_strlit("Status");
    assert("Status"@.len() == 6);
    assert("FileSendError"@ != "Status"@);
    reveal_strlit("Friend");
    assert("Friend"@.len() == 6);
    assert("FileSendError"@ != "Friend"@);
    reveal_strlit("FriendExists");
    assert("FriendExists"@.len() == 12);
    assert("FileSendError"@ != "FriendExists"@);
    reveal_strlit("LastOnline");
    assert("LastOnline"@.len() == 10);
    assert("FileSendError"@ != "LastOnline"@);
    reveal_strlit("FileId");
    assert("FileId"@.len() == 6);
    assert("FileSendError"@ != "FileId"@);
    reveal_strlit("FileNumber");
    assert("FileNumber"@.len() == 10);
    assert("FileSendError"@ != "FileNumber"@);
    reveal_strlit("FileControlError");
    assert("FileControlError"@.len() == 16);
    assert("FileSendError"@ != "FileControlError"@);
    reveal_strlit("FileSeekError");
    assert("FileSeekError"@.len() == 13);
    assert("FileSendError"@[6] == 'n');
    assert("FileSeekError"@[6] == 'e');
    assert("FileSendError"@ != "FileSeekError"@);
    reveal_strlit("FileGetError");
    assert("FileGetError"@.len() == 12);
    assert("FileSendError"@ != "FileGetError"@);
    reveal_strlit("error");
    assert("error"@.len() == 5);
    assert("error"@ != "response"@);
    assert(jlookup(ms, "response"@) == Some(JsonV::Str("FileSendError"@)));
    assert(resp_from_json(JsonV::Obj(ms)) == resp_dispatch("FileSendError"@, ms));
    assert(resp_dispatch("FileSendError"@, ms) == resp_dispatch2("FileSendError"@, ms));
    assert(resp_dispatch2("FileSendError"@, ms) == resp_file_send_error_from(ms));
    lemma_file_send_error_rt(error);
    assert(jlookup(ms, "error"@) == Some(m2.1));
    assert(sget_file_send_error(ms, "error"@) == Ok::<FileSendError, DecodeError>(error));
    assert(resp_file_send_error_from(ms) == Ok::<ResponseV, DecodeError>(v));
    reveal_with_fuel(jdepth_fields, 10);
    assert(jdepth(m1.1) == 0);
    assert(jdepth(m2.1) == 0);
    assert(jdepth_fields(seq![m2]) <= 5);
    assert(jdepth_fields(seq![m1, m2]) <= 5);
    assert(jdepth(JsonV::Obj(ms)) <= 6);
}

proof fn lemma_resp_file_send_chunk_error_rt(error: FileSendChunkError)
    ensures
        resp_from_json(resp_to_json((ResponseV::FileSendChunkError { error }))) == Ok::<ResponseV, DecodeError>((ResponseV::FileSendChunkError { error })),
        jdepth(resp_to_json((ResponseV::FileSendChunkError { error }))) <= 6,
{
    reveal_with_fuel(jlookup, 10);
    let v = (ResponseV::FileSendChunkError { error });
    let m1 = ("response"@, JsonV::Str("FileSendChunkError"@));
    let m2 = ("error"@, JsonV::Str(file_send_chunk_error_str(error)));
    let ms = seq![m1, m2];
    assert(resp_to_json(v) == JsonV::Obj(ms));
    assert(ms.drop_first() =~= seq![m2]);
    assert(seq![m2].drop_first() =~= Seq::<(Seq<char>, JsonV)>::empty());
    reveal_strlit("response");
    assert("response"@.len() == 8);
    reveal_strlit("FileSendChunkError");
    assert("FileSendChunkError"@.len() == 18);
    reveal_strlit("Ok");
    assert("Ok"@.len() == 2);
    assert("FileSendChunkError"@ != "Ok"@);
    reveal_strlit("MessageSent");
    assert("MessageSent"@.len() == 11);
    assert("FileSendChunkError"@ != "MessageSent"@);
    reveal_strlit("Info");
    assert("Info"@.len() == 4);
    assert("FileSendChunkError"@ != "Info"@);
    reveal_strlit("ConnectionStatus");
    assert("ConnectionStatus"@.len() == 16);
    assert("FileSendChunkError"@ != "ConnectionStatus"@);
    reveal_strlit("Address");
    assert("Address"@.len() == 7);
    assert("FileSendChunkError"@ != "Address"@);
    reveal_strlit("Nospam");
    assert("Nospam"@.len() == 6);
    assert("FileSendChunkError"@ != "Nospam"@);
    reveal_strlit("PublicKey");
    assert("PublicKey"@.len() == 9);
    assert("FileSendChunkError"@ != "PublicKey"@);
    reveal_strlit("Name");
    assert("Name"@.len() == 4);
    assert("FileSendChunkError"@ != "Name"@);
    reveal_strlit("StatusMessage");
    assert("StatusMessage"@.len() == 13);
    assert("FileSendChunkError"@ != "StatusMessage"@);
    reveal_strlit("Status");
    assert("Status"@.len() == 6);
    assert("FileSendChunkError"@ != "Status"@);
    reveal_strlit("Friend");
    assert("Friend"@.len() == 6);
    assert("FileSendChunkError"@ != "Friend"@);
    reveal_strlit("FriendExists");
    assert("FriendExists"@.len() == 12);
    assert("FileSendChunkError"@ != "FriendExists"@);
    reveal_strlit("LastOnline");
    assert("LastOnline"@.len() == 10);
    assert("FileSendChunkError"@ != "LastOnline"@);
    reveal_strlit("FileId");
    assert("FileId"@.len() == 6);
    assert("FileSendChunkError"@ != "FileId"@);
    reveal_strlit("FileNumber");
    assert("FileNumber"@.len() == 10);
    assert("FileSendChunkError"@ != "FileNumber"@);
    reveal_strlit("FileControlError");
    assert("FileControlError"@.len() == 16);
    assert("FileSendChunkError"@ != "FileControlError"@);
    reveal_strlit("FileSeekError");
    assert("FileSeekError"@.len() == 13);
    assert("FileSendChunkError"@ != "FileSeekError"@);
    reveal_strlit("FileGetError");
    assert("FileGetError"@.len() == 12);
    assert("FileSendChunkError"@ != "FileGetError"@);
    reveal_strlit("FileSendError");
    assert("FileSendError"@.len() == 13);
    assert("FileSendChunkError"@ != "FileSendError"@);
    reveal_strlit("error");
    assert("error"@.len() == 5);
    assert("error"@ != "response"@);
    assert(jlookup(ms, "response"@) == Some(JsonV::Str("FileSendChunkError"@)));
    assert(resp_from_json(JsonV::Obj(ms)) == resp_dispatch("FileSendChunkError"@, ms));
    assert(resp_dispatch("FileSendChunkError"@, ms) == resp_dispatch2("FileSendChunkError"@, ms));
    assert(resp_dispatch2("FileSendChunkError"@, ms) == resp_file_send_chunk_error_from(ms));
    lemma_file_send_chunk_error_rt(error);
    assert(jlookup(ms, "error"@) == Some(m2.1));
    assert(sget_file_send_chunk_error(ms, "error"@) == Ok::<FileSendChunkError, DecodeError>(error));
    assert(resp_file_send_chunk_error_from(ms) == Ok::<ResponseV, DecodeError>(v));
    reveal_with_fuel(jdepth_fields, 10);
    assert(jdepth(m1.1) == 0);
    assert(jdepth(m2.1) == 0);
    assert(jdepth_fields(seq![m2]) <= 5);
    assert(jdepth_fields(seq![m1, m2]) <= 5);
    assert(jdepth(JsonV::Obj(ms)) <= 6);
}

proof fn lemma_resp_conference_rt(conference: u32)
    ensures
        resp_from_json(resp_to_json((ResponseV::Conference { conference }))) == Ok::<ResponseV, DecodeError>((ResponseV::Conference { conference })),
        jdepth(resp_to_json((ResponseV::Conference { conference }))) <= 6,
{
    reveal_with_fuel(jlookup, 10);
    let v = (ResponseV::Conference { conference });
    let m1 = ("response"@, JsonV::Str("Conference"@));
    let m2 = ("conference"@, JsonV::UInt(conference as u64));
    let ms = seq![m1, m2];
    assert(resp_to_json(v) == JsonV::Obj(ms));
    assert(ms.drop_first() =~= seq![m2]);
    assert(seq![m2].drop_first() =~= Seq::<(Seq<char>, JsonV)>::empty());
    reveal_strlit("response");
    assert("response"@.len() == 8);
    reveal_strlit("Conference");
    assert("Conference"@.len() == 10);
    reveal_strlit("Ok");
    assert("Ok"@.len() == 2);
    assert("Conference"@ != "Ok"@);
    reveal_strlit("MessageSent");
    assert("MessageSent"@.len() == 11);
    assert("Conference"@ != "MessageSent"@);
    reveal_strlit("Info");
    assert("Info"@.len() == 4);
    assert("Conference"@ != "Info"@);
    reveal_strlit("ConnectionStatus");
    assert("ConnectionStatus"@.len() == 16);
    assert("Conference"@ != "ConnectionStatus"@);
    reveal_strlit("Address");
    assert("Address"@.len() == 7);
    assert("Conference"@ != "Address"@);
    reveal_strlit("Nospam");
    assert("Nospam"@.len() == 6);
    assert("Conference"@ != "Nospam"@);
    reveal_strlit("PublicKey");
    assert("PublicKey"@.len() == 9);
    assert("Conference"@ != "PublicKey"@);
    reveal_strlit("Name");
    assert("Name"@.len() == 4);
    assert("Conference"@ != "Name"@);
    reveal_strlit("StatusMessage");
    assert("StatusMessage"@.len() == 13);
    assert("Conference"@ != "StatusMessage"@);
    reveal_strlit("Status");
    assert("Status"@.len() == 6);
    assert("Conference"@ != "Status"@);
    reveal_strlit("Friend");
    assert("Friend"@.len() == 6);
    assert("Conference"@ != "Friend"@);
    reveal_strlit("FriendExists");
    assert("FriendExists"@.len() == 12);
    assert("Conference"@ != "FriendExists"@);
    reveal_strlit("LastOnline");
    assert("LastOnline"@.len() == 10);
    assert("Conference"@[0] == 'C');
    assert("LastOnline"@[0] == 'L');
    assert("Conference"@ != "LastOnline"@);
    reveal_strlit("FileId");
    assert("FileId"@.len() == 6);
    assert("Conference"@ != "FileId"@);
    reveal_strlit("FileNumber");
    assert("FileNumber"@.len() == 10);
    assert("Conference"@[0] == 'C');
    assert("FileNumber"@[0] == 'F');
    assert("Conference"@ != "FileNumber"@);
    reveal_strlit("FileControlError");
    assert("FileControlError"@.len() == 16);
    assert("Conference"@ != "FileControlError"@);
    reveal_strlit("FileSeekError");
    assert("FileSeekError"@.len() == 13);
    assert("Conference"@ != "FileSeekError"@);
    reveal_strlit("FileGetError");
    assert("FileGetError"@.len() == 12);
    assert("Conference"@ != "FileGetError"@);
    reveal_strlit("FileSendError");
    assert("FileSendError"@.len() == 13);
    assert("Conference"@ != "FileSendError"@);
    reveal_strlit("FileSendChunkError");
    assert("FileSendChunkError"@.len() == 18);
    assert("Conference"@ != "FileSendChunkError"@);
    reveal_strlit("conference");
    assert("conference"@.len() == 10);
    assert("conference"@ != "response"@);
    assert(jlookup(ms, "response"@) == Some(JsonV::Str("Conference"@)));
    assert(resp_from_json(JsonV::Obj(ms)) == resp_dispatch("Conference"@, ms));
    assert(resp_dispatch("Conference"@, ms) == resp_dispatch2("Conference"@, ms));
    assert(resp_dispatch2("Conference"@, ms) == resp_conference_from(ms));
    assert(jlookup(ms, "conference"@) == Some(m2.1));
    assert(sget_u32(ms, "conference"@) == Ok::<u32, DecodeError>(conference));
    assert(resp_conference_from(ms) == Ok::<ResponseV, DecodeError>(v));
    reveal_with_fuel(jdepth_fields, 10);
    assert(jdepth(m1.1) == 0);
    assert(jdepth(m2.1) == 0);
    assert(jdepth_fields(seq![m2]) <= 5);
    assert(jdepth_fields(seq![m1, m2]) <= 5);
    assert(jdepth(JsonV::Obj(ms)) <= 6);
}

proof fn lemma_resp_conference_peer_list_rt(peers: Seq<PeerInfoV>)
    ensures
        resp_from_json(resp_to_json((ResponseV::ConferencePeerList { peers }))) == Ok::<ResponseV, DecodeError>((ResponseV::ConferencePeerList { peers })),
        jdepth(resp_to_json((ResponseV::ConferencePeerList { peers }))) <= 6,
{
    reveal_with_fuel(jlookup, 10);
    let v = (ResponseV::ConferencePeerList { peers });
    let m1 = ("response"@, JsonV::Str("ConferencePeerList"@));
    let m2 = ("peers"@, JsonV::Arr(peer_infos_arr(peers)));
    let ms = seq![m1, m2];
    assert(resp_to_json(v) == JsonV::Obj(ms));
    assert(ms.drop_first() =~= seq![m2]);
    assert(seq![m2].drop_first() =~= Seq::<(Seq<char>, JsonV)>::empty());
    reveal_strlit("response");
    assert("response"@.len() == 8);
    reveal_strlit("ConferencePeerList");
    assert("ConferencePeerList"@.len() == 18);
    reveal_strlit("Ok");
    assert("Ok"@.len() == 2);
    assert("ConferencePeerList"@ != "Ok"@);
    reveal_strlit("MessageSent");
    assert("MessageSent"@.len() == 11);
    assert("ConferencePeerList"@ != "MessageSent"@);
    reveal_strlit("Info");
    assert("Info"@.len() == 4);
    assert("ConferencePeerList"@ != "Info"@);
    reveal_strlit("ConnectionStatus");
    assert("ConnectionStatus"@.len() == 16);
    assert("ConferencePeerList"@ != "ConnectionStatus"@);
    reveal_strlit("Address");
    assert("Address"@.len() == 7);
    assert("ConferencePeerList"@ != "Address"@);
    reveal_strlit("Nospam");
    assert("Nospam"@.len() == 6);
    assert("ConferencePeerList"@ != "Nospam"@);
    reveal_strlit("PublicKey");
    assert("PublicKey"@.len() == 9);
    assert("ConferencePeerList"@ != "PublicKey"@);
    reveal_strlit("Name");
    assert("Name"@.len() == 4);
    assert("ConferencePeerList"@ != "Name"@);
    reveal_strlit("StatusMessage");
    assert("StatusMessage"@.len() == 13);
    assert("ConferencePeerList"@ != "StatusMessage"@);
    reveal_strlit("Status");
    assert("Status"@.len() == 6);
    assert("ConferencePeerList"@ != "Status"@);
    reveal_strlit("Friend");
    assert("Friend"@.len() == 6);
    assert("ConferencePeerList"@ != "Friend"@);
    reveal_strlit("FriendExists");
    assert("FriendExists"@.len() == 12);
    assert("ConferencePeerList"@ != "FriendExists"@);
    reveal_strlit("LastOnline");
    assert("LastOnline"@.len() == 10);
    assert("ConferencePeerList"@ != "LastOnline"@);
    reveal_strlit("FileId");
    assert("FileId"@.len() == 6);
    assert("ConferencePeerList"@ != "FileId"@);
    reveal_strlit("FileNumber");
    assert("FileNumber"@.len() == 10);
    assert("ConferencePeerList"@ != "FileNumber"@);
    reveal_strlit("FileControlError");
    assert("FileControlError"@.len() == 16);
    assert("ConferencePeerList"@ != "FileControlError"@);
    reveal_strlit("FileSeekError");
    assert("FileSeekError"@.len() == 13);
    assert("ConferencePeerList"@ != "FileSeekError"@);
    reveal_strlit("FileGetError");
    assert("FileGetError"@.len() == 12);
    assert("ConferencePeerList"@ != "FileGetError"@);
    reveal_strlit("FileSendError");
    assert("FileSendError"@.len() == 13);
    assert("ConferencePeerList"@ != "FileSendError"@);
    reveal_strlit("FileSendChunkError");
    assert("FileSendChunkError"@.len() == 18);
    assert("ConferencePeerList"@[0] == 'C');
    assert("FileSendChunkError"@[0] == 'F');
    assert("ConferencePeerList"@ != "FileSendChunkError"@);
    reveal_strlit("Conference");
    assert("Conference"@.len() == 10);
    assert("ConferencePeerList"@ != "Conference"@);
    reveal_strlit("peers");
    assert("peers"@.len() == 5);
    assert("peers"@ != "response"@);
    assert(jlookup(ms, "response"@) == Some(JsonV::Str("ConferencePeerList"@)));
    assert(resp_from_json(JsonV::Obj(ms)) == resp_dispatch("ConferencePeerList"@, ms));
    assert(resp_dispatch("ConferencePeerList"@, ms) == resp_dispatch2("ConferencePeerList"@, ms));
    assert(resp_dispatch2("ConferencePeerList"@, ms) == resp_conference_peer_list_from(ms));
    lemma_peer_infos_arr_rt(peers);
    assert(jlookup(ms, "peers"@) == Some(m2.1));
    assert(sget_peer_infos(ms, "peers"@) == Ok::<Seq<PeerInfoV>, DecodeError>(peers));
    assert(resp_conference_peer_list_from(ms) == Ok::<ResponseV, DecodeError>(v));
    reveal_with_fuel(jdepth_fields, 10);
    assert(jdepth(m1.1) == 0);
    lemma_peer_infos_arr_depth(peers);
    assert(jdepth(m2.1) <= 2);
    assert(jdepth_fields(seq![m2]) <= 5);
    assert(jdepth_fields(seq![m1, m2]) <= 5);
    assert(jdepth(JsonV::Obj(ms)) <= 6);
}

proof fn lemma_resp_conference_peer_count_rt(count: u32)
    ensures
        resp_from_json(resp_to_json((ResponseV::ConferencePeerCount { count }))) == Ok::<ResponseV, DecodeError>((ResponseV::ConferencePeerCount { count })),
        jdepth(resp_to_json((ResponseV::ConferencePeerCount { count }))) <= 6,
{
    reveal_with_fuel(jlookup, 10);
    let v = (ResponseV::ConferencePeerCount { count });
    let m1 = ("response"@, JsonV::Str("ConferencePeerCount"@));
    let m2 = ("count"@, JsonV::UInt(count as u64));
    let ms = seq![m1, m2];
    assert(resp_to_json(v) == JsonV::Obj(ms));
    assert(ms.drop_first() =~= seq![m2]);
    assert(seq![m2].drop_first() =~= Seq::<(Seq<char>, JsonV)>::empty());
    reveal_strlit("response");
    assert("response"@.len() == 8);
    reveal_strlit("ConferencePeerCount");
    assert("ConferencePeerCount"@.len() == 19);
    reveal_strlit("Ok");
    assert("Ok"@.len() == 2);
    assert("ConferencePeerCount"@ != "Ok"@);
    reveal_strlit("MessageSent");
    assert("MessageSent"@.len() == 11);
    assert("ConferencePeerCount"@ != "MessageSent"@);
    reveal_strlit("Info");
    assert("Info"@.len() == 4);
    assert("ConferencePeerCount"@ != "Info"@);
    reveal_strlit("ConnectionStatus");
    assert("ConnectionStatus"@.len() == 16);
    assert("ConferencePeerCount"@ != "ConnectionStatus"@);
    reveal_strlit("Address");
    assert("Address"@.len() == 7);
    assert("ConferencePeerCount"@ != "Address"@);
    reveal_strlit("Nospam");
    assert("Nospam"@.len() == 6);
    assert("ConferencePeerCount"@ != "Nospam"@);
    reveal_strlit("PublicKey");
    assert("PublicKey"@.len() == 9);
    assert("ConferencePeerCount"@ != "PublicKey"@);
    reveal_strlit("Name");
    assert("Name"@.len() == 4);
    assert("ConferencePeerCount"@ != "Name"@);
    reveal_strlit("StatusMessage");
    assert("StatusMessage"@.len() == 13);
    assert("ConferencePeerCount"@ != "StatusMessage"@);
    reveal_strlit("Status");
    assert("Status"@.len() == 6);
    assert("ConferencePeerCount"@ != "Status"@);
    reveal_strlit("Friend");
    assert("Friend"@.len() == 6);
    assert("ConferencePeerCount"@ != "Friend"@);
    reveal_strlit("FriendExists");
    assert("FriendExists"@.len() == 12);
    assert("ConferencePeerCount"@ != "FriendExists"@);
    reveal_strlit("LastOnline");
    assert("LastOnline"@.len() == 10);
    assert("ConferencePeerCount"@ != "LastOnline"@);
    reveal_strlit("FileId");
    assert("FileId"@.len() == 6);
    assert("ConferencePeerCount"@ != "FileId"@);
    reveal_strlit("FileNumber");
    assert("FileNumber"@.len() == 10);
    assert("ConferencePeerCount"@ != "FileNumber"@);
    reveal_strlit("FileControlError");
    assert("FileControlError"@.len() == 16);
    assert("ConferencePeerCount"@ != "FileControlError"@);
    reveal_strlit("FileSeekError");
    assert("FileSeekError"@.len() == 13);
    assert("ConferencePeerCount"@ != "FileSeekError"@);
    reveal_strlit("FileGetError");
    assert("FileGetError"@.len() == 12);
    assert("ConferencePeerCount"@ != "FileGetError"@);
    reveal_strlit("FileSendError");
    assert("FileSendError"@.len() == 13);
    assert("ConferencePeerCount"@ != "FileSendError"@);
    reveal_strlit("FileSendChunkError");
    assert("FileSendChunkError"@.len() == 18);
    assert("ConferencePeerCount"@ != "FileSendChunkError"@);
    reveal_strlit("Conference");
    assert("Conference"@.len() == 10);
    assert("ConferencePeerCount"@ != "Conference"@);
    reveal_strlit("ConferencePeerList");
    assert("ConferencePeerList"@.len() == 18);
    assert("ConferencePeerCount"@ != "ConferencePeerList"@);
    reveal_strlit("count");
    assert("count"@.len() == 5);
    assert("count"@ != "response"@);
    assert(jlookup(ms, "response"@) == Some(JsonV::Str("ConferencePeerCount"@)));
    assert(resp_from_json(JsonV::Obj(ms)) == resp_dispatch("ConferencePeerCount"@, ms));
    assert(resp_dispatch("ConferencePeerCount"@, ms) == resp_dispatch2("ConferencePeerCount"@, ms));
    assert(resp_dispatch2("ConferencePeerCount"@, ms) == resp_conference_peer_count_from(ms));
    assert(jlookup(ms, "count"@) == Some(m2.1));
    assert(sget_u32(ms, "count"@) == Ok::<u32, DecodeError>(count));
    assert(resp_conference_peer_count_from(ms) == Ok::<ResponseV, DecodeError>(v));
    reveal_with_fuel(jdepth_fields, 10);
    assert(jdepth(m1.1) == 0);
    assert(jdepth(m2.1) == 0);
    assert(jdepth_fields(seq![m2]) <= 5);
    assert(jdepth_fields(seq![m1, m2]) <= 5);
    assert(jdepth(JsonV::Obj(ms)) <= 6);
}

proof fn lemma_resp_conference_peer_name_rt(name: Seq<char>)
    ensures
        resp_from_json(resp_to_json((ResponseV::ConferencePeerName { name }))) == Ok::<ResponseV, DecodeError>((ResponseV::ConferencePeerName { name })),
        jdepth(resp_to_json((ResponseV::ConferencePeerName { name }))) <= 6,
{
    reveal_with_fuel(jlookup, 10);
    let v = (ResponseV::ConferencePeerName { name });
    let m1 = ("response"@, JsonV::Str("ConferencePeerName"@));
    let m2 = ("name"@, JsonV::Str(name));
    let ms = seq![m1, m2];
    assert(resp_to_json(v) == JsonV::Obj(ms));
    assert(ms.drop_first() =~= seq![m2]);
    assert(seq![m2].drop_first() =~= Seq::<(Seq<char>, JsonV)>::empty());
    reveal_strlit("response");
    assert("response"@.len() == 8);
    reveal_strlit("ConferencePeerName");
    assert("ConferencePeerName"@.len() == 18);
    reveal_strlit("Ok");
    assert("Ok"@.len() == 2);
    assert("ConferencePeerName"@ != "Ok"@);
    reveal_strlit("MessageSent");
    assert("MessageSent"@.len() == 11);
    assert("ConferencePeerName"@ != "MessageSent"@);
    reveal_strlit("Info");
    assert("Info"@.len() == 4);
    assert("ConferencePeerName"@ != "Info"@);
    reveal_strlit("ConnectionStatus");
    assert("ConnectionStatus"@.len() == 16);
    assert("ConferencePeerName"@ != "ConnectionStatus"@);
    reveal_strlit("Address");
    assert("Address"@.len() == 7);
    assert("ConferencePeerName"@ != "Address"@);
    reveal_strlit("Nospam");
    assert("Nospam"@.len() == 6);
    assert("ConferencePeerName"@ != "Nospam"@);
    reveal_strlit("PublicKey");
    assert("PublicKey"@.len() == 9);
    assert("ConferencePeerName"@ != "PublicKey"@);
    reveal_strlit("Name");
    assert("Name"@.len() == 4);
    assert("ConferencePeerName"@ != "Name"@);
    reveal_strlit("StatusMessage");
    assert("StatusMessage"@.len() == 13);
    assert("ConferencePeerName"@ != "StatusMessage"@);
    reveal_strlit("Status");
    assert("Status"@.len() == 6);
    assert("ConferencePeerName"@ != "Status"@);
    reveal_strlit("Friend");
    assert("Friend"@.len() == 6);
    assert("ConferencePeerName"@ != "Friend"@);
    reveal_strlit("FriendExists");
    assert("FriendExists"@.len() == 12);
    assert("ConferencePeerName"@ != "FriendExists"@);
    reveal_strlit("LastOnline");
    assert("LastOnline"@.len() == 10);
    assert("ConferencePeerName"@ != "LastOnline"@);
    reveal_strlit("FileId");
    assert("FileId"@.len() == 6);
    assert("ConferencePeerName"@ != "FileId"@);
    reveal_strlit("FileNumber");
    assert("FileNumber"@.len() == 10);
    assert("ConferencePeerName"@ != "FileNumber"@);
    reveal_strlit("FileControlError");
    assert("FileControlError"@.len() == 16);
    assert("ConferencePeerName"@ != "FileControlError"@);
    reveal_strlit("FileSeekError");
    assert("FileSeekError"@.len() == 13);
    assert("ConferencePeerName"@ != "FileSeekError"@);
    reveal_strlit("FileGetError");
    assert("FileGetError"@.len() == 12);
    assert("ConferencePeerName"@ != "FileGetError"@);
    reveal_strlit("FileSendError");
    assert("FileSendError"@.len() == 13);
    assert("ConferencePeerName"@ != "FileSendError"@);
    reveal_strlit("FileSendChunkError");
    assert("FileSendChunkError"@.len() == 18);
    assert("ConferencePeerName"@[0] == 'C');
    assert("FileSendChunkError"@[0] == 'F');
    assert("ConferencePeerName"@ != "FileSendChunkError"@);
    reveal_strlit("Conference");
    assert("Conference"@.len() == 10);
    assert("ConferencePeerName"@ != "Conference"@);
    reveal_strlit("ConferencePeerList");
    assert("ConferencePeerList"@.len() == 18);
    assert("ConferencePeerName"@[14] == 'N');
    assert("ConferencePeerList"@[14] == 'L');
    assert("ConferencePeerName"@ != "ConferencePeerList"@);
    reveal_strlit("ConferencePeerCount");
    assert("ConferencePeerCount"@.len() == 19);
    assert("ConferencePeerName"@ != "ConferencePeerCount"@);
    reveal_strlit("name");
    assert("name"@.len() == 4);
    assert("name"@ != "response"@);
    assert(jlookup(ms, "response"@) == Some(JsonV::Str("ConferencePeerName"@)));
    assert(resp_from_json(JsonV::Obj(ms)) == resp_dispatch("ConferencePeerName"@, ms));
    assert(resp_dispatch("ConferencePeerName"@, ms) == resp_dispatch2("ConferencePeerName"@, ms));
    assert(resp_dispatch2("ConferencePeerName"@, ms) == resp_conference_peer_name_from(ms));
    assert(jlookup(ms, "name"@) == Some(m2.1));
    assert(sget_str(ms, "name"@) == Ok::<Seq<char>, DecodeError>(name));
    assert(resp_conference_peer_name_from(ms) == Ok::<ResponseV, DecodeError>(v));
    reveal_with_fuel(jdepth_fields, 10);
    assert(jdepth(m1.1) == 0);
    assert(jdepth(m2.1) == 0);
    assert(jdepth_fields(seq![m2]) <= 5);
    assert(jdepth_fields(seq![m1, m2]) <= 5);
    assert(jdepth(JsonV::Obj(ms)) <= 6);
}

proof fn lemma_resp_conference_peer_public_key_rt(public_key: Seq<char>)
    ensures
        resp_from_json(resp_to_json((ResponseV::ConferencePeerPublicKey { public_key }))) == Ok::<ResponseV, DecodeError>((ResponseV::ConferencePeerPublicKey { public_key })),
        jdepth(resp_to_json((ResponseV::ConferencePeerPublicKey { public_key }))) <= 6,
{
    reveal_with_fuel(jlookup, 10);
    let v = (ResponseV::ConferencePeerPublicKey { public_key });
    let m1 = ("response"@, JsonV::Str("ConferencePeerPublicKey"@));
    let m2 = ("public_key"@, JsonV::Str(public_key));
    let ms = seq![m1, m2];
    assert(resp_to_json(v) == JsonV::Obj(ms));
    assert(ms.drop_first() =~= seq![m2]);
    assert(seq![m2].drop_first() =~= Seq::<(Seq<char>, JsonV)>::empty());
    reveal_strlit("response");
    assert("response"@.len() == 8);
    reveal_strlit("ConferencePeerPublicKey");
    assert("ConferencePeerPublicKey"@.len() == 23);
    reveal_strlit("Ok");
    assert("Ok"@.len() == 2);
    assert("ConferencePeerPublicKey"@ != "Ok"@);
    reveal_strlit("MessageSent");
    assert("MessageSent"@.len() == 11);
    assert("ConferencePeerPublicKey"@ != "MessageSent"@);
    reveal_strlit("Info");
    assert("Info"@.len() == 4);
    assert("ConferencePeerPublicKey"@ != "Info"@);
    reveal_strlit("ConnectionStatus");
    assert("ConnectionStatus"@.len() == 16);
    assert("ConferencePeerPublicKey"@ != "ConnectionStatus"@);
    reveal_strlit("Address");
    assert("Address"@.len() == 7);
    assert("ConferencePeerPublicKey"@ != "Address"@);
    reveal_strlit("Nospam");
    assert("Nospam"@.len() == 6);
    assert("ConferencePeerPublicKey"@ != "Nospam"@);
    reveal_strlit("PublicKey");
    assert("PublicKey"@.len() == 9);
    assert("ConferencePeerPublicKey"@ != "PublicKey"@);
    reveal_strlit("Name");
    assert("Name"@.len() == 4);
    assert("ConferencePeerPublicKey"@ != "Name"@);
    reveal_strlit("StatusMessage");
    assert("StatusMessage"@.len() == 13);
    assert("ConferencePeerPublicKey"@ != "StatusMessage"@);
    reveal_strlit("Status");
    assert("Status"@.len() == 6);
    assert("ConferencePeerPublicKey"@ != "Status"@);
    reveal_strlit("Friend");
    assert("Friend"@.len() == 6);
    assert("ConferencePeerPublicKey"@ != "Friend"@);
    reveal_strlit("FriendExists");
    assert("FriendExists"@.len() == 12);
    assert("ConferencePeerPublicKey"@ != "FriendExists"@);
    reveal_strlit("LastOnline");
    assert("LastOnline"@.len() == 10);
    assert("ConferencePeerPublicKey"@ != "LastOnline"@);
    reveal_strlit("FileId");
    assert("FileId"@.len() == 6);
    assert("ConferencePeerPublicKey"@ != "FileId"@);
    reveal_strlit("FileNumber");
    assert("FileNumber"@.len() == 10);
    assert("ConferencePeerPublicKey"@ != "FileNumber"@);
    reveal_strlit("FileControlError");
    assert("FileControlError"@.len() == 16);
    assert("ConferencePeerPublicKey"@ != "FileControlError"@);
    reveal_strlit("FileSeekError");
    assert("FileSeekError"@.len() == 13);
    assert("ConferencePeerPublicKey"@ != "FileSeekError"@);
    reveal_strlit("FileGetError");
    assert("FileGetError"@.len() == 12);
    assert("ConferencePeerPublicKey"@ != "FileGetError"@);
    reveal_strlit("FileSendError");
    assert("FileSendError"@.len() == 13);
    assert("ConferencePeerPublicKey"@ != "FileSendError"@);
    reveal_strlit("FileSendChunkError");
    assert("FileSendChunkError"@.len() == 18);
    assert("ConferencePeerPublicKey"@ != "FileSendChunkError"@);
    reveal_strlit("Conference");
    assert("Conference"@.len() == 10);
    assert("ConferencePeerPublicKey"@ != "Conference"@);
    reveal_strlit("ConferencePeerList");
    assert("ConferencePeerList"@.len() == 18);
    assert("ConferencePeerPublicKey"@ != "ConferencePeerList"@);
    reveal_strlit("ConferencePeerCount");
    assert("ConferencePeerCount"@.len() == 19);
    assert("ConferencePeerPublicKey"@ != "ConferencePeerCount"@);
    reveal_strlit("ConferencePeerName");
    assert("ConferencePeerName"@.len() == 18);
    assert("ConferencePeerPublicKey"@ != "ConferencePeerName"@);
    reveal_strlit("public_key");
    assert("public_key"@.len() == 10);
    assert("public_key"@ != "response"@);
    assert(jlookup(ms, "response"@) == Some(JsonV::Str("ConferencePeerPublicKey"@)));
    assert(resp_from_json(JsonV::Obj(ms)) == resp_dispatch("ConferencePeerPublicKey"@, ms));
    assert(resp_dispatch("ConferencePeerPublicKey"@, ms) == resp_dispatch2("ConferencePeerPublicKey"@, ms));
    assert(resp_dispatch2("ConferencePeerPublicKey"@, ms) == resp_dispatch3("ConferencePeerPublicKey"@, ms));
    assert(resp_dispatch3("ConferencePeerPublicKey"@, ms) == resp_conference_peer_public_key_from(ms));
    assert(jlookup(ms, "public_key"@) == Some(m2.1));
    assert(sget_str(ms, "public_key"@) == Ok::<Seq<char>, DecodeError>(public_key));
    assert(resp_conference_peer_public_key_from(ms) == Ok::<ResponseV, DecodeError>(v));
    reveal_with_fuel(jdepth_fields, 10);
    assert(jdepth(m1.1) == 0);
    assert(jdepth(m2.1) == 0);
    assert(jdepth_fields(seq![m2]) <= 5);
    assert(jdepth_fields(seq![m1, m2]) <= 5);
    assert(jdepth(JsonV::Obj(ms)) <= 6);
}

proof fn lemma_resp_is_own_peer_number_rt(is_own: bool)
    ensures
        resp_from_json(resp_to_json((ResponseV::IsOwnPeerNumber { is_own }))) == Ok::<ResponseV, DecodeError>((ResponseV::IsOwnPeerNumber { is_own })),
        jdepth(resp_to_json((ResponseV::IsOwnPeerNumber { is_own }))) <= 6,
{
    reveal_with_fuel(jlookup, 10);
    let v = (ResponseV::IsOwnPeerNumber { is_own });
    let m1 = ("response"@, JsonV::Str("IsOwnPeerNumber"@));
    let m2 = ("is_own"@, JsonV::Bool(is_own));
    let ms = seq![m1, m2];
    assert(resp_to_json(v) == JsonV::Obj(ms));
    assert(ms.drop_first() =~= seq![m2]);
    assert(seq![m2].drop_first() =~= Seq::<(Seq<char>, JsonV)>::empty());
    reveal_strlit("response");
    assert("response"@.len() == 8);
    reveal_strlit("IsOwnPeerNumber");
    assert("IsOwnPeerNumber"@.len() == 15);
    reveal_strlit("Ok");
    assert("Ok"@.len() == 2);
    assert("IsOwnPeerNumber"@ != "Ok"@);
    reveal_strlit("MessageSent");
    assert("MessageSent"@.len() == 11);
    assert("IsOwnPeerNumber"@ != "MessageSent"@);
    reveal_strlit("Info");
    assert("Info"@.len() == 4);
    assert("IsOwnPeerNumber"@ != "Info"@);
    reveal_strlit("ConnectionStatus");
    assert("ConnectionStatus"@.len() == 16);
    assert("IsOwnPeerNumber"@ != "ConnectionStatus"@);
    reveal_strlit("Address");
    assert("Address"@.len() == 7);
    assert("IsOwnPeerNumber"@ != "Address"@);
    reveal_strlit("Nospam");
    assert("Nospam"@.len() == 6);
    assert("IsOwnPeerNumber"@ != "Nospam"@);
    reveal_strlit("PublicKey");
    assert("PublicKey"@.len() == 9);
    assert("IsOwnPeerNumber"@ != "PublicKey"@);
    reveal_strlit("Name");
    assert("Name"@.len() == 4);
    assert("IsOwnPeerNumber"@ != "Name"@);
    reveal_strlit("StatusMessage");
    assert("StatusMessage"@.len() == 13);
    assert("IsOwnPeerNumber"@ != "StatusMessage"@);
    reveal_strlit("Status");
    assert("Status"@.len() == 6);
    assert("IsOwnPeerNumber"@ != "Status"@);
    reveal_strlit("Friend");
    assert("Friend"@.len() == 6);
    assert("IsOwnPeerNumber"@ != "Friend"@);
    reveal_strlit("FriendExists");
    assert("FriendExists"@.len() == 12);
    assert("IsOwnPeerNumber"@ != "FriendExists"@);
    reveal_strlit("LastOnline");
    assert("LastOnline"@.len() == 10);
    assert("IsOwnPeerNumber"@ != "LastOnline"@);
    reveal_strlit("FileId");
    assert("FileId"@.len() == 6);
    assert("IsOwnPeerNumber"@ != "FileId"@);
    reveal_strlit("FileNumber");
    assert("FileNumber"@.len() == 10);
    assert("IsOwnPeerNumber"@ != "FileNumber"@);
    reveal_strlit("FileControlError");
    assert("FileControlError"@.len() == 16);
    assert("IsOwnPeerNumber"@ != "FileControlError"@);
    reveal_strlit("FileSeekError");
    assert("FileSeekError"@.len() == 13);
    assert("IsOwnPeerNumber"@ != "FileSeekError"@);
    reveal_strlit("FileGetError");
    assert("FileGetError"@.len() == 12);
    assert("IsOwnPeerNumber"@ != "FileGetError"@);
    reveal_strlit("FileSendError");
    assert("FileSendError"@.len() == 13);
    assert("IsOwnPeerNumber"@ != "FileSendError"@);
    reveal_strlit("FileSendChunkError");
    assert("FileSendChunkError"@.len() == 18);
    assert("IsOwnPeerNumber"@ != "FileSendChunkError"@);
    reveal_strlit("Conference");
    assert("Conference"@.len() == 10);
    assert("IsOwnPeerNumber"@ != "Conference"@);
    reveal_strlit("ConferencePeerList");
    assert("ConferencePeerList"@.len() == 18);
    assert("IsOwnPeerNumber"@ != "ConferencePeerList"@);
    reveal_strlit("ConferencePeerCount");
    assert("ConferencePeerCount"@.len() == 19);
    assert("IsOwnPeerNumber"@ != "ConferencePeerCount"@);
    reveal_strlit("ConferencePeerName");
    assert("ConferencePeerName"@.len() == 18);
    assert("IsOwnPeerNumber"@ != "ConferencePeerName"@);
    reveal_strlit("ConferencePeerPublicKey");
    assert("ConferencePeerPublicKey"@.len() == 23);
    assert("IsOwnPeerNumber"@ != "ConferencePeerPublicKey"@);
    reveal_strlit("is_own");
    assert("is_own"@.len() == 6);
    assert("is_own"@ != "response"@);
    assert(jlookup(ms, "response"@) == Some(JsonV::Str("IsOwnPeerNumber"@)));
    assert(resp_from_json(JsonV::Obj(ms)) == resp_dispatch("IsOwnPeerNumber"@, ms));
    assert(resp_dispatch("IsOwnPeerNumber"@, ms) == resp_dispatch2("IsOwnPeerNumber"@, ms));
    assert(resp_dispatch2("IsOwnPeerNumber"@, ms) == resp_dispatch3("IsOwnPeerNumber"@, ms));
    assert(resp_dispatch3("IsOwnPeerNumber"@, ms) == resp_is_own_peer_number_from(ms));
    assert(jlookup(ms, "is_own"@) == Some(m2.1));
    assert(sget_bool(ms, "is_own"@) == Ok::<bool, DecodeError>(is_own));
    assert(resp_is_own_peer_number_from(ms) == Ok::<ResponseV, DecodeError>(v));
    reveal_with_fuel(jdepth_fields, 10);
    assert(jdepth(m1.1) == 0);
    assert(jdepth(m2.1) == 0);
    assert(jdepth_fields(seq![m2]) <= 5);
    assert(jdepth_fields(seq![m1, m2]) <= 5);
    assert(jdepth(JsonV::Obj(ms)) <= 6);
}

proof fn lemma_resp_conference_title_rt(title: Seq<char>)
    ensures
        resp_from_json(resp_to_json((ResponseV::ConferenceTitle { title }))) == Ok::<ResponseV, DecodeError>((ResponseV::ConferenceTitle { title })),
        jdepth(resp_to_json((ResponseV::ConferenceTitle { title }))) <= 6,
{
    reveal_with_fuel(jlookup, 10);
    let v = (ResponseV::ConferenceTitle { title });
    let m1 = ("response"@, JsonV::Str("ConferenceTitle"@));
    let m2 = ("title"@, JsonV::Str(title));
    let ms = seq![m1, m2];
    assert(resp_to_json(v) == JsonV::Obj(ms));
    assert(ms.drop_first() =~= seq![m2]);
    assert(seq![m2].drop_first() =~= Seq::<(Seq<char>, JsonV)>::empty());
    reveal_strlit("response");
    assert("response"@.len() == 8);
    reveal_strlit("ConferenceTitle");
    assert("ConferenceTitle"@.len() == 15);
    reveal_strlit("Ok");
    assert("Ok"@.len() == 2);
    assert("ConferenceTitle"@ != "Ok"@);
    reveal_strlit("MessageSent");
    assert("MessageSent"@.len() == 11);
    assert("ConferenceTitle"@ != "MessageSent"@);
    reveal_strlit("Info");
    assert("Info"@.len() == 4);
    assert("ConferenceTitle"@ != "Info"@);
    reveal_strlit("ConnectionStatus");
    assert("ConnectionStatus"@.len() == 16);
    assert("ConferenceTitle"@ != "ConnectionStatus"@);
    reveal_strlit("Address");
    assert("Address"@.len() == 7);
    assert("ConferenceTitle"@ != "Address"@);
    reveal_strlit("Nospam");
    assert("Nospam"@.len() == 6);
    assert("ConferenceTitle"@ != "Nospam"@);
    reveal_strlit("PublicKey");
    assert("PublicKey"@.len() == 9);
    assert("ConferenceTitle"@ != "PublicKey"@);
    reveal_strlit("Name");
    assert("Name"@.len() == 4);
    assert("ConferenceTitle"@ != "Name"@);
    reveal_strlit("StatusMessage");
    assert("StatusMessage"@.len() == 13);
    assert("ConferenceTitle"@ != "StatusMessage"@);
    reveal_strlit("Status");
    assert("Status"@.len() == 6);
    assert("ConferenceTitle"@ != "Status"@);
    reveal_strlit("Friend");
    assert("Friend"@.len() == 6);
    assert("ConferenceTitle"@ != "Friend"@);
    reveal_strlit("FriendExists");
    assert("FriendExists"@.len() == 12);
    assert("ConferenceTitle"@ != "FriendExists"@);
    reveal_strlit("LastOnline");
    assert("LastOnline"@.len() == 10);
    assert("ConferenceTitle"@ != "LastOnline"@);
    reveal_strlit("FileId");
    assert("FileId"@.len() == 6);
    assert("ConferenceTitle"@ != "FileId"@);
    reveal_strlit("FileNumber");
    assert("FileNumber"@.len() == 10);
    assert("ConferenceTitle"@ != "FileNumber"@);
    reveal_strlit("FileControlError");
    assert("FileControlError"@.len() == 16);
    assert("ConferenceTitle"@ != "FileControlError"@);
    reveal_strlit("FileSeekError");
    assert("FileSeekError"@.len() == 13);
    assert("ConferenceTitle"@ != "FileSeekError"@);
    reveal_strlit("FileGetError");
    assert("FileGetError"@.len() == 12);
    assert("ConferenceTitle"@ != "FileGetError"@);
    reveal_strlit("FileSendError");
    assert("FileSendError"@.len() == 13);
    assert("ConferenceTitle"@ != "FileSendError"@);
    reveal_strlit("FileSendChunkError");
    assert("FileSendChunkError"@.len() == 18);
    assert("ConferenceTitle"@ != "FileSendChunkError"@);
    reveal_strlit("Conference");
    assert("Conference"@.len() == 10);
    assert("ConferenceTitle"@ != "Conference"@);
    reveal_strlit("ConferencePeerList");
    assert("ConferencePeerList"@.len() == 18);
    assert("ConferenceTitle"@ != "ConferencePeerList"@);
    reveal_strlit("ConferencePeerCount");
    assert("ConferencePeerCount"@.len() == 19);
    assert("ConferenceTitle"@ != "ConferencePeerCount"@);
    reveal_strlit("ConferencePeerName");
    assert("ConferencePeerName"@.len() == 18);
    assert("ConferenceTitle"@ != "ConferencePeerName"@);
    reveal_strlit("ConferencePeerPublicKey");
    assert("ConferencePeerPublicKey"@.len() == 23);
    assert("ConferenceTitle"@ != "ConferencePeerPublicKey"@);
    reveal_strlit("IsOwnPeerNumber");
    assert("IsOwnPeerNumber"@.len() == 15);
    assert("ConferenceTitle"@[0] == 'C');
    assert("IsOwnPeerNumber"@[0] == 'I');
    assert("ConferenceTitle"@ != "IsOwnPeerNumber"@);
    reveal_strlit("title");
    assert("title"@.len() == 5);
    assert("title"@ != "response"@);
    assert(jlookup(ms, "response"@) == Some(JsonV::Str("ConferenceTitle"@)));
    assert(resp_from_json(JsonV::Obj(ms)) == resp_dispatch("ConferenceTitle"@, ms));
    assert(resp_dispatch("ConferenceTitle"@, ms) == resp_dispatch2("ConferenceTitle"@, ms));
    assert(resp_dispatch2("ConferenceTitle"@, ms) == resp_dispatch3("ConferenceTitle"@, ms));
    assert(resp_dispatch3("ConferenceTitle"@, ms) == resp_conference_title_from(ms));
    assert(jlookup(ms, "title"@) == Some(m2.1));
    assert(sget_str(ms, "title"@) == Ok::<Seq<char>, DecodeError>(title));
    assert(resp_conference_title_from(ms) == Ok::<ResponseV, DecodeError>(v));
    reveal_with_fuel(jdepth_fields, 10);
    assert(jdepth(m1.1) == 0);
    assert(jdepth(m2.1) == 0);
    assert(jdepth_fields(seq![m2]) <= 5);
    assert(jdepth_fields(seq![m1, m2]) <= 5);
    assert(jdepth(JsonV::Obj(ms)) <= 6);
}

proof fn lemma_resp_conference_list_rt(conferences: Seq<ConferenceInfoV>)
    ensures
        resp_from_json(resp_to_json((ResponseV::ConferenceList { conferences }))) == Ok::<ResponseV, DecodeError>((ResponseV::ConferenceList { conferences })),
        jdepth(resp_to_json((ResponseV::ConferenceList { conferences }))) <= 6,
{
    reveal_with_fuel(jlookup, 10);
    let v = (ResponseV::ConferenceList { conferences });
    let m1 = ("response"@, JsonV::Str("ConferenceList"@));
    let m2 = ("conferences"@, JsonV::Arr(conference_infos_arr(conferences)));
    let ms = seq![m1, m2];
    assert(resp_to_json(v) == JsonV::Obj(ms));
    assert(ms.drop_first() =~= seq![m2]);
    assert(seq![m2].drop_first() =~= Seq::<(Seq<char>, JsonV)>::empty());
    reveal_strlit("response");
    assert("response"@.len() == 8);
    reveal_strlit("ConferenceList");
    assert("ConferenceList"@.len() == 14);
    reveal_strlit("Ok");
    assert("Ok"@.len() == 2);
    assert("ConferenceList"@ != "Ok"@);
    reveal_strlit("MessageSent");
    assert("MessageSent"@.len() == 11);
    assert("ConferenceList"@ != "MessageSent"@);
    reveal_strlit("Info");
    assert("Info"@.len() == 4);
    assert("ConferenceList"@ != "Info"@);
    reveal_strlit("ConnectionStatus");
    assert("ConnectionStatus"@.len() == 16);
    assert("ConferenceList"@ != "ConnectionStatus"@);
    reveal_strlit("Address");
    assert("Address"@.len() == 7);
    assert("ConferenceList"@ != "Address"@);
    reveal_strlit("Nospam");
    assert("Nospam"@.len() == 6);
    assert("ConferenceList"@ != "Nospam"@);
    reveal_strlit("PublicKey");
    assert("PublicKey"@.len() == 9);
    assert("ConferenceList"@ != "PublicKey"@);
    reveal_strlit("Name");
    assert("Name"@.len() == 4);
    assert("ConferenceList"@ != "Name"@);
    reveal_strlit("StatusMessage");
    assert("StatusMessage"@.len() == 13);
    assert("ConferenceList"@ != "StatusMessage"@);
    reveal_strlit("Status");
    assert("Status"@.len() == 6);
    assert("ConferenceList"@ != "Status"@);
    reveal_strlit("Friend");
    assert("Friend"@.len() == 6);
    assert("ConferenceList"@ != "Friend"@);
    reveal_strlit("FriendExists");
    assert("FriendExists"@.len() == 12);
    assert("ConferenceList"@ != "FriendExists"@);
    reveal_strlit("LastOnline");
    assert("LastOnline"@.len() == 10);
    assert("ConferenceList"@ != "LastOnline"@);
    reveal_strlit("FileId");
    assert("FileId"@.len() == 6);
    assert("ConferenceList"@ != "FileId"@);
    reveal_strlit("FileNumber");
    assert("FileNumber"@.len() == 10);
    assert("ConferenceList"@ != "FileNumber"@);
    reveal_strlit("FileControlError");
    assert("FileControlError"@.len() == 16);
    assert("ConferenceList"@ != "FileControlError"@);
    reveal_strlit("FileSeekError");
    assert("FileSeekError"@.len() == 13);
    assert("ConferenceList"@ != "FileSeekError"@);
    reveal_strlit("FileGetError");
    assert("FileGetError"@.len() == 12);
    assert("ConferenceList"@ != "FileGetError"@);
    reveal_strlit("FileSendError");
    assert("FileSendError"@.len() == 13);
    assert("ConferenceList"@ != "FileSendError"@);
    reveal_strlit("FileSendChunkError");
    assert("FileSendChunkError"@.len() == 18);
    assert("ConferenceList"@ != "FileSendChunkError"@);
    reveal_strlit("Conference");
    assert("Conference"@.len() == 10);
    assert("ConferenceList"@ != "Conference"@);
    reveal_strlit("ConferencePeerList");
    assert("ConferencePeerList"@.len() == 18);
    assert("ConferenceList"@ != "ConferencePeerList"@);
    reveal_strlit("ConferencePeerCount");
    assert("ConferencePeerCount"@.len() == 19);
    assert("ConferenceList"@ != "ConferencePeerCount"@);
    reveal_strlit("ConferencePeerName");
    assert("ConferencePeerName"@.len() == 18);
    assert("ConferenceList"@ != "ConferencePeerName"@);
    reveal_strlit("ConferencePeerPublicKey");
    assert("ConferencePeerPublicKey"@.len() == 23);
    assert("ConferenceList"@ != "ConferencePeerPublicKey"@);
    reveal_strlit("IsOwnPeerNumber");
    assert("IsOwnPeerNumber"@.len() == 15);
    assert("ConferenceList"@ != "IsOwnPeerNumber"@);
    reveal_strlit("ConferenceTitle");
    assert("ConferenceTitle"@.len() == 15);
    assert("ConferenceList"@ != "ConferenceTitle"@);
    reveal_strlit("conferences");
    assert("conferences"@.len() == 11);
    assert("conferences"@ != "response"@);
    assert(jlookup(ms, "response"@) == Some(JsonV::Str("ConferenceList"@)));
    assert(resp_from_json(JsonV::Obj(ms)) == resp_dispatch("ConferenceList"@, ms));
    assert(resp_dispatch("ConferenceList"@, ms) == resp_dispatch2("ConferenceList"@, ms));
    assert(resp_dispatch2("ConferenceList"@, ms) == resp_dispatch3("ConferenceList"@, ms));
    assert(resp_dispatch3("ConferenceList"@, ms) == resp_conference_list_from(ms));
    lemma_conference_infos_arr_rt(conferences);
    assert(jlookup(ms, "conferences"@) == Some(m2.1));
    assert(sget_conference_infos(ms, "conferences"@) == Ok::<Seq<ConferenceInfoV>, DecodeError>(conferences));
    assert(resp_conference_list_from(ms) == Ok::<ResponseV, DecodeError>(v));
    reveal_with_fuel(jdepth_fields, 10);
    assert(jdepth(m1.1) == 0);
    lemma_conference_infos_arr_depth(conferences);
    assert(jdepth(m2.1) <= 4);
    assert(jdepth_fields(seq![m2]) <= 5);
    assert(jdepth_fields(seq![m1, m2]) <= 5);
    assert(jdepth(JsonV::Obj(ms)) <= 6);
}

proof fn lemma_resp_conference_type_rt(kind: ConferenceType)
    ensures
        resp_from_json(resp_to_json((ResponseV::ConferenceType { kind }))) == Ok::<ResponseV, DecodeError>((ResponseV::ConferenceType { kind })),
        jdepth(resp_to_json((ResponseV::ConferenceType { kind }))) <= 6,
{
    reveal_with_fuel(jlookup, 10);
    let v = (ResponseV::ConferenceType { kind });
    let m1 = ("response"@, JsonV::Str("ConferenceType"@));
    let m2 = ("kind"@, JsonV::Str(conference_type_str(kind)));
    let ms = seq![m1, m2];
    assert(resp_to_json(v) == JsonV::Obj(ms));
    assert(ms.drop_first() =~= seq![m2]);
    assert(seq![m2].drop_first() =~= Seq::<(Seq<char>, JsonV)>::empty());
    reveal_strlit("response");
    assert("response"@.len() == 8);
    reveal_strlit("ConferenceType");
    assert("ConferenceType"@.len() == 14);
    reveal_strlit("Ok");
    assert("Ok"@.len() == 2);
    assert("ConferenceType"@ != "Ok"@);
    reveal_strlit("MessageSent");
    assert("MessageSent"@.len() == 11);
    assert("ConferenceType"@ != "MessageSent"@);
    reveal_strlit("Info");
    assert("Info"@.len() == 4);
    assert("ConferenceType"@ != "Info"@);
    reveal_strlit("ConnectionStatus");
    assert("ConnectionStatus"@.len() == 16);
    assert("ConferenceType"@ != "ConnectionStatus"@);
    reveal_strlit("Address");
    assert("Address"@.len() == 7);
    assert("ConferenceType"@ != "Address"@);
    reveal_strlit("Nospam");
    assert("Nospam"@.len() == 6);
    assert("ConferenceType"@ != "Nospam"@);
    reveal_strlit("PublicKey");
    assert("PublicKey"@.len() == 9);
    assert("ConferenceType"@ != "PublicKey"@);
    reveal_strlit("Name");
    assert("Name"@.len() == 4);
    assert("ConferenceType"@ != "Name"@);
    reveal_strlit("StatusMessage");
    assert("StatusMessage"@.len() == 13);
    assert("ConferenceType"@ != "StatusMessage"@);
    reveal_strlit("Status");
    assert("Status"@.len() == 6);
    assert("ConferenceType"@ != "Status"@);
    reveal_strlit("Friend");
    assert("Friend"@.len() == 6);
    assert("ConferenceType"@ != "Friend"@);
    reveal_strlit("FriendExists");
    assert("FriendExists"@.len() == 12);
    assert("ConferenceType"@ != "FriendExists"@);
    reveal_strlit("LastOnline");
    assert("LastOnline"@.len() == 10);
    assert("ConferenceType"@ != "LastOnline"@);
    reveal_strlit("FileId");
    assert("FileId"@.len() == 6);
    assert("ConferenceType"@ != "FileId"@);
    reveal_strlit("FileNumber");
    assert("FileNumber"@.len() == 10);
    assert("ConferenceType"@ != "FileNumber"@);
    reveal_strlit("FileControlError");
    assert("FileControlError"@.len() == 16);
    assert("ConferenceType"@ != "FileControlError"@);
    reveal_strlit("FileSeekError");
    assert("FileSeekError"@.len() == 13);
    assert("ConferenceType"@ != "FileSeekError"@);
    reveal_strlit("FileGetError");
    assert("FileGetError"@.len() == 12);
    assert("ConferenceType"@ != "FileGetError"@);
    reveal_strlit("FileSendError");
    assert("FileSendError"@.len() == 13);
    assert("ConferenceType"@ != "FileSendError"@);
    reveal_strlit("FileSendChunkError");
    assert("FileSendChunkError"@.len() == 18);
    assert("ConferenceType"@ != "FileSendChunkError"@);
    reveal_strlit("Conference");
    assert("Conference"@.len() == 10);
    assert("ConferenceType"@ != "Conference"@);
    reveal_strlit("ConferencePeerList");
    assert("ConferencePeerList"@.len() == 18);
    assert("ConferenceType"@ != "ConferencePeerList"@);
    reveal_strlit("ConferencePeerCount");
    assert("ConferencePeerCount"@.len() == 19);
    assert("ConferenceType"@ != "ConferencePeerCount"@);
    reveal_strlit("ConferencePeerName");
    assert("ConferencePeerName"@.len() == 18);
    assert("ConferenceType"@ != "ConferencePeerName"@);
    reveal_strlit("ConferencePeerPublicKey");
    assert("ConferencePeerPublicKey"@.len() == 23);
    assert("ConferenceType"@ != "ConferencePeerPublicKey"@);
    reveal_strlit("IsOwnPeerNumber");
    assert("IsOwnPeerNumber"@.len() == 15);
    assert("ConferenceType"@ != "IsOwnPeerNumber"@);
    reveal_strlit("ConferenceTitle");
    assert("ConferenceTitle"@.len() == 15);
    assert("ConferenceType"@ != "ConferenceTitle"@);
    reveal_strlit("ConferenceList");
    assert("ConferenceList"@.len() == 14);
    assert("ConferenceType"@[10] == 'T');
    assert("ConferenceList"@[10] == 'L');
    assert("ConferenceType"@ != "ConferenceList"@);
    reveal_strlit("kind");
    assert("kind"@.len() == 4);
    assert("kind"@ != "response"@);
    assert(jlookup(ms, "response"@) == Some(JsonV::Str("ConferenceType"@)));
    assert(resp_from_json(JsonV::Obj(ms)) == resp_dispatch("ConferenceType"@, ms));
    assert(resp_dispatch("ConferenceType"@, ms) == resp_dispatch2("ConferenceType"@, ms));
    assert(resp_dispatch2("ConferenceType"@, ms) == resp_dispatch3("ConferenceType"@, ms));
    assert(resp_dispatch3("ConferenceType"@, ms) == resp_conference_type_from(ms));
    lemma_conference_type_rt(kind);
    assert(jlookup(ms, "kind"@) == Some(m2.1));
    assert(sget_conference_type(ms, "kind"@) == Ok::<ConferenceType, DecodeError>(kind));
    assert(resp_conference_type_from(ms) == Ok::<ResponseV, DecodeError>(v));
    reveal_with_fuel(jdepth_fields, 10);
    assert(jdepth(m1.1) == 0);
    assert(jdepth(m2.1) == 0);
    assert(jdepth_fields(seq![m2]) <= 5);
    assert(jdepth_fields(seq![m1, m2]) <= 5);
    assert(jdepth(JsonV::Obj(ms)) <= 6);
}

proof fn lemma_resp_add_friend_error_rt(error: AddFriendError)
    ensures
        resp_from_json(resp_to_json((ResponseV::AddFriendError { error }))) == Ok::<ResponseV, DecodeError>((ResponseV::AddFriendError { error })),
        jdepth(resp_to_json((ResponseV::AddFriendError { error }))) <= 6,
{
    reveal_with_fuel(jlookup, 10);
    let v = (ResponseV::AddFriendError { error });
    let m1 = ("response"@, JsonV::Str("AddFriendError"@));
    let m2 = ("error"@, JsonV::Str(add_friend_error_str(error)));
    let ms = seq![m1, m2];
    assert(resp_to_json(v) == JsonV::Obj(ms));
    assert(ms.drop_first() =~= seq![m2]);
    assert(seq![m2].drop_first() =~= Seq::<(Seq<char>, JsonV)>::empty());
    reveal_strlit("response");
    assert("response"@.len() == 8);
    reveal_strlit("AddFriendError");
    assert("AddFriendError"@.len() == 14);
    reveal_strlit("Ok");
    assert("Ok"@.len() == 2);
    assert("AddFriendError"@ != "Ok"@);
    reveal_strlit("MessageSent");
    assert("MessageSent"@.len() == 11);
    assert("AddFriendError"@ != "MessageSent"@);
    reveal_strlit("Info");
    assert("Info"@.len() == 4);
    assert("AddFriendError"@ != "Info"@);
    reveal_strlit("ConnectionStatus");
    assert("ConnectionStatus"@.len() == 16);
    assert("AddFriendError"@ != "ConnectionStatus"@);
    reveal_strlit("Address");
    assert("Address"@.len() == 7);
    assert("AddFriendError"@ != "Address"@);
    reveal_strlit("Nospam");
    assert("Nospam"@.len() == 6);
    assert("AddFriendError"@ != "Nospam"@);
    reveal_strlit("PublicKey");
    assert("PublicKey"@.len() == 9);
    assert("AddFriendError"@ != "PublicKey"@);
    reveal_strlit("Name");
    assert("Name"@.len() == 4);
    assert("AddFriendError"@ != "Name"@);
    reveal_strlit("StatusMessage");
    assert("StatusMessage"@.len() == 13);
    assert("AddFriendError"@ != "StatusMessage"@);
    reveal_strlit("Status");
    assert("Status"@.len() == 6);
    assert("AddFriendError"@ != "Status"@);
    reveal_strlit("Friend");
    assert("Friend"@.len() == 6);
    assert("AddFriendError"@ != "Friend"@);
    reveal_strlit("FriendExists");
    assert("FriendExists"@.len() == 12);
    assert("AddFriendError"@ != "FriendExists"@);
    reveal_strlit("LastOnline");
    assert("LastOnline"@.len() == 10);
    assert("AddFriendError"@ != "LastOnline"@);
    reveal_strlit("FileId");
    assert("FileId"@.len() == 6);
    assert("AddFriendError"@ != "FileId"@);
    reveal_strlit("FileNumber");
    assert("FileNumber"@.len() == 10);
    assert("AddFriendError"@ != "FileNumber"@);
    reveal_strlit("FileControlError");
    assert("FileControlError"@.len() == 16);
    assert("AddFriendError"@ != "FileControlError"@);
    reveal_strlit("FileSeekError");
    assert("FileSeekError"@.len() == 13);
    assert("AddFriendError"@ != "FileSeekError"@);
    reveal_strlit("FileGetError");
    assert("FileGetError"@.len() == 12);
    assert("AddFriendError"@ != "FileGetError"@);
    reveal_strlit("FileSendError");
    assert("FileSendError"@.len() == 13);
    assert("AddFriendError"@ != "FileSendError"@);
    reveal_strlit("FileSendChunkError");
    assert("FileSendChunkError"@.len() == 18);
    assert("AddFriendError"@ != "FileSendChunkError"@);
    reveal_strlit("Conference");
    assert("Conference"@.len() == 10);
    assert("AddFriendError"@ != "Conference"@);
    reveal_strlit("ConferencePeerList");
    assert("ConferencePeerList"@.len() == 18);
    assert("AddFriendError"@ != "ConferencePeerList"@);
    reveal_strlit("ConferencePeerCount");
    assert("ConferencePeerCount"@.len() == 19);
    assert("AddFriendError"@ != "ConferencePeerCount"@);
    reveal_strlit("ConferencePeerName");
    assert("ConferencePeerName"@.len() == 18);
    assert("AddFriendError"@ != "ConferencePeerName"@);
    reveal_strlit("ConferencePeerPublicKey");
    assert("ConferencePeerPublicKey"@.len() == 23);
    assert("AddFriendError"@ != "ConferencePeerPublicKey"@);
    reveal_strlit("IsOwnPeerNumber");
    assert("IsOwnPeerNumber"@.len() == 15);
    assert("AddFriendError"@ != "IsOwnPeerNumber"@);
    reveal_strlit("ConferenceTitle");
    assert("ConferenceTitle"@.len() == 15);
    assert("AddFriendError"@ != "ConferenceTitle"@);
    reveal_strlit("ConferenceList");
    assert("ConferenceList"@.len() == 14);
    assert("AddFriendError"@[0] == 'A');
    assert("ConferenceList"@[0] == 'C');
    assert("AddFriendError"@ != "ConferenceList"@);
    reveal_strlit("ConferenceType");
    assert("ConferenceType"@.len() == 14);
    assert("AddFriendError"@[0] == 'A');
    assert("ConferenceType"@[0] == 'C');
    assert("AddFriendError"@ != "ConferenceType"@);
    reveal_strlit("error");
    assert("error"@.len() == 5);
    assert("error"@ != "response"@);
    assert(jlookup(ms, "response"@) == Some(JsonV::Str("AddFriendError"@)));
    assert(resp_from_json(JsonV::Obj(ms)) == resp_dispatch("AddFriendError"@, ms));
    assert(resp_dispatch("AddFriendError"@, ms) == resp_dispatch2("AddFriendError"@, ms));
    assert(resp_dispatch2("AddFriendError"@, ms) == resp_dispatch3("AddFriendError"@, ms));
    assert(resp_dispatch3("AddFriendError"@, ms) == resp_add_friend_error_from(ms));
    lemma_add_friend_error_rt(error);
    assert(jlookup(ms, "error"@) == Some(m2.1));
    assert(sget_add_friend_error(ms, "error"@) == Ok::<AddFriendError, DecodeError>(error));
    assert(resp_add_friend_error_from(ms) == Ok::<ResponseV, DecodeError>(v));
    reveal_with_fuel(jdepth_fields, 10);
    assert(jdepth(m1.1) == 0);
    assert(jdepth(m2.1) == 0);
    assert(jdepth_fields(seq![m2]) <= 5);
    assert(jdepth_fields(seq![m1, m2]) <= 5);
    assert(jdepth(JsonV::Obj(ms)) <= 6);
}

proof fn lemma_resp_send_friend_message_error_rt(error: SendFriendMessageError)
    ensures
        resp_from_json(resp_to_json((ResponseV::SendFriendMessageError { error }))) == Ok::<ResponseV, DecodeError>((ResponseV::SendFriendMessageError { error })),
        jdepth(resp_to_json((ResponseV::SendFriendMessageError { error }))) <= 6,
{
    reveal_with_fuel(jlookup, 10);
    let v = (ResponseV::SendFriendMessageError { error });
    let m1 = ("response"@, JsonV::Str("SendFriendMessageError"@));
    let m2 = ("error"@, JsonV::Str(send_friend_message_error_str(error)));
    let ms = seq![m1, m2];
    assert(resp_to_json(v) == JsonV::Obj(ms));
    assert(ms.drop_first() =~= seq![m2]);
    assert(seq![m2].drop_first() =~= Seq::<(Seq<char>, JsonV)>::empty());
    reveal_strlit("response");
    assert("response"@.len() == 8);
    reveal_strlit("SendFriendMessageError");
    assert("SendFriendMessageError"@.len() == 22);
    reveal_strlit("Ok");
    assert("Ok"@.len() == 2);
    assert("SendFriendMessageError"@ != "Ok"@);
    reveal_strlit("MessageSent");
    assert("MessageSent"@.len() == 11);
    assert("SendFriendMessageError"@ != "MessageSent"@);
    reveal_strlit("Info");
    assert("Info"@.len() == 4);
    assert("SendFriendMessageError"@ != "Info"@);
    reveal_strlit("ConnectionStatus");
    assert("ConnectionStatus"@.len() == 16);
    assert("SendFriendMessageError"@ != "ConnectionStatus"@);
    reveal_strlit("Address");
    assert("Address"@.len() == 7);
    assert("SendFriendMessageError"@ != "Address"@);
    reveal_strlit("Nospam");
    assert("Nospam"@.len() == 6);
    assert("SendFriendMessageError"@ != "Nospam"@);
    reveal_strlit("PublicKey");
    assert("PublicKey"@.len() == 9);
    assert("SendFriendMessageError"@ != "PublicKey"@);
    reveal_strlit("Name");
    assert("Name"@.len() == 4);
    assert("SendFriendMessageError"@ != "Name"@);
    reveal_strlit("StatusMessage");
    assert("StatusMessage"@.len() == 13);
    assert("SendFriendMessageError"@ != "StatusMessage"@);
    reveal_strlit("Status");
    assert("Status"@.len() == 6);
    assert("SendFriendMessageError"@ != "Status"@);
    reveal_strlit("Friend");
    assert("Friend"@.len() == 6);
    assert("SendFriendMessageError"@ != "Friend"@);
    reveal_strlit("FriendExists");
    assert("FriendExists"@.len() == 12);
    assert("SendFriendMessageError"@ != "FriendExists"@);
    reveal_strlit("LastOnline");
    assert("LastOnline"@.len() == 10);
    assert("SendFriendMessageError"@ != "LastOnline"@);
    reveal_strlit("FileId");
    assert("FileId"@.len() == 6);
    assert("SendFriendMessageError"@ != "FileId"@);
    reveal_strlit("FileNumber");
    assert("FileNumber"@.len() == 10);
    assert("SendFriendMessageError"@ != "FileNumber"@);
    reveal_strlit("FileControlError");
    assert("FileControlError"@.len() == 16);
    assert("SendFriendMessageError"@ != "FileControlError"@);
    reveal_strlit("FileSeekError");
    assert("FileSeekError"@.len() == 13);
    assert("SendFriendMessageError"@ != "FileSeekError"@);
    reveal_strlit("FileGetError");
    assert("FileGetError"@.len() == 12);
    assert("SendFriendMessageError"@ != "FileGetError"@);
    reveal_strlit("FileSendError");
    assert("FileSendError"@.len() == 13);
    assert("SendFriendMessageError"@ != "FileSendError"@);
    reveal_strlit("FileSendChunkError");
    assert("FileSendChunkError"@.len() == 18);
    assert("SendFriendMessageError"@ != "FileSendChunkError"@);
    reveal_strlit("Conference");
    assert("Conference"@.len() == 10);
    assert("SendFriendMessageError"@ != "Conference"@);
    reveal_strlit("ConferencePeerList");
    assert("ConferencePeerList"@.len() == 18);
    assert("SendFriendMessageError"@ != "ConferencePeerList"@);
    reveal_strlit("ConferencePeerCount");
    assert("ConferencePeerCount"@.len() == 19);
    assert("SendFriendMessageError"@ != "ConferencePeerCount"@);
    reveal_strlit("ConferencePeerName");
    assert("ConferencePeerName"@.len() == 18);
    assert("SendFriendMessageError"@ != "ConferencePeerName"@);
    reveal_strlit("ConferencePeerPublicKey");
    assert("ConferencePeerPublicKey"@.len() == 23);
    assert("SendFriendMessageError"@ != "ConferencePeerPublicKey"@);
    reveal_strlit("IsOwnPeerNumber");
    assert("IsOwnPeerNumber"@.len() == 15);
    assert("SendFriendMessageError"@ != "IsOwnPeerNumber"@);
    reveal_strlit("ConferenceTitle");
    assert("ConferenceTitle"@.len() == 15);
    assert("SendFriendMessageError"@ != "ConferenceTitle"@);
    reveal_strlit("ConferenceList");
    assert("ConferenceList"@.len() == 14);
    assert("SendFriendMessageError"@ != "ConferenceList"@);
    reveal_strlit("ConferenceType");
    assert("ConferenceType"@.len() == 14);
    assert("SendFriendMessageError"@ != "ConferenceType"@);
    reveal_strlit("AddFriendError");
    assert("AddFriendError"@.len() == 14);
    assert("SendFriendMessageError"@ != "AddFriendError"@);
    reveal_strlit("error");
    assert("error"@.len() == 5);
    assert("error"@ != "response"@);
    assert(jlookup(ms, "response"@) == Some(JsonV::Str("SendFriendMessageError"@)));
    assert(resp_from_json(JsonV::Obj(ms)) == resp_dispatch("SendFriendMessageError"@, ms));
    assert(resp_dispatch("SendFriendMessageError"@, ms) == resp_dispatch2("SendFriendMessageError"@, ms));
    assert(resp_dispatch2("SendFriendMessageError"@, ms) == resp_dispatch3("SendFriendMessageError"@, ms));
    assert(resp_dispatch3("SendFriendMessageError"@, ms) == resp_send_friend_message_error_from(ms));
    lemma_send_friend_message_error_rt(error);
    assert(jlookup(ms, "error"@) == Some(m2.1));
    assert(sget_send_friend_message_error(ms, "error"@) == Ok::<SendFriendMessageError, DecodeError>(error));
    assert(resp_send_friend_message_error_from(ms) == Ok::<ResponseV, DecodeError>(v));
    reveal_with_fuel(jdepth_fields, 10);
    assert(jdepth(m1.1) == 0);
    assert(jdepth(m2.1) == 0);
    assert(jdepth_fields(seq![m2]) <= 5);
    assert(jdepth_fields(seq![m1, m2]) <= 5);
    assert(jdepth(JsonV::Obj(ms)) <= 6);
}

proof fn lemma_resp_friend_not_found_error_rt()
    ensures
        resp_from_json(resp_to_json(ResponseV::FriendNotFoundError)) == Ok::<ResponseV, DecodeError>(ResponseV::FriendNotFoundError),
        jdepth(resp_to_json(ResponseV::FriendNotFoundError)) <= 6,
{
    reveal_with_fuel(jlookup, 10);
    let v = ResponseV::FriendNotFoundError;
    let m1 = ("response"@, JsonV::Str("FriendNotFoundError"@));
    let ms = seq![m1];
    assert(resp_to_json(v) == JsonV::Obj(ms));
    assert(ms.drop_first() =~= seq![]);
    reveal_strlit("response");
    assert("response"@.len() == 8);
    reveal_strlit("FriendNotFoundError");
    assert("FriendNotFoundError"@.len() == 19);
    reveal_strlit("Ok");
    assert("Ok"@.len() == 2);
    assert("FriendNotFoundError"@ != "Ok"@);
    reveal_strlit("MessageSent");
    assert("MessageSent"@.len() == 11);
    assert("FriendNotFoundError"@ != "MessageSent"@);
    reveal_strlit("Info");
    assert("Info"@.len() == 4);
    assert("FriendNotFoundError"@ != "Info"@);
    reveal_strlit("ConnectionStatus");
    assert("ConnectionStatus"@.len() == 16);
    assert("FriendNotFoundError"@ != "ConnectionStatus"@);
    reveal_strlit("Address");
    assert("Address"@.len() == 7);
    assert("FriendNotFoundError"@ != "Address"@);
    reveal_strlit("Nospam");
    assert("Nospam"@.len() == 6);
    assert("FriendNotFoundError"@ != "Nospam"@);
    reveal_strlit("PublicKey");
    assert("PublicKey"@.len() == 9);
    assert("FriendNotFoundError"@ != "PublicKey"@);
    reveal_strlit("Name");
    assert("Name"@.len() == 4);
    assert("FriendNotFoundError"@ != "Name"@);
    reveal_strlit("StatusMessage");
    assert("StatusMessage"@.len() == 13);
    assert("FriendNotFoundError"@ != "StatusMessage"@);
    reveal_strlit("Status");
    assert("Status"@.len() == 6);
    assert("FriendNotFoundError"@ != "Status"@);
    reveal_strlit("Friend");
    assert("Friend"@.len() == 6);
    assert("FriendNotFoundError"@ != "Friend"@);
    reveal_strlit("FriendExists");
    assert("FriendExists"@.len() == 12);
    assert("FriendNotFoundError"@ != "FriendExists"@);
    reveal_strlit("LastOnline");
    assert("LastOnline"@.len() == 10);
    assert("FriendNotFoundError"@ != "LastOnline"@);
    reveal_strlit("FileId");
    assert("FileId"@.len() == 6);
    assert("FriendNotFoundError"@ != "FileId"@);
    reveal_strlit("FileNumber");
    assert("FileNumber"@.len() == 10);
    assert("FriendNotFoundError"@ != "FileNumber"@);
    reveal_strlit("FileControlError");
    assert("FileControlError"@.len() == 16);
    assert("FriendNotFoundError"@ != "FileControlError"@);
    reveal_strlit("FileSeekError");
    assert("FileSeekError"@.len() == 13);
    assert("FriendNotFoundError"@ != "FileSeekError"@);
    reveal_strlit("FileGetError");
    assert("FileGetError"@.len() == 12);
    assert("FriendNotFoundError"@ != "FileGetError"@);
    reveal_strlit("FileSendError");
    assert("FileSendError"@.len() == 13);
    assert("FriendNotFoundError"@ != "FileSendError"@);
    reveal_strlit("FileSendChunkError");
    assert("FileSendChunkError"@.len() == 18);
    assert("FriendNotFoundError"@ != "FileSendChunkError"@);
    reveal_strlit("Conference");
    assert("Conference"@.len() == 10);
    assert("FriendNotFoundError"@ != "Conference"@);
    reveal_strlit("ConferencePeerList");
    assert("ConferencePeerList"@.len() == 18);
    assert("FriendNotFoundError"@ != "ConferencePeerList"@);
    reveal_strlit("ConferencePeerCount");
    assert("ConferencePeerCount"@.len() == 19);
    assert("FriendNotFoundError"@[0] == 'F');
    assert("ConferencePeerCount"@[0] == 'C');
    assert("FriendNotFoundError"@ != "ConferencePeerCount"@);
    reveal_strlit("ConferencePeerName");
    assert("ConferencePeerName"@.len() == 18);
    assert("FriendNotFoundError"@ != "ConferencePeerName"@);
    reveal_strlit("ConferencePeerPublicKey");
    assert("ConferencePeerPublicKey"@.len() == 23);
    assert("FriendNotFoundError"@ != "ConferencePeerPublicKey"@);
    reveal_strlit("IsOwnPeerNumber");
    assert("IsOwnPeerNumber"@.len() == 15);
    assert("FriendNotFoundError"@ != "IsOwnPeerNumber"@);
    reveal_strlit("ConferenceTitle");
    assert("ConferenceTitle"@.len() == 15);
    assert("FriendNotFoundError"@ != "ConferenceTitle"@);
    reveal_strlit("ConferenceList");
    assert("ConferenceList"@.len() == 14);
    assert("FriendNotFoundError"@ != "ConferenceList"@);
    reveal_strlit("ConferenceType");
    assert("ConferenceType"@.len() == 14);
    assert("FriendNotFoundError"@ != "ConferenceType"@);
    reveal_strlit("AddFriendError");
    assert("AddFriendError"@.len() == 14);
    assert("FriendNotFoundError"@ != "AddFriendError"@);
    reveal_strlit("SendFriendMessageError");
    assert("SendFriendMessageError"@.len() == 22);
    assert("FriendNotFoundError"@ != "SendFriendMessageError"@);
    assert(jlookup(ms, "response"@) == Some(JsonV::Str("FriendNotFoundError"@)));
    assert(resp_from_json(JsonV::Obj(ms)) == resp_dispatch("FriendNotFoundError"@, ms));
    assert(resp_dispatch("FriendNotFoundError"@, ms) == resp_dispatch2("FriendNotFoundError"@, ms));
    assert(resp_dispatch2("FriendNotFoundError"@, ms) == resp_dispatch3("FriendNotFoundError"@, ms));
    assert(resp_dispatch3("FriendNotFoundError"@, ms) == Ok::<ResponseV, DecodeError>(v));
    reveal_with_fuel(jdepth_fields, 10);
    assert(jdepth(m1.1) == 0);
    assert(jdepth_fields(seq![m1]) <= 5);
    assert(jdepth(JsonV::Obj(ms)) <= 6);
}

proof fn lemma_resp_conference_invite_error_rt(error: ConferenceInviteError)
    ensures
        resp_from_json(resp_to_json((ResponseV::ConferenceInviteError { error }))) == Ok::<ResponseV, DecodeError>((ResponseV::ConferenceInviteError { error })),
        jdepth(resp_to_json((ResponseV::ConferenceInviteError { error }))) <= 6,
{
    reveal_with_fuel(jlookup, 10);
    let v = (ResponseV::ConferenceInviteError { error });
    let m1 = ("response"@, JsonV::Str("ConferenceInviteError"@));
    let m2 = ("error"@, JsonV::Str(conference_invite_error_str(error)));
    let ms = seq![m1, m2];
    assert(resp_to_json(v) == JsonV::Obj(ms));
    assert(ms.drop_first() =~= seq![m2]);
    assert(seq![m2].drop_first() =~= Seq::<(Seq<char>, JsonV)>::empty());
    reveal_strlit("response");
    assert("response"@.len() == 8);
    reveal_strlit("ConferenceInviteError");
    assert("ConferenceInviteError"@.len() == 21);
    reveal_strlit("Ok");
    assert("Ok"@.len() == 2);
    assert("ConferenceInviteError"@ != "Ok"@);
    reveal_strlit("MessageSent");
    assert("MessageSent"@.len() == 11);
    assert("ConferenceInviteError"@ != "MessageSent"@);
    reveal_strlit("Info");
    assert("Info"@.len() == 4);
    assert("ConferenceInviteError"@ != "Info"@);
    reveal_strlit("ConnectionStatus");
    assert("ConnectionStatus"@.len() == 16);
    assert("ConferenceInviteError"@ != "ConnectionStatus"@);
    reveal_strlit("Address");
    assert("Address"@.len() == 7);
    assert("ConferenceInviteError"@ != "Address"@);
    reveal_strlit("Nospam");
    assert("Nospam"@.len() == 6);
    assert("ConferenceInviteError"@ != "Nospam"@);
    reveal_strlit("PublicKey");
    assert("PublicKey"@.len() == 9);
    assert("ConferenceInviteError"@ != "PublicKey"@);
    reveal_strlit("Name");
    assert("Name"@.len() == 4);
    assert("ConferenceInviteError"@ != "Name"@);
    reveal_strlit("StatusMessage");
    assert("StatusMessage"@.len() == 13);
    assert("ConferenceInviteError"@ != "StatusMessage"@);
    reveal_strlit("Status");
    assert("Status"@.len() == 6);
    assert("ConferenceInviteError"@ != "Status"@);
    reveal_strlit("Friend");
    assert("Friend"@.len() == 6);
    assert("ConferenceInviteError"@ != "Friend"@);
    reveal_strlit("FriendExists");
    assert("FriendExists"@.len() == 12);
    assert("ConferenceInviteError"@ != "FriendExists"@);
    reveal_strlit("LastOnline");
    assert("LastOnline"@.len() == 10);
    assert("ConferenceInviteError"@ != "LastOnline"@);
    reveal_strlit("FileId");
    assert("FileId"@.len() == 6);
    assert("ConferenceInviteError"@ != "FileId"@);
    reveal_strlit("FileNumber");
    assert("FileNumber"@.len() == 10);
    assert("ConferenceInviteError"@ != "FileNumber"@);
    reveal_strlit("FileControlError");
    assert("FileControlError"@.len() == 16);
    assert("ConferenceInviteError"@ != "FileControlError"@);
    reveal_strlit("FileSeekError");
    assert("FileSeekError"@.len() == 13);
    assert("ConferenceInviteError"@ != "FileSeekError"@);
    reveal_strlit("FileGetError");
    assert("FileGetError"@.len() == 12);
    assert("ConferenceInviteError"@ != "FileGetError"@);
    reveal_strlit("FileSendError");
    assert("FileSendError"@.len() == 13);
    assert("ConferenceInviteError"@ != "FileSendError"@);
    reveal_strlit("FileSendChunkError");
    assert("FileSendChunkError"@.len() == 18);
    assert("ConferenceInviteError"@ != "FileSendChunkError"@);
    reveal_strlit("Conference");
    assert("Conference"@.len() == 10);
    assert("ConferenceInviteError"@ != "Conference"@);
    reveal_strlit("ConferencePeerList");
    assert("ConferencePeerList"@.len() == 18);
    assert("ConferenceInviteError"@ != "ConferencePeerList"@);
    reveal_strlit("ConferencePeerCount");
    assert("ConferencePeerCount"@.len() == 19);
    assert("ConferenceInviteError"@ != "ConferencePeerCount"@);
    reveal_strlit("ConferencePeerName");
    assert("ConferencePeerName"@.len() == 18);
    assert("ConferenceInviteError"@ != "ConferencePeerName"@);
    reveal_strlit("ConferencePeerPublicKey");
    assert("ConferencePeerPublicKey"@.len() == 23);
    assert("ConferenceInviteError"@ != "ConferencePeerPublicKey"@);
    reveal_strlit("IsOwnPeerNumber");
    assert("IsOwnPeerNumber"@.len() == 15);
    assert("ConferenceInviteError"@ != "IsOwnPeerNumber"@);
    reveal_strlit("ConferenceTitle");
    assert("ConferenceTitle"@.len() == 15);
    assert("ConferenceInviteError"@ != "ConferenceTitle"@);
    reveal_strlit("ConferenceList");
    assert("ConferenceList"@.len() == 14);
    assert("ConferenceInviteError"@ != "ConferenceList"@);
    reveal_strlit("ConferenceType");
    assert("ConferenceType"@.len() == 14);
    assert("ConferenceInviteError"@ != "ConferenceType"@);
    reveal_strlit("AddFriendError");
    assert("AddFriendError"@.len() == 14);
    assert("ConferenceInviteError"@ != "AddFriendError"@);
    reveal_strlit("SendFriendMessageError");
    assert("SendFriendMessageError"@.len() == 22);
    assert("ConferenceInviteError"@ != "SendFriendMessageError"@);
    reveal_strlit("FriendNotFoundError");
    assert("FriendNotFoundError"@.len() == 19);
    assert("ConferenceInviteError"@ != "FriendNotFoundError"@);
    reveal_strlit("error");
    assert("error"@.len() == 5);
    assert("error"@ != "response"@);
    assert(jlookup(ms, "response"@) == Some(JsonV::Str("ConferenceInviteError"@)));
    assert(resp_from_json(JsonV::Obj(ms)) == resp_dispatch("ConferenceInviteError"@, ms));
    assert(resp_dispatch("ConferenceInviteError"@, ms) == resp_dispatch2("ConferenceInviteError"@, ms));
    assert(resp_dispatch2("ConferenceInviteError"@, ms) == resp_dispatch3("ConferenceInviteError"@, ms));
    assert(resp_dispatch3("ConferenceInviteError"@, ms) == resp_conference_invite_error_from(ms));
    lemma_conference_invite_error_rt(error);
    assert(jlookup(ms, "error"@) == Some(m2.1));
    assert(sget_conference_invite_error(ms, "error"@) == Ok::<ConferenceInviteError, DecodeError>(error));
    assert(resp_conference_invite_error_from(ms) == Ok::<ResponseV, DecodeError>(v));
    reveal_with_fuel(jdepth_fields, 10);
    assert(jdepth(m1.1) == 0);
    assert(jdepth(m2.1) == 0);
    assert(jdepth_fields(seq![m2]) <= 5);
    assert(jdepth_fields(seq![m1, m2]) <= 5);
    assert(jdepth(JsonV::Obj(ms)) <= 6);
}

proof fn lemma_resp_conference_join_error_rt(error: ConferenceJoinError)
    ensures
        resp_from_json(resp_to_json((ResponseV::ConferenceJoinError { error }))) == Ok::<ResponseV, DecodeError>((ResponseV::ConferenceJoinError { error })),
        jdepth(resp_to_json((ResponseV::ConferenceJoinError { error }))) <= 6,
{
    reveal_with_fuel(jlookup, 10);
    let v = (ResponseV::ConferenceJoinError { error });
    let m1 = ("response"@, JsonV::Str("ConferenceJoinError"@));
    let m2 = ("error"@, JsonV::Str(conference_join_error_str(error)));
    let ms = seq![m1, m2];
    assert(resp_to_json(v) == JsonV::Obj(ms));
    assert(ms.drop_first() =~= seq![m2]);
    assert(seq![m2].drop_first() =~= Seq::<(Seq<char>, JsonV)>::empty());
    reveal_strlit("response");
    assert("response"@.len() == 8);
    reveal_strlit("ConferenceJoinError");
    assert("ConferenceJoinError"@.len() == 19);
    reveal_strlit("Ok");
    assert("Ok"@.len() == 2);
    assert("ConferenceJoinError"@ != "Ok"@);
    reveal_strlit("MessageSent");
    assert("MessageSent"@.len() == 11);
    assert("ConferenceJoinError"@ != "MessageSent"@);
    reveal_strlit("Info");
    assert("Info"@.len() == 4);
    assert("ConferenceJoinError"@ != "Info"@);
    reveal_strlit("ConnectionStatus");
    assert("ConnectionStatus"@.len() == 16);
    assert("ConferenceJoinError"@ != "ConnectionStatus"@);
    reveal_strlit("Address");
    assert("Address"@.len() == 7);
    assert("ConferenceJoinError"@ != "Address"@);
    reveal_strlit("Nospam");
    assert("Nospam"@.len() == 6);
    assert("ConferenceJoinError"@ != "Nospam"@);
    reveal_strlit("PublicKey");
    assert("PublicKey"@.len() == 9);
    assert("ConferenceJoinError"@ != "PublicKey"@);
    reveal_strlit("Name");
    assert("Name"@.len() == 4);
    assert("ConferenceJoinError"@ != "Name"@);
    reveal_strlit("StatusMessage");
    assert("StatusMessage"@.len() == 13);
    assert("ConferenceJoinError"@ != "StatusMessage"@);
    reveal_strlit("Status");
    assert("Status"@.len() == 6);
    assert("ConferenceJoinError"@ != "Status"@);
    reveal_strlit("Friend");
    assert("Friend"@.len() == 6);
    assert("ConferenceJoinError"@ != "Friend"@);
    reveal_strlit("FriendExists");
    assert("FriendExists"@.len() == 12);
    assert("ConferenceJoinError"@ != "FriendExists"@);
    reveal_strlit("LastOnline");
    assert("LastOnline"@.len() == 10);
    assert("ConferenceJoinError"@ != "LastOnline"@);
    reveal_strlit("FileId");
    assert("FileId"@.len() == 6);
    assert("ConferenceJoinError"@ != "FileId"@);
    reveal_strlit("FileNumber");
    assert("FileNumber"@.len() == 10);
    assert("ConferenceJoinError"@ != "FileNumber"@);
    reveal_strlit("FileControlError");
    assert("FileControlError"@.len() == 16);
    assert("ConferenceJoinError"@ != "FileControlError"@);
    reveal_strlit("FileSeekError");
    assert("FileSeekError"@.len() == 13);
    assert("ConferenceJoinError"@ != "FileSeekError"@);
    reveal_strlit("FileGetError");
    assert("FileGetError"@.len() == 12);
    assert("ConferenceJoinError"@ != "FileGetError"@);
    reveal_strlit("FileSendError");
    assert("FileSendError"@.len() == 13);
    assert("ConferenceJoinError"@ != "FileSendError"@);
    reveal_strlit("FileSendChunkError");
    assert("FileSendChunkError"@.len() == 18);
    assert("ConferenceJoinError"@ != "FileSendChunkError"@);
    reveal_strlit("Conference");
    assert("Conference"@.len() == 10);
    assert("ConferenceJoinError"@ != "Conference"@);
    reveal_strlit("ConferencePeerList");
    assert("ConferencePeerList"@.len() == 18);
    assert("ConferenceJoinError"@ != "ConferencePeerList"@);
    reveal_strlit("ConferencePeerCount");
    assert("ConferencePeerCount"@.len() == 19);
    assert("ConferenceJoinError"@[10] == 'J');
    assert("ConferencePeerCount"@[10] == 'P');
    assert("ConferenceJoinError"@ != "ConferencePeerCount"@);
    reveal_strlit("ConferencePeerName");
    assert("ConferencePeerName"@.len() == 18);
    assert("ConferenceJoinError"@ != "ConferencePeerName"@);
    reveal_strlit("ConferencePeerPublicKey");
    assert("ConferencePeerPublicKey"@.len() == 23);
    assert("ConferenceJoinError"@ != "ConferencePeerPublicKey"@);
    reveal_strlit("IsOwnPeerNumber");
    assert("IsOwnPeerNumber"@.len() == 15);
    assert("ConferenceJoinError"@ != "IsOwnPeerNumber"@);
    reveal_strlit("ConferenceTitle");
    assert("ConferenceTitle"@.len() == 15);
    assert("ConferenceJoinError"@ != "ConferenceTitle"@);
    reveal_strlit("ConferenceList");
    assert("ConferenceList"@.len() == 14);
    assert("ConferenceJoinError"@ != "ConferenceList"@);
    reveal_strlit("ConferenceType");
    assert("ConferenceType"@.len() == 14);
    assert("ConferenceJoinError"@ != "ConferenceType"@);
    reveal_strlit("AddFriendError");
    assert("AddFriendError"@.len() == 14);
    assert("ConferenceJoinError"@ != "AddFriendError"@);
    reveal_strlit("SendFriendMessageError");
    assert("SendFriendMessageError"@.len() == 22);
    assert("ConferenceJoinError"@ != "SendFriendMessageError"@);
    reveal_strlit("FriendNotFoundError");
    assert("FriendNotFoundError"@.len() == 19);
    assert("ConferenceJoinError"@[0] == 'C');
    assert("FriendNotFoundError"@[0] == 'F');
    assert("ConferenceJoinError"@ != "FriendNotFoundError"@);
    reveal_strlit("ConferenceInviteError");
    assert("ConferenceInviteError"@.len() == 21);
    assert("ConferenceJoinError"@ != "ConferenceInviteError"@);
    reveal_strlit("error");
    assert("error"@.len() == 5);
    assert("error"@ != "response"@);
    assert(jlookup(ms, "response"@) == Some(JsonV::Str("ConferenceJoinError"@)));
    assert(resp_from_json(JsonV::Obj(ms)) == resp_dispatch("ConferenceJoinError"@, ms));
    assert(resp_dispatch("ConferenceJoinError"@, ms) == resp_dispatch2("ConferenceJoinError"@, ms));
    assert(resp_dispatch2("ConferenceJoinError"@, ms) == resp_dispatch3("ConferenceJoinError"@, ms));
    assert(resp_dispatch3("ConferenceJoinError"@, ms) == resp_conference_join_error_from(ms));
    lemma_conference_join_error_rt(error);
    assert(jlookup(ms, "error"@) == Some(m2.1));
    assert(sget_conference_join_error(ms, "error"@) == Ok::<ConferenceJoinError, DecodeError>(error));
    assert(resp_conference_join_error_from(ms) == Ok::<ResponseV, DecodeError>(v));
    reveal_with_fuel(jdepth_fields, 10);
    assert(jdepth(m1.1) == 0);
    assert(jdepth(m2.1) == 0);
    assert(jdepth_fields(seq![m2]) <= 5);
    assert(jdepth_fields(seq![m1, m2]) <= 5);
    assert(jdepth(JsonV::Obj(ms)) <= 6);
}

proof fn lemma_resp_conference_peer_query_error_rt(error: ConferencePeerQueryError)
    ensures
        resp_from_json(resp_to_json((ResponseV::ConferencePeerQueryError { error }))) == Ok::<ResponseV, DecodeError>((ResponseV::ConferencePeerQueryError { error })),
        jdepth(resp_to_json((ResponseV::ConferencePeerQueryError { error }))) <= 6,
{
    reveal_with_fuel(jlookup, 10);
    let v = (ResponseV::ConferencePeerQueryError { error });
    let m1 = ("response"@, JsonV::Str("ConferencePeerQueryError"@));
    let m2 = ("error"@, JsonV::Str(conference_peer_query_error_str(error)));
    let ms = seq![m1, m2];
    assert(resp_to_json(v) == JsonV::Obj(ms));
    assert(ms.drop_first() =~= seq![m2]);
    assert(seq![m2].drop_first() =~= Seq::<(Seq<char>, JsonV)>::empty());
    reveal_strlit("response");
    assert("response"@.len() == 8);
    reveal_strlit("ConferencePeerQueryError");
    assert("ConferencePeerQueryError"@.len() == 24);
    reveal_strlit("Ok");
    assert("Ok"@.len() == 2);
    assert("ConferencePeerQueryError"@ != "Ok"@);
    reveal_strlit("MessageSent");
    assert("MessageSent"@.len() == 11);
    assert("ConferencePeerQueryError"@ != "MessageSent"@);
    reveal_strlit("Info");
    assert("Info"@.len() == 4);
    assert("ConferencePeerQueryError"@ != "Info"@);
    reveal_strlit("ConnectionStatus");
    assert("ConnectionStatus"@.len() == 16);
    assert("ConferencePeerQueryError"@ != "ConnectionStatus"@);
    reveal_strlit("Address");
    assert("Address"@.len() == 7);
    assert("ConferencePeerQueryError"@ != "Address"@);
    reveal_strlit("Nospam");
    assert("Nospam"@.len() == 6);
    assert("ConferencePeerQueryError"@ != "Nospam"@);
    reveal_strlit("PublicKey");
    assert("PublicKey"@.len() == 9);
    assert("ConferencePeerQueryError"@ != "PublicKey"@);
    reveal_strlit("Name");
    assert("Name"@.len() == 4);
    assert("ConferencePeerQueryError"@ != "Name"@);
    reveal_strlit("StatusMessage");
    assert("StatusMessage"@.len() == 13);
    assert("ConferencePeerQueryError"@ != "StatusMessage"@);
    reveal_strlit("Status");
    assert("Status"@.len() == 6);
    assert("ConferencePeerQueryError"@ != "Status"@);
    reveal_strlit("Friend");
    assert("Friend"@.len() == 6);
    assert("ConferencePeerQueryError"@ != "Friend"@);
    reveal_strlit("FriendExists");
    assert("FriendExists"@.len() == 12);
    assert("ConferencePeerQueryError"@ != "FriendExists"@);
    reveal_strlit("LastOnline");
    assert("LastOnline"@.len() == 10);
    assert("ConferencePeerQueryError"@ != "LastOnline"@);
    reveal_strlit("FileId");
    assert("FileId"@.len() == 6);
    assert("ConferencePeerQueryError"@ != "FileId"@);
    reveal_strlit("FileNumber");
    assert("FileNumber"@.len() == 10);
    assert("ConferencePeerQueryError"@ != "FileNumber"@);
    reveal_strlit("FileControlError");
    assert("FileControlError"@.len() == 16);
    assert("ConferencePeerQueryError"@ != "FileControlError"@);
    reveal_strlit("FileSeekError");
    assert("FileSeekError"@.len() == 13);
    assert("ConferencePeerQueryError"@ != "FileSeekError"@);
    reveal_strlit("FileGetError");
    assert("FileGetError"@.len() == 12);
    assert("ConferencePeerQueryError"@ != "FileGetError"@);
    reveal_strlit("FileSendError");
    assert("FileSendError"@.len() == 13);
    assert("ConferencePeerQueryError"@ != "FileSendError"@);
    reveal_strlit("FileSendChunkError");
    assert("FileSendChunkError"@.len() == 18);
    assert("ConferencePeerQueryError"@ != "FileSendChunkError"@);
    reveal_strlit("Conference");
    assert("Conference"@.len() == 10);
    assert("ConferencePeerQueryError"@ != "Conference"@);
    reveal_strlit("ConferencePeerList");
    assert("ConferencePeerList"@.len() == 18);
    assert("ConferencePeerQueryError"@ != "ConferencePeerList"@);
    reveal_strlit("ConferencePeerCount");
    assert("ConferencePeerCount"@.len() == 19);
    assert("ConferencePeerQueryError"@ != "ConferencePeerCount"@);
    reveal_strlit("ConferencePeerName");
    assert("ConferencePeerName"@.len() == 18);
    assert("ConferencePeerQueryError"@ != "ConferencePeerName"@);
    reveal_strlit("ConferencePeerPublicKey");
    assert("ConferencePeerPublicKey"@.len() == 23);
    assert("ConferencePeerQueryError"@ != "ConferencePeerPublicKey"@);
    reveal_strlit("IsOwnPeerNumber");
    assert("IsOwnPeerNumber"@.len() == 15);
    assert("ConferencePeerQueryError"@ != "IsOwnPeerNumber"@);
    reveal_strlit("ConferenceTitle");
    assert("ConferenceTitle"@.len() == 15);
    assert("ConferencePeerQueryError"@ != "ConferenceTitle"@);
    reveal_strlit("ConferenceList");
    assert("ConferenceList"@.len() == 14);
    assert("ConferencePeerQueryError"@ != "ConferenceList"@);
    reveal_strlit("ConferenceType");
    assert("ConferenceType"@.len() == 14);
    assert("ConferencePeerQueryError"@ != "ConferenceType"@);
    reveal_strlit("AddFriendError");
    assert("AddFriendError"@.len() == 14);
    assert("ConferencePeerQueryError"@ != "AddFriendError"@);
    reveal_strlit("SendFriendMessageError");
    assert("SendFriendMessageError"@.len() == 22);
    assert("ConferencePeerQueryError"@ != "SendFriendMessageError"@);
    reveal_strlit("FriendNotFoundError");
    assert("FriendNotFoundError"@.len() == 19);
    assert("ConferencePeerQueryError"@ != "FriendNotFoundError"@);
    reveal_strlit("ConferenceInviteError");
    assert("ConferenceInviteError"@.len() == 21);
    assert("ConferencePeerQueryError"@ != "ConferenceInviteError"@);
    reveal_strlit("ConferenceJoinError");
    assert("ConferenceJoinError"@.len() == 19);
    assert("ConferencePeerQueryError"@ != "ConferenceJoinError"@);
    reveal_strlit("error");
    assert("error"@.len() == 5);
    assert("error"@ != "response"@);
    assert(jlookup(ms, "response"@) == Some(JsonV::Str("ConferencePeerQueryError"@)));
    assert(resp_from_json(JsonV::Obj(ms)) == resp_dispatch("ConferencePeerQueryError"@, ms));
    assert(resp_dispatch("ConferencePeerQueryError"@, ms) == resp_dispatch2("ConferencePeerQueryError"@, ms));
    assert(resp_dispatch2("ConferencePeerQueryError"@, ms) == resp_dispatch3("ConferencePeerQueryError"@, ms));
    assert(resp_dispatch3("ConferencePeerQueryError"@, ms) == resp_conference_peer_query_error_from(ms));
    lemma_conference_peer_query_error_rt(error);
    assert(jlookup(ms, "error"@) == Some(m2.1));
    assert(sget_conference_peer_query_error(ms, "error"@) == Ok::<ConferencePeerQueryError, DecodeError>(error));
    assert(resp_conference_peer_query_error_from(ms) == Ok::<ResponseV, DecodeError>(v));
    reveal_with_fuel(jdepth_fields, 10);
    assert(jdepth(m1.1) == 0);
    assert(jdepth(m2.1) == 0);
    assert(jdepth_fields(seq![m2]) <= 5);
    assert(jdepth_fields(seq![m1, m2]) <= 5);
    assert(jdepth(JsonV::Obj(ms)) <= 6);
}

proof fn lemma_resp_conference_send_error_rt(error: ConferenceSendError)
    ensures
        resp_from_json(resp_to_json((ResponseV::ConferenceSendError { error }))) == Ok::<ResponseV, DecodeError>((ResponseV::ConferenceSendError { error })),
        jdepth(resp_to_json((ResponseV::ConferenceSendError { error }))) <= 6,
{
    reveal_with_fuel(jlookup, 10);
    let v = (ResponseV::ConferenceSendError { error });
    let m1 = ("response"@, JsonV::Str("ConferenceSendError"@));
    let m2 = ("error"@, JsonV::Str(conference_send_error_str(error)));
    let ms = seq![m1, m2];
    assert(resp_to_json(v) == JsonV::Obj(ms));
    assert(ms.drop_first() =~= seq![m2]);
    assert(seq![m2].drop_first() =~= Seq::<(Seq<char>, JsonV)>::empty());
    reveal_strlit("response");
    assert("response"@.len() == 8);
    reveal_strlit("ConferenceSendError");
    assert("ConferenceSendError"@.len() == 19);
    reveal_strlit("Ok");
    assert("Ok"@.len() == 2);
    assert("ConferenceSendError"@ != "Ok"@);
    reveal_strlit("MessageSent");
    assert("MessageSent"@.len() == 11);
    assert("ConferenceSendError"@ != "MessageSent"@);
    reveal_strlit("Info");
    assert("Info"@.len() == 4);
    assert("ConferenceSendError"@ != "Info"@);
    reveal_strlit("ConnectionStatus");
    assert("ConnectionStatus"@.len() == 16);
    assert("ConferenceSendError"@ != "ConnectionStatus"@);
    reveal_strlit("Address");
    assert("Address"@.len() == 7);
    assert("ConferenceSendError"@ != "Address"@);
    reveal_strlit("Nospam");
    assert("Nospam"@.len() == 6);
    assert("ConferenceSendError"@ != "Nospam"@);
    reveal_strlit("PublicKey");
    assert("PublicKey"@.len() == 9);
    assert("ConferenceSendError"@ != "PublicKey"@);
    reveal_strlit("Name");
    assert("Name"@.len() == 4);
    assert("ConferenceSendError"@ != "Name"@);
    reveal_strlit("StatusMessage");
    assert("StatusMessage"@.len() == 13);
    assert("ConferenceSendError"@ != "StatusMessage"@);
    reveal_strlit("Status");
    assert("Status"@.len() == 6);
    assert("ConferenceSendError"@ != "Status"@);
    reveal_strlit("Friend");
    assert("Friend"@.len() == 6);
    assert("ConferenceSendError"@ != "Friend"@);
    reveal_strlit("FriendExists");
    assert("FriendExists"@.len() == 12);
    assert("ConferenceSendError"@ != "FriendExists"@);
    reveal_strlit("LastOnline");
    assert("LastOnline"@.len() == 10);
    assert("ConferenceSendError"@ != "LastOnline"@);
    reveal_strlit("FileId");
    assert("FileId"@.len() == 6);
    assert("ConferenceSendError"@ != "FileId"@);
    reveal_strlit("FileNumber");
    assert("FileNumber"@.len() == 10);
    assert("ConferenceSendError"@ != "FileNumber"@);
    reveal_strlit("FileControlError");
    assert("FileControlError"@.len() == 16);
    assert("ConferenceSendError"@ != "FileControlError"@);
    reveal_strlit("FileSeekError");
    assert("FileSeekError"@.len() == 13);
    assert("ConferenceSendError"@ != "FileSeekError"@);
    reveal_strlit("FileGetError");
    assert("FileGetError"@.len() == 12);
    assert("ConferenceSendError"@ != "FileGetError"@);
    reveal_strlit("FileSendError");
    assert("FileSendError"@.len() == 13);
    assert("ConferenceSendError"@ != "FileSendError"@);
    reveal_strlit("FileSendChunkError");
    assert("FileSendChunkError"@.len() == 18);
    assert("ConferenceSendError"@ != "FileSendChunkError"@);
    reveal_strlit("Conference");
    assert("Conference"@.len() == 10);
    assert("ConferenceSendError"@ != "Conference"@);
    reveal_strlit("ConferencePeerList");
    assert("ConferencePeerList"@.len() == 18);
    assert("ConferenceSendError"@ != "ConferencePeerList"@);
    reveal_strlit("ConferencePeerCount");
    assert("ConferencePeerCount"@.len() == 19);
    assert("ConferenceSendError"@[10] == 'S');
    assert("ConferencePeerCount"@[10] == 'P');
    assert("ConferenceSendError"@ != "ConferencePeerCount"@);
    reveal_strlit("ConferencePeerName");
    assert("ConferencePeerName"@.len() == 18);
    assert("ConferenceSendError"@ != "ConferencePeerName"@);
    reveal_strlit("ConferencePeerPublicKey");
    assert("ConferencePeerPublicKey"@.len() == 23);
    assert("ConferenceSendError"@ != "ConferencePeerPublicKey"@);
    reveal_strlit("IsOwnPeerNumber");
    assert("IsOwnPeerNumber"@.len() == 15);
    assert("ConferenceSendError"@ != "IsOwnPeerNumber"@);
    reveal_strlit("ConferenceTitle");
    assert("ConferenceTitle"@.len() == 15);
    assert("ConferenceSendError"@ != "ConferenceTitle"@);
    reveal_strlit("ConferenceList");
    assert("ConferenceList"@.len() == 14);
    assert("ConferenceSendError"@ != "ConferenceList"@);
    reveal_strlit("ConferenceType");
    assert("ConferenceType"@.len() == 14);
    assert("ConferenceSendError"@ != "ConferenceType"@);
    reveal_strlit("AddFriendError");
    assert("AddFriendError"@.len() == 14);
    assert("ConferenceSendError"@ != "AddFriendError"@);
    reveal_strlit("SendFriendMessageError");
    assert("SendFriendMessageError"@.len() == 22);
    assert("ConferenceSendError"@ != "SendFriendMessageError"@);
    reveal_strlit("FriendNotFoundError");
    assert("FriendNotFoundError"@.len() == 19);
    assert("ConferenceSendError"@[0] == 'C');
    assert("FriendNotFoundError"@[0] == 'F');
    assert("ConferenceSendError"@ != "FriendNotFoundError"@);
    reveal_strlit("ConferenceInviteError");
    assert("ConferenceInviteError"@.len() == 21);
    assert("ConferenceSendError"@ != "ConferenceInviteError"@);
    reveal_strlit("ConferenceJoinError");
    assert("ConferenceJoinError"@.len() == 19);
    assert("ConferenceSendError"@[10] == 'S');
    assert("ConferenceJoinError"@[10] == 'J');
    assert("ConferenceSendError"@ != "ConferenceJoinError"@);
    reveal_strlit("ConferencePeerQueryError");
    assert("ConferencePeerQueryError"@.len() == 24);
    assert("ConferenceSendError"@ != "ConferencePeerQueryError"@);
    reveal_strlit("error");
    assert("error"@.len() == 5);
    assert("error"@ != "response"@);
    assert(jlookup(ms, "response"@) == Some(JsonV::Str("ConferenceSendError"@)));
    assert(resp_from_json(JsonV::Obj(ms)) == resp_dispatch("ConferenceSendError"@, ms));
    assert(resp_dispatch("ConferenceSendError"@, ms) == resp_dispatch2("ConferenceSendError"@, ms));
    assert(resp_dispatch2("ConferenceSendError"@, ms) == resp_dispatch3("ConferenceSendError"@, ms));
    assert(resp_dispatch3("ConferenceSendError"@, ms) == resp_conference_send_error_from(ms));
    lemma_conference_send_error_rt(error);
    assert(jlookup(ms, "error"@) == Some(m2.1));
    assert(sget_conference_send_error(ms, "error"@) == Ok::<ConferenceSendError, DecodeError>(error));
    assert(resp_conference_send_error_from(ms) == Ok::<ResponseV, DecodeError>(v));
    reveal_with_fuel(jdepth_fields, 10);
    assert(jdepth(m1.1) == 0);
    assert(jdepth(m2.1) == 0);
    assert(jdepth_fields(seq![m2]) <= 5);
    assert(jdepth_fields(seq![m1, m2]) <= 5);
    assert(jdepth(JsonV::Obj(ms)) <= 6);
}

proof fn lemma_resp_conference_title_error_rt(error: ConferenceTitleError)
    ensures
        resp_from_json(resp_to_json((ResponseV::ConferenceTitleError { error }))) == Ok::<ResponseV, DecodeError>((ResponseV::ConferenceTitleError { error })),
        jdepth(resp_to_json((ResponseV::ConferenceTitleError { error }))) <= 6,
{
    reveal_with_fuel(jlookup, 10);
    let v = (ResponseV::ConferenceTitleError { error });
    let m1 = ("response"@, JsonV::Str("ConferenceTitleError"@));
    let m2 = ("error"@, JsonV::Str(conference_title_error_str(error)));
    let ms = seq![m1, m2];
    assert(resp_to_json(v) == JsonV::Obj(ms));
    assert(ms.drop_first() =~= seq![m2]);
    assert(seq![m2].drop_first() =~= Seq::<(Seq<char>, JsonV)>::empty());
    reveal_strlit("response");
    assert("response"@.len() == 8);
    reveal_strlit("ConferenceTitleError");
    assert("ConferenceTitleError"@.len() == 20);
    reveal_strlit("Ok");
    assert("Ok"@.len() == 2);
    assert("ConferenceTitleError"@ != "Ok"@);
    reveal_strlit("MessageSent");
    assert("MessageSent"@.len() == 11);
    assert("ConferenceTitleError"@ != "MessageSent"@);
    reveal_strlit("Info");
    assert("Info"@.len() == 4);
    assert("ConferenceTitleError"@ != "Info"@);
    reveal_strlit("ConnectionStatus");
    assert("ConnectionStatus"@.len() == 16);
    assert("ConferenceTitleError"@ != "ConnectionStatus"@);
    reveal_strlit("Address");
    assert("Address"@.len() == 7);
    assert("ConferenceTitleError"@ != "Address"@);
    reveal_strlit("Nospam");
    assert("Nospam"@.len() == 6);
    assert("ConferenceTitleError"@ != "Nospam"@);
    reveal_strlit("PublicKey");
    assert("PublicKey"@.len() == 9);
    assert("ConferenceTitleError"@ != "PublicKey"@);
    reveal_strlit("Name");
    assert("Name"@.len() == 4);
    assert("ConferenceTitleError"@ != "Name"@);
    reveal_strlit("StatusMessage");
    assert("StatusMessage"@.len() == 13);
    assert("ConferenceTitleError"@ != "StatusMessage"@);
    reveal_strlit("Status");
    assert("Status"@.len() == 6);
    assert("ConferenceTitleError"@ != "Status"@);
    reveal_strlit("Friend");
    assert("Friend"@.len() == 6);
    assert("ConferenceTitleError"@ != "Friend"@);
    reveal_strlit("FriendExists");
    assert("FriendExists"@.len() == 12);
    assert("ConferenceTitleError"@ != "FriendExists"@);
    reveal_strlit("LastOnline");
    assert("LastOnline"@.len() == 10);
    assert("ConferenceTitleError"@ != "LastOnline"@);
    reveal_strlit("FileId");
    assert("FileId"@.len() == 6);
    assert("ConferenceTitleError"@ != "FileId"@);
    reveal_strlit("FileNumber");
    assert("FileNumber"@.len() == 10);
    assert("ConferenceTitleError"@ != "FileNumber"@);
    reveal_strlit("FileControlError");
    assert("FileControlError"@.len() == 16);
    assert("ConferenceTitleError"@ != "FileControlError"@);
    reveal_strlit("FileSeekError");
    assert("FileSeekError"@.len() == 13);
    assert("ConferenceTitleError"@ != "FileSeekError"@);
    reveal_strlit("FileGetError");
    assert("FileGetError"@.len() == 12);
    assert("ConferenceTitleError"@ != "FileGetError"@);
    reveal_strlit("FileSendError");
    assert("FileSendError"@.len() == 13);
    assert("ConferenceTitleError"@ != "FileSendError"@);
    reveal_strlit("FileSendChunkError");
    assert("FileSendChunkError"@.len() == 18);
    assert("ConferenceTitleError"@ != "FileSendChunkError"@);
    reveal_strlit("Conference");
    assert("Conference"@.len() == 10);
    assert("ConferenceTitleError"@ != "Conference"@);
    reveal_strlit("ConferencePeerList");
    assert("ConferencePeerList"@.len() == 18);
    assert("ConferenceTitleError"@ != "ConferencePeerList"@);
    reveal_strlit("ConferencePeerCount");
    assert("ConferencePeerCount"@.len() == 19);
    assert("ConferenceTitleError"@ != "ConferencePeerCount"@);
    reveal_strlit("ConferencePeerName");
    assert("ConferencePeerName"@.len() == 18);
    assert("ConferenceTitleError"@ != "ConferencePeerName"@);
    reveal_strlit("ConferencePeerPublicKey");
    assert("ConferencePeerPublicKey"@.len() == 23);
    assert("ConferenceTitleError"@ != "ConferencePeerPublicKey"@);
    reveal_strlit("IsOwnPeerNumber");
    assert("IsOwnPeerNumber"@.len() == 15);
    assert("ConferenceTitleError"@ != "IsOwnPeerNumber"@);
    reveal_strlit("ConferenceTitle");
    assert("ConferenceTitle"@.len() == 15);
    assert("ConferenceTitleError"@ != "ConferenceTitle"@);
    reveal_strlit("ConferenceList");
    assert("ConferenceList"@.len() == 14);
    assert("ConferenceTitleError"@ != "ConferenceList"@);
    reveal_strlit("ConferenceType");
    assert("ConferenceType"@.len() == 14);
    assert("ConferenceTitleError"@ != "ConferenceType"@);
    reveal_strlit("AddFriendError");
    assert("AddFriendError"@.len() == 14);
    assert("ConferenceTitleError"@ != "AddFriendError"@);
    reveal_strlit("SendFriendMessageError");
    assert("SendFriendMessageError"@.len() == 22);
    assert("ConferenceTitleError"@ != "SendFriendMessageError"@);
    reveal_strlit("FriendNotFoundError");
    assert("FriendNotFoundError"@.len() == 19);
    assert("ConferenceTitleError"@ != "FriendNotFoundError"@);
    reveal_strlit("ConferenceInviteError");
    assert("ConferenceInviteError"@.len() == 21);
    assert("ConferenceTitleError"@ != "ConferenceInviteError"@);
    reveal_strlit("ConferenceJoinError");
    assert("ConferenceJoinError"@.len() == 19);
    assert("ConferenceTitleError"@ != "ConferenceJoinError"@);
    reveal_strlit("ConferencePeerQueryError");
    assert("ConferencePeerQueryError"@.len() == 24);
    assert("ConferenceTitleError"@ != "ConferencePeerQueryError"@);
    reveal_strlit("ConferenceSendError");
    assert("ConferenceSendError"@.len() == 19);
    assert("ConferenceTitleError"@ != "ConferenceSendError"@);
    reveal_strlit("error");
    assert("error"@.len() == 5);
    assert("error"@ != "response"@);
    assert(jlookup(ms, "response"@) == Some(JsonV::Str("ConferenceTitleError"@)));
    assert(resp_from_json(JsonV::Obj(ms)) == resp_dispatch("ConferenceTitleError"@, ms));
    assert(resp_dispatch("ConferenceTitleError"@, ms) == resp_dispatch2("ConferenceTitleError"@, ms));
    assert(resp_dispatch2("ConferenceTitleError"@, ms) == resp_dispatch3("ConferenceTitleError"@, ms));
    assert(resp_dispatch3("ConferenceTitleError"@, ms) == resp_dispatch4("ConferenceTitleError"@, ms));
    assert(resp_dispatch4("ConferenceTitleError"@, ms) == resp_conference_title_error_from(ms));
    lemma_conference_title_error_rt(error);
    assert(jlookup(ms, "error"@) == Some(m2.1));
    assert(sget_conference_title_error(ms, "error"@) == Ok::<ConferenceTitleError, DecodeError>(error));
    assert(resp_conference_title_error_from(ms) == Ok::<ResponseV, DecodeError>(v));
    reveal_with_fuel(jdepth_fields, 10);
    assert(jdepth(m1.1) == 0);
    assert(jdepth(m2.1) == 0);
    assert(jdepth_fields(seq![m2]) <= 5);
    assert(jdepth_fields(seq![m1, m2]) <= 5);
    assert(jdepth(JsonV::Obj(ms)) <= 6);
}

/// Reading back the wire object of any response gives the same value, and
/// that object nests far below the parser's depth limit.
pub proof fn lemma_resp_from_to(v: ResponseV)
    ensures
        resp_from_json(resp_to_json(v)) == Ok::<ResponseV, DecodeError>(v),
        jdepth(resp_to_json(v)) <= 6,
{
    match v {
        ResponseV::Okay => lemma_resp_okay_rt(),
        ResponseV::MessageSent { message_id } => lemma_resp_message_sent_rt(message_id),
        ResponseV::Info { tox_id, name, status, status_message, friends } => lemma_resp_info_rt(tox_id, name, status, status_message, friends),
        ResponseV::ConnectionStatus { status } => lemma_resp_connection_status_rt(status),
        ResponseV::Address { address } => lemma_resp_address_rt(address),
        ResponseV::Nospam { nospam } => lemma_resp_nospam_rt(nospam),
        ResponseV::PublicKey { public_key } => lemma_resp_public_key_rt(public_key),
        ResponseV::Name { name } => lemma_resp_name_rt(name),
        ResponseV::StatusMessage { status } => lemma_resp_status_message_rt(status),
        ResponseV::Status { status } => lemma_resp_status_rt(status),
        ResponseV::Friend { friend } => lemma_resp_friend_rt(friend),
        ResponseV::FriendExists { exists } => lemma_resp_friend_exists_rt(exists),
        ResponseV::LastOnline { last_online } => lemma_resp_last_online_rt(last_online),
        ResponseV::FileId { id } => lemma_resp_file_id_rt(id),
        ResponseV::FileNumber { file_number } => lemma_resp_file_number_rt(file_number),
        ResponseV::FileControlError { error } => lemma_resp_file_control_error_rt(error),
        ResponseV::FileSeekError { error } => lemma_resp_file_seek_error_rt(error),
        ResponseV::FileGetError { error } => lemma_resp_file_get_error_rt(error),
        ResponseV::FileSendError { error } => lemma_resp_file_send_error_rt(error),
        ResponseV::FileSendChunkError { error } => lemma_resp_file_send_chunk_error_rt(error),
        ResponseV::Conference { conference } => lemma_resp_conference_rt(conference),
        ResponseV::ConferencePeerList { peers } => lemma_resp_conference_peer_list_rt(peers),
        ResponseV::ConferencePeerCount { count } => lemma_resp_conference_peer_count_rt(count),
        ResponseV::ConferencePeerName { name } => lemma_resp_conference_peer_name_rt(name),
        ResponseV::ConferencePeerPublicKey { public_key } => lemma_resp_conference_peer_public_key_rt(public_key),
        ResponseV::IsOwnPeerNumber { is_own } => lemma_resp_is_own_peer_number_rt(is_own),
        ResponseV::ConferenceTitle { title } => lemma_resp_conference_title_rt(title),
        ResponseV::ConferenceList { conferences } => lemma_resp_conference_list_rt(conferences),
        ResponseV::ConferenceType { kind } => lemma_resp_conference_type_rt(kind),
        ResponseV::AddFriendError { error } => lemma_resp_add_friend_error_rt(error),
        ResponseV::SendFriendMessageError { error } => lemma_resp_send_friend_message_error_rt(error),
        ResponseV::FriendNotFoundError => lemma_resp_friend_not_found_error_rt(),
        ResponseV::ConferenceInviteError { error } => lemma_resp_conference_invite_error_rt(error),
        ResponseV::ConferenceJoinError { error } => lemma_resp_conference_join_error_rt(error),
        ResponseV::ConferencePeerQueryError { error } => lemma_resp_conference_peer_query_error_rt(error),
        ResponseV::ConferenceSendError { error } => lemma_resp_conference_send_error_rt(error),
        ResponseV::ConferenceTitleError { error } => lemma_resp_conference_title_error_rt(error),
    }
}

/// Round trip: decoding the rendered text of any response yields exactly
/// that value.
pub proof fn lemma_response_round_trip(v: ResponseV)
    ensures
        resp_decode(render(resp_to_json(v))) == Ok::<ResponseV, DecodeError>(v),
{
    lemma_resp_from_to(v);
    lemma_json_round_trip(resp_to_json(v));
}

impl Response {
    /// The wire text of this response.
    pub fn to_wire(&self) -> (r: String)
        ensures
            r@ == render(resp_to_json(self@)),
    {
        let j = response_value_to_json(self);
        to_text(&j)
    }

    /// Reads one response out of wire text.
    pub fn from_wire(s: &str) -> (r: Result<Response, DecodeError>)
        ensures
            ({
                let sp = resp_decode(s@);
                match r {
                    Ok(q) => sp == Ok::<ResponseV, DecodeError>(q@),
                    Err(e) => sp == Err::<ResponseV, DecodeError>(e),
                }
            }),
    {
        match from_text(s) {
            Some(j) => response_value_of_json(&j),
            None => Err(DecodeError::Syntax),
        }
    }
}

} // verus!