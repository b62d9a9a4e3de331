//! The wire text of every inner enum of the schema: connection and user
//! status, message and file kinds, and each scoped error enum of the error
//! taxonomy. Every enum travels as a bare string naming its variant; an
//! unrecognized name fails with `UnknownVariant`.

use vstd::prelude::*;

use crate::json::{Json, JsonV, jview_fields};
use crate::codec::jlookup;
use crate::codec::obj_get;
use crate::schema::{ConnectionStatus, UserStatus, MessageType, FileControl, FileKind, ConferenceType, AddFriendError, SendFriendMessageError, FileControlError, FileSeekError, FileGetError, FileSendError, FileSendChunkError, ConferenceInviteError, ConferenceJoinError, ConferencePeerQueryError, ConferenceSendError, ConferenceTitleError, DecodeError};
use crate::text::str_eq;

verus! {

broadcast use vstd::string::group_string_axioms;

pub open spec fn connection_status_str(v: ConnectionStatus) -> Seq<char> {
    match v {
        ConnectionStatus::Disconnected => "None"@,
        ConnectionStatus::Tcp => "Tcp"@,
        ConnectionStatus::Udp => "Udp"@,
    }
}

pub open spec fn connection_status_from(s: Seq<char>) -> Option<ConnectionStatus> {
    if s == "None"@ {
        Some(ConnectionStatus::Disconnected)
    } else if s == "Tcp"@ {
        Some(ConnectionStatus::Tcp)
    } else if s == "Udp"@ {
        Some(ConnectionStatus::Udp)
    } else {
        None
    }
}

pub fn connection_status_to_text(v: &ConnectionStatus) -> (r: String)
    ensures
        r@ == connection_status_str(*v),
{
    match v {
        ConnectionStatus::Disconnected => String::from_str("None"),
        ConnectionStatus::Tcp => String::from_str("Tcp"),
        ConnectionStatus::Udp => String::from_str("Udp"),
    }
}

pub fn connection_status_from_text(s: &str) -> (r: Option<ConnectionStatus>)
    ensures
        r == connection_status_from(s@),
{
    if str_eq(s, "None") {
        Some(ConnectionStatus::Disconnected)
    } else if str_eq(s, "Tcp") {
        Some(ConnectionStatus::Tcp)
    } else if str_eq(s, "Udp") {
        Some(ConnectionStatus::Udp)
    } else {
        None
    }
}

/// Reading back the wire name of any variant gives that variant.
pub proof fn lemma_connection_status_rt(v: ConnectionStatus)
    ensures
        connection_status_from(connection_status_str(v)) == Some(v),
{
    reveal_strlit("None");
    assert("None"@.len() == 4);
    reveal_strlit("Tcp");
    assert("Tcp"@.len() == 3);
    reveal_strlit("Udp");
    assert("Udp"@.len() == 3);
    match v {
        ConnectionStatus::Disconnected => {
        },
        ConnectionStatus::Tcp => {
            assert("Tcp"@ != "None"@);
        },
        ConnectionStatus::Udp => {
            assert("Udp"@ != "None"@);
            assert("Udp"@[0] == 'U');
            assert("Tcp"@[0] == 'T');
            assert("Udp"@ != "Tcp"@);
        },
    }
}

pub open spec fn sget_connection_status(fs: Seq<(Seq<char>, JsonV)>, key: Seq<char>) -> Result<
    ConnectionStatus,
    DecodeError,
> {
    match jlookup(fs, key) {
        Some(JsonV::Str(s)) => match connection_status_from(s) {
            Some(v) => Ok(v),
            None => Err(DecodeError::UnknownVariant),
        },
        Some(_) => Err(DecodeError::MalformedField),
        None => Err(DecodeError::MissingField),
    }
}

pub fn jget_connection_status(fields: &Vec<(String, Json)>, key: &str) -> (r: Result<
    ConnectionStatus,
    DecodeError,
>)
    ensures
        r == sget_connection_status(jview_fields(fields@), key@),
{
    match obj_get(fields, key) {
        Some(j) => match j {
            Json::Str(s) => match connection_status_from_text(s.as_str()) {
                Some(v) => Ok(v),
                None => Err(DecodeError::UnknownVariant),
            },
            _ => Err(DecodeError::MalformedField),
        },
        None => Err(DecodeError::MissingField),
    }
}

pub open spec fn user_status_str(v: UserStatus) -> Seq<char> {
    match v {
        UserStatus::Available => "None"@,
        UserStatus::Away => "Away"@,
        UserStatus::Busy => "Busy"@,
    }
}

pub open spec fn user_status_from(s: Seq<char>) -> Option<UserStatus> {
    if s == "None"@ {
        Some(UserStatus::Available)
    } else if s == "Away"@ {
        Some(UserStatus::Away)
    } else if s == "Busy"@ {
        Some(UserStatus::Busy)
    } else {
        None
    }
}

pub fn user_status_to_text(v: &UserStatus) -> (r: String)
    ensures
        r@ == user_status_str(*v),
{
    match v {
        UserStatus::Available => String::from_str("None"),
        UserStatus::Away => String::from_str("Away"),
        UserStatus::Busy => String::from_str("Busy"),
    }
}

pub fn user_status_from_text(s: &str) -> (r: Option<UserStatus>)
    ensures
        r == user_status_from(s@),
{
    if str_eq(s, "None") {
        Some(UserStatus::Available)
    } else if str_eq(s, "Away") {
        Some(UserStatus::Away)
    } else if str_eq(s, "Busy") {
        Some(UserStatus::Busy)
    } else {
        None
    }
}

/// Reading back the wire name of any variant gives that variant.
pub proof fn lemma_user_status_rt(v: UserStatus)
    ensures
        user_status_from(user_status_str(v)) == Some(v),
{
    reveal_strlit("None");
    assert("None"@.len() == 4);
    reveal_strlit("Away");
    assert("Away"@.len() == 4);
    reveal_strlit("Busy");
    assert("Busy"@.len() == 4);
    match v {
        UserStatus::Available => {
        },
        UserStatus::Away => {
            assert("Away"@[0] == 'A');
            assert("None"@[0] == 'N');
            assert("Away"@ != "None"@);
        },
        UserStatus::Busy => {
            assert("Busy"@[0] == 'B');
            assert("None"@[0] == 'N');
            assert("Busy"@ != "None"@);
            assert("Busy"@[0] == 'B');
            assert("Away"@[0] == 'A');
            assert("Busy"@ != "Away"@);
        },
    }
}

pub open spec fn sget_user_status(fs: Seq<(Seq<char>, JsonV)>, key: Seq<char>) -> Result<
    UserStatus,
    DecodeError,
> {
    match jlookup(fs, key) {
        Some(JsonV::Str(s)) => match user_status_from(s) {
            Some(v) => Ok(v),
            None => Err(DecodeError::UnknownVariant),
        },
        Some(_) => Err(DecodeError::MalformedField),
        None => Err(DecodeError::MissingField),
    }
}

pub fn jget_user_status(fields: &Vec<(String, Json)>, key: &str) -> (r: Result<
    UserStatus,
    DecodeError,
>)
    ensures
        r == sget_user_status(jview_fields(fields@), key@),
{
    match obj_get(fields, key) {
        Some(j) => match j {
            Json::Str(s) => match user_status_from_text(s.as_str()) {
                Some(v) => Ok(v),
                None => Err(DecodeError::UnknownVariant),
            },
            _ => Err(DecodeError::MalformedField),
        },
        None => Err(DecodeError::MissingField),
    }
}

pub open spec fn message_type_str(v: MessageType) -> Seq<char> {
    match v {
        MessageType::Normal => "Normal"@,
        MessageType::Action => "Action"@,
    }
}

pub open spec fn message_type_from(s: Seq<char>) -> Option<MessageType> {
    if s == "Normal"@ {
        Some(MessageType::Normal)
    } else if s == "Action"@ {
        Some(MessageType::Action)
    } else {
        None
    }
}

pub fn message_type_to_text(v: &MessageType) -> (r: String)
    ensures
        r@ == message_type_str(*v),
{
    match v {
        MessageType::Normal => String::from_str("Normal"),
        MessageType::Action => String::from_str("Action"),
    }
}

pub fn message_type_from_text(s: &str) -> (r: Option<MessageType>)
    ensures
        r == message_type_from(s@),
{
    if str_eq(s, "Normal") {
        Some(MessageType::Normal)
    } else if str_eq(s, "Action") {
        Some(MessageType::Action)
    } else {
        None
    }
}

/// Reading back the wire name of any variant gives that variant.
pub proof fn lemma_message_type_rt(v: MessageType)
    ensures
        message_type_from(message_type_str(v)) == Some(v),
{
    reveal_strlit("Normal");
    assert("Normal"@.len() == 6);
    reveal_strlit("Action");
    assert("Action"@.len() == 6);
    match v {
        MessageType::Normal => {
        },
        MessageType::Action => {
            assert("Action"@[0] == 'A');
            assert("Normal"@[0] == 'N');
            assert("Action"@ != "Normal"@);
        },
    }
}

pub open spec fn sget_message_type(fs: Seq<(Seq<char>, JsonV)>, key: Seq<char>) -> Result<
    MessageType,
    DecodeError,
> {
    match jlookup(fs, key) {
        Some(JsonV::Str(s)) => match message_type_from(s) {
            Some(v) => Ok(v),
            None => Err(DecodeError::UnknownVariant),
        },
        Some(_) => Err(DecodeError::MalformedField),
        None => Err(DecodeError::MissingField),
    }
}

pub fn jget_message_type(fields: &Vec<(String, Json)>, key: &str) -> (r: Result<
    MessageType,
    DecodeError,
>)
    ensures
        r == sget_message_type(jview_fields(fields@), key@),
{
    match obj_get(fields, key) {
        Some(j) => match j {
            Json::Str(s) => match message_type_from_text(s.as_str()) {
                Some(v) => Ok(v),
                None => Err(DecodeError::UnknownVariant),
            },
            _ => Err(DecodeError::MalformedField),
        },
        None => Err(DecodeError::MissingField),
    }
}

pub open spec fn file_control_str(v: FileControl) -> Seq<char> {
    match v {
        FileControl::Resume => "Resume"@,
        FileControl::Pause => "Pause"@,
        FileControl::Cancel => "Cancel"@,
    }
}

pub open spec fn file_control_from(s: Seq<char>) -> Option<FileControl> {
    if s == "Resume"@ {
        Some(FileControl::Resume)
    } else if s == "Pause"@ {
        Some(FileControl::Pause)
    } else if s == "Cancel"@ {
        Some(FileControl::Cancel)
    } else {
        None
    }
}

pub fn file_control_to_text(v: &FileControl) -> (r: String)
    ensures
        r@ == file_control_str(*v),
{
    match v {
        FileControl::Resume => String::from_str("Resume"),
        FileControl::Pause => String::from_str("Pause"),
        FileControl::Cancel => String::from_str("Cancel"),
    }
}

pub fn file_control_from_text(s: &str) -> (r: Option<FileControl>)
    ensures
        r == file_control_from(s@),
{
    if str_eq(s, "Resume") {
        Some(FileControl::Resume)
    } else if str_eq(s, "Pause") {
        Some(FileControl::Pause)
    } else if str_eq(s, "Cancel") {
        Some(FileControl::Cancel)
    } else {
        None
    }
}

/// Reading back the wire name of any variant gives that variant.
pub proof fn lemma_file_control_rt(v: FileControl)
    ensures
        file_control_from(file_control_str(v)) == Some(v),
{
    reveal_strlit("Resume");
    assert("Resume"@.len() == 6);
    reveal_strlit("Pause");
    assert("Pause"@.len() == 5);
    reveal_strlit("Cancel");
    assert("Cancel"@.len() == 6);
    match v {
        FileControl::Resume => {
        },
        FileControl::Pause => {
            assert("Pause"@ != "Resume"@);
        },
        FileControl::Cancel => {
            assert("Cancel"@[0] == 'C');
            assert("Resume"@[0] == 'R');
            assert("Cancel"@ != "Resume"@);
            assert("Cancel"@ != "Pause"@);
        },
    }
}

pub open spec fn sget_file_control(fs: Seq<(Seq<char>, JsonV)>, key: Seq<char>) -> Result<
    FileControl,
    DecodeError,
> {
    match jlookup(fs, key) {
        Some(JsonV::Str(s)) => match file_control_from(s) {
            Some(v) => Ok(v),
            None => Err(DecodeError::UnknownVariant),
        },
        Some(_) => Err(DecodeError::MalformedField),
        None => Err(DecodeError::MissingField),
    }
}

pub fn jget_file_control(fields: &Vec<(String, Json)>, key: &str) -> (r: Result<
    FileControl,
    DecodeError,
>)
    ensures
        r == sget_file_control(jview_fields(fields@), key@),
{
    match obj_get(fields, key) {
        Some(j) => match j {
            Json::Str(s) => match file_control_from_text(s.as_str()) {
                Some(v) => Ok(v),
                None => Err(DecodeError::UnknownVariant),
            },
            _ => Err(DecodeError::MalformedField),
        },
        None => Err(DecodeError::MissingField),
    }
}

pub open spec fn file_kind_str(v: FileKind) -> Seq<char> {
    match v {
        FileKind::Data => "Data"@,
        FileKind::Avatar => "Avatar"@,
    }
}

pub open spec fn file_kind_from(s: Seq<char>) -> Option<FileKind> {
    if s == "Data"@ {
        Some(FileKind::Data)
    } else if s == "Avatar"@ {
        Some(FileKind::Avatar)
    } else {
        None
    }
}

pub fn file_kind_to_text(v: &FileKind) -> (r: String)
    ensures
        r@ == file_kind_str(*v),
{
    match v {
        FileKind::Data => String::from_str("Data"),
        FileKind::Avatar => String::from_str("Avatar"),
    }
}

pub fn file_kind_from_text(s: &str) -> (r: Option<FileKind>)
    ensures
        r == file_kind_from(s@),
{
    if str_eq(s, "Data") {
        Some(FileKind::Data)
    } else if str_eq(s, "Avatar") {
        Some(FileKind::Avatar)
    } else {
        None
    }
}

/// Reading back the wire name of any variant gives that variant.
pub proof fn lemma_file_kind_rt(v: FileKind)
    ensures
        file_kind_from(file_kind_str(v)) == Some(v),
{
    reveal_strlit("Data");
    assert("Data"@.len() == 4);
    reveal_strlit("Avatar");
    assert("Avatar"@.len() == 6);
    match v {
        FileKind::Data => {
        },
        FileKind::Avatar => {
            assert("Avatar"@ != "Data"@);
        },
    }
}

pub open spec fn sget_file_kind(fs: Seq<(Seq<char>, JsonV)>, key: Seq<char>) -> Result<
    FileKind,
    DecodeError,
> {
    match jlookup(fs, key) {
        Some(JsonV::Str(s)) => match file_kind_from(s) {
            Some(v) => Ok(v),
            None => Err(DecodeError::UnknownVariant),
        },
        Some(_) => Err(DecodeError::MalformedField),
        None => Err(DecodeError::MissingField),
    }
}

pub fn jget_file_kind(fields: &Vec<(String, Json)>, key: &str) -> (r: Result<
    FileKind,
    DecodeError,
>)
    ensures
        r == sget_file_kind(jview_fields(fields@), key@),
{
    match obj_get(fields, key) {
        Some(j) => match j {
            Json::Str(s) => match file_kind_from_text(s.as_str()) {
                Some(v) => Ok(v),
                None => Err(DecodeError::UnknownVariant),
            },
            _ => Err(DecodeError::MalformedField),
        },
        None => Err(DecodeError::MissingField),
    }
}

pub open spec fn conference_type_str(v: ConferenceType) -> Seq<char> {
    match v {
        ConferenceType::Text => "Text"@,
        ConferenceType::Av => "Av"@,
    }
}

pub open spec fn conference_type_from(s: Seq<char>) -> Option<ConferenceType> {
    if s == "Text"@ {
        Some(ConferenceType::Text)
    } else if s == "Av"@ {
        Some(ConferenceType::Av)
    } else {
        None
    }
}

pub fn conference_type_to_text(v: &ConferenceType) -> (r: String)
    ensures
        r@ == conference_type_str(*v),
{
    match v {
        ConferenceType::Text => String::from_str("Text"),
        ConferenceType::Av => String::from_str("Av"),
    }
}

pub fn conference_type_from_text(s: &str) -> (r: Option<ConferenceType>)
    ensures
        r == conference_type_from(s@),
{
    if str_eq(s, "Text") {
        Some(ConferenceType::Text)
    } else if str_eq(s, "Av") {
        Some(ConferenceType::Av)
    } else {
        None
    }
}

/// Reading back the wire name of any variant gives that variant.
pub proof fn lemma_conference_type_rt(v: ConferenceType)
    ensures
        conference_type_from(conference_type_str(v)) == Some(v),
{
    reveal_strlit("Text");
    assert("Text"@.len() == 4);
    reveal_strlit("Av");
    assert("Av"@.len() == 2);
    match v {
        ConferenceType::Text => {
        },
        ConferenceType::Av => {
            assert("Av"@ != "Text"@);
        },
    }
}

pub open spec fn sget_conference_type(fs: Seq<(Seq<char>, JsonV)>, key: Seq<char>) -> Result<
    ConferenceType,
    DecodeError,
> {
    match jlookup(fs, key) {
        Some(JsonV::Str(s)) => match conference_type_from(s) {
            Some(v) => Ok(v),
            None => Err(DecodeError::UnknownVariant),
        },
        Some(_) => Err(DecodeError::MalformedField),
        None => Err(DecodeError::MissingField),
    }
}

pub fn jget_conference_type(fields: &Vec<(String, Json)>, key: &str) -> (r: Result<
    ConferenceType,
    DecodeError,
>)
    ensures
        r == sget_conference_type(jview_fields(fields@), key@),
{
    match obj_get(fields, key) {
        Some(j) => match j {
            Json::Str(s) => match conference_type_from_text(s.as_str()) {
                Some(v) => Ok(v),
                None => Err(DecodeError::UnknownVariant),
            },
            _ => Err(DecodeError::MalformedField),
        },
        None => Err(DecodeError::MissingField),
    }
}

pub open spec fn add_friend_error_str(v: AddFriendError) -> Seq<char> {
    match v {
        AddFriendError::TooLong => "TooLong"@,
        AddFriendError::NoMessage => "NoMessage"@,
        AddFriendError::OwnKey => "OwnKey"@,
        AddFriendError::AlreadySent => "AlreadySent"@,
        AddFriendError::BadChecksum => "BadChecksum"@,
        AddFriendError::SetNewNospam => "SetNewNospam"@,
    }
}

pub open spec fn add_friend_error_from(s: Seq<char>) -> Option<AddFriendError> {
    if s == "TooLong"@ {
        Some(AddFriendError::TooLong)
    } else if s == "NoMessage"@ {
        Some(AddFriendError::NoMessage)
    } else if s == "OwnKey"@ {
        Some(AddFriendError::OwnKey)
    } else if s == "AlreadySent"@ {
        Some(AddFriendError::AlreadySent)
    } else if s == "BadChecksum"@ {
        Some(AddFriendError::BadChecksum)
    } else if s == "SetNewNospam"@ {
        Some(AddFriendError::SetNewNospam)
    } else {
        None
    }
}

pub fn add_friend_error_to_text(v: &AddFriendError) -> (r: String)
    ensures
        r@ == add_friend_error_str(*v),
{
    match v {
        AddFriendError::TooLong => String::from_str("TooLong"),
        AddFriendError::NoMessage => String::from_str("NoMessage"),
        AddFriendError::OwnKey => String::from_str("OwnKey"),
        AddFriendError::AlreadySent => String::from_str("AlreadySent"),
        AddFriendError::BadChecksum => String::from_str("BadChecksum"),
        AddFriendError::SetNewNospam => String::from_str("SetNewNospam"),
    }
}

pub fn add_friend_error_from_text(s: &str) -> (r: Option<AddFriendError>)
    ensures
        r == add_friend_error_from(s@),
{
    if str_eq(s, "TooLong") {
        Some(AddFriendError::TooLong)
    } else if str_eq(s, "NoMessage") {
        Some(AddFriendError::NoMessage)
    } else if str_eq(s, "OwnKey") {
        Some(AddFriendError::OwnKey)
    } else if str_eq(s, "AlreadySent") {
        Some(AddFriendError::AlreadySent)
    } else if str_eq(s, "BadChecksum") {
        Some(AddFriendError::BadChecksum)
    } else if str_eq(s, "SetNewNospam") {
        Some(AddFriendError::SetNewNospam)
    } else {
        None
    }
}

/// Reading back the wire name of any variant gives that variant.
pub proof fn lemma_add_friend_error_rt(v: AddFriendError)
    ensures
        add_friend_error_from(add_friend_error_str(v)) == Some(v),
{
    reveal_strlit("TooLong");
    assert("TooLong"@.len() == 7);
    reveal_strlit("NoMessage");
    assert("NoMessage"@.len() == 9);
    reveal_strlit("OwnKey");
    assert("OwnKey"@.len() == 6);
    reveal_strlit("AlreadySent");
    assert("AlreadySent"@.len() == 11);
    reveal_strlit("BadChecksum");
    assert("BadChecksum"@.len() == 11);
    reveal_strlit("SetNewNospam");
    assert("SetNewNospam"@.len() == 12);
    match v {
        AddFriendError::TooLong => {
        },
        AddFriendError::NoMessage => {
            assert("NoMessage"@ != "TooLong"@);
        },
        AddFriendError::OwnKey => {
            assert("OwnKey"@ != "TooLong"@);
            assert("OwnKey"@ != "NoMessage"@);
        },
        AddFriendError::AlreadySent => {
            assert("AlreadySent"@ != "TooLong"@);
            assert("AlreadySent"@ != "NoMessage"@);
            assert("AlreadySent"@ != "OwnKey"@);
        },
        AddFriendError::BadChecksum => {
            assert("BadChecksum"@ != "TooLong"@);
            assert("BadChecksum"@ != "NoMessage"@);
            assert("BadChecksum"@ != "OwnKey"@);
            assert("BadChecksum"@[0] == 'B');
            assert("AlreadySent"@[0] == 'A');
            assert("BadChecksum"@ != "AlreadySent"@);
        },
        AddFriendError::SetNewNospam => {
            assert("SetNewNospam"@ != "TooLong"@);
            assert("SetNewNospam"@ != "NoMessage"@);
            assert("SetNewNospam"@ != "OwnKey"@);
            assert("SetNewNospam"@ != "AlreadySent"@);
            assert("SetNewNospam"@ != "BadChecksum"@);
        },
    }
}

pub open spec fn sget_add_friend_error(fs: Seq<(Seq<char>, JsonV)>, key: Seq<char>) -> Result<
    AddFriendError,
    DecodeError,
> {
    match jlookup(fs, key) {
        Some(JsonV::Str(s)) => match add_friend_error_from(s) {
            Some(v) => Ok(v),
            None => Err(DecodeError::UnknownVariant),
        },
        Some(_) => Err(DecodeError::MalformedField),
        None => Err(DecodeError::MissingField),
    }
}

pub fn jget_add_friend_error(fields: &Vec<(String, Json)>, key: &str) -> (r: Result<
    AddFriendError,
    DecodeError,
>)
    ensures
        r == sget_add_friend_error(jview_fields(fields@), key@),
{
    match obj_get(fields, key) {
        Some(j) => match j {
            Json::Str(s) => match add_friend_error_from_text(s.as_str()) {
                Some(v) => Ok(v),
                None => Err(DecodeError::UnknownVariant),
            },
            _ => Err(DecodeError::MalformedField),
        },
        None => Err(DecodeError::MissingField),
    }
}

pub open spec fn send_friend_message_error_str(v: SendFriendMessageError) -> Seq<char> {
    match v {
        SendFriendMessageError::NotFound => "NotFound"@,
        SendFriendMessageError::NotConnected => "NotConnected"@,
        SendFriendMessageError::TooLong => "TooLong"@,
        SendFriendMessageError::Empty => "Empty"@,
    }
}

pub open spec fn send_friend_message_error_from(s: Seq<char>) -> Option<SendFriendMessageError> {
    if s == "NotFound"@ {
        Some(SendFriendMessageError::NotFound)
    } else if s == "NotConnected"@ {
        Some(SendFriendMessageError::NotConnected)
    } else if s == "TooLong"@ {
        Some(SendFriendMessageError::TooLong)
    } else if s == "Empty"@ {
        Some(SendFriendMessageError::Empty)
    } else {
        None
    }
}

pub fn send_friend_message_error_to_text(v: &SendFriendMessageError) -> (r: String)
    ensures
        r@ == send_friend_message_error_str(*v),
{
    match v {
        SendFriendMessageError::NotFound => String::from_str("NotFound"),
        SendFriendMessageError::NotConnected => String::from_str("NotConnected"),
        SendFriendMessageError::TooLong => String::from_str("TooLong"),
        SendFriendMessageError::Empty => String::from_str("Empty"),
    }
}

pub fn send_friend_message_error_from_text(s: &str) -> (r: Option<SendFriendMessageError>)
    ensures
        r == send_friend_message_error_from(s@),
{
    if str_eq(s, "NotFound") {
        Some(SendFriendMessageError::NotFound)
    } else if str_eq(s, "NotConnected") {
        Some(SendFriendMessageError::NotConnected)
    } else if str_eq(s, "TooLong") {
        Some(SendFriendMessageError::TooLong)
    } else if str_eq(s, "Empty") {
        Some(SendFriendMessageError::Empty)
    } else {
        None
    }
}

/// Reading back the wire name of any variant gives that variant.
pub proof fn lemma_send_friend_message_error_rt(v: SendFriendMessageError)
    ensures
        send_friend_message_error_from(send_friend_message_error_str(v)) == Some(v),
{
    reveal_strlit("NotFound");
    assert("NotFound"@.len() == 8);
    reveal_strlit("NotConnected");
    assert("NotConnected"@.len() == 12);
    reveal_strlit("TooLong");
    assert("TooLong"@.len() == 7);
    reveal_strlit("Empty");
    assert("Empty"@.len() == 5);
    match v {
        SendFriendMessageError::NotFound => {
        },
        SendFriendMessageError::NotConnected => {
            assert("NotConnected"@ != "NotFound"@);
        },
        SendFriendMessageError::TooLong => {
            assert("TooLong"@ != "NotFound"@);
            assert("TooLong"@ != "NotConnected"@);
        },
        SendFriendMessageError::Empty => {
            assert("Empty"@ != "NotFound"@);
            assert("Empty"@ != "NotConnected"@);
            assert("Empty"@ != "TooLong"@);
        },
    }
}

pub open spec fn sget_send_friend_message_error(fs: Seq<(Seq<char>, JsonV)>, key: Seq<char>) -> Result<
    SendFriendMessageError,
    DecodeError,
> {
    match jlookup(fs, key) {
        Some(JsonV::Str(s)) => match send_friend_message_error_from(s) {
            Some(v) => Ok(v),
            None => Err(DecodeError::UnknownVariant),
        },
        Some(_) => Err(DecodeError::MalformedField),
        None => Err(DecodeError::MissingField),
    }
}

pub fn jget_send_friend_message_error(fields: &Vec<(String, Json)>, key: &str) -> (r: Result<
    SendFriendMessageError,
    DecodeError,
>)
    ensures
        r == sget_send_friend_message_error(jview_fields(fields@), key@),
{
    match obj_get(fields, key) {
        Some(j) => match j {
            Json::Str(s) => match send_friend_message_error_from_text(s.as_str()) {
                Some(v) => Ok(v),
                None => Err(DecodeError::UnknownVariant),
            },
            _ => Err(DecodeError::MalformedField),
        },
        None => Err(DecodeError::MissingField),
    }
}

pub open spec fn file_control_error_str(v: FileControlError) -> Seq<char> {
    match v {
        FileControlError::FriendNotFound => "FriendNotFound"@,
        FileControlError::FriendNotConnected => "FriendNotConnected"@,
        FileControlError::NotFound => "NotFound"@,
        FileControlError::NotPaused => "NotPaused"@,
        FileControlError::Denied => "Denied"@,
        FileControlError::AlreadyPaused => "AlreadyPaused"@,
        FileControlError::SendQ => "SendQ"@,
    }
}

pub open spec fn file_control_error_from(s: Seq<char>) -> Option<FileControlError> {
    if s == "FriendNotFound"@ {
        Some(FileControlError::FriendNotFound)
    } else if s == "FriendNotConnected"@ {
        Some(FileControlError::FriendNotConnected)
    } else if s == "NotFound"@ {
        Some(FileControlError::NotFound)
    } else if s == "NotPaused"@ {
        Some(FileControlError::NotPaused)
    } else if s == "Denied"@ {
        Some(FileControlError::Denied)
    } else if s == "AlreadyPaused"@ {
        Some(FileControlError::AlreadyPaused)
    } else if s == "SendQ"@ {
        Some(FileControlError::SendQ)
    } else {
        None
    }
}

pub fn file_control_error_to_text(v: &FileControlError) -> (r: String)
    ensures
        r@ == file_control_error_str(*v),
{
    match v {
        FileControlError::FriendNotFound => String::from_str("FriendNotFound"),
        FileControlError::FriendNotConnected => String::from_str("FriendNotConnected"),
        FileControlError::NotFound => String::from_str("NotFound"),
        FileControlError::NotPaused => String::from_str("NotPaused"),
        FileControlError::Denied => String::from_str("Denied"),
        FileControlError::AlreadyPaused => String::from_str("AlreadyPaused"),
        FileControlError::SendQ => String::from_str("SendQ"),
    }
}

pub fn file_control_error_from_text(s: &str) -> (r: Option<FileControlError>)
    ensures
        r == file_control_error_from(s@),
{
    if str_eq(s, "FriendNotFound") {
        Some(FileControlError::FriendNotFound)
    } else if str_eq(s, "FriendNotConnected") {
        Some(FileControlError::FriendNotConnected)
    } else if str_eq(s, "NotFound") {
        Some(FileControlError::NotFound)
    } else if str_eq(s, "NotPaused") {
        Some(FileControlError::NotPaused)
    } else if str_eq(s, "Denied") {
        Some(FileControlError::Denied)
    } else if str_eq(s, "AlreadyPaused") {
        Some(FileControlError::AlreadyPaused)
    } else if str_eq(s, "SendQ") {
        Some(FileControlError::SendQ)
    } else {
        None
    }
}

/// Reading back the wire name of any variant gives that variant.
pub proof fn lemma_file_control_error_rt(v: FileControlError)
    ensures
        file_control_error_from(file_control_error_str(v)) == Some(v),
{
    reveal_strlit("FriendNotFound");
    assert("FriendNotFound"@.len() == 14);
    reveal_strlit("FriendNotConnected");
    assert("FriendNotConnected"@.len() == 18);
    reveal_strlit("NotFound");
    assert("NotFound"@.len() == 8);
    reveal_strlit("NotPaused");
    assert("NotPaused"@.len() == 9);
    reveal_strlit("Denied");
    assert("Denied"@.len() == 6);
    reveal_strlit("AlreadyPaused");
    assert("AlreadyPaused"@.len() == 13);
    reveal_strlit("SendQ");
    assert("SendQ"@.len() == 5);
    match v {
        FileControlError::FriendNotFound => {
        },
        FileControlError::FriendNotConnected => {
            assert("FriendNotConnected"@ != "FriendNotFound"@);
        },
        FileControlError::NotFound => {
            assert("NotFound"@ != "FriendNotFound"@);
            assert("NotFound"@ != "FriendNotConnected"@);
        },
        FileControlError::NotPaused => {
            assert("NotPaused"@ != "FriendNotFound"@);
            assert("NotPaused"@ != "FriendNotConnected"@);
            assert("NotPaused"@ != "NotFound"@);
        },
        FileControlError::Denied => {
            assert("Denied"@ != "FriendNotFound"@);
            assert("Denied"@ != "FriendNotConnected"@);
            assert("Denied"@ != "NotFound"@);
            assert("Denied"@ != "NotPaused"@);
        },
        FileControlError::AlreadyPaused => {
            assert("AlreadyPaused"@ != "FriendNotFound"@);
            assert("AlreadyPaused"@ != "FriendNotConnected"@);
            assert("AlreadyPaused"@ != "NotFound"@);
            assert("AlreadyPaused"@ != "NotPaused"@);
            assert("AlreadyPaused"@ != "Denied"@);
        },
        FileControlError::SendQ => {
            assert("SendQ"@ != "FriendNotFound"@);
            assert("SendQ"@ != "FriendNotConnected"@);
            assert("SendQ"@ != "NotFound"@);
            assert("SendQ"@ != "NotPaused"@);
            assert("SendQ"@ != "Denied"@);
            assert("SendQ"@ != "AlreadyPaused"@);
        },
    }
}

pub open spec fn sget_file_control_error(fs: Seq<(Seq<char>, JsonV)>, key: Seq<char>) -> Result<
    FileControlError,
    DecodeError,
> {
    match jlookup(fs, key) {
        Some(JsonV::Str(s)) => match file_control_error_from(s) {
            Some(v) => Ok(v),
            None => Err(DecodeError::UnknownVariant),
        },
        Some(_) => Err(DecodeError::MalformedField),
        None => Err(DecodeError::MissingField),
    }
}

pub fn jget_file_control_error(fields: &Vec<(String, Json)>, key: &str) -> (r: Result<
    FileControlError,
    DecodeError,
>)
    ensures
        r == sget_file_control_error(jview_fields(fields@), key@),
{
    match obj_get(fields, key) {
        Some(j) => match j {
            Json::Str(s) => match file_control_error_from_text(s.as_str()) {
                Some(v) => Ok(v),
                None => Err(DecodeError::UnknownVariant),
            },
            _ => Err(DecodeError::MalformedField),
        },
        None => Err(DecodeError::MissingField),
    }
}

pub open spec fn file_seek_error_str(v: FileSeekError) -> Seq<char> {
    match v {
        FileSeekError::FriendNotFound => "FriendNotFound"@,
        FileSeekError::FriendNotConnected => "FriendNotConnected"@,
        FileSeekError::NotFound => "NotFound"@,
        FileSeekError::Denied => "Denied"@,
        FileSeekError::InvalidPosition => "InvalidPosition"@,
        FileSeekError::SendQ => "SendQ"@,
    }
}

pub open spec fn file_seek_error_from(s: Seq<char>) -> Option<FileSeekError> {
    if s == "FriendNotFound"@ {
        Some(FileSeekError::FriendNotFound)
    } else if s == "FriendNotConnected"@ {
        Some(FileSeekError::FriendNotConnected)
    } else if s == "NotFound"@ {
        Some(FileSeekError::NotFound)
    } else if s == "Denied"@ {
        Some(FileSeekError::Denied)
    } else if s == "InvalidPosition"@ {
        Some(FileSeekError::InvalidPosition)
    } else if s == "SendQ"@ {
        Some(FileSeekError::SendQ)
    } else {
        None
    }
}

pub fn file_seek_error_to_text(v: &FileSeekError) -> (r: String)
    ensures
        r@ == file_seek_error_str(*v),
{
    match v {
        FileSeekError::FriendNotFound => String::from_str("FriendNotFound"),
        FileSeekError::FriendNotConnected => String::from_str("FriendNotConnected"),
        FileSeekError::NotFound => String::from_str("NotFound"),
        FileSeekError::Denied => String::from_str("Denied"),
        FileSeekError::InvalidPosition => String::from_str("InvalidPosition"),
        FileSeekError::SendQ => String::from_str("SendQ"),
    }
}

pub fn file_seek_error_from_text(s: &str) -> (r: Option<FileSeekError>)
    ensures
        r == file_seek_error_from(s@),
{
    if str_eq(s, "FriendNotFound") {
        Some(FileSeekError::FriendNotFound)
    } else if str_eq(s, "FriendNotConnected") {
        Some(FileSeekError::FriendNotConnected)
    } else if str_eq(s, "NotFound") {
        Some(FileSeekError::NotFound)
    } else if str_eq(s, "Denied") {
        Some(FileSeekError::Denied)
    } else if str_eq(s, "InvalidPosition") {
        Some(FileSeekError::InvalidPosition)
    } else if str_eq(s, "SendQ") {
        Some(FileSeekError::SendQ)
    } else {
        None
    }
}

/// Reading back the wire name of any variant gives that variant.
pub proof fn lemma_file_seek_error_rt(v: FileSeekError)
    ensures
        file_seek_error_from(file_seek_error_str(v)) == Some(v),
{
    reveal_strlit("FriendNotFound");
    assert("FriendNotFound"@.len() == 14);
    reveal_strlit("FriendNotConnected");
    assert("FriendNotConnected"@.len() == 18);
    reveal_strlit("NotFound");
    assert("NotFound"@.len() == 8);
    reveal_strlit("Denied");
    assert("Denied"@.len() == 6);
    reveal_strlit("InvalidPosition");
    assert("InvalidPosition"@.len() == 15);
    reveal_strlit("SendQ");
    assert("SendQ"@.len() == 5);
    match v {
        FileSeekError::FriendNotFound => {
        },
        FileSeekError::FriendNotConnected => {
            assert("FriendNotConnected"@ != "FriendNotFound"@);
        },
        FileSeekError::NotFound => {
            assert("NotFound"@ != "FriendNotFound"@);
            assert("NotFound"@ != "FriendNotConnected"@);
        },
        FileSeekError::Denied => {
            assert("Denied"@ != "FriendNotFound"@);
            assert("Denied"@ != "FriendNotConnected"@);
            assert("Denied"@ != "NotFound"@);
        },
        FileSeekError::InvalidPosition => {
            assert("InvalidPosition"@ != "FriendNotFound"@);
            assert("InvalidPosition"@ != "FriendNotConnected"@);
            assert("InvalidPosition"@ != "NotFound"@);
            assert("InvalidPosition"@ != "Denied"@);
        },
        FileSeekError::SendQ => {
            assert("SendQ"@ != "FriendNotFound"@);
            assert("SendQ"@ != "FriendNotConnected"@);
            assert("SendQ"@ != "NotFound"@);
            assert("SendQ"@ != "Denied"@);
            assert("SendQ"@ != "InvalidPosition"@);
        },
    }
}

pub open spec fn sget_file_seek_error(fs: Seq<(Seq<char>, JsonV)>, key: Seq<char>) -> Result<
    FileSeekError,
    DecodeError,
> {
    match jlookup(fs, key) {
        Some(JsonV::Str(s)) => match file_seek_error_from(s) {
            Some(v) => Ok(v),
            None => Err(DecodeError::UnknownVariant),
        },
        Some(_) => Err(DecodeError::MalformedField),
        None => Err(DecodeError::MissingField),
    }
}

pub fn jget_file_seek_error(fields: &Vec<(String, Json)>, key: &str) -> (r: Result<
    FileSeekError,
    DecodeError,
>)
    ensures
        r == sget_file_seek_error(jview_fields(fields@), key@),
{
    match obj_get(fields, key) {
        Some(j) => match j {
            Json::Str(s) => match file_seek_error_from_text(s.as_str()) {
                Some(v) => Ok(v),
                None => Err(DecodeError::UnknownVariant),
            },
            _ => Err(DecodeError::MalformedField),
        },
        None => Err(DecodeError::MissingField),
    }
}

pub open spec fn file_get_error_str(v: FileGetError) -> Seq<char> {
    match v {
        FileGetError::FriendNotFound => "FriendNotFound"@,
        FileGetError::NotFound => "NotFound"@,
    }
}

pub open spec fn file_get_error_from(s: Seq<char>) -> Option<FileGetError> {
    if s == "FriendNotFound"@ {
        Some(FileGetError::FriendNotFound)
    } else if s == "NotFound"@ {
        Some(FileGetError::NotFound)
    } else {
        None
    }
}

pub fn file_get_error_to_text(v: &FileGetError) -> (r: String)
    ensures
        r@ == file_get_error_str(*v),
{
    match v {
        FileGetError::FriendNotFound => String::from_str("FriendNotFound"),
        FileGetError::NotFound => String::from_str("NotFound"),
    }
}

pub fn file_get_error_from_text(s: &str) -> (r: Option<FileGetError>)
    ensures
        r == file_get_error_from(s@),
{
    if str_eq(s, "FriendNotFound") {
        Some(FileGetError::FriendNotFound)
    } else if str_eq(s, "NotFound") {
        Some(FileGetError::NotFound)
    } else {
        None
    }
}

/// Reading back the wire name of any variant gives that variant.
pub proof fn lemma_file_get_error_rt(v: FileGetError)
    ensures
        file_get_error_from(file_get_error_str(v)) == Some(v),
{
    reveal_strlit("FriendNotFound");
    assert("FriendNotFound"@.len() == 14);
    reveal_strlit("NotFound");
    assert("NotFound"@.len() == 8);
    match v {
        FileGetError::FriendNotFound => {
        },
        FileGetError::NotFound => {
            assert("NotFound"@ != "FriendNotFound"@);
        },
    }
}

pub open spec fn sget_file_get_error(fs: Seq<(Seq<char>, JsonV)>, key: Seq<char>) -> Result<
    FileGetError,
    DecodeError,
> {
    match jlookup(fs, key) {
        Some(JsonV::Str(s)) => match file_get_error_from(s) {
            Some(v) => Ok(v),
            None => Err(DecodeError::UnknownVariant),
        },
        Some(_) => Err(DecodeError::MalformedField),
        None => Err(DecodeError::MissingField),
    }
}

pub fn jget_file_get_error(fields: &Vec<(String, Json)>, key: &str) -> (r: Result<
    FileGetError,
    DecodeError,
>)
    ensures
        r == sget_file_get_error(jview_fields(fields@), key@),
{
    match obj_get(fields, key) {
        Some(j) => match j {
            Json::Str(s) => match file_get_error_from_text(s.as_str()) {
                Some(v) => Ok(v),
                None => Err(DecodeError::UnknownVariant),
            },
            _ => Err(DecodeError::MalformedField),
        },
        None => Err(DecodeError::MissingField),
    }
}

pub open spec fn file_send_error_str(v: FileSendError) -> Seq<char> {
    match v {
        FileSendError::FriendNotFound => "FriendNotFound"@,
        FileSendError::FriendNotConnected => "FriendNotConnected"@,
        FileSendError::NameTooLong => "NameTooLong"@,
        FileSendError::TooMany => "TooMany"@,
    }
}

pub open spec fn file_send_error_from(s: Seq<char>) -> Option<FileSendError> {
    if s == "FriendNotFound"@ {
        Some(FileSendError::FriendNotFound)
    } else if s == "FriendNotConnected"@ {
        Some(FileSendError::FriendNotConnected)
    } else if s == "NameTooLong"@ {
        Some(FileSendError::NameTooLong)
    } else if s == "TooMany"@ {
        Some(FileSendError::TooMany)
    } else {
        None
    }
}

pub fn file_send_error_to_text(v: &FileSendError) -> (r: String)
    ensures
        r@ == file_send_error_str(*v),
{
    match v {
        FileSendError::FriendNotFound => String::from_str("FriendNotFound"),
        FileSendError::FriendNotConnected => String::from_str("FriendNotConnected"),
        FileSendError::NameTooLong => String::from_str("NameTooLong"),
        FileSendError::TooMany => String::from_str("TooMany"),
    }
}

pub fn file_send_error_from_text(s: &str) -> (r: Option<FileSendError>)
    ensures
        r == file_send_error_from(s@),
{
    if str_eq(s, "FriendNotFound") {
        Some(FileSendError::FriendNotFound)
    } else if str_eq(s, "FriendNotConnected") {
        Some(FileSendError::FriendNotConnected)
    } else if str_eq(s, "NameTooLong") {
        Some(FileSendError::NameTooLong)
    } else if str_eq(s, "TooMany") {
        Some(FileSendError::TooMany)
    } else {
        None
    }
}

/// Reading back the wire name of any variant gives that variant.
pub proof fn lemma_file_send_error_rt(v: FileSendError)
    ensures
        file_send_error_from(file_send_error_str(v)) == Some(v),
{
    reveal_strlit("FriendNotFound");
    assert("FriendNotFound"@.len() == 14);
    reveal_strlit("FriendNotConnected");
    assert("FriendNotConnected"@.len() == 18);
    reveal_strlit("NameTooLong");
    assert("NameTooLong"@.len() == 11);
    reveal_strlit("TooMany");
    assert("TooMany"@.len() == 7);
    match v {
        FileSendError::FriendNotFound => {
        },
        FileSendError::FriendNotConnected => {
            assert("FriendNotConnected"@ != "FriendNotFound"@);
        },
        FileSendError::NameTooLong => {
            assert("NameTooLong"@ != "FriendNotFound"@);
            assert("NameTooLong"@ != "FriendNotConnected"@);
        },
        FileSendError::TooMany => {
            assert("TooMany"@ != "FriendNotFound"@);
            assert("TooMany"@ != "FriendNotConnected"@);
            assert("TooMany"@ != "NameTooLong"@);
        },
    }
}

pub open spec fn sget_file_send_error(fs: Seq<(Seq<char>, JsonV)>, key: Seq<char>) -> Result<
    FileSendError,
    DecodeError,
> {
    match jlookup(fs, key) {
        Some(JsonV::Str(s)) => match file_send_error_from(s) {
            Some(v) => Ok(v),
            None => Err(DecodeError::UnknownVariant),
        },
        Some(_) => Err(DecodeError::MalformedField),
        None => Err(DecodeError::MissingField),
    }
}

pub fn jget_file_send_error(fields: &Vec<(String, Json)>, key: &str) -> (r: Result<
    FileSendError,
    DecodeError,
>)
    ensures
        r == sget_file_send_error(jview_fields(fields@), key@),
{
    match obj_get(fields, key) {
        Some(j) => match j {
            Json::Str(s) => match file_send_error_from_text(s.as_str()) {
                Some(v) => Ok(v),
                None => Err(DecodeError::UnknownVariant),
            },
            _ => Err(DecodeError::MalformedField),
        },
        None => Err(DecodeError::MissingField),
    }
}

pub open spec fn file_send_chunk_error_str(v: FileSendChunkError) -> Seq<char> {
    match v {
        FileSendChunkError::FriendNotFound => "FriendNotFound"@,
        FileSendChunkError::FriendNotConnected => "FriendNotConnected"@,
        FileSendChunkError::NotFound => "NotFound"@,
        FileSendChunkError::NotTransferring => "NotTransferring"@,
        FileSendChunkError::InvalidLength => "InvalidLength"@,
        FileSendChunkError::SendQ => "SendQ"@,
        FileSendChunkError::WrongPosition => "WrongPosition"@,
    }
}

pub open spec fn file_send_chunk_error_from(s: Seq<char>) -> Option<FileSendChunkError> {
    if s == "FriendNotFound"@ {
        Some(FileSendChunkError::FriendNotFound)
    } else if s == "FriendNotConnected"@ {
        Some(FileSendChunkError::FriendNotConnected)
    } else if s == "NotFound"@ {
        Some(FileSendChunkError::NotFound)
    } else if s == "NotTransferring"@ {
        Some(FileSendChunkError::NotTransferring)
    } else if s == "InvalidLength"@ {
        Some(FileSendChunkError::InvalidLength)
    } else if s == "SendQ"@ {
        Some(FileSendChunkError::SendQ)
    } else if s == "WrongPosition"@ {
        Some(FileSendChunkError::WrongPosition)
    } else {
        None
    }
}

pub fn file_send_chunk_error_to_text(v: &FileSendChunkError) -> (r: String)
    ensures
        r@ == file_send_chunk_error_str(*v),
{
    match v {
        FileSendChunkError::FriendNotFound => String::from_str("FriendNotFound"),
        FileSendChunkError::FriendNotConnected => String::from_str("FriendNotConnected"),
        FileSendChunkError::NotFound => String::from_str("NotFound"),
        FileSendChunkError::NotTransferring => String::from_str("NotTransferring"),
        FileSendChunkError::InvalidLength => String::from_str("InvalidLength"),
        FileSendChunkError::SendQ => String::from_str("SendQ"),
        FileSendChunkError::WrongPosition => String::from_str("WrongPosition"),
    }
}

pub fn file_send_chunk_error_from_text(s: &str) -> (r: Option<FileSendChunkError>)
    ensures
        r == file_send_chunk_error_from(s@),
{
    if str_eq(s, "FriendNotFound") {
        Some(FileSendChunkError::FriendNotFound)
    } else if str_eq(s, "FriendNotConnected") {
        Some(FileSendChunkError::FriendNotConnected)
    } else if str_eq(s, "NotFound") {
        Some(FileSendChunkError::NotFound)
    } else if str_eq(s, "NotTransferring") {
        Some(FileSendChunkError::NotTransferring)
    } else if str_eq(s, "InvalidLength") {
        Some(FileSendChunkError::InvalidLength)
    } else if str_eq(s, "SendQ") {
        Some(FileSendChunkError::SendQ)
    } else if str_eq(s, "WrongPosition") {
        Some(FileSendChunkError::WrongPosition)
    } else {
        None
    }
}

/// Reading back the wire name of any variant gives that variant.
pub proof fn lemma_file_send_chunk_error_rt(v: FileSendChunkError)
    ensures
        file_send_chunk_error_from(file_send_chunk_error_str(v)) == Some(v),
{
    reveal_strlit("FriendNotFound");
    assert("FriendNotFound"@.len() == 14);
    reveal_strlit("FriendNotConnected");
    assert("FriendNotConnected"@.len() == 18);
    reveal_strlit("NotFound");
    assert("NotFound"@.len() == 8);
    reveal_strlit("NotTransferring");
    assert("NotTransferring"@.len() == 15);
    reveal_strlit("InvalidLength");
    assert("InvalidLength"@.len() == 13);
    reveal_strlit("SendQ");
    assert("SendQ"@.len() == 5);
    reveal_strlit("WrongPosition");
    assert("WrongPosition"@.len() == 13);
    match v {
        FileSendChunkError::FriendNotFound => {
        },
        FileSendChunkError::FriendNotConnected => {
            assert("FriendNotConnected"@ != "FriendNotFound"@);
        },
        FileSendChunkError::NotFound => {
            assert("NotFound"@ != "FriendNotFound"@);
            assert("NotFound"@ != "FriendNotConnected"@);
        },
        FileSendChunkError::NotTransferring => {
            assert("NotTransferring"@ != "FriendNotFound"@);
            assert("NotTransferring"@ != "FriendNotConnected"@);
            assert("NotTransferring"@ != "NotFound"@);
        },
        FileSendChunkError::InvalidLength => {
            assert("InvalidLength"@ != "FriendNotFound"@);
            assert("InvalidLength"@ != "FriendNotConnected"@);
            assert("InvalidLength"@ != "NotFound"@);
            assert("InvalidLength"@ != "NotTransferring"@);
        },
        FileSendChunkError::SendQ => {
            assert("SendQ"@ != "FriendNotFound"@);
            assert("SendQ"@ != "FriendNotConnected"@);
            assert("SendQ"@ != "NotFound"@);
            assert("SendQ"@ != "NotTransferring"@);
            assert("SendQ"@ != "InvalidLength"@);
        },
        FileSendChunkError::WrongPosition => {
            assert("WrongPosition"@ != "FriendNotFound"@);
            assert("WrongPosition"@ != "FriendNotConnected"@);
            assert("WrongPosition"@ != "NotFound"@);
            assert("WrongPosition"@ != "NotTransferring"@);
            assert("WrongPosition"@[0] == 'W');
            assert("InvalidLength"@[0] == 'I');
            assert("WrongPosition"@ != "InvalidLength"@);
            assert("WrongPosition"@ != "SendQ"@);
        },
    }
}

pub open spec fn sget_file_send_chunk_error(fs: Seq<(Seq<char>, JsonV)>, key: Seq<char>) -> Result<
    FileSendChunkError,
    DecodeError,
> {
    match jlookup(fs, key) {
        Some(JsonV::Str(s)) => match file_send_chunk_error_from(s) {
            Some(v) => Ok(v),
            None => Err(DecodeError::UnknownVariant),
        },
        Some(_) => Err(DecodeError::MalformedField),
        None => Err(DecodeError::MissingField),
    }
}

pub fn jget_file_send_chunk_error(fields: &Vec<(String, Json)>, key: &str) -> (r: Result<
    FileSendChunkError,
    DecodeError,
>)
    ensures
        r == sget_file_send_chunk_error(jview_fields(fields@), key@),
{
    match obj_get(fields, key) {
        Some(j) => match j {
            Json::Str(s) => match file_send_chunk_error_from_text(s.as_str()) {
                Some(v) => Ok(v),
                None => Err(DecodeError::UnknownVariant),
            },
            _ => Err(DecodeError::MalformedField),
        },
        None => Err(DecodeError::MissingField),
    }
}

pub open spec fn conference_invite_error_str(v: ConferenceInviteError) -> Seq<char> {
    match v {
        ConferenceInviteError::ConferenceNotFound => "ConferenceNotFound"@,
        ConferenceInviteError::FailSend => "FailSend"@,
        ConferenceInviteError::NoConnection => "NoConnection"@,
    }
}

pub open spec fn conference_invite_error_from(s: Seq<char>) -> Option<ConferenceInviteError> {
    if s == "ConferenceNotFound"@ {
        Some(ConferenceInviteError::ConferenceNotFound)
    } else if s == "FailSend"@ {
        Some(ConferenceInviteError::FailSend)
    } else if s == "NoConnection"@ {
        Some(ConferenceInviteError::NoConnection)
    } else {
        None
    }
}

pub fn conference_invite_error_to_text(v: &ConferenceInviteError) -> (r: String)
    ensures
        r@ == conference_invite_error_str(*v),
{
    match v {
        ConferenceInviteError::ConferenceNotFound => String::from_str("ConferenceNotFound"),
        ConferenceInviteError::FailSend => String::from_str("FailSend"),
        ConferenceInviteError::NoConnection => String::from_str("NoConnection"),
    }
}

pub fn conference_invite_error_from_text(s: &str) -> (r: Option<ConferenceInviteError>)
    ensures
        r == conference_invite_error_from(s@),
{
    if str_eq(s, "ConferenceNotFound") {
        Some(ConferenceInviteError::ConferenceNotFound)
    } else if str_eq(s, "FailSend") {
        Some(ConferenceInviteError::FailSend)
    } else if str_eq(s, "NoConnection") {
        Some(ConferenceInviteError::NoConnection)
    } else {
        None
    }
}

/// Reading back the wire name of any variant gives that variant.
pub proof fn lemma_conference_invite_error_rt(v: ConferenceInviteError)
    ensures
        conference_invite_error_from(conference_invite_error_str(v)) == Some(v),
{
    reveal_strlit("ConferenceNotFound");
    assert("ConferenceNotFound"@.len() == 18);
    reveal_strlit("FailSend");
    assert("FailSend"@.len() == 8);
    reveal_strlit("NoConnection");
    assert("NoConnection"@.len() == 12);
    match v {
        ConferenceInviteError::ConferenceNotFound => {
        },
        ConferenceInviteError::FailSend => {
            assert("FailSend"@ != "ConferenceNotFound"@);
        },
        ConferenceInviteError::NoConnection => {
            assert("NoConnection"@ != "ConferenceNotFound"@);
            assert("NoConnection"@ != "FailSend"@);
        },
    }
}

pub open spec fn sget_conference_invite_error(fs: Seq<(Seq<char>, JsonV)>, key: Seq<char>) -> Result<
    ConferenceInviteError,
    DecodeError,
> {
    match jlookup(fs, key) {
        Some(JsonV::Str(s)) => match conference_invite_error_from(s) {
            Some(v) => Ok(v),
            None => Err(DecodeError::UnknownVariant),
        },
        Some(_) => Err(DecodeError::MalformedField),
        None => Err(DecodeError::MissingField),
    }
}

pub fn jget_conference_invite_error(fields: &Vec<(String, Json)>, key: &str) -> (r: Result<
    ConferenceInviteError,
    DecodeError,
>)
    ensures
        r == sget_conference_invite_error(jview_fields(fields@), key@),
{
    match obj_get(fields, key) {
        Some(j) => match j {
            Json::Str(s) => match conference_invite_error_from_text(s.as_str()) {
                Some(v) => Ok(v),
                None => Err(DecodeError::UnknownVariant),
            },
            _ => Err(DecodeError::MalformedField),
        },
        None => Err(DecodeError::MissingField),
    }
}

pub open spec fn conference_join_error_str(v: ConferenceJoinError) -> Seq<char> {
    match v {
        ConferenceJoinError::InvalidLength => "InvalidLength"@,
        ConferenceJoinError::WrongType => "WrongType"@,
        ConferenceJoinError::FriendNotFound => "FriendNotFound"@,
        ConferenceJoinError::Duplicate => "Duplicate"@,
        ConferenceJoinError::InitFail => "InitFail"@,
        ConferenceJoinError::FailSend => "FailSend"@,
    }
}

pub open spec fn conference_join_error_from(s: Seq<char>) -> Option<ConferenceJoinError> {
    if s == "InvalidLength"@ {
        Some(ConferenceJoinError::InvalidLength)
    } else if s == "WrongType"@ {
        Some(ConferenceJoinError::WrongType)
    } else if s == "FriendNotFound"@ {
        Some(ConferenceJoinError::FriendNotFound)
    } else if s == "Duplicate"@ {
        Some(ConferenceJoinError::Duplicate)
    } else if s == "InitFail"@ {
        Some(ConferenceJoinError::InitFail)
    } else if s == "FailSend"@ {
        Some(ConferenceJoinError::FailSend)
    } else {
        None
    }
}

pub fn conference_join_error_to_text(v: &ConferenceJoinError) -> (r: String)
    ensures
        r@ == conference_join_error_str(*v),
{
    match v {
        ConferenceJoinError::InvalidLength => String::from_str("InvalidLength"),
        ConferenceJoinError::WrongType => String::from_str("WrongType"),
        ConferenceJoinError::FriendNotFound => String::from_str("FriendNotFound"),
        ConferenceJoinError::Duplicate => String::from_str("Duplicate"),
        ConferenceJoinError::InitFail => String::from_str("InitFail"),
        ConferenceJoinError::FailSend => String::from_str("FailSend"),
    }
}

pub fn conference_join_error_from_text(s: &str) -> (r: Option<ConferenceJoinError>)
    ensures
        r == conference_join_error_from(s@),
{
    if str_eq(s, "InvalidLength") {
        Some(ConferenceJoinError::InvalidLength)
    } else if str_eq(s, "WrongType") {
        Some(ConferenceJoinError::WrongType)
    } else if str_eq(s, "FriendNotFound") {
        Some(ConferenceJoinError::FriendNotFound)
    } else if str_eq(s, "Duplicate") {
        Some(ConferenceJoinError::Duplicate)
    } else if str_eq(s, "InitFail") {
        Some(ConferenceJoinError::InitFail)
    } else if str_eq(s, "FailSend") {
        Some(ConferenceJoinError::FailSend)
    } else {
        None
    }
}

/// Reading back the wire name of any variant gives that variant.
pub proof fn lemma_conference_join_error_rt(v: ConferenceJoinError)
    ensures
        conference_join_error_from(conference_join_error_str(v)) == Some(v),
{
    reveal_strlit("InvalidLength");
    assert("InvalidLength"@.len() == 13);
    reveal_strlit("WrongType");
    assert("WrongType"@.len() == 9);
    reveal_strlit("FriendNotFound");
    assert("FriendNotFound"@.len() == 14);
    reveal_strlit("Duplicate");
    assert("Duplicate"@.len() == 9);
    reveal_strlit("InitFail");
    assert("InitFail"@.len() == 8);
    reveal_strlit("FailSend");
    assert("FailSend"@.len() == 8);
    match v {
        ConferenceJoinError::InvalidLength => {
        },
        ConferenceJoinError::WrongType => {
            assert("WrongType"@ != "InvalidLength"@);
        },
        ConferenceJoinError::FriendNotFound => {
            assert("FriendNotFound"@ != "InvalidLength"@);
            assert("FriendNotFound"@ != "WrongType"@);
        },
        ConferenceJoinError::Duplicate => {
            assert("Duplicate"@ != "InvalidLength"@);
            assert("Duplicate"@[0] == 'D');
            assert("WrongType"@[0] == 'W');
            assert("Duplicate"@ != "WrongType"@);
            assert("Duplicate"@ != "FriendNotFound"@);
        },
        ConferenceJoinError::InitFail => {
            assert("InitFail"@ != "InvalidLength"@);
            assert("InitFail"@ != "WrongType"@);
            assert("InitFail"@ != "FriendNotFound"@);
            assert("InitFail"@ != "Duplicate"@);
        },
        ConferenceJoinError::FailSend => {
            assert("FailSend"@ != "InvalidLength"@);
            assert("FailSend"@ != "WrongType"@);
            assert("FailSend"@ != "FriendNotFound"@);
            assert("FailSend"@ != "Duplicate"@);
            assert("FailSend"@[0] == 'F');
            assert("InitFail"@[0] == 'I');
            assert("FailSend"@ != "InitFail"@);
        },
    }
}

pub open spec fn sget_conference_join_error(fs: Seq<(Seq<char>, JsonV)>, key: Seq<char>) -> Result<
    ConferenceJoinError,
    DecodeError,
> {
    match jlookup(fs, key) {
        Some(JsonV::Str(s)) => match conference_join_error_from(s) {
            Some(v) => Ok(v),
            None => Err(DecodeError::UnknownVariant),
        },
        Some(_) => Err(DecodeError::MalformedField),
        None => Err(DecodeError::MissingField),
    }
}

pub fn jget_conference_join_error(fields: &Vec<(String, Json)>, key: &str) -> (r: Result<
    ConferenceJoinError,
    DecodeError,
>)
    ensures
        r == sget_conference_join_error(jview_fields(fields@), key@),
{
    match obj_get(fields, key) {
        Some(j) => match j {
            Json::Str(s) => match conference_join_error_from_text(s.as_str()) {
                Some(v) => Ok(v),
                None => Err(DecodeError::UnknownVariant),
            },
            _ => Err(DecodeError::MalformedField),
        },
        None => Err(DecodeError::MissingField),
    }
}

pub open spec fn conference_peer_query_error_str(v: ConferencePeerQueryError) -> Seq<char> {
    match v {
        ConferencePeerQueryError::ConferenceNotFound => "ConferenceNotFound"@,
        ConferencePeerQueryError::PeerNotFound => "PeerNotFound"@,
        ConferencePeerQueryError::PeerQueryNoConnection => "PeerQueryNoConnection"@,
    }
}

pub open spec fn conference_peer_query_error_from(s: Seq<char>) -> Option<ConferencePeerQueryError> {
    if s == "ConferenceNotFound"@ {
        Some(ConferencePeerQueryError::ConferenceNotFound)
    } else if s == "PeerNotFound"@ {
        Some(ConferencePeerQueryError::PeerNotFound)
    } else if s == "PeerQueryNoConnection"@ {
        Some(ConferencePeerQueryError::PeerQueryNoConnection)
    } else {
        None
    }
}

pub fn conference_peer_query_error_to_text(v: &ConferencePeerQueryError) -> (r: String)
    ensures
        r@ == conference_peer_query_error_str(*v),
{
    match v {
        ConferencePeerQueryError::ConferenceNotFound => String::from_str("ConferenceNotFound"),
        ConferencePeerQueryError::PeerNotFound => String::from_str("PeerNotFound"),
        ConferencePeerQueryError::PeerQueryNoConnection => String::from_str("PeerQueryNoConnection"),
    }
}

pub fn conference_peer_query_error_from_text(s: &str) -> (r: Option<ConferencePeerQueryError>)
    ensures
        r == conference_peer_query_error_from(s@),
{
    if str_eq(s, "ConferenceNotFound") {
        Some(ConferencePeerQueryError::ConferenceNotFound)
    } else if str_eq(s, "PeerNotFound") {
        Some(ConferencePeerQueryError::PeerNotFound)
    } else if str_eq(s, "PeerQueryNoConnection") {
        Some(ConferencePeerQueryError::PeerQueryNoConnection)
    } else {
        None
    }
}

/// Reading back the wire name of any variant gives that variant.
pub proof fn lemma_conference_peer_query_error_rt(v: ConferencePeerQueryError)
    ensures
        conference_peer_query_error_from(conference_peer_query_error_str(v)) == Some(v),
{
    reveal_strlit("ConferenceNotFound");
    assert("ConferenceNotFound"@.len() == 18);
    reveal_strlit("PeerNotFound");
    assert("PeerNotFound"@.len() == 12);
    reveal_strlit("PeerQueryNoConnection");
    assert("PeerQueryNoConnection"@.len() == 21);
    match v {
        ConferencePeerQueryError::ConferenceNotFound => {
        },
        ConferencePeerQueryError::PeerNotFound => {
            assert("PeerNotFound"@ != "ConferenceNotFound"@);
        },
        ConferencePeerQueryError::PeerQueryNoConnection => {
            assert("PeerQueryNoConnection"@ != "ConferenceNotFound"@);
            assert("PeerQueryNoConnection"@ != "PeerNotFound"@);
        },
    }
}

pub open spec fn sget_conference_peer_query_error(fs: Seq<(Seq<char>, JsonV)>, key: Seq<char>) -> Result<
    ConferencePeerQueryError,
    DecodeError,
> {
    match jlookup(fs, key) {
        Some(JsonV::Str(s)) => match conference_peer_query_error_from(s) {
            Some(v) => Ok(v),
            None => Err(DecodeError::UnknownVariant),
        },
        Some(_) => Err(DecodeError::MalformedField),
        None => Err(DecodeError::MissingField),
    }
}

pub fn jget_conference_peer_query_error(fields: &Vec<(String, Json)>, key: &str) -> (r: Result<
    ConferencePeerQueryError,
    DecodeError,
>)
    ensures
        r == sget_conference_peer_query_error(jview_fields(fields@), key@),
{
    match obj_get(fields, key) {
        Some(j) => match j {
            Json::Str(s) => match conference_peer_query_error_from_text(s.as_str()) {
                Some(v) => Ok(v),
                None => Err(DecodeError::UnknownVariant),
            },
            _ => Err(DecodeError::MalformedField),
        },
        None => Err(DecodeError::MissingField),
    }
}

pub open spec fn conference_send_error_str(v: ConferenceSendError) -> Seq<char> {
    match v {
        ConferenceSendError::ConferenceNotFound => "ConferenceNotFound"@,
        ConferenceSendError::TooLong => "TooLong"@,
        ConferenceSendError::NoConnection => "NoConnection"@,
        ConferenceSendError::FailSend => "FailSend"@,
    }
}

pub open spec fn conference_send_error_from(s: Seq<char>) -> Option<ConferenceSendError> {
    if s == "ConferenceNotFound"@ {
        Some(ConferenceSendError::ConferenceNotFound)
    } else if s == "TooLong"@ {
        Some(ConferenceSendError::TooLong)
    } else if s == "NoConnection"@ {
        Some(ConferenceSendError::NoConnection)
    } else if s == "FailSend"@ {
        Some(ConferenceSendError::FailSend)
    } else {
        None
    }
}

pub fn conference_send_error_to_text(v: &ConferenceSendError) -> (r: String)
    ensures
        r@ == conference_send_error_str(*v),
{
    match v {
        ConferenceSendError::ConferenceNotFound => String::from_str("ConferenceNotFound"),
        ConferenceSendError::TooLong => String::from_str("TooLong"),
        ConferenceSendError::NoConnection => String::from_str("NoConnection"),
        ConferenceSendError::FailSend => String::from_str("FailSend"),
    }
}

pub fn conference_send_error_from_text(s: &str) -> (r: Option<ConferenceSendError>)
    ensures
        r == conference_send_error_from(s@),
{
    if str_eq(s, "ConferenceNotFound") {
        Some(ConferenceSendError::ConferenceNotFound)
    } else if str_eq(s, "TooLong") {
        Some(ConferenceSendError::TooLong)
    } else if str_eq(s, "NoConnection") {
        Some(ConferenceSendError::NoConnection)
    } else if str_eq(s, "FailSend") {
        Some(ConferenceSendError::FailSend)
    } else {
        None
    }
}

/// Reading back the wire name of any variant gives that variant.
pub proof fn lemma_conference_send_error_rt(v: ConferenceSendError)
    ensures
        conference_send_error_from(conference_send_error_str(v)) == Some(v),
{
    reveal_strlit("ConferenceNotFound");
    assert("ConferenceNotFound"@.len() == 18);
    reveal_strlit("TooLong");
    assert("TooLong"@.len() == 7);
    reveal_strlit("NoConnection");
    assert("NoConnection"@.len() == 12);
    reveal_strlit("FailSend");
    assert("FailSend"@.len() == 8);
    match v {
        ConferenceSendError::ConferenceNotFound => {
        },
        ConferenceSendError::TooLong => {
            assert("TooLong"@ != "ConferenceNotFound"@);
        },
        ConferenceSendError::NoConnection => {
            assert("NoConnection"@ != "ConferenceNotFound"@);
            assert("NoConnection"@ != "TooLong"@);
        },
        ConferenceSendError::FailSend => {
            assert("FailSend"@ != "ConferenceNotFound"@);
            assert("FailSend"@ != "TooLong"@);
            assert("FailSend"@ != "NoConnection"@);
        },
    }
}

pub open spec fn sget_conference_send_error(fs: Seq<(Seq<char>, JsonV)>, key: Seq<char>) -> Result<
    ConferenceSendError,
    DecodeError,
> {
    match jlookup(fs, key) {
        Some(JsonV::Str(s)) => match conference_send_error_from(s) {
            Some(v) => Ok(v),
            None => Err(DecodeError::UnknownVariant),
        },
        Some(_) => Err(DecodeError::MalformedField),
        None => Err(DecodeError::MissingField),
    }
}

pub fn jget_conference_send_error(fields: &Vec<(String, Json)>, key: &str) -> (r: Result<
    ConferenceSendError,
    DecodeError,
>)
    ensures
        r == sget_conference_send_error(jview_fields(fields@), key@),
{
    match obj_get(fields, key) {
        Some(j) => match j {
            Json::Str(s) => match conference_send_error_from_text(s.as_str()) {
                Some(v) => Ok(v),
                None => Err(DecodeError::UnknownVariant),
            },
            _ => Err(DecodeError::MalformedField),
        },
        None => Err(DecodeError::MissingField),
    }
}

pub open spec fn conference_title_error_str(v: ConferenceTitleError) -> Seq<char> {
    match v {
        ConferenceTitleError::ConferenceNotFound => "ConferenceNotFound"@,
        ConferenceTitleError::InvalidLength => "InvalidLength"@,
        ConferenceTitleError::FailSend => "FailSend"@,
    }
}

pub open spec fn conference_title_error_from(s: Seq<char>) -> Option<ConferenceTitleError> {
    if s == "ConferenceNotFound"@ {
        Some(ConferenceTitleError::ConferenceNotFound)
    } else if s == "InvalidLength"@ {
        Some(ConferenceTitleError::InvalidLength)
    } else if s == "FailSend"@ {
        Some(ConferenceTitleError::FailSend)
    } else {
        None
    }
}

pub fn conference_title_error_to_text(v: &ConferenceTitleError) -> (r: String)
    ensures
        r@ == conference_title_error_str(*v),
{
    match v {
        ConferenceTitleError::ConferenceNotFound => String::from_str("ConferenceNotFound"),
        ConferenceTitleError::InvalidLength => String::from_str("InvalidLength"),
        ConferenceTitleError::FailSend => String::from_str("FailSend"),
    }
}

pub fn conference_title_error_from_text(s: &str) -> (r: Option<ConferenceTitleError>)
    ensures
        r == conference_title_error_from(s@),
{
    if str_eq(s, "ConferenceNotFound") {
        Some(ConferenceTitleError::ConferenceNotFound)
    } else if str_eq(s, "InvalidLength") {
        Some(ConferenceTitleError::InvalidLength)
    } else if str_eq(s, "FailSend") {
        Some(ConferenceTitleError::FailSend)
    } else {
        None
    }
}

/// Reading back the wire name of any variant gives that variant.
pub proof fn lemma_conference_title_error_rt(v: ConferenceTitleError)
    ensures
        conference_title_error_from(conference_title_error_str(v)) == Some(v),
{
    reveal_strlit("ConferenceNotFound");
    assert("ConferenceNotFound"@.len() == 18);
    reveal_strlit("InvalidLength");
    assert("InvalidLength"@.len() == 13);
    reveal_strlit("FailSend");
    assert("FailSend"@.len() == 8);
    match v {
        ConferenceTitleError::ConferenceNotFound => {
        },
        ConferenceTitleError::InvalidLength => {
            assert("InvalidLength"@ != "ConferenceNotFound"@);
        },
        ConferenceTitleError::FailSend => {
            assert("FailSend"@ != "ConferenceNotFound"@);
            assert("FailSend"@ != "InvalidLength"@);
        },
    }
}

pub open spec fn sget_conference_title_error(fs: Seq<(Seq<char>, JsonV)>, key: Seq<char>) -> Result<
    ConferenceTitleError,
    DecodeError,
> {
    match jlookup(fs, key) {
        Some(JsonV::Str(s)) => match conference_title_error_from(s) {
            Some(v) => Ok(v),
            None => Err(DecodeError::UnknownVariant),
        },
        Some(_) => Err(DecodeError::MalformedField),
        None => Err(DecodeError::MissingField),
    }
}

pub fn jget_conference_title_error(fields: &Vec<(String, Json)>, key: &str) -> (r: Result<
    ConferenceTitleError,
    DecodeError,
>)
    ensures
        r == sget_conference_title_error(jview_fields(fields@), key@),
{
    match obj_get(fields, key) {
        Some(j) => match j {
            Json::Str(s) => match conference_title_error_from_text(s.as_str()) {
                Some(v) => Ok(v),
                None => Err(DecodeError::UnknownVariant),
            },
            _ => Err(DecodeError::MalformedField),
        },
        None => Err(DecodeError::MissingField),
    }
}

} // verus!