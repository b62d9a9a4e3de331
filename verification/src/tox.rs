//! The daemon-facing side of the translation layer: a plain model of the
//! daemon's internal event and error surface, the Inbound Translator that
//! turns an internal event into a wire [`Event`] or drops it, and the
//! outbound error-taxonomy mapping with its two named outcomes.
//!
//! The daemon's own types live in its process and are opaque here; this
//! module models exactly what the translation reads of them — variant
//! tags and plain payloads — so the mapping itself is verified. The
//! internal surface is deliberately wider than the wire schema: kinds and
//! error cases the wire cannot represent are carried too, and the laws
//! below pin down what happens to them.

use vstd::prelude::*;

use crate::schema::{Event, EventV, ConnectionStatus, UserStatus, MessageType, FileControl,
    FileKind, ConferenceType, AddFriendError, SendFriendMessageError, FileControlError,
    FileSeekError, FileGetError, FileSendError, FileSendChunkError, ConferenceInviteError,
    ConferenceJoinError, ConferencePeerQueryError, ConferenceSendError, ConferenceTitleError};

verus! {

/// The outcome of translating one internal value: its wire counterpart,
/// or the explicit signal that this schema generation cannot represent
/// it. The caller decides what an `Unmapped` error becomes — a generic
/// protocol fault — and never a named wire error.
#[derive(Clone, Copy, Debug, PartialEq, Eq, Structural)]
pub enum Mapping<T> {
    Mapped(T),
    Unmapped,
}

// ---------------------------------------------------------------------------
// The daemon's scalar enums
// ---------------------------------------------------------------------------

#[derive(Clone, Copy, Debug, PartialEq, Eq, Structural)]
pub enum ToxConnection {
    Disconnected,
    Tcp,
    Udp,
}

#[derive(Clone, Copy, Debug, PartialEq, Eq, Structural)]
pub enum ToxUserStatus {
    Available,
    Away,
    Busy,
}

#[derive(Clone, Copy, Debug, PartialEq, Eq, Structural)]
pub enum ToxMessageType {
    Normal,
    Action,
}

#[derive(Clone, Copy, Debug, PartialEq, Eq, Structural)]
pub enum ToxFileControl {
    Resume,
    Pause,
    Cancel,
}

#[derive(Clone, Copy, Debug, PartialEq, Eq, Structural)]
pub enum ToxFileKind {
    Data,
    Avatar,
}

#[derive(Clone, Copy, Debug, PartialEq, Eq, Structural)]
pub enum ToxConferenceType {
    Text,
    Av,
}

// ---------------------------------------------------------------------------
// Scalar conversions: exact, both in specification and executable form
// ---------------------------------------------------------------------------

pub open spec fn connection_status_from_tox(v: ToxConnection) -> ConnectionStatus {
    match v {
        ToxConnection::Disconnected => ConnectionStatus::Disconnected,
        ToxConnection::Tcp => ConnectionStatus::Tcp,
        ToxConnection::Udp => ConnectionStatus::Udp,
    }
}

impl ConnectionStatus {
    /// The wire form of the daemon's value: a one-to-one renaming.
    pub fn from_tox(v: ToxConnection) -> (r: ConnectionStatus)
        ensures
            r == connection_status_from_tox(v),
    {
        match v {
            ToxConnection::Disconnected => ConnectionStatus::Disconnected,
            ToxConnection::Tcp => ConnectionStatus::Tcp,
            ToxConnection::Udp => ConnectionStatus::Udp,
        }
    }
}

pub open spec fn user_status_from_tox(v: ToxUserStatus) -> UserStatus {
    match v {
        ToxUserStatus::Available => UserStatus::Available,
        ToxUserStatus::Away => UserStatus::Away,
        ToxUserStatus::Busy => UserStatus::Busy,
    }
}

impl UserStatus {
    /// The wire form of the daemon's value: a one-to-one renaming.
    pub fn from_tox(v: ToxUserStatus) -> (r: UserStatus)
        ensures
            r == user_status_from_tox(v),
    {
        match v {
            ToxUserStatus::Available => UserStatus::Available,
            ToxUserStatus::Away => UserStatus::Away,
            ToxUserStatus::Busy => UserStatus::Busy,
        }
    }
}

pub open spec fn message_type_from_tox(v: ToxMessageType) -> MessageType {
    match v {
        ToxMessageType::Normal => MessageType::Normal,
        ToxMessageType::Action => MessageType::Action,
    }
}

impl MessageType {
    /// The wire form of the daemon's value: a one-to-one renaming.
    pub fn from_tox(v: ToxMessageType) -> (r: MessageType)
        ensures
            r == message_type_from_tox(v),
    {
        match v {
            ToxMessageType::Normal => MessageType::Normal,
            ToxMessageType::Action => MessageType::Action,
        }
    }

    /// The daemon's form of the wire value, for outbound commands.
    pub fn to_tox(self) -> (r: ToxMessageType)
        ensures
            r == message_type_to_tox(self),
    {
        match self {
            MessageType::Normal => ToxMessageType::Normal,
            MessageType::Action => ToxMessageType::Action,
        }
    }
}

pub open spec fn message_type_to_tox(v: MessageType) -> ToxMessageType {
    match v {
        MessageType::Normal => ToxMessageType::Normal,
        MessageType::Action => ToxMessageType::Action,
    }
}

pub open spec fn file_control_from_tox(v: ToxFileControl) -> FileControl {
    match v {
        ToxFileControl::Resume => FileControl::Resume,
        ToxFileControl::Pause => FileControl::Pause,
        ToxFileControl::Cancel => FileControl::Cancel,
    }
}

impl FileControl {
    /// The wire form of the daemon's value: a one-to-one renaming.
    pub fn from_tox(v: ToxFileControl) -> (r: FileControl)
        ensures
            r == file_control_from_tox(v),
    {
        match v {
            ToxFileControl::Resume => FileControl::Resume,
            ToxFileControl::Pause => FileControl::Pause,
            ToxFileControl::Cancel => FileControl::Cancel,
        }
    }

    /// The daemon's form of the wire value, for outbound commands.
    pub fn to_tox(self) -> (r: ToxFileControl)
        ensures
            r == file_control_to_tox(self),
    {
        match self {
            FileControl::Resume => ToxFileControl::Resume,
            FileControl::Pause => ToxFileControl::Pause,
            FileControl::Cancel => ToxFileControl::Cancel,
        }
    }
}

pub open spec fn file_control_to_tox(v: FileControl) -> ToxFileControl {
    match v {
        FileControl::Resume => ToxFileControl::Resume,
        FileControl::Pause => ToxFileControl::Pause,
        FileControl::Cancel => ToxFileControl::Cancel,
    }
}

pub open spec fn conference_type_from_tox(v: ToxConferenceType) -> ConferenceType {
    match v {
        ToxConferenceType::Text => ConferenceType::Text,
        ToxConferenceType::Av => ConferenceType::Av,
    }
}

impl ConferenceType {
    /// The wire form of the daemon's value: a one-to-one renaming.
    pub fn from_tox(v: ToxConferenceType) -> (r: ConferenceType)
        ensures
            r == conference_type_from_tox(v),
    {
        match v {
            ToxConferenceType::Text => ConferenceType::Text,
            ToxConferenceType::Av => ConferenceType::Av,
        }
    }

    /// The daemon's form of the wire value, for outbound commands.
    pub fn to_tox(self) -> (r: ToxConferenceType)
        ensures
            r == conference_type_to_tox(self),
    {
        match self {
            ConferenceType::Text => ToxConferenceType::Text,
            ConferenceType::Av => ToxConferenceType::Av,
        }
    }
}

pub open spec fn conference_type_to_tox(v: ConferenceType) -> ToxConferenceType {
    match v {
        ConferenceType::Text => ToxConferenceType::Text,
        ConferenceType::Av => ToxConferenceType::Av,
    }
}

pub open spec fn file_kind_to_tox(v: FileKind) -> ToxFileKind {
    match v {
        FileKind::Data => ToxFileKind::Data,
        FileKind::Avatar => ToxFileKind::Avatar,
    }
}

impl FileKind {
    /// The daemon's form of the wire value, for outbound commands.
    pub fn to_tox(self) -> (r: ToxFileKind)
        ensures
            r == file_kind_to_tox(self),
    {
        match self {
            FileKind::Data => ToxFileKind::Data,
            FileKind::Avatar => ToxFileKind::Avatar,
        }
    }
}

/// The daemon's numeric code for a file kind, as the wire carries it in a
/// file receipt.
pub open spec fn file_kind_code(k: ToxFileKind) -> u32 {
    match k {
        ToxFileKind::Data => 0,
        ToxFileKind::Avatar => 1,
    }
}

fn file_kind_code_x(k: ToxFileKind) -> (r: u32)
    ensures
        r == file_kind_code(k),
{
    match k {
        ToxFileKind::Data => 0,
        ToxFileKind::Avatar => 1,
    }
}

// ---------------------------------------------------------------------------
// The error taxonomy: internal supersets and their partial maps
// ---------------------------------------------------------------------------

#[derive(Clone, Copy, Debug, PartialEq, Eq, Structural)]
pub enum ToxFriendAddError {
    Null,
    TooLong,
    NoMessage,
    OwnKey,
    AlreadySent,
    BadChecksum,
    SetNewNospam,
    Malloc,
}

pub open spec fn map_friend_add_error(e: ToxFriendAddError) -> Mapping<AddFriendError> {
    match e {
        ToxFriendAddError::Null => Mapping::Unmapped,
        ToxFriendAddError::TooLong => Mapping::Mapped(AddFriendError::TooLong),
        ToxFriendAddError::NoMessage => Mapping::Mapped(AddFriendError::NoMessage),
        ToxFriendAddError::OwnKey => Mapping::Mapped(AddFriendError::OwnKey),
        ToxFriendAddError::AlreadySent => Mapping::Mapped(AddFriendError::AlreadySent),
        ToxFriendAddError::BadChecksum => Mapping::Mapped(AddFriendError::BadChecksum),
        ToxFriendAddError::SetNewNospam => Mapping::Mapped(AddFriendError::SetNewNospam),
        ToxFriendAddError::Malloc => Mapping::Unmapped,
    }
}

/// The internal variant that carries each wire-representable kind.
pub open spec fn tox_of_friend_add_error(w: AddFriendError) -> ToxFriendAddError {
    match w {
        AddFriendError::TooLong => ToxFriendAddError::TooLong,
        AddFriendError::NoMessage => ToxFriendAddError::NoMessage,
        AddFriendError::OwnKey => ToxFriendAddError::OwnKey,
        AddFriendError::AlreadySent => ToxFriendAddError::AlreadySent,
        AddFriendError::BadChecksum => ToxFriendAddError::BadChecksum,
        AddFriendError::SetNewNospam => ToxFriendAddError::SetNewNospam,
    }
}

impl AddFriendError {
    /// Translates the daemon's error, or signals that this schema
    /// generation cannot represent it.
    pub fn from_tox(e: ToxFriendAddError) -> (r: Mapping<AddFriendError>)
        ensures
            r == map_friend_add_error(e),
    {
        match e {
            ToxFriendAddError::Null => Mapping::Unmapped,
            ToxFriendAddError::TooLong => Mapping::Mapped(AddFriendError::TooLong),
            ToxFriendAddError::NoMessage => Mapping::Mapped(AddFriendError::NoMessage),
            ToxFriendAddError::OwnKey => Mapping::Mapped(AddFriendError::OwnKey),
            ToxFriendAddError::AlreadySent => Mapping::Mapped(AddFriendError::AlreadySent),
            ToxFriendAddError::BadChecksum => Mapping::Mapped(AddFriendError::BadChecksum),
            ToxFriendAddError::SetNewNospam => Mapping::Mapped(AddFriendError::SetNewNospam),
            ToxFriendAddError::Malloc => Mapping::Unmapped,
        }
    }
}

/// Exhaustiveness of the taxonomy for this operation: every wire kind
/// comes from exactly the internal variant of the same name, and the
/// unmapped signal arises exactly on the internal-only kinds, never as
/// a fallback wire kind.
pub proof fn lemma_friend_add_error_exhaustive(e: ToxFriendAddError, w: AddFriendError)
    ensures
        map_friend_add_error(tox_of_friend_add_error(w)) == Mapping::<AddFriendError>::Mapped(w),
        map_friend_add_error(e) is Unmapped <==> (e == ToxFriendAddError::Null || e == ToxFriendAddError::Malloc),
{
}

#[derive(Clone, Copy, Debug, PartialEq, Eq, Structural)]
pub enum ToxFriendSendMessageError {
    Null,
    NotFound,
    NotConnected,
    SendQ,
    TooLong,
    Empty,
}

pub open spec fn map_friend_send_message_error(e: ToxFriendSendMessageError) -> Mapping<SendFriendMessageError> {
    match e {
        ToxFriendSendMessageError::Null => Mapping::Unmapped,
        ToxFriendSendMessageError::NotFound => Mapping::Mapped(SendFriendMessageError::NotFound),
        ToxFriendSendMessageError::NotConnected => Mapping::Mapped(SendFriendMessageError::NotConnected),
        ToxFriendSendMessageError::SendQ => Mapping::Unmapped,
        ToxFriendSendMessageError::TooLong => Mapping::Mapped(SendFriendMessageError::TooLong),
        ToxFriendSendMessageError::Empty => Mapping::Mapped(SendFriendMessageError::Empty),
    }
}

/// The internal variant that carries each wire-representable kind.
pub open spec fn tox_of_friend_send_message_error(w: SendFriendMessageError) -> ToxFriendSendMessageError {
    match w {
        SendFriendMessageError::NotFound => ToxFriendSendMessageError::NotFound,
        SendFriendMessageError::NotConnected => ToxFriendSendMessageError::NotConnected,
        SendFriendMessageError::TooLong => ToxFriendSendMessageError::TooLong,
        SendFriendMessageError::Empty => ToxFriendSendMessageError::Empty,
    }
}

impl SendFriendMessageError {
    /// Translates the daemon's error, or signals that this schema
    /// generation cannot represent it.
    pub fn from_tox(e: ToxFriendSendMessageError) -> (r: Mapping<SendFriendMessageError>)
        ensures
            r == map_friend_send_message_error(e),
    {
        match e {
            ToxFriendSendMessageError::Null => Mapping::Unmapped,
            ToxFriendSendMessageError::NotFound => Mapping::Mapped(SendFriendMessageError::NotFound),
            ToxFriendSendMessageError::NotConnected => Mapping::Mapped(SendFriendMessageError::NotConnected),
            ToxFriendSendMessageError::SendQ => Mapping::Unmapped,
            ToxFriendSendMessageError::TooLong => Mapping::Mapped(SendFriendMessageError::TooLong),
            ToxFriendSendMessageError::Empty => Mapping::Mapped(SendFriendMessageError::Empty),
        }
    }
}

/// Exhaustiveness of the taxonomy for this operation: every wire kind
/// comes from exactly the internal variant of the same name, and the
/// unmapped signal arises exactly on the internal-only kinds, never as
/// a fallback wire kind.
pub proof fn lemma_friend_send_message_error_exhaustive(e: ToxFriendSendMessageError, w: SendFriendMessageError)
    ensures
        map_friend_send_message_error(tox_of_friend_send_message_error(w)) == Mapping::<SendFriendMessageError>::Mapped(w),
        map_friend_send_message_error(e) is Unmapped <==> (e == ToxFriendSendMessageError::Null || e == ToxFriendSendMessageError::SendQ),
{
}

#[derive(Clone, Copy, Debug, PartialEq, Eq, Structural)]
pub enum ToxFileControlError {
    FriendNotFound,
    FriendNotConnected,
    NotFound,
    NotPaused,
    Denied,
    AlreadyPaused,
    SendQ,
}

pub open spec fn map_file_control_error(e: ToxFileControlError) -> Mapping<FileControlError> {
    match e {
        ToxFileControlError::FriendNotFound => Mapping::Mapped(FileControlError::FriendNotFound),
        ToxFileControlError::FriendNotConnected => Mapping::Mapped(FileControlError::FriendNotConnected),
        ToxFileControlError::NotFound => Mapping::Mapped(FileControlError::NotFound),
        ToxFileControlError::NotPaused => Mapping::Mapped(FileControlError::NotPaused),
        ToxFileControlError::Denied => Mapping::Mapped(FileControlError::Denied),
        ToxFileControlError::AlreadyPaused => Mapping::Mapped(FileControlError::AlreadyPaused),
        ToxFileControlError::SendQ => Mapping::Mapped(FileControlError::SendQ),
    }
}

/// The internal variant that carries each wire-representable kind.
pub open spec fn tox_of_file_control_error(w: FileControlError) -> ToxFileControlError {
    match w {
        FileControlError::FriendNotFound => ToxFileControlError::FriendNotFound,
        FileControlError::FriendNotConnected => ToxFileControlError::FriendNotConnected,
        FileControlError::NotFound => ToxFileControlError::NotFound,
        FileControlError::NotPaused => ToxFileControlError::NotPaused,
        FileControlError::Denied => ToxFileControlError::Denied,
        FileControlError::AlreadyPaused => ToxFileControlError::AlreadyPaused,
        FileControlError::SendQ => ToxFileControlError::SendQ,
    }
}

impl FileControlError {
    /// Translates the daemon's error, or signals that this schema
    /// generation cannot represent it.
    pub fn from_tox(e: ToxFileControlError) -> (r: Mapping<FileControlError>)
        ensures
            r == map_file_control_error(e),
    {
        match e {
            ToxFileControlError::FriendNotFound => Mapping::Mapped(FileControlError::FriendNotFound),
            ToxFileControlError::FriendNotConnected => Mapping::Mapped(FileControlError::FriendNotConnected),
            ToxFileControlError::NotFound => Mapping::Mapped(FileControlError::NotFound),
            ToxFileControlError::NotPaused => Mapping::Mapped(FileControlError::NotPaused),
            ToxFileControlError::Denied => Mapping::Mapped(FileControlError::Denied),
            ToxFileControlError::AlreadyPaused => Mapping::Mapped(FileControlError::AlreadyPaused),
            ToxFileControlError::SendQ => Mapping::Mapped(FileControlError::SendQ),
        }
    }
}

/// Exhaustiveness of the taxonomy for this operation: every wire kind
/// comes from exactly the internal variant of the same name, and the
/// unmapped signal arises exactly on the internal-only kinds, never as
/// a fallback wire kind.
pub proof fn lemma_file_control_error_exhaustive(e: ToxFileControlError, w: FileControlError)
    ensures
        map_file_control_error(tox_of_file_control_error(w)) == Mapping::<FileControlError>::Mapped(w),
        map_file_control_error(e) is Unmapped <==> (false),
{
}

#[derive(Clone, Copy, Debug, PartialEq, Eq, Structural)]
pub enum ToxFileSeekError {
    FriendNotFound,
    FriendNotConnected,
    NotFound,
    Denied,
    InvalidPosition,
    SendQ,
}

pub open spec fn map_file_seek_error(e: ToxFileSeekError) -> Mapping<FileSeekError> {
    match e {
        ToxFileSeekError::FriendNotFound => Mapping::Mapped(FileSeekError::FriendNotFound),
        ToxFileSeekError::FriendNotConnected => Mapping::Mapped(FileSeekError::FriendNotConnected),
        ToxFileSeekError::NotFound => Mapping::Mapped(FileSeekError::NotFound),
        ToxFileSeekError::Denied => Mapping::Mapped(FileSeekError::Denied),
        ToxFileSeekError::InvalidPosition => Mapping::Mapped(FileSeekError::InvalidPosition),
        ToxFileSeekError::SendQ => Mapping::Mapped(FileSeekError::SendQ),
    }
}

/// The internal variant that carries each wire-representable kind.
pub open spec fn tox_of_file_seek_error(w: FileSeekError) -> ToxFileSeekError {
    match w {
        FileSeekError::FriendNotFound => ToxFileSeekError::FriendNotFound,
        FileSeekError::FriendNotConnected => ToxFileSeekError::FriendNotConnected,
        FileSeekError::NotFound => ToxFileSeekError::NotFound,
        FileSeekError::Denied => ToxFileSeekError::Denied,
        FileSeekError::InvalidPosition => ToxFileSeekError::InvalidPosition,
        FileSeekError::SendQ => ToxFileSeekError::SendQ,
    }
}

impl FileSeekError {
    /// Translates the daemon's error, or signals that this schema
    /// generation cannot represent it.
    pub fn from_tox(e: ToxFileSeekError) -> (r: Mapping<FileSeekError>)
        ensures
            r == map_file_seek_error(e),
    {
        match e {
            ToxFileSeekError::FriendNotFound => Mapping::Mapped(FileSeekError::FriendNotFound),
            ToxFileSeekError::FriendNotConnected => Mapping::Mapped(FileSeekError::FriendNotConnected),
            ToxFileSeekError::NotFound => Mapping::Mapped(FileSeekError::NotFound),
            ToxFileSeekError::Denied => Mapping::Mapped(FileSeekError::Denied),
            ToxFileSeekError::InvalidPosition => Mapping::Mapped(FileSeekError::InvalidPosition),
            ToxFileSeekError::SendQ => Mapping::Mapped(FileSeekError::SendQ),
        }
    }
}

/// Exhaustiveness of the taxonomy for this operation: every wire kind
/// comes from exactly the internal variant of the same name, and the
/// unmapped signal arises exactly on the internal-only kinds, never as
/// a fallback wire kind.
pub proof fn lemma_file_seek_error_exhaustive(e: ToxFileSeekError, w: FileSeekError)
    ensures
        map_file_seek_error(tox_of_file_seek_error(w)) == Mapping::<FileSeekError>::Mapped(w),
        map_file_seek_error(e) is Unmapped <==> (false),
{
}

#[derive(Clone, Copy, Debug, PartialEq, Eq, Structural)]
pub enum ToxFileGetError {
    Null,
    FriendNotFound,
    NotFound,
}

pub open spec fn map_file_get_error(e: ToxFileGetError) -> Mapping<FileGetError> {
    match e {
        ToxFileGetError::Null => Mapping::Unmapped,
        ToxFileGetError::FriendNotFound => Mapping::Mapped(FileGetError::FriendNotFound),
        ToxFileGetError::NotFound => Mapping::Mapped(FileGetError::NotFound),
    }
}

/// The internal variant that carries each wire-representable kind.
pub open spec fn tox_of_file_get_error(w: FileGetError) -> ToxFileGetError {
    match w {
        FileGetError::FriendNotFound => ToxFileGetError::FriendNotFound,
        FileGetError::NotFound => ToxFileGetError::NotFound,
    }
}

impl FileGetError {
    /// Translates the daemon's error, or signals that this schema
    /// generation cannot represent it.
    pub fn from_tox(e: ToxFileGetError) -> (r: Mapping<FileGetError>)
        ensures
            r == map_file_get_error(e),
    {
        match e {
            ToxFileGetError::Null => Mapping::Unmapped,
            ToxFileGetError::FriendNotFound => Mapping::Mapped(FileGetError::FriendNotFound),
            ToxFileGetError::NotFound => Mapping::Mapped(FileGetError::NotFound),
        }
    }
}

/// Exhaustiveness of the taxonomy for this operation: every wire kind
/// comes from exactly the internal variant of the same name, and the
/// unmapped signal arises exactly on the internal-only kinds, never as
/// a fallback wire kind.
pub proof fn lemma_file_get_error_exhaustive(e: ToxFileGetError, w: FileGetError)
    ensures
        map_file_get_error(tox_of_file_get_error(w)) == Mapping::<FileGetError>::Mapped(w),
        map_file_get_error(e) is Unmapped <==> (e == ToxFileGetError::Null),
{
}

#[derive(Clone, Copy, Debug, PartialEq, Eq, Structural)]
pub enum ToxFileSendError {
    Null,
    FriendNotFound,
    FriendNotConnected,
    NameTooLong,
    TooMany,
}

pub open spec fn map_file_send_error(e: ToxFileSendError) -> Mapping<FileSendError> {
    match e {
        ToxFileSendError::Null => Mapping::Unmapped,
        ToxFileSendError::FriendNotFound => Mapping::Mapped(FileSendError::FriendNotFound),
        ToxFileSendError::FriendNotConnected => Mapping::Mapped(FileSendError::FriendNotConnected),
        ToxFileSendError::NameTooLong => Mapping::Mapped(FileSendError::NameTooLong),
        ToxFileSendError::TooMany => Mapping::Mapped(FileSendError::TooMany),
    }
}

/// The internal variant that carries each wire-representable kind.
pub open spec fn tox_of_file_send_error(w: FileSendError) -> ToxFileSendError {
    match w {
        FileSendError::FriendNotFound => ToxFileSendError::FriendNotFound,
        FileSendError::FriendNotConnected => ToxFileSendError::FriendNotConnected,
        FileSendError::NameTooLong => ToxFileSendError::NameTooLong,
        FileSendError::TooMany => ToxFileSendError::TooMany,
    }
}

impl FileSendError {
    /// Translates the daemon's error, or signals that this schema
    /// generation cannot represent it.
    pub fn from_tox(e: ToxFileSendError) -> (r: Mapping<FileSendError>)
        ensures
            r == map_file_send_error(e),
    {
        match e {
            ToxFileSendError::Null => Mapping::Unmapped,
            ToxFileSendError::FriendNotFound => Mapping::Mapped(FileSendError::FriendNotFound),
            ToxFileSendError::FriendNotConnected => Mapping::Mapped(FileSendError::FriendNotConnected),
            ToxFileSendError::NameTooLong => Mapping::Mapped(FileSendError::NameTooLong),
            ToxFileSendError::TooMany => Mapping::Mapped(FileSendError::TooMany),
        }
    }
}

/// Exhaustiveness of the taxonomy for this operation: every wire kind
/// comes from exactly the internal variant of the same name, and the
/// unmapped signal arises exactly on the internal-only kinds, never as
/// a fallback wire kind.
pub proof fn lemma_file_send_error_exhaustive(e: ToxFileSendError, w: FileSendError)
    ensures
        map_file_send_error(tox_of_file_send_error(w)) == Mapping::<FileSendError>::Mapped(w),
        map_file_send_error(e) is Unmapped <==> (e == ToxFileSendError::Null),
{
}

#[derive(Clone, Copy, Debug, PartialEq, Eq, Structural)]
pub enum ToxFileSendChunkError {
    Null,
    FriendNotFound,
    FriendNotConnected,
    NotFound,
    NotTransferring,
    InvalidLength,
    SendQ,
    WrongPosition,
}

pub open spec fn map_file_send_chunk_error(e: ToxFileSendChunkError) -> Mapping<FileSendChunkError> {
    match e {
        ToxFileSendChunkError::Null => Mapping::Unmapped,
        ToxFileSendChunkError::FriendNotFound => Mapping::Mapped(FileSendChunkError::FriendNotFound),
        ToxFileSendChunkError::FriendNotConnected => Mapping::Mapped(FileSendChunkError::FriendNotConnected),
        ToxFileSendChunkError::NotFound => Mapping::Mapped(FileSendChunkError::NotFound),
        ToxFileSendChunkError::NotTransferring => Mapping::Mapped(FileSendChunkError::NotTransferring),
        ToxFileSendChunkError::InvalidLength => Mapping::Mapped(FileSendChunkError::InvalidLength),
        ToxFileSendChunkError::SendQ => Mapping::Mapped(FileSendChunkError::SendQ),
        ToxFileSendChunkError::WrongPosition => Mapping::Mapped(FileSendChunkError::WrongPosition),
    }
}

/// The internal variant that carries each wire-representable kind.
pub open spec fn tox_of_file_send_chunk_error(w: FileSendChunkError) -> ToxFileSendChunkError {
    match w {
        FileSendChunkError::FriendNotFound => ToxFileSendChunkError::FriendNotFound,
        FileSendChunkError::FriendNotConnected => ToxFileSendChunkError::FriendNotConnected,
        FileSendChunkError::NotFound => ToxFileSendChunkError::NotFound,
        FileSendChunkError::NotTransferring => ToxFileSendChunkError::NotTransferring,
        FileSendChunkError::InvalidLength => ToxFileSendChunkError::InvalidLength,
        FileSendChunkError::SendQ => ToxFileSendChunkError::SendQ,
        FileSendChunkError::WrongPosition => ToxFileSendChunkError::WrongPosition,
    }
}

impl FileSendChunkError {
    /// Translates the daemon's error, or signals that this schema
    /// generation cannot represent it.
    pub fn from_tox(e: ToxFileSendChunkError) -> (r: Mapping<FileSendChunkError>)
        ensures
            r == map_file_send_chunk_error(e),
    {
        match e {
            ToxFileSendChunkError::Null => Mapping::Unmapped,
            ToxFileSendChunkError::FriendNotFound => Mapping::Mapped(FileSendChunkError::FriendNotFound),
            ToxFileSendChunkError::FriendNotConnected => Mapping::Mapped(FileSendChunkError::FriendNotConnected),
            ToxFileSendChunkError::NotFound => Mapping::Mapped(FileSendChunkError::NotFound),
            ToxFileSendChunkError::NotTransferring => Mapping::Mapped(FileSendChunkError::NotTransferring),
            ToxFileSendChunkError::InvalidLength => Mapping::Mapped(FileSendChunkError::InvalidLength),
            ToxFileSendChunkError::SendQ => Mapping::Mapped(FileSendChunkError::SendQ),
            ToxFileSendChunkError::WrongPosition => Mapping::Mapped(FileSendChunkError::WrongPosition),
        }
    }
}

/// Exhaustiveness of the taxonomy for this operation: every wire kind
/// comes from exactly the internal variant of the same name, and the
/// unmapped signal arises exactly on the internal-only kinds, never as
/// a fallback wire kind.
pub proof fn lemma_file_send_chunk_error_exhaustive(e: ToxFileSendChunkError, w: FileSendChunkError)
    ensures
        map_file_send_chunk_error(tox_of_file_send_chunk_error(w)) == Mapping::<FileSendChunkError>::Mapped(w),
        map_file_send_chunk_error(e) is Unmapped <==> (e == ToxFileSendChunkError::Null),
{
}

#[derive(Clone, Copy, Debug, PartialEq, Eq, Structural)]
pub enum ToxConferenceInviteError {
    ConferenceNotFound,
    FailSend,
    NoConnection,
}

pub open spec fn map_conference_invite_error(e: ToxConferenceInviteError) -> Mapping<ConferenceInviteError> {
    match e {
        ToxConferenceInviteError::ConferenceNotFound => Mapping::Mapped(ConferenceInviteError::ConferenceNotFound),
        ToxConferenceInviteError::FailSend => Mapping::Mapped(ConferenceInviteError::FailSend),
        ToxConferenceInviteError::NoConnection => Mapping::Mapped(ConferenceInviteError::NoConnection),
    }
}

/// The internal variant that carries each wire-representable kind.
pub open spec fn tox_of_conference_invite_error(w: ConferenceInviteError) -> ToxConferenceInviteError {
    match w {
        ConferenceInviteError::ConferenceNotFound => ToxConferenceInviteError::ConferenceNotFound,
        ConferenceInviteError::FailSend => ToxConferenceInviteError::FailSend,
        ConferenceInviteError::NoConnection => ToxConferenceInviteError::NoConnection,
    }
}

impl ConferenceInviteError {
    /// Translates the daemon's error, or signals that this schema
    /// generation cannot represent it.
    pub fn from_tox(e: ToxConferenceInviteError) -> (r: Mapping<ConferenceInviteError>)
        ensures
            r == map_conference_invite_error(e),
    {
        match e {
            ToxConferenceInviteError::ConferenceNotFound => Mapping::Mapped(ConferenceInviteError::ConferenceNotFound),
            ToxConferenceInviteError::FailSend => Mapping::Mapped(ConferenceInviteError::FailSend),
            ToxConferenceInviteError::NoConnection => Mapping::Mapped(ConferenceInviteError::NoConnection),
        }
    }
}

/// Exhaustiveness of the taxonomy for this operation: every wire kind
/// comes from exactly the internal variant of the same name, and the
/// unmapped signal arises exactly on the internal-only kinds, never as
/// a fallback wire kind.
pub proof fn lemma_conference_invite_error_exhaustive(e: ToxConferenceInviteError, w: ConferenceInviteError)
    ensures
        map_conference_invite_error(tox_of_conference_invite_error(w)) == Mapping::<ConferenceInviteError>::Mapped(w),
        map_conference_invite_error(e) is Unmapped <==> (false),
{
}

#[derive(Clone, Copy, Debug, PartialEq, Eq, Structural)]
pub enum ToxConferenceJoinError {
    InvalidLength,
    WrongType,
    FriendNotFound,
    Duplicate,
    InitFail,
    FailSend,
}

pub open spec fn map_conference_join_error(e: ToxConferenceJoinError) -> Mapping<ConferenceJoinError> {
    match e {
        ToxConferenceJoinError::InvalidLength => Mapping::Mapped(ConferenceJoinError::InvalidLength),
        ToxConferenceJoinError::WrongType => Mapping::Mapped(ConferenceJoinError::WrongType),
        ToxConferenceJoinError::FriendNotFound => Mapping::Mapped(ConferenceJoinError::FriendNotFound),
        ToxConferenceJoinError::Duplicate => Mapping::Mapped(ConferenceJoinError::Duplicate),
        ToxConferenceJoinError::InitFail => Mapping::Mapped(ConferenceJoinError::InitFail),
        ToxConferenceJoinError::FailSend => Mapping::Mapped(ConferenceJoinError::FailSend),
    }
}

/// The internal variant that carries each wire-representable kind.
pub open spec fn tox_of_conference_join_error(w: ConferenceJoinError) -> ToxConferenceJoinError {
    match w {
        ConferenceJoinError::InvalidLength => ToxConferenceJoinError::InvalidLength,
        ConferenceJoinError::WrongType => ToxConferenceJoinError::WrongType,
        ConferenceJoinError::FriendNotFound => ToxConferenceJoinError::FriendNotFound,
        ConferenceJoinError::Duplicate => ToxConferenceJoinError::Duplicate,
        ConferenceJoinError::InitFail => ToxConferenceJoinError::InitFail,
        ConferenceJoinError::FailSend => ToxConferenceJoinError::FailSend,
    }
}

impl ConferenceJoinError {
    /// Translates the daemon's error, or signals that this schema
    /// generation cannot represent it.
    pub fn from_tox(e: ToxConferenceJoinError) -> (r: Mapping<ConferenceJoinError>)
        ensures
            r == map_conference_join_error(e),
    {
        match e {
            ToxConferenceJoinError::InvalidLength => Mapping::Mapped(ConferenceJoinError::InvalidLength),
            ToxConferenceJoinError::WrongType => Mapping::Mapped(ConferenceJoinError::WrongType),
            ToxConferenceJoinError::FriendNotFound => Mapping::Mapped(ConferenceJoinError::FriendNotFound),
            ToxConferenceJoinError::Duplicate => Mapping::Mapped(ConferenceJoinError::Duplicate),
            ToxConferenceJoinError::InitFail => Mapping::Mapped(ConferenceJoinError::InitFail),
            ToxConferenceJoinError::FailSend => Mapping::Mapped(ConferenceJoinError::FailSend),
        }
    }
}

/// Exhaustiveness of the taxonomy for this operation: every wire kind
/// comes from exactly the internal variant of the same name, and the
/// unmapped signal arises exactly on the internal-only kinds, never as
/// a fallback wire kind.
pub proof fn lemma_conference_join_error_exhaustive(e: ToxConferenceJoinError, w: ConferenceJoinError)
    ensures
        map_conference_join_error(tox_of_conference_join_error(w)) == Mapping::<ConferenceJoinError>::Mapped(w),
        map_conference_join_error(e) is Unmapped <==> (false),
{
}

#[derive(Clone, Copy, Debug, PartialEq, Eq, Structural)]
pub enum ToxConferencePeerQueryError {
    ConferenceNotFound,
    PeerNotFound,
    PeerQueryNoConnection,
}

pub open spec fn map_conference_peer_query_error(e: ToxConferencePeerQueryError) -> Mapping<ConferencePeerQueryError> {
    match e {
        ToxConferencePeerQueryError::ConferenceNotFound => Mapping::Mapped(ConferencePeerQueryError::ConferenceNotFound),
        ToxConferencePeerQueryError::PeerNotFound => Mapping::Mapped(ConferencePeerQueryError::PeerNotFound),
        ToxConferencePeerQueryError::PeerQueryNoConnection => Mapping::Mapped(ConferencePeerQueryError::PeerQueryNoConnection),
    }
}

/// The internal variant that carries each wire-representable kind.
pub open spec fn tox_of_conference_peer_query_error(w: ConferencePeerQueryError) -> ToxConferencePeerQueryError {
    match w {
        ConferencePeerQueryError::ConferenceNotFound => ToxConferencePeerQueryError::ConferenceNotFound,
        ConferencePeerQueryError::PeerNotFound => ToxConferencePeerQueryError::PeerNotFound,
        ConferencePeerQueryError::PeerQueryNoConnection => ToxConferencePeerQueryError::PeerQueryNoConnection,
    }
}

impl ConferencePeerQueryError {
    /// Translates the daemon's error, or signals that this schema
    /// generation cannot represent it.
    pub fn from_tox(e: ToxConferencePeerQueryError) -> (r: Mapping<ConferencePeerQueryError>)
        ensures
            r == map_conference_peer_query_error(e),
    {
        match e {
            ToxConferencePeerQueryError::ConferenceNotFound => Mapping::Mapped(ConferencePeerQueryError::ConferenceNotFound),
            ToxConferencePeerQueryError::PeerNotFound => Mapping::Mapped(ConferencePeerQueryError::PeerNotFound),
            ToxConferencePeerQueryError::PeerQueryNoConnection => Mapping::Mapped(ConferencePeerQueryError::PeerQueryNoConnection),
        }
    }
}

/// Exhaustiveness of the taxonomy for this operation: every wire kind
/// comes from exactly the internal variant of the same name, and the
/// unmapped signal arises exactly on the internal-only kinds, never as
/// a fallback wire kind.
pub proof fn lemma_conference_peer_query_error_exhaustive(e: ToxConferencePeerQueryError, w: ConferencePeerQueryError)
    ensures
        map_conference_peer_query_error(tox_of_conference_peer_query_error(w)) == Mapping::<ConferencePeerQueryError>::Mapped(w),
        map_conference_peer_query_error(e) is Unmapped <==> (false),
{
}

#[derive(Clone, Copy, Debug, PartialEq, Eq, Structural)]
pub enum ToxConferenceSendError {
    ConferenceNotFound,
    TooLong,
    NoConnection,
    FailSend,
}

pub open spec fn map_conference_send_error(e: ToxConferenceSendError) -> Mapping<ConferenceSendError> {
    match e {
        ToxConferenceSendError::ConferenceNotFound => Mapping::Mapped(ConferenceSendError::ConferenceNotFound),
        ToxConferenceSendError::TooLong => Mapping::Mapped(ConferenceSendError::TooLong),
        ToxConferenceSendError::NoConnection => Mapping::Mapped(ConferenceSendError::NoConnection),
        ToxConferenceSendError::FailSend => Mapping::Mapped(ConferenceSendError::FailSend),
    }
}

/// The internal variant that carries each wire-representable kind.
pub open spec fn tox_of_conference_send_error(w: ConferenceSendError) -> ToxConferenceSendError {
    match w {
        ConferenceSendError::ConferenceNotFound => ToxConferenceSendError::ConferenceNotFound,
        ConferenceSendError::TooLong => ToxConferenceSendError::TooLong,
        ConferenceSendError::NoConnection => ToxConferenceSendError::NoConnection,
        ConferenceSendError::FailSend => ToxConferenceSendError::FailSend,
    }
}

impl ConferenceSendError {
    /// Translates the daemon's error, or signals that this schema
    /// generation cannot represent it.
    pub fn from_tox(e: ToxConferenceSendError) -> (r: Mapping<ConferenceSendError>)
        ensures
            r == map_conference_send_error(e),
    {
        match e {
            ToxConferenceSendError::ConferenceNotFound => Mapping::Mapped(ConferenceSendError::ConferenceNotFound),
            ToxConferenceSendError::TooLong => Mapping::Mapped(ConferenceSendError::TooLong),
            ToxConferenceSendError::NoConnection => Mapping::Mapped(ConferenceSendError::NoConnection),
            ToxConferenceSendError::FailSend => Mapping::Mapped(ConferenceSendError::FailSend),
        }
    }
}

/// Exhaustiveness of the taxonomy for this operation: every wire kind
/// comes from exactly the internal variant of the same name, and the
/// unmapped signal arises exactly on the internal-only kinds, never as
/// a fallback wire kind.
pub proof fn lemma_conference_send_error_exhaustive(e: ToxConferenceSendError, w: ConferenceSendError)
    ensures
        map_conference_send_error(tox_of_conference_send_error(w)) == Mapping::<ConferenceSendError>::Mapped(w),
        map_conference_send_error(e) is Unmapped <==> (false),
{
}

#[derive(Clone, Copy, Debug, PartialEq, Eq, Structural)]
pub enum ToxConferenceTitleError {
    ConferenceNotFound,
    InvalidLength,
    FailSend,
}

pub open spec fn map_conference_title_error(e: ToxConferenceTitleError) -> Mapping<ConferenceTitleError> {
    match e {
        ToxConferenceTitleError::ConferenceNotFound => Mapping::Mapped(ConferenceTitleError::ConferenceNotFound),
        ToxConferenceTitleError::InvalidLength => Mapping::Mapped(ConferenceTitleError::InvalidLength),
        ToxConferenceTitleError::FailSend => Mapping::Mapped(ConferenceTitleError::FailSend),
    }
}

/// The internal variant that carries each wire-representable kind.
pub open spec fn tox_of_conference_title_error(w: ConferenceTitleError) -> ToxConferenceTitleError {
    match w {
        ConferenceTitleError::ConferenceNotFound => ToxConferenceTitleError::ConferenceNotFound,
        ConferenceTitleError::InvalidLength => ToxConferenceTitleError::InvalidLength,
        ConferenceTitleError::FailSend => ToxConferenceTitleError::FailSend,
    }
}

impl ConferenceTitleError {
    /// Translates the daemon's error, or signals that this schema
    /// generation cannot represent it.
    pub fn from_tox(e: ToxConferenceTitleError) -> (r: Mapping<ConferenceTitleError>)
        ensures
            r == map_conference_title_error(e),
    {
        match e {
            ToxConferenceTitleError::ConferenceNotFound => Mapping::Mapped(ConferenceTitleError::ConferenceNotFound),
            ToxConferenceTitleError::InvalidLength => Mapping::Mapped(ConferenceTitleError::InvalidLength),
            ToxConferenceTitleError::FailSend => Mapping::Mapped(ConferenceTitleError::FailSend),
        }
    }
}

/// Exhaustiveness of the taxonomy for this operation: every wire kind
/// comes from exactly the internal variant of the same name, and the
/// unmapped signal arises exactly on the internal-only kinds, never as
/// a fallback wire kind.
pub proof fn lemma_conference_title_error_exhaustive(e: ToxConferenceTitleError, w: ConferenceTitleError)
    ensures
        map_conference_title_error(tox_of_conference_title_error(w)) == Mapping::<ConferenceTitleError>::Mapped(w),
        map_conference_title_error(e) is Unmapped <==> (false),
{
}

// ---------------------------------------------------------------------------
// The daemon's event surface, and the Inbound Translator
// ---------------------------------------------------------------------------

/// One event as the daemon reports it. This surface is wider than the
/// wire schema: the last kinds have no wire counterpart in this schema
/// generation and are dropped by the translator.
#[derive(Clone, Debug, PartialEq)]
pub enum ToxEvent {
    ConnectionStatus { status: ToxConnection },
    FriendRequest { public_key: [u8; 32], message: String },
    FriendMessage { friend: u32, kind: ToxMessageType, message: String },
    FriendName { friend: u32, name: String },
    FriendStatusMessage { friend: u32, status: String },
    FriendStatus { friend: u32, status: ToxUserStatus },
    FriendConnectionStatus { friend: u32, status: ToxConnection },
    FriendTyping { friend: u32, is_typing: bool },
    FriendReadReceipt { friend: u32, message_id: u32 },
    FileControlReceive { friend: u32, file_number: u32, control: ToxFileControl },
    FileChunkRequest { friend: u32, file_number: u32, position: usize, length: usize },
    FileReceive { friend: u32, file_number: u32, kind: ToxFileKind, file_size: usize, file_name: String },
    FileChunkReceive { friend: u32, file_number: u32, position: usize, data: Vec<u8> },
    ConferenceInvite { friend: u32, kind: ToxConferenceType, cookie: Vec<u8> },
    ConferenceConnected { conference: u32 },
    ConferenceMessage { conference: u32, peer: u32, kind: ToxMessageType, message: String },
    ConferenceTitle { conference: u32, peer: u32, title: String },
    ConferencePeerName { conference: u32, peer: u32, name: String },
    ConferencePeerListChanged { conference: u32 },
    AvatarReceive { friend: u32, data: Vec<u8> },
    LossyPacket { friend: u32, data: Vec<u8> },
    LosslessPacket { friend: u32, data: Vec<u8> },
}

pub enum ToxEventV {
    ConnectionStatus { status: ToxConnection },
    FriendRequest { public_key: Seq<u8>, message: Seq<char> },
    FriendMessage { friend: u32, kind: ToxMessageType, message: Seq<char> },
    FriendName { friend: u32, name: Seq<char> },
    FriendStatusMessage { friend: u32, status: Seq<char> },
    FriendStatus { friend: u32, status: ToxUserStatus },
    FriendConnectionStatus { friend: u32, status: ToxConnection },
    FriendTyping { friend: u32, is_typing: bool },
    FriendReadReceipt { friend: u32, message_id: u32 },
    FileControlReceive { friend: u32, file_number: u32, control: ToxFileControl },
    FileChunkRequest { friend: u32, file_number: u32, position: usize, length: usize },
    FileReceive { friend: u32, file_number: u32, kind: ToxFileKind, file_size: usize, file_name: Seq<char> },
    FileChunkReceive { friend: u32, file_number: u32, position: usize, data: Seq<u8> },
    ConferenceInvite { friend: u32, kind: ToxConferenceType, cookie: Seq<u8> },
    ConferenceConnected { conference: u32 },
    ConferenceMessage { conference: u32, peer: u32, kind: ToxMessageType, message: Seq<char> },
    ConferenceTitle { conference: u32, peer: u32, title: Seq<char> },
    ConferencePeerName { conference: u32, peer: u32, name: Seq<char> },
    ConferencePeerListChanged { conference: u32 },
    AvatarReceive { friend: u32, data: Seq<u8> },
    LossyPacket { friend: u32, data: Seq<u8> },
    LosslessPacket { friend: u32, data: Seq<u8> },
}

impl View for ToxEvent {
    type V = ToxEventV;

    open spec fn view(&self) -> ToxEventV {
        match self {
            ToxEvent::ConnectionStatus { status } => ToxEventV::ConnectionStatus { status: *status },
            ToxEvent::FriendRequest { public_key, message } => ToxEventV::FriendRequest { public_key: public_key@, message: message@ },
            ToxEvent::FriendMessage { friend, kind, message } => ToxEventV::FriendMessage { friend: *friend, kind: *kind, message: message@ },
            ToxEvent::FriendName { friend, name } => ToxEventV::FriendName { friend: *friend, name: name@ },
            ToxEvent::FriendStatusMessage { friend, status } => ToxEventV::FriendStatusMessage { friend: *friend, status: status@ },
            ToxEvent::FriendStatus { friend, status } => ToxEventV::FriendStatus { friend: *friend, status: *status },
            ToxEvent::FriendConnectionStatus { friend, status } => ToxEventV::FriendConnectionStatus { friend: *friend, status: *status },
            ToxEvent::FriendTyping { friend, is_typing } => ToxEventV::FriendTyping { friend: *friend, is_typing: *is_typing },
            ToxEvent::FriendReadReceipt { friend, message_id } => ToxEventV::FriendReadReceipt { friend: *friend, message_id: *message_id },
            ToxEvent::FileControlReceive { friend, file_number, control } => ToxEventV::FileControlReceive { friend: *friend, file_number: *file_number, control: *control },
            ToxEvent::FileChunkRequest { friend, file_number, position, length } => ToxEventV::FileChunkRequest { friend: *friend, file_number: *file_number, position: *position, length: *length },
            ToxEvent::FileReceive { friend, file_number, kind, file_size, file_name } => ToxEventV::FileReceive { friend: *friend, file_number: *file_number, kind: *kind, file_size: *file_size, file_name: file_name@ },
            ToxEvent::FileChunkReceive { friend, file_number, position, data } => ToxEventV::FileChunkReceive { friend: *friend, file_number: *file_number, position: *position, data: data@ },
            ToxEvent::ConferenceInvite { friend, kind, cookie } => ToxEventV::ConferenceInvite { friend: *friend, kind: *kind, cookie: cookie@ },
            ToxEvent::ConferenceConnected { conference } => ToxEventV::ConferenceConnected { conference: *conference },
            ToxEvent::ConferenceMessage { conference, peer, kind, message } => ToxEventV::ConferenceMessage { conference: *conference, peer: *peer, kind: *kind, message: message@ },
            ToxEvent::ConferenceTitle { conference, peer, title } => ToxEventV::ConferenceTitle { conference: *conference, peer: *peer, title: title@ },
            ToxEvent::ConferencePeerName { conference, peer, name } => ToxEventV::ConferencePeerName { conference: *conference, peer: *peer, name: name@ },
            ToxEvent::ConferencePeerListChanged { conference } => ToxEventV::ConferencePeerListChanged { conference: *conference },
            ToxEvent::AvatarReceive { friend, data } => ToxEventV::AvatarReceive { friend: *friend, data: data@ },
            ToxEvent::LossyPacket { friend, data } => ToxEventV::LossyPacket { friend: *friend, data: data@ },
            ToxEvent::LosslessPacket { friend, data } => ToxEventV::LosslessPacket { friend: *friend, data: data@ },
        }
    }
}

/// An internal event kind this schema generation cannot represent.
pub open spec fn tox_event_internal_only(e: ToxEventV) -> bool {
    match e {
        ToxEventV::FriendStatus { .. } => true,
        ToxEventV::AvatarReceive { .. } => true,
        ToxEventV::LossyPacket { .. } => true,
        ToxEventV::LosslessPacket { .. } => true,
        _ => false,
    }
}

/// The Inbound Translator on the mathematical side: one internal event
/// in, zero or one wire event out, a pure renaming of fields.
pub open spec fn map_tox_event(e: ToxEventV) -> Option<EventV> {
    match e {
        ToxEventV::ConnectionStatus { status } => Some(EventV::ConnectionStatus { status: connection_status_from_tox(status) }),
        ToxEventV::FriendRequest { public_key, message } => Some(EventV::FriendRequest { public_key: public_key, message: message }),
        ToxEventV::FriendMessage { friend, kind, message } => Some(EventV::FriendMessage { friend: friend, kind: message_type_from_tox(kind), message: message }),
        ToxEventV::FriendName { friend, name } => Some(EventV::FriendName { friend: friend, name: name }),
        ToxEventV::FriendStatusMessage { friend, status } => Some(EventV::FriendStatusMessage { friend: friend, status: status }),
        ToxEventV::FriendStatus { .. } => None,
        ToxEventV::FriendConnectionStatus { friend, status } => Some(EventV::FriendConnectionStatus { friend: friend, status: connection_status_from_tox(status) }),
        ToxEventV::FriendTyping { friend, is_typing } => Some(EventV::FriendTyping { friend: friend, is_typing: is_typing }),
        ToxEventV::FriendReadReceipt { friend, message_id } => Some(EventV::FriendReadReceipt { friend: friend, message_id: message_id }),
        ToxEventV::FileControlReceive { friend, file_number, control } => Some(EventV::FileControlReceipt { friend: friend, file_number: file_number, control: file_control_from_tox(control) }),
        ToxEventV::FileChunkRequest { friend, file_number, position, length } => Some(EventV::FileChunkRequest { friend: friend, file_number: file_number, position: position, length: length }),
        ToxEventV::FileReceive { friend, file_number, kind, file_size, file_name } => Some(EventV::FileReceipt { friend: friend, file_number: file_number, kind: file_kind_code(kind), file_size: file_size, file_name: file_name }),
        ToxEventV::FileChunkReceive { friend, file_number, position, data } => Some(EventV::FileChunkReceipt { friend: friend, file_number: file_number, position: position, data: data }),
        ToxEventV::ConferenceInvite { friend, kind, cookie } => Some(EventV::ConferenceInvite { friend: friend, kind: conference_type_from_tox(kind), cookie: cookie }),
        ToxEventV::ConferenceConnected { conference } => Some(EventV::ConferenceConnected { conference: conference }),
        ToxEventV::ConferenceMessage { conference, peer, kind, message } => Some(EventV::ConferenceMessage { conference: conference, peer: peer, kind: message_type_from_tox(kind), message: message }),
        ToxEventV::ConferenceTitle { conference, peer, title } => Some(EventV::ConferenceTitle { conference: conference, peer: peer, title: title }),
        ToxEventV::ConferencePeerName { conference, peer, name } => Some(EventV::ConferencePeerName { conference: conference, peer: peer, name: name }),
        ToxEventV::ConferencePeerListChanged { conference } => Some(EventV::ConferencePeerListChanged { conference: conference }),
        ToxEventV::AvatarReceive { .. } => None,
        ToxEventV::LossyPacket { .. } => None,
        ToxEventV::LosslessPacket { .. } => None,
    }
}

impl Event {
    /// The Inbound Translator: the wire event for one daemon event, or
    /// nothing when this schema generation has no shape for it. Dropped
    /// kinds are discarded, never queued and never a fault.
    pub fn from_tox_event(event: &ToxEvent) -> (r: Option<Event>)
        ensures
            ({
                let sp = map_tox_event(event@);
                match r {
                    Some(ev) => sp == Some(ev@),
                    None => sp is None,
                }
            }),
    {
        match event {
            ToxEvent::ConnectionStatus { status } => Some(Event::ConnectionStatus { status: ConnectionStatus::from_tox(*status) }),
            ToxEvent::FriendRequest { public_key, message } => Some(Event::FriendRequest { public_key: *public_key, message: message.clone() }),
            ToxEvent::FriendMessage { friend, kind, message } => Some(Event::FriendMessage { friend: *friend, kind: MessageType::from_tox(*kind), message: message.clone() }),
            ToxEvent::FriendName { friend, name } => Some(Event::FriendName { friend: *friend, name: name.clone() }),
            ToxEvent::FriendStatusMessage { friend, status } => Some(Event::FriendStatusMessage { friend: *friend, status: status.clone() }),
            ToxEvent::FriendStatus { .. } => None,
            ToxEvent::FriendConnectionStatus { friend, status } => Some(Event::FriendConnectionStatus { friend: *friend, status: ConnectionStatus::from_tox(*status) }),
            ToxEvent::FriendTyping { friend, is_typing } => Some(Event::FriendTyping { friend: *friend, is_typing: *is_typing }),
            ToxEvent::FriendReadReceipt { friend, message_id } => Some(Event::FriendReadReceipt { friend: *friend, message_id: *message_id }),
            ToxEvent::FileControlReceive { friend, file_number, control } => Some(Event::FileControlReceipt { friend: *friend, file_number: *file_number, control: FileControl::from_tox(*control) }),
            ToxEvent::FileChunkRequest { friend, file_number, position, length } => Some(Event::FileChunkRequest { friend: *friend, file_number: *file_number, position: *position, length: *length }),
            ToxEvent::FileReceive { friend, file_number, kind, file_size, file_name } => Some(Event::FileReceipt { friend: *friend, file_number: *file_number, kind: file_kind_code_x(*kind), file_size: *file_size, file_name: file_name.clone() }),
            ToxEvent::FileChunkReceive { friend, file_number, position, data } => Some(Event::FileChunkReceipt { friend: *friend, file_number: *file_number, position: *position, data: data.clone() }),
            ToxEvent::ConferenceInvite { friend, kind, cookie } => Some(Event::ConferenceInvite { friend: *friend, kind: ConferenceType::from_tox(*kind), cookie: cookie.clone() }),
            ToxEvent::ConferenceConnected { conference } => Some(Event::ConferenceConnected { conference: *conference }),
            ToxEvent::ConferenceMessage { conference, peer, kind, message } => Some(Event::ConferenceMessage { conference: *conference, peer: *peer, kind: MessageType::from_tox(*kind), message: message.clone() }),
            ToxEvent::ConferenceTitle { conference, peer, title } => Some(Event::ConferenceTitle { conference: *conference, peer: *peer, title: title.clone() }),
            ToxEvent::ConferencePeerName { conference, peer, name } => Some(Event::ConferencePeerName { conference: *conference, peer: *peer, name: name.clone() }),
            ToxEvent::ConferencePeerListChanged { conference } => Some(Event::ConferencePeerListChanged { conference: *conference }),
            ToxEvent::AvatarReceive { .. } => None,
            ToxEvent::LossyPacket { .. } => None,
            ToxEvent::LosslessPacket { .. } => None,
        }
    }
}

/// Drop safety: the translator yields nothing exactly on the internal-only
/// kinds, and never fails on them.
pub proof fn lemma_event_drop_safety(e: ToxEventV)
    ensures
        map_tox_event(e) is None <==> tox_event_internal_only(e),
{
}

} // verus!