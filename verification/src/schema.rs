//! The wire schema: the closed set of `Request`, `Response` and `Event`
//! shapes, their envelope `ServerMessage`, the snapshot records they carry,
//! and the scoped error enums of the error taxonomy. Each type has a
//! mathematical mirror (its view) that the codec contracts speak about.

use vstd::prelude::*;

verus! {

/// Why a piece of wire text was refused.
#[derive(Clone, Copy, Debug, PartialEq, Eq, Structural)]
pub enum DecodeError {
    /// The text is not well-formed JSON.
    Syntax,
    /// A discriminator names no variant of this schema generation.
    UnknownVariant,
    /// A field the variant needs is absent.
    MissingField,
    /// A field is present but holds the wrong shape of value.
    MalformedField,
    /// A fixed-size binary field has the wrong length or an element out of range.
    MalformedFixedField,
    /// A variable-length binary field is not canonical base64.
    MalformedBinaryField,
}

#[derive(Clone, Copy, Debug, PartialEq, Eq, Structural)]
/// How the daemon reaches the network, for itself or for one friend.
/// The first kind's wire name is `None`.
pub enum ConnectionStatus {
    Disconnected,
    Tcp,
    Udp,
}

#[derive(Clone, Copy, Debug, PartialEq, Eq, Structural)]
/// A user's advertised presence. The first kind's wire name is `None`.
pub enum UserStatus {
    Available,
    Away,
    Busy,
}

#[derive(Clone, Copy, Debug, PartialEq, Eq, Structural)]
/// Whether a message is spoken plainly or performed as an action.
pub enum MessageType {
    Normal,
    Action,
}

#[derive(Clone, Copy, Debug, PartialEq, Eq, Structural)]
/// A command over a running file transfer.
pub enum FileControl {
    Resume,
    Pause,
    Cancel,
}

#[derive(Clone, Copy, Debug, PartialEq, Eq, Structural)]
/// What a file transfer carries.
pub enum FileKind {
    Data,
    Avatar,
}

#[derive(Clone, Copy, Debug, PartialEq, Eq, Structural)]
/// Whether a conference carries text alone or audio and video.
pub enum ConferenceType {
    Text,
    Av,
}

#[derive(Clone, Copy, Debug, PartialEq, Eq, Structural)]
/// Why adding a friend failed, as far as the wire tells it.
pub enum AddFriendError {
    TooLong,
    NoMessage,
    OwnKey,
    AlreadySent,
    BadChecksum,
    SetNewNospam,
}

#[derive(Clone, Copy, Debug, PartialEq, Eq, Structural)]
/// Why sending a friend message failed.
pub enum SendFriendMessageError {
    NotFound,
    NotConnected,
    TooLong,
    Empty,
}

#[derive(Clone, Copy, Debug, PartialEq, Eq, Structural)]
/// Why a file-control command failed.
pub enum FileControlError {
    FriendNotFound,
    FriendNotConnected,
    NotFound,
    NotPaused,
    Denied,
    AlreadyPaused,
    SendQ,
}

#[derive(Clone, Copy, Debug, PartialEq, Eq, Structural)]
/// Why seeking in a file transfer failed.
pub enum FileSeekError {
    FriendNotFound,
    FriendNotConnected,
    NotFound,
    Denied,
    InvalidPosition,
    SendQ,
}

#[derive(Clone, Copy, Debug, PartialEq, Eq, Structural)]
/// Why querying a file transfer failed.
pub enum FileGetError {
    FriendNotFound,
    NotFound,
}

#[derive(Clone, Copy, Debug, PartialEq, Eq, Structural)]
/// Why starting a file transfer failed.
pub enum FileSendError {
    FriendNotFound,
    FriendNotConnected,
    NameTooLong,
    TooMany,
}

#[derive(Clone, Copy, Debug, PartialEq, Eq, Structural)]
/// Why sending one file chunk failed.
pub enum FileSendChunkError {
    FriendNotFound,
    FriendNotConnected,
    NotFound,
    NotTransferring,
    InvalidLength,
    SendQ,
    WrongPosition,
}

#[derive(Clone, Copy, Debug, PartialEq, Eq, Structural)]
/// Why a conference invitation failed.
pub enum ConferenceInviteError {
    ConferenceNotFound,
    FailSend,
    NoConnection,
}

#[derive(Clone, Copy, Debug, PartialEq, Eq, Structural)]
/// Why joining a conference failed.
pub enum ConferenceJoinError {
    InvalidLength,
    WrongType,
    FriendNotFound,
    Duplicate,
    InitFail,
    FailSend,
}

#[derive(Clone, Copy, Debug, PartialEq, Eq, Structural)]
/// Why a conference peer query failed.
pub enum ConferencePeerQueryError {
    ConferenceNotFound,
    PeerNotFound,
    PeerQueryNoConnection,
}

#[derive(Clone, Copy, Debug, PartialEq, Eq, Structural)]
/// Why sending a conference message failed.
pub enum ConferenceSendError {
    ConferenceNotFound,
    TooLong,
    NoConnection,
    FailSend,
}

#[derive(Clone, Copy, Debug, PartialEq, Eq, Structural)]
/// Why reading or setting a conference title failed.
pub enum ConferenceTitleError {
    ConferenceNotFound,
    InvalidLength,
    FailSend,
}

#[derive(Clone, Debug, PartialEq)]
/// A snapshot of one friend, copied at response-construction time.
pub struct Friend {
    pub number: u32,
    pub public_key: String,
    pub name: String,
    pub status: UserStatus,
    pub status_message: String,
    pub last_online: u64,
}

/// The mathematical form of a friend snapshot.
pub struct FriendV {
    pub number: u32,
    pub public_key: Seq<char>,
    pub name: Seq<char>,
    pub status: UserStatus,
    pub status_message: Seq<char>,
    pub last_online: u64,
}

#[derive(Clone, Debug, PartialEq)]
/// A snapshot of one conference peer.
pub struct PeerInfo {
    pub number: u32,
    pub public_key: String,
    pub name: String,
}

/// The mathematical form of a peer snapshot.
pub struct PeerInfoV {
    pub number: u32,
    pub public_key: Seq<char>,
    pub name: Seq<char>,
}

#[derive(Clone, Debug, PartialEq)]
/// A snapshot of one conference and its roster.
pub struct ConferenceInfo {
    pub number: u32,
    pub kind: ConferenceType,
    pub title: String,
    pub peers: Vec<PeerInfo>,
}

/// The mathematical form of a conference snapshot.
pub struct ConferenceInfoV {
    pub number: u32,
    pub kind: ConferenceType,
    pub title: Seq<char>,
    pub peers: Seq<PeerInfoV>,
}

pub open spec fn peers_view(s: Seq<PeerInfo>) -> Seq<PeerInfoV> {
    Seq::new(s.len(), |i: int| s[i]@)
}

pub open spec fn friends_view(s: Seq<Friend>) -> Seq<FriendV> {
    Seq::new(s.len(), |i: int| s[i]@)
}

pub open spec fn conferences_view(s: Seq<ConferenceInfo>) -> Seq<ConferenceInfoV> {
    Seq::new(s.len(), |i: int| s[i]@)
}

impl View for Friend {
    type V = FriendV;

    open spec fn view(&self) -> FriendV {
        FriendV {
            number: self.number,
            public_key: self.public_key@,
            name: self.name@,
            status: self.status,
            status_message: self.status_message@,
            last_online: self.last_online,
        }
    }
}

impl View for PeerInfo {
    type V = PeerInfoV;

    open spec fn view(&self) -> PeerInfoV {
        PeerInfoV {
            number: self.number,
            public_key: self.public_key@,
            name: self.name@,
        }
    }
}

impl View for ConferenceInfo {
    type V = ConferenceInfoV;

    open spec fn view(&self) -> ConferenceInfoV {
        ConferenceInfoV {
            number: self.number,
            kind: self.kind,
            title: self.title@,
            peers: peers_view(self.peers@),
        }
    }
}

/// A client's command to the daemon, keyed by the `request` discriminator.
#[derive(Clone, Debug, PartialEq)]
pub enum Request {
    Info,
    AddFriend { tox_id: String, message: String },
    AddFriendNorequest { tox_id: String },
    SendFriendMessage { friend: u32, kind: MessageType, message: String },
    DeleteFriend { friend: u32 },
    GetConnectionStatus,
    GetAddress,
    GetNospam,
    SetNospam { nospam: String },
    GetPublicKey,
    SetName { name: String },
    GetName,
    SetStatusMessage { message: String },
    GetStatusMessage,
    SetStatus { status: UserStatus },
    GetStatus,
    FriendByPublicKey { public_key: String },
    FriendExists { friend: u32 },
    GetFriendPublicKey { friend: u32 },
    GetFriendLastOnline { friend: u32 },
    GetFriendName { friend: u32 },
    GetFriendStatusMessage { friend: u32 },
    GetFriendStatus { friend: u32 },
    GetFriendConnectionStatus { friend: u32 },
    ControlFile { friend: u32, file_number: u32, control: FileControl },
    SeekFile { friend: u32, file_number: u32, position: usize },
    GetFileId { friend: u32, file_number: u32 },
    SendFile { friend: u32, kind: FileKind, file_size: usize, file_name: String },
    SendFileChunk { friend: u32, file_number: u32, position: usize, data: Vec<u8> },
    NewConference,
    DeleteConference { conference: u32 },
    GetPeerList { conference: u32 },
    ConferencePeerCount { conference: u32 },
    GetPeerName { conference: u32, peer: u32 },
    GetPeerPublicKey { conference: u32, peer: u32 },
    IsOwnPeerNumber { conference: u32, peer_number: u32 },
    InviteToConference { friend: u32, conference: u32 },
    JoinConference { friend: u32, cookie: Vec<u8> },
    SendConferenceMessage { conference: u32, kind: MessageType, message: String },
    GetConferenceTitle { conference: u32 },
    SetConferenceTitle { conference: u32, title: String },
    GetConferenceList,
    GetConferenceType { conference: u32 },
}

/// The mathematical form of a request.
pub enum RequestV {
    Info,
    AddFriend { tox_id: Seq<char>, message: Seq<char> },
    AddFriendNorequest { tox_id: Seq<char> },
    SendFriendMessage { friend: u32, kind: MessageType, message: Seq<char> },
    DeleteFriend { friend: u32 },
    GetConnectionStatus,
    GetAddress,
    GetNospam,
    SetNospam { nospam: Seq<char> },
    GetPublicKey,
    SetName { name: Seq<char> },
    GetName,
    SetStatusMessage { message: Seq<char> },
    GetStatusMessage,
    SetStatus { status: UserStatus },
    GetStatus,
    FriendByPublicKey { public_key: Seq<char> },
    FriendExists { friend: u32 },
    GetFriendPublicKey { friend: u32 },
    GetFriendLastOnline { friend: u32 },
    GetFriendName { friend: u32 },
    GetFriendStatusMessage { friend: u32 },
    GetFriendStatus { friend: u32 },
    GetFriendConnectionStatus { friend: u32 },
    ControlFile { friend: u32, file_number: u32, control: FileControl },
    SeekFile { friend: u32, file_number: u32, position: usize },
    GetFileId { friend: u32, file_number: u32 },
    SendFile { friend: u32, kind: FileKind, file_size: usize, file_name: Seq<char> },
    SendFileChunk { friend: u32, file_number: u32, position: usize, data: Seq<u8> },
    NewConference,
    DeleteConference { conference: u32 },
    GetPeerList { conference: u32 },
    ConferencePeerCount { conference: u32 },
    GetPeerName { conference: u32, peer: u32 },
    GetPeerPublicKey { conference: u32, peer: u32 },
    IsOwnPeerNumber { conference: u32, peer_number: u32 },
    InviteToConference { friend: u32, conference: u32 },
    JoinConference { friend: u32, cookie: Seq<u8> },
    SendConferenceMessage { conference: u32, kind: MessageType, message: Seq<char> },
    GetConferenceTitle { conference: u32 },
    SetConferenceTitle { conference: u32, title: Seq<char> },
    GetConferenceList,
    GetConferenceType { conference: u32 },
}

impl View for Request {
    type V = RequestV;

    open spec fn view(&self) -> RequestV {
        match self {
            Request::Info => RequestV::Info,
            Request::AddFriend { tox_id, message } => RequestV::AddFriend { tox_id: tox_id@, message: message@ },
            Request::AddFriendNorequest { tox_id } => RequestV::AddFriendNorequest { tox_id: tox_id@ },
            Request::SendFriendMessage { friend, kind, message } => RequestV::SendFriendMessage { friend: *friend, kind: *kind, message: message@ },
            Request::DeleteFriend { friend } => RequestV::DeleteFriend { friend: *friend },
            Request::GetConnectionStatus => RequestV::GetConnectionStatus,
            Request::GetAddress => RequestV::GetAddress,
            Request::GetNospam => RequestV::GetNospam,
            Request::SetNospam { nospam } => RequestV::SetNospam { nospam: nospam@ },
            Request::GetPublicKey => RequestV::GetPublicKey,
            Request::SetName { name } => RequestV::SetName { name: name@ },
            Request::GetName => RequestV::GetName,
            Request::SetStatusMessage { message } => RequestV::SetStatusMessage { message: message@ },
            Request::GetStatusMessage => RequestV::GetStatusMessage,
            Request::SetStatus { status } => RequestV::SetStatus { status: *status },
            Request::GetStatus => RequestV::GetStatus,
            Request::FriendByPublicKey { public_key } => RequestV::FriendByPublicKey { public_key: public_key@ },
            Request::FriendExists { friend } => RequestV::FriendExists { friend: *friend },
            Request::GetFriendPublicKey { friend } => RequestV::GetFriendPublicKey { friend: *friend },
            Request::GetFriendLastOnline { friend } => RequestV::GetFriendLastOnline { friend: *friend },
            Request::GetFriendName { friend } => RequestV::GetFriendName { friend: *friend },
            Request::GetFriendStatusMessage { friend } => RequestV::GetFriendStatusMessage { friend: *friend },
            Request::GetFriendStatus { friend } => RequestV::GetFriendStatus { friend: *friend },
            Request::GetFriendConnectionStatus { friend } => RequestV::GetFriendConnectionStatus { friend: *friend },
            Request::ControlFile { friend, file_number, control } => RequestV::ControlFile { friend: *friend, file_number: *file_number, control: *control },
            Request::SeekFile { friend, file_number, position } => RequestV::SeekFile { friend: *friend, file_number: *file_number, position: *position },
            Request::GetFileId { friend, file_number } => RequestV::GetFileId { friend: *friend, file_number: *file_number },
            Request::SendFile { friend, kind, file_size, file_name } => RequestV::SendFile { friend: *friend, kind: *kind, file_size: *file_size, file_name: file_name@ },
            Request::SendFileChunk { friend, file_number, position, data } => RequestV::SendFileChunk { friend: *friend, file_number: *file_number, position: *position, data: data@ },
            Request::NewConference => RequestV::NewConference,
            Request::DeleteConference { conference } => RequestV::DeleteConference { conference: *conference },
            Request::GetPeerList { conference } => RequestV::GetPeerList { conference: *conference },
            Request::ConferencePeerCount { conference } => RequestV::ConferencePeerCount { conference: *conference },
            Request::GetPeerName { conference, peer } => RequestV::GetPeerName { conference: *conference, peer: *peer },
            Request::GetPeerPublicKey { conference, peer } => RequestV::GetPeerPublicKey { conference: *conference, peer: *peer },
            Request::IsOwnPeerNumber { conference, peer_number } => RequestV::IsOwnPeerNumber { conference: *conference, peer_number: *peer_number },
            Request::InviteToConference { friend, conference } => RequestV::InviteToConference { friend: *friend, conference: *conference },
            Request::JoinConference { friend, cookie } => RequestV::JoinConference { friend: *friend, cookie: cookie@ },
            Request::SendConferenceMessage { conference, kind, message } => RequestV::SendConferenceMessage { conference: *conference, kind: *kind, message: message@ },
            Request::GetConferenceTitle { conference } => RequestV::GetConferenceTitle { conference: *conference },
            Request::SetConferenceTitle { conference, title } => RequestV::SetConferenceTitle { conference: *conference, title: title@ },
            Request::GetConferenceList => RequestV::GetConferenceList,
            Request::GetConferenceType { conference } => RequestV::GetConferenceType { conference: *conference },
        }
    }
}

/// The gateway's reply to one request, keyed by the `response` discriminator.
#[derive(Clone, Debug, PartialEq)]
pub enum Response {
    /// The bare success reply; its wire name is `Ok`.
    Okay,
    MessageSent { message_id: u32 },
    Info { tox_id: String, name: String, status: UserStatus, status_message: String, friends: Vec<Friend> },
    ConnectionStatus { status: ConnectionStatus },
    Address { address: String },
    Nospam { nospam: String },
    PublicKey { public_key: String },
    Name { name: String },
    StatusMessage { status: String },
    Status { status: UserStatus },
    Friend { friend: u32 },
    FriendExists { exists: bool },
    LastOnline { last_online: u64 },
    FileId { id: String },
    FileNumber { file_number: u32 },
    FileControlError { error: FileControlError },
    FileSeekError { error: FileSeekError },
    FileGetError { error: FileGetError },
    FileSendError { error: FileSendError },
    FileSendChunkError { error: FileSendChunkError },
    Conference { conference: u32 },
    ConferencePeerList { peers: Vec<PeerInfo> },
    ConferencePeerCount { count: u32 },
    ConferencePeerName { name: String },
    ConferencePeerPublicKey { public_key: String },
    IsOwnPeerNumber { is_own: bool },
    ConferenceTitle { title: String },
    ConferenceList { conferences: Vec<ConferenceInfo> },
    ConferenceType { kind: ConferenceType },
    AddFriendError { error: AddFriendError },
    SendFriendMessageError { error: SendFriendMessageError },
    FriendNotFoundError,
    ConferenceInviteError { error: ConferenceInviteError },
    ConferenceJoinError { error: ConferenceJoinError },
    ConferencePeerQueryError { error: ConferencePeerQueryError },
    ConferenceSendError { error: ConferenceSendError },
    ConferenceTitleError { error: ConferenceTitleError },
}

/// The mathematical form of a response.
pub enum ResponseV {
    Okay,
    MessageSent { message_id: u32 },
    Info { tox_id: Seq<char>, name: Seq<char>, status: UserStatus, status_message: Seq<char>, friends: Seq<FriendV> },
    ConnectionStatus { status: ConnectionStatus },
    Address { address: Seq<char> },
    Nospam { nospam: Seq<char> },
    PublicKey { public_key: Seq<char> },
    Name { name: Seq<char> },
    StatusMessage { status: Seq<char> },
    Status { status: UserStatus },
    Friend { friend: u32 },
    FriendExists { exists: bool },
    LastOnline { last_online: u64 },
    FileId { id: Seq<char> },
    FileNumber { file_number: u32 },
    FileControlError { error: FileControlError },
    FileSeekError { error: FileSeekError },
    FileGetError { error: FileGetError },
    FileSendError { error: FileSendError },
    FileSendChunkError { error: FileSendChunkError },
    Conference { conference: u32 },
    ConferencePeerList { peers: Seq<PeerInfoV> },
    ConferencePeerCount { count: u32 },
    ConferencePeerName { name: Seq<char> },
    ConferencePeerPublicKey { public_key: Seq<char> },
    IsOwnPeerNumber { is_own: bool },
    ConferenceTitle { title: Seq<char> },
    ConferenceList { conferences: Seq<ConferenceInfoV> },
    ConferenceType { kind: ConferenceType },
    AddFriendError { error: AddFriendError },
    SendFriendMessageError { error: SendFriendMessageError },
    FriendNotFoundError,
    ConferenceInviteError { error: ConferenceInviteError },
    ConferenceJoinError { error: ConferenceJoinError },
    ConferencePeerQueryError { error: ConferencePeerQueryError },
    ConferenceSendError { error: ConferenceSendError },
    ConferenceTitleError { error: ConferenceTitleError },
}

impl View for Response {
    type V = ResponseV;

    open spec fn view(&self) -> ResponseV {
        match self {
            Response::Okay => ResponseV::Okay,
            Response::MessageSent { message_id } => ResponseV::MessageSent { message_id: *message_id },
            Response::Info { tox_id, name, status, status_message, friends } => ResponseV::Info { tox_id: tox_id@, name: name@, status: *status, status_message: status_message@, friends: friends_view(friends@) },
            Response::ConnectionStatus { status } => ResponseV::ConnectionStatus { status: *status },
            Response::Address { address } => ResponseV::Address { address: address@ },
            Response::Nospam { nospam } => ResponseV::Nospam { nospam: nospam@ },
            Response::PublicKey { public_key } => ResponseV::PublicKey { public_key: public_key@ },
            Response::Name { name } => ResponseV::Name { name: name@ },
            Response::StatusMessage { status } => ResponseV::StatusMessage { status: status@ },
            Response::Status { status } => ResponseV::Status { status: *status },
            Response::Friend { friend } => ResponseV::Friend { friend: *friend },
            Response::FriendExists { exists } => ResponseV::FriendExists { exists: *exists },
            Response::LastOnline { last_online } => ResponseV::LastOnline { last_online: *last_online },
            Response::FileId { id } => ResponseV::FileId { id: id@ },
            Response::FileNumber { file_number } => ResponseV::FileNumber { file_number: *file_number },
            Response::FileControlError { error } => ResponseV::FileControlError { error: *error },
            Response::FileSeekError { error } => ResponseV::FileSeekError { error: *error },
            Response::FileGetError { error } => ResponseV::FileGetError { error: *error },
            Response::FileSendError { error } => ResponseV::FileSendError { error: *error },
            Response::FileSendChunkError { error } => ResponseV::FileSendChunkError { error: *error },
            Response::Conference { conference } => ResponseV::Conference { conference: *conference },
            Response::ConferencePeerList { peers } => ResponseV::ConferencePeerList { peers: peers_view(peers@) },
            Response::ConferencePeerCount { count } => ResponseV::ConferencePeerCount { count: *count },
            Response::ConferencePeerName { name } => ResponseV::ConferencePeerName { name: name@ },
            Response::ConferencePeerPublicKey { public_key } => ResponseV::ConferencePeerPublicKey { public_key: public_key@ },
            Response::IsOwnPeerNumber { is_own } => ResponseV::IsOwnPeerNumber { is_own: *is_own },
            Response::ConferenceTitle { title } => ResponseV::ConferenceTitle { title: title@ },
            Response::ConferenceList { conferences } => ResponseV::ConferenceList { conferences: conferences_view(conferences@) },
            Response::ConferenceType { kind } => ResponseV::ConferenceType { kind: *kind },
            Response::AddFriendError { error } => ResponseV::AddFriendError { error: *error },
            Response::SendFriendMessageError { error } => ResponseV::SendFriendMessageError { error: *error },
            Response::FriendNotFoundError => ResponseV::FriendNotFoundError,
            Response::ConferenceInviteError { error } => ResponseV::ConferenceInviteError { error: *error },
            Response::ConferenceJoinError { error } => ResponseV::ConferenceJoinError { error: *error },
            Response::ConferencePeerQueryError { error } => ResponseV::ConferencePeerQueryError { error: *error },
            Response::ConferenceSendError { error } => ResponseV::ConferenceSendError { error: *error },
            Response::ConferenceTitleError { error } => ResponseV::ConferenceTitleError { error: *error },
        }
    }
}

/// An unsolicited daemon notification, keyed by the `event` discriminator.
#[derive(Clone, Debug, PartialEq)]
pub enum Event {
    SecretKey { secret_key: String },
    ConnectionStatus { status: ConnectionStatus },
    FriendRequest { public_key: [u8; 32], message: String },
    FriendMessage { friend: u32, kind: MessageType, message: String },
    FriendName { friend: u32, name: String },
    FriendStatusMessage { friend: u32, status: String },
    FriendStatus { friend: u32, status: UserStatus },
    FriendConnectionStatus { friend: u32, status: ConnectionStatus },
    FriendTyping { friend: u32, is_typing: bool },
    FriendReadReceipt { friend: u32, message_id: u32 },
    FileControlReceipt { friend: u32, file_number: u32, control: FileControl },
    FileChunkRequest { friend: u32, file_number: u32, position: usize, length: usize },
    FileReceipt { friend: u32, file_number: u32, kind: u32, file_size: usize, file_name: String },
    FileChunkReceipt { friend: u32, file_number: u32, position: usize, data: Vec<u8> },
    ConferenceInvite { friend: u32, kind: ConferenceType, cookie: Vec<u8> },
    ConferenceConnected { conference: u32 },
    ConferenceMessage { conference: u32, peer: u32, kind: MessageType, message: String },
    ConferenceTitle { conference: u32, peer: u32, title: String },
    ConferencePeerName { conference: u32, peer: u32, name: String },
    ConferencePeerListChanged { conference: u32 },
}

/// The mathematical form of an event.
pub enum EventV {
    SecretKey { secret_key: Seq<char> },
    ConnectionStatus { status: ConnectionStatus },
    FriendRequest { public_key: Seq<u8>, message: Seq<char> },
    FriendMessage { friend: u32, kind: MessageType, message: Seq<char> },
    FriendName { friend: u32, name: Seq<char> },
    FriendStatusMessage { friend: u32, status: Seq<char> },
    FriendStatus { friend: u32, status: UserStatus },
    FriendConnectionStatus { friend: u32, status: ConnectionStatus },
    FriendTyping { friend: u32, is_typing: bool },
    FriendReadReceipt { friend: u32, message_id: u32 },
    FileControlReceipt { friend: u32, file_number: u32, control: FileControl },
    FileChunkRequest { friend: u32, file_number: u32, position: usize, length: usize },
    FileReceipt { friend: u32, file_number: u32, kind: u32, file_size: usize, file_name: Seq<char> },
    FileChunkReceipt { friend: u32, file_number: u32, position: usize, data: Seq<u8> },
    ConferenceInvite { friend: u32, kind: ConferenceType, cookie: Seq<u8> },
    ConferenceConnected { conference: u32 },
    ConferenceMessage { conference: u32, peer: u32, kind: MessageType, message: Seq<char> },
    ConferenceTitle { conference: u32, peer: u32, title: Seq<char> },
    ConferencePeerName { conference: u32, peer: u32, name: Seq<char> },
    ConferencePeerListChanged { conference: u32 },
}

impl View for Event {
    type V = EventV;

    open spec fn view(&self) -> EventV {
        match self {
            Event::SecretKey { secret_key } => EventV::SecretKey { secret_key: secret_key@ },
            Event::ConnectionStatus { status } => EventV::ConnectionStatus { status: *status },
            Event::FriendRequest { public_key, message } => EventV::FriendRequest { public_key: public_key@, message: message@ },
            Event::FriendMessage { friend, kind, message } => EventV::FriendMessage { friend: *friend, kind: *kind, message: message@ },
            Event::FriendName { friend, name } => EventV::FriendName { friend: *friend, name: name@ },
            Event::FriendStatusMessage { friend, status } => EventV::FriendStatusMessage { friend: *friend, status: status@ },
            Event::FriendStatus { friend, status } => EventV::FriendStatus { friend: *friend, status: *status },
            Event::FriendConnectionStatus { friend, status } => EventV::FriendConnectionStatus { friend: *friend, status: *status },
            Event::FriendTyping { friend, is_typing } => EventV::FriendTyping { friend: *friend, is_typing: *is_typing },
            Event::FriendReadReceipt { friend, message_id } => EventV::FriendReadReceipt { friend: *friend, message_id: *message_id },
            Event::FileControlReceipt { friend, file_number, control } => EventV::FileControlReceipt { friend: *friend, file_number: *file_number, control: *control },
            Event::FileChunkRequest { friend, file_number, position, length } => EventV::FileChunkRequest { friend: *friend, file_number: *file_number, position: *position, length: *length },
            Event::FileReceipt { friend, file_number, kind, file_size, file_name } => EventV::FileReceipt { friend: *friend, file_number: *file_number, kind: *kind, file_size: *file_size, file_name: file_name@ },
            Event::FileChunkReceipt { friend, file_number, position, data } => EventV::FileChunkReceipt { friend: *friend, file_number: *file_number, position: *position, data: data@ },
            Event::ConferenceInvite { friend, kind, cookie } => EventV::ConferenceInvite { friend: *friend, kind: *kind, cookie: cookie@ },
            Event::ConferenceConnected { conference } => EventV::ConferenceConnected { conference: *conference },
            Event::ConferenceMessage { conference, peer, kind, message } => EventV::ConferenceMessage { conference: *conference, peer: *peer, kind: *kind, message: message@ },
            Event::ConferenceTitle { conference, peer, title } => EventV::ConferenceTitle { conference: *conference, peer: *peer, title: title@ },
            Event::ConferencePeerName { conference, peer, name } => EventV::ConferencePeerName { conference: *conference, peer: *peer, name: name@ },
            Event::ConferencePeerListChanged { conference } => EventV::ConferencePeerListChanged { conference: *conference },
        }
    }
}

/// The top-level envelope: every message the gateway sends is exactly one
/// of these two shapes.
#[derive(Clone, Debug, PartialEq)]
pub enum ServerMessage {
    Response(Response),
    Event(Event),
}

pub enum ServerMessageV {
    Response(ResponseV),
    Event(EventV),
}

impl View for ServerMessage {
    type V = ServerMessageV;

    open spec fn view(&self) -> ServerMessageV {
        match self {
            ServerMessage::Response(r) => ServerMessageV::Response(r@),
            ServerMessage::Event(e) => ServerMessageV::Event(e@),
        }
    }
}

} // verus!
