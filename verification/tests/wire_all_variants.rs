//! One round trip for every variant of every message family, with plain
//! filler values: a regression net over the whole schema.

use tox_wire::schema::{
    AddFriendError, ConferenceInfo, ConferenceInviteError, ConferenceJoinError,
    ConferencePeerQueryError, ConferenceSendError, ConferenceTitleError, ConferenceType,
    ConnectionStatus, Event, FileControl, FileControlError, FileGetError, FileKind,
    FileSeekError, FileSendChunkError, FileSendError, Friend, MessageType, PeerInfo, Request,
    Response, SendFriendMessageError, UserStatus,
};

#[test]
fn every_request_variant_round_trips() {
    let values: Vec<Request> = vec![
        Request::Info,
        Request::AddFriend { tox_id: "s1".to_string(), message: "s2".to_string() },
        Request::AddFriendNorequest { tox_id: "s2".to_string() },
        Request::SendFriendMessage { friend: 13, kind: MessageType::Normal, message: "s5".to_string() },
        Request::DeleteFriend { friend: 14 },
        Request::GetConnectionStatus,
        Request::GetAddress,
        Request::GetNospam,
        Request::SetNospam { nospam: "s8".to_string() },
        Request::GetPublicKey,
        Request::SetName { name: "s10".to_string() },
        Request::GetName,
        Request::SetStatusMessage { message: "s12".to_string() },
        Request::GetStatusMessage,
        Request::SetStatus { status: UserStatus::Available },
        Request::GetStatus,
        Request::FriendByPublicKey { public_key: "s16".to_string() },
        Request::FriendExists { friend: 27 },
        Request::GetFriendPublicKey { friend: 28 },
        Request::GetFriendLastOnline { friend: 29 },
        Request::GetFriendName { friend: 30 },
        Request::GetFriendStatusMessage { friend: 31 },
        Request::GetFriendStatus { friend: 32 },
        Request::GetFriendConnectionStatus { friend: 33 },
        Request::ControlFile { friend: 34, file_number: 35, control: FileControl::Resume },
        Request::SeekFile { friend: 35, file_number: 36, position: 47 },
        Request::GetFileId { friend: 36, file_number: 37 },
        Request::SendFile { friend: 37, kind: FileKind::Data, file_size: 49, file_name: "s30".to_string() },
        Request::SendFileChunk { friend: 38, file_number: 39, position: 50, data: vec![31, 0, 255] },
        Request::NewConference,
        Request::DeleteConference { conference: 40 },
        Request::GetPeerList { conference: 41 },
        Request::ConferencePeerCount { conference: 42 },
        Request::GetPeerName { conference: 43, peer: 44 },
        Request::GetPeerPublicKey { conference: 44, peer: 45 },
        Request::IsOwnPeerNumber { conference: 45, peer_number: 46 },
        Request::InviteToConference { friend: 46, conference: 47 },
        Request::JoinConference { friend: 47, cookie: vec![38, 0, 255] },
        Request::SendConferenceMessage { conference: 48, kind: MessageType::Normal, message: "s40".to_string() },
        Request::GetConferenceTitle { conference: 49 },
        Request::SetConferenceTitle { conference: 50, title: "s41".to_string() },
        Request::GetConferenceList,
        Request::GetConferenceType { conference: 52 },
    ];
    for x in values {
        let text = x.to_wire();
        let back = Request::from_wire(text.as_str()).expect("every variant must survive the wire");
        assert_eq!(x, back);
    }
}

#[test]
fn every_response_variant_round_trips() {
    let values: Vec<Response> = vec![
        Response::Okay,
        Response::MessageSent { message_id: 11 },
        Response::Info { tox_id: "s2".to_string(), name: "s3".to_string(), status: UserStatus::Available, status_message: "s5".to_string(), friends: vec![Friend { number: 1, public_key: "K".to_string(), name: "n".to_string(), status: UserStatus::Away, status_message: "m".to_string(), last_online: 5 }] },
        Response::ConnectionStatus { status: ConnectionStatus::Disconnected },
        Response::Address { address: "s4".to_string() },
        Response::Nospam { nospam: "s5".to_string() },
        Response::PublicKey { public_key: "s6".to_string() },
        Response::Name { name: "s7".to_string() },
        Response::StatusMessage { status: "s8".to_string() },
        Response::Status { status: UserStatus::Available },
        Response::Friend { friend: 20 },
        Response::FriendExists { exists: false },
        Response::LastOnline { last_online: 1012 },
        Response::FileId { id: "s13".to_string() },
        Response::FileNumber { file_number: 24 },
        Response::FileControlError { error: FileControlError::FriendNotFound },
        Response::FileSeekError { error: FileSeekError::FriendNotFound },
        Response::FileGetError { error: FileGetError::FriendNotFound },
        Response::FileSendError { error: FileSendError::FriendNotFound },
        Response::FileSendChunkError { error: FileSendChunkError::FriendNotFound },
        Response::Conference { conference: 30 },
        Response::ConferencePeerList { peers: vec![PeerInfo { number: 2, public_key: "P".to_string(), name: "p".to_string() }] },
        Response::ConferencePeerCount { count: 32 },
        Response::ConferencePeerName { name: "s23".to_string() },
        Response::ConferencePeerPublicKey { public_key: "s24".to_string() },
        Response::IsOwnPeerNumber { is_own: false },
        Response::ConferenceTitle { title: "s26".to_string() },
        Response::ConferenceList { conferences: vec![ConferenceInfo { number: 3, kind: ConferenceType::Text, title: "t".to_string(), peers: vec![] }] },
        Response::ConferenceType { kind: ConferenceType::Text },
        Response::AddFriendError { error: AddFriendError::TooLong },
        Response::SendFriendMessageError { error: SendFriendMessageError::NotFound },
        Response::FriendNotFoundError,
        Response::ConferenceInviteError { error: ConferenceInviteError::ConferenceNotFound },
        Response::ConferenceJoinError { error: ConferenceJoinError::InvalidLength },
        Response::ConferencePeerQueryError { error: ConferencePeerQueryError::ConferenceNotFound },
        Response::ConferenceSendError { error: ConferenceSendError::ConferenceNotFound },
        Response::ConferenceTitleError { error: ConferenceTitleError::ConferenceNotFound },
    ];
    for x in values {
        let text = x.to_wire();
        let back = Response::from_wire(text.as_str()).expect("every variant must survive the wire");
        assert_eq!(x, back);
    }
}

#[test]
fn every_event_variant_round_trips() {
    let values: Vec<Event> = vec![
        Event::SecretKey { secret_key: "s0".to_string() },
        Event::ConnectionStatus { status: ConnectionStatus::Disconnected },
        Event::FriendRequest { public_key: [2u8; 32], message: "s3".to_string() },
        Event::FriendMessage { friend: 13, kind: MessageType::Normal, message: "s5".to_string() },
        Event::FriendName { friend: 14, name: "s5".to_string() },
        Event::FriendStatusMessage { friend: 15, status: "s6".to_string() },
        Event::FriendStatus { friend: 16, status: UserStatus::Available },
        Event::FriendConnectionStatus { friend: 17, status: ConnectionStatus::Disconnected },
        Event::FriendTyping { friend: 18, is_typing: false },
        Event::FriendReadReceipt { friend: 19, message_id: 20 },
        Event::FileControlReceipt { friend: 20, file_number: 21, control: FileControl::Resume },
        Event::FileChunkRequest { friend: 21, file_number: 22, position: 33, length: 34 },
        Event::FileReceipt { friend: 22, file_number: 23, kind: 24, file_size: 35, file_name: "s16".to_string() },
        Event::FileChunkReceipt { friend: 23, file_number: 24, position: 35, data: vec![16, 0, 255] },
        Event::ConferenceInvite { friend: 24, kind: ConferenceType::Text, cookie: vec![16, 0, 255] },
        Event::ConferenceConnected { conference: 25 },
        Event::ConferenceMessage { conference: 26, peer: 27, kind: MessageType::Normal, message: "s19".to_string() },
        Event::ConferenceTitle { conference: 27, peer: 28, title: "s19".to_string() },
        Event::ConferencePeerName { conference: 28, peer: 29, name: "s20".to_string() },
        Event::ConferencePeerListChanged { conference: 29 },
    ];
    for x in values {
        let text = x.to_wire();
        let back = Event::from_wire(text.as_str()).expect("every variant must survive the wire");
        assert_eq!(x, back);
    }
}

#[test]
fn every_status_name_survives_the_wire() {
    for s in [UserStatus::Available, UserStatus::Away, UserStatus::Busy] {
        let r = Response::Status { status: s };
        assert_eq!(Response::from_wire(r.to_wire().as_str()), Ok(r));
    }
    for c in [ConnectionStatus::Disconnected, ConnectionStatus::Tcp, ConnectionStatus::Udp] {
        let r = Response::ConnectionStatus { status: c };
        assert_eq!(Response::from_wire(r.to_wire().as_str()), Ok(r));
    }
    // The kinds whose wire name is `None` keep that name on the wire.
    let r = Response::Status { status: UserStatus::Available };
    assert_eq!(r.to_wire(), "{\"response\":\"Status\",\"status\":\"None\"}");
    let r = Response::ConnectionStatus { status: ConnectionStatus::Disconnected };
    assert_eq!(r.to_wire(), "{\"response\":\"ConnectionStatus\",\"status\":\"None\"}");
}

#[test]
fn every_scoped_error_kind_survives_the_wire() {
    for e in [AddFriendError::TooLong, AddFriendError::NoMessage, AddFriendError::OwnKey, AddFriendError::AlreadySent, AddFriendError::BadChecksum, AddFriendError::SetNewNospam] {
        let r = Response::AddFriendError { error: e };
        assert_eq!(Response::from_wire(r.to_wire().as_str()), Ok(r));
    }
    for e in [SendFriendMessageError::NotFound, SendFriendMessageError::NotConnected, SendFriendMessageError::TooLong, SendFriendMessageError::Empty] {
        let r = Response::SendFriendMessageError { error: e };
        assert_eq!(Response::from_wire(r.to_wire().as_str()), Ok(r));
    }
    for e in [FileControlError::FriendNotFound, FileControlError::FriendNotConnected, FileControlError::NotFound, FileControlError::NotPaused, FileControlError::Denied, FileControlError::AlreadyPaused, FileControlError::SendQ] {
        let r = Response::FileControlError { error: e };
        assert_eq!(Response::from_wire(r.to_wire().as_str()), Ok(r));
    }
    for e in [FileSeekError::FriendNotFound, FileSeekError::FriendNotConnected, FileSeekError::NotFound, FileSeekError::Denied, FileSeekError::InvalidPosition, FileSeekError::SendQ] {
        let r = Response::FileSeekError { error: e };
        assert_eq!(Response::from_wire(r.to_wire().as_str()), Ok(r));
    }
    for e in [FileGetError::FriendNotFound, FileGetError::NotFound] {
        let r = Response::FileGetError { error: e };
        assert_eq!(Response::from_wire(r.to_wire().as_str()), Ok(r));
    }
    for e in [FileSendError::FriendNotFound, FileSendError::FriendNotConnected, FileSendError::NameTooLong, FileSendError::TooMany] {
        let r = Response::FileSendError { error: e };
        assert_eq!(Response::from_wire(r.to_wire().as_str()), Ok(r));
    }
    for e in [FileSendChunkError::FriendNotFound, FileSendChunkError::FriendNotConnected, FileSendChunkError::NotFound, FileSendChunkError::NotTransferring, FileSendChunkError::InvalidLength, FileSendChunkError::SendQ, FileSendChunkError::WrongPosition] {
        let r = Response::FileSendChunkError { error: e };
        assert_eq!(Response::from_wire(r.to_wire().as_str()), Ok(r));
    }
    for e in [ConferenceInviteError::ConferenceNotFound, ConferenceInviteError::FailSend, ConferenceInviteError::NoConnection] {
        let r = Response::ConferenceInviteError { error: e };
        assert_eq!(Response::from_wire(r.to_wire().as_str()), Ok(r));
    }
    for e in [ConferenceJoinError::InvalidLength, ConferenceJoinError::WrongType, ConferenceJoinError::FriendNotFound, ConferenceJoinError::Duplicate, ConferenceJoinError::InitFail, ConferenceJoinError::FailSend] {
        let r = Response::ConferenceJoinError { error: e };
        assert_eq!(Response::from_wire(r.to_wire().as_str()), Ok(r));
    }
    for e in [ConferencePeerQueryError::ConferenceNotFound, ConferencePeerQueryError::PeerNotFound, ConferencePeerQueryError::PeerQueryNoConnection] {
        let r = Response::ConferencePeerQueryError { error: e };
        assert_eq!(Response::from_wire(r.to_wire().as_str()), Ok(r));
    }
    for e in [ConferenceSendError::ConferenceNotFound, ConferenceSendError::TooLong, ConferenceSendError::NoConnection, ConferenceSendError::FailSend] {
        let r = Response::ConferenceSendError { error: e };
        assert_eq!(Response::from_wire(r.to_wire().as_str()), Ok(r));
    }
    for e in [ConferenceTitleError::ConferenceNotFound, ConferenceTitleError::InvalidLength, ConferenceTitleError::FailSend] {
        let r = Response::ConferenceTitleError { error: e };
        assert_eq!(Response::from_wire(r.to_wire().as_str()), Ok(r));
    }
}