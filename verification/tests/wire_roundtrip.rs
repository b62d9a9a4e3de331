//! Round trips and concrete wire texts for the request, response, event
//! and envelope codecs.

use tox_wire::schema::{
    ConferenceInfo, ConferenceType, ConnectionStatus, Event, FileControl, Friend, MessageType,
    PeerInfo, Request, Response, ServerMessage, UserStatus,
};

fn request_round_trip(q: Request) {
    let text = q.to_wire();
    let back = Request::from_wire(text.as_str()).expect("round trip must decode");
    assert_eq!(q, back);
}

fn response_round_trip(r: Response) {
    let text = r.to_wire();
    let back = Response::from_wire(text.as_str()).expect("round trip must decode");
    assert_eq!(r, back);
}

fn event_round_trip(e: Event) {
    let text = e.to_wire();
    let back = Event::from_wire(text.as_str()).expect("round trip must decode");
    assert_eq!(e, back);
}

#[test]
fn request_round_trips() {
    request_round_trip(Request::Info);
    request_round_trip(Request::AddFriend {
        tox_id: "56A1ADE4B65B86BCD51CC73E2CD4E542179F47959FE3E0E21B4B0ACDADE51855D34D34D37CB5"
            .to_string(),
        message: "hi".to_string(),
    });
    request_round_trip(Request::SendFriendMessage {
        friend: 7,
        kind: MessageType::Action,
        message: "does a dance".to_string(),
    });
    request_round_trip(Request::SeekFile { friend: 1, file_number: 2, position: 9000 });
    request_round_trip(Request::SendFile {
        friend: 3,
        kind: tox_wire::schema::FileKind::Avatar,
        file_size: 1024,
        file_name: "me.png".to_string(),
    });
    request_round_trip(Request::SendFileChunk {
        friend: 1,
        file_number: 2,
        position: 3,
        data: vec![0, 1, 2, 254, 255],
    });
    request_round_trip(Request::JoinConference { friend: 4, cookie: vec![9, 8, 7] });
    request_round_trip(Request::SetStatus { status: UserStatus::Busy });
    request_round_trip(Request::GetConferenceList);
}

#[test]
fn response_round_trips() {
    response_round_trip(Response::Okay);
    response_round_trip(Response::MessageSent { message_id: 41 });
    response_round_trip(Response::Info {
        tox_id: "ABCDEF".to_string(),
        name: "kit".to_string(),
        status: UserStatus::Available,
        status_message: "around".to_string(),
        friends: vec![
            Friend {
                number: 0,
                public_key: "AA".repeat(32),
                name: "ada".to_string(),
                status: UserStatus::Away,
                status_message: "tea break".to_string(),
                last_online: 1700000000,
            },
            Friend {
                number: 9,
                public_key: "BB".repeat(32),
                name: "bob".to_string(),
                status: UserStatus::Busy,
                status_message: String::new(),
                last_online: 0,
            },
        ],
    });
    response_round_trip(Response::LastOnline { last_online: u64::MAX });
    response_round_trip(Response::FriendExists { exists: false });
    response_round_trip(Response::ConferencePeerList {
        peers: vec![PeerInfo {
            number: 2,
            public_key: "CC".repeat(32),
            name: "carol".to_string(),
        }],
    });
    response_round_trip(Response::ConferenceList {
        conferences: vec![ConferenceInfo {
            number: 1,
            kind: ConferenceType::Av,
            title: "plans".to_string(),
            peers: vec![PeerInfo {
                number: 0,
                public_key: "DD".repeat(32),
                name: "dan".to_string(),
            }],
        }],
    });
    response_round_trip(Response::FileControlError {
        error: tox_wire::schema::FileControlError::AlreadyPaused,
    });
    response_round_trip(Response::FriendNotFoundError);
}

#[test]
fn event_round_trips() {
    event_round_trip(Event::ConnectionStatus { status: ConnectionStatus::Udp });
    event_round_trip(Event::FriendRequest {
        public_key: [7u8; 32],
        message: "let me in".to_string(),
    });
    event_round_trip(Event::FriendTyping { friend: 3, is_typing: true });
    event_round_trip(Event::FileControlReceipt {
        friend: 1,
        file_number: 5,
        control: FileControl::Pause,
    });
    event_round_trip(Event::FileReceipt {
        friend: 1,
        file_number: 5,
        kind: 1,
        file_size: 77,
        file_name: "avatar.png".to_string(),
    });
    event_round_trip(Event::FileChunkReceipt {
        friend: 1,
        file_number: 5,
        position: 1024,
        data: vec![42; 100],
    });
    event_round_trip(Event::ConferenceInvite {
        friend: 0,
        kind: ConferenceType::Text,
        cookie: vec![1, 2, 3, 4, 5],
    });
}

#[test]
fn server_message_round_trips() {
    let m = ServerMessage::Response(Response::Okay);
    let text = m.to_wire();
    assert_eq!(text, "{\"Response\":{\"response\":\"Ok\"}}");
    assert_eq!(ServerMessage::from_wire(text.as_str()), Ok(m));

    let m = ServerMessage::Event(Event::FriendName { friend: 2, name: "new name".to_string() });
    let text = m.to_wire();
    let back = ServerMessage::from_wire(text.as_str()).expect("envelope must decode");
    assert_eq!(ServerMessage::Event(Event::FriendName { friend: 2, name: "new name".to_string() }), back);
}

#[test]
fn non_ascii_and_escapes_round_trip() {
    event_round_trip(Event::FriendMessage {
        friend: 0,
        kind: MessageType::Normal,
        message: "na\u{ef}ve \"quotes\" \\ back\nnew \u{1F600} tab\t".to_string(),
    });
    request_round_trip(Request::SetName { name: "\u{0001}\u{001f} control".to_string() });
}

#[test]
fn binary_fidelity_zero_one_and_64k() {
    for data in [Vec::new(), vec![0xABu8], (0..=255u8).cycle().take(65535).collect::<Vec<u8>>()] {
        let q = Request::SendFileChunk { friend: 0, file_number: 0, position: 0, data: data.clone() };
        let text = q.to_wire();
        match Request::from_wire(text.as_str()) {
            Ok(Request::SendFileChunk { data: back, .. }) => assert_eq!(data, back),
            other => panic!("chunk did not survive the wire: {:?}", other),
        }
    }
}
