//! The translation layer against the daemon's internal surface: the
//! Inbound Translator's drop policy and the error taxonomy's two named
//! outcomes.

use tox_wire::schema::{
    AddFriendError, ConnectionStatus, Event, FileControl, MessageType, Response,
    SendFriendMessageError,
};
use tox_wire::tox::{
    Mapping, ToxConnection, ToxEvent, ToxFileControl, ToxFriendAddError,
    ToxFriendSendMessageError, ToxMessageType, ToxUserStatus,
};

#[test]
fn mapped_events_translate_field_for_field() {
    let got = Event::from_tox_event(&ToxEvent::FriendMessage {
        friend: 5,
        kind: ToxMessageType::Action,
        message: "waves".to_string(),
    });
    assert_eq!(
        got,
        Some(Event::FriendMessage {
            friend: 5,
            kind: MessageType::Action,
            message: "waves".to_string(),
        })
    );

    let got = Event::from_tox_event(&ToxEvent::ConnectionStatus {
        status: ToxConnection::Tcp,
    });
    assert_eq!(got, Some(Event::ConnectionStatus { status: ConnectionStatus::Tcp }));

    let got = Event::from_tox_event(&ToxEvent::FileControlReceive {
        friend: 1,
        file_number: 2,
        control: ToxFileControl::Cancel,
    });
    assert_eq!(
        got,
        Some(Event::FileControlReceipt { friend: 1, file_number: 2, control: FileControl::Cancel })
    );
}

#[test]
fn unknown_event_kinds_are_dropped() {
    // An avatar arriving is not part of this schema generation: no output,
    // no fault.
    let got = Event::from_tox_event(&ToxEvent::AvatarReceive { friend: 3, data: vec![1, 2, 3] });
    assert_eq!(got, None);

    let got = Event::from_tox_event(&ToxEvent::FriendStatus {
        friend: 3,
        status: ToxUserStatus::Away,
    });
    assert_eq!(got, None);

    let got = Event::from_tox_event(&ToxEvent::LossyPacket { friend: 0, data: vec![0xFF] });
    assert_eq!(got, None);
}

#[test]
fn friend_add_errors_map_by_name_or_not_at_all() {
    assert_eq!(
        AddFriendError::from_tox(ToxFriendAddError::TooLong),
        Mapping::Mapped(AddFriendError::TooLong)
    );
    assert_eq!(
        AddFriendError::from_tox(ToxFriendAddError::BadChecksum),
        Mapping::Mapped(AddFriendError::BadChecksum)
    );
    // Internal faults have no wire name and must not borrow one.
    assert_eq!(AddFriendError::from_tox(ToxFriendAddError::Malloc), Mapping::Unmapped);
    assert_eq!(AddFriendError::from_tox(ToxFriendAddError::Null), Mapping::Unmapped);
}

#[test]
fn recipient_not_connected_stays_in_its_error_family() {
    let translated = SendFriendMessageError::from_tox(ToxFriendSendMessageError::NotConnected);
    assert_eq!(translated, Mapping::Mapped(SendFriendMessageError::NotConnected));
    let response = match translated {
        Mapping::Mapped(error) => Response::SendFriendMessageError { error },
        Mapping::Unmapped => panic!("a named wire kind must map"),
    };
    assert_eq!(
        response.to_wire(),
        "{\"response\":\"SendFriendMessageError\",\"error\":\"NotConnected\"}"
    );

    // The internal-only kinds of the same operation stay unmapped.
    assert_eq!(
        SendFriendMessageError::from_tox(ToxFriendSendMessageError::SendQ),
        Mapping::Unmapped
    );
}
