//! Decode-side behaviour on concrete texts: the documented scenario for
//! adding a friend, tolerance for unknown members, order and whitespace,
//! and each decode error on an input that earns it.

use tox_wire::schema::{DecodeError, Event, Request, Response};

const TOX_ID: &str = "56A1ADE4B65B86BCD51CC73E2CD4E542179F47959FE3E0E21B4B0ACDADE51855D34D34D37CB5";

#[test]
fn add_friend_request_scenario() {
    let text = format!("{{\"request\":\"AddFriend\",\"tox_id\":\"{}\",\"message\":\"hi\"}}", TOX_ID);
    let q = Request::from_wire(text.as_str()).expect("a documented request must parse");
    assert_eq!(
        q,
        Request::AddFriend { tox_id: TOX_ID.to_string(), message: "hi".to_string() }
    );

    // A daemon reporting success answers with the bare success response.
    assert_eq!(Response::Okay.to_wire(), "{\"response\":\"Ok\"}");

    // A daemon reporting a too-long message answers with the scoped error.
    let r = Response::AddFriendError { error: tox_wire::schema::AddFriendError::TooLong };
    assert_eq!(r.to_wire(), "{\"response\":\"AddFriendError\",\"error\":\"TooLong\"}");

    // An unparseable body is a decode fault, never a response.
    assert_eq!(Request::from_wire("{\"request\":\"AddFriend\","), Err(DecodeError::Syntax));
}

#[test]
fn unknown_members_are_ignored() {
    let q = Request::from_wire(
        "{\"request\":\"DeleteFriend\",\"friend\":3,\"note\":\"kept for later\",\"v\":2}",
    );
    assert_eq!(q, Ok(Request::DeleteFriend { friend: 3 }));
}

#[test]
fn member_order_and_whitespace_do_not_matter() {
    let q = Request::from_wire(
        " { \"message\" : \"hi\" ,\n\t\"request\" : \"SendFriendMessage\" , \"kind\" : \"Normal\" , \"friend\" : 12 } ",
    );
    assert_eq!(
        q,
        Ok(Request::SendFriendMessage {
            friend: 12,
            kind: tox_wire::schema::MessageType::Normal,
            message: "hi".to_string(),
        })
    );
}

#[test]
fn unknown_discriminator_fails_closed() {
    assert_eq!(
        Request::from_wire("{\"request\":\"SelfDestruct\"}"),
        Err(DecodeError::UnknownVariant)
    );
    assert_eq!(
        Response::from_wire("{\"response\":\"Shrug\"}"),
        Err(DecodeError::UnknownVariant)
    );
    // An unknown inner enum name fails the same way.
    assert_eq!(
        Request::from_wire("{\"request\":\"SetStatus\",\"status\":\"Elsewhere\"}"),
        Err(DecodeError::UnknownVariant)
    );
}

#[test]
fn missing_and_malformed_fields() {
    assert_eq!(
        Request::from_wire("{\"request\":\"DeleteFriend\"}"),
        Err(DecodeError::MissingField)
    );
    assert_eq!(
        Request::from_wire("{\"request\":\"DeleteFriend\",\"friend\":\"three\"}"),
        Err(DecodeError::MalformedField)
    );
    // A friend number beyond 32 bits does not fit its field.
    assert_eq!(
        Request::from_wire("{\"request\":\"DeleteFriend\",\"friend\":4294967296}"),
        Err(DecodeError::MalformedField)
    );
}

#[test]
fn malformed_binary_field() {
    assert_eq!(
        Request::from_wire(
            "{\"request\":\"JoinConference\",\"friend\":0,\"cookie\":\"not base64!\"}"
        ),
        Err(DecodeError::MalformedBinaryField)
    );
    // Non-canonical base64 is refused too: same bytes, wrong trailing bits.
    assert_eq!(
        Request::from_wire("{\"request\":\"JoinConference\",\"friend\":0,\"cookie\":\"QR==\"}"),
        Err(DecodeError::MalformedBinaryField)
    );
    let ok = Request::from_wire(
        "{\"request\":\"JoinConference\",\"friend\":0,\"cookie\":\"QQ==\"}",
    );
    assert_eq!(ok, Ok(Request::JoinConference { friend: 0, cookie: vec![0x41] }));
}

#[test]
fn malformed_fixed_field() {
    // A public key must be exactly 32 bytes of numbers.
    let text = format!(
        "{{\"event\":\"FriendRequest\",\"public_key\":{:?},\"message\":\"hello\"}}",
        vec![1u8; 31]
    );
    assert_eq!(Event::from_wire(text.as_str()), Err(DecodeError::MalformedFixedField));
    let text = format!(
        "{{\"event\":\"FriendRequest\",\"public_key\":[{},256],\"message\":\"hello\"}}",
        vec!["1"; 31].join(",")
    );
    assert_eq!(Event::from_wire(text.as_str()), Err(DecodeError::MalformedFixedField));
}

#[test]
fn string_escapes_decode() {
    let q = Request::from_wire(
        "{\"request\":\"SetName\",\"name\":\"a\\u0041 \\n \\\" \\\\ \\ud83d\\ude00\"}",
    );
    assert_eq!(
        q,
        Ok(Request::SetName { name: "aA \n \" \\ \u{1F600}".to_string() })
    );
}

#[test]
fn hostile_nesting_is_refused() {
    let mut text = String::new();
    for _k in 0..300 {
        text.push('[');
    }
    text.push_str("{\"request\":\"Info\"}");
    for _k in 0..300 {
        text.push(']');
    }
    assert_eq!(Request::from_wire(text.as_str()), Err(DecodeError::Syntax));
}

#[test]
fn numbers_at_the_edges() {
    let r = Response::from_wire(
        "{\"response\":\"LastOnline\",\"last_online\":18446744073709551615}",
    );
    assert_eq!(r, Ok(Response::LastOnline { last_online: u64::MAX }));
    let r = Response::from_wire(
        "{\"response\":\"LastOnline\",\"last_online\":18446744073709551616}",
    );
    assert_eq!(r, Err(DecodeError::Syntax));
}
