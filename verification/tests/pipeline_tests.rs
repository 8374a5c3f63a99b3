use chat_hub::codec::{decode, encode};
use chat_hub::lobby::Lobby;
use chat_hub::pipeline::{
    receiver_step, sender_step, writer_run, writer_step, ChatAppend, Frame, ReceiverAction,
    SenderAction, ServerTaskTerminationReason, Session, SessionPhase,
};
use chat_hub::wire::{ClientWsMessage, ClientWsMessageType};

fn chat(member_id: i64, name: &str, text: &str) -> Vec<u8> {
    encode(&ClientWsMessage {
        member_id,
        member_name: name.to_string(),
        message_type: ClientWsMessageType::Message,
        message: text.to_string(),
    })
}

fn control(member_id: i64, name: &str, kind: ClientWsMessageType, text: &str) -> Vec<u8> {
    encode(&ClientWsMessage {
        member_id,
        member_name: name.to_string(),
        message_type: kind,
        message: text.to_string(),
    })
}

fn forwarded_text(a: &SenderAction) -> Option<&str> {
    match a {
        SenderAction::Forward(t) => Some(t),
        _ => None,
    }
}

#[test]
fn chat_goes_to_others_never_back_to_author() {
    let payload = chat(5, "bob", "yo");
    assert!(matches!(sender_step(5, &payload), SenderAction::Ignore));
    let to_other = sender_step(6, &payload);
    assert_eq!(forwarded_text(&to_other), Some("yo"));
}

#[test]
fn leave_notice_goes_to_others_only() {
    let payload = control(5, "bob", ClientWsMessageType::Leave, "bob left the room");
    assert!(matches!(sender_step(5, &payload), SenderAction::Ignore));
    assert_eq!(
        forwarded_text(&sender_step(6, &payload)),
        Some("bob left the room")
    );
}

#[test]
fn kick_reaches_only_its_target_and_closes_it() {
    let payload = control(5, "bob", ClientWsMessageType::Kick, "user is kicked");
    match sender_step(5, &payload) {
        SenderAction::ForwardAndClose(t) => assert_eq!(t, "user is kicked"),
        other => panic!("target's sender must forward and close, got {:?}", other),
    }
    assert!(matches!(sender_step(6, &payload), SenderAction::Ignore));
    assert!(matches!(sender_step(7, &payload), SenderAction::Ignore));
}

#[test]
fn undecodable_bus_payload_is_skipped_not_fatal() {
    assert!(matches!(sender_step(1, &[0xff, 1, 2]), SenderAction::Ignore));
    assert!(writer_step(&[0xff, 1, 2]).is_none());
}

#[test]
fn receiver_publishes_text_as_chat_message() {
    let action = receiver_step(5, &"bob".to_string(), Frame::Text("hi".to_string()));
    let payload = match action {
        ReceiverAction::Publish(p) => p,
        other => panic!("text frame must publish, got {:?}", other),
    };
    let m = decode(&payload).expect("published payload is a valid frame");
    assert_eq!(m.member_id, 5);
    assert_eq!(m.member_name, "bob");
    assert_eq!(m.message_type, ClientWsMessageType::Message);
    assert_eq!(m.message, "hi");
}

#[test]
fn receiver_stops_on_close_and_error_only() {
    let name = "bob".to_string();
    assert!(matches!(
        receiver_step(5, &name, Frame::Close),
        ReceiverAction::Stop(ServerTaskTerminationReason::ClientLeft)
    ));
    assert!(matches!(
        receiver_step(5, &name, Frame::Malformed),
        ReceiverAction::Stop(ServerTaskTerminationReason::ClientDisconnected)
    ));
    assert!(matches!(
        receiver_step(5, &name, Frame::Binary(vec![1, 2])),
        ReceiverAction::Ignore
    ));
    assert!(matches!(
        receiver_step(5, &name, Frame::Ping(vec![])),
        ReceiverAction::Ignore
    ));
    assert!(matches!(
        receiver_step(5, &name, Frame::Pong(vec![])),
        ReceiverAction::Ignore
    ));
}

#[test]
fn writer_stores_chat_and_skips_control() {
    let stored = writer_step(&chat(5, "bob", "yo")).expect("chat is stored");
    assert_eq!(stored.sender_id, 5);
    assert_eq!(stored.text, "yo");
    assert!(writer_step(&control(5, "bob", ClientWsMessageType::Leave, "x")).is_none());
    assert!(writer_step(&control(5, "bob", ClientWsMessageType::Kick, "x")).is_none());
}

#[test]
fn one_failed_append_does_not_stop_the_writer() {
    let payloads = vec![
        chat(1, "a", "first"),
        control(1, "a", ClientWsMessageType::Leave, "notice"),
        chat(2, "b", "second"),
        vec![0xff, 0xff], // garbage on the bus
        chat(3, "c", "third"),
    ];
    // three append attempts; the second fails
    let ok = vec![true, false, true];
    let stored: Vec<ChatAppend> = writer_run(&payloads, &ok);
    assert_eq!(stored.len(), 2);
    assert_eq!((stored[0].sender_id, stored[0].text.as_str()), (1, "first"));
    assert_eq!((stored[1].sender_id, stored[1].text.as_str()), (3, "third"));
}

#[test]
fn session_walks_its_phases() {
    let mut lobby = Lobby::new();
    let mut session = Session::new(7, "general".to_string(), 5, 50, "bob".to_string());
    assert_eq!(session.phase, SessionPhase::Attaching);
    let r = session.attach(&mut lobby);
    assert_eq!(session.phase, SessionPhase::Active);
    assert_eq!(session.bus, r.bus);
    assert!(r.created);
    session.on_task_finished(ServerTaskTerminationReason::ClientLeft);
    assert_eq!(session.phase, SessionPhase::Draining);
    let t = session.teardown(&mut lobby);
    assert_eq!(session.phase, SessionPhase::Detached);
    assert!(t.room_removed);
    assert_eq!(t.update_room_id, 7);
    assert_eq!(t.update_member_id, 5);
    let notice = decode(&t.notice).expect("departure notice is a valid frame");
    assert_eq!(notice.message_type, ClientWsMessageType::Leave);
    assert_eq!(notice.member_id, 5);
    assert_eq!(notice.message, "bob left the room");
}

#[test]
fn two_members_full_session() {
    let mut lobby = Lobby::new();
    let mut alice = Session::new(7, "general".to_string(), 1, 10, "alice".to_string());
    let mut bella = Session::new(7, "general".to_string(), 2, 20, "bella".to_string());
    let ra = alice.attach(&mut lobby);
    let rb = bella.attach(&mut lobby);
    assert!(ra.created && !rb.created);
    assert_eq!(ra.bus, rb.bus);

    // alice sends "hi"
    let payload = match receiver_step(1, &"alice".to_string(), Frame::Text("hi".to_string())) {
        ReceiverAction::Publish(p) => p,
        other => panic!("text frame must publish, got {:?}", other),
    };
    assert_eq!(forwarded_text(&sender_step(2, &payload)), Some("hi"));
    assert!(matches!(sender_step(1, &payload), SenderAction::Ignore));
    let row = writer_step(&payload).expect("chat line is stored");
    assert_eq!((row.sender_id, row.text.as_str()), (1, "hi"));

    // bella disconnects
    bella.on_task_finished(ServerTaskTerminationReason::ClientDisconnected);
    let tb = bella.teardown(&mut lobby);
    assert!(!tb.room_removed);
    assert_eq!(
        forwarded_text(&sender_step(1, &tb.notice)),
        Some("bella left the room")
    );
    let room = lobby.rooms.get(&7).expect("room still has alice");
    assert!(room.clients.contains(&1) && !room.clients.contains(&2));

    // alice disconnects; the room goes away
    alice.on_task_finished(ServerTaskTerminationReason::ClientDisconnected);
    let ta = alice.teardown(&mut lobby);
    assert!(ta.room_removed);
    assert!(!lobby.rooms.contains_key(&7));
}
