use chat_rooms::dispatch::Event;
use chat_rooms::dispatch::Reply;
use chat_rooms::dispatch::IS_TYPING;
use chat_rooms::dispatch::JOIN;
use chat_rooms::dispatch::MESSAGE;
use chat_rooms::dispatch::STOP_TYPING;
use chat_rooms::message::Message;
use chat_rooms::message::Timestamp;
use chat_rooms::state::GlobalAppState;
use chrono::Utc;

fn named(name: &str) -> String {
    name.to_string()
}

fn join(room: &str) -> Event {
    Event::Join { room: named(room) }
}

fn says(user: &str, room: &str, text: &str) -> Event {
    Event::Message { user: named(user), room: named(room), text: named(text) }
}

fn is_typing(user: &str, room: &str) -> Event {
    Event::IsTyping { user: named(user), room: named(room) }
}

fn stop_typing(user: &str, room: &str) -> Event {
    Event::StopTyping { user: named(user), room: named(room) }
}

fn at(seconds: i64) -> Timestamp {
    Timestamp { seconds, nanos: 0 }
}

fn sorted(mut users: Vec<String>) -> Vec<String> {
    users.sort();
    users
}

#[test]
fn inbound_event_names() {
    assert_eq!(JOIN, "join");
    assert_eq!(MESSAGE, "message");
    assert_eq!(IS_TYPING, "is-typing");
    assert_eq!(STOP_TYPING, "stop-typing");
}

#[test]
fn outbound_event_names() {
    let message = Message::new(named("alice"), named("hi"), at(1));
    assert_eq!(Reply::Messages { room: named("r"), messages: vec![] }.name(), "messages");
    assert_eq!(Reply::Message { room: named("r"), message }.name(), "message");
    assert_eq!(Reply::Typing { room: named("r"), users: vec![] }.name(), "typing");
    assert_eq!(Reply::StoppedTyping { room: named("r"), users: vec![] }.name(), "stopped-typing");
}

#[test]
fn only_the_history_goes_to_one_connection() {
    let message = Message::new(named("alice"), named("hi"), at(1));
    assert!(!Reply::Messages { room: named("r"), messages: vec![] }.is_broadcast());
    assert!(Reply::Message { room: named("r"), message }.is_broadcast());
    assert!(Reply::Typing { room: named("r"), users: vec![] }.is_broadcast());
    assert!(Reply::StoppedTyping { room: named("r"), users: vec![] }.is_broadcast());
}

#[test]
fn reply_names_its_room() {
    let message = Message::new(named("alice"), named("hi"), at(1));
    assert_eq!(Reply::Messages { room: named("a"), messages: vec![] }.room(), "a");
    assert_eq!(Reply::Message { room: named("b"), message }.room(), "b");
    assert_eq!(Reply::Typing { room: named("c"), users: vec![] }.room(), "c");
    assert_eq!(Reply::StoppedTyping { room: named("d"), users: vec![] }.room(), "d");
}

#[test]
fn join_answers_with_the_history() {
    let mut state = GlobalAppState::new();
    assert_eq!(
        state.join(named("lobby")),
        Reply::Messages { room: named("lobby"), messages: vec![] }
    );
    let first = Message::new(named("alice"), named("hi"), at(10));
    let second = Message::new(named("bob"), named("ho"), at(11));
    state.insert_message(&named("lobby"), first.clone());
    state.insert_message(&named("lobby"), second.clone());
    assert_eq!(
        state.join(named("lobby")),
        Reply::Messages { room: named("lobby"), messages: vec![first, second] }
    );
    assert_eq!(state.join(named("den")), Reply::Messages { room: named("den"), messages: vec![] });
}

#[test]
fn post_stores_and_passes_on() {
    let mut state = GlobalAppState::new();
    let message = Message::new(named("alice"), named("hi"), at(10));
    let reply = state.post(named("lobby"), message.clone());
    assert_eq!(reply, Reply::Message { room: named("lobby"), message: message.clone() });
    let stored: Vec<Message> = state.get_messages(&named("lobby")).into_iter().collect();
    assert_eq!(stored, vec![message]);
}

#[test]
fn post_beyond_the_limit_evicts_the_oldest() {
    let mut state = GlobalAppState::new();
    for n in 0..23 {
        let message = Message::new(named("alice"), format!("{}", n), at(n));
        assert_eq!(
            state.post(named("lobby"), message.clone()),
            Reply::Message { room: named("lobby"), message }
        );
    }
    let expected: Vec<Message> =
        (3..23).map(|n| Message::new(named("alice"), format!("{}", n), at(n))).collect();
    assert_eq!(
        state.join(named("lobby")),
        Reply::Messages { room: named("lobby"), messages: expected }
    );
}

#[test]
fn start_and_stop_typing_tell_who_is_typing() {
    let mut state = GlobalAppState::new();
    assert_eq!(
        state.start_typing(named("lobby"), named("alice")),
        Reply::Typing { room: named("lobby"), users: vec![named("alice")] }
    );
    assert_eq!(
        state.stop_typing(named("lobby"), named("bob")),
        Reply::StoppedTyping { room: named("lobby"), users: vec![named("alice")] }
    );
    assert_eq!(
        state.stop_typing(named("lobby"), named("alice")),
        Reply::StoppedTyping { room: named("lobby"), users: vec![] }
    );
    assert_eq!(
        state.stop_typing(named("den"), named("alice")),
        Reply::StoppedTyping { room: named("den"), users: vec![] }
    );
}

#[test]
fn joining_then_sending_then_joining_again() {
    let mut state = GlobalAppState::new();

    let to_a = state.handle(join("lobby"));
    assert_eq!(to_a, Reply::Messages { room: named("lobby"), messages: vec![] });
    assert_eq!(to_a.name(), "messages");
    assert!(!to_a.is_broadcast());

    let before = Utc::now();
    let to_room = state.handle(says("alice", "lobby", "hi"));
    let after = Utc::now();
    assert_eq!(to_room.name(), "message");
    assert!(to_room.is_broadcast());
    assert_eq!(to_room.room(), "lobby");
    let sent = match to_room {
        Reply::Message { room, message } => {
            assert_eq!(room, "lobby");
            message
        }
        other => panic!("not a message: {:?}", other),
    };
    assert_eq!(sent.user, "alice");
    assert_eq!(sent.text, "hi");
    let stamp = (sent.date.seconds, sent.date.nanos);
    assert!((before.timestamp(), before.timestamp_subsec_nanos()) <= stamp);
    assert!(stamp <= (after.timestamp(), after.timestamp_subsec_nanos()));

    let to_b = state.handle(join("lobby"));
    assert_eq!(to_b, Reply::Messages { room: named("lobby"), messages: vec![sent] });
}

#[test]
fn two_users_typing_then_one_stops() {
    let mut state = GlobalAppState::new();

    let first = state.handle(is_typing("alice", "lobby"));
    assert_eq!(first, Reply::Typing { room: named("lobby"), users: vec![named("alice")] });

    let second = state.handle(is_typing("bob", "lobby"));
    assert_eq!(second.name(), "typing");
    assert!(second.is_broadcast());
    match second {
        Reply::Typing { room, users } => {
            assert_eq!(room, "lobby");
            assert_eq!(sorted(users), vec![named("alice"), named("bob")]);
        }
        other => panic!("not a typing list: {:?}", other),
    }

    let third = state.handle(stop_typing("alice", "lobby"));
    assert_eq!(third.name(), "stopped-typing");
    assert!(third.is_broadcast());
    assert_eq!(third, Reply::StoppedTyping { room: named("lobby"), users: vec![named("bob")] });
}

#[test]
fn join_changes_nothing() {
    let mut state = GlobalAppState::new();
    state.handle(says("alice", "lobby", "hi"));
    state.handle(is_typing("alice", "lobby"));
    let first = state.handle(join("lobby"));
    let second = state.handle(join("lobby"));
    state.handle(join("den"));
    assert_eq!(first, second);
    assert_eq!(state.get_typing_users(&named("lobby")), vec![named("alice")]);
    assert!(state.get_messages(&named("den")).is_empty());
}

#[test]
fn message_events_do_not_touch_typing() {
    let mut state = GlobalAppState::new();
    state.handle(is_typing("alice", "lobby"));
    state.handle(says("alice", "lobby", "hi"));
    assert_eq!(state.get_typing_users(&named("lobby")), vec![named("alice")]);
    state.handle(stop_typing("alice", "lobby"));
    assert_eq!(state.get_messages(&named("lobby")).len(), 1);
}

#[test]
fn handled_messages_are_bounded_too() {
    let mut state = GlobalAppState::new();
    for n in 0..25 {
        state.handle(says("alice", "lobby", &format!("{}", n)));
    }
    let texts = match state.handle(join("lobby")) {
        Reply::Messages { messages, .. } => {
            messages.into_iter().map(|message| message.text).collect::<Vec<String>>()
        }
        other => panic!("not a history: {:?}", other),
    };
    let expected: Vec<String> = (5..25).map(|n| format!("{}", n)).collect();
    assert_eq!(texts, expected);
}

#[test]
fn stamps_do_not_run_backwards() {
    let mut state = GlobalAppState::new();
    for n in 0..5 {
        state.handle(says("alice", "lobby", &format!("{}", n)));
    }
    let stamps: Vec<(i64, u32)> = state
        .get_messages(&named("lobby"))
        .into_iter()
        .map(|message| (message.date.seconds, message.date.nanos))
        .collect();
    assert_eq!(stamps.len(), 5);
    assert!(stamps.iter().all(|stamp| stamp.0 > 1_600_000_000));
}
