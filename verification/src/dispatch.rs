//! The events that connections send, and what is sent out in answer.

use crate::message::message_views;
use crate::message::Message;
use crate::state::ChatState;
use crate::state::GlobalAppState;
use crate::typing::lists;
use std::collections::VecDeque;
use vstd::prelude::*;

verus! {

/// The name under which connections send `Event::Join`.
pub const JOIN: &'static str = "join";

/// The name under which connections send `Event::Message`.
pub const MESSAGE: &'static str = "message";

/// The name under which connections send `Event::IsTyping`.
pub const IS_TYPING: &'static str = "is-typing";

/// The name under which connections send `Event::StopTyping`.
pub const STOP_TYPING: &'static str = "stop-typing";

/// An event that a connection sent, decoded.
#[derive(Debug, PartialEq, Eq)]
pub enum Event {
    /// The connection wants to be in `room`, and in no other.
    Join { room: String },
    /// `user` says `text` in `room`.
    Message { user: String, room: String, text: String },
    /// `user` began to type in `room`.
    IsTyping { user: String, room: String },
    /// `user` stopped typing in `room`.
    StopTyping { user: String, room: String },
}

/// What is sent out in answer to an event.
#[derive(Debug, PartialEq, Eq)]
pub enum Reply {
    /// The history of `room`, oldest message first, for the connection that
    /// joined and for nobody else.
    Messages { room: String, messages: Vec<Message> },
    /// A new message, for everyone in `room`.
    Message { room: String, message: Message },
    /// Who is typing in `room` now that somebody began to, for everyone in
    /// `room`.
    Typing { room: String, users: Vec<String> },
    /// Who is typing in `room` now that somebody stopped, for everyone in
    /// `room`.
    StoppedTyping { room: String, users: Vec<String> },
}

impl Reply {
    /// The name under which this reply is sent.
    pub open spec fn spec_name(self) -> Seq<char> {
        match self {
            Reply::Messages { .. } => "messages"@,
            Reply::Message { .. } => "message"@,
            Reply::Typing { .. } => "typing"@,
            Reply::StoppedTyping { .. } => "stopped-typing"@,
        }
    }

    /// The name under which this reply is sent.
    pub fn name(&self) -> (name: &'static str)
        ensures
            name@ == self.spec_name(),
    {
        match self {
            Reply::Messages { .. } => "messages",
            Reply::Message { .. } => "message",
            Reply::Typing { .. } => "typing",
            Reply::StoppedTyping { .. } => "stopped-typing",
        }
    }

    /// The room that this reply is about.
    pub fn room(&self) -> (room: &String)
        ensures
            room == match *self {
                Reply::Messages { room, .. } => room,
                Reply::Message { room, .. } => room,
                Reply::Typing { room, .. } => room,
                Reply::StoppedTyping { room, .. } => room,
            },
    {
        match self {
            Reply::Messages { room, .. } => room,
            Reply::Message { room, .. } => room,
            Reply::Typing { room, .. } => room,
            Reply::StoppedTyping { room, .. } => room,
        }
    }

    /// Whether this reply goes to every member of its room: all do but the
    /// history, which goes to the connection that joined.
    pub fn is_broadcast(&self) -> (broadcast: bool)
        ensures
            broadcast == !(*self is Messages),
    {
        match self {
            Reply::Messages { .. } => false,
            _ => true,
        }
    }
}

/// Whether `reply` and the state `after` are a right answer to `event` in the
/// state `before`. The stamp of a new message and the order in which typing
/// users are listed are left open; all else is fixed.
pub open spec fn answers(before: ChatState, event: Event, after: ChatState, reply: Reply) -> bool {
    match event {
        Event::Join { room } => {
            &&& after == before
            &&& reply matches Reply::Messages { room: to, messages }
            &&& to@ == room@
            &&& message_views(messages@) == before.history(room@)
        },
        Event::Message { user, room, text } => {
            &&& reply matches Reply::Message { room: to, message }
            &&& to@ == room@
            &&& message@.user == user@
            &&& message@.text == text@
            &&& after == before.append(room@, message@)
        },
        Event::IsTyping { user, room } => {
            &&& after == before.mark_typing(room@, user@)
            &&& reply matches Reply::Typing { room: to, users }
            &&& to@ == room@
            &&& lists(users@, after.typing_users(room@))
        },
        Event::StopTyping { user, room } => {
            &&& after == before.clear_typing(room@, user@)
            &&& reply matches Reply::StoppedTyping { room: to, users }
            &&& to@ == room@
            &&& lists(users@, after.typing_users(room@))
        },
    }
}

/// The items of `messages`, in the same order.
fn into_vec(messages: VecDeque<Message>) -> (list: Vec<Message>)
    ensures
        list@ == messages@,
{
    let mut list: Vec<Message> = Vec::new();
    let mut i: usize = 0;
    while i < messages.len()
        invariant
            i <= messages@.len(),
            list@ == messages@.subrange(0, i as int),
        decreases messages@.len() - i,
    {
        list.push(messages[i].clone());
        assert(list@ =~= messages@.subrange(0, i + 1));
        i += 1;
    }
    assert(list@ =~= messages@);
    list
}

impl GlobalAppState {
    /// Answers a connection that joined `room` with the room's history. The
    /// state stays as it is.
    pub fn join(&self, room: String) -> (reply: Reply)
        ensures
            reply matches Reply::Messages { room: to, messages } && to == room && message_views(
                messages@,
            ) == self@.history(room@),
    {
        let messages = into_vec(self.get_messages(&room));
        Reply::Messages { room, messages }
    }

    /// Appends `message` to the history of `room` and passes it on to the
    /// room.
    pub fn post(&mut self, room: String, message: Message) -> (reply: Reply)
        ensures
            final(self)@ == old(self)@.append(room@, message@),
            reply == (Reply::Message { room, message }),
    {
        self.insert_message(&room, message.clone());
        Reply::Message { room, message }
    }

    /// Marks `user` as typing in `room` and tells the room who is typing now.
    pub fn start_typing(&mut self, room: String, user: String) -> (reply: Reply)
        ensures
            final(self)@ == old(self)@.mark_typing(room@, user@),
            reply matches Reply::Typing { room: to, users } && to == room && lists(
                users@,
                final(self)@.typing_users(room@),
            ),
    {
        self.insert_typing_user(&room, user);
        let users = self.get_typing_users(&room);
        Reply::Typing { room, users }
    }

    /// Marks `user` as no longer typing in `room` and tells the room who is
    /// typing now.
    pub fn stop_typing(&mut self, room: String, user: String) -> (reply: Reply)
        ensures
            final(self)@ == old(self)@.clear_typing(room@, user@),
            reply matches Reply::StoppedTyping { room: to, users } && to == room && lists(
                users@,
                final(self)@.typing_users(room@),
            ),
    {
        self.remove_typing_user(&room, user);
        let users = self.get_typing_users(&room);
        Reply::StoppedTyping { room, users }
    }

    /// Applies `event` to the state and says what is to be sent out. A new
    /// message is stamped with the time at which it is handled.
    pub fn handle(&mut self, event: Event) -> (reply: Reply)
        ensures
            answers(old(self)@, event, final(self)@, reply),
    {
        match event {
            Event::Join { room } => self.join(room),
            Event::Message { user, room, text } => {
                let message = Message::stamped(user, text);
                self.post(room, message)
            },
            Event::IsTyping { user, room } => self.start_typing(room, user),
            Event::StopTyping { user, room } => self.stop_typing(room, user),
        }
    }
}

} // verus!
