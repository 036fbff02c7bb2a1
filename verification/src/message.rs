//! Chat messages and the clock that stamps them.

use chrono::Utc;
use vstd::prelude::*;

verus! {

/// A point in time on the UTC time line, as the two numbers from which
/// `chrono` rebuilds a `DateTime<Utc>`: whole seconds since the start of 1970,
/// and the nanoseconds into that second.
#[derive(Clone, Copy, Debug, PartialEq, Eq, Structural)]
pub struct Timestamp {
    pub seconds: i64,
    pub nanos: u32,
}

/// One chat message. It is never changed once it has been made.
#[derive(Debug, PartialEq, Eq)]
pub struct Message {
    pub user: String,
    pub text: String,
    pub date: Timestamp,
}

/// What a message is, as mathematics: its two strings as character sequences
/// and the instant it was stamped with.
pub struct MessageView {
    pub user: Seq<char>,
    pub text: Seq<char>,
    pub date: Timestamp,
}

impl View for Message {
    type V = MessageView;

    open spec fn view(&self) -> MessageView {
        MessageView { user: self.user@, text: self.text@, date: self.date }
    }
}

/// The views of `messages`, in the same order.
pub open spec fn message_views(messages: Seq<Message>) -> Seq<MessageView> {
    messages.map_values(|m: Message| m@)
}

impl Clone for Message {
    fn clone(&self) -> (copy: Self)
        ensures
            copy == *self,
    {
        Message { user: self.user.clone(), text: self.text.clone(), date: self.date }
    }
}

/// Reads the clock with `chrono::Utc::now` and takes the result apart with
/// `DateTime::timestamp` and `DateTime::timestamp_subsec_nanos`. The result is
/// whatever the system clock says, so nothing is promised of it. The call
/// panics only on a machine whose clock stands before 1970 or beyond the years
/// that `chrono` can represent.
#[verifier::external_body]
pub(crate) fn current_time() -> (now: Timestamp) {
    let now = Utc::now();
    Timestamp { seconds: now.timestamp(), nanos: now.timestamp_subsec_nanos() }
}

impl Message {
    /// A message from `user` saying `text`, stamped `date`.
    pub fn new(user: String, text: String, date: Timestamp) -> (message: Self)
        ensures
            message@ == (MessageView { user: user@, text: text@, date }),
    {
        Message { user, text, date }
    }

    /// A message from `user` saying `text`, stamped with the current time.
    pub fn stamped(user: String, text: String) -> (message: Self)
        ensures
            message@.user == user@,
            message@.text == text@,
    {
        let date = current_time();
        Message::new(user, text, date)
    }
}

} // verus!
