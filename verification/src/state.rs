//! The state shared by all connections: every room's history and typing set.

use crate::history::lemma_most_recent_of_long_tail;
use crate::history::lemma_most_recent_of_push;
use crate::history::most_recent;
use crate::history::MessageHistory;
use crate::history::HISTORY_LIMIT;
use crate::message::message_views;
use crate::message::Message;
use crate::message::MessageView;
use crate::typing::lists;
use crate::typing::user_names;
use crate::typing::TypingSet;
use std::collections::VecDeque;
use vstd::hash_map::StringHashMap;
use vstd::prelude::*;

verus! {

/// The chat state as mathematics. Both maps are read at every room name: a
/// room that nothing was written to yet has the empty history and nobody
/// typing.
pub struct ChatState {
    /// For each room its remembered messages, oldest first.
    pub histories: Map<Seq<char>, Seq<MessageView>>,
    /// For each room the names of the users who are typing.
    pub typing: Map<Seq<char>, Set<Seq<char>>>,
}

impl ChatState {
    /// The state before anything has happened.
    pub open spec fn empty() -> ChatState {
        ChatState {
            histories: Map::total(|room: Seq<char>| Seq::<MessageView>::empty()),
            typing: Map::total(|room: Seq<char>| Set::<Seq<char>>::empty()),
        }
    }

    /// Whether both maps have an entry for every room name. The view of every
    /// `GlobalAppState` is total.
    pub open spec fn is_total(self) -> bool {
        &&& forall|room: Seq<char>| self.histories.contains_key(room)
        &&& forall|room: Seq<char>| self.typing.contains_key(room)
    }

    /// The remembered messages of `room`, oldest first.
    pub open spec fn history(self, room: Seq<char>) -> Seq<MessageView> {
        self.histories[room]
    }

    /// The users typing in `room`.
    pub open spec fn typing_users(self, room: Seq<char>) -> Set<Seq<char>> {
        self.typing[room]
    }

    /// The state after `message` was appended to `room`: it is the room's
    /// newest message, and of what the room then holds only the most recent
    /// `HISTORY_LIMIT` stay.
    pub open spec fn append(self, room: Seq<char>, message: MessageView) -> ChatState {
        ChatState {
            histories: self.histories.insert(room, most_recent(self.history(room).push(message))),
            typing: self.typing,
        }
    }

    /// The state after each of `messages` was appended to `room`, the first of
    /// them first.
    pub open spec fn append_all(self, room: Seq<char>, messages: Seq<MessageView>) -> ChatState
        decreases messages.len(),
    {
        if messages.len() == 0 {
            self
        } else {
            self.append_all(room, messages.drop_last()).append(room, messages.last())
        }
    }

    /// The state after `user` was marked as typing in `room`.
    pub open spec fn mark_typing(self, room: Seq<char>, user: Seq<char>) -> ChatState {
        ChatState {
            histories: self.histories,
            typing: self.typing.insert(room, self.typing_users(room).insert(user)),
        }
    }

    /// The state after `user` was marked as no longer typing in `room`.
    pub open spec fn clear_typing(self, room: Seq<char>, user: Seq<char>) -> ChatState {
        ChatState {
            histories: self.histories,
            typing: self.typing.insert(room, self.typing_users(room).remove(user)),
        }
    }
}

/// Appending `messages` to a room, one after the other, leaves the room with
/// the most recent `HISTORY_LIMIT` of what it held and what it was given,
/// oldest first. No other room's history changes, and no typing set.
pub proof fn lemma_append_all(state: ChatState, room: Seq<char>, messages: Seq<MessageView>)
    ensures
        state.append_all(room, messages).history(room) == if messages.len() == 0 {
            state.history(room)
        } else {
            most_recent(state.history(room) + messages)
        },
        forall|other: Seq<char>|
            other != room ==> #[trigger] state.append_all(room, messages).history(other)
                == state.history(other),
        forall|any: Seq<char>|
            #[trigger] state.append_all(room, messages).typing_users(any) == state.typing_users(
                any,
            ),
    decreases messages.len(),
{
    if messages.len() > 0 {
        let earlier = messages.drop_last();
        lemma_append_all(state, room, earlier);
        assert((state.history(room) + earlier).push(messages.last()) =~= state.history(room)
            + messages);
        if earlier.len() == 0 {
            assert(state.history(room) + earlier =~= state.history(room));
        }
        lemma_most_recent_of_push(state.history(room) + earlier, messages.last());
        let before = state.append_all(room, earlier);
        assert(state.append_all(room, messages) == before.append(room, messages.last()));
        assert forall|other: Seq<char>| other != room implies #[trigger] state.append_all(
            room,
            messages,
        ).history(other) == state.history(other) by {
            assert(before.history(other) == state.history(other));
        }
        assert forall|any: Seq<char>| #[trigger]
            state.append_all(room, messages).typing_users(any) == state.typing_users(any) by {
            assert(before.typing_users(any) == state.typing_users(any));
        }
    }
}

/// After `HISTORY_LIMIT` or more messages were appended to a room, whatever the
/// room held before, it holds exactly the last `HISTORY_LIMIT` of them, oldest
/// first.
pub proof fn lemma_appends_keep_most_recent(
    state: ChatState,
    room: Seq<char>,
    messages: Seq<MessageView>,
)
    requires
        messages.len() >= HISTORY_LIMIT,
    ensures
        state.append_all(room, messages).history(room) == messages.subrange(
            messages.len() - HISTORY_LIMIT,
            messages.len() as int,
        ),
        state.append_all(room, messages).history(room).len() == HISTORY_LIMIT,
{
    lemma_append_all(state, room, messages);
    lemma_most_recent_of_long_tail(state.history(room), messages);
}

/// A message that is appended is the newest of its room afterwards, and the
/// room never holds more than `HISTORY_LIMIT`.
pub proof fn lemma_append_is_newest(state: ChatState, room: Seq<char>, message: MessageView)
    ensures
        state.append(room, message).history(room).len() > 0,
        state.append(room, message).history(room).last() == message,
        state.append(room, message).history(room).len() <= HISTORY_LIMIT,
{
}

/// In the state before anything has happened every room has the empty history
/// and nobody typing.
pub proof fn lemma_empty_state(room: Seq<char>)
    ensures
        ChatState::empty().history(room) == Seq::<MessageView>::empty(),
        ChatState::empty().typing_users(room) == Set::<Seq<char>>::empty(),
{
}

/// A user who was marked as typing is among the typing users of the room; the
/// other users of the room, and all other rooms, stay as they were.
pub proof fn lemma_mark_typing(state: ChatState, room: Seq<char>, user: Seq<char>)
    ensures
        state.mark_typing(room, user).typing_users(room).contains(user),
        forall|other: Seq<char>|
            other != user ==> (#[trigger] state.mark_typing(room, user).typing_users(
                room,
            ).contains(other) <==> state.typing_users(room).contains(other)),
        forall|other: Seq<char>|
            other != room ==> #[trigger] state.mark_typing(room, user).typing_users(other)
                == state.typing_users(other),
        forall|any: Seq<char>|
            #[trigger] state.mark_typing(room, user).history(any) == state.history(any),
{
}

/// A user who was marked as no longer typing is not among the typing users of
/// the room; the other users of the room, and all other rooms, stay as they
/// were.
pub proof fn lemma_clear_typing(state: ChatState, room: Seq<char>, user: Seq<char>)
    ensures
        !state.clear_typing(room, user).typing_users(room).contains(user),
        forall|other: Seq<char>|
            other != user ==> (#[trigger] state.clear_typing(room, user).typing_users(
                room,
            ).contains(other) <==> state.typing_users(room).contains(other)),
        forall|other: Seq<char>|
            other != room ==> #[trigger] state.clear_typing(room, user).typing_users(other)
                == state.typing_users(other),
        forall|any: Seq<char>|
            #[trigger] state.clear_typing(room, user).history(any) == state.history(any),
{
}

/// Marking a user as typing who is typing already changes nothing.
pub proof fn lemma_mark_typing_again(state: ChatState, room: Seq<char>, user: Seq<char>)
    requires
        state.is_total(),
        state.typing_users(room).contains(user),
    ensures
        state.mark_typing(room, user) == state,
{
    assert(state.typing_users(room).insert(user) =~= state.typing_users(room));
    assert(state.mark_typing(room, user).typing =~= state.typing);
}

/// Marking a user as no longer typing who was not typing changes nothing.
pub proof fn lemma_clear_typing_of_absent(state: ChatState, room: Seq<char>, user: Seq<char>)
    requires
        state.is_total(),
        !state.typing_users(room).contains(user),
    ensures
        state.clear_typing(room, user) == state,
{
    assert(state.typing_users(room).remove(user) =~= state.typing_users(room));
    assert(state.clear_typing(room, user).typing =~= state.typing);
}

/// Marking a user and then clearing them leaves a state in which they were not
/// typing as it was; clearing and then marking leaves one in which they were
/// typing as it was.
pub proof fn lemma_mark_and_clear_undo_each_other(
    state: ChatState,
    room: Seq<char>,
    user: Seq<char>,
)
    requires
        state.is_total(),
    ensures
        !state.typing_users(room).contains(user) ==> state.mark_typing(room, user).clear_typing(
            room,
            user,
        ) == state,
        state.typing_users(room).contains(user) ==> state.clear_typing(room, user).mark_typing(
            room,
            user,
        ) == state,
{
    if state.typing_users(room).contains(user) {
        assert(state.typing_users(room).remove(user).insert(user) =~= state.typing_users(room));
        assert(state.clear_typing(room, user).mark_typing(room, user).typing =~= state.typing);
    } else {
        assert(state.typing_users(room).insert(user).remove(user) =~= state.typing_users(room));
        assert(state.mark_typing(room, user).clear_typing(room, user).typing =~= state.typing);
    }
}

/// The operations keep a total state total, and the state before anything has
/// happened is total.
pub proof fn lemma_total_is_kept(
    state: ChatState,
    room: Seq<char>,
    user: Seq<char>,
    message: MessageView,
)
    requires
        state.is_total(),
    ensures
        ChatState::empty().is_total(),
        state.append(room, message).is_total(),
        state.mark_typing(room, user).is_total(),
        state.clear_typing(room, user).is_total(),
{
}

/// The history of every room that a message was sent to, by the room's name.
pub type RoomStore = StringHashMap<MessageHistory>;

/// The typing set of every room in which somebody was marked, by the room's
/// name.
pub type UsersTypingStore = StringHashMap<TypingSet>;

/// Every room's message history and typing set. Rooms come into being when
/// they are first written to and are never removed.
pub struct GlobalAppState {
    messages: RoomStore,
    users_typing: UsersTypingStore,
}

impl View for GlobalAppState {
    type V = ChatState;

    closed spec fn view(&self) -> ChatState {
        ChatState {
            histories: Map::total(
                |room: Seq<char>|
                    if self.messages@.contains_key(room) {
                        self.messages@[room]@
                    } else {
                        Seq::<MessageView>::empty()
                    },
            ),
            typing: Map::total(
                |room: Seq<char>|
                    if self.users_typing@.contains_key(room) {
                        self.users_typing@[room]@
                    } else {
                        Set::<Seq<char>>::empty()
                    },
            ),
        }
    }
}

/// The view of a state has an entry for every room name.
pub proof fn lemma_view_is_total(state: GlobalAppState)
    ensures
        state@.is_total(),
{
}

impl GlobalAppState {
    /// The state without rooms.
    pub fn new() -> (state: Self)
        ensures
            state@ == ChatState::empty(),
    {
        let state = GlobalAppState {
            messages: StringHashMap::new(),
            users_typing: StringHashMap::new(),
        };
        assert(state@.histories =~= ChatState::empty().histories);
        assert(state@.typing =~= ChatState::empty().typing);
        state
    }

    /// Appends `message` to the history of `room`.
    pub fn insert_message(&mut self, room: &String, message: Message)
        ensures
            final(self)@ == old(self)@.append(room@, message@),
    {
        let mut history = match self.messages.get(room.as_str()) {
            Some(history) => history.clone(),
            None => MessageHistory::new(),
        };
        history.push(message);
        self.messages.insert(room.clone(), history);
        assert(self@.histories =~= old(self)@.append(room@, message@).histories);
        assert(self@.typing =~= old(self)@.typing);
    }

    /// A copy of the history of `room`, from the oldest message to the newest.
    /// It is empty for a room that was never written to.
    pub fn get_messages(&self, room: &String) -> (messages: VecDeque<Message>)
        ensures
            message_views(messages@) == self@.history(room@),
            messages@.len() <= HISTORY_LIMIT,
    {
        match self.messages.get(room.as_str()) {
            Some(history) => history.snapshot(),
            None => {
                let messages: VecDeque<Message> = VecDeque::new();
                assert(message_views(messages@) =~= self@.history(room@));
                messages
            },
        }
    }

    /// Marks `user` as typing in `room`.
    pub fn insert_typing_user(&mut self, room: &String, user: String)
        ensures
            final(self)@ == old(self)@.mark_typing(room@, user@),
    {
        let mut typing = match self.users_typing.get(room.as_str()) {
            Some(typing) => typing.clone(),
            None => TypingSet::new(),
        };
        typing.insert(user);
        self.users_typing.insert(room.clone(), typing);
        assert(self@.typing =~= old(self)@.mark_typing(room@, user@).typing);
        assert(self@.histories =~= old(self)@.histories);
    }

    /// Marks `user` as no longer typing in `room`.
    pub fn remove_typing_user(&mut self, room: &String, user: String)
        ensures
            final(self)@ == old(self)@.clear_typing(room@, user@),
    {
        match self.users_typing.get(room.as_str()) {
            Some(typing) => {
                let mut typing = typing.clone();
                typing.remove(&user);
                self.users_typing.insert(room.clone(), typing);
            },
            None => {
                assert(Set::<Seq<char>>::empty().remove(user@) =~= Set::<Seq<char>>::empty());
            },
        }
        assert(self@.typing =~= old(self)@.clear_typing(room@, user@).typing);
        assert(self@.histories =~= old(self)@.histories);
    }

    /// The users typing in `room`, each once, in no particular order.
    pub fn get_typing_users(&self, room: &String) -> (users: Vec<String>)
        ensures
            lists(users@, self@.typing_users(room@)),
    {
        match self.users_typing.get(room.as_str()) {
            Some(typing) => typing.snapshot(),
            None => {
                let users: Vec<String> = Vec::new();
                assert(user_names(users@).to_set() =~= self@.typing_users(room@));
                users
            },
        }
    }
}

impl Default for GlobalAppState {
    fn default() -> (state: Self)
        ensures
            state@ == ChatState::empty(),
    {
        GlobalAppState::new()
    }
}

} // verus!
