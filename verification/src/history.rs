//! The bounded message history of one room.

use crate::message::message_views;
use crate::message::Message;
use crate::message::MessageView;
use std::collections::VecDeque;
use vstd::prelude::*;

verus! {

/// How many messages a room keeps.
pub const HISTORY_LIMIT: usize = 20;

/// The last `HISTORY_LIMIT` items of `s`, or all of `s` if it has no more than
/// that.
pub open spec fn most_recent<T>(s: Seq<T>) -> Seq<T> {
    if s.len() <= HISTORY_LIMIT {
        s
    } else {
        s.subrange(s.len() - HISTORY_LIMIT, s.len() as int)
    }
}

/// What `most_recent` keeps is never longer than the limit.
pub proof fn lemma_most_recent_is_bounded<T>(s: Seq<T>)
    ensures
        most_recent(s).len() <= HISTORY_LIMIT,
        most_recent(s).len() <= s.len(),
{
}

/// Cutting a sequence down before a new item arrives loses nothing that would
/// have been kept afterwards.
pub proof fn lemma_most_recent_of_push<T>(s: Seq<T>, item: T)
    ensures
        most_recent(most_recent(s).push(item)) == most_recent(s.push(item)),
{
    assert(most_recent(most_recent(s).push(item)) =~= most_recent(s.push(item)));
}

/// Of a sequence that ends in at least `HISTORY_LIMIT` items `tail`, exactly
/// the last `HISTORY_LIMIT` items of `tail` are kept.
pub proof fn lemma_most_recent_of_long_tail<T>(head: Seq<T>, tail: Seq<T>)
    requires
        tail.len() >= HISTORY_LIMIT,
    ensures
        most_recent(head + tail) == tail.subrange(tail.len() - HISTORY_LIMIT, tail.len() as int),
{
    assert(most_recent(head + tail) =~= tail.subrange(
        tail.len() - HISTORY_LIMIT,
        tail.len() as int,
    ));
}

/// `entries`, which holds the newest message first, read from the oldest
/// message to the newest.
pub open spec fn oldest_first(entries: Seq<Message>) -> Seq<MessageView> {
    Seq::new(entries.len(), |i: int| entries[entries.len() - 1 - i]@)
}

/// Puts `message` in front of `entries` and drops what then lies beyond the
/// limit.
fn push_newest(entries: &mut VecDeque<Message>, message: Message)
    requires
        old(entries)@.len() <= HISTORY_LIMIT,
    ensures
        final(entries)@.len() <= HISTORY_LIMIT,
        oldest_first(final(entries)@) == most_recent(oldest_first(old(entries)@).push(message@)),
{
    entries.push_front(message);
    entries.truncate(HISTORY_LIMIT);
    assert(oldest_first(entries@) =~= most_recent(oldest_first(old(entries)@).push(message@)));
}

/// The messages a room remembers: at most `HISTORY_LIMIT` of them, the most
/// recent ones. Its view is the sequence of those messages from the oldest to
/// the newest.
pub struct MessageHistory {
    /// Newest first.
    entries: VecDeque<Message>,
}

impl View for MessageHistory {
    type V = Seq<MessageView>;

    closed spec fn view(&self) -> Seq<MessageView> {
        oldest_first(self.entries@)
    }
}

impl MessageHistory {
    #[verifier::type_invariant]
    spec fn within_limit(self) -> bool {
        self.entries@.len() <= HISTORY_LIMIT
    }

    /// A history without messages.
    pub fn new() -> (history: Self)
        ensures
            history@ == Seq::<MessageView>::empty(),
    {
        let history = MessageHistory { entries: VecDeque::new() };
        assert(history@ =~= Seq::<MessageView>::empty());
        history
    }

    /// Records `message` as the newest one. Once the limit is reached, the
    /// oldest message leaves for it.
    pub fn push(&mut self, message: Message)
        ensures
            final(self)@ == most_recent(old(self)@.push(message@)),
    {
        proof {
            use_type_invariant(&*self);
        }
        let mut entries: VecDeque<Message> = VecDeque::new();
        std::mem::swap(&mut self.entries, &mut entries);
        push_newest(&mut entries, message);
        self.entries = entries;
    }

    /// How many messages are remembered.
    pub fn len(&self) -> (count: usize)
        ensures
            count == self@.len(),
            count <= HISTORY_LIMIT,
    {
        proof {
            use_type_invariant(self);
        }
        self.entries.len()
    }

    /// A copy of the remembered messages, from the oldest to the newest.
    pub fn snapshot(&self) -> (messages: VecDeque<Message>)
        ensures
            message_views(messages@) == self@,
            messages@.len() <= HISTORY_LIMIT,
    {
        proof {
            use_type_invariant(self);
        }
        let mut messages: VecDeque<Message> = VecDeque::new();
        let mut i: usize = 0;
        while i < self.entries.len()
            invariant
                i <= self.entries@.len(),
                messages@.len() == i,
                forall|k: int|
                    0 <= k < i ==> (#[trigger] messages@[k]) == self.entries@[i - 1 - k],
            decreases self.entries@.len() - i,
        {
            messages.push_front(self.entries[i].clone());
            i += 1;
        }
        assert(message_views(messages@) =~= self@);
        messages
    }
}

impl Clone for MessageHistory {
    fn clone(&self) -> (copy: Self)
        ensures
            copy@ == self@,
    {
        proof {
            use_type_invariant(self);
        }
        let entries = self.entries.clone();
        assert(entries@ =~= self.entries@);
        MessageHistory { entries }
    }
}

} // verus!
