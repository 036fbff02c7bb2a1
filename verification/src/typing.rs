//! The set of users who are typing in one room.

use vstd::prelude::*;

verus! {

/// The character sequences of `users`, in the same order.
pub open spec fn user_names(users: Seq<String>) -> Seq<Seq<char>> {
    users.map_values(|user: String| user@)
}

/// Whether `users` is a listing of `set`: it names every member once, and
/// nobody else. The order of the listing is left open.
pub open spec fn lists(users: Seq<String>, set: Set<Seq<char>>) -> bool {
    &&& user_names(users).no_duplicates()
    &&& user_names(users).to_set() == set
}

/// The users typing in a room. Its view is the set of their names: a user is in
/// it or is not, however often they were marked.
pub struct TypingSet {
    users: Vec<String>,
}

impl View for TypingSet {
    type V = Set<Seq<char>>;

    closed spec fn view(&self) -> Set<Seq<char>> {
        user_names(self.users@).to_set()
    }
}

impl TypingSet {
    #[verifier::type_invariant]
    spec fn each_user_once(self) -> bool {
        user_names(self.users@).no_duplicates()
    }

    /// The set in which nobody is typing.
    pub fn new() -> (set: Self)
        ensures
            set@ == Set::<Seq<char>>::empty(),
    {
        let set = TypingSet { users: Vec::new() };
        assert(set@ =~= Set::<Seq<char>>::empty());
        set
    }

    /// Where `user` stands in the list, if anywhere.
    fn position(&self, user: &String) -> (found: Option<usize>)
        ensures
            match found {
                Some(i) => i < self.users@.len() && self.users@[i as int]@ == user@,
                None => !self@.contains(user@),
            },
    {
        let mut i: usize = 0;
        while i < self.users.len()
            invariant
                i <= self.users@.len(),
                forall|k: int| 0 <= k < i ==> (#[trigger] self.users@[k])@ != user@,
            decreases self.users@.len() - i,
        {
            if self.users[i] == *user {
                return Some(i);
            }
            i += 1;
        }
        assert(!self@.contains(user@)) by {
            if user_names(self.users@).contains(user@) {
                let k = choose|k: int|
                    0 <= k < user_names(self.users@).len() && user_names(self.users@)[k] == user@;
                assert(self.users@[k]@ == user@);
            }
        }
        None
    }

    /// Whether `user` is typing.
    pub fn contains(&self, user: &String) -> (found: bool)
        ensures
            found == self@.contains(user@),
    {
        match self.position(user) {
            Some(i) => {
                assert(user_names(self.users@)[i as int] == user@);
                true
            },
            None => false,
        }
    }

    /// Marks `user` as typing. Marking a user who is typing already changes
    /// nothing.
    pub fn insert(&mut self, user: String)
        ensures
            final(self)@ == old(self)@.insert(user@),
    {
        proof {
            use_type_invariant(&*self);
        }
        match self.position(&user) {
            Some(i) => {
                assert(user_names(self.users@)[i as int] == user@);
                assert(self@ =~= self@.insert(user@));
            },
            None => {
                let mut users: Vec<String> = Vec::new();
                std::mem::swap(&mut self.users, &mut users);
                users.push(user);
                proof {
                    let before = user_names(old(self).users@);
                    assert(user_names(users@) =~= before.push(user@));
                    assert(!before.contains(user@));
                    assert(before.push(user@).to_set() =~= before.to_set().insert(user@)) by {
                        assert forall|name: Seq<char>|
                            before.push(user@).to_set().contains(name) implies before.to_set().insert(
                            user@,
                        ).contains(name) by {
                            let k = choose|k: int|
                                0 <= k < before.push(user@).len() && before.push(user@)[k] == name;
                            if k < before.len() {
                                assert(before[k] == name);
                            }
                        }
                        assert forall|name: Seq<char>|
                            before.to_set().insert(user@).contains(name) implies before.push(
                            user@,
                        ).to_set().contains(name) by {
                            if name == user@ {
                                assert(before.push(user@)[before.len() as int] == name);
                            } else {
                                let k = choose|k: int| 0 <= k < before.len() && before[k] == name;
                                assert(before.push(user@)[k] == name);
                            }
                        }
                    }
                }
                self.users = users;
            },
        }
    }

    /// Marks `user` as no longer typing. For a user who was not typing this
    /// changes nothing.
    pub fn remove(&mut self, user: &String)
        ensures
            final(self)@ == old(self)@.remove(user@),
    {
        proof {
            use_type_invariant(&*self);
        }
        match self.position(user) {
            Some(i) => {
                let mut users: Vec<String> = Vec::new();
                std::mem::swap(&mut self.users, &mut users);
                users.remove(i);
                proof {
                    let before = user_names(old(self).users@);
                    assert(user_names(users@) =~= before.remove(i as int));
                    assert(before[i as int] == user@);
                    lemma_remove_from_listing(before, i as int);
                }
                self.users = users;
            },
            None => {
                assert(self@ =~= self@.remove(user@));
            },
        }
    }

    /// The users who are typing, each once, in no particular order.
    pub fn snapshot(&self) -> (users: Vec<String>)
        ensures
            lists(users@, self@),
    {
        proof {
            use_type_invariant(self);
        }
        let users = self.users.clone();
        assert(users@ =~= self.users@);
        users
    }
}

impl Clone for TypingSet {
    fn clone(&self) -> (copy: Self)
        ensures
            copy@ == self@,
    {
        proof {
            use_type_invariant(self);
        }
        let users = self.users.clone();
        assert(users@ =~= self.users@);
        TypingSet { users }
    }
}

/// Taking the item at `i` out of a sequence without duplicates takes exactly
/// that item out of its set.
proof fn lemma_remove_from_listing(names: Seq<Seq<char>>, i: int)
    requires
        names.no_duplicates(),
        0 <= i < names.len(),
    ensures
        names.remove(i).no_duplicates(),
        names.remove(i).to_set() == names.to_set().remove(names[i]),
{
    let rest = names.remove(i);
    assert forall|a: int, b: int| 0 <= a < rest.len() && 0 <= b < rest.len() && a != b implies rest[a]
        != rest[b] by {
        let a0 = if a < i { a } else { a + 1 };
        let b0 = if b < i { b } else { b + 1 };
        assert(rest[a] == names[a0]);
        assert(rest[b] == names[b0]);
    }
    assert forall|name: Seq<char>| rest.to_set().contains(name) implies names.to_set().remove(
        names[i],
    ).contains(name) by {
        let k = choose|k: int| 0 <= k < rest.len() && rest[k] == name;
        let k0 = if k < i { k } else { k + 1 };
        assert(names[k0] == name);
    }
    assert forall|name: Seq<char>| names.to_set().remove(names[i]).contains(name) implies rest.to_set().contains(
        name,
    ) by {
        let k = choose|k: int| 0 <= k < names.len() && names[k] == name;
        let k1 = if k < i { k } else { k - 1 };
        assert(rest[k1] == name);
    }
    assert(rest.to_set() =~= names.to_set().remove(names[i]));
}

} // verus!
