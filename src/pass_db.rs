//! The registry of identities and their stored password hashes.
use vstd::prelude::*;

verus! {

/// Identities and their stored hashes, each identity at most once, kept in the
/// order in which identities were first inserted.
pub struct PassDb {
    entries: Vec<(String, Vec<u8>)>,
    model: Ghost<Map<Seq<char>, Seq<u8>>>,
}

impl View for PassDb {
    type V = Map<Seq<char>, Seq<u8>>;

    closed spec fn view(&self) -> Map<Seq<char>, Seq<u8>> {
        self.model@
    }
}

impl PassDb {
    /// The identity of entry `i`.
    closed spec fn key_at(&self, i: int) -> Seq<char> {
        self.entries@[i].0@
    }

    /// The identities in the order in which they were first inserted.
    pub closed spec fn users(&self) -> Seq<Seq<char>> {
        self.entries@.map_values(|e: (String, Vec<u8>)| e.0@)
    }

    /// Entries hold each identity once and agree with the model.
    pub closed spec fn wf(&self) -> bool {
        &&& forall|i: int, j: int|
            0 <= i < j < self.entries@.len() ==> #[trigger] self.key_at(i) != #[trigger] self.key_at(j)
        &&& forall|i: int|
            0 <= i < self.entries@.len() ==> {
                &&& self.model@.contains_key(#[trigger] self.key_at(i))
                &&& self.model@[self.key_at(i)] == self.entries@[i].1@
            }
        &&& forall|k: Seq<char>|
            #[trigger] self.model@.contains_key(k) ==> exists|i: int|
                0 <= i < self.entries@.len() && #[trigger] self.key_at(i) == k
    }

    /// Creates an empty database.
    pub fn new() -> (r: Self)
        ensures
            r.wf(),
            r@ == Map::<Seq<char>, Seq<u8>>::empty(),
            r.users() == Seq::<Seq<char>>::empty(),
    {
        PassDb { entries: Vec::new(), model: Ghost(Map::empty()) }
    }

    /// The index of the entry for `user`, if there is one.
    fn position(&self, user: &String) -> (r: Option<usize>)
        requires
            self.wf(),
        ensures
            match r {
                Some(i) => i < self.entries@.len() && self.key_at(i as int) == user@,
                None => !self@.contains_key(user@),
            },
    {
        let mut i: usize = 0;
        while i < self.entries.len()
            invariant
                self.wf(),
                i <= self.entries@.len(),
                forall|j: int| 0 <= j < i ==> self.key_at(j) != user@,
            decreases self.entries@.len() - i,
        {
            if self.entries[i].0 == *user {
                return Some(i);
            }
            i = i + 1;
        }
        None
    }

    /// The stored hash of `user_id`, if it is registered.
    pub fn find_hash(&self, user_id: &str) -> (r: Option<Vec<u8>>)
        requires
            self.wf(),
        ensures
            match r {
                Some(h) => self@.contains_key(user_id@) && h@ == self@[user_id@],
                None => !self@.contains_key(user_id@),
            },
    {
        let user = String::from_str(user_id);
        match self.position(&user) {
            Some(i) => Some(self.entries[i].1.clone()),
            None => None,
        }
    }

    /// Stores `hash` for `user_id`, replacing any earlier hash.
    pub fn insert(&mut self, user_id: &str, hash: Vec<u8>)
        requires
            old(self).wf(),
        ensures
            final(self).wf(),
            final(self)@ == old(self)@.insert(user_id@, hash@),
            old(self)@.contains_key(user_id@) ==> final(self).users() == old(self).users(),
            !old(self)@.contains_key(user_id@) ==> final(self).users() == old(self).users().push(
                user_id@,
            ),
    {
        let user = String::from_str(user_id);
        let ghost new_model = self.model@.insert(user_id@, hash@);
        let ghost pos: int;
        match self.position(&user) {
            Some(i) => {
                self.entries.set(i, (user, hash));
                proof {
                    pos = i as int;
                }
            },
            None => {
                self.entries.push((user, hash));
                proof {
                    pos = self.entries@.len() - 1;
                }
            },
        }
        self.model = Ghost(new_model);
        assert(self.key_at(pos) == user_id@);
        assert forall|j: int| 0 <= j < self.entries@.len() && j != pos implies {
            &&& self.key_at(j) == old(self).key_at(j)
            &&& self.key_at(j) != user_id@
            &&& self.entries@[j].1@ == old(self).entries@[j].1@
        } by {
            assert(old(self).model@.contains_key(old(self).key_at(j)));
            if pos < old(self).entries@.len() {
                assert(old(self).key_at(j) != old(self).key_at(pos));
            }
        }
        assert forall|a: int, b: int|
            0 <= a < b < self.entries@.len() implies #[trigger] self.key_at(a)
            != #[trigger] self.key_at(b) by {
            if a != pos && b != pos {
                assert(old(self).key_at(a) != old(self).key_at(b));
            }
        }
        assert forall|k: Seq<char>| #[trigger] self.model@.contains_key(k) implies exists|i: int|
            0 <= i < self.entries@.len() && #[trigger] self.key_at(i) == k by {
            if k == user_id@ {
                assert(self.key_at(pos) == k);
            } else {
                let j = choose|j: int| 0 <= j < old(self).entries@.len() && old(self).key_at(j) == k;
                assert(self.key_at(j) == k);
            }
        }
    }

    /// Removes `user_id`; nothing happens when it is not registered.
    pub fn remove(&mut self, user_id: &str)
        requires
            old(self).wf(),
        ensures
            final(self).wf(),
            final(self)@ == old(self)@.remove(user_id@),
            !old(self)@.contains_key(user_id@) ==> final(self).users() == old(self).users(),
            old(self)@.contains_key(user_id@) ==> exists|i: int|
                0 <= i < old(self).users().len() && old(self).users()[i] == user_id@
                    && final(self).users() == old(self).users().remove(i),
    {
        let user = String::from_str(user_id);
        match self.position(&user) {
            Some(i) => {
                let ghost before = self.entries@;
                self.entries.remove(i);
                self.model = Ghost(self.model@.remove(user_id@));
                assert(self.users() =~= old(self).users().remove(i as int));
                assert(old(self).users()[i as int] == user_id@);
                assert forall|j: int| 0 <= j < self.entries@.len() implies {
                    &&& self.key_at(j) == old(self).key_at(if j < i { j } else { j + 1 })
                    &&& self.entries@[j].1@ == before[if j < i { j } else { j + 1 }].1@
                } by {}
                assert forall|a: int, b: int|
                    0 <= a < b < self.entries@.len() implies #[trigger] self.key_at(a)
                    != #[trigger] self.key_at(b) by {
                    assert(old(self).key_at(if a < i { a } else { a + 1 }) != old(self).key_at(
                        if b < i { b } else { b + 1 },
                    ));
                }
                assert forall|j: int| 0 <= j < self.entries@.len() implies {
                    &&& self.model@.contains_key(#[trigger] self.key_at(j))
                    &&& self.model@[self.key_at(j)] == self.entries@[j].1@
                } by {
                    let o = if j < i { j } else { j + 1 };
                    assert(old(self).key_at(o) != old(self).key_at(i as int));
                }
                assert forall|k: Seq<char>| #[trigger] self.model@.contains_key(k) implies exists|j: int|
                    0 <= j < self.entries@.len() && #[trigger] self.key_at(j) == k by {
                    let j = choose|j: int| 0 <= j < before.len() && old(self).key_at(j) == k;
                    if j < i {
                        assert(self.key_at(j) == k);
                    } else {
                        assert(self.key_at(j - 1) == k);
                    }
                }
            },
            None => {
                assert(self.model@.remove(user_id@) =~= self.model@);
            },
        }
    }

    /// The registered identities, each once.
    pub fn list_users(&self) -> (r: Vec<String>)
        requires
            self.wf(),
        ensures
            r@.len() == self.users().len(),
            forall|i: int| 0 <= i < r@.len() ==> #[trigger] r@[i]@ == self.users()[i],
            forall|i: int| 0 <= i < r@.len() ==> self@.contains_key(#[trigger] r@[i]@),
            forall|k: Seq<char>| #[trigger] self@.contains_key(k) ==> exists|i: int|
                0 <= i < r@.len() && #[trigger] r@[i]@ == k,
            forall|i: int, j: int| 0 <= i < j < r@.len() ==> #[trigger] r@[i]@ != #[trigger] r@[j]@,
    {
        let mut r: Vec<String> = Vec::new();
        let mut i: usize = 0;
        while i < self.entries.len()
            invariant
                self.wf(),
                i <= self.entries@.len(),
                r@.len() == i,
                forall|j: int| 0 <= j < i ==> #[trigger] r@[j]@ == self.key_at(j),
            decreases self.entries@.len() - i,
        {
            r.push(self.entries[i].0.clone());
            i = i + 1;
        }
        assert forall|k: Seq<char>| #[trigger] self@.contains_key(k) implies exists|i: int|
            0 <= i < r@.len() && #[trigger] r@[i]@ == k by {
            let j = choose|j: int| 0 <= j < self.entries@.len() && self.key_at(j) == k;
            assert(r@[j]@ == k);
        }
        assert forall|i: int, j: int| 0 <= i < j < r@.len() implies #[trigger] r@[i]@ != #[trigger] r@[j]@ by {
            assert(self.key_at(i) != self.key_at(j));
        }
        r
    }
}

/// After `insert(u, h)`, `find_hash(u)` returns exactly `h`.
pub proof fn lemma_insert_then_find(db: &PassDb, user_id: Seq<char>, hash: Seq<u8>)
    ensures
        db@.insert(user_id, hash).contains_key(user_id),
        db@.insert(user_id, hash)[user_id] == hash,
{
}

/// After `remove(u)`, `find_hash(u)` finds nothing, and removing again changes
/// nothing.
pub proof fn lemma_remove_then_find(db: &PassDb, user_id: Seq<char>)
    ensures
        !db@.remove(user_id).contains_key(user_id),
        db@.remove(user_id).remove(user_id) == db@.remove(user_id),
{
    assert(db@.remove(user_id).remove(user_id) =~= db@.remove(user_id));
}

} // verus!
