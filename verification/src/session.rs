//! Sessions: the cache key of a token, and a store that maps keys to user ids
//! until they expire.

use vstd::prelude::*;

verus! {

/// The prefix of every session key.
pub open spec fn key_prefix() -> Seq<char> {
    seq!['s', 'e', 's', 's', 'i', 'o', 'n', ':']
}

/// The cache key under which the session of `token` is kept.
pub open spec fn session_key(token: Seq<char>) -> Seq<char> {
    key_prefix() + token
}

/// The moment at which a session that was stored at `now` for `ttl` seconds
/// ends; it stops at the largest moment that can be written.
pub open spec fn expiry(now: u64, ttl: u64) -> u64 {
    if now + ttl > u64::MAX {
        u64::MAX
    } else {
        (now + ttl) as u64
    }
}

/// The user of the session kept under `key`, if there is one that has not
/// ended at `now`.
pub open spec fn live_user(sessions: Map<Seq<char>, (i32, u64)>, key: Seq<char>, now: u64) -> Option<
    i32,
> {
    if sessions.contains_key(key) && now < sessions[key].1 {
        Some(sessions[key].0)
    } else {
        None
    }
}

/// The cache key under which the session of `token` is kept.
pub fn session_key_of(token: &str) -> (key: String)
    ensures
        key@ == session_key(token@),
{
    proof {
        reveal_strlit("session:");
        assert("session:"@ =~= key_prefix());
    }
    let mut key = String::from_str("session:");
    key.append(token);
    key
}

/// Two tokens have the same key only if they are the same token.
pub proof fn lemma_session_key_injective(a: Seq<char>, b: Seq<char>)
    requires
        session_key(a) == session_key(b),
    ensures
        a == b,
{
    assert(session_key(a).subrange(8, session_key(a).len() as int) =~= a);
    assert(session_key(b).subrange(8, session_key(b).len() as int) =~= b);
}

/// Storing twice under one key overwrites: the store is what the second
/// call alone would have made of it, it holds the key once, and a lookup
/// answers with the second user while that session lasts. Storing the same
/// session twice is storing it once.
pub proof fn lemma_put_overwrites(
    sessions: Map<Seq<char>, (i32, u64)>,
    token: Seq<char>,
    first: (i32, u64),
    second: (i32, u64),
    now: u64,
)
    ensures
        sessions.insert(session_key(token), first).insert(session_key(token), second)
            == sessions.insert(session_key(token), second),
        sessions.insert(session_key(token), first).insert(session_key(token), first)
            == sessions.insert(session_key(token), first),
        sessions.insert(session_key(token), first).insert(session_key(token), second).dom()
            == sessions.dom().insert(session_key(token)),
        live_user(
            sessions.insert(session_key(token), first).insert(session_key(token), second),
            session_key(token),
            now,
        ) == (if now < second.1 {
            Some(second.0)
        } else {
            None
        }),
{
    let key = session_key(token);
    assert(sessions.insert(key, first).insert(key, second) =~= sessions.insert(key, second));
    assert(sessions.insert(key, first).insert(key, first) =~= sessions.insert(key, first));
    assert(sessions.insert(key, first).insert(key, second).dom() =~= sessions.dom().insert(key));
}

/// A session that is stored for one token leaves the session of every other
/// token as it was.
pub proof fn lemma_put_keeps_others(
    sessions: Map<Seq<char>, (i32, u64)>,
    token: Seq<char>,
    other: Seq<char>,
    session: (i32, u64),
    now: u64,
)
    requires
        token != other,
    ensures
        live_user(sessions.insert(session_key(token), session), session_key(other), now)
            == live_user(sessions, session_key(other), now),
{
    if session_key(token) == session_key(other) {
        lemma_session_key_injective(token, other);
    }
}

/// One stored session.
struct Session {
    key: String,
    user_id: i32,
    expires_at: u64,
}

/// A session store in memory. Moments are seconds on a clock of the caller's
/// choice, handed in with each call. A session that has ended is no longer
/// found; nothing sweeps it away.
pub struct SessionStore {
    entries: Vec<Session>,
}

impl SessionStore {
    /// No key is stored twice.
    pub closed spec fn well_formed(&self) -> bool {
        forall|i: int, j: int|
            0 <= i < self.entries@.len() && 0 <= j < self.entries@.len() && i != j
                ==> self.entries@[i].key@ != self.entries@[j].key@
    }

    spec fn holds_at(&self, i: int, key: Seq<char>) -> bool {
        0 <= i < self.entries@.len() && self.entries@[i].key@ == key
    }

    /// The store as a map from session key to user id and moment of expiry.
    pub closed spec fn view(&self) -> Map<Seq<char>, (i32, u64)> {
        Map::new(
            |key: Seq<char>| exists|i: int| self.holds_at(i, key),
            |key: Seq<char>|
                {
                    let i = choose|i: int| self.holds_at(i, key);
                    (self.entries@[i].user_id, self.entries@[i].expires_at)
                },
        )
    }

    proof fn lemma_entry_in_view(&self, i: int)
        requires
            self.well_formed(),
            0 <= i < self.entries@.len(),
        ensures
            self@.contains_key(self.entries@[i].key@),
            self@[self.entries@[i].key@] == (self.entries@[i].user_id, self.entries@[i].expires_at),
    {
        let key = self.entries@[i].key@;
        assert(self.holds_at(i, key));
        let j = choose|j: int| self.holds_at(j, key);
        assert(self.holds_at(j, key));
        assert(i == j);
    }

    /// An empty store.
    pub fn new() -> (store: SessionStore)
        ensures
            store.well_formed(),
            store@ == Map::<Seq<char>, (i32, u64)>::empty(),
    {
        let store = SessionStore { entries: Vec::new() };
        proof {
            assert forall|key: Seq<char>| !store@.contains_key(key) by {
                if store@.contains_key(key) {
                    let i = choose|i: int| store.holds_at(i, key);
                    assert(store.holds_at(i, key));
                }
            }
            assert(store@ =~= Map::<Seq<char>, (i32, u64)>::empty());
        }
        store
    }

    fn position(&self, key: &String) -> (r: Option<usize>)
        requires
            self.well_formed(),
        ensures
            r matches Some(i) ==> self.holds_at(i as int, key@),
            r is None ==> !self@.contains_key(key@),
    {
        let mut i: usize = 0;
        while i < self.entries.len()
            invariant
                i <= self.entries@.len(),
                forall|j: int| 0 <= j < i ==> !self.holds_at(j, key@),
            decreases self.entries@.len() - i,
        {
            if self.entries[i].key == *key {
                return Some(i);
            }
            i = i + 1;
        }
        proof {
            if self@.contains_key(key@) {
                let j = choose|j: int| self.holds_at(j, key@);
                assert(self.holds_at(j, key@));
            }
        }
        None
    }

    /// Stores the session of `token` for `user_id`, to end `ttl` seconds after
    /// `now`. A session that was stored for the same token is overwritten;
    /// every other session stays as it was.
    pub fn put(&mut self, token: &str, user_id: i32, ttl: u64, now: u64)
        requires
            old(self).well_formed(),
        ensures
            final(self).well_formed(),
            final(self)@ == old(self)@.insert(session_key(token@), (user_id, expiry(now, ttl))),
    {
        let key = session_key_of(token);
        let expires_at = if ttl > u64::MAX - now {
            u64::MAX
        } else {
            now + ttl
        };
        let ghost before = *self;
        let ghost k = key@;
        let ghost at: int;
        match self.position(&key) {
            Some(i) => {
                self.entries[i] = Session { key, user_id, expires_at };
                proof {
                    at = i as int;
                    assert forall|j: int, key2: Seq<char>|
                        self.holds_at(j, key2) <==> before.holds_at(j, key2) by {
                        if 0 <= j < before.entries@.len() && j != i {
                            assert(self.entries@[j] == before.entries@[j]);
                        }
                    }
                    assert forall|a: int, b: int|
                        0 <= a < self.entries@.len() && 0 <= b < self.entries@.len() && a != b
                        implies self.entries@[a].key@ != self.entries@[b].key@ by {
                        assert(self.holds_at(a, self.entries@[a].key@));
                        assert(self.holds_at(b, self.entries@[b].key@));
                        assert(before.entries@[a].key@ != before.entries@[b].key@);
                    }
                }
            },
            None => {
                self.entries.push(Session { key, user_id, expires_at });
                proof {
                    at = before.entries@.len() as int;
                    assert forall|j: int, key2: Seq<char>|
                        self.holds_at(j, key2) <==> (before.holds_at(j, key2) || (j == at && key2
                            == k)) by {
                        if 0 <= j < at {
                            assert(self.entries@[j] == before.entries@[j]);
                        }
                    }
                    assert forall|a: int, b: int|
                        0 <= a < self.entries@.len() && 0 <= b < self.entries@.len() && a != b
                        implies self.entries@[a].key@ != self.entries@[b].key@ by {
                        if a == at {
                            assert(!before.holds_at(b, k));
                        } else if b == at {
                            assert(!before.holds_at(a, k));
                        } else {
                            assert(self.entries@[a] == before.entries@[a]);
                            assert(self.entries@[b] == before.entries@[b]);
                        }
                    }
                }
            },
        }
        proof {
            let want = before@.insert(k, (user_id, expires_at));
            assert(self.holds_at(at, k));
            assert(self.well_formed());
            self.lemma_entry_in_view(at);
            assert forall|key2: Seq<char>| self@.contains_key(key2) == want.contains_key(key2) by {
                if self@.contains_key(key2) && key2 != k {
                    let j = choose|j: int| self.holds_at(j, key2);
                    assert(self.holds_at(j, key2));
                    assert(before.holds_at(j, key2));
                }
                if before@.contains_key(key2) && key2 != k {
                    let j = choose|j: int| before.holds_at(j, key2);
                    assert(before.holds_at(j, key2));
                    assert(self.holds_at(j, key2));
                }
            }
            assert forall|key2: Seq<char>| self@.contains_key(key2) implies self@[key2]
                == want[key2] by {
                if key2 != k {
                    let j = choose|j: int| self.holds_at(j, key2);
                    assert(self.holds_at(j, key2));
                    assert(before.holds_at(j, key2));
                    assert(j != at);
                    assert(self.entries@[j] == before.entries@[j]);
                    self.lemma_entry_in_view(j);
                    before.lemma_entry_in_view(j);
                }
            }
            assert(self@ =~= want);
        }
    }

    /// The user of the session of `token`, if one is stored and has not ended
    /// at `now`. A token without a session is an ordinary `None`.
    pub fn get(&self, token: &str, now: u64) -> (r: Option<i32>)
        requires
            self.well_formed(),
        ensures
            r == live_user(self@, session_key(token@), now),
    {
        let key = session_key_of(token);
        match self.position(&key) {
            Some(i) => {
                proof {
                    self.lemma_entry_in_view(i as int);
                }
                if now < self.entries[i].expires_at {
                    Some(self.entries[i].user_id)
                } else {
                    None
                }
            },
            None => None,
        }
    }
}

} // verus!
