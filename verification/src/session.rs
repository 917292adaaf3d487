//! The model of the session store: an opaque token bound to a user
//! identifier. Each token is bound at most once; logging in binds or
//! rebinds the caller's token, logging out removes it unconditionally.
//! (The real store also expires bindings after inactivity; expiry is the
//! store's own behavior and an expired binding simply looks absent here.)

use vstd::prelude::*;

verus! {

/// One binding: a session token and the user it stands for.
#[derive(Debug, Clone, Copy, PartialEq, Eq, Structural)]
pub struct SessionEntry {
    pub token: u128,
    pub user_id: u128,
}

/// Some entry carries this token.
pub open spec fn has_token(s: Seq<SessionEntry>, token: u128) -> bool {
    exists|i: int| 0 <= i < s.len() && (#[trigger] s[i]).token == token
}

/// The user bound to this token, if any (first match).
pub open spec fn token_lookup(s: Seq<SessionEntry>, token: u128) -> Option<u128>
    decreases s.len(),
{
    if s.len() == 0 {
        None
    } else if s[0].token == token {
        Some(s[0].user_id)
    } else {
        token_lookup(s.drop_first(), token)
    }
}

proof fn lemma_token_lookup_at(s: Seq<SessionEntry>, token: u128, i: int)
    requires
        0 <= i < s.len(),
        forall|j: int| 0 <= j < i ==> (#[trigger] s[j]).token != token,
        s[i].token == token,
    ensures
        token_lookup(s, token) == Some(s[i].user_id),
    decreases i,
{
    if i > 0 {
        lemma_token_lookup_at(s.drop_first(), token, i - 1);
    }
}

proof fn lemma_token_lookup_absent(s: Seq<SessionEntry>, token: u128)
    requires
        forall|j: int| 0 <= j < s.len() ==> (#[trigger] s[j]).token != token,
    ensures
        token_lookup(s, token) is None,
    decreases s.len(),
{
    if s.len() > 0 {
        lemma_token_lookup_absent(s.drop_first(), token);
    }
}

/// The session table.
#[derive(Debug, Clone)]
pub struct SessionStore {
    pub entries: Vec<SessionEntry>,
}

impl SessionStore {
    /// Tokens are bound at most once.
    pub open spec fn wf(self) -> bool {
        forall|i: int, j: int|
            #![trigger self.entries@[i], self.entries@[j]]
            0 <= i < j < self.entries@.len() ==> self.entries@[i].token != self.entries@[j].token
    }

    /// An empty store.
    pub fn new() -> (s: SessionStore)
        ensures
            s.wf(),
            s.entries@.len() == 0,
    {
        SessionStore { entries: Vec::new() }
    }

    /// The user this token stands for, if it is bound.
    pub fn get(&self, token: u128) -> (r: Option<u128>)
        ensures
            r == token_lookup(self.entries@, token),
    {
        let mut i: usize = 0;
        while i < self.entries.len()
            invariant
                i <= self.entries@.len(),
                forall|j: int| 0 <= j < i ==> (#[trigger] self.entries@[j]).token != token,
            decreases self.entries@.len() - i,
        {
            if self.entries[i].token == token {
                proof {
                    lemma_token_lookup_at(self.entries@, token, i as int);
                }
                return Some(self.entries[i].user_id);
            }
            i += 1;
        }
        proof {
            lemma_token_lookup_absent(self.entries@, token);
        }
        None
    }

    /// Binds this token to this user, replacing any earlier binding of
    /// the token.
    pub fn insert(&mut self, token: u128, user_id: u128)
        requires
            old(self).wf(),
        ensures
            final(self).wf(),
            token_lookup(final(self).entries@, token) == Some(user_id),
            has_token(old(self).entries@, token) ==> final(self).entries@.len() == old(self).entries@.len()
                && (forall|i: int| 0 <= i < old(self).entries@.len()
                    && (#[trigger] old(self).entries@[i]).token != token
                    ==> final(self).entries@[i] == old(self).entries@[i])
                && (forall|i: int| 0 <= i < old(self).entries@.len()
                    && (#[trigger] old(self).entries@[i]).token == token
                    ==> final(self).entries@[i] == SessionEntry { token, user_id }),
            !has_token(old(self).entries@, token) ==> final(self).entries@
                == old(self).entries@.push(SessionEntry { token, user_id }),
    {
        let n = self.entries.len();
        let mut i: usize = 0;
        while i < n
            invariant
                n == self.entries@.len(),
                i <= n,
                *self == *old(self),
                old(self).wf(),
                forall|j: int| 0 <= j < i ==> (#[trigger] self.entries@[j]).token != token,
            decreases n - i,
        {
            if self.entries[i].token == token {
                let e = &mut self.entries[i];
                *e = SessionEntry { token, user_id };
                proof {
                    let oe = old(self).entries@;
                    let ne = self.entries@;
                    assert forall|a: int, b: int|
                        #![trigger ne[a], ne[b]]
                        0 <= a < b < ne.len() implies ne[a].token != ne[b].token by {
                        assert(ne[a].token == oe[a].token && ne[b].token == oe[b].token);
                    }
                    lemma_token_lookup_at(ne, token, i as int);
                }
                return ;
            }
            i += 1;
        }
        self.entries.push(SessionEntry { token, user_id });
        proof {
            let ne = self.entries@;
            assert forall|a: int, b: int|
                #![trigger ne[a], ne[b]]
                0 <= a < b < ne.len() implies ne[a].token != ne[b].token by {
                if b == ne.len() - 1 {
                    assert(ne[a] == old(self).entries@[a]);
                }
            }
            lemma_token_lookup_at(ne, token, ne.len() - 1);
        }
    }

    /// Removes any binding of this token. Always succeeds; removing an
    /// unbound token changes nothing, so repeating the call is harmless.
    pub fn delete(&mut self, token: u128)
        requires
            old(self).wf(),
        ensures
            final(self).wf(),
            !has_token(final(self).entries@, token),
            token_lookup(final(self).entries@, token) is None,
            !has_token(old(self).entries@, token) ==> final(self).entries@ == old(self).entries@,
            has_token(old(self).entries@, token) ==> exists|k: int|
                0 <= k < old(self).entries@.len() && (#[trigger] old(self).entries@[k]).token == token
                    && final(self).entries@ == old(self).entries@.remove(k),
    {
        let n = self.entries.len();
        let mut i: usize = 0;
        while i < n
            invariant
                n == self.entries@.len(),
                i <= n,
                *self == *old(self),
                old(self).wf(),
                forall|j: int| 0 <= j < i ==> (#[trigger] self.entries@[j]).token != token,
            decreases n - i,
        {
            if self.entries[i].token == token {
                self.entries.remove(i);
                proof {
                    let oe = old(self).entries@;
                    let ne = self.entries@;
                    assert forall|a: int| 0 <= a < ne.len()
                        implies #[trigger] ne[a] == (if a < i as int { oe[a] } else { oe[a + 1] }) by {
                    }
                    assert forall|a: int, b: int|
                        #![trigger ne[a], ne[b]]
                        0 <= a < b < ne.len() implies ne[a].token != ne[b].token by {
                    }
                    assert forall|a: int| 0 <= a < ne.len() implies (#[trigger] ne[a]).token != token by {
                    }
                    lemma_token_lookup_absent(ne, token);
                }
                return ;
            }
            i += 1;
        }
        proof {
            lemma_token_lookup_absent(self.entries@, token);
        }
    }
}

} // verus!
