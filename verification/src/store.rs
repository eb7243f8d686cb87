//! In-memory model of the credential store: user records with their
//! one-time registration keys, and session tokens with their issuance
//! times. User identifiers and token values are unique, and every
//! operation of the store keeps them so.

use vstd::prelude::*;
use vstd::pervasive::VecAdditionalExecFns;

verus! {

/// A persisted user record. The credential material is opaque to this
/// core; the registration key, when present, is the one-time secret that
/// activates the account.
pub struct UserRecord {
    /// Unique identifier of the user.
    pub id: String,
    /// Opaque password or credential material.
    pub pwhash: String,
    /// One-time registration key; `None` once the account is activated.
    pub registration_key: Option<String>,
}

impl Clone for UserRecord {
    fn clone(&self) -> (r: Self)
        ensures
            r == *self,
    {
        UserRecord {
            id: self.id.clone(),
            pwhash: self.pwhash.clone(),
            registration_key: match &self.registration_key {
                Some(k) => Some(k.clone()),
                None => None,
            },
        }
    }
}

/// A session token: an opaque value bound to its owning user and to the
/// time it was issued. Its expiry is the issuance time plus the
/// configured lifetime.
pub struct SessionToken {
    /// Opaque token value held by the client.
    pub token: String,
    /// Identifier of the owning user.
    pub user: String,
    /// Issuance time, in milliseconds.
    pub issued_ms: u64,
}

impl Clone for SessionToken {
    fn clone(&self) -> (r: Self)
        ensures
            r == *self,
    {
        SessionToken { token: self.token.clone(), user: self.user.clone(), issued_ms: self.issued_ms }
    }
}

/// A token is valid exactly when the current time is strictly before its
/// expiry, the issuance time plus the configured lifetime.
pub open spec fn valid_at(t: SessionToken, now_ms: u64, lifetime_ms: u64) -> bool {
    (now_ms as int) < t.issued_ms + lifetime_ms
}

/// The validity test, free of overflow: a token issued after `now_ms` is
/// still valid, and an earlier one is valid while its age is below the
/// lifetime.
pub fn token_valid_at(t: &SessionToken, now_ms: u64, lifetime_ms: u64) -> (b: bool)
    ensures
        b == valid_at(*t, now_ms, lifetime_ms),
{
    if t.issued_ms > now_ms {
        true
    } else {
        now_ms - t.issued_ms < lifetime_ms
    }
}

/// The predicate a purge cycle keeps tokens by: validity at purge time.
pub open spec fn valid_pred(now_ms: u64, lifetime_ms: u64) -> spec_fn(SessionToken) -> bool {
    |t: SessionToken| valid_at(t, now_ms, lifetime_ms)
}

/// The credential store: every user record and every live session token.
pub struct Store {
    /// All user records, with pairwise distinct identifiers.
    pub users: Vec<UserRecord>,
    /// All session tokens, with pairwise distinct token values.
    pub tokens: Vec<SessionToken>,
}

/// Some record carries the given user identifier.
pub open spec fn has_user(s: Store, uid: Seq<char>) -> bool {
    exists|i: int| 0 <= i < s.users@.len() && s.users@[i].id@ == uid
}

/// Some token carries the given value, whether or not it is still valid.
pub open spec fn has_token(s: Store, tok: Seq<char>) -> bool {
    exists|i: int| 0 <= i < s.tokens@.len() && s.tokens@[i].token@ == tok
}

/// Some token carries the given value and is valid at the given time.
pub open spec fn has_valid_token(s: Store, tok: Seq<char>, now_ms: u64, lifetime_ms: u64) -> bool {
    exists|i: int|
        0 <= i < s.tokens@.len() && s.tokens@[i].token@ == tok && valid_at(
            s.tokens@[i],
            now_ms,
            lifetime_ms,
        )
}

/// Some token carries the given value, is valid at the given time, and is
/// owned by the given user.
pub open spec fn token_resolves_to(
    s: Store,
    tok: Seq<char>,
    now_ms: u64,
    lifetime_ms: u64,
    uid: Seq<char>,
) -> bool {
    exists|i: int|
        0 <= i < s.tokens@.len() && s.tokens@[i].token@ == tok && valid_at(
            s.tokens@[i],
            now_ms,
            lifetime_ms,
        ) && s.tokens@[i].user@ == uid
}

/// The tokens that survive a purge cycle run at `now_ms`: exactly the
/// valid ones, in their stored order.
pub open spec fn purged_tokens(s: Store, now_ms: u64, lifetime_ms: u64) -> Seq<SessionToken> {
    s.tokens@.filter(valid_pred(now_ms, lifetime_ms))
}

impl Store {
    /// User identifiers and token values are unique across the store.
    pub open spec fn wf(self) -> bool {
        &&& forall|i: int, j: int|
            0 <= i < j < self.users@.len() ==> self.users@[i].id@ != self.users@[j].id@
        &&& forall|i: int, j: int|
            0 <= i < j < self.tokens@.len() ==> self.tokens@[i].token@ != self.tokens@[j].token@
    }

    /// A freshly initialized store holds no users and no tokens.
    pub fn new() -> (s: Store)
        ensures
            s.wf(),
            s.users@.len() == 0,
            s.tokens@.len() == 0,
    {
        Store { users: Vec::new(), tokens: Vec::new() }
    }

    /// Index of the record with the given identifier, if any.
    pub(crate) fn user_index(&self, uid: &String) -> (r: Option<usize>)
        ensures
            match r {
                Some(i) => i < self.users@.len() && self.users@[i as int].id@ == uid@,
                None => !has_user(*self, uid@),
            },
    {
        let mut i: usize = 0;
        while i < self.users.len()
            invariant
                i <= self.users@.len(),
                forall|j: int| 0 <= j < i ==> self.users@[j].id@ != uid@,
            decreases self.users@.len() - i,
        {
            if self.users[i].id == *uid {
                return Some(i);
            }
            i += 1;
        }
        None
    }

    /// Index of the token with the given value, if any.
    fn token_index(&self, token: &String) -> (r: Option<usize>)
        ensures
            match r {
                Some(i) => i < self.tokens@.len() && self.tokens@[i as int].token@ == token@,
                None => !has_token(*self, token@),
            },
    {
        let mut i: usize = 0;
        while i < self.tokens.len()
            invariant
                i <= self.tokens@.len(),
                forall|j: int| 0 <= j < i ==> self.tokens@[j].token@ != token@,
            decreases self.tokens@.len() - i,
        {
            if self.tokens[i].token == *token {
                return Some(i);
            }
            i += 1;
        }
        None
    }

    /// Read the record of the given user, or report that none exists. The
    /// store is untouched.
    pub fn read_user(&self, uid: &String) -> (r: Option<UserRecord>)
        ensures
            match r {
                Some(u) => u.id@ == uid@ && self.users@.contains(u),
                None => !has_user(*self, uid@),
            },
    {
        match self.user_index(uid) {
            Some(i) => {
                let u = self.users[i].clone();
                proof {
                    assert(self.users@[i as int] == u);
                }
                Some(u)
            },
            None => None,
        }
    }

    /// Replace the stored record that carries `u`'s identifier, returning
    /// whether one existed; without one the store is unchanged.
    pub fn update_user(&mut self, u: &UserRecord) -> (found: bool)
        requires
            old(self).wf(),
        ensures
            final(self).wf(),
            found == has_user(*old(self), u.id@),
            final(self).tokens@ == old(self).tokens@,
            !found ==> final(self).users@ == old(self).users@,
            found ==> exists|i: int|
                0 <= i < old(self).users@.len() && old(self).users@[i].id@ == u.id@
                    && final(self).users@ == old(self).users@.update(i, *u),
    {
        match self.user_index(&u.id) {
            Some(i) => {
                self.users.set(i, u.clone());
                true
            },
            None => false,
        }
    }

    /// Create a record, refusing a duplicate identifier; tokens are
    /// untouched either way.
    pub fn add_user(&mut self, user: UserRecord) -> (added: bool)
        requires
            old(self).wf(),
        ensures
            final(self).wf(),
            added == !has_user(*old(self), user.id@),
            final(self).tokens@ == old(self).tokens@,
            added ==> final(self).users@ == old(self).users@.push(user),
            !added ==> final(self).users@ == old(self).users@,
    {
        match self.user_index(&user.id) {
            Some(_) => false,
            None => {
                self.users.push(user);
                true
            },
        }
    }

    /// Issue a session token, refusing a duplicate token value; user
    /// records are untouched either way.
    pub fn add_token(&mut self, token: String, user: String, issued_ms: u64) -> (added: bool)
        requires
            old(self).wf(),
        ensures
            final(self).wf(),
            added == !has_token(*old(self), token@),
            final(self).users@ == old(self).users@,
            added ==> final(self).tokens@ == old(self).tokens@.push(
                (SessionToken { token, user, issued_ms }),
            ),
            !added ==> final(self).tokens@ == old(self).tokens@,
    {
        match self.token_index(&token) {
            Some(_) => false,
            None => {
                self.tokens.push(SessionToken { token, user, issued_ms });
                true
            },
        }
    }

    /// Resolve a session token to the identity that owns it, or report no
    /// identity: a missing, unknown or expired token is never an error.
    /// The store is untouched.
    pub fn resolve_token(&self, token: &String, now_ms: u64, lifetime_ms: u64) -> (r: Option<
        String,
    >)
        ensures
            r is Some <==> has_valid_token(*self, token@, now_ms, lifetime_ms),
            r matches Some(uid) ==> token_resolves_to(*self, token@, now_ms, lifetime_ms, uid@),
    {
        let mut i: usize = 0;
        while i < self.tokens.len()
            invariant
                i <= self.tokens@.len(),
                forall|j: int|
                    0 <= j < i ==> !(self.tokens@[j].token@ == token@ && valid_at(
                        self.tokens@[j],
                        now_ms,
                        lifetime_ms,
                    )),
            decreases self.tokens@.len() - i,
        {
            if self.tokens[i].token == *token {
                if token_valid_at(&self.tokens[i], now_ms, lifetime_ms) {
                    return Some(self.tokens[i].user.clone());
                }
            }
            i += 1;
        }
        None
    }

    /// One purge cycle: delete every token whose expiry is not after
    /// `now_ms`, keep every valid one in order, and report how many were
    /// deleted. User records are untouched.
    pub fn purge_expired(&mut self, now_ms: u64, lifetime_ms: u64) -> (removed: usize)
        requires
            old(self).wf(),
        ensures
            final(self).wf(),
            final(self).users@ == old(self).users@,
            final(self).tokens@ == purged_tokens(*old(self), now_ms, lifetime_ms),
            removed + final(self).tokens@.len() == old(self).tokens@.len(),
    {
        let mut kept: Vec<SessionToken> = Vec::new();
        let mut i: usize = 0;
        while i < self.tokens.len()
            invariant
                self.wf(),
                i <= self.tokens@.len(),
                kept@ == self.tokens@.take(i as int).filter(valid_pred(now_ms, lifetime_ms)),
                kept@.len() <= i,
                forall|a: int, b: int|
                    0 <= a < b < kept@.len() ==> kept@[a].token@ != kept@[b].token@,
                forall|a: int|
                    0 <= a < kept@.len() ==> exists|m: int|
                        0 <= m < i && self.tokens@[m].token@ == (#[trigger] kept@[a]).token@,
            decreases self.tokens@.len() - i,
        {
            proof {
                assert(self.tokens@.take(i + 1) =~= self.tokens@.take(i as int).push(
                    self.tokens@[i as int],
                ));
                lemma_filter_push(self.tokens@.take(i as int), self.tokens@[i as int], valid_pred(now_ms, lifetime_ms));
                assert(valid_pred(now_ms, lifetime_ms)(self.tokens@[i as int]) == valid_at(
                    self.tokens@[i as int],
                    now_ms,
                    lifetime_ms,
                ));
                assert forall|a: int|
                    0 <= a < kept@.len() implies kept@[a].token@ != self.tokens@[
                    i as int
                ].token@ by {
                    let m = choose|m: int|
                        0 <= m < i && self.tokens@[m].token@ == (#[trigger] kept@[a]).token@;
                    assert(self.tokens@[m].token@ != self.tokens@[i as int].token@);
                }
            }
            if token_valid_at(&self.tokens[i], now_ms, lifetime_ms) {
                kept.push(self.tokens[i].clone());
            }
            i += 1;
        }
        proof {
            assert(self.tokens@.take(self.tokens@.len() as int) =~= self.tokens@);
        }
        let removed: usize = self.tokens.len() - kept.len();
        self.tokens = kept;
        removed
    }
}

/// After one purge cycle, every token whose expiry lay in the past at
/// purge time is absent from the store, and every token valid at purge
/// time — among them any issued after the cycle began — is untouched.
pub proof fn law_purge_removes_exactly_expired(
    pre: Store,
    post: Store,
    now_ms: u64,
    lifetime_ms: u64,
)
    requires
        post.tokens@ == purged_tokens(pre, now_ms, lifetime_ms),
    ensures
        forall|k: int|
            0 <= k < post.tokens@.len() ==> valid_at(
                #[trigger] post.tokens@[k],
                now_ms,
                lifetime_ms,
            ),
        forall|k: int|
            0 <= k < pre.tokens@.len() && valid_at(#[trigger] pre.tokens@[k], now_ms, lifetime_ms)
                ==> post.tokens@.contains(pre.tokens@[k]),
{
    assert forall|k: int|
        0 <= k < post.tokens@.len() implies valid_at(
        #[trigger] post.tokens@[k],
        now_ms,
        lifetime_ms,
    ) by {
        pre.tokens@.lemma_filter_pred(valid_pred(now_ms, lifetime_ms), k);
    }
    assert forall|k: int|
        0 <= k < pre.tokens@.len() && valid_at(
            #[trigger] pre.tokens@[k],
            now_ms,
            lifetime_ms,
        ) implies post.tokens@.contains(pre.tokens@[k]) by {
        pre.tokens@.lemma_filter_contains(valid_pred(now_ms, lifetime_ms), k);
    }
}

/// Purging is idempotent: a second purge cycle at the same time, with no
/// intervening issuance, deletes zero tokens and leaves the store as the
/// first cycle left it.
pub proof fn law_purge_idempotent(pre: Store, mid: Store, now_ms: u64, lifetime_ms: u64)
    requires
        mid.tokens@ == purged_tokens(pre, now_ms, lifetime_ms),
    ensures
        purged_tokens(mid, now_ms, lifetime_ms) == mid.tokens@,
{
    assert forall|k: int|
        0 <= k < mid.tokens@.len() implies valid_pred(now_ms, lifetime_ms)(
        #[trigger] mid.tokens@[k],
    ) by {
        pre.tokens@.lemma_filter_pred(valid_pred(now_ms, lifetime_ms), k);
    }
    lemma_filter_all_true(mid.tokens@, valid_pred(now_ms, lifetime_ms));
}

/// Filtering keeps a sequence whole when the predicate holds everywhere.
proof fn lemma_filter_all_true<A>(s: Seq<A>, pred: spec_fn(A) -> bool)
    requires
        forall|k: int| 0 <= k < s.len() ==> pred(#[trigger] s[k]),
    ensures
        s.filter(pred) == s,
    decreases s.len(),
{
    reveal(Seq::filter);
    if s.len() == 0 {
        assert(s.filter(pred) =~= s);
    } else {
        assert forall|k: int| 0 <= k < s.drop_last().len() implies pred(
            #[trigger] s.drop_last()[k],
        ) by {
            assert(s.drop_last()[k] == s[k]);
        }
        lemma_filter_all_true(s.drop_last(), pred);
        assert(pred(s.last()));
        assert(s.filter(pred) =~= s);
    }
}

/// Filtering a sequence extended by one element keeps the element exactly
/// when the predicate holds of it.
proof fn lemma_filter_push<A>(s: Seq<A>, x: A, pred: spec_fn(A) -> bool)
    ensures
        s.push(x).filter(pred) == if pred(x) {
            s.filter(pred).push(x)
        } else {
            s.filter(pred)
        },
{
    reveal(Seq::filter);
    assert(s.push(x).drop_last() =~= s);
    assert(s.push(x).last() == x);
}

} // verus!
