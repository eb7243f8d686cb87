//! One-time registration handshake: a (user identifier, registration key)
//! pair taken from a URL path either activates the account — clearing the
//! stored key so it can never be used again — or earns one generic
//! failure, the same for a missing user and for a mismatched key.

use vstd::prelude::*;
use vstd::pervasive::VecAdditionalExecFns;
use vstd::string::StringExecFns;
use crate::store::{Store, UserRecord, has_user};

verus! {

/// Outcome of a registration attempt.
#[derive(Clone, Copy, PartialEq, Eq, Structural, Debug)]
pub enum RegistrationOutcome {
    /// The key matched the stored one and the account is now active.
    Registered,
    /// The user is unknown, the key does not match, or the key was
    /// already consumed: one generic failure for every cause.
    Failed,
}

/// The supplied key matches the stored one-time registration key of the
/// given user.
pub open spec fn registration_matches(s: Store, uid: Seq<char>, key: Seq<char>) -> bool {
    exists|i: int|
        0 <= i < s.users@.len() && s.users@[i].id@ == uid && (s.users@[i].registration_key matches
        Some(k) && k@ == key)
}

/// The outcome a registration attempt owes on the given store and pair.
pub open spec fn registration_outcome(s: Store, uid: Seq<char>, key: Seq<char>)
    -> RegistrationOutcome {
    if registration_matches(s, uid, key) {
        RegistrationOutcome::Registered
    } else {
        RegistrationOutcome::Failed
    }
}

/// One record after the clear step: the registration key is gone, the
/// identifier and the credential material are untouched.
pub open spec fn cleared(u: UserRecord) -> UserRecord {
    (UserRecord { id: u.id, pwhash: u.pwhash, registration_key: None })
}

/// A matching pair names an existing user.
pub proof fn lemma_matches_implies_user(s: Store, uid: Seq<char>, key: Seq<char>)
    requires
        registration_matches(s, uid, key),
    ensures
        has_user(s, uid),
{
    let i = choose|i: int|
        0 <= i < s.users@.len() && s.users@[i].id@ == uid && (s.users@[i].registration_key matches
        Some(k) && k@ == key);
    assert(0 <= i < s.users@.len() && s.users@[i].id@ == uid);
}

/// The registration handshake: one atomic compare-and-clear against the
/// credential record. On a match the stored key is cleared in the same
/// step, so a concurrent second attempt observes the cleared key and
/// fails closed; on a missing user or a mismatched key the store is
/// untouched and the one generic failure is returned. Session tokens are
/// never touched.
pub fn register(store: &mut Store, uid: &String, key: &String) -> (r: RegistrationOutcome)
    requires
        old(store).wf(),
    ensures
        final(store).wf(),
        r == registration_outcome(*old(store), uid@, key@),
        final(store).tokens@ == old(store).tokens@,
        !registration_matches(*old(store), uid@, key@) ==> final(store).users@
            == old(store).users@,
        registration_matches(*old(store), uid@, key@) ==> exists|i: int|
            0 <= i < old(store).users@.len() && old(store).users@[i].id@ == uid@
                && final(store).users@ == old(store).users@.update(i, cleared(old(store).users@[i])),
{
    let idx = store.user_index(uid);
    match idx {
        None => {
            proof {
                if registration_matches(*store, uid@, key@) {
                    lemma_matches_implies_user(*store, uid@, key@);
                }
            }
            RegistrationOutcome::Failed
        },
        Some(i) => {
            let key_matches: bool = match &store.users[i].registration_key {
                Some(k) => *k == *key,
                None => false,
            };
            if key_matches {
                let id2 = store.users[i].id.clone();
                let pw2 = store.users[i].pwhash.clone();
                store.users.set(i, UserRecord { id: id2, pwhash: pw2, registration_key: None });
                RegistrationOutcome::Registered
            } else {
                proof {
                    if registration_matches(*store, uid@, key@) {
                        let j = choose|j: int|
                            0 <= j < store.users@.len() && store.users@[j].id@ == uid@ && (
                            store.users@[j].registration_key matches Some(k) && k@ == key@);
                        assert(j == i);
                    }
                }
                RegistrationOutcome::Failed
            }
        },
    }
}

/// The page shown on a successful registration, linking to the main site.
pub open spec fn spec_success_page(mainsite: Seq<char>) -> Seq<char> {
    "<h1>You are registered!<h1> <a href=\""@ + mainsite + "\">Proceed to the main site</a>"@
}

/// The one generic failure page: a missing user, a mismatched key and a
/// consumed key all earn exactly this text.
pub open spec fn spec_failure_page() -> Seq<char> {
    "<h1>registration failed</h1>"@
}

/// The page owed for an outcome.
pub open spec fn spec_registration_page(r: RegistrationOutcome, mainsite: Seq<char>) -> Seq<
    char,
> {
    match r {
        RegistrationOutcome::Registered => spec_success_page(mainsite),
        RegistrationOutcome::Failed => spec_failure_page(),
    }
}

/// Render the registration reply as a short HTML fragment.
pub fn registration_page(r: RegistrationOutcome, mainsite: &String) -> (page: String)
    ensures
        page@ == spec_registration_page(r, mainsite@),
{
    match r {
        RegistrationOutcome::Registered => {
            let s = "<h1>You are registered!<h1> <a href=\"".to_owned();
            let s = s.concat(mainsite.as_str());
            s.concat("\">Proceed to the main site</a>")
        },
        RegistrationOutcome::Failed => "<h1>registration failed</h1>".to_owned(),
    }
}

/// A registration key is consumed by its first successful use: once a
/// matching attempt has cleared it, no later attempt with the same pair
/// can succeed.
pub proof fn law_registration_key_single_use(
    pre: Store,
    post: Store,
    uid: Seq<char>,
    key: Seq<char>,
)
    requires
        pre.wf(),
        registration_matches(pre, uid, key),
        exists|i: int|
            0 <= i < pre.users@.len() && pre.users@[i].id@ == uid && post.users@
                == pre.users@.update(i, cleared(pre.users@[i])),
    ensures
        !registration_matches(post, uid, key),
        registration_outcome(post, uid, key) == RegistrationOutcome::Failed,
{
    let i = choose|i: int|
        0 <= i < pre.users@.len() && pre.users@[i].id@ == uid && post.users@
            == pre.users@.update(i, cleared(pre.users@[i]));
    if registration_matches(post, uid, key) {
        let j = choose|j: int|
            0 <= j < post.users@.len() && post.users@[j].id@ == uid && (
            post.users@[j].registration_key matches Some(k) && k@ == key);
        if j == i {
            assert(post.users@[j].registration_key is None);
        } else {
            assert(pre.users@[j].id@ == uid && pre.users@[i].id@ == uid);
        }
    }
}

/// Enumeration resistance: a missing user and a mismatched key earn the
/// same outcome, and with it the same failure page — the two causes are
/// textually indistinguishable.
pub proof fn law_enumeration_resistance(
    s1: Store,
    uid1: Seq<char>,
    key1: Seq<char>,
    s2: Store,
    uid2: Seq<char>,
    key2: Seq<char>,
    mainsite: Seq<char>,
)
    requires
        !has_user(s1, uid1),
        !registration_matches(s2, uid2, key2),
    ensures
        registration_outcome(s1, uid1, key1) == registration_outcome(s2, uid2, key2),
        spec_registration_page(registration_outcome(s1, uid1, key1), mainsite)
            == spec_failure_page(),
        spec_registration_page(registration_outcome(s2, uid2, key2), mainsite)
            == spec_failure_page(),
{
    if registration_matches(s1, uid1, key1) {
        lemma_matches_implies_user(s1, uid1, key1);
    }
}

} // verus!
