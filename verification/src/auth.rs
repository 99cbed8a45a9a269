//! The credential authenticator: registration and login over one class of
//! principals (end users or admins — the two classes share no storage but
//! run exactly this logic).
//!
//! Registration validates the payload shape before any store access, hashes
//! the secret one-way with a random salt, and persists identifier, hash and
//! email. Login fetches by identifier and verifies the secret against the
//! stored hash; an unknown identifier (`NotFound`), a failed verification
//! (`Unauthorized`) and a store fault (`StoreUnavailable`) stay three
//! distinguishable outcomes. The raw secret is never persisted.

use vstd::prelude::*;

use crate::errors::ApiError;
use crate::user::UserSql;
use crate::validate::spec_validate;
use crate::validate::validate_registration;

verus! {

/// What bcrypt's verify returns for a secret and a stored hash string:
/// true exactly when the string parses as a bcrypt hash and re-deriving
/// the digest from the secret with the hash's own cost and salt matches.
/// A function of the two strings alone.
pub uninterp spec fn bcrypt_verifies(secret: Seq<char>, hashed: Seq<char>) -> bool;

/// Relies on bcrypt::hash with the crate's default cost: on success the
/// result is a hash string that bcrypt::verify accepts for the same secret.
/// The salt comes from the operating system's randomness, so nothing more
/// is stated of the result; the call fails only when that randomness is
/// unavailable.
#[verifier::external_body]
fn hash_secret(secret: &str) -> (r: Result<String, ()>)
    ensures
        r is Ok ==> bcrypt_verifies(secret@, r->Ok_0@),
{
    match bcrypt::hash(secret, bcrypt::DEFAULT_COST) {
        Ok(h) => Ok(h),
        Err(_) => Err(()),
    }
}

/// Relies on bcrypt::verify, which is deterministic in the secret and the
/// stored hash. An error from the primitive (for instance a malformed
/// stored hash) is deliberately reported as a failed verification, exactly
/// like a wrong secret — documented policy, not an accident.
#[verifier::external_body]
fn verify_secret(secret: &str, hashed: &str) -> (r: bool)
    ensures
        r == bcrypt_verifies(secret@, hashed@),
{
    bcrypt::verify(secret, hashed).unwrap_or(false)
}

/// Whether some credential in `s` carries the identifier string `name`.
pub open spec fn has_user(s: Seq<UserSql>, name: Seq<char>) -> bool {
    exists|i: int| 0 <= i < s.len() && (#[trigger] s[i].username@) == name
}

/// The position of the credential carrying `name`; meaningful when
/// `has_user` holds and the identifier strings are distinct.
pub open spec fn user_idx(s: Seq<UserSql>, name: Seq<char>) -> int {
    choose|i: int| 0 <= i < s.len() && (#[trigger] s[i].username@) == name
}

/// The three terminal login outcomes on a credential sequence: an unknown
/// identifier is `NotFound`; a known identifier whose stored hash does not
/// verify the secret is `Unauthorized`; otherwise success.
pub open spec fn login_outcome(s: Seq<UserSql>, name: Seq<char>, secret: Seq<char>) -> Result<
    (),
    ApiError,
> {
    if !has_user(s, name) {
        Err(ApiError::NotFound)
    } else if bcrypt_verifies(secret, s[user_idx(s, name)].password@) {
        Ok(())
    } else {
        Err(ApiError::Unauthorized)
    }
}

/// In a sequence with distinct identifier strings, an identifier occurs at
/// one position only.
pub proof fn lemma_distinct_users(s: Seq<UserSql>, i: int, j: int)
    requires
        forall|x: int, y: int|
            #![trigger s[x].username@, s[y].username@]
            0 <= x < y < s.len() ==> s[x].username@ != s[y].username@,
        0 <= i < s.len(),
        0 <= j < s.len(),
        s[i].username@ == s[j].username@,
    ensures
        i == j,
{
    if i < j {
        assert(s[i].username@ != s[j].username@);
    } else if j < i {
        assert(s[j].username@ != s[i].username@);
    }
}

/// One credential class's store: persisted credentials with store-assigned
/// identifiers and store-enforced uniqueness of the identifier string.
pub struct CredentialStore {
    users: Vec<UserSql>,
    next_id: i32,
}

impl CredentialStore {
    /// The persisted credentials, in insertion order.
    pub closed spec fn users(&self) -> Seq<UserSql> {
        self.users@
    }

    /// The identifier the next registered credential will receive.
    pub closed spec fn spec_next_id(&self) -> int {
        self.next_id as int
    }

    /// Well-formedness: identifier strings are pairwise distinct and the
    /// integer identifiers strictly increase below the next one to assign.
    pub open spec fn inv(&self) -> bool {
        &&& forall|i: int, j: int|
            #![trigger self.users()[i].username@, self.users()[j].username@]
            0 <= i < j < self.users().len()
                ==> self.users()[i].username@ != self.users()[j].username@
        &&& forall|i: int, j: int|
            #![trigger self.users()[i].id, self.users()[j].id]
            0 <= i < j < self.users().len() ==> self.users()[i].id < self.users()[j].id
        &&& forall|i: int|
            0 <= i < self.users().len()
                ==> 1 <= (#[trigger] self.users()[i].id) && (self.users()[i].id as int)
                < self.spec_next_id()
        &&& 1 <= self.spec_next_id() <= i32::MAX as int
    }

    /// An empty credential store.
    pub fn new() -> (r: Self)
        ensures
            r.inv(),
            r.users() == Seq::<UserSql>::empty(),
            r.spec_next_id() == 1,
    {
        CredentialStore { users: Vec::new(), next_id: 1 }
    }

    /// The position of the credential whose identifier string equals
    /// `username`, if any.
    fn find_user(&self, username: &str) -> (r: Option<usize>)
        requires
            self.inv(),
        ensures
            r is Some <==> has_user(self.users(), username@),
            r is Some ==> {
                &&& (r->Some_0 as int) < self.users().len()
                &&& self.users()[r->Some_0 as int].username@ == username@
                &&& r->Some_0 as int == user_idx(self.users(), username@)
            },
    {
        let uname: String = username.to_string();
        let n = self.users.len();
        let mut i: usize = 0;
        while i < n
            invariant
                self.inv(),
                uname@ == username@,
                n == self.users().len(),
                0 <= i <= n,
                forall|j: int| 0 <= j < i ==> (#[trigger] self.users()[j].username@) != username@,
            decreases n - i,
        {
            if self.users[i].username == uname {
                proof {
                    assert(has_user(self.users(), username@));
                    lemma_distinct_users(self.users(), user_idx(self.users(), username@), i as int);
                }
                return Some(i);
            }
            i = i + 1;
        }
        None
    }

    /// Register: validate the payload shape, hash the secret, persist the
    /// new credential. Validation failures are reported before any store
    /// access; a duplicate identifier or an exhausted store surfaces
    /// opaquely as `StoreUnavailable`; a hashing-primitive fault degrades to
    /// `HashingError` instead of aborting. On success the store grows by
    /// exactly one credential holding a hash that verifies the secret.
    pub fn register(&mut self, username: &str, password: &str, email: &str) -> (r: Result<
        (),
        ApiError,
    >)
        requires
            old(self).inv(),
        ensures
            final(self).inv(),
            spec_validate(username@, password@, email@) matches Some(rule) ==> {
                &&& r == Err::<(), ApiError>(ApiError::ValidationError(rule))
                &&& *final(self) == *old(self)
            },
            spec_validate(username@, password@, email@) is None && (has_user(
                old(self).users(),
                username@,
            ) || old(self).spec_next_id() == i32::MAX as int) ==> {
                &&& r == Err::<(), ApiError>(ApiError::StoreUnavailable)
                &&& *final(self) == *old(self)
            },
            spec_validate(username@, password@, email@) is None && !has_user(
                old(self).users(),
                username@,
            ) && old(self).spec_next_id() < i32::MAX as int ==> (r is Ok || r == Err::<(),
                ApiError,
            >(ApiError::HashingError)),
            r is Err && r->Err_0 == ApiError::HashingError ==> *final(self) == *old(self),
            r is Ok ==> {
                &&& final(self).users().len() == old(self).users().len() + 1
                &&& final(self).users().drop_last() == old(self).users()
                &&& final(self).users().last().id as int == old(self).spec_next_id()
                &&& final(self).users().last().username@ == username@
                &&& final(self).users().last().email@ == email@
                &&& bcrypt_verifies(password@, final(self).users().last().password@)
                &&& final(self).spec_next_id() == old(self).spec_next_id() + 1
            },
    {
        if let Some(rule) = validate_registration(username, password, email) {
            return Err(ApiError::ValidationError(rule));
        }
        if self.find_user(username).is_some() {
            return Err(ApiError::StoreUnavailable);
        }
        if self.next_id == i32::MAX {
            return Err(ApiError::StoreUnavailable);
        }
        let hashed = match hash_secret(password) {
            Ok(h) => h,
            Err(_) => {
                return Err(ApiError::HashingError);
            },
        };
        let id = self.next_id;
        self.next_id = self.next_id + 1;
        let rec = UserSql {
            id,
            username: username.to_string(),
            password: hashed,
            email: email.to_string(),
        };
        self.users.push(rec);
        proof {
            assert(final(self).users().drop_last() =~= old(self).users());
        }
        Ok(())
    }

    /// Login: fetch by identifier and verify the secret against the stored
    /// hash. The three outcomes — unknown identifier, failed verification,
    /// success — are exactly `login_outcome` of the store's contents.
    pub fn login(&self, username: &str, password: &str) -> (r: Result<(), ApiError>)
        requires
            self.inv(),
        ensures
            r == login_outcome(self.users(), username@, password@),
    {
        match self.find_user(username) {
            None => Err(ApiError::NotFound),
            Some(i) => login_check(Some(&self.users[i]), password),
        }
    }
}

/// The login decision on one fetched credential row: no row means the
/// identifier is unknown (`NotFound`); a row whose stored hash does not
/// verify the secret is `Unauthorized`; otherwise success. Callers that
/// fetch the row from an external store reuse exactly this decision.
pub fn login_check(found: Option<&UserSql>, password: &str) -> (r: Result<(), ApiError>)
    ensures
        found is None ==> r == Err::<(), ApiError>(ApiError::NotFound),
        found matches Some(u) ==> r == (if bcrypt_verifies(password@, u.password@) {
            Ok::<(), ApiError>(())
        } else {
            Err::<(), ApiError>(ApiError::Unauthorized)
        }),
{
    match found {
        None => Err(ApiError::NotFound),
        Some(u) => {
            if verify_secret(password, u.password.as_str()) {
                Ok(())
            } else {
                Err(ApiError::Unauthorized)
            }
        },
    }
}

/// Law: registering a credential whose identifier is fresh and whose stored
/// hash verifies the secret makes a login with that identifier and secret
/// succeed; and a login whose secret does not verify against the stored
/// hash is `Unauthorized` — never `NotFound`, so a wrong secret and an
/// unknown identifier stay distinguishable.
pub proof fn lemma_register_then_login(
    s: Seq<UserSql>,
    u: UserSql,
    secret: Seq<char>,
    other: Seq<char>,
)
    requires
        !has_user(s, u.username@),
        bcrypt_verifies(secret, u.password@),
    ensures
        login_outcome(s.push(u), u.username@, secret) == Ok::<(), ApiError>(()),
        !bcrypt_verifies(other, u.password@) ==> login_outcome(s.push(u), u.username@, other)
            == Err::<(), ApiError>(ApiError::Unauthorized),
{
    let t = s.push(u);
    assert(t[s.len() as int].username@ == u.username@);
    assert(has_user(t, u.username@));
    let k = user_idx(t, u.username@);
    assert(0 <= k < t.len() && t[k].username@ == u.username@);
    if k < s.len() {
        assert(t[k] == s[k]);
        assert(has_user(s, u.username@));
    }
    assert(t[k] == u);
}

} // verus!
