//! Stored user records and the password check against them.
use vstd::prelude::*;
use vstd::string::StringExecFns;

verus! {

#[verifier::external_type_specification]
#[verifier::external_body]
pub struct ExBcryptError(bcrypt::BcryptError);

/// What bcrypt's `verify` reports for a password against a stored hash:
/// `Some(matches)`, or `None` where the hash cannot be read.
pub uninterp spec fn bcrypt_check(password: Seq<char>, hash: Seq<char>) -> Option<bool>;

/// Relies on bcrypt::verify: re-hashes the password with the salt and cost
/// read from `hash` and compares; fails only on a hash it cannot read.
#[verifier::external_body]
fn check_password(password: &str, hash: &str) -> (r: Result<bool, bcrypt::BcryptError>)
    ensures
        match r {
            Ok(b) => bcrypt_check(password@, hash@) == Some(b),
            Err(_) => bcrypt_check(password@, hash@) is None,
        },
{
    bcrypt::verify(password, hash)
}

/// Relies on bcrypt::hash with bcrypt's default cost: the salt is random, and
/// `verify` of the same password against the hash it returns succeeds.
#[verifier::external_body]
fn hash_password(password: &str) -> (r: Result<String, bcrypt::BcryptError>)
    ensures
        r is Ok ==> bcrypt_check(password@, r->Ok_0@) == Some(true),
{
    bcrypt::hash(password, bcrypt::DEFAULT_COST)
}

/// Relies on uuid::Uuid::new_v4 and its hyphenated text form of 36 characters.
#[verifier::external_body]
fn fresh_id() -> (r: String)
    ensures
        r@.len() == 36,
{
    uuid::Uuid::new_v4().to_string()
}

/// Relies on chrono::Utc::now; the sub-second part stays under two seconds,
/// the excess standing for a leap second.
#[verifier::external_body]
fn now_utc() -> (r: Timestamp)
    ensures
        r.nanos < 2_000_000_000,
{
    let t = chrono::Utc::now();
    Timestamp { secs: t.timestamp(), nanos: t.timestamp_subsec_nanos() }
}

/// A UTC instant: seconds since the Unix epoch and nanoseconds past them.
#[derive(Clone, Copy, Debug, PartialEq, Eq, Structural)]
pub struct Timestamp {
    pub secs: i64,
    pub nanos: u32,
}

/// One stored account.
#[derive(Clone, Debug)]
pub struct User {
    pub id: String,
    pub username: String,
    pub password_hash: String,
    pub joined: Timestamp,
    pub banned: bool,
}

/// Why a credential operation failed.
#[derive(Clone, Copy, Debug, PartialEq, Eq, Structural)]
pub enum CredentialError {
    /// A stored hash could not be read.
    MalformedHash,
    /// The password could not be hashed.
    Hashing,
}

/// Whether record `rec` is a candidate for `username` whose password check
/// could succeed at all.
pub open spec fn candidate(rec: User, username: Seq<char>) -> bool {
    rec.username@ == username && !rec.banned
}

/// The outcome of checking `password` for `username` against `users[i..]`,
/// records taken in order: the first unbanned record of that name whose hash
/// matches authenticates, and an unreadable hash met before stops the check.
pub open spec fn verify_from(users: Seq<User>, username: Seq<char>, password: Seq<char>, i: int) -> Option<bool>
    decreases users.len() - i,
{
    if i < 0 || i >= users.len() {
        Some(false)
    } else if !candidate(users[i], username) {
        verify_from(users, username, password, i + 1)
    } else {
        match bcrypt_check(password, users[i].password_hash@) {
            None => None,
            Some(true) => Some(true),
            Some(false) => verify_from(users, username, password, i + 1),
        }
    }
}

pub open spec fn verify_outcome(users: Seq<User>, username: Seq<char>, password: Seq<char>) -> Option<bool> {
    verify_from(users, username, password, 0)
}

impl User {
    /// Builds a record from its stored columns; a missing `banned` flag means
    /// the account is not banned.
    pub fn from_db(
        id: String,
        username: String,
        password_hash: String,
        joined: Timestamp,
        banned: Option<bool>,
    ) -> (r: User)
        ensures
            r.id@ == id@,
            r.username@ == username@,
            r.password_hash@ == password_hash@,
            r.joined == joined,
            r.banned == (banned == Some(true)),
    {
        let b = match banned {
            Some(v) => v,
            None => false,
        };
        User { id, username, password_hash, joined, banned: b }
    }
}

/// Checks `password` for `username` against the stored records. A banned
/// record never authenticates; an unknown user is `Ok(false)`, as is a wrong
/// password.
pub fn verify_user_pass(users: &Vec<User>, username: &str, password: &str) -> (r: Result<bool, CredentialError>)
    ensures
        match verify_outcome(users@, username@, password@) {
            Some(b) => r == Ok::<bool, CredentialError>(b),
            None => r == Err::<bool, CredentialError>(CredentialError::MalformedHash),
        },
{
    let name = String::from_str(username);
    let mut i: usize = 0;
    while i < users.len()
        invariant
            0 <= i <= users@.len(),
            name@ == username@,
            verify_outcome(users@, username@, password@) == verify_from(users@, username@, password@, i as int),
        decreases users@.len() - i,
    {
        let rec = &users[i];
        if rec.username == name && !rec.banned {
            match check_password(password, rec.password_hash.as_str()) {
                Ok(true) => {
                    return Ok(true);
                },
                Ok(false) => {},
                Err(_) => {
                    return Err(CredentialError::MalformedHash);
                },
            }
        }
        i = i + 1;
    }
    Ok(false)
}

/// A new, unbanned record for `username` with a freshly salted hash of
/// `password`, a fresh identifier and the current time.
pub fn new_user(username: &str, password: &str) -> (r: Result<User, CredentialError>)
    ensures
        match r {
            Ok(u) => {
                &&& u.username@ == username@
                &&& !u.banned
                &&& bcrypt_check(password@, u.password_hash@) == Some(true)
                &&& u.id@.len() == 36
                &&& u.joined.nanos < 2_000_000_000
            },
            Err(e) => e == CredentialError::Hashing,
        },
{
    match hash_password(password) {
        Ok(h) => {
            let id = fresh_id();
            let joined = now_utc();
            Ok(User { id, username: String::from_str(username), password_hash: h, joined, banned: false })
        },
        Err(_) => Err(CredentialError::Hashing),
    }
}

proof fn lemma_all_banned_from(users: Seq<User>, username: Seq<char>, password: Seq<char>, i: int)
    requires
        0 <= i,
        forall|j: int| 0 <= j < users.len() && #[trigger] users[j].username@ == username ==> users[j].banned,
    ensures
        verify_from(users, username, password, i) == Some(false),
    decreases users.len() - i,
{
    if i < users.len() {
        lemma_all_banned_from(users, username, password, i + 1);
    }
}

/// Ban enforcement: where every record of a name is banned, no password
/// authenticates that name.
pub proof fn lemma_ban_enforced(users: Seq<User>, username: Seq<char>, password: Seq<char>)
    requires
        forall|j: int| 0 <= j < users.len() && #[trigger] users[j].username@ == username ==> users[j].banned,
    ensures
        verify_outcome(users, username, password) == Some(false),
{
    lemma_all_banned_from(users, username, password, 0);
}

proof fn lemma_round_trip_from(users: Seq<User>, username: Seq<char>, password: Seq<char>, k: int, i: int)
    requires
        0 <= i <= k < users.len(),
        candidate(users[k], username),
        bcrypt_check(password, users[k].password_hash@) == Some(true),
        forall|j: int| 0 <= j < users.len() && candidate(#[trigger] users[j], username)
            ==> bcrypt_check(password, users[j].password_hash@) is Some,
    ensures
        verify_from(users, username, password, i) == Some(true),
    decreases k - i,
{
    if i < k {
        if candidate(users[i], username) {
            assert(bcrypt_check(password, users[i].password_hash@) is Some);
        }
        lemma_round_trip_from(users, username, password, k, i + 1);
    }
}

/// Credential round trip: once a record made by `new_user(username,
/// password)` is stored, checking the same name and password authenticates,
/// provided no record of that name holds an unreadable hash.
pub proof fn lemma_credential_round_trip(users: Seq<User>, rec: User, username: Seq<char>, password: Seq<char>)
    requires
        users.contains(rec),
        rec.username@ == username,
        !rec.banned,
        bcrypt_check(password, rec.password_hash@) == Some(true),
        forall|j: int| 0 <= j < users.len() && candidate(#[trigger] users[j], username)
            ==> bcrypt_check(password, users[j].password_hash@) is Some,
    ensures
        verify_outcome(users, username, password) == Some(true),
{
    let k = choose|k: int| 0 <= k < users.len() && users[k] == rec;
    lemma_round_trip_from(users, username, password, k, 0);
}

} // verus!
