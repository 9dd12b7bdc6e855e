//! Optional sign-in: local-first, an account is never needed for the core.

use vstd::prelude::*;
use crate::error::{validation_error, CinemaError, Result};
use crate::ids::{new_id, now_ms};
use crate::paths::{join_path, spec_path_join};
use crate::text::{contains_char, push_char};

verus! {

#[derive(Debug)]
pub struct AuthSession {
    pub logged_in: bool,
    pub user_id: Option<u128>,
    pub email: Option<String>,
    /// The first characters of the token, for display.
    pub token_hint: Option<String>,
    /// Milliseconds since the Unix epoch.
    pub created_at: i64,
    pub updated_at: i64,
}

impl Clone for AuthSession {
    fn clone(&self) -> (r: Self)
        ensures
            r == *self,
    {
        AuthSession {
            logged_in: self.logged_in,
            user_id: self.user_id,
            email: self.email.clone(),
            token_hint: self.token_hint.clone(),
            created_at: self.created_at,
            updated_at: self.updated_at,
        }
    }
}

/// The first eight characters of a token (all of a shorter one), then an
/// ellipsis.
pub open spec fn spec_token_hint(token: Seq<char>) -> Seq<char> {
    (if token.len() <= 8 { token } else { token.take(8) }) + seq!['…']
}

fn token_hint(token: &str) -> (r: String)
    ensures
        r@ == spec_token_hint(token@),
{
    let n = token.unicode_len();
    let m: usize = if n <= 8 { n } else { 8 };
    let mut out = String::new();
    let mut i: usize = 0;
    while i < m
        invariant
            m <= n,
            n == token@.len(),
            m == (if n <= 8 { n } else { 8 }),
            i <= m,
            out@ == token@.take(i as int),
        decreases m - i,
    {
        push_char(&mut out, token.get_char(i));
        assert(token@.take(i + 1) =~= token@.take(i as int).push(token@[i as int]));
        i = i + 1;
    }
    push_char(&mut out, '…');
    assert(token@.take(n as int) =~= token@);
    out
}

impl AuthSession {
    /// Not signed in, created now.
    pub fn guest() -> (r: Self)
        ensures
            !r.logged_in,
            r.user_id is None,
            r.email is None,
            r.token_hint is None,
            r.created_at == r.updated_at,
    {
        let now = now_ms();
        AuthSession { logged_in: false, user_id: None, email: None, token_hint: None, created_at: now, updated_at: now }
    }

    /// Signed in as `email` with a fresh user id; the token is kept only as
    /// a hint.
    pub fn from_login(email: &str, token: &str) -> (r: Self)
        ensures
            r.logged_in,
            r.user_id is Some,
            r.email matches Some(e) && e@ == email@,
            r.token_hint matches Some(h) && h@ == spec_token_hint(token@),
            r.created_at == r.updated_at,
    {
        let now = now_ms();
        AuthSession {
            logged_in: true,
            user_id: Some(new_id()),
            email: Some(String::from_str(email)),
            token_hint: Some(token_hint(token)),
            created_at: now,
            updated_at: now,
        }
    }
}

impl Default for AuthSession {
    /// The guest session.
    fn default() -> (r: Self)
        ensures
            !r.logged_in,
            r.user_id is None,
            r.email is None,
            r.token_hint is None,
    {
        AuthSession::guest()
    }
}

/// Where the session of a cloud root is kept.
pub struct AuthStore {
    path: String,
}

impl AuthStore {
    /// The store of `<cloud_root>/auth.json`.
    pub fn new(cloud_root: &str) -> (r: Self)
        ensures
            r.path()@ == spec_path_join(cloud_root@, "auth.json"@),
    {
        AuthStore { path: join_path(cloud_root, "auth.json") }
    }

    pub closed spec fn path(&self) -> String {
        self.path
    }

    /// The session file.
    pub fn session_path(&self) -> (r: &str)
        ensures
            r@ == self.path()@,
    {
        self.path.as_str()
    }
}

/// Simulated sign-in: an email without `@` is refused with "invalid email";
/// any other signs in with the stub token. The password is not checked.
pub fn login_stub(email: &str, password: &str) -> (r: Result<AuthSession>)
    ensures
        !email@.contains('@') ==> (r matches Err(CinemaError::Validation(m)) && m@ == "invalid email"@),
        email@.contains('@') ==> (r matches Ok(s) && s.logged_in && s.user_id is Some && (s.email matches Some(e)
            && e@ == email@) && (s.token_hint matches Some(h) && h@ == spec_token_hint("stub_token_phase6"@))),
{
    if !contains_char(email, '@') {
        return Err(validation_error("invalid email"));
    }
    Ok(AuthSession::from_login(email, "stub_token_phase6"))
}

} // verus!
