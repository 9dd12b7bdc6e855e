//! Cloud backends: local-first by default, Supabase once it is wired.

use vstd::prelude::*;
use crate::cloud::auth::{login_stub, spec_token_hint, AuthSession};
use crate::error::{validation_error, CinemaError, Result};
use crate::text::str_eq;

verus! {

#[derive(Debug, Clone, Copy, PartialEq, Eq, Structural)]
pub enum CloudBackendKind {
    Local,
    Supabase,
}

pub open spec fn spec_backend_name(k: CloudBackendKind) -> Seq<char> {
    match k {
        CloudBackendKind::Local => "local"@,
        CloudBackendKind::Supabase => "supabase"@,
    }
}

/// The backend a name selects: "supabase" selects Supabase, any other
/// name the local one.
pub open spec fn spec_backend_of_name(n: Seq<char>) -> CloudBackendKind {
    if n == "supabase"@ {
        CloudBackendKind::Supabase
    } else {
        CloudBackendKind::Local
    }
}

/// A backend's name selects that backend again.
pub proof fn lemma_backend_name_round_trip(k: CloudBackendKind)
    ensures
        spec_backend_of_name(spec_backend_name(k)) == k,
{
    reveal_strlit("local");
    reveal_strlit("supabase");
    assert("local"@.len() != "supabase"@.len());
}

impl CloudBackendKind {
    /// The backend a configured name selects: "supabase" selects Supabase,
    /// anything else (or nothing) the local one.
    pub fn from_name(name: Option<&str>) -> (r: Self)
        ensures
            name matches Some(n) ==> r == spec_backend_of_name(n@),
            name is None ==> r == CloudBackendKind::Local,
    {
        match name {
            Some(n) => if str_eq(n, "supabase") {
                CloudBackendKind::Supabase
            } else {
                CloudBackendKind::Local
            },
            None => CloudBackendKind::Local,
        }
    }

    pub fn as_str(self) -> (r: &'static str)
        ensures
            r@ == spec_backend_name(self),
    {
        match self {
            CloudBackendKind::Local => "local",
            CloudBackendKind::Supabase => "supabase",
        }
    }
}

/// A pluggable cloud backend.
pub trait CloudBackend {
    fn kind(&self) -> CloudBackendKind;

    fn login(&self, email: &str, password: &str) -> Result<AuthSession>;

    /// Whether the backend is connected to its service.
    fn wired(&self) -> bool;
}

/// The cloud simulated by a local folder.
pub struct LocalCloudBackend;

impl CloudBackend for LocalCloudBackend {
    fn kind(&self) -> (r: CloudBackendKind)
        ensures
            r == CloudBackendKind::Local,
    {
        CloudBackendKind::Local
    }

    /// The stub sign-in.
    fn login(&self, email: &str, password: &str) -> (r: Result<AuthSession>)
        ensures
            !email@.contains('@') ==> (r matches Err(CinemaError::Validation(m)) && m@ == "invalid email"@),
            email@.contains('@') ==> (r matches Ok(s) && s.logged_in && (s.email matches Some(e) && e@ == email@) && (
            s.token_hint matches Some(h) && h@ == spec_token_hint("stub_token_phase6"@))),
    {
        login_stub(email, password)
    }

    fn wired(&self) -> (r: bool)
        ensures
            r,
    {
        true
    }
}

/// Supabase, not wired yet: every request is refused.
pub struct SupabaseCloudBackend;

impl CloudBackend for SupabaseCloudBackend {
    fn kind(&self) -> (r: CloudBackendKind)
        ensures
            r == CloudBackendKind::Supabase,
    {
        CloudBackendKind::Supabase
    }

    fn login(&self, email: &str, password: &str) -> (r: Result<AuthSession>)
        ensures
            r matches Err(CinemaError::Validation(m)) && m@
                == "not wired: set SUPABASE_URL + SUPABASE_ANON_KEY and implement supabase provider"@,
    {
        Err(validation_error("not wired: set SUPABASE_URL + SUPABASE_ANON_KEY and implement supabase provider"))
    }

    fn wired(&self) -> (r: bool)
        ensures
            !r,
    {
        false
    }
}

#[derive(Debug)]
pub struct BackendStatus {
    pub kind: CloudBackendKind,
    pub wired: bool,
    pub data_root_hint: String,
}

/// Status of the selected backend: only the local one is wired; cloud data
/// lives under `CinemaStudio/cloud`.
pub fn backend_status(kind: CloudBackendKind) -> (r: BackendStatus)
    ensures
        r.kind == kind,
        r.wired == (kind == CloudBackendKind::Local),
        r.data_root_hint@ == "CinemaStudio/cloud"@,
{
    let wired = match kind {
        CloudBackendKind::Local => LocalCloudBackend.wired(),
        CloudBackendKind::Supabase => SupabaseCloudBackend.wired(),
    };
    BackendStatus { kind, wired, data_root_hint: String::from_str("CinemaStudio/cloud") }
}

} // verus!
