//! The cloud service of a data root.

use vstd::prelude::*;
use crate::cloud::auth::{AuthSession, AuthStore};
use crate::cloud::backup::CloudBackupService;
use crate::error::{CinemaError, Result};
use crate::paths::{join_path, spec_path_join};

verus! {

pub struct CloudService {
    pub root: String,
    pub auth: AuthStore,
    pub backup: CloudBackupService,
}

impl CloudService {
    /// The service rooted at `<data_root>/CinemaStudio/cloud`.
    pub fn new(data_root: &str) -> (r: Self)
        ensures
            r.root@ == spec_path_join(spec_path_join(data_root@, "CinemaStudio"@), "cloud"@),
            r.auth.path()@ == spec_path_join(r.root@, "auth.json"@),
            r.backup.backups_root()@ == spec_path_join(r.root@, "backups"@),
    {
        let dir = join_path(data_root, "CinemaStudio");
        let root = join_path(dir.as_str(), "cloud");
        let auth = AuthStore::new(root.as_str());
        let backup = CloudBackupService::new(root.as_str());
        CloudService { root, auth, backup }
    }

    pub fn root(&self) -> (r: &str)
        ensures
            r@ == self.root@,
    {
        self.root.as_str()
    }

    /// Whether the session read from the store is signed in; a failed read
    /// is passed on.
    pub fn is_logged_in(&self, loaded: Result<AuthSession>) -> (r: Result<bool>)
        ensures
            loaded matches Ok(s) ==> r == Ok::<bool, CinemaError>(s.logged_in),
            loaded matches Err(e) ==> r == Err::<bool, CinemaError>(e),
    {
        match loaded {
            Ok(s) => Ok(s.logged_in),
            Err(e) => Err(e),
        }
    }

    /// Decides a restore through the backup service.
    pub fn restore(&self, backup_path: &str, dest: &str, backup_exists: bool, dest_exists: bool) -> (r: Result<String>)
        ensures
            !backup_exists ==> (r matches Err(CinemaError::ProjectNotFound(p)) && p@ == backup_path@),
            backup_exists && dest_exists ==> (r matches Err(CinemaError::Validation(m)) && m@
                == "destination already exists: "@ + dest@),
            backup_exists && !dest_exists ==> (r matches Ok(d) && d@ == dest@),
    {
        self.backup.restore_project(backup_path, dest, backup_exists, dest_exists)
    }
}

} // verus!
