//! Cloud backup and restore of project folders; the copying is the host's.

use vstd::prelude::*;
use crate::error::{CinemaError, Result};
use crate::ids::{spec_uuid_text, uuid_string};
use crate::paths::{join_path, spec_path_join};

verus! {

#[derive(Debug)]
pub struct BackupRecord {
    pub backup_id: u128,
    pub project_id: u128,
    pub project_name: String,
    pub path: String,
    pub size_bytes: u64,
    /// RFC 3339 time of the backup.
    pub created_at: String,
}

pub struct CloudBackupService {
    backups_root: String,
}

/// `"{backup_id}.bundle"`.
pub open spec fn spec_bundle_name(backup_id: u128) -> Seq<char> {
    spec_uuid_text(backup_id) + ".bundle"@
}

impl CloudBackupService {
    /// Backups under `<cloud_root>/backups`.
    pub fn new(cloud_root: &str) -> (r: Self)
        ensures
            r.backups_root()@ == spec_path_join(cloud_root@, "backups"@),
    {
        CloudBackupService { backups_root: join_path(cloud_root, "backups") }
    }

    pub closed spec fn backups_root(&self) -> String {
        self.backups_root
    }

    /// The folder of one project's backups.
    pub fn project_backups(&self, project_id: u128) -> (r: String)
        ensures
            r@ == spec_path_join(self.backups_root()@, spec_uuid_text(project_id)),
    {
        let id = uuid_string(project_id);
        join_path(self.backups_root.as_str(), id.as_str())
    }

    /// Where a backup of a project is written:
    /// `<backups>/<project_id>/<backup_id>.bundle`.
    pub fn backup_destination(&self, project_id: u128, backup_id: u128) -> (r: String)
        ensures
            r@ == spec_path_join(spec_path_join(self.backups_root()@, spec_uuid_text(project_id)), spec_bundle_name(backup_id)),
    {
        let dir = self.project_backups(project_id);
        let mut name = uuid_string(backup_id);
        name.append(".bundle");
        join_path(dir.as_str(), name.as_str())
    }

    /// Decides a restore of the backup at `backup_path` into `dest_dir`,
    /// given whether each exists: a missing backup is `ProjectNotFound`, an
    /// existing destination is refused; otherwise the destination to copy
    /// into is returned.
    pub fn restore_project(&self, backup_path: &str, dest_dir: &str, backup_exists: bool, dest_exists: bool) -> (r: Result<
        String,
    >)
        ensures
            !backup_exists ==> (r matches Err(CinemaError::ProjectNotFound(p)) && p@ == backup_path@),
            backup_exists && dest_exists ==> (r matches Err(CinemaError::Validation(m)) && m@
                == "destination already exists: "@ + dest_dir@),
            backup_exists && !dest_exists ==> (r matches Ok(d) && d@ == dest_dir@),
    {
        if !backup_exists {
            return Err(CinemaError::ProjectNotFound(String::from_str(backup_path)));
        }
        if dest_exists {
            let mut m = String::from_str("destination already exists: ");
            m.append(dest_dir);
            return Err(CinemaError::Validation(m));
        }
        Ok(String::from_str(dest_dir))
    }
}

} // verus!
