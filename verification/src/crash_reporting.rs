//! Local crash reporting: opt-in, one file per report.

use vstd::prelude::*;
use crate::ids::{spec_uuid_text, uuid_string};
use crate::paths::{join_path, spec_path_join};

verus! {

pub struct CrashReporter {
    reports_dir: String,
    enabled: bool,
}

/// `"{id}.crash.json"`.
pub open spec fn spec_report_name(id: u128) -> Seq<char> {
    spec_uuid_text(id) + ".crash.json"@
}

impl CrashReporter {
    /// Reports of a project go to `<project_dir>/crash_reports`.
    pub fn new(project_dir: &str, enabled: bool) -> (r: Self)
        ensures
            r.dir()@ == spec_path_join(project_dir@, "crash_reports"@),
            r.on() == enabled,
    {
        CrashReporter { reports_dir: join_path(project_dir, "crash_reports"), enabled }
    }

    pub closed spec fn dir(&self) -> String {
        self.reports_dir
    }

    pub closed spec fn on(&self) -> bool {
        self.enabled
    }

    pub fn reports_dir(&self) -> (r: &str)
        ensures
            r@ == self.dir()@,
    {
        self.reports_dir.as_str()
    }

    pub fn is_enabled(&self) -> (r: bool)
        ensures
            r == self.on(),
    {
        self.enabled
    }

    /// Where the report with this id is written; nothing is written while
    /// reporting is off.
    pub fn report_path(&self, id: u128) -> (r: Option<String>)
        ensures
            !self.on() ==> r is None,
            self.on() ==> (r matches Some(p) && p@ == spec_path_join(self.dir()@, spec_report_name(id))),
    {
        if !self.enabled {
            return None;
        }
        let mut name = uuid_string(id);
        name.append(".crash.json");
        Some(join_path(self.reports_dir.as_str(), name.as_str()))
    }
}

} // verus!
