//! Identifiers of the actions that the assistant can run.

use vstd::prelude::*;

verus! {

pub const ACTION_ROUGH_CUT: &'static str = "rough_cut";
pub const ACTION_ORGANIZE_BY_ORDER: &'static str = "organize_by_import_order";
pub const ACTION_APPLY_DEFAULT_FADES: &'static str = "apply_default_fades";
pub const ACTION_ADVANCE_TO_EDIT: &'static str = "advance_to_edit";
pub const ACTION_ADVANCE_TO_EXPORT: &'static str = "advance_to_export";
pub const ACTION_START_EXPORT: &'static str = "start_export";

} // verus!
