//! Filesystem paths as text.

use vstd::prelude::*;

verus! {

/// What `std::path::Path::join` makes of `base` and `part` on the platform
/// the library is built for.
pub uninterp spec fn spec_path_join(base: Seq<char>, part: Seq<char>) -> Seq<char>;

/// `std::path::Path::join`, on text: `part` adjoined to `base` by the
/// platform's path rules (a separator between the two; an absolute `part`
/// replaces `base`). Those rules are not written out here: the result is
/// named `spec_path_join` of the two texts.
#[verifier::external_body]
pub(crate) fn join_path(base: &str, part: &str) -> (r: String)
    ensures
        r@ == spec_path_join(base@, part@),
{
    std::path::Path::new(base).join(part).to_string_lossy().into_owned()
}

} // verus!

verus! {

/// `std::path::Path::exists`: whether something is at the path now. The
/// answer depends on the filesystem; nothing is promised of it.
#[verifier::external_body]
pub(crate) fn path_exists(path: &str) -> (r: bool) {
    std::path::Path::new(path).exists()
}

} // verus!
