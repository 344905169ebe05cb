//! Package version and source revision of a build.

use vstd::prelude::*;
use vstd::string::*;

use crate::text::concat3;

pub mod revision;

verus! {

/// Version of this package.
pub const PACKAGE_VERSION: &'static str = "0.1.0";

/// The revision shown when a build has none.
pub open spec fn shown_revision(revision: Option<&str>) -> Seq<char> {
    match revision {
        Some(revision) => revision@,
        None => "unknown"@,
    }
}

/// The long version of a package built from a revision.
pub open spec fn versioned(version: Seq<char>, revision: Option<&str>) -> Seq<char> {
    version + " - "@ + shown_revision(revision)
}

/// Render the long version of a package built from a revision.
#[must_use]
pub fn render_version(version: &str, revision: Option<&str>) -> (text: String)
    ensures
        text@ == versioned(version@, revision),
{
    match revision {
        Some(revision) => concat3(version, " - ", revision),
        None => concat3(version, " - ", "unknown"),
    }
}

/// Return the shared long version rendered by every Immortal executable, for a
/// build from the Git commit `revision`, or from no repository at all.
#[must_use]
pub fn long_version(revision: Option<&str>) -> (text: String)
    ensures
        text@ == versioned(PACKAGE_VERSION@, revision),
{
    render_version(PACKAGE_VERSION, revision)
}

} // verus!
