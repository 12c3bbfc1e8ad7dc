//! Mapping from build-target identifiers to the tags used in artifact names.

use vstd::prelude::*;

use crate::text::str_eq;

verus! {

/// The tag that names an operating system in a downloadable artifact's name.
///
/// Target systems outside the supported set map to `unsupported`; the
/// provisioner then fails before constructing a download URL.
pub open spec fn spec_os_tag(target: Seq<char>) -> Seq<char> {
    if target == "windows"@ {
        "win"@
    } else if target == "macos"@ {
        "mac"@
    } else {
        "unsupported"@
    }
}

/// The tag that names a processor architecture in an artifact's name.
pub open spec fn spec_arch_tag(target: Seq<char>) -> Seq<char> {
    if target == "x86"@ {
        "x86"@
    } else if target == "x86_64"@ {
        "x64"@
    } else {
        "unsupported"@
    }
}

/// Maps a build-target operating system name to its artifact tag.
pub fn os_tag(target: &str) -> (r: String)
    ensures
        r@ == spec_os_tag(target@),
{
    if str_eq(target, "windows") {
        "win".to_owned()
    } else if str_eq(target, "macos") {
        "mac".to_owned()
    } else {
        "unsupported".to_owned()
    }
}

/// Maps a build-target architecture name to its artifact tag.
pub fn arch_tag(target: &str) -> (r: String)
    ensures
        r@ == spec_arch_tag(target@),
{
    if str_eq(target, "x86") {
        "x86".to_owned()
    } else if str_eq(target, "x86_64") {
        "x64".to_owned()
    } else {
        "unsupported".to_owned()
    }
}

} // verus!
