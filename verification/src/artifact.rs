//! Naming the downloadable artifact that holds the prebuilt rendering library.
//!
//! The download URL, the local archive file name and the extraction directory
//! name are pure functions of the release version and the platform tags.

use vstd::prelude::*;

use crate::text::{remove_suffix, spec_remove_suffix};

verus! {

/// The fixed release host and path under which every artifact is published.
pub open spec fn spec_release_prefix() -> Seq<char> {
    "https://github.com/bblanchon/pdfium-binaries/releases/download/chromium%2F"@
}

/// The name of the archive file for one platform: `pdfium-<os>-<arch>.tgz`.
pub open spec fn spec_archive_name(os_tag: Seq<char>, arch_tag: Seq<char>) -> Seq<char> {
    "pdfium-"@ + os_tag + "-"@ + arch_tag + ".tgz"@
}

/// The full download URL for one release version and platform.
pub open spec fn spec_artifact_url(
    version: Seq<char>,
    os_tag: Seq<char>,
    arch_tag: Seq<char>,
) -> Seq<char> {
    spec_release_prefix() + version + "/"@ + spec_archive_name(os_tag, arch_tag)
}

/// The base name of the archive: its file name with the `.tgz` suffix taken
/// off.  The archive is unpacked into a directory of this name.
pub open spec fn spec_base_name(os_tag: Seq<char>, arch_tag: Seq<char>) -> Seq<char> {
    spec_remove_suffix(spec_archive_name(os_tag, arch_tag), ".tgz"@)
}

/// Where one platform's artifact is downloaded from, what the archive file is
/// called locally, and which directory it is unpacked into.
pub struct ArtifactDescriptor {
    /// The URL the archive is fetched from.
    pub url: String,
    /// The archive's local file name inside the download directory.
    pub archive_name: String,
    /// The name of the directory, inside the download directory, that the
    /// archive is unpacked into.
    pub base_name: String,
}

impl ArtifactDescriptor {
    /// The descriptor's three names as character sequences.
    pub open spec fn view_triple(&self) -> (Seq<char>, Seq<char>, Seq<char>) {
        (self.url@, self.archive_name@, self.base_name@)
    }
}

/// Builds the descriptor for one release version and platform.  A pure
/// function of its arguments: no side effects, and identical inputs give
/// identical names.
pub fn build_artifact_descriptor(version: &str, os_tag: &str, arch_tag: &str) -> (d:
    ArtifactDescriptor)
    ensures
        d.url@ == spec_artifact_url(version@, os_tag@, arch_tag@),
        d.archive_name@ == spec_archive_name(os_tag@, arch_tag@),
        d.base_name@ == spec_base_name(os_tag@, arch_tag@),
{
    let mut archive_name =
        "pdfium-".to_owned();
    archive_name.append(os_tag);
    archive_name.append("-");
    archive_name.append(arch_tag);
    archive_name.append(".tgz");
    let mut url =
        "https://github.com/bblanchon/pdfium-binaries/releases/download/chromium%2F".to_owned();
    url.append(version);
    url.append("/");
    url.append(archive_name.as_str());
    let base_name = remove_suffix(archive_name.as_str(), ".tgz");
    ArtifactDescriptor { url, archive_name, base_name }
}

/// Building a descriptor is deterministic: two descriptors that both satisfy
/// the construction contract for the same version and platform tags carry
/// identical names.
pub proof fn lemma_descriptor_deterministic(
    version: Seq<char>,
    os_tag: Seq<char>,
    arch_tag: Seq<char>,
    d1: ArtifactDescriptor,
    d2: ArtifactDescriptor,
)
    requires
        d1.url@ == spec_artifact_url(version, os_tag, arch_tag),
        d1.archive_name@ == spec_archive_name(os_tag, arch_tag),
        d1.base_name@ == spec_base_name(os_tag, arch_tag),
        d2.url@ == spec_artifact_url(version, os_tag, arch_tag),
        d2.archive_name@ == spec_archive_name(os_tag, arch_tag),
        d2.base_name@ == spec_base_name(os_tag, arch_tag),
    ensures
        d1.view_triple() == d2.view_triple(),
{
}

} // verus!
