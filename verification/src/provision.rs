//! Decisions the build-time provisioner makes, and a model of the install
//! step's effect on the build output directory.
//!
//! The provisioner's outside work — the HTTP fetch, reading and writing
//! files — is carried out by the build glue around this library; every
//! decision about that work is made here.

use vstd::prelude::*;

use vstd::map_lib::lemma_union_insert_right;

use crate::text::str_eq;

verus! {

/// Why provisioning failed.
#[derive(Clone, Copy, Debug, PartialEq, Eq, Structural)]
pub enum ProvisionError {
    /// The build target's operating system or architecture is not one the
    /// release host publishes artifacts for.
    UnsupportedPlatform,
    /// The fetch ended with a final status code other than 200; the code is
    /// carried along.
    HttpStatus(u32),
    /// The archive could not be decompressed or unpacked.
    CorruptArchive,
}

/// One step of outside work the provisioner orders the build glue to do.
#[derive(Clone, Copy, Debug, PartialEq, Eq, Structural)]
pub enum ProvisionAction {
    /// Fetch the archive from its URL into the download directory.
    Fetch,
    /// Unpack the cached archive into its extraction directory.
    Extract,
    /// Copy the unpacked library files into the build output directory.
    Install,
}

/// Rejects a platform whose operating system or architecture tag is
/// `unsupported`: provisioning fails early rather than fetching from a URL
/// that names no real artifact.
pub fn validate_platform(os_tag: &str, arch_tag: &str) -> (r: Result<(), ProvisionError>)
    ensures
        r is Ok <==> (os_tag@ != "unsupported"@ && arch_tag@ != "unsupported"@),
        r is Err ==> r == Result::<(), ProvisionError>::Err(ProvisionError::UnsupportedPlatform),
{
    if str_eq(os_tag, "unsupported") || str_eq(arch_tag, "unsupported") {
        Err(ProvisionError::UnsupportedPlatform)
    } else {
        Ok(())
    }
}

/// The steps to run for one build, given whether the archive file already
/// sits at its expected path.  A cached archive is never fetched again: the
/// plan then holds no `Fetch` step at all, so no network call is made.
pub fn provisioning_plan(archive_cached: bool) -> (plan: Vec<ProvisionAction>)
    ensures
        archive_cached ==> plan@ == seq![ProvisionAction::Extract, ProvisionAction::Install],
        !archive_cached ==> plan@ == seq![
            ProvisionAction::Fetch,
            ProvisionAction::Extract,
            ProvisionAction::Install,
        ],
        archive_cached ==> forall|i: int|
            0 <= i < plan@.len() ==> plan@[i] != ProvisionAction::Fetch,
{
    let mut plan: Vec<ProvisionAction> = Vec::new();
    if !archive_cached {
        plan.push(ProvisionAction::Fetch);
    }
    plan.push(ProvisionAction::Extract);
    plan.push(ProvisionAction::Install);
    proof {
        if archive_cached {
            assert(plan@ =~= seq![ProvisionAction::Extract, ProvisionAction::Install]);
        } else {
            assert(plan@ =~= seq![
                ProvisionAction::Fetch,
                ProvisionAction::Extract,
                ProvisionAction::Install,
            ]);
        }
    }
    plan
}

/// Judges the final status code of the fetch: only 200 is success; any other
/// code is a fatal provisioning failure that carries the code.
pub fn fetch_status(code: u32) -> (r: Result<(), ProvisionError>)
    ensures
        r is Ok <==> code == 200,
        code != 200 ==> r == Result::<(), ProvisionError>::Err(ProvisionError::HttpStatus(code)),
{
    if code == 200 {
        Ok(())
    } else {
        Err(ProvisionError::HttpStatus(code))
    }
}

/// The contents of the build output directory, file name to file contents,
/// after the library files are installed into it: each file is copied over
/// whatever sat there under the same name.
pub open spec fn spec_install(
    out_dir: Map<Seq<char>, Seq<u8>>,
    files: Seq<(Seq<char>, Seq<u8>)>,
) -> Map<Seq<char>, Seq<u8>>
    decreases files.len(),
{
    if files.len() == 0 {
        out_dir
    } else {
        spec_install(out_dir.insert(files[0].0, files[0].1), files.drop_first())
    }
}

/// Installing is inserting each file into the directory in order, so the
/// result is the old contents overridden by the files, later files winning.
pub proof fn lemma_install_is_union(
    out_dir: Map<Seq<char>, Seq<u8>>,
    files: Seq<(Seq<char>, Seq<u8>)>,
)
    ensures
        spec_install(out_dir, files) == out_dir.union_prefer_right(
            spec_install(Map::empty(), files),
        ),
    decreases files.len(),
{
    lemma_install_over_union(out_dir, Map::empty(), files);
    assert(out_dir.union_prefer_right(Map::empty()) =~= out_dir);
}

proof fn lemma_install_over_union(
    base: Map<Seq<char>, Seq<u8>>,
    over: Map<Seq<char>, Seq<u8>>,
    files: Seq<(Seq<char>, Seq<u8>)>,
)
    ensures
        spec_install(base.union_prefer_right(over), files) == base.union_prefer_right(
            spec_install(over, files),
        ),
    decreases files.len(),
{
    if files.len() > 0 {
        let k = files[0].0;
        let v = files[0].1;
        lemma_union_insert_right(base, over, k, v);
        lemma_install_over_union(base, over.insert(k, v), files.drop_first());
    }
}

/// Running the install step twice with the same files leaves the output
/// directory exactly as one run leaves it: together with the determinism of
/// extraction, the whole provisioning flow is idempotent.
pub proof fn lemma_install_idempotent(
    out_dir: Map<Seq<char>, Seq<u8>>,
    files: Seq<(Seq<char>, Seq<u8>)>,
)
    ensures
        spec_install(spec_install(out_dir, files), files) == spec_install(out_dir, files),
{
    let effect = spec_install(Map::empty(), files);
    lemma_install_is_union(out_dir, files);
    lemma_install_is_union(spec_install(out_dir, files), files);
    assert(out_dir.union_prefer_right(effect).union_prefer_right(effect)
        =~= out_dir.union_prefer_right(effect));
}

} // verus!
