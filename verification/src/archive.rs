//! Unpacking the downloaded artifact, held in memory as bytes.
//!
//! The archive is a gzip-compressed tar file.  Decompression and tar reading
//! are the work of outside crates; what they return is named here and the
//! logic around those names — error handling and the selection of the
//! library files to install — is verified.

use vstd::prelude::*;

use crate::provision::{lemma_install_idempotent, spec_install, ProvisionError};
use crate::text::str_eq;

verus! {

/// What gzip decompression yields on given bytes: the decompressed bytes, or
/// nothing where the input is not a well-formed gzip stream.  A function of
/// the input bytes alone.
pub uninterp spec fn gunzip_of(data: Seq<u8>) -> Option<Seq<u8>>;

/// What reading given bytes as a tar archive yields: each entry's path and
/// contents, in archive order, or nothing where the bytes are not a
/// well-formed archive.  A function of the input bytes alone.
pub uninterp spec fn untar_of(data: Seq<u8>) -> Option<Seq<(Seq<char>, Seq<u8>)>>;

/// Relies on flate2's `GzDecoder` over an in-memory reader: whether
/// decompression succeeds, and what it yields, depend on the compressed
/// bytes alone.
#[verifier::external_body]
fn gunzip(data: &[u8]) -> (r: Option<Vec<u8>>)
    ensures
        match r {
            Some(v) => gunzip_of(data@) == Some(v@),
            None => gunzip_of(data@) is None,
        },
{
    let mut out: Vec<u8> = Vec::new();
    let mut decoder = flate2::read::GzDecoder::new(data);
    match std::io::Read::read_to_end(&mut decoder, &mut out) {
        Ok(_) => Some(out),
        Err(_) => None,
    }
}

/// Relies on tar's `Archive` over an in-memory reader: whether reading
/// succeeds, and the entries' paths and contents in archive order, depend on
/// the archive bytes alone.
#[verifier::external_body]
fn untar(data: &[u8]) -> (r: Option<Vec<(String, Vec<u8>)>>)
    ensures
        match r {
            Some(v) => untar_of(data@) == Some(entry_views(v@)),
            None => untar_of(data@) is None,
        },
{
    let mut out: Vec<(String, Vec<u8>)> = Vec::new();
    let mut ar = tar::Archive::new(data);
    for entry in ar.entries().ok()? {
        let mut entry = entry.ok()?;
        let name = entry.path().ok()?.to_string_lossy().into_owned();
        let mut contents: Vec<u8> = Vec::new();
        std::io::Read::read_to_end(&mut entry, &mut contents).ok()?;
        out.push((name, contents));
    }
    Some(out)
}

/// The path and contents of each entry, as character and byte sequences.
pub open spec fn entry_views(s: Seq<(String, Vec<u8>)>) -> Seq<(Seq<char>, Seq<u8>)> {
    s.map_values(|p: (String, Vec<u8>)| (p.0@, p.1@))
}

/// What fully unpacking the archive yields: the entries of the tar file
/// inside the gzip stream, or nothing where either layer is corrupt.
pub open spec fn spec_extract(archive: Seq<u8>) -> Option<Seq<(Seq<char>, Seq<u8>)>> {
    match gunzip_of(archive) {
        Some(tarball) => untar_of(tarball),
        None => None,
    }
}

/// Decompresses and unpacks the archive.  Returns every entry, path and
/// contents in archive order; a corrupt gzip stream or tar file is reported
/// as `CorruptArchive` rather than aborting.
pub fn extract(archive: &[u8]) -> (r: Result<Vec<(String, Vec<u8>)>, ProvisionError>)
    ensures
        match r {
            Ok(entries) => spec_extract(archive@) == Some(entry_views(entries@)),
            Err(e) => spec_extract(archive@) is None && e == ProvisionError::CorruptArchive,
        },
{
    match gunzip(archive) {
        Some(tarball) => match untar(tarball.as_slice()) {
            Some(entries) => Ok(entries),
            None => Err(ProvisionError::CorruptArchive),
        },
        None => Err(ProvisionError::CorruptArchive),
    }
}

/// Whether an entry path names a file directly inside the archive's `bin`
/// directory — the directory whose files are installed.
pub open spec fn is_lib_entry(name: Seq<char>) -> bool {
    &&& name.len() > 4
    &&& name.subrange(0, 4) == "bin/"@
    &&& forall|i: int| 4 <= i < name.len() ==> name[i] != '/'
}

/// An installable entry's file name: its path with the `bin/` prefix taken
/// off.
pub open spec fn lib_file_name(name: Seq<char>) -> Seq<char> {
    name.subrange(4, name.len() as int)
}

/// Decides whether a path names a file directly inside `bin/`.
pub fn is_lib_file(name: &str) -> (r: bool)
    ensures
        r == is_lib_entry(name@),
{
    let n = name.unicode_len();
    if n <= 4 {
        return false;
    }
    if !str_eq(name.substring_char(0, 4), "bin/") {
        return false;
    }
    let mut i: usize = 4;
    while i < n
        invariant
            n == name@.len(),
            4 <= i <= n,
            forall|j: int| 4 <= j < i ==> name@[j] != '/',
        decreases n - i,
    {
        if name.get_char(i) == '/' {
            return false;
        }
        i = i + 1;
    }
    true
}

/// The files to install, in order: for each entry under `bin/`, its file
/// name and contents.
pub open spec fn spec_install_files(
    entries: Seq<(Seq<char>, Seq<u8>)>,
) -> Seq<(Seq<char>, Seq<u8>)>
    decreases entries.len(),
{
    if entries.len() == 0 {
        Seq::empty()
    } else {
        let prev = spec_install_files(entries.drop_last());
        let last = entries.last();
        if is_lib_entry(last.0) {
            prev.push((lib_file_name(last.0), last.1))
        } else {
            prev
        }
    }
}

/// Selects from the unpacked entries the library files to copy into the
/// build output directory: every file directly inside `bin/`, under its bare
/// file name, contents unchanged, in archive order.
pub fn install_files(entries: &Vec<(String, Vec<u8>)>) -> (r: Vec<(String, Vec<u8>)>)
    ensures
        entry_views(r@) == spec_install_files(entry_views(entries@)),
{
    let ghost full = entry_views(entries@);
    let mut r: Vec<(String, Vec<u8>)> = Vec::new();
    let mut i: usize = 0;
    proof {
        assert(entry_views(r@) =~= spec_install_files(full.subrange(0, 0)));
    }
    while i < entries.len()
        invariant
            full == entry_views(entries@),
            i <= entries.len(),
            full.len() == entries.len(),
            entry_views(r@) == spec_install_files(full.subrange(0, i as int)),
        decreases entries.len() - i,
    {
        let ghost prefix = full.subrange(0, i as int);
        let name = &entries[i].0;
        if is_lib_file(name.as_str()) {
            let n = name.as_str().unicode_len();
            let file_name = name.as_str().substring_char(4, n).to_owned();
            let contents = entries[i].1.clone();
            proof {
                assert(contents@ =~= entries[i as int].1@);
            }
            let ghost before = entry_views(r@);
            r.push((file_name, contents));
            proof {
                assert(entry_views(r@) =~= before.push(
                    (lib_file_name(full[i as int].0), full[i as int].1),
                ));
            }
        }
        proof {
            assert(full.subrange(0, i + 1 as int).drop_last() =~= prefix);
            assert(full.subrange(0, i + 1 as int).last() == full[i as int]);
        }
        i = i + 1;
    }
    proof {
        assert(full.subrange(0, entries.len() as int) =~= full);
    }
    r
}

/// Extraction followed by installation is idempotent.  Unpacking a
/// well-formed archive is deterministic, so a second provisioning run
/// selects the same library files, and installing the same files again
/// leaves the build output directory exactly as the first run left it.
pub proof fn lemma_provisioning_idempotent(
    out_dir: Map<Seq<char>, Seq<u8>>,
    archive: Seq<u8>,
)
    requires
        spec_extract(archive) is Some,
    ensures
        ({
            let files = spec_install_files(spec_extract(archive).unwrap());
            spec_install(spec_install(out_dir, files), files) == spec_install(out_dir, files)
        }),
{
    let files = spec_install_files(spec_extract(archive).unwrap());
    lemma_install_idempotent(out_dir, files);
}

} // verus!
