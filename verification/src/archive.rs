//! The artifact of one target: the name of its archive, the metadata record
//! inside it, the order of its entries, and the checksum sidecar beside it.

use crate::digest::{digest_hex_of, sha256_hex};
use crate::json::{json_quoted, quote_json};
use crate::target::TargetInfo;
use crate::text::{after_last, chars_of, last_segment};
use crate::tree::{
    content_fingerprint_of, in_path_order, lemma_listing_order_irrelevant, same_files, EntryKind,
    FileTree, FileView,
};
use vstd::utf8::encode_utf8;
use vstd::prelude::*;
use vstd::string::*;

verus! {

/// The identity of a packaged target, as recorded inside its archive.
#[derive(Debug, Clone, PartialEq, Eq)]
pub struct PackageMetadata {
    pub target: String,
    pub name: String,
    pub version: String,
    pub config_hash: String,
    pub content_hash: String,
}

/// What a [`PackageMetadata`] stands for.
pub struct MetadataView {
    pub target: Seq<char>,
    pub name: Seq<char>,
    pub version: Seq<char>,
    pub config_hash: Seq<char>,
    pub content_hash: Seq<char>,
}

impl View for PackageMetadata {
    type V = MetadataView;

    open spec fn view(&self) -> MetadataView {
        MetadataView {
            target: self.target@,
            name: self.name@,
            version: self.version@,
            config_hash: self.config_hash@,
            content_hash: self.content_hash@,
        }
    }
}

/// The file name of the archive of a package.
pub open spec fn archive_name_of(name: Seq<char>, version: Seq<char>, config_hash: Seq<char>) -> Seq<
    char,
> {
    name + "-"@ + version + "-"@ + config_hash + "-bin.tar.gz"@
}

/// The file name of the sidecar that belongs to an archive.
pub open spec fn sidecar_name_of(archive_name: Seq<char>) -> Seq<char> {
    archive_name + ".sha256"@
}

/// The metadata record as pretty-printed JSON, given each of its five values
/// as a JSON string literal.
pub open spec fn metadata_frame(
    target: Seq<char>,
    name: Seq<char>,
    version: Seq<char>,
    config_hash: Seq<char>,
    content_hash: Seq<char>,
) -> Seq<char> {
    "{\n  \"target\": "@ + target + ",\n  \"name\": "@ + name + ",\n  \"version\": "@ + version
        + ",\n  \"config_hash\": "@ + config_hash + ",\n  \"content_hash\": "@ + content_hash
        + "\n}"@
}

/// The metadata record as JSON: its five values in the order target, name,
/// version, config hash, content hash, each as a JSON string.
pub open spec fn metadata_json_of(meta: MetadataView) -> Seq<char> {
    metadata_frame(
        json_quoted(meta.target),
        json_quoted(meta.name),
        json_quoted(meta.version),
        json_quoted(meta.config_hash),
        json_quoted(meta.content_hash),
    )
}

/// The text of the sidecar: the checksum line, then the comment lines.
pub open spec fn sidecar_of(digest: Seq<char>, archive_name: Seq<char>, meta: MetadataView) -> Seq<
    char,
> {
    digest + "  "@ + archive_name + "\n"@ + "# Config Hash: "@ + meta.config_hash + "\n"@
        + "# Content Hash: "@ + meta.content_hash + "\n"@ + "# Package: "@ + meta.name + "\n"@
        + "# Version: "@ + meta.version + "\n"@ + "# Target: "@ + meta.target + "\n"@
}

/// Names the archive of a package.
pub fn archive_file_name(name: &str, version: &str, config_hash: &str) -> (out: String)
    ensures
        out@ == archive_name_of(name@, version@, config_hash@),
{
    let mut out = String::from_str(name);
    out.append("-");
    out.append(version);
    out.append("-");
    out.append(config_hash);
    out.append("-bin.tar.gz");
    out
}

/// The path of the file named `file_name` inside `directory`. The empty
/// directory is the current one.
pub open spec fn path_in(directory: Seq<char>, file_name: Seq<char>) -> Seq<char> {
    if directory.len() == 0 {
        file_name
    } else if directory[directory.len() - 1] == '/' {
        directory + file_name
    } else {
        directory + "/"@ + file_name
    }
}

impl PackageMetadata {
    /// What the record for `target` holds, given the identity of the target
    /// and its two fingerprints.
    pub open spec fn assembled(
        target: Seq<char>,
        name: Seq<char>,
        version: Seq<char>,
        config_hash: Seq<char>,
        content_hash: Seq<char>,
    ) -> MetadataView {
        MetadataView { target, name, version, config_hash, content_hash }
    }

    /// Puts the record of a target together from its resolved identity and
    /// its two fingerprints.
    pub fn assemble(target: &str, info: &TargetInfo, config_hash: &str, content_hash: &str) -> (meta:
        PackageMetadata)
        ensures
            meta@ == PackageMetadata::assembled(
                target@,
                info.name@,
                info.version@,
                config_hash@,
                content_hash@,
            ),
    {
        PackageMetadata {
            target: String::from_str(target),
            name: info.name.clone(),
            version: info.version.clone(),
            config_hash: String::from_str(config_hash),
            content_hash: String::from_str(content_hash),
        }
    }
}

/// Names the file `file_name` inside `directory`.
pub fn join_path(directory: &str, file_name: &str) -> (out: String)
    ensures
        out@ == path_in(directory@, file_name@),
{
    let dir = chars_of(directory);
    let mut out = String::from_str(directory);
    if dir.len() > 0 && dir[dir.len() - 1] != '/' {
        out.append("/");
    }
    out.append(file_name);
    assert(dir.len() == 0 ==> out@ =~= file_name@);
    out
}

/// The two files of an artifact: the archive and, beside it, its sidecar.
#[derive(Debug, Clone, PartialEq, Eq)]
pub struct Artifact {
    pub archive_name: String,
    pub archive_path: String,
    pub sidecar_path: String,
}

impl Artifact {
    /// Whether this is the artifact of the package `meta` in `output_dir`:
    /// the archive is named from name, version and config hash, and the
    /// sidecar has the name of the archive with `.sha256` behind it.
    pub open spec fn is_for(self, output_dir: Seq<char>, meta: MetadataView) -> bool {
        &&& self.archive_name@ == archive_name_of(meta.name, meta.version, meta.config_hash)
        &&& self.archive_path@ == path_in(output_dir, self.archive_name@)
        &&& self.sidecar_path@ == sidecar_name_of(self.archive_path@)
    }
}

/// Names the files of the artifact of a package in `output_dir`.
pub fn artifact_for(output_dir: &str, meta: &PackageMetadata) -> (artifact: Artifact)
    ensures
        artifact.is_for(output_dir@, meta@),
{
    let archive_name = archive_file_name(
        meta.name.as_str(),
        meta.version.as_str(),
        meta.config_hash.as_str(),
    );
    let archive_path = join_path(output_dir, archive_name.as_str());
    let sidecar_path = sidecar_file_name(archive_path.as_str());
    Artifact { archive_name, archive_path, sidecar_path }
}

/// Names the sidecar of an archive.
pub fn sidecar_file_name(archive_name: &str) -> (out: String)
    ensures
        out@ == sidecar_name_of(archive_name@),
{
    let mut out = String::from_str(archive_name);
    out.append(".sha256");
    out
}

/// Frames five JSON string literals as the metadata record.
pub fn frame_metadata_json(
    target: &str,
    name: &str,
    version: &str,
    config_hash: &str,
    content_hash: &str,
) -> (out: String)
    ensures
        out@ == metadata_frame(target@, name@, version@, config_hash@, content_hash@),
{
    let mut out = String::from_str("{\n  \"target\": ");
    out.append(target);
    out.append(",\n  \"name\": ");
    out.append(name);
    out.append(",\n  \"version\": ");
    out.append(version);
    out.append(",\n  \"config_hash\": ");
    out.append(config_hash);
    out.append(",\n  \"content_hash\": ");
    out.append(content_hash);
    out.append("\n}");
    out
}

/// Writes `text` as a JSON string literal.
pub fn json_string(text: &str) -> (out: String)
    ensures
        out@ == json_quoted(text@),
{
    match quote_json(text) {
        Ok(quoted) => quoted,
        Err(_) => unreached(),
    }
}

/// Writes the metadata record as JSON, its five values in the order target,
/// name, version, config hash, content hash.
pub fn metadata_json(meta: &PackageMetadata) -> (out: String)
    ensures
        out@ == metadata_json_of(meta@),
{
    let target = json_string(meta.target.as_str());
    let name = json_string(meta.name.as_str());
    let version = json_string(meta.version.as_str());
    let config_hash = json_string(meta.config_hash.as_str());
    let content_hash = json_string(meta.content_hash.as_str());
    frame_metadata_json(
        target.as_str(),
        name.as_str(),
        version.as_str(),
        config_hash.as_str(),
        content_hash.as_str(),
    )
}

/// Writes the sidecar for an archive whose digest is known.
pub fn sidecar_text(digest: &str, archive_name: &str, meta: &PackageMetadata) -> (out: String)
    ensures
        out@ == sidecar_of(digest@, archive_name@, meta@),
{
    let mut out = String::from_str(digest);
    out.append("  ");
    out.append(archive_name);
    out.append("\n");
    out.append("# Config Hash: ");
    out.append(meta.config_hash.as_str());
    out.append("\n");
    out.append("# Content Hash: ");
    out.append(meta.content_hash.as_str());
    out.append("\n");
    out.append("# Package: ");
    out.append(meta.name.as_str());
    out.append("\n");
    out.append("# Version: ");
    out.append(meta.version.as_str());
    out.append("\n");
    out.append("# Target: ");
    out.append(meta.target.as_str());
    out.append("\n");
    out
}

/// Writes the sidecar for an archive, from the bytes of the archive. Its
/// first 64 characters are the digest of exactly those bytes.
pub fn checksum_sidecar(archive: &[u8], archive_name: &str, meta: &PackageMetadata) -> (out: String)
    ensures
        out@ == sidecar_of(digest_hex_of(archive@), archive_name@, meta@),
        out@.len() >= 64,
        out@.subrange(0, 64) == digest_hex_of(archive@),
{
    let digest = sha256_hex(archive);
    proof {
        lemma_sidecar_first_line(digest@, archive_name@, meta@);
    }
    sidecar_text(digest.as_str(), archive_name, meta)
}

/// The sidecar begins with the digest it was written for, then two spaces,
/// then the name of the archive, and the line ends there.
pub proof fn lemma_sidecar_first_line(digest: Seq<char>, archive_name: Seq<char>, meta: MetadataView)
    ensures
        sidecar_of(digest, archive_name, meta).len() >= digest.len() + 2 + archive_name.len() + 1,
        sidecar_of(digest, archive_name, meta).subrange(0, digest.len() as int) == digest,
        sidecar_of(digest, archive_name, meta).subrange(
            digest.len() as int,
            (digest.len() + 2 + archive_name.len() + 1) as int,
        ) == "  "@ + archive_name + "\n"@,
{
    reveal_strlit("  ");
    reveal_strlit("\n");
    let line = digest + "  "@ + archive_name + "\n"@;
    let rest = "# Config Hash: "@ + meta.config_hash + "\n"@ + "# Content Hash: "@
        + meta.content_hash + "\n"@ + "# Package: "@ + meta.name + "\n"@ + "# Version: "@
        + meta.version + "\n"@ + "# Target: "@ + meta.target + "\n"@;
    assert(sidecar_of(digest, archive_name, meta) =~= line + rest);
    assert((line + rest).subrange(0, digest.len() as int) =~= digest);
    assert((line + rest).subrange(
        digest.len() as int,
        (digest.len() + 2 + archive_name.len() + 1) as int,
    ) =~= "  "@ + archive_name + "\n"@);
}

/// The name of the metadata entry inside every archive.
pub open spec fn metadata_entry_name() -> Seq<char> {
    "METADATA.json"@
}

/// The file mode of the metadata entry: read and write for the owner, read
/// for everyone else.
pub const METADATA_MODE: u32 = 0o644;

/// A build output on disk: a directory with its files, or a single file.
pub enum BuildOutput {
    Directory { root: String, tree: FileTree },
    File { path: String },
}

/// One payload entry of an archive: the entry on disk, what it is, and its
/// name inside the archive.
#[derive(Debug, Clone, PartialEq, Eq)]
pub struct ArchiveEntry {
    pub source: String,
    pub kind: EntryKind,
    pub name: String,
}

/// What an [`ArchiveEntry`] stands for.
pub struct EntryView {
    pub source: Seq<char>,
    pub kind: EntryKind,
    pub name: Seq<char>,
}

impl View for ArchiveEntry {
    type V = EntryView;

    open spec fn view(&self) -> EntryView {
        EntryView { source: self.source@, kind: self.kind, name: self.name@ }
    }
}

/// The entry that closes every archive. Its size is the number of bytes of
/// its data.
#[derive(Debug, Clone, PartialEq, Eq)]
pub struct MetadataEntry {
    pub name: String,
    pub mode: u32,
    pub size: u64,
    pub data: Vec<u8>,
}

/// An archive to be written: the payload entries in their order, then the
/// metadata entry.
#[derive(Debug, Clone, PartialEq, Eq)]
pub struct ArchivePlan {
    pub payload: Vec<ArchiveEntry>,
    pub metadata: MetadataEntry,
}

/// The entries that `plan` stands for.
pub open spec fn entries_of(payload: Seq<ArchiveEntry>) -> Seq<EntryView> {
    payload.map_values(|e: ArchiveEntry| e@)
}

/// The payload for a directory: each entry of it in path order, files,
/// directories and links alike, named by the package name, a slash, and the
/// path of the entry below the directory.
pub open spec fn directory_payload(root: Seq<char>, package_name: Seq<char>, files: Seq<FileView>) -> Seq<
    EntryView,
> {
    Seq::new(
        files.len(),
        |i: int|
            EntryView {
                source: root + "/"@ + files[i].path,
                kind: files[i].kind,
                name: package_name + "/"@ + files[i].path,
            },
    )
}

/// The payload for a single file: the file alone, named by the last
/// component of its path.
pub open spec fn file_payload(path: Seq<char>) -> Seq<EntryView> {
    seq![EntryView { source: path, kind: EntryKind::File, name: after_last(path, '/') }]
}

impl BuildOutput {
    /// The payload that the archive of this output holds.
    pub open spec fn payload(&self, package_name: Seq<char>) -> Seq<EntryView> {
        match self {
            BuildOutput::Directory { root, tree } => directory_payload(root@, package_name, tree@),
            BuildOutput::File { path } => file_payload(path@),
        }
    }
}

/// Whether `entry` is the metadata entry for the record `meta`: it carries
/// the record as JSON in UTF-8, under the fixed name and mode, and its size
/// is the length of that data.
pub open spec fn is_metadata_entry(entry: MetadataEntry, meta: MetadataView) -> bool {
    &&& entry.name@ == metadata_entry_name()
    &&& entry.mode == METADATA_MODE
    &&& entry.data@ == encode_utf8(metadata_json_of(meta))
    &&& entry.size == entry.data@.len()
}

/// Lists the payload of a directory.
pub fn plan_directory(root: &str, package_name: &str, tree: &FileTree) -> (out: Vec<ArchiveEntry>)
    ensures
        entries_of(out@) == directory_payload(root@, package_name@, tree@),
{
    let mut out: Vec<ArchiveEntry> = Vec::new();
    let mut i: usize = 0;
    while i < tree.len()
        invariant
            i <= tree@.len(),
            out@.len() == i,
            entries_of(out@) == directory_payload(root@, package_name@, tree@.take(i as int)),
        decreases tree@.len() - i,
    {
        let path = tree.path_at(i).unwrap();
        let kind = tree.kind_at(i).unwrap();
        let mut source = String::from_str(root);
        source.append("/");
        source.append(path.as_str());
        let mut name = String::from_str(package_name);
        name.append("/");
        name.append(path.as_str());
        let ghost before = out@;
        let entry = ArchiveEntry { source, kind, name };
        out.push(entry);
        proof {
            let shorter = directory_payload(root@, package_name@, tree@.take(i as int));
            let longer = directory_payload(root@, package_name@, tree@.take(i as int + 1));
            assert(entries_of(before) == shorter);
            assert forall|j: int| 0 <= j < longer.len() implies entries_of(out@)[j] == longer[j] by {
                if j < i {
                    assert(entries_of(out@)[j] == entries_of(before)[j]);
                    assert(shorter[j] == longer[j]);
                } else {
                    assert(out@[j] == entry);
                }
            }
            assert(entries_of(out@) =~= longer);
        }
        i = i + 1;
    }
    assert(tree@.take(i as int) =~= tree@);
    out
}

/// Lists the payload of a single file.
pub fn plan_file(path: &str) -> (out: Vec<ArchiveEntry>)
    ensures
        entries_of(out@) == file_payload(path@),
{
    let mut out: Vec<ArchiveEntry> = Vec::new();
    let entry = ArchiveEntry {
        source: String::from_str(path),
        kind: EntryKind::File,
        name: last_segment(path, '/'),
    };
    out.push(entry);
    assert(entries_of(out@) =~= file_payload(path@));
    out
}

/// Builds the metadata entry for `meta`.
pub fn metadata_entry(meta: &PackageMetadata) -> (out: MetadataEntry)
    ensures
        is_metadata_entry(out, meta@),
{
    let json = metadata_json(meta);
    let data = json.as_str().as_bytes_vec();
    let size: u64 = data.len() as u64;
    MetadataEntry { name: String::from_str("METADATA.json"), mode: METADATA_MODE, size, data }
}

/// Plans the archive of a build output: its payload in path order, and the
/// metadata entry behind it.
pub fn plan_archive(output: &BuildOutput, package_name: &str, meta: &PackageMetadata) -> (out:
    ArchivePlan)
    ensures
        entries_of(out.payload@) == output.payload(package_name@),
        is_metadata_entry(out.metadata, meta@),
{
    let metadata = metadata_entry(meta);
    let payload = match output {
        BuildOutput::Directory { root, tree } => plan_directory(root.as_str(), package_name, tree),
        BuildOutput::File { path } => plan_file(path.as_str()),
    };
    ArchivePlan { payload, metadata }
}

/// Packaging is reproducible: two listings of the same files, in whatever
/// order each was read, give the same content fingerprint and the same
/// payload entries in the same order; and the same metadata record gives the
/// same JSON and, for the same archive bytes, the same sidecar.
pub proof fn lemma_archive_is_reproducible(
    root: Seq<char>,
    package_name: Seq<char>,
    a: Seq<FileView>,
    b: Seq<FileView>,
    meta_a: MetadataView,
    meta_b: MetadataView,
    archive: Seq<u8>,
    archive_name: Seq<char>,
)
    requires
        same_files(a, b),
        meta_a == meta_b,
    ensures
        content_fingerprint_of(a) == content_fingerprint_of(b),
        directory_payload(root, package_name, in_path_order(a)) == directory_payload(
            root,
            package_name,
            in_path_order(b),
        ),
        metadata_json_of(meta_a) == metadata_json_of(meta_b),
        sidecar_of(digest_hex_of(archive), archive_name, meta_a) == sidecar_of(
            digest_hex_of(archive),
            archive_name,
            meta_b,
        ),
{
    lemma_listing_order_irrelevant(a, b);
}

} // verus!
