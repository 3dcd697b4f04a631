use flate2::read::GzDecoder;
use flate2::write::GzEncoder;
use flate2::Compression;
use package_binary::archive::{
    archive_file_name, artifact_for, checksum_sidecar, frame_metadata_json, join_path,
    json_string, metadata_entry, metadata_json, plan_archive, plan_directory, plan_file,
    sidecar_file_name, sidecar_text, ArchiveEntry, ArchivePlan, BuildOutput, PackageMetadata,
    METADATA_MODE,
};
use package_binary::config::{config_fingerprint, ConfigSources, Lookup};
use package_binary::target::{resolve_target_info, select_built_package, ConfigDirProbe, TargetInfo};
use package_binary::tree::{EntryKind, FileEntry, FileTree};
use sha2::{Digest, Sha256};
use std::io::{Read, Write};

fn meta() -> PackageMetadata {
    PackageMetadata {
        target: "//pkg:foo".to_string(),
        name: "foo".to_string(),
        version: "1.2.3".to_string(),
        config_hash: "0123456789abcdef".to_string(),
        content_hash: "fedcba9876543210".to_string(),
    }
}

fn entry(path: &str, content: &[u8]) -> FileEntry {
    FileEntry { path: path.to_string(), kind: EntryKind::File, content: content.to_vec() }
}

fn directory(path: &str) -> FileEntry {
    FileEntry { path: path.to_string(), kind: EntryKind::Directory, content: Vec::new() }
}

fn planned(source: &str, name: &str) -> ArchiveEntry {
    ArchiveEntry { source: source.to_string(), kind: EntryKind::File, name: name.to_string() }
}

fn planned_dir(source: &str, name: &str) -> ArchiveEntry {
    ArchiveEntry { source: source.to_string(), kind: EntryKind::Directory, name: name.to_string() }
}

fn write_archive(plan: &ArchivePlan, files: &[(String, Vec<u8>)]) -> Vec<u8> {
    let encoder = GzEncoder::new(Vec::new(), Compression::default());
    let mut builder = tar::Builder::new(encoder);
    for item in &plan.payload {
        let mut header = tar::Header::new_gnu();
        header.set_mode(0o755);
        if item.kind == EntryKind::Directory {
            header.set_entry_type(tar::EntryType::Directory);
            header.set_size(0);
            header.set_cksum();
            builder.append_data(&mut header, &item.name, std::io::empty()).unwrap();
        } else {
            let content = &files.iter().find(|(path, _)| *path == item.source).unwrap().1;
            header.set_size(content.len() as u64);
            header.set_cksum();
            builder.append_data(&mut header, &item.name, content.as_slice()).unwrap();
        }
    }
    let mut header = tar::Header::new_gnu();
    header.set_size(plan.metadata.size);
    header.set_mode(plan.metadata.mode);
    header.set_cksum();
    builder.append_data(&mut header, &plan.metadata.name, plan.metadata.data.as_slice()).unwrap();
    let mut encoder = builder.into_inner().unwrap();
    encoder.flush().unwrap();
    encoder.finish().unwrap()
}

fn read_archive(bytes: &[u8]) -> Vec<(String, u32, Vec<u8>)> {
    let mut archive = tar::Archive::new(GzDecoder::new(bytes));
    let mut out = Vec::new();
    for item in archive.entries().unwrap() {
        let mut item = item.unwrap();
        let name = item.path().unwrap().to_string_lossy().into_owned();
        let mode = item.header().mode().unwrap();
        let mut content = Vec::new();
        item.read_to_end(&mut content).unwrap();
        out.push((name, mode, content));
    }
    out
}

#[test]
fn archive_name_joins_name_version_and_config_hash() {
    assert_eq!(
        archive_file_name("foo", "1.2.3", "0123456789abcdef"),
        "foo-1.2.3-0123456789abcdef-bin.tar.gz"
    );
    assert_eq!(archive_file_name("", "", ""), "---bin.tar.gz");
    assert_eq!(archive_file_name("a-b", "unknown", "ff"), "a-b-unknown-ff-bin.tar.gz");
}

#[test]
fn sidecar_name_adds_its_suffix_to_the_archive_name() {
    assert_eq!(sidecar_file_name("foo-1-ab-bin.tar.gz"), "foo-1-ab-bin.tar.gz.sha256");
    assert_eq!(sidecar_file_name("out/x.tar.gz"), "out/x.tar.gz.sha256");
}

#[test]
fn join_path_puts_one_slash_between() {
    assert_eq!(join_path("binaries", "a.tar.gz"), "binaries/a.tar.gz");
    assert_eq!(join_path("binaries/", "a.tar.gz"), "binaries/a.tar.gz");
    assert_eq!(join_path("/", "a"), "/a");
    assert_eq!(join_path("", "a"), "a");
}

#[test]
fn artifact_is_named_from_name_version_and_config_hash() {
    let artifact = artifact_for("binaries", &meta());
    assert_eq!(artifact.archive_name, "foo-1.2.3-0123456789abcdef-bin.tar.gz");
    assert_eq!(artifact.archive_path, "binaries/foo-1.2.3-0123456789abcdef-bin.tar.gz");
    assert_eq!(artifact.sidecar_path, "binaries/foo-1.2.3-0123456789abcdef-bin.tar.gz.sha256");
}

#[test]
fn two_targets_with_the_same_identity_share_one_archive_name() {
    let mut other = meta();
    other.target = "//elsewhere:foo".to_string();
    other.content_hash = "0000000000000000".to_string();
    assert_eq!(artifact_for("out", &meta()), artifact_for("out", &other));
}

#[test]
fn frame_puts_the_five_values_in_their_order() {
    assert_eq!(
        frame_metadata_json("\"t\"", "\"n\"", "\"v\"", "\"c\"", "\"h\""),
        "{\n  \"target\": \"t\",\n  \"name\": \"n\",\n  \"version\": \"v\",\n  \"config_hash\": \"c\",\n  \"content_hash\": \"h\"\n}"
    );
}

#[test]
fn metadata_json_is_pretty_printed() {
    let expected = "{\n  \"target\": \"//pkg:foo\",\n  \"name\": \"foo\",\n  \"version\": \"1.2.3\",\n  \"config_hash\": \"0123456789abcdef\",\n  \"content_hash\": \"fedcba9876543210\"\n}";
    assert_eq!(metadata_json(&meta()), expected);
}

#[test]
fn metadata_json_escapes_what_json_must_escape() {
    let mut m = meta();
    m.name = "fo\"o\\bar".to_string();
    m.version = "line\nbreak\ttab".to_string();
    m.target = "//pkg:ü\u{1}".to_string();
    let json = metadata_json(&m);
    assert!(json.contains("\"name\": \"fo\\\"o\\\\bar\""));
    assert!(json.contains("\"version\": \"line\\nbreak\\ttab\""));
    let parsed: serde_json::Value = serde_json::from_str(&json).unwrap();
    assert_eq!(parsed.get("target").unwrap().as_str(), Some(m.target.as_str()));
    assert_eq!(parsed.get("name").unwrap().as_str(), Some(m.name.as_str()));
    assert_eq!(parsed.get("version").unwrap().as_str(), Some(m.version.as_str()));
    assert_eq!(parsed.get("config_hash").unwrap().as_str(), Some("0123456789abcdef"));
    assert_eq!(parsed.get("content_hash").unwrap().as_str(), Some("fedcba9876543210"));
    assert_eq!(parsed.as_object().unwrap().len(), 5);
}

#[test]
fn metadata_entry_has_fixed_name_and_mode_and_exact_size() {
    let item = metadata_entry(&meta());
    assert_eq!(item.name, "METADATA.json");
    assert_eq!(item.mode, 0o644);
    assert_eq!(METADATA_MODE, 420);
    assert_eq!(item.data, metadata_json(&meta()).into_bytes());
    assert_eq!(item.size, item.data.len() as u64);
    let mut m = meta();
    m.name = "größe".to_string();
    let item = metadata_entry(&m);
    assert_eq!(item.size as usize, metadata_json(&m).len());
    assert!(item.size as usize > metadata_json(&m).chars().count());
}

#[test]
fn directory_payload_is_named_below_the_package_in_path_order() {
    let tree = FileTree::from_listing(vec![
        entry("usr/lib/libfoo.so", b""),
        entry("usr/bin/foo", b""),
        entry("README", b""),
    ])
    .unwrap();
    assert_eq!(
        plan_directory("out/foo", "foo", &tree),
        vec![
            planned("out/foo/README", "foo/README"),
            planned("out/foo/usr/bin/foo", "foo/usr/bin/foo"),
            planned("out/foo/usr/lib/libfoo.so", "foo/usr/lib/libfoo.so"),
        ]
    );
    let empty = FileTree::from_listing(Vec::new()).unwrap();
    assert_eq!(plan_directory("out/foo", "foo", &empty), Vec::new());
}

#[test]
fn file_payload_is_named_by_its_base_name() {
    assert_eq!(plan_file("out/gen/tool.bin"), vec![planned("out/gen/tool.bin", "tool.bin")]);
    assert_eq!(plan_file("tool"), vec![planned("tool", "tool")]);
}

#[test]
fn plan_puts_the_metadata_behind_the_payload() {
    let tree = FileTree::from_listing(vec![entry("b", b""), entry("a", b"")]).unwrap();
    let output = BuildOutput::Directory { root: "r".to_string(), tree };
    let plan = plan_archive(&output, "pkg", &meta());
    assert_eq!(plan.payload, vec![planned("r/a", "pkg/a"), planned("r/b", "pkg/b")]);
    assert_eq!(plan.metadata, metadata_entry(&meta()));

    let output = BuildOutput::File { path: "x/y/z".to_string() };
    let plan = plan_archive(&output, "pkg", &meta());
    assert_eq!(plan.payload, vec![planned("x/y/z", "z")]);
    assert_eq!(plan.metadata.name, "METADATA.json");
}

#[test]
fn plan_is_the_same_for_every_listing_order() {
    let names = ["usr/bin/foo", "usr/share/doc", "etc/foo.conf", "a"];
    let orders: [[usize; 4]; 4] = [[0, 1, 2, 3], [3, 2, 1, 0], [2, 0, 3, 1], [1, 3, 0, 2]];
    let mut plans = Vec::new();
    for order in orders {
        let listing: Vec<FileEntry> = order.iter().map(|&i| entry(names[i], b"x")).collect();
        let tree = FileTree::from_listing(listing).unwrap();
        let output = BuildOutput::Directory { root: "out".to_string(), tree };
        plans.push(plan_archive(&output, "foo", &meta()));
    }
    for plan in &plans {
        assert_eq!(plan, &plans[0]);
    }
    let listed: Vec<&str> = plans[0].payload.iter().map(|e| e.name.as_str()).collect();
    assert_eq!(listed, vec!["foo/a", "foo/etc/foo.conf", "foo/usr/bin/foo", "foo/usr/share/doc"]);
}

#[test]
fn sidecar_text_has_the_checksum_line_and_five_comment_lines() {
    let digest = "ab".repeat(32);
    let text = sidecar_text(&digest, "foo-1.2.3-0123456789abcdef-bin.tar.gz", &meta());
    let expected = format!(
        "{}  foo-1.2.3-0123456789abcdef-bin.tar.gz\n# Config Hash: 0123456789abcdef\n# Content Hash: fedcba9876543210\n# Package: foo\n# Version: 1.2.3\n# Target: //pkg:foo\n",
        digest
    );
    assert_eq!(text, expected);
}

#[test]
fn sidecar_digest_is_the_digest_of_the_archive_bytes() {
    let archive: Vec<u8> = (0..5000u32).map(|i| (i * 7 % 256) as u8).collect();
    let text = checksum_sidecar(&archive, "a.tar.gz", &meta());
    let first = text.lines().next().unwrap();
    let independent = format!("{:x}", Sha256::digest(&archive));
    assert_eq!(first, format!("{}  a.tar.gz", independent));
    assert_eq!(&first[..64], independent);
    let changed = checksum_sidecar(&archive[1..], "a.tar.gz", &meta());
    assert_ne!(changed.lines().next(), text.lines().next());
    assert_eq!(checksum_sidecar(b"", "e", &meta()).lines().next().unwrap().len(), 64 + 2 + 1);
}

#[test]
fn end_to_end_for_a_prebuilt_directory() {
    let target = "//pkg:foo";
    let probes = vec![ConfigDirProbe {
        path: "buck-out/v2/gen/root/abc123".to_string(),
        is_dir: true,
        package_exists: true,
    }];
    let root = select_built_package(target, &probes).unwrap();
    assert_eq!(root, "buck-out/v2/gen/root/abc123/pkg/__foo__/foo");

    let info = resolve_target_info(target, false, "");
    assert_eq!(info.name, "foo");
    let sources = ConfigSources {
        package_config: Lookup::Absent,
        platform: Lookup::Found("x86_64\n".to_string()),
        use_config: Lookup::Absent,
        toolchain_report: Lookup::Absent,
        dependency_report: None,
    };
    let config_hash = config_fingerprint(&sources, true);
    let listing = || vec![directory("bin"), entry("bin/foo", b"ABCDEFGH")];
    let content_hash = FileTree::from_listing(listing()).unwrap().content_fingerprint();
    assert_eq!(content_hash, "9ac2197d9258257b");

    let meta = PackageMetadata::assemble(target, &info, &config_hash, &content_hash);
    let artifact = artifact_for("binaries", &meta);
    assert_eq!(artifact.archive_name, format!("foo-{}-{}-bin.tar.gz", info.version, config_hash));
    assert_eq!(config_hash.len(), 16);
    assert!(config_hash.chars().all(|c| c.is_ascii_hexdigit()));

    let output =
        BuildOutput::Directory { root: root.clone(), tree: FileTree::from_listing(listing()).unwrap() };
    let plan = plan_archive(&output, &info.name, &meta);
    let files = vec![(format!("{}/bin/foo", root), b"ABCDEFGH".to_vec())];
    let bytes = write_archive(&plan, &files);

    let items = read_archive(&bytes);
    assert_eq!(items.len(), 3);
    assert_eq!(items[0].0, "foo/bin");
    assert_eq!(items[1].0, "foo/bin/foo");
    assert_eq!(items[1].2, b"ABCDEFGH");
    assert_eq!(items[2].0, "METADATA.json");
    assert_eq!(items[2].1, 0o644);
    let parsed: serde_json::Value = serde_json::from_slice(&items[2].2).unwrap();
    assert_eq!(parsed.get("target").unwrap().as_str(), Some(target));
    assert_eq!(parsed.get("name").unwrap().as_str(), Some("foo"));
    assert_eq!(parsed.get("version").unwrap().as_str(), Some(info.version.as_str()));
    assert_eq!(parsed.get("config_hash").unwrap().as_str(), Some(config_hash.as_str()));
    assert_eq!(parsed.get("content_hash").unwrap().as_str(), Some(content_hash.as_str()));

    let sidecar = checksum_sidecar(&bytes, &artifact.archive_name, &meta);
    let first = sidecar.lines().next().unwrap();
    assert!(first[..64].chars().all(|c| c.is_ascii_hexdigit()));
    assert_eq!(&first[64..], format!("  {}", artifact.archive_name));
    assert_eq!(&first[..64], format!("{:x}", Sha256::digest(&bytes)));

    let again = write_archive(
        &plan_archive(
            &BuildOutput::Directory { root, tree: FileTree::from_listing(listing()).unwrap() },
            &info.name,
            &meta,
        ),
        &files,
    );
    assert_eq!(read_archive(&again), items);
}

#[test]
fn plan_holds_any_text_in_the_record() {
    let mut m = meta();
    m.name = "\u{0}\u{7f}\"\\\u{2028}\u{1F600}".to_string();
    m.version = String::new();
    let output = BuildOutput::File { path: "x".to_string() };
    let plan: ArchivePlan = plan_archive(&output, "pkg", &m);
    let parsed: serde_json::Value = serde_json::from_slice(&plan.metadata.data).unwrap();
    assert_eq!(parsed.get("name").unwrap().as_str(), Some(m.name.as_str()));
    assert_eq!(parsed.get("version").unwrap().as_str(), Some(""));
}

#[test]
fn json_string_quotes_and_escapes() {
    assert_eq!(json_string("foo"), "\"foo\"");
    assert_eq!(json_string(""), "\"\"");
    assert_eq!(json_string("a\"b\\c\n"), "\"a\\\"b\\\\c\\n\"");
    assert_eq!(json_string("\u{1}ü"), "\"\\u0001ü\"");
}

#[test]
fn record_is_assembled_from_identity_and_fingerprints() {
    let info = TargetInfo { name: "foo".to_string(), version: "1.2.3".to_string() };
    assert_eq!(
        PackageMetadata::assemble("//pkg:foo", &info, "0123456789abcdef", "fedcba9876543210"),
        meta()
    );
}

#[test]
fn directory_payload_holds_directories_and_links_too() {
    let tree = FileTree::from_listing(vec![
        entry("usr/bin/foo", b""),
        directory("usr/bin"),
        directory(""),
        directory("usr"),
        directory("var/empty"),
        FileEntry { path: "usr/bin/f".to_string(), kind: EntryKind::Symlink, content: Vec::new() },
    ])
    .unwrap();
    assert_eq!(
        plan_directory("out", "foo", &tree),
        vec![
            planned_dir("out/", "foo/"),
            planned_dir("out/usr", "foo/usr"),
            planned_dir("out/usr/bin", "foo/usr/bin"),
            ArchiveEntry {
                source: "out/usr/bin/f".to_string(),
                kind: EntryKind::Symlink,
                name: "foo/usr/bin/f".to_string()
            },
            planned("out/usr/bin/foo", "foo/usr/bin/foo"),
            planned_dir("out/var/empty", "foo/var/empty"),
        ]
    );
}
