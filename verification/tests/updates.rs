use std::io::Write;

use adi_cli::archive::{extension, file_name, find_binary, read_tar_gz, read_zip, ArchiveEntry, ArchiveFault, ArchiveListing};
use adi_cli::error::InstallerError;
use adi_cli::release_installer::{ArchiveKind, ReleaseInstaller};
use adi_cli::self_update::{
    binary_name_for, detect_platform, release_version, select_asset, select_cli_release, update_available,
    extract_update_binary, update_binary, update_needed, version_is_newer, GitHubAsset, GitHubRelease, UpdateError,
};

fn release(tag: &str, assets: &[&str]) -> GitHubRelease {
    GitHubRelease {
        tag_name: tag.to_string(),
        assets: assets
            .iter()
            .map(|n| GitHubAsset { name: n.to_string(), browser_download_url: format!("https://dl/{}", n) })
            .collect(),
    }
}

fn tar_gz(files: &[(&str, &[u8])]) -> Vec<u8> {
    let mut builder = tar::Builder::new(Vec::new());
    for (path, data) in files {
        let mut header = tar::Header::new_gnu();
        header.set_size(data.len() as u64);
        header.set_mode(0o755);
        header.set_cksum();
        builder.append_data(&mut header, path, *data).unwrap();
    }
    let tar_bytes = builder.into_inner().unwrap();
    let mut gz = flate2::write::GzEncoder::new(Vec::new(), flate2::Compression::default());
    gz.write_all(&tar_bytes).unwrap();
    gz.finish().unwrap()
}

fn zip_bytes(files: &[(&str, &[u8])]) -> Vec<u8> {
    let mut writer = zip::ZipWriter::new(std::io::Cursor::new(Vec::new()));
    let options = zip::write::SimpleFileOptions::default().compression_method(zip::CompressionMethod::Stored);
    for (path, data) in files {
        writer.start_file(*path, options).unwrap();
        writer.write_all(data).unwrap();
    }
    writer.finish().unwrap().into_inner()
}

#[test]
fn test_version_comparison() {
    assert!(version_is_newer("1.0.1", "1.0.0"));
    assert!(version_is_newer("1.1.0", "1.0.0"));
    assert!(version_is_newer("2.0.0", "1.0.0"));
    assert!(!version_is_newer("1.0.0", "1.0.0"));
    assert!(!version_is_newer("1.0.0", "1.0.1"));
    assert!(version_is_newer("v1.0.1", "v1.0.0"));
}

#[test]
fn version_comparison_edges() {
    assert!(version_is_newer("1.0.0.1", "1.0.0"));
    assert!(!version_is_newer("1.0", "1.0.0"));
    assert!(version_is_newer("10.0.0", "9.9.9"));
    assert!(version_is_newer("1.x.3", "1.2"));
    assert!(version_is_newer("v2", "1.9"));
    assert_eq!(update_available("0.9.0".to_string(), "0.8.8"), Some("0.9.0".to_string()));
    assert_eq!(update_available("0.8.8".to_string(), "0.8.8"), None);
    assert_eq!(release_version("cli-v0.9.0"), "0.9.0");
    assert_eq!(release_version("v0.9.0"), "v0.9.0");
    assert!(update_needed(true, "0.8.8", "0.8.8"));
    assert!(update_needed(false, "0.9.0", "0.8.8"));
    assert!(!update_needed(false, "0.8.8", "0.8.8"));
}

#[test]
fn cli_release_selection() {
    let releases = vec![release("indexer-v1.0.0", &[]), release("v0.7.0", &[]), release("cli-v0.8.8", &[])];
    assert_eq!(select_cli_release(&releases).ok(), Some(2));
    let legacy = vec![release("indexer-v1.0.0", &[]), release("cli-0.1", &[]), release("v0.7.0", &[])];
    assert_eq!(select_cli_release(&legacy).ok(), Some(2));
    assert!(matches!(select_cli_release(&vec![release("indexer-v1", &[])]), Err(UpdateError::NoCliRelease)));
}

#[test]
fn update_platforms_and_assets() {
    assert_eq!(detect_platform("macos", "aarch64").ok(), Some("apple-darwin-aarch64".to_string()));
    assert_eq!(detect_platform("linux", "x86_64").ok(), Some("unknown-linux-gnu-x86_64".to_string()));
    assert_eq!(detect_platform("windows", "x86_64").ok(), Some("pc-windows-msvc-x86_64".to_string()));
    assert!(matches!(detect_platform("freebsd", "x86_64"), Err(UpdateError::UnsupportedOs)));
    assert!(matches!(detect_platform("linux", "riscv64"), Err(UpdateError::UnsupportedArch)));
    let r = release("cli-v1.0.0", &["adi-apple-darwin-x86_64.tar.gz", "adi-unknown-linux-gnu-x86_64.tar.gz"]);
    assert_eq!(select_asset(&r, "unknown-linux-gnu-x86_64").ok().unwrap().name, "adi-unknown-linux-gnu-x86_64.tar.gz");
    match select_asset(&r, "pc-windows-msvc-aarch64") {
        Err(UpdateError::NoAssetForPlatform(p)) => assert_eq!(p, "pc-windows-msvc-aarch64"),
        _ => panic!("no asset"),
    }
    assert_eq!(binary_name_for("windows"), "adi.exe");
    assert_eq!(binary_name_for("linux"), "adi");
}

#[test]
fn release_installer_selection() {
    let ri = ReleaseInstaller::new("adi-family", "adi-cli", "adi-indexer");
    assert_eq!(ri.releases_url(), "https://api.github.com/repos/adi-family/adi-cli/releases/latest");
    let ri = ri.with_tag_prefix("indexer-");
    assert_eq!(ri.tag_prefix().map(|s| s.as_str()), Some("indexer-"));
    assert_eq!(ri.releases_url(), "https://api.github.com/repos/adi-family/adi-cli/releases");
    let releases = vec![release("cli-v1", &[]), release("indexer-v2", &[]), release("indexer-v1", &[])];
    assert_eq!(ri.select_tagged_release(&releases, "indexer-").ok(), Some(1));
    match ri.select_tagged_release(&releases, "tasks-") {
        Err(e) => assert_eq!(e.message(), "Installation failed for 'adi-cli': No release found with tag prefix: tasks-"),
        Ok(_) => panic!("no such release"),
    }
    assert_eq!(ri.detect_platform("macos", "aarch64"), ("darwin".to_string(), "aarch64".to_string()));
    assert_eq!(ri.detect_platform("solaris", "sparc"), ("unknown".to_string(), "unknown".to_string()));
    let r = release("indexer-v2", &["Indexer-Linux-X86_64.tar.gz", "indexer-darwin-aarch64.zip"]);
    assert_eq!(ri.select_asset(&r, "linux", "x86_64").ok(), Some(0));
    match ri.select_asset(&r, "windows", "x86_64") {
        Err(e) => assert_eq!(e.message(), "Installation failed for 'adi-cli': No release asset found for platform: windows-x86_64"),
        Ok(_) => panic!("no asset"),
    }
    assert!(ReleaseInstaller::archive_kind("a.tar.gz") == ArchiveKind::TarGz);
    assert!(ReleaseInstaller::archive_kind("a.tgz") == ArchiveKind::TarGz);
    assert!(ReleaseInstaller::archive_kind("a.zip") == ArchiveKind::Zip);
    assert!(ReleaseInstaller::archive_kind("adi") == ArchiveKind::Raw);
}

#[test]
fn archives_are_read_in_order() {
    let bytes = tar_gz(&[("pkg/README", b"hello"), ("pkg/bin/adi-indexer", b"\x7fELF")]);
    let listing = read_tar_gz(&bytes);
    assert!(listing.fault.is_none());
    assert_eq!(listing.entries.len(), 2);
    assert_eq!(listing.entries[1].path, b"pkg/bin/adi-indexer".to_vec());
    assert_eq!(listing.entries[1].content.as_ref().ok(), Some(&b"\x7fELF".to_vec()));
    assert_eq!(find_binary(&listing, "adi-indexer", false), Some(1));
    assert_eq!(find_binary(&listing, "adi-indexer", true), None);
    let zbytes = zip_bytes(&[("adi", b"binary"), ("docs/adi.txt", b"text")]);
    let zl = read_zip(&zbytes);
    assert!(zl.fault.is_none());
    assert_eq!(zl.entries[0].path, b"adi".to_vec());
    assert_eq!(find_binary(&zl, "adi", true), Some(0));
    let broken = read_zip(b"not a zip");
    assert!(broken.entries.is_empty() && broken.fault.is_some());
}

#[test]
fn binary_from_downloads() {
    let ri = ReleaseInstaller::new("adi-family", "adi-cli", "adi-indexer");
    let bytes = tar_gz(&[("pkg/README", b"hello"), ("pkg/bin/adi-indexer", b"\x7fELF")]);
    assert_eq!(ri.binary_from_download("indexer.tar.gz", bytes).ok(), Some(b"\x7fELF".to_vec()));
    let zbytes = zip_bytes(&[("dist/adi-indexer", b"zipped")]);
    assert_eq!(ri.binary_from_download("indexer.zip", zbytes).ok(), Some(b"zipped".to_vec()));
    assert_eq!(ri.binary_from_download("adi-indexer", vec![1, 2, 3]).ok(), Some(vec![1, 2, 3]));
    let empty = tar_gz(&[("pkg/README", b"hello")]);
    match ri.binary_from_download("indexer.tgz", empty) {
        Err(InstallerError::InstallationFailed { component, reason }) => {
            assert_eq!(component, "adi-cli");
            assert_eq!(reason, "Binary 'adi-indexer' not found in archive");
        }
        _ => panic!("no binary in the archive"),
    }
    match ri.binary_from_download("indexer.zip", b"garbage".to_vec()) {
        Err(InstallerError::InstallationFailed { reason, .. }) => {
            assert!(reason.starts_with("Failed to read zip archive: "))
        }
        _ => panic!("not a zip archive"),
    }
}

#[test]
fn update_archives() {
    let zbytes = zip_bytes(&[("sub/adi.exe", b"nested"), ("adi.exe", b"top")]);
    assert_eq!(update_binary("adi-pc-windows-msvc-x86_64.zip", &zbytes, "adi.exe"), Ok(Some(b"top".to_vec())));
    let tbytes = tar_gz(&[("adi-1.0/adi", b"elf")]);
    assert_eq!(update_binary("adi-unknown-linux-gnu-x86_64.tar.gz", &tbytes, "adi"), Ok(Some(b"elf".to_vec())));
    let other = tar_gz(&[("adi-1.0/README", b"x")]);
    assert_eq!(update_binary("adi.tar.gz", &other, "adi"), Ok(None));
    assert!(update_binary("adi.tar.gz", b"garbage", "adi").is_err());
}

#[test]
fn update_selects_published_asset_for_this_platform() {
    let platform = detect_platform("linux", "x86_64").ok().unwrap();
    let r = release("cli-v1.2.0", &["adi-unknown-linux-gnu-x86_64.tar.gz"]);
    assert_eq!(select_asset(&r, &platform).ok().unwrap().name, "adi-unknown-linux-gnu-x86_64.tar.gz");
    let platform = detect_platform("windows", "aarch64").ok().unwrap();
    let r = release("cli-v1.2.0", &["adi-apple-darwin-aarch64.tar.gz", "adi-pc-windows-msvc-aarch64.zip"]);
    assert_eq!(select_asset(&r, &platform).ok().unwrap().name, "adi-pc-windows-msvc-aarch64.zip");
}

#[test]
fn update_binary_from_listing() {
    let listing = ArchiveListing {
        entries: vec![
            ArchiveEntry { path: b"pkg/README".to_vec(), content: Ok(b"hi".to_vec()) },
            ArchiveEntry { path: b"pkg/adi".to_vec(), content: Ok(b"bin".to_vec()) },
        ],
        fault: None,
    };
    assert_eq!(extract_update_binary(&listing, "adi", false), Ok(Some(b"bin".to_vec())));
    assert_eq!(extract_update_binary(&listing, "adi", true), Ok(None));
    let broken = ArchiveListing { entries: vec![], fault: Some(ArchiveFault::Entry("bad header".to_string())) };
    assert_eq!(extract_update_binary(&broken, "adi", false), Err("bad header".to_string()));
}

#[test]
fn release_binary_from_listing() {
    let ri = ReleaseInstaller::new("adi-family", "adi-cli", "adi-indexer");
    let listing = ArchiveListing {
        entries: vec![ArchiveEntry { path: b"bin/adi-indexer".to_vec(), content: Err("truncated".to_string()) }],
        fault: None,
    };
    match ri.binary_from_listing(&listing, true) {
        Err(InstallerError::InstallationFailed { reason, .. }) => assert_eq!(reason, "Failed to read binary: truncated"),
        _ => panic!("the entry could not be read"),
    }
    let broken = ArchiveListing { entries: vec![], fault: Some(ArchiveFault::Open("eof".to_string())) };
    match ri.binary_from_listing(&broken, false) {
        Err(InstallerError::InstallationFailed { reason, .. }) => assert_eq!(reason, "Failed to read zip archive: eof"),
        _ => panic!("the archive could not be opened"),
    }
}

#[test]
fn path_names_as_unix_paths_give_them() {
    let cases = [
        "/usr/bin/", "tmp/foo.txt", "foo.txt/.", "foo.txt/.//", "foo.txt/..", "/", "", ".", "..", "./a", "a/./b",
        "archive.tar.gz", ".hidden", "dir.d/name", "name.", "a//b//", "x/.config", "pkg/adi.exe",
    ];
    for c in cases {
        let p = std::path::Path::new(c);
        let want_name = p.file_name().map(|n| n.to_str().unwrap().as_bytes().to_vec());
        let want_ext = p.extension().map(|n| n.to_str().unwrap().as_bytes().to_vec());
        assert_eq!(file_name(c.as_bytes()), want_name, "file name of {:?}", c);
        assert_eq!(extension(c.as_bytes()), want_ext, "extension of {:?}", c);
    }
    assert_eq!(file_name(b"pkg/bin/adi-indexer"), Some(b"adi-indexer".to_vec()));
    assert_eq!(extension(b"adi-unknown-linux-gnu-x86_64.tar.gz"), Some(b"gz".to_vec()));
    assert_eq!(extension(b"dir.d/README"), None);
}

#[test]
fn tar_entries_keep_their_path_bytes() {
    let bytes = tar_gz(&[("pkg/bin/adi", b"elf")]);
    let listing = read_tar_gz(&bytes);
    assert_eq!(listing.entries[0].path, b"pkg/bin/adi".to_vec());
    assert_eq!(extract_update_binary(&listing, "adi", false), Ok(Some(b"elf".to_vec())));
}
