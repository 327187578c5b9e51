//! Installing a component's binary from the releases of a repository: which
//! release listing to ask for, which release and asset to take, how the asset
//! is packed, and which archive entry is the binary.
//!
//! Downloading and unpacking stand outside this library.
use vstd::prelude::*;
use crate::error::InstallerError;
use crate::self_update::GitHubRelease;
use crate::archive::{
    ArchiveFaultView, ArchiveListing, ArchiveListingView, find_binary, first_binary, lemma_first_binary_unique,
    read_tar_gz, read_zip, tar_gz_listing, zip_listing,
};
use crate::text::{lowercase, to_lowercase, contains, has_infix, has_prefix, has_suffix, ends_with, owned, starts_with, str_chars, str_eq};

verus! {

/// Installs the binary of a component from the releases of a repository.
pub struct ReleaseInstaller {
    repo_owner: String,
    repo_name: String,
    binary_name: String,
    tag_prefix: Option<String>,
}

/// How a release asset is packed.
#[derive(PartialEq, Eq, Structural, Debug, Clone, Copy)]
pub enum ArchiveKind {
    /// A gzip-compressed tar archive (`.tar.gz` or `.tgz`).
    TarGz,
    /// A zip archive (`.zip`).
    Zip,
    /// The binary itself.
    Raw,
}

/// The packing that an asset's file name announces.
pub open spec fn archive_kind_of(filename: Seq<char>) -> ArchiveKind {
    if has_suffix(filename, ".tar.gz"@) || has_suffix(filename, ".tgz"@) {
        ArchiveKind::TarGz
    } else if has_suffix(filename, ".zip"@) {
        ArchiveKind::Zip
    } else {
        ArchiveKind::Raw
    }
}

/// The operating system part of asset names for a system as
/// `std::env::consts::OS` names it.
pub open spec fn os_tag(os: Seq<char>) -> Seq<char> {
    if os == "macos"@ {
        "darwin"@
    } else if os == "linux"@ {
        "linux"@
    } else if os == "windows"@ {
        "windows"@
    } else {
        "unknown"@
    }
}

/// The architecture part of asset names for an architecture as
/// `std::env::consts::ARCH` names it.
pub open spec fn arch_tag(arch: Seq<char>) -> Seq<char> {
    if arch == "x86_64"@ {
        "x86_64"@
    } else if arch == "aarch64"@ {
        "aarch64"@
    } else {
        "unknown"@
    }
}

/// Whether an asset name, in lower case, names both platform parts.
pub open spec fn asset_matches(name: Seq<char>, os: Seq<char>, arch: Seq<char>) -> bool {
    has_infix(lowercase(name), os) && has_infix(lowercase(name), arch)
}

/// How extracting the binary `name` from what was read of an archive ends:
/// the content of the first entry whose file name is the binary's, or the
/// reason of the failure (with `tar` telling a tar archive from a zip one).
pub open spec fn extraction_of(l: ArchiveListingView, tar: bool, name: Seq<char>) -> Result<Seq<u8>, Seq<char>> {
    if exists|i: int| first_binary(l.entries, name, false, i) {
        let i = choose|i: int| first_binary(l.entries, name, false, i);
        match l.entries[i].content {
            Ok(b) => Ok(b),
            Err(m) => Err("Failed to read binary: "@ + m),
        }
    } else {
        match l.fault {
            Some(ArchiveFaultView::Open(m)) => Err(
                (if tar {
                    "Failed to read tar archive: "@
                } else {
                    "Failed to read zip archive: "@
                }) + m,
            ),
            Some(ArchiveFaultView::Entry(m)) => Err(
                (if tar {
                    "Failed to read tar entry: "@
                } else {
                    "Failed to read zip entry: "@
                }) + m,
            ),
            None => Err("Binary '"@ + name + "' not found in archive"@),
        }
    }
}

/// `p` followed by `m`.
fn prefixed(p: &str, m: &str) -> (r: String)
    ensures
        r@ == p@ + m@,
{
    let mut r = owned(p);
    r.append(m);
    r
}

impl ReleaseInstaller {
    /// An installer of `binary_name` from the releases of `repo_owner/repo_name`,
    /// taking the latest release.
    pub fn new(repo_owner: &str, repo_name: &str, binary_name: &str) -> (r: Self)
        ensures
            r.repo_owner_spec() == repo_owner@,
            r.repo_name_spec() == repo_name@,
            r.binary_name_spec() == binary_name@,
            r.tag_prefix_spec() is None,
    {
        ReleaseInstaller {
            repo_owner: owned(repo_owner),
            repo_name: owned(repo_name),
            binary_name: owned(binary_name),
            tag_prefix: None,
        }
    }

    /// The installer taking the newest release whose tag starts with `tag_prefix`.
    pub fn with_tag_prefix(self, tag_prefix: &str) -> (r: Self)
        ensures
            r.repo_owner_spec() == self.repo_owner_spec(),
            r.repo_name_spec() == self.repo_name_spec(),
            r.binary_name_spec() == self.binary_name_spec(),
            r.tag_prefix_spec() == Some(tag_prefix@),
    {
        ReleaseInstaller { tag_prefix: Some(owned(tag_prefix)), ..self }
    }

    /// The owner of the repository.
    pub closed spec fn repo_owner_spec(&self) -> Seq<char> {
        self.repo_owner@
    }

    /// The name of the repository.
    pub closed spec fn repo_name_spec(&self) -> Seq<char> {
        self.repo_name@
    }

    /// The name of the binary to install.
    pub closed spec fn binary_name_spec(&self) -> Seq<char> {
        self.binary_name@
    }

    /// The prefix of the tags of the releases to take, if any.
    pub closed spec fn tag_prefix_spec(&self) -> Option<Seq<char>> {
        self.tag_prefix.deep_view()
    }

    /// The tag prefix, if the installer takes tagged releases.
    pub fn tag_prefix(&self) -> (r: Option<&String>)
        ensures
            match r {
                Some(p) => self.tag_prefix_spec() == Some(p@),
                None => self.tag_prefix_spec() is None,
            },
    {
        match &self.tag_prefix {
            Some(p) => Some(p),
            None => None,
        }
    }

    /// The address of the release listing: all releases when a tag prefix
    /// selects among them, else the latest release alone.
    pub fn releases_url(&self) -> (r: String)
        ensures
            r@ == "https://api.github.com/repos/"@ + self.repo_owner_spec() + "/"@
                + self.repo_name_spec() + if self.tag_prefix_spec() is Some {
                "/releases"@
            } else {
                "/releases/latest"@
            },
    {
        let mut r = owned("https://api.github.com/repos/");
        r.append(self.repo_owner.as_str());
        r.append("/");
        r.append(self.repo_name.as_str());
        match &self.tag_prefix {
            Some(_) => r.append("/releases"),
            None => r.append("/releases/latest"),
        }
        r
    }

    /// The first release whose tag starts with `tag_prefix`, or an
    /// installation failure of the repository's component when none does.
    pub fn select_tagged_release(&self, releases: &Vec<GitHubRelease>, tag_prefix: &str) -> (r: Result<
        usize,
        InstallerError,
    >)
        ensures
            match r {
                Ok(i) => 0 <= i < releases@.len() && has_prefix(releases@[i as int].tag_name@, tag_prefix@)
                    && forall|j: int|
                    0 <= j < i ==> !has_prefix(#[trigger] releases@[j].tag_name@, tag_prefix@),
                Err(e) => (e matches InstallerError::InstallationFailed { component, reason }
                    && component@ == self.repo_name_spec() && reason@ == "No release found with tag prefix: "@
                    + tag_prefix@) && forall|j: int|
                    0 <= j < releases@.len() ==> !has_prefix(#[trigger] releases@[j].tag_name@, tag_prefix@),
            },
    {
        let p = str_chars(tag_prefix);
        let mut i: usize = 0;
        while i < releases.len()
            invariant
                i <= releases@.len(),
                p@ == tag_prefix@,
                forall|j: int| 0 <= j < i ==> !has_prefix(#[trigger] releases@[j].tag_name@, tag_prefix@),
            decreases releases@.len() - i,
        {
            let t = str_chars(releases[i].tag_name.as_str());
            if starts_with(t.as_slice(), p.as_slice()) {
                return Ok(i);
            }
            i = i + 1;
        }
        let mut reason = owned("No release found with tag prefix: ");
        reason.append(tag_prefix);
        Err(InstallerError::InstallationFailed { component: self.repo_name.clone(), reason })
    }

    /// The platform parts of asset names, (system, architecture), for the
    /// system and architecture as `std::env::consts` names them.
    pub fn detect_platform(&self, os: &str, arch: &str) -> (r: (String, String))
        ensures
            r.0@ == os_tag(os@),
            r.1@ == arch_tag(arch@),
    {
        let o = if str_eq(os, "macos") {
            "darwin"
        } else if str_eq(os, "linux") {
            "linux"
        } else if str_eq(os, "windows") {
            "windows"
        } else {
            "unknown"
        };
        let a = if str_eq(arch, "x86_64") {
            "x86_64"
        } else if str_eq(arch, "aarch64") {
            "aarch64"
        } else {
            "unknown"
        };
        (owned(o), owned(a))
    }

    /// The asset of `release` built for this platform: the first whose name,
    /// in lower case, contains both platform parts; an installation failure
    /// of the repository's component when none does.
    pub fn select_asset(&self, release: &GitHubRelease, os: &str, arch: &str) -> (r: Result<
        usize,
        InstallerError,
    >)
        ensures
            match r {
                Ok(i) => 0 <= i < release.assets@.len() && asset_matches(
                    release.assets@[i as int].name@,
                    os_tag(os@),
                    arch_tag(arch@),
                ) && forall|j: int|
                    0 <= j < i ==> !asset_matches(
                        #[trigger] release.assets@[j].name@,
                        os_tag(os@),
                        arch_tag(arch@),
                    ),
                Err(e) => (e matches InstallerError::InstallationFailed { component, reason }
                    && component@ == self.repo_name_spec() && reason@
                    == "No release asset found for platform: "@ + os_tag(os@) + "-"@ + arch_tag(arch@))
                    && forall|j: int|
                    0 <= j < release.assets@.len() ==> !asset_matches(
                        #[trigger] release.assets@[j].name@,
                        os_tag(os@),
                        arch_tag(arch@),
                    ),
            },
    {
        let (o, a) = self.detect_platform(os, arch);
        let oc = str_chars(o.as_str());
        let ac = str_chars(a.as_str());
        let mut i: usize = 0;
        while i < release.assets.len()
            invariant
                i <= release.assets@.len(),
                oc@ == os_tag(os@),
                ac@ == arch_tag(arch@),
                forall|j: int|
                    0 <= j < i ==> !asset_matches(
                        #[trigger] release.assets@[j].name@,
                        os_tag(os@),
                        arch_tag(arch@),
                    ),
            decreases release.assets@.len() - i,
        {
            let lower = to_lowercase(release.assets[i].name.as_str());
            let l = str_chars(lower.as_str());
            if contains(l.as_slice(), oc.as_slice()) && contains(l.as_slice(), ac.as_slice()) {
                return Ok(i);
            }
            i = i + 1;
        }
        let mut reason = owned("No release asset found for platform: ");
        reason.append(o.as_str());
        reason.append("-");
        reason.append(a.as_str());
        Err(InstallerError::InstallationFailed { component: self.repo_name.clone(), reason })
    }

    /// How an asset with this file name is packed.
    pub fn archive_kind(filename: &str) -> (r: ArchiveKind)
        ensures
            r == archive_kind_of(filename@),
    {
        let f = str_chars(filename);
        let tgz = str_chars(".tar.gz");
        let tgz2 = str_chars(".tgz");
        let zip = str_chars(".zip");
        if ends_with(f.as_slice(), tgz.as_slice()) || ends_with(f.as_slice(), tgz2.as_slice()) {
            ArchiveKind::TarGz
        } else if ends_with(f.as_slice(), zip.as_slice()) {
            ArchiveKind::Zip
        } else {
            ArchiveKind::Raw
        }
    }

    /// The binary from a downloaded asset named `filename`: the bytes
    /// themselves for an asset that is not an archive, else the content of
    /// the archive entry named like the binary (see `extraction_of`), or an
    /// installation failure of this repository.
    pub fn binary_from_download(&self, filename: &str, bytes: Vec<u8>) -> (r: Result<Vec<u8>, InstallerError>)
        ensures
            archive_kind_of(filename@) == ArchiveKind::Raw ==> (r matches Ok(b) && b@ == bytes@),
            archive_kind_of(filename@) != ArchiveKind::Raw ==> ({
                let tar = archive_kind_of(filename@) == ArchiveKind::TarGz;
                let l = if tar {
                    tar_gz_listing(bytes@)
                } else {
                    zip_listing(bytes@)
                };
                match r {
                    Ok(b) => extraction_of(l, tar, self.binary_name_spec()) == Ok::<Seq<u8>, Seq<char>>(b@),
                    Err(e) => e matches InstallerError::InstallationFailed { component, reason } && component@
                        == self.repo_name_spec() && extraction_of(l, tar, self.binary_name_spec())
                        == Err::<Seq<u8>, Seq<char>>(reason@),
                }
            }),
    {
        let kind = Self::archive_kind(filename);
        let tar = kind == ArchiveKind::TarGz;
        let listing = match kind {
            ArchiveKind::Raw => {
                return Ok(bytes);
            },
            ArchiveKind::TarGz => read_tar_gz(bytes.as_slice()),
            ArchiveKind::Zip => read_zip(bytes.as_slice()),
        };
        self.binary_from_listing(&listing, tar)
    }

    /// The binary in an archive read as `listing` (a gzip-compressed tar when
    /// `tar`, else a zip): the content of the entry named like the binary
    /// (see `extraction_of`), or an installation failure of this repository.
    pub fn binary_from_listing(&self, listing: &ArchiveListing, tar: bool) -> (r: Result<Vec<u8>, InstallerError>)
        ensures
            match r {
                Ok(b) => extraction_of(listing@, tar, self.binary_name_spec()) == Ok::<Seq<u8>, Seq<char>>(b@),
                Err(e) => e matches InstallerError::InstallationFailed { component, reason } && component@
                    == self.repo_name_spec() && extraction_of(listing@, tar, self.binary_name_spec())
                    == Err::<Seq<u8>, Seq<char>>(reason@),
            },
    {
        let ghost l = listing@;
        let reason = match find_binary(listing, self.binary_name.as_str(), false) {
            Some(i) => {
                proof {
                    assert forall|j: int| first_binary(l.entries, self.binary_name_spec(), false, j) implies j
                        == i by {
                        lemma_first_binary_unique(l.entries, self.binary_name_spec(), false, i as int, j);
                    }
                }
                assert(l.entries[i as int] == listing.entries@[i as int]@);
                match &listing.entries[i].content {
                    Ok(b) => {
                        return Ok(b.clone());
                    },
                    Err(m) => prefixed("Failed to read binary: ", m.as_str()),
                }
            },
            None => match &listing.fault {
                Some(crate::archive::ArchiveFault::Open(m)) => if tar {
                    prefixed("Failed to read tar archive: ", m.as_str())
                } else {
                    prefixed("Failed to read zip archive: ", m.as_str())
                },
                Some(crate::archive::ArchiveFault::Entry(m)) => if tar {
                    prefixed("Failed to read tar entry: ", m.as_str())
                } else {
                    prefixed("Failed to read zip entry: ", m.as_str())
                },
                None => {
                    let mut reason = owned("Binary '");
                    reason.append(self.binary_name.as_str());
                    reason.append("' not found in archive");
                    reason
                },
            },
        };
        Err(InstallerError::InstallationFailed { component: self.repo_name.clone(), reason })
    }
}

} // verus!
