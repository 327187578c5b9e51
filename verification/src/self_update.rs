//! Version comparison and release selection for updating the CLI itself.
//!
//! Fetching release lists, downloading and replacing the binary are I/O and
//! stand outside this library; what is decided on their results stands here.
use vstd::prelude::*;
use vstd::utf8::encode_utf8;
use crate::text::{
    contains, has_infix, has_prefix, occurs_at, owned, parse_unsigned, parse_unsigned_exec, split_char, split_on,
    starts_with, str_chars, str_eq, string_from_chars, trim_leading, trim_start_char,
};

use crate::archive::{
    ArchiveListing, ArchiveListingView, extension, fault_message, find_binary, first_binary, lemma_first_binary_unique,
    path_extension, read_tar_gz, read_zip, tar_gz_listing, zip_listing,
};

verus! {

/// A release as the release listing describes it.
pub struct GitHubRelease {
    pub tag_name: String,
    pub assets: Vec<GitHubAsset>,
}

/// A downloadable file of a release.
pub struct GitHubAsset {
    pub name: String,
    pub browser_download_url: String,
}

/// Why an update cannot proceed.
pub enum UpdateError {
    /// The operating system has no release builds.
    UnsupportedOs,
    /// The processor architecture has no release builds.
    UnsupportedArch,
    /// No asset of the release is built for the platform (the platform string).
    NoAssetForPlatform(String),
    /// No release of the CLI manager itself was found.
    NoCliRelease,
}

/// The numeric parts of the pieces of a version, in order; pieces that are
/// not a valid `u32` are dropped (`filter_map(|s| s.parse().ok())`).
pub open spec fn parsed_parts(pieces: Seq<Seq<char>>) -> Seq<u32>
    decreases pieces.len(),
{
    if pieces.len() == 0 {
        Seq::<u32>::empty()
    } else {
        let r = parsed_parts(pieces.drop_last());
        match parse_unsigned(pieces.last(), 0xffff_ffff) {
            Some(v) => r.push(v as u32),
            None => r,
        }
    }
}

/// The numeric parts of a version string: leading `v`s removed, split on `.`.
pub open spec fn version_parts(v: Seq<char>) -> Seq<u32> {
    parsed_parts(split_on(trim_leading(v, 'v'), '.'))
}

/// Lexicographic comparison of version parts, where a version that extends
/// an equal prefix with more parts is the newer one.
pub open spec fn parts_newer(l: Seq<u32>, c: Seq<u32>) -> bool
    decreases l.len(),
{
    if l.len() == 0 || c.len() == 0 {
        l.len() > c.len()
    } else if l[0] > c[0] {
        true
    } else if l[0] < c[0] {
        false
    } else {
        parts_newer(l.drop_first(), c.drop_first())
    }
}

/// Whether version `latest` is newer than version `current`.
pub open spec fn version_newer(latest: Seq<char>, current: Seq<char>) -> bool {
    parts_newer(version_parts(latest), version_parts(current))
}

/// The numeric parts of a version string (executable).
fn parse_version(v: &str) -> (r: Vec<u32>)
    ensures
        r@ == version_parts(v@),
{
    let chars = str_chars(v);
    let trimmed = trim_start_char(chars.as_slice(), 'v');
    let pieces = split_char(trimmed.as_slice(), '.');
    let ghost sp = split_on(trimmed@, '.');
    let mut r: Vec<u32> = Vec::new();
    let mut i: usize = 0;
    while i < pieces.len()
        invariant
            i <= pieces@.len(),
            pieces@.len() == sp.len(),
            forall|j: int| 0 <= j < pieces@.len() ==> #[trigger] pieces@[j]@ == sp[j],
            r@ == parsed_parts(sp.take(i as int)),
        decreases pieces@.len() - i,
    {
        assert(sp.take(i + 1).drop_last() =~= sp.take(i as int));
        assert(sp.take(i + 1).last() == pieces@[i as int]@);
        match parse_unsigned_exec(pieces[i].as_slice(), 0xffff_ffff) {
            Some(x) => {
                r.push(x as u32);
            },
            None => {},
        }
        i = i + 1;
    }
    assert(sp.take(sp.len() as int) =~= sp);
    r
}

/// Whether version `latest` is newer than version `current`: leading `v`s are
/// ignored, the parts are compared in order, and on an equal common prefix the
/// version with more parts is the newer one.
pub fn version_is_newer(latest: &str, current: &str) -> (r: bool)
    ensures
        r == version_newer(latest@, current@),
{
    let l = parse_version(latest);
    let c = parse_version(current);
    let n = if l.len() < c.len() {
        l.len()
    } else {
        c.len()
    };
    let mut i: usize = 0;
    assert(l@.skip(0) =~= l@);
    assert(c@.skip(0) =~= c@);
    while i < n
        invariant
            l@ == version_parts(latest@),
            c@ == version_parts(current@),
            n <= l@.len(),
            n <= c@.len(),
            n == l@.len() || n == c@.len(),
            i <= n,
            parts_newer(l@, c@) == parts_newer(l@.skip(i as int), c@.skip(i as int)),
        decreases n - i,
    {
        assert(l@.skip(i as int).drop_first() =~= l@.skip(i + 1));
        assert(c@.skip(i as int).drop_first() =~= c@.skip(i + 1));
        if l[i] > c[i] {
            return true;
        } else if l[i] < c[i] {
            return false;
        }
        i = i + 1;
    }
    l.len() > c.len()
}

/// No version list is newer than itself.
proof fn lemma_parts_irreflexive(l: Seq<u32>)
    ensures
        !parts_newer(l, l),
    decreases l.len(),
{
    if l.len() > 0 {
        lemma_parts_irreflexive(l.drop_first());
    }
}

/// Of two version lists, at most one is newer than the other.
proof fn lemma_parts_asymmetric(a: Seq<u32>, b: Seq<u32>)
    ensures
        parts_newer(a, b) ==> !parts_newer(b, a),
    decreases a.len(),
{
    if a.len() > 0 && b.len() > 0 && a[0] == b[0] {
        lemma_parts_asymmetric(a.drop_first(), b.drop_first());
    }
}

/// Being newer is transitive on version lists.
proof fn lemma_parts_transitive(a: Seq<u32>, b: Seq<u32>, c: Seq<u32>)
    requires
        parts_newer(a, b),
        parts_newer(b, c),
    ensures
        parts_newer(a, c),
    decreases a.len(),
{
    if a.len() > 0 && b.len() > 0 && c.len() > 0 && a[0] == b[0] && b[0] == c[0] {
        lemma_parts_transitive(a.drop_first(), b.drop_first(), c.drop_first());
    }
}

/// A version is never newer than itself, so an up-to-date CLI is never
/// offered an update to the version it runs.
pub proof fn law_version_not_newer_than_itself(v: Seq<char>)
    ensures
        !version_newer(v, v),
{
    lemma_parts_irreflexive(version_parts(v));
}

/// Of two versions, at most one is newer than the other.
pub proof fn law_version_newer_asymmetric(a: Seq<char>, b: Seq<char>)
    ensures
        version_newer(a, b) ==> !version_newer(b, a),
{
    lemma_parts_asymmetric(version_parts(a), version_parts(b));
}

/// If `a` is newer than `b` and `b` newer than `c`, then `a` is newer than `c`.
pub proof fn law_version_newer_transitive(a: Seq<char>, b: Seq<char>, c: Seq<char>)
    requires
        version_newer(a, b),
        version_newer(b, c),
    ensures
        version_newer(a, c),
{
    lemma_parts_transitive(version_parts(a), version_parts(b), version_parts(c));
}

/// A leading `v` does not change a version: `v1.2` and `1.2` compare alike.
pub proof fn law_leading_v_ignored(v: Seq<char>)
    ensures
        version_parts(seq!['v'] + v) == version_parts(v),
{
    assert((seq!['v'] + v).drop_first() =~= v);
}

/// The update on offer: `latest` when it is newer than the running version
/// `current`, nothing otherwise.
pub fn update_available(latest: String, current: &str) -> (r: Option<String>)
    ensures
        version_newer(latest@, current@) ==> r == Some(latest),
        !version_newer(latest@, current@) ==> r is None,
{
    if version_is_newer(latest.as_str(), current) {
        Some(latest)
    } else {
        None
    }
}

/// The sequence `s` with every leading occurrence of the string `p` removed
/// (`str::trim_start_matches` with a string pattern).
pub open spec fn trim_leading_str(s: Seq<char>, p: Seq<char>) -> Seq<char>
    decreases s.len(),
{
    if p.len() > 0 && has_prefix(s, p) {
        trim_leading_str(s.skip(p.len() as int), p)
    } else {
        s
    }
}

/// `trim_leading_str` (executable).
pub fn trim_start_str(s: &[char], p: &[char]) -> (r: Vec<char>)
    ensures
        r@ == trim_leading_str(s@, p@),
{
    let mut k: usize = 0;
    assert(s@.skip(0) =~= s@);
    if p.len() == 0 {
        return slice_from(s, 0);
    }
    loop
        invariant
            k <= s@.len(),
            p@.len() > 0,
            trim_leading_str(s@.skip(k as int), p@) == trim_leading_str(s@, p@),
        ensures
            k <= s@.len(),
            !has_prefix(s@.skip(k as int), p@),
            trim_leading_str(s@.skip(k as int), p@) == trim_leading_str(s@, p@),
        decreases s@.len() - k,
    {
        if s.len() - k < p.len() {
            break;
        }
        let rest = slice_from(s, k);
        if !starts_with(rest.as_slice(), p) {
            break;
        }
        assert(s@.skip(k as int).skip(p@.len() as int) =~= s@.skip(k + p@.len()));
        k = k + p.len();
    }
    slice_from(s, k)
}

/// The characters of `s` from position `k` on.
fn slice_from(s: &[char], k: usize) -> (r: Vec<char>)
    requires
        k <= s@.len(),
    ensures
        r@ == s@.skip(k as int),
{
    let mut r: Vec<char> = Vec::new();
    let mut i: usize = k;
    while i < s.len()
        invariant
            k <= i <= s@.len(),
            r@ =~= s@.subrange(k as int, i as int),
        decreases s@.len() - i,
    {
        r.push(s[i]);
        i = i + 1;
    }
    r
}

/// The version a CLI release tag names: the tag without its `cli-v` prefixes.
pub fn release_version(tag: &str) -> (r: String)
    ensures
        r@ == trim_leading_str(tag@, "cli-v"@),
{
    let t = str_chars(tag);
    let p = str_chars("cli-v");
    let v = trim_start_str(t.as_slice(), p.as_slice());
    string_from_chars(v.as_slice())
}

/// A tag of the current release scheme of the CLI manager.
pub open spec fn is_cli_tag(t: Seq<char>) -> bool {
    has_prefix(t, "cli-v"@)
}

/// A tag of the older scheme: it starts with `v` and names no component.
pub open spec fn is_legacy_tag(t: Seq<char>) -> bool {
    has_prefix(t, "v"@) && !has_infix(t, "indexer-"@) && !has_infix(t, "cli-"@)
}

/// Whether `i` is the first index of `rs` whose tag satisfies `p`.
pub open spec fn first_tag_where(rs: Seq<GitHubRelease>, p: spec_fn(Seq<char>) -> bool, i: int) -> bool {
    0 <= i < rs.len() && p(rs[i].tag_name@) && forall|j: int| 0 <= j < i ==> !p(#[trigger] rs[j].tag_name@)
}

/// Whether no tag of `rs` satisfies `p`.
pub open spec fn no_tag_where(rs: Seq<GitHubRelease>, p: spec_fn(Seq<char>) -> bool) -> bool {
    forall|j: int| 0 <= j < rs.len() ==> !p(#[trigger] rs[j].tag_name@)
}

/// The position of the first release whose tag is a CLI tag.
fn first_cli_release(releases: &Vec<GitHubRelease>) -> (r: Option<usize>)
    ensures
        match r {
            Some(i) => first_tag_where(releases@, |t: Seq<char>| is_cli_tag(t), i as int),
            None => no_tag_where(releases@, |t: Seq<char>| is_cli_tag(t)),
        },
{
    let p = str_chars("cli-v");
    let mut i: usize = 0;
    while i < releases.len()
        invariant
            i <= releases@.len(),
            p@ == "cli-v"@,
            forall|j: int| 0 <= j < i ==> !is_cli_tag(#[trigger] releases@[j].tag_name@),
        decreases releases@.len() - i,
    {
        let t = str_chars(releases[i].tag_name.as_str());
        if starts_with(t.as_slice(), p.as_slice()) {
            return Some(i);
        }
        i = i + 1;
    }
    None
}

/// The position of the first release whose tag is a legacy tag.
fn first_legacy_release(releases: &Vec<GitHubRelease>) -> (r: Option<usize>)
    ensures
        match r {
            Some(i) => first_tag_where(releases@, |t: Seq<char>| is_legacy_tag(t), i as int),
            None => no_tag_where(releases@, |t: Seq<char>| is_legacy_tag(t)),
        },
{
    let v = str_chars("v");
    let indexer = str_chars("indexer-");
    let cli = str_chars("cli-");
    let mut i: usize = 0;
    while i < releases.len()
        invariant
            i <= releases@.len(),
            v@ == "v"@,
            indexer@ == "indexer-"@,
            cli@ == "cli-"@,
            forall|j: int| 0 <= j < i ==> !is_legacy_tag(#[trigger] releases@[j].tag_name@),
        decreases releases@.len() - i,
    {
        let t = str_chars(releases[i].tag_name.as_str());
        if starts_with(t.as_slice(), v.as_slice()) && !contains(t.as_slice(), indexer.as_slice())
            && !contains(t.as_slice(), cli.as_slice()) {
            return Some(i);
        }
        i = i + 1;
    }
    None
}

/// The release of the CLI manager among all releases of the repository: the
/// first with a `cli-v` tag, or failing that the first legacy `v` tag that
/// names no component; an error when there is neither.
pub fn select_cli_release(releases: &Vec<GitHubRelease>) -> (r: Result<usize, UpdateError>)
    ensures
        match r {
            Ok(i) => first_tag_where(releases@, |t: Seq<char>| is_cli_tag(t), i as int) || (
            no_tag_where(releases@, |t: Seq<char>| is_cli_tag(t)) && first_tag_where(
                releases@,
                |t: Seq<char>| is_legacy_tag(t),
                i as int,
            )),
            Err(e) => e is NoCliRelease && no_tag_where(releases@, |t: Seq<char>| is_cli_tag(t))
                && no_tag_where(releases@, |t: Seq<char>| is_legacy_tag(t)),
        },
{
    match first_cli_release(releases) {
        Some(i) => Ok(i),
        None => match first_legacy_release(releases) {
            Some(i) => Ok(i),
            None => Err(UpdateError::NoCliRelease),
        },
    }
}

/// The platform triple of release assets for an operating system and an
/// architecture as `std::env::consts` names them.
pub open spec fn platform_triple(os: Seq<char>, arch: Seq<char>) -> Option<Seq<char>> {
    let o = if os == "macos"@ {
        Some("apple-darwin"@)
    } else if os == "linux"@ {
        Some("unknown-linux-gnu"@)
    } else if os == "windows"@ {
        Some("pc-windows-msvc"@)
    } else {
        None::<Seq<char>>
    };
    if o is Some && (arch == "x86_64"@ || arch == "aarch64"@) {
        Some(o->0 + "-"@ + arch)
    } else {
        None
    }
}

/// The published name of the release asset for an operating system and an
/// architecture: `adi-{platform}.zip` on Windows, `adi-{platform}.tar.gz`
/// elsewhere.
pub open spec fn published_asset_name(os: Seq<char>, arch: Seq<char>) -> Seq<char>
    recommends
        platform_triple(os, arch) is Some,
{
    let ext = if os == "windows"@ {
        ".zip"@
    } else {
        ".tar.gz"@
    };
    "adi-"@ + platform_triple(os, arch)->0 + ext
}

/// The published asset name of every supported platform contains that
/// platform's string, so `select_asset` accepts it.
pub proof fn lemma_published_asset_matches(os: Seq<char>, arch: Seq<char>)
    requires
        platform_triple(os, arch) is Some,
    ensures
        has_infix(published_asset_name(os, arch), platform_triple(os, arch)->0),
{
    let p = platform_triple(os, arch)->0;
    let n = published_asset_name(os, arch);
    reveal_strlit("adi-");
    assert(n.subrange(4, 4 + p.len() as int) =~= p);
    assert(occurs_at(n, p, 4));
}

/// The platform part of release asset names for this machine, as
/// `{os}-{arch}`, which the published asset name for the machine contains;
/// unsupported systems and architectures are errors.
pub fn detect_platform(os: &str, arch: &str) -> (r: Result<String, UpdateError>)
    ensures
        match r {
            Ok(p) => platform_triple(os@, arch@) == Some(p@) && has_infix(
                published_asset_name(os@, arch@),
                p@,
            ),
            Err(e) => platform_triple(os@, arch@) is None && (
                if os@ == "macos"@ || os@ == "linux"@ || os@ == "windows"@ {
                    e is UnsupportedArch
                } else {
                    e is UnsupportedOs
                }),
        },
{
    let os_part = if str_eq(os, "macos") {
        "apple-darwin"
    } else if str_eq(os, "linux") {
        "unknown-linux-gnu"
    } else if str_eq(os, "windows") {
        "pc-windows-msvc"
    } else {
        return Err(UpdateError::UnsupportedOs);
    };
    let arch_part = if str_eq(arch, "x86_64") {
        "x86_64"
    } else if str_eq(arch, "aarch64") {
        "aarch64"
    } else {
        return Err(UpdateError::UnsupportedArch);
    };
    let mut r = owned(os_part);
    r.append("-");
    r.append(arch_part);
    proof {
        lemma_published_asset_matches(os@, arch@);
    }
    Ok(r)
}

/// The position of the first asset whose name contains `pat`.
pub fn first_asset_containing(assets: &Vec<GitHubAsset>, pat: &[char]) -> (r: Option<usize>)
    ensures
        match r {
            Some(i) => 0 <= i < assets@.len() && has_infix(assets@[i as int].name@, pat@) && forall|
                j: int,
            | 0 <= j < i ==> !has_infix(#[trigger] assets@[j].name@, pat@),
            None => forall|j: int|
                0 <= j < assets@.len() ==> !has_infix(#[trigger] assets@[j].name@, pat@),
        },
{
    let mut i: usize = 0;
    while i < assets.len()
        invariant
            i <= assets@.len(),
            forall|j: int| 0 <= j < i ==> !has_infix(#[trigger] assets@[j].name@, pat@),
        decreases assets@.len() - i,
    {
        let n = str_chars(assets[i].name.as_str());
        if contains(n.as_slice(), pat) {
            return Some(i);
        }
        i = i + 1;
    }
    None
}

/// The asset of `release` built for `platform`: the first whose name
/// contains the platform string.
pub fn select_asset<'a>(release: &'a GitHubRelease, platform: &str) -> (r: Result<
    &'a GitHubAsset,
    UpdateError,
>)
    ensures
        match r {
            Ok(a) => exists|i: int|
                0 <= i < release.assets@.len() && *a == release.assets@[i] && has_infix(
                    release.assets@[i].name@,
                    platform@,
                ) && forall|j: int|
                    0 <= j < i ==> !has_infix(#[trigger] release.assets@[j].name@, platform@),
            Err(e) => (e matches UpdateError::NoAssetForPlatform(p) && p@ == platform@) && forall|
                j: int,
            | 0 <= j < release.assets@.len() ==> !has_infix(
                #[trigger] release.assets@[j].name@,
                platform@,
            ),
        },
{
    let p = str_chars(platform);
    match first_asset_containing(&release.assets, p.as_slice()) {
        Some(i) => Ok(&release.assets[i]),
        None => Err(UpdateError::NoAssetForPlatform(owned(platform))),
    }
}

/// The name of the CLI's binary on an operating system as
/// `std::env::consts::OS` names it: `adi.exe` on Windows, else `adi`.
pub fn binary_name_for(os: &str) -> (r: String)
    ensures
        os@ == "windows"@ ==> r@ == "adi.exe"@,
        os@ != "windows"@ ==> r@ == "adi"@,
{
    if str_eq(os, "windows") {
        owned("adi.exe")
    } else {
        owned("adi")
    }
}

/// Whether an update archive named `name` is a zip archive (the extension
/// of its file name is `zip`); any other is a gzip-compressed tar archive.
pub open spec fn is_zip_archive(name: Seq<char>) -> bool {
    path_extension(encode_utf8(name)) == Some(seq![0x7au8, 0x69u8, 0x70u8])
}

/// What the update archive read as `l` yields for binary `name` (matched by
/// whole entry name in a zip, by file name in a tar): the binary's content;
/// none when no entry is the binary; or the message of the fault met reading
/// the binary or, before it was found, the archive.
pub open spec fn update_extraction_of(l: ArchiveListingView, whole_path: bool, name: Seq<char>) -> Result<
    Option<Seq<u8>>,
    Seq<char>,
> {
    if exists|i: int| first_binary(l.entries, name, whole_path, i) {
        let i = choose|i: int| first_binary(l.entries, name, whole_path, i);
        match l.entries[i].content {
            Ok(b) => Ok(Some(b)),
            Err(m) => Err(m),
        }
    } else {
        match l.fault {
            Some(f) => Err(fault_message(f)),
            None => Ok(None),
        }
    }
}

/// The binary in the downloaded update archive named `archive_name` (see
/// `is_zip_archive` and `update_extraction_of`).
pub fn update_binary(archive_name: &str, bytes: &[u8], binary_name: &str) -> (r: Result<Option<Vec<u8>>, String>)
    ensures
        ({
            let zip = is_zip_archive(archive_name@);
            let l = if zip {
                zip_listing(bytes@)
            } else {
                tar_gz_listing(bytes@)
            };
            match r {
                Ok(Some(b)) => update_extraction_of(l, zip, binary_name@) == Ok::<Option<Seq<u8>>, Seq<char>>(
                    Some(b@),
                ),
                Ok(None) => update_extraction_of(l, zip, binary_name@) == Ok::<Option<Seq<u8>>, Seq<char>>(None),
                Err(m) => update_extraction_of(l, zip, binary_name@) == Err::<Option<Seq<u8>>, Seq<char>>(m@),
            }
        }),
{
    let zip = match extension(archive_name.as_bytes()) {
        Some(e) => {
            let z = e.len() == 3 && e[0] == 0x7au8 && e[1] == 0x69u8 && e[2] == 0x70u8;
            assert(z == (e@ == seq![0x7au8, 0x69u8, 0x70u8])) by {
                if e@ == seq![0x7au8, 0x69u8, 0x70u8] {
                    assert(e@[0] == 0x7au8 && e@[1] == 0x69u8 && e@[2] == 0x70u8);
                }
                if z {
                    assert(e@ =~= seq![0x7au8, 0x69u8, 0x70u8]);
                }
            }
            z
        },
        None => false,
    };
    let listing = if zip {
        read_zip(bytes)
    } else {
        read_tar_gz(bytes)
    };
    extract_update_binary(&listing, binary_name, zip)
}

/// What the update archive read as `listing` yields for binary
/// `binary_name`, matched by whole entry name when `whole_path` (a zip),
/// else by file name (see `update_extraction_of`).
pub fn extract_update_binary(listing: &ArchiveListing, binary_name: &str, whole_path: bool) -> (r: Result<
    Option<Vec<u8>>,
    String,
>)
    ensures
        match r {
            Ok(Some(b)) => update_extraction_of(listing@, whole_path, binary_name@) == Ok::<
                Option<Seq<u8>>,
                Seq<char>,
            >(Some(b@)),
            Ok(None) => update_extraction_of(listing@, whole_path, binary_name@) == Ok::<
                Option<Seq<u8>>,
                Seq<char>,
            >(None),
            Err(m) => update_extraction_of(listing@, whole_path, binary_name@) == Err::<
                Option<Seq<u8>>,
                Seq<char>,
            >(m@),
        },
{
    let zip = whole_path;
    let ghost l = listing@;
    match find_binary(listing, binary_name, zip) {
        Some(i) => {
            proof {
                assert forall|j: int| first_binary(l.entries, binary_name@, zip, j) implies j == i by {
                    lemma_first_binary_unique(l.entries, binary_name@, zip, i as int, j);
                }
            }
            assert(l.entries[i as int] == listing.entries@[i as int]@);
            match &listing.entries[i].content {
                Ok(b) => Ok(Some(b.clone())),
                Err(m) => Err(m.clone()),
            }
        },
        None => match &listing.fault {
            Some(crate::archive::ArchiveFault::Open(m)) => Err(m.clone()),
            Some(crate::archive::ArchiveFault::Entry(m)) => Err(m.clone()),
            None => Ok(None),
        },
    }
}

/// Whether an update is to be installed: when forced, or when the latest
/// version is newer than the running one.
pub fn update_needed(force: bool, latest: &str, current: &str) -> (r: bool)
    ensures
        r == (force || version_newer(latest@, current@)),
{
    force || version_is_newer(latest, current)
}

} // verus!
