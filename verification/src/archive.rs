//! Reading the entries of release archives (gzip-compressed tar and zip) and
//! picking out the binary they carry.
//!
//! Decompressing and decoding the archive formats is the work of the `tar`,
//! `flate2` and `zip` crates; this module hands them the archive's bytes and
//! decides on what they read.
use vstd::prelude::*;
use vstd::utf8::encode_utf8;
use flate2::read::GzDecoder;
use std::io::{Cursor, Read};
use zip::ZipArchive;

verus! {

/// The position of the last `b` in `p`, or -1 when there is none.
pub open spec fn last_index_of(p: Seq<u8>, b: u8) -> int
    decreases p.len(),
{
    if p.len() == 0 {
        -1
    } else if p.last() == b {
        p.len() - 1
    } else {
        last_index_of(p.drop_last(), b)
    }
}

/// The last `b` of `p` is at `last_index_of(p, b)`, and none follows it.
pub proof fn lemma_last_index_of(p: Seq<u8>, b: u8)
    ensures
        -1 <= last_index_of(p, b) < p.len(),
        last_index_of(p, b) >= 0 ==> p[last_index_of(p, b)] == b,
        forall|k: int| last_index_of(p, b) < k < p.len() ==> p[k] != b,
    decreases p.len(),
{
    if p.len() > 0 && p.last() != b {
        lemma_last_index_of(p.drop_last(), b);
        assert forall|k: int| last_index_of(p, b) < k < p.len() implies p[k] != b by {
            if k < p.len() - 1 {
                assert(p.drop_last()[k] == p[k]);
            }
        }
    }
}

/// The last component of a `/`-separated path: separators at the end and
/// `.` components are passed over; none when nothing else is left.
pub open spec fn last_component(p: Seq<u8>) -> Option<Seq<u8>>
    decreases p.len(),
{
    if p.len() == 0 {
        None
    } else if p.last() == 0x2fu8 {
        last_component(p.drop_last())
    } else {
        let s = last_index_of(p, 0x2fu8);
        proof {
            lemma_last_index_of(p, 0x2fu8);
        }
        if p.subrange(s + 1, p.len() as int) == seq![0x2eu8] {
            last_component(p.subrange(0, s + 1))
        } else {
            Some(p.subrange(s + 1, p.len() as int))
        }
    }
}

/// The file name of a `/`-separated path, as `std::path::Path::file_name`
/// gives it on Unix: its last component, unless that is `..`.
pub open spec fn path_file_name(p: Seq<u8>) -> Option<Seq<u8>> {
    match last_component(p) {
        Some(c) => if c == seq![0x2eu8, 0x2eu8] {
            None
        } else {
            Some(c)
        },
        None => None,
    }
}

/// The extension of a `/`-separated path, as `std::path::Path::extension`
/// gives it: what follows the last `.` of the file name, when that `.` is
/// not the name's first character.
pub open spec fn path_extension(p: Seq<u8>) -> Option<Seq<u8>> {
    match path_file_name(p) {
        Some(f) => {
            let d = last_index_of(f, 0x2eu8);
            if d <= 0 {
                None
            } else {
                Some(f.subrange(d + 1, f.len() as int))
            }
        },
        None => None,
    }
}

/// One past the last `b` among the first `end` bytes of `p` (0 when there
/// is none).
fn after_last(p: &[u8], end: usize, b: u8) -> (s: usize)
    requires
        end <= p@.len(),
    ensures
        s <= end,
        s == last_index_of(p@.subrange(0, end as int), b) + 1,
{
    let mut s: usize = end;
    while s > 0 && p[s - 1] != b
        invariant
            s <= end <= p@.len(),
            last_index_of(p@.subrange(0, end as int), b) == last_index_of(p@.subrange(0, s as int), b),
        decreases s,
    {
        assert(p@.subrange(0, s as int).drop_last() =~= p@.subrange(0, s - 1));
        s = s - 1;
    }
    s
}

/// The bytes of `p` from `start` to `end`.
fn bytes_between(p: &[u8], start: usize, end: usize) -> (r: Vec<u8>)
    requires
        start <= end <= p@.len(),
    ensures
        r@ == p@.subrange(start as int, end as int),
{
    let mut r: Vec<u8> = Vec::new();
    let mut i: usize = start;
    while i < end
        invariant
            start <= i <= end <= p@.len(),
            r@ =~= p@.subrange(start as int, i as int),
        decreases end - i,
    {
        r.push(p[i]);
        i = i + 1;
    }
    r
}

/// The file name of a `/`-separated path (see `path_file_name`).
pub fn file_name(p: &[u8]) -> (r: Option<Vec<u8>>)
    ensures
        match r {
            Some(v) => path_file_name(p@) == Some(v@),
            None => path_file_name(p@) is None,
        },
{
    let mut end: usize = p.len();
    assert(p@.subrange(0, end as int) =~= p@);
    loop
        invariant
            end <= p@.len(),
            last_component(p@) == last_component(p@.subrange(0, end as int)),
        decreases end,
    {
        let ghost q = p@.subrange(0, end as int);
        if end == 0 {
            return None;
        }
        if p[end - 1] == 0x2fu8 {
            assert(q.drop_last() =~= p@.subrange(0, end - 1));
            end = end - 1;
        } else {
            let s = after_last(p, end, 0x2fu8);
            proof {
                lemma_last_index_of(q, 0x2fu8);
            }
            assert(q.subrange(s as int, q.len() as int) =~= p@.subrange(s as int, end as int));
            if end - s == 1 && p[s] == 0x2eu8 {
                assert(q.subrange(s as int, q.len() as int) =~= seq![0x2eu8]);
                assert(q.subrange(0, s as int) =~= p@.subrange(0, s as int));
                end = s;
            } else {
                assert(q.subrange(s as int, q.len() as int) != seq![0x2eu8]) by {
                    if q.subrange(s as int, q.len() as int) == seq![0x2eu8] {
                        assert(q.subrange(s as int, q.len() as int).len() == 1);
                        assert(q.subrange(s as int, q.len() as int)[0] == p@[s as int]);
                    }
                }
                let seg = bytes_between(p, s, end);
                if seg.len() == 2 && seg[0] == 0x2eu8 && seg[1] == 0x2eu8 {
                    assert(seg@ =~= seq![0x2eu8, 0x2eu8]);
                    return None;
                }
                assert(seg@ != seq![0x2eu8, 0x2eu8]);
                return Some(seg);
            }
        }
    }
}

/// The extension of a `/`-separated path (see `path_extension`).
pub fn extension(p: &[u8]) -> (r: Option<Vec<u8>>)
    ensures
        match r {
            Some(v) => path_extension(p@) == Some(v@),
            None => path_extension(p@) is None,
        },
{
    match file_name(p) {
        Some(f) => {
            assert(f@.subrange(0, f@.len() as int) =~= f@);
            let d = after_last(f.as_slice(), f.len(), 0x2eu8);
            if d <= 1 {
                None
            } else {
                Some(bytes_between(f.as_slice(), d, f.len()))
            }
        },
        None => None,
    }
}

/// Where reading an archive stopped early, with the reader's message.
pub enum ArchiveFault {
    /// The archive could not be opened.
    Open(String),
    /// The next entry could not be read.
    Entry(String),
}

/// Where reading an archive stopped early (content).
pub enum ArchiveFaultView {
    Open(Seq<char>),
    Entry(Seq<char>),
}

impl View for ArchiveFault {
    type V = ArchiveFaultView;

    open spec fn view(&self) -> ArchiveFaultView {
        match self {
            ArchiveFault::Open(m) => ArchiveFaultView::Open(m@),
            ArchiveFault::Entry(m) => ArchiveFaultView::Entry(m@),
        }
    }
}

/// An entry of an archive: its path as the archive stores it (bytes, with
/// `/` separators), and its content or the message of the fault met reading
/// it.
pub struct ArchiveEntry {
    pub path: Vec<u8>,
    pub content: Result<Vec<u8>, String>,
}

/// An entry of an archive (content).
pub struct ArchiveEntryView {
    pub path: Seq<u8>,
    pub content: Result<Seq<u8>, Seq<char>>,
}

impl View for ArchiveEntry {
    type V = ArchiveEntryView;

    open spec fn view(&self) -> ArchiveEntryView {
        ArchiveEntryView {
            path: self.path@,
            content: match self.content {
                Ok(b) => Ok(b@),
                Err(m) => Err(m@),
            },
        }
    }
}

/// What reading an archive gave: its entries in order, and the fault that
/// ended the reading early, if any.
pub struct ArchiveListing {
    pub entries: Vec<ArchiveEntry>,
    pub fault: Option<ArchiveFault>,
}

/// What reading an archive gave (content).
pub struct ArchiveListingView {
    pub entries: Seq<ArchiveEntryView>,
    pub fault: Option<ArchiveFaultView>,
}

impl View for ArchiveListing {
    type V = ArchiveListingView;

    open spec fn view(&self) -> ArchiveListingView {
        ArchiveListingView {
            entries: self.entries@.map_values(|e: ArchiveEntry| e@),
            fault: match self.fault {
                Some(f) => Some(f@),
                None => None,
            },
        }
    }
}

/// What the `tar` crate reads, through `flate2`'s gzip decoder, from the
/// bytes of a gzip-compressed tar archive.
pub uninterp spec fn tar_gz_listing(bytes: Seq<u8>) -> ArchiveListingView;

/// What the `zip` crate reads from the bytes of a zip archive.
pub uninterp spec fn zip_listing(bytes: Seq<u8>) -> ArchiveListingView;

/// The entries of a gzip-compressed tar archive, read with `tar::Archive`
/// over `flate2::read::GzDecoder`: each entry's path bytes
/// (`Entry::path_bytes`) and content, in order, until the first entry that
/// cannot be read.
#[verifier::external_body]
pub fn read_tar_gz(bytes: &[u8]) -> (r: ArchiveListing)
    ensures
        r@ == tar_gz_listing(bytes@),
{
    let mut entries = vec![];
    let fault = (|| -> Result<(), ArchiveFault> {
        for entry in tar::Archive::new(GzDecoder::new(bytes)).entries().map_err(|e| ArchiveFault::Open(e.to_string()))? {
            let mut entry = entry.map_err(|e| ArchiveFault::Entry(e.to_string()))?;
            let path = entry.path_bytes().into_owned();
            let mut buf = vec![];
            let content = entry.read_to_end(&mut buf).map(|_| buf).map_err(|e| e.to_string());
            entries.push(ArchiveEntry { path, content });
        }
        Ok(())
    })().err();
    ArchiveListing { entries, fault }
}

/// The entries of a zip archive, read with `zip::ZipArchive`: each entry's
/// name (as UTF-8 bytes) and content, in order, until the first entry that
/// cannot be read.
#[verifier::external_body]
pub fn read_zip(bytes: &[u8]) -> (r: ArchiveListing)
    ensures
        r@ == zip_listing(bytes@),
{
    let mut entries = vec![];
    let fault = (|| -> Result<(), ArchiveFault> {
        let mut archive = ZipArchive::new(Cursor::new(bytes)).map_err(|e| ArchiveFault::Open(e.to_string()))?;
        for i in 0..archive.len() {
            let mut file = archive.by_index(i).map_err(|e| ArchiveFault::Entry(e.to_string()))?;
            let path = file.name().as_bytes().to_vec();
            let mut buf = vec![];
            let content = file.read_to_end(&mut buf).map(|_| buf).map_err(|e| e.to_string());
            entries.push(ArchiveEntry { path, content });
        }
        Ok(())
    })().err();
    ArchiveListing { entries, fault }
}

/// Whether an entry at `path` is the binary `name`: by its whole path, or
/// by its file name, compared with the name's UTF-8 bytes.
pub open spec fn entry_is(path: Seq<u8>, name: Seq<char>, whole_path: bool) -> bool {
    if whole_path {
        path == encode_utf8(name)
    } else {
        path_file_name(path) == Some(encode_utf8(name))
    }
}

/// Whether the entry at `path` is the binary `name` (see `entry_is`).
pub fn entry_is_binary(path: &[u8], name: &str, whole_path: bool) -> (r: bool)
    ensures
        r == entry_is(path@, name@, whole_path),
{
    let n = name.as_bytes();
    if whole_path {
        bytes_eq(path, n)
    } else {
        match file_name(path) {
            Some(f) => bytes_eq(f.as_slice(), n),
            None => false,
        }
    }
}

/// Whether two byte strings are equal.
fn bytes_eq(a: &[u8], b: &[u8]) -> (r: bool)
    ensures
        r == (a@ == b@),
{
    if a.len() != b.len() {
        return false;
    }
    let mut i: usize = 0;
    while i < a.len()
        invariant
            i <= a@.len(),
            a@.len() == b@.len(),
            forall|k: int| 0 <= k < i ==> a@[k] == b@[k],
        decreases a@.len() - i,
    {
        if a[i] != b[i] {
            return false;
        }
        i = i + 1;
    }
    assert(a@ =~= b@);
    true
}

/// Entry `i` is the first that is the binary.
pub open spec fn first_binary(entries: Seq<ArchiveEntryView>, name: Seq<char>, whole_path: bool, i: int) -> bool {
    &&& 0 <= i < entries.len()
    &&& entry_is(entries[i].path, name, whole_path)
    &&& forall|j: int| 0 <= j < i ==> !entry_is(#[trigger] entries[j].path, name, whole_path)
}

/// No entry is the binary.
pub open spec fn no_binary(entries: Seq<ArchiveEntryView>, name: Seq<char>, whole_path: bool) -> bool {
    forall|j: int| 0 <= j < entries.len() ==> !entry_is(#[trigger] entries[j].path, name, whole_path)
}

/// The message of a fault.
pub open spec fn fault_message(f: ArchiveFaultView) -> Seq<char> {
    match f {
        ArchiveFaultView::Open(m) => m,
        ArchiveFaultView::Entry(m) => m,
    }
}

/// At most one entry is the first that is the binary.
pub proof fn lemma_first_binary_unique(entries: Seq<ArchiveEntryView>, name: Seq<char>, whole_path: bool, i: int, j: int)
    requires
        first_binary(entries, name, whole_path, i),
        first_binary(entries, name, whole_path, j),
    ensures
        i == j,
{
    if i < j {
        assert(!entry_is(entries[i].path, name, whole_path));
    } else if j < i {
        assert(!entry_is(entries[j].path, name, whole_path));
    }
}

/// The index of the first entry of `listing` that is the binary `name`, if any.
pub fn find_binary(listing: &ArchiveListing, name: &str, whole_path: bool) -> (r: Option<usize>)
    ensures
        match r {
            Some(i) => first_binary(listing@.entries, name@, whole_path, i as int),
            None => no_binary(listing@.entries, name@, whole_path),
        },
{
    let mut i: usize = 0;
    while i < listing.entries.len()
        invariant
            i <= listing.entries@.len(),
            forall|j: int| 0 <= j < i ==> !entry_is(#[trigger] listing@.entries[j].path, name@, whole_path),
        decreases listing.entries@.len() - i,
    {
        assert(listing@.entries[i as int] == listing.entries@[i as int]@);
        if entry_is_binary(listing.entries[i].path.as_slice(), name, whole_path) {
            return Some(i);
        }
        i = i + 1;
    }
    None
}

} // verus!
