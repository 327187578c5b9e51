//! Finding a file of an installed plugin (its manifest `plugin.toml`, its
//! translations `messages.ftl`) in the plugin's directory.
//!
//! A plugin directory holds a `.version` file naming the current version and
//! one subdirectory per version. A file is looked for in the current
//! version's directory, then directly in the plugin directory, then in each
//! subdirectory in turn. The search tells its driver what to look at next
//! and is told what was there; paths are given as their components below
//! the plugin directory.
use vstd::prelude::*;
use crate::text::{owned, trim, trim_ws};

verus! {

/// The name of the directory of version `contents` of the `.version` file:
/// its text without surrounding whitespace.
pub fn version_dir_name(contents: &str) -> (r: String)
    ensures
        r@ == trim_ws(contents@),
{
    trim(contents)
}

/// What the driver of a file search has to do next.
pub enum FileStep {
    /// Read the `.version` file and report its text, or that there is none
    /// (`on_version`).
    ReadVersion,
    /// Report whether a file exists at `path` (`on_exists`).
    Check { path: Vec<String> },
    /// Report, for each subdirectory in turn, its name and whether the file
    /// exists in it (`on_subdirectories`).
    ListSubdirectories,
    /// The file is at `path`.
    Found { path: Vec<String> },
    /// The plugin has no such file.
    NotFound,
}

/// The stage of a file search.
#[derive(PartialEq, Eq, Structural, Debug, Clone, Copy)]
pub enum SearchStage {
    /// Waiting for the `.version` file.
    Version,
    /// Waiting to learn whether the file is in the current version's directory.
    Versioned,
    /// Waiting to learn whether the file is directly in the plugin directory.
    Direct,
    /// Waiting for the subdirectories.
    Subdirectories,
    /// The search is over.
    Done,
}

/// A search for a file of a plugin.
pub struct FileSearch {
    file: String,
    stage: SearchStage,
}

/// The path components of a found or checked path, as plain text.
pub open spec fn path_view(path: Vec<String>) -> Seq<Seq<char>> {
    path.deep_view()
}

impl FileSearch {
    /// The name of the file looked for.
    pub closed spec fn file(self) -> Seq<char> {
        self.file@
    }

    /// The stage of the search.
    pub closed spec fn stage(self) -> SearchStage {
        self.stage
    }

    /// A search for `file_name`: it starts with the `.version` file.
    pub fn start(file_name: &str) -> (r: (Self, FileStep))
        ensures
            r.0.file() == file_name@,
            r.0.stage() == SearchStage::Version,
            r.1 is ReadVersion,
    {
        (FileSearch { file: owned(file_name), stage: SearchStage::Version }, FileStep::ReadVersion)
    }

    /// Told the text of the `.version` file (`None` when there is none or
    /// it cannot be read): the file is looked for in that version's
    /// directory, or else directly in the plugin directory.
    pub fn on_version(&mut self, contents: Option<&str>) -> (r: FileStep)
        requires
            old(self).stage() == SearchStage::Version,
        ensures
            final(self).file() == old(self).file(),
            match contents {
                Some(c) => final(self).stage() == SearchStage::Versioned && (r matches FileStep::Check { path }
                    && path_view(path) == seq![trim_ws(c@), old(self).file()]),
                None => final(self).stage() == SearchStage::Direct && (r matches FileStep::Check { path }
                    && path_view(path) == seq![old(self).file()]),
            },
    {
        let mut path: Vec<String> = Vec::new();
        match contents {
            Some(c) => {
                path.push(version_dir_name(c));
                path.push(self.file.clone());
                self.stage = SearchStage::Versioned;
                assert(path.deep_view() =~= seq![trim_ws(c@), self.file@]);
            },
            None => {
                path.push(self.file.clone());
                self.stage = SearchStage::Direct;
                assert(path.deep_view() =~= seq![self.file@]);
            },
        }
        FileStep::Check { path }
    }

    /// Told whether the file exists where it was last looked for (`path`,
    /// the path of that `Check`): found there, or looked for at the next place.
    pub fn on_exists(&mut self, path: Vec<String>, exists: bool) -> (r: FileStep)
        requires
            old(self).stage() == SearchStage::Versioned || old(self).stage() == SearchStage::Direct,
        ensures
            final(self).file() == old(self).file(),
            exists ==> final(self).stage() == SearchStage::Done && (r matches FileStep::Found { path: p }
                && path_view(p) == path_view(path)),
            !exists && old(self).stage() == SearchStage::Versioned ==> final(self).stage() == SearchStage::Direct
                && (r matches FileStep::Check { path: p } && path_view(p) == seq![old(self).file()]),
            !exists && old(self).stage() == SearchStage::Direct ==> final(self).stage()
                == SearchStage::Subdirectories && r is ListSubdirectories,
    {
        if exists {
            self.stage = SearchStage::Done;
            FileStep::Found { path }
        } else if self.stage == SearchStage::Versioned {
            let mut p: Vec<String> = Vec::new();
            p.push(self.file.clone());
            assert(p.deep_view() =~= seq![self.file@]);
            self.stage = SearchStage::Direct;
            FileStep::Check { path: p }
        } else {
            self.stage = SearchStage::Subdirectories;
            FileStep::ListSubdirectories
        }
    }

    /// Told the subdirectories, in the order listed, each with whether the
    /// file exists in it: the file is in the first of them that has it.
    pub fn on_subdirectories(&mut self, subdirs: &Vec<(String, bool)>) -> (r: FileStep)
        requires
            old(self).stage() == SearchStage::Subdirectories,
        ensures
            final(self).file() == old(self).file(),
            final(self).stage() == SearchStage::Done,
            match r {
                FileStep::Found { path } => exists|i: int|
                    0 <= i < subdirs@.len() && subdirs@[i].1 && path_view(path) == seq![
                        subdirs@[i].0@,
                        old(self).file(),
                    ] && forall|j: int| 0 <= j < i ==> !(#[trigger] subdirs@[j].1),
                FileStep::NotFound => forall|j: int| 0 <= j < subdirs@.len() ==> !(#[trigger] subdirs@[j].1),
                _ => false,
            },
    {
        self.stage = SearchStage::Done;
        let mut i: usize = 0;
        while i < subdirs.len()
            invariant
                self.file() == old(self).file(),
                self.stage() == SearchStage::Done,
                i <= subdirs@.len(),
                forall|j: int| 0 <= j < i ==> !(#[trigger] subdirs@[j].1),
            decreases subdirs@.len() - i,
        {
            if subdirs[i].1 {
                let mut p: Vec<String> = Vec::new();
                p.push(subdirs[i].0.clone());
                p.push(self.file.clone());
                assert(p.deep_view() =~= seq![subdirs@[i as int].0@, self.file@]);
                return FileStep::Found { path: p };
            }
            i = i + 1;
        }
        FileStep::NotFound
    }
}

} // verus!
