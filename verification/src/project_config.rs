//! The project's own configuration: where its releases are published.
use vstd::prelude::*;
use crate::text::{split_char, split_on, str_chars, string_from_chars, trim_end_char, trim_trailing};

verus! {

/// The project configuration.
pub struct ProjectConfig {
    pub project: Project,
}

/// The project section of the configuration.
pub struct Project {
    /// The repository URL, e.g. `https://github.com/adi-family/adi-cli`.
    pub repository: String,
}

/// The `/`-separated pieces of a repository URL, trailing slashes ignored.
pub open spec fn repository_pieces(url: Seq<char>) -> Seq<Seq<char>> {
    split_on(trim_trailing(url, '/'), '/')
}

impl ProjectConfig {
    /// The owner and the name of the repository: the last two `/`-separated
    /// pieces of the URL, after dropping trailing slashes. The URL must have
    /// at least two such pieces.
    pub fn parse_repository(&self) -> (r: (String, String))
        requires
            repository_pieces(self.project.repository@).len() >= 2,
        ensures
            ({
                let p = repository_pieces(self.project.repository@);
                r.0@ == p[p.len() - 2] && r.1@ == p[p.len() - 1]
            }),
    {
        let url = str_chars(self.project.repository.as_str());
        let trimmed = trim_end_char(url.as_slice(), '/');
        let parts = split_char(trimmed.as_slice(), '/');
        let n = parts.len();
        let owner = string_from_chars(parts[n - 2].as_slice());
        let repo = string_from_chars(parts[n - 1].as_slice());
        (owner, repo)
    }
}

} // verus!
