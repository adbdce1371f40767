//! The command-line surface of the tool: the data each command carries, and
//! the file-name extraction the install command performs on a
//! content-disposition header. Flag parsing, HTTP and printing live outside
//! the library.

use vstd::prelude::*;

use crate::schemas::{Category, ProjectSortingStrategy};

verus! {

/// The root commands.
#[derive(Debug, Clone, PartialEq, Eq)]
pub enum Cli {
    /// Searches for plugins by a query.
    Search(SearchCommand),
    /// Shows a plugin's project record.
    Plugin(PluginCommand),
    /// Installs a plugin's file.
    Install(InstallCommand),
    /// Compares installed archives against the registry.
    Check(VersionCheckCommand),
}

/// A plugin search.
#[derive(Debug, Clone, PartialEq, Eq)]
pub struct SearchCommand {
    pub search: Option<String>,
    pub category: Option<Vec<Category>>,
    pub tags: Option<Vec<String>>,
    pub owner: Option<String>,
    pub sort: Option<ProjectSortingStrategy>,
    pub relevance: Option<bool>,
    pub limit: Option<i64>,
    pub offset: u64,
}

/// A plugin lookup, optionally drilling into its versions.
#[derive(Debug, Clone, PartialEq, Eq)]
pub struct PluginCommand {
    pub plugin_id: String,
    pub versions: Option<PluginSubCommand>,
}

/// The subcommands of a plugin lookup.
#[derive(Debug, Clone, PartialEq, Eq)]
pub enum PluginSubCommand {
    /// Lists available versions.
    Versions(PluginVersionCommand),
}

/// A listing of a plugin's versions.
#[derive(Debug, Clone, PartialEq, Eq)]
pub struct PluginVersionCommand {
    pub name: Option<String>,
    pub tags: Option<Vec<String>>,
    pub limit: Option<i64>,
    pub offset: Option<i64>,
}

/// An installation of one plugin version into a directory.
#[derive(Debug, Clone, PartialEq, Eq)]
pub struct InstallCommand {
    pub dir: Option<String>,
    pub plugin_id: String,
    pub version: String,
}

/// A version check of one archive or of a directory of archives.
#[derive(Debug, Clone, PartialEq, Eq)]
pub struct VersionCheckCommand {
    pub file: String,
}

/// A reader bound to a path: one archive, or a directory of archives.
#[derive(Debug, Clone, PartialEq, Eq)]
pub struct FileReader {
    pub base_path: String,
}

impl FileReader {
    /// Binds a reader to a path.
    pub fn from(base_path: &str) -> (r: FileReader)
        ensures
            r.base_path@ == base_path@,
    {
        FileReader { base_path: base_path.to_owned() }
    }
}

/// The file name quoted in a content-disposition header: the characters
/// between the first and the last double quote, or `None` when fewer than
/// two quotes occur.
pub open spec fn spec_extract_filename(s: Seq<char>) -> Option<Seq<char>> {
    match s.index_of_first('"') {
        Some(a) => match s.index_of_last('"') {
            Some(b) => if a != b {
                Some(s.subrange(a + 1, b))
            } else {
                None
            },
            None => None,
        },
        None => None,
    }
}

impl InstallCommand {
    /// The file name a download is served under when the header names none.
    pub const DEFAULT_FILE_NAME: &'static str = "unknown_file";

    /// The file name quoted in a content-disposition header, if any.
    pub fn extract_filename(headers: &str) -> (r: Option<&str>)
        ensures
            match r {
                Some(name) => spec_extract_filename(headers@) == Some(name@),
                None => spec_extract_filename(headers@) is None,
            },
    {
        let start = match crate::text::find_char(headers, '"') {
            Some(i) => i,
            None => {
                return None;
            },
        };
        let end = match crate::text::rfind_char(headers, '"') {
            Some(i) => i,
            None => {
                return None;
            },
        };
        proof {
            headers@.index_of_first_ensures('"');
            headers@.index_of_last_ensures('"');
            if start > end {
                assert(headers@[start as int] != '"');
            }
        }
        if start != end {
            Some(headers.substring_char(start + 1, end))
        } else {
            None
        }
    }
}

} // verus!
