//! The options of the tool, and what they ask for.

use crate::parser::opt_text;
use vstd::prelude::*;

verus! {

/// The options of one run of the tool.
#[derive(Debug, Clone)]
pub struct Args {
    /// The directory whose subdirectories are renamed.
    pub target_dir: Option<String>,
    /// Only plan, change nothing.
    pub dry: bool,
    /// How often `-v` was given.
    pub verbose: u8,
    /// The journal to revert.
    pub revert: Option<String>,
    /// The most bytes that a directory name may take.
    pub max_length: usize,
    /// The days after which cached metadata is too old.
    pub cache_expiry: u32,
    /// The directory whose cache is described.
    pub cache_info: Option<String>,
    /// The directory whose cache is emptied.
    pub cache_clear: Option<String>,
    /// The directory whose cache is pruned.
    pub cache_prune: Option<String>,
}

/// What a run of the tool does.
#[derive(Debug, Clone, PartialEq, Eq)]
pub enum Command {
    /// Describe the cache of a directory.
    CacheInfo(String),
    /// Empty the cache of a directory.
    CacheClear(String),
    /// Prune the cache of a directory.
    CachePrune(String),
    /// Revert a journal, for the directory where one is named.
    Revert { history_file: String, target_dir: Option<String> },
    /// Rename the subdirectories of a directory.
    Rename(String),
    /// Nothing was asked for.
    Nothing,
}

/// Mathematical content of a [`Command`].
pub enum CommandData {
    CacheInfo(Seq<char>),
    CacheClear(Seq<char>),
    CachePrune(Seq<char>),
    Revert { history_file: Seq<char>, target_dir: Option<Seq<char>> },
    Rename(Seq<char>),
    Nothing,
}

impl View for Command {
    type V = CommandData;

    open spec fn view(&self) -> CommandData {
        match self {
            Command::CacheInfo(dir) => CommandData::CacheInfo(dir@),
            Command::CacheClear(dir) => CommandData::CacheClear(dir@),
            Command::CachePrune(dir) => CommandData::CachePrune(dir@),
            Command::Revert { history_file, target_dir } => CommandData::Revert {
                history_file: history_file@,
                target_dir: opt_text(*target_dir),
            },
            Command::Rename(dir) => CommandData::Rename(dir@),
            Command::Nothing => CommandData::Nothing,
        }
    }
}

impl Default for Args {
    /// No directory, no journal, names of at most 255 bytes and metadata
    /// that is good for 30 days.
    fn default() -> (args: Args)
        ensures
            args.target_dir is None,
            !args.dry,
            args.verbose == 0,
            args.revert is None,
            args.max_length == 255,
            args.cache_expiry == 30,
            args.cache_info is None,
            args.cache_clear is None,
            args.cache_prune is None,
    {
        Args {
            target_dir: None,
            dry: false,
            verbose: 0,
            revert: None,
            max_length: 255,
            cache_expiry: 30,
            cache_info: None,
            cache_clear: None,
            cache_prune: None,
        }
    }
}

impl Args {
    /// What the options ask for. The cache commands come first, then a
    /// revert, then a rename.
    pub open spec fn asked(&self) -> CommandData {
        if self.cache_info is Some {
            CommandData::CacheInfo(self.cache_info->0@)
        } else if self.cache_clear is Some {
            CommandData::CacheClear(self.cache_clear->0@)
        } else if self.cache_prune is Some {
            CommandData::CachePrune(self.cache_prune->0@)
        } else if self.revert is Some {
            CommandData::Revert {
                history_file: self.revert->0@,
                target_dir: opt_text(self.target_dir),
            }
        } else if self.target_dir is Some {
            CommandData::Rename(self.target_dir->0@)
        } else {
            CommandData::Nothing
        }
    }

    /// What the options ask for.
    pub fn command(&self) -> (command: Command)
        ensures
            command@ == self.asked(),
    {
        if let Some(dir) = &self.cache_info {
            Command::CacheInfo(dir.clone())
        } else if let Some(dir) = &self.cache_clear {
            Command::CacheClear(dir.clone())
        } else if let Some(dir) = &self.cache_prune {
            Command::CachePrune(dir.clone())
        } else if let Some(file) = &self.revert {
            Command::Revert {
                history_file: file.clone(),
                target_dir: crate::parser::clone_opt_string(&self.target_dir),
            }
        } else if let Some(dir) = &self.target_dir {
            Command::Rename(dir.clone())
        } else {
            Command::Nothing
        }
    }

    /// Whether the options can be run: a target directory is given, or a
    /// journal to revert, or a cache command.
    pub fn is_complete(&self) -> (r: bool)
        ensures
            r == !(self.asked() is Nothing),
    {
        self.target_dir.is_some() || self.revert.is_some() || self.cache_info.is_some()
            || self.cache_clear.is_some() || self.cache_prune.is_some()
    }

    /// Whether the log and not the user interface says what happens.
    pub fn is_verbose(&self) -> (r: bool)
        ensures
            r == (self.verbose > 0),
    {
        self.verbose > 0
    }
}

} // verus!
