//! What a directory name parses into.

use vstd::prelude::*;

verus! {

/// The two naming schemes. A batch is in exactly one of them.
#[derive(Debug, Clone, Copy, PartialEq, Eq, Structural)]
pub enum DirectoryFormat {
    /// `[<series>] <id>`
    AniDb,
    /// `[<series>] <title> ／ <alternate title> (<year>) [catalog-<id>]`
    HumanReadable,
}

/// A name in the compact scheme.
#[derive(Debug, Clone, PartialEq, Eq)]
pub struct AniDbFormat {
    pub series_tag: Option<String>,
    pub anidb_id: u32,
    pub original_name: String,
}

/// A name in the readable scheme.
#[derive(Debug, Clone, PartialEq, Eq)]
pub struct HumanReadableFormat {
    pub series_tag: Option<String>,
    pub title_jp: String,
    pub title_en: Option<String>,
    pub release_year: Option<u16>,
    pub anidb_id: u32,
    pub original_name: String,
}

/// A recognised directory name.
#[derive(Debug, Clone, PartialEq, Eq)]
pub enum ParsedDirectory {
    AniDb(AniDbFormat),
    HumanReadable(HumanReadableFormat),
}

/// Why a name was not recognised.
#[derive(Debug, PartialEq, Eq)]
pub enum ParseError {
    /// The name is in neither scheme. Holds the name.
    UnrecognizedFormat(String),
}

/// The text of an optional string.
pub open spec fn opt_text(o: Option<String>) -> Option<Seq<char>> {
    match o {
        Some(s) => Some(s@),
        None => None,
    }
}

/// Mathematical content of an [`AniDbFormat`].
pub struct AniDbName {
    pub tag: Option<Seq<char>>,
    pub id: u32,
    pub name: Seq<char>,
}

/// Mathematical content of a [`HumanReadableFormat`].
pub struct ReadableName {
    pub tag: Option<Seq<char>>,
    pub title: Seq<char>,
    pub alt_title: Option<Seq<char>>,
    pub year: Option<u16>,
    pub id: u32,
    pub name: Seq<char>,
}

/// Mathematical content of a [`ParsedDirectory`].
pub enum ParsedName {
    AniDb(AniDbName),
    HumanReadable(ReadableName),
}

impl ParsedName {
    /// The scheme of the name.
    pub open spec fn format(self) -> DirectoryFormat {
        match self {
            ParsedName::AniDb(_) => DirectoryFormat::AniDb,
            ParsedName::HumanReadable(_) => DirectoryFormat::HumanReadable,
        }
    }

    /// The id that the name carries.
    pub open spec fn id(self) -> u32 {
        match self {
            ParsedName::AniDb(n) => n.id,
            ParsedName::HumanReadable(n) => n.id,
        }
    }

    /// The series tag that the name carries, if any.
    pub open spec fn tag(self) -> Option<Seq<char>> {
        match self {
            ParsedName::AniDb(n) => n.tag,
            ParsedName::HumanReadable(n) => n.tag,
        }
    }

    /// The name as it was given.
    pub open spec fn name(self) -> Seq<char> {
        match self {
            ParsedName::AniDb(n) => n.name,
            ParsedName::HumanReadable(n) => n.name,
        }
    }
}

impl View for AniDbFormat {
    type V = AniDbName;

    open spec fn view(&self) -> AniDbName {
        AniDbName { tag: opt_text(self.series_tag), id: self.anidb_id, name: self.original_name@ }
    }
}

impl View for HumanReadableFormat {
    type V = ReadableName;

    open spec fn view(&self) -> ReadableName {
        ReadableName {
            tag: opt_text(self.series_tag),
            title: self.title_jp@,
            alt_title: opt_text(self.title_en),
            year: self.release_year,
            id: self.anidb_id,
            name: self.original_name@,
        }
    }
}

impl View for ParsedDirectory {
    type V = ParsedName;

    open spec fn view(&self) -> ParsedName {
        match self {
            ParsedDirectory::AniDb(f) => ParsedName::AniDb(f@),
            ParsedDirectory::HumanReadable(f) => ParsedName::HumanReadable(f@),
        }
    }
}

/// A copy of an optional string.
pub fn clone_opt_string(o: &Option<String>) -> (out: Option<String>)
    ensures
        opt_text(out) == opt_text(*o),
{
    match o {
        Some(s) => Some(s.clone()),
        None => None,
    }
}

impl AniDbFormat {
    /// A copy with the same content.
    pub fn duplicate(&self) -> (out: AniDbFormat)
        ensures
            out@ == self@,
    {
        AniDbFormat {
            series_tag: clone_opt_string(&self.series_tag),
            anidb_id: self.anidb_id,
            original_name: self.original_name.clone(),
        }
    }
}

impl HumanReadableFormat {
    /// A copy with the same content.
    pub fn duplicate(&self) -> (out: HumanReadableFormat)
        ensures
            out@ == self@,
    {
        HumanReadableFormat {
            series_tag: clone_opt_string(&self.series_tag),
            title_jp: self.title_jp.clone(),
            title_en: clone_opt_string(&self.title_en),
            release_year: self.release_year,
            anidb_id: self.anidb_id,
            original_name: self.original_name.clone(),
        }
    }
}

impl ParsedDirectory {
    /// The scheme that the name is in.
    pub fn format(&self) -> (f: DirectoryFormat)
        ensures
            f == self@.format(),
    {
        match self {
            ParsedDirectory::AniDb(_) => DirectoryFormat::AniDb,
            ParsedDirectory::HumanReadable(_) => DirectoryFormat::HumanReadable,
        }
    }

    /// The id that the name carries.
    pub fn anidb_id(&self) -> (id: u32)
        ensures
            id == self@.id(),
    {
        match self {
            ParsedDirectory::AniDb(f) => f.anidb_id,
            ParsedDirectory::HumanReadable(f) => f.anidb_id,
        }
    }

    /// The series tag that the name carries, if any.
    pub fn series_tag(&self) -> (tag: Option<&str>)
        ensures
            match tag {
                Some(t) => self@.tag() == Some(t@),
                None => self@.tag() is None,
            },
    {
        match self {
            ParsedDirectory::AniDb(f) => match &f.series_tag {
                Some(t) => Some(t.as_str()),
                None => None,
            },
            ParsedDirectory::HumanReadable(f) => match &f.series_tag {
                Some(t) => Some(t.as_str()),
                None => None,
            },
        }
    }

    /// The name as it was given.
    pub fn original_name(&self) -> (name: &str)
        ensures
            name@ == self@.name(),
    {
        match self {
            ParsedDirectory::AniDb(f) => f.original_name.as_str(),
            ParsedDirectory::HumanReadable(f) => f.original_name.as_str(),
        }
    }

    /// A copy with the same content.
    pub fn duplicate(&self) -> (out: ParsedDirectory)
        ensures
            out@ == self@,
    {
        match self {
            ParsedDirectory::AniDb(f) => ParsedDirectory::AniDb(f.duplicate()),
            ParsedDirectory::HumanReadable(f) => ParsedDirectory::HumanReadable(f.duplicate()),
        }
    }
}

impl ParseError {
    /// The message for a user.
    pub fn message(&self) -> (out: String)
        ensures
            out@ == "Directory name does not match any known format: "@ + self.name_text(),
    {
        match self {
            ParseError::UnrecognizedFormat(name) => {
                let mut buf = crate::text::chars_of(
                    "Directory name does not match any known format: ",
                );
                crate::text::extend_str(&mut buf, name.as_str());
                crate::text::string_of(&buf)
            },
        }
    }

    /// The name that was not recognised.
    pub open spec fn name_text(&self) -> Seq<char> {
        match self {
            ParseError::UnrecognizedFormat(name) => name@,
        }
    }
}

} // verus!
