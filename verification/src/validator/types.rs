//! What validating a batch gives.

use crate::parser::{DirectoryFormat, ParsedDirectory, ParsedName};
use crate::text::{extend_str, string_of};
use vstd::prelude::*;

verus! {

/// A batch whose names are all in one scheme.
#[derive(Debug)]
pub struct ValidationResult {
    /// The scheme of every name of the batch.
    pub format: DirectoryFormat,
    /// The parsed names, in the order of the batch.
    pub directories: Vec<ParsedDirectory>,
}

impl ValidationResult {
    /// Every name of the batch is in the scheme that the batch is in.
    pub open spec fn wf(&self) -> bool {
        forall|i: int|
            0 <= i < self.directories@.len() ==> (#[trigger] self.directories@[i])@.format()
                == self.format
    }

    /// The parsed names of the batch.
    pub open spec fn names(&self) -> Seq<ParsedName> {
        Seq::new(self.directories@.len(), |i: int| self.directories@[i]@)
    }
}

/// The names of a batch that is in both schemes.
#[derive(Debug, Clone)]
pub struct FormatMismatch {
    /// The names in the compact scheme.
    pub anidb_dirs: Vec<String>,
    /// The names in the readable scheme.
    pub human_readable_dirs: Vec<String>,
}

/// Why a batch was refused.
#[derive(Debug)]
pub enum ValidationError {
    /// Some names are in neither scheme. Holds all of them.
    UnrecognizedDirectories { directories: Vec<String> },
    /// The batch is in both schemes.
    MixedFormats { mismatch: FormatMismatch },
    /// The batch is empty.
    NoDirectories,
}

/// The texts of the given strings, in order.
pub open spec fn texts(strings: Seq<String>) -> Seq<Seq<char>> {
    Seq::new(strings.len(), |i: int| strings[i]@)
}

/// One line `  - <name>` for each name.
pub open spec fn bullet_list(names: Seq<Seq<char>>) -> Seq<char>
    decreases names.len(),
{
    if names.len() == 0 {
        Seq::empty()
    } else {
        bullet_list(names.drop_last()) + "  - "@ + names.last() + "\n"@
    }
}

/// Appends one line `  - <name>` for each of the first `count` names.
pub(crate) fn push_bullets(buf: &mut Vec<char>, names: &Vec<String>, count: usize)
    requires
        count <= names.len(),
    ensures
        final(buf)@ == old(buf)@ + bullet_list(texts(names@).take(count as int)),
{
    let ghost all = texts(names@);
    let mut i: usize = 0;
    while i < count
        invariant
            i <= count <= names.len(),
            all == texts(names@),
            buf@ == old(buf)@ + bullet_list(all.take(i as int)),
        decreases count - i,
    {
        extend_str(buf, "  - ");
        extend_str(buf, names[i].as_str());
        extend_str(buf, "\n");
        proof {
            let t = all.take(i + 1);
            assert(t.drop_last() =~= all.take(i as int));
        }
        i += 1;
    }
}

impl ValidationError {
    /// The report for a user, as a sequence of characters: every offending
    /// name on a line of its own.
    pub open spec fn report(&self) -> Seq<char> {
        match self {
            ValidationError::UnrecognizedDirectories { directories } =>
                "The following directories do not match any known format:\n"@ + bullet_list(
                    texts(directories@),
                ) + "\nExpected formats:\n"@ + "  AniDB:          [<series>] <anidb_id>\n"@
                    + "  Human-readable: [<series>] <title> (<year>) [catalog-<id>]\n"@,
            ValidationError::MixedFormats { mismatch } =>
                "Found directories in multiple formats. All directories must be in the same format.\n\n"@
                    + (if mismatch.anidb_dirs@.len() > 0 {
                    "AniDB format directories:\n"@ + bullet_list(texts(mismatch.anidb_dirs@))
                        + "\n"@
                } else {
                    Seq::empty()
                }) + (if mismatch.human_readable_dirs@.len() > 0 {
                    "Human-readable format directories:\n"@ + bullet_list(
                        texts(mismatch.human_readable_dirs@),
                    )
                } else {
                    Seq::empty()
                }),
            ValidationError::NoDirectories => "No subdirectories found in the target directory."@,
        }
    }

    /// The report for a user: every offending name on a line of its own.
    pub fn format_error_message(&self) -> (msg: String)
        ensures
            msg@ == self.report(),
    {
        let mut buf: Vec<char> = Vec::new();
        match self {
            ValidationError::UnrecognizedDirectories { directories } => {
                extend_str(&mut buf, "The following directories do not match any known format:\n");
                push_bullets(&mut buf, directories, directories.len());
                assert(texts(directories@).take(directories.len() as int) =~= texts(
                    directories@,
                ));
                extend_str(&mut buf, "\nExpected formats:\n");
                extend_str(&mut buf, "  AniDB:          [<series>] <anidb_id>\n");
                extend_str(
                    &mut buf,
                    "  Human-readable: [<series>] <title> (<year>) [catalog-<id>]\n",
                );
            },
            ValidationError::MixedFormats { mismatch } => {
                extend_str(
                    &mut buf,
                    "Found directories in multiple formats. All directories must be in the same format.\n\n",
                );
                if mismatch.anidb_dirs.len() > 0 {
                    extend_str(&mut buf, "AniDB format directories:\n");
                    push_bullets(&mut buf, &mismatch.anidb_dirs, mismatch.anidb_dirs.len());
                    assert(texts(mismatch.anidb_dirs@).take(mismatch.anidb_dirs.len() as int)
                        =~= texts(mismatch.anidb_dirs@));
                    extend_str(&mut buf, "\n");
                }
                if mismatch.human_readable_dirs.len() > 0 {
                    extend_str(&mut buf, "Human-readable format directories:\n");
                    push_bullets(
                        &mut buf,
                        &mismatch.human_readable_dirs,
                        mismatch.human_readable_dirs.len(),
                    );
                    assert(texts(mismatch.human_readable_dirs@).take(
                        mismatch.human_readable_dirs.len() as int,
                    ) =~= texts(mismatch.human_readable_dirs@));
                }
            },
            ValidationError::NoDirectories => {
                extend_str(&mut buf, "No subdirectories found in the target directory.");
            },
        }
        string_of(&buf)
    }
}

} // verus!
