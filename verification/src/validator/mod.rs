//! Validates a batch of directories: every name must be recognised, and all
//! names must be in the same scheme.

mod types;

use crate::parser::{classify, parse_directory_name, DirectoryFormat, ParsedDirectory};
use crate::scanner::{entry_names, DirectoryEntry};
use vstd::prelude::*;

pub(crate) use types::push_bullets;
pub use types::{bullet_list, texts, FormatMismatch, ValidationError, ValidationResult};

verus! {

/// The names that are in neither scheme, in order.
pub open spec fn unrecognized_names(names: Seq<Seq<char>>) -> Seq<Seq<char>>
    decreases names.len(),
{
    if names.len() == 0 {
        Seq::empty()
    } else {
        let before = unrecognized_names(names.drop_last());
        if classify(names.last()) is None {
            before.push(names.last())
        } else {
            before
        }
    }
}

/// The names that are in the given scheme, in order.
pub open spec fn names_in_format(names: Seq<Seq<char>>, format: DirectoryFormat) -> Seq<
    Seq<char>,
>
    decreases names.len(),
{
    if names.len() == 0 {
        Seq::empty()
    } else {
        let before = names_in_format(names.drop_last(), format);
        match classify(names.last()) {
            Some(parsed) => if parsed.format() == format {
                before.push(names.last())
            } else {
                before
            },
            None => before,
        }
    }
}

/// The scheme of a batch that is accepted: the batch is not empty, every
/// name is recognised, and no two names are in different schemes.
pub open spec fn batch_format(names: Seq<Seq<char>>) -> Option<DirectoryFormat> {
    let compact = names_in_format(names, DirectoryFormat::AniDb);
    let readable = names_in_format(names, DirectoryFormat::HumanReadable);
    if names.len() > 0 && unrecognized_names(names).len() == 0 && (compact.len() == 0
        || readable.len() == 0) {
        Some(
            if compact.len() > 0 {
                DirectoryFormat::AniDb
            } else {
                DirectoryFormat::HumanReadable
            },
        )
    } else {
        None
    }
}

/// What validating a batch with the given names must give.
pub open spec fn validated(
    names: Seq<Seq<char>>,
    result: Result<ValidationResult, ValidationError>,
) -> bool {
    let unknown = unrecognized_names(names);
    let compact = names_in_format(names, DirectoryFormat::AniDb);
    let readable = names_in_format(names, DirectoryFormat::HumanReadable);
    match result {
        Err(ValidationError::NoDirectories) => names.len() == 0,
        Err(ValidationError::UnrecognizedDirectories { directories }) => {
            &&& names.len() > 0
            &&& unknown.len() > 0
            &&& texts(directories@) == unknown
        },
        Err(ValidationError::MixedFormats { mismatch }) => {
            &&& unknown.len() == 0
            &&& compact.len() > 0
            &&& readable.len() > 0
            &&& texts(mismatch.anidb_dirs@) == compact
            &&& texts(mismatch.human_readable_dirs@) == readable
        },
        Ok(batch) => {
            &&& batch_format(names) == Some(batch.format)
            &&& batch.wf()
            &&& batch.directories@.len() == names.len()
            &&& forall|i: int|
                0 <= i < names.len() ==> classify(names[i]) == Some(
                    (#[trigger] batch.directories@[i])@,
                )
        },
    }
}

/// Every name in a list of names of one scheme is in that scheme, and
/// nothing else of the batch is.
pub proof fn lemma_names_in_format(names: Seq<Seq<char>>, format: DirectoryFormat)
    ensures
        names_in_format(names, format).len() == 0 <==> forall|i: int|
            0 <= i < names.len() ==> !(classify(#[trigger] names[i]) matches Some(p) && p.format()
                == format),
        unrecognized_names(names).len() == 0 <==> forall|i: int|
            0 <= i < names.len() ==> classify(#[trigger] names[i]) is Some,
    decreases names.len(),
{
    if names.len() > 0 {
        let rest = names.drop_last();
        lemma_names_in_format(rest, format);
        assert forall|i: int| 0 <= i < rest.len() implies rest[i] == names[i] by {}
    }
}

/// Validates a batch: classifies every name, and accepts the batch where
/// every name is recognised and all are in one scheme.
///
/// An empty batch is refused with `NoDirectories`. Where names are in
/// neither scheme, all of them are returned in `UnrecognizedDirectories`.
/// Where the batch is in both schemes, the names of either are returned in
/// `MixedFormats`. Else the parsed names are returned in the order of the
/// batch.
pub fn validate_directories(entries: &[DirectoryEntry]) -> (result: Result<
    ValidationResult,
    ValidationError,
>)
    ensures
        validated(entry_names(entries@), result),
{
    let ghost names = entry_names(entries@);
    if entries.len() == 0 {
        return Err(ValidationError::NoDirectories);
    }
    let mut parsed: Vec<ParsedDirectory> = Vec::new();
    let mut unrecognized: Vec<String> = Vec::new();
    let mut anidb_dirs: Vec<String> = Vec::new();
    let mut human_readable_dirs: Vec<String> = Vec::new();
    let mut i: usize = 0;
    while i < entries.len()
        invariant
            i <= entries.len(),
            names == entry_names(entries@),
            texts(unrecognized@) == unrecognized_names(names.take(i as int)),
            texts(anidb_dirs@) == names_in_format(names.take(i as int), DirectoryFormat::AniDb),
            texts(human_readable_dirs@) == names_in_format(
                names.take(i as int),
                DirectoryFormat::HumanReadable,
            ),
            unrecognized@.len() == 0 ==> parsed@.len() == i,
            unrecognized@.len() == 0 ==> forall|j: int|
                0 <= j < i ==> classify(names[j]) == Some((#[trigger] parsed@[j])@),
        decreases entries.len() - i,
    {
        let entry = &entries[i];
        proof {
            let t = names.take(i + 1);
            assert(t.drop_last() =~= names.take(i as int));
        }
        match parse_directory_name(entry.name.as_str()) {
            Ok(p) => {
                match p.format() {
                    DirectoryFormat::AniDb => {
                        anidb_dirs.push(entry.name.clone());
                    },
                    DirectoryFormat::HumanReadable => {
                        human_readable_dirs.push(entry.name.clone());
                    },
                }
                parsed.push(p);
            },
            Err(_) => {
                unrecognized.push(entry.name.clone());
            },
        }
        i += 1;
    }
    assert(names.take(entries.len() as int) =~= names);
    if unrecognized.len() > 0 {
        return Err(ValidationError::UnrecognizedDirectories { directories: unrecognized });
    }
    let has_anidb = anidb_dirs.len() > 0;
    let has_human_readable = human_readable_dirs.len() > 0;
    if has_anidb && has_human_readable {
        return Err(
            ValidationError::MixedFormats {
                mismatch: FormatMismatch { anidb_dirs, human_readable_dirs },
            },
        );
    }
    let format = if has_anidb {
        DirectoryFormat::AniDb
    } else {
        DirectoryFormat::HumanReadable
    };
    let batch = ValidationResult { format, directories: parsed };
    proof {
        lemma_names_in_format(names, DirectoryFormat::AniDb);
        lemma_names_in_format(names, DirectoryFormat::HumanReadable);
    }
    Ok(batch)
}

/// Validates a batch and gives only the scheme that it is in.
pub fn quick_validate(entries: &[DirectoryEntry]) -> (result: Result<
    DirectoryFormat,
    ValidationError,
>)
    ensures
        match result {
            Ok(format) => batch_format(entry_names(entries@)) == Some(format),
            Err(e) => validated(entry_names(entries@), Err(e)),
        },
{
    match validate_directories(entries) {
        Ok(batch) => Ok(batch.format),
        Err(e) => Err(e),
    }
}

} // verus!
