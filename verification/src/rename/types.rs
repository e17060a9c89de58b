//! The operations of a batch and what a batch gives.

use crate::paths::{file_name, file_name_of, join_path, joined_path, parent, parent_of};
use vstd::prelude::*;

verus! {

/// The direction of a batch.
#[derive(Debug, Clone, Copy, PartialEq, Eq, Structural)]
pub enum RenameDirection {
    /// From the compact scheme to the readable scheme.
    AniDbToReadable,
    /// From the readable scheme to the compact scheme.
    ReadableToAniDb,
}

impl RenameDirection {
    /// The direction in words.
    pub fn description(&self) -> (text: &'static str)
        ensures
            text@ == match self {
                RenameDirection::AniDbToReadable => "AniDB → Human-readable"@,
                RenameDirection::ReadableToAniDb => "Human-readable → AniDB"@,
            },
    {
        match self {
            RenameDirection::AniDbToReadable => "AniDB → Human-readable",
            RenameDirection::ReadableToAniDb => "Human-readable → AniDB",
        }
    }

    /// The other direction.
    pub fn reversed(&self) -> (other: RenameDirection)
        ensures
            other == self.spec_reversed(),
    {
        match self {
            RenameDirection::AniDbToReadable => RenameDirection::ReadableToAniDb,
            RenameDirection::ReadableToAniDb => RenameDirection::AniDbToReadable,
        }
    }

    /// The other direction.
    pub open spec fn spec_reversed(&self) -> RenameDirection {
        match self {
            RenameDirection::AniDbToReadable => RenameDirection::ReadableToAniDb,
            RenameDirection::ReadableToAniDb => RenameDirection::AniDbToReadable,
        }
    }
}

/// The renaming of one directory.
#[derive(Debug, Clone)]
pub struct RenameOperation {
    /// The path of the directory as it is.
    pub source_path: String,
    /// The name of the directory as it is.
    pub source_name: String,
    /// The path of the directory as it shall be.
    pub destination_path: String,
    /// The name of the directory as it shall be.
    pub destination_name: String,
    /// The id that the directory carries.
    pub anidb_id: u32,
    /// Whether the new name had to be shortened.
    pub truncated: bool,
}

/// Mathematical content of a [`RenameOperation`].
pub struct OperationData {
    pub source_path: Seq<char>,
    pub source_name: Seq<char>,
    pub destination_path: Seq<char>,
    pub destination_name: Seq<char>,
    pub id: u32,
    pub truncated: bool,
}

impl View for RenameOperation {
    type V = OperationData;

    open spec fn view(&self) -> OperationData {
        OperationData {
            source_path: self.source_path@,
            source_name: self.source_name@,
            destination_path: self.destination_path@,
            destination_name: self.destination_name@,
            id: self.anidb_id,
            truncated: self.truncated,
        }
    }
}

/// The operation that renames the directory at `source_path` to
/// `destination_name` in the same parent directory. The source name is the
/// last component of the source path.
pub open spec fn operation_for(
    source_path: Seq<char>,
    destination_name: Seq<char>,
    id: u32,
    truncated: bool,
) -> OperationData {
    OperationData {
        source_path,
        source_name: match file_name_of(source_path) {
            Some(name) => name,
            None => Seq::empty(),
        },
        destination_path: match parent_of(source_path) {
            Some(dir) => joined_path(dir, destination_name),
            None => destination_name,
        },
        destination_name,
        id,
        truncated,
    }
}

/// The operation that renames the directory `source_name` in `target_dir`
/// to `destination_name`.
pub open spec fn operation_in(
    target_dir: Seq<char>,
    source_name: Seq<char>,
    destination_name: Seq<char>,
    id: u32,
    truncated: bool,
) -> OperationData {
    OperationData {
        source_path: joined_path(target_dir, source_name),
        source_name,
        destination_path: joined_path(target_dir, destination_name),
        destination_name,
        id,
        truncated,
    }
}

impl RenameOperation {
    /// The operation that renames the directory `source_name` in
    /// `target_dir` to `destination_name`.
    pub fn in_directory(
        target_dir: &str,
        source_name: &str,
        destination_name: String,
        anidb_id: u32,
        truncated: bool,
    ) -> (op: RenameOperation)
        ensures
            op@ == operation_in(target_dir@, source_name@, destination_name@, anidb_id, truncated),
    {
        RenameOperation {
            source_path: join_path(target_dir, source_name),
            source_name: source_name.to_owned(),
            destination_path: join_path(target_dir, destination_name.as_str()),
            destination_name,
            anidb_id,
            truncated,
        }
    }

    /// The operation that renames the directory at `source_path` to
    /// `destination_name` in the same parent directory.
    pub fn new(
        source_path: String,
        destination_name: String,
        anidb_id: u32,
        truncated: bool,
    ) -> (op: RenameOperation)
        ensures
            op@ == operation_for(source_path@, destination_name@, anidb_id, truncated),
    {
        let source_name = match file_name(source_path.as_str()) {
            Some(name) => name,
            None => String::new(),
        };
        let destination_path = match parent(source_path.as_str()) {
            Some(dir) => join_path(dir.as_str(), destination_name.as_str()),
            None => destination_name.clone(),
        };
        RenameOperation {
            source_path,
            source_name,
            destination_path,
            destination_name,
            anidb_id,
            truncated,
        }
    }

    /// A copy with the same content.
    pub fn duplicate(&self) -> (out: RenameOperation)
        ensures
            out@ == self@,
    {
        RenameOperation {
            source_path: self.source_path.clone(),
            source_name: self.source_name.clone(),
            destination_path: self.destination_path.clone(),
            destination_name: self.destination_name.clone(),
            anidb_id: self.anidb_id,
            truncated: self.truncated,
        }
    }
}

/// The content of the given operations, in order.
pub open spec fn operations_data(ops: Seq<RenameOperation>) -> Seq<OperationData> {
    Seq::new(ops.len(), |i: int| ops[i]@)
}

/// How many of the given operations shortened a name.
pub open spec fn truncated_among(ops: Seq<RenameOperation>) -> nat
    decreases ops.len(),
{
    if ops.len() == 0 {
        0
    } else {
        truncated_among(ops.drop_last()) + if ops.last().truncated {
            1nat
        } else {
            0nat
        }
    }
}

/// What a batch did or would do.
#[derive(Debug, Clone)]
pub struct RenameResult {
    /// The direction of the batch.
    pub direction: RenameDirection,
    /// The operations, in the order of the batch.
    pub operations: Vec<RenameOperation>,
    /// Whether the batch was only planned.
    pub dry_run: bool,
}

impl RenameResult {
    /// A result without operations.
    pub fn new(direction: RenameDirection, dry_run: bool) -> (result: RenameResult)
        ensures
            result.direction == direction,
            result.dry_run == dry_run,
            result.operations@.len() == 0,
    {
        RenameResult { direction, operations: Vec::new(), dry_run }
    }

    /// Adds an operation at the end.
    pub fn add_operation(&mut self, op: RenameOperation)
        ensures
            final(self).operations@ == old(self).operations@.push(op),
            final(self).direction == old(self).direction,
            final(self).dry_run == old(self).dry_run,
    {
        self.operations.push(op);
    }

    /// How many operations shortened a name.
    pub fn truncated_count(&self) -> (count: usize)
        ensures
            count == truncated_among(self.operations@),
    {
        let mut count: usize = 0;
        let mut i: usize = 0;
        while i < self.operations.len()
            invariant
                i <= self.operations.len(),
                count == truncated_among(self.operations@.take(i as int)),
                count <= i,
            decreases self.operations.len() - i,
        {
            proof {
                let t = self.operations@.take(i + 1);
                assert(t.drop_last() =~= self.operations@.take(i as int));
            }
            if self.operations[i].truncated {
                count += 1;
            }
            i += 1;
        }
        assert(self.operations@.take(self.operations.len() as int) =~= self.operations@);
        count
    }

    /// Whether there is no operation.
    pub fn is_empty(&self) -> (r: bool)
        ensures
            r == (self.operations@.len() == 0),
    {
        self.operations.len() == 0
    }

    /// How many operations there are.
    pub fn len(&self) -> (n: usize)
        ensures
            n == self.operations@.len(),
    {
        self.operations.len()
    }
}

} // verus!
