//! The exit codes of the tool.

use vstd::prelude::*;
use vstd::std_specs::convert::FromSpecImpl;

verus! {

/// How the tool ended. The number of a code is its place in this list,
/// counted from zero.
#[derive(Debug, Clone, Copy, PartialEq, Eq, Structural)]
pub enum ExitCode {
    Success,
    GeneralError,
    InvalidArguments,
    DirectoryNotFound,
    MixedFormats,
    UnrecognizedFormat,
    ApiError,
    PermissionError,
    HistoryError,
    RenameError,
    CacheError,
}

impl ExitCode {
    /// The number of the code.
    pub open spec fn number(self) -> i32 {
        match self {
            ExitCode::Success => 0,
            ExitCode::GeneralError => 1,
            ExitCode::InvalidArguments => 2,
            ExitCode::DirectoryNotFound => 3,
            ExitCode::MixedFormats => 4,
            ExitCode::UnrecognizedFormat => 5,
            ExitCode::ApiError => 6,
            ExitCode::PermissionError => 7,
            ExitCode::HistoryError => 8,
            ExitCode::RenameError => 9,
            ExitCode::CacheError => 10,
        }
    }

    /// The number of the code.
    pub fn code(self) -> (n: i32)
        ensures
            n == self.number(),
    {
        match self {
            ExitCode::Success => 0,
            ExitCode::GeneralError => 1,
            ExitCode::InvalidArguments => 2,
            ExitCode::DirectoryNotFound => 3,
            ExitCode::MixedFormats => 4,
            ExitCode::UnrecognizedFormat => 5,
            ExitCode::ApiError => 6,
            ExitCode::PermissionError => 7,
            ExitCode::HistoryError => 8,
            ExitCode::RenameError => 9,
            ExitCode::CacheError => 10,
        }
    }
}

impl From<ExitCode> for i32 {
    fn from(code: ExitCode) -> (n: i32) {
        code.code()
    }
}

impl FromSpecImpl<ExitCode> for i32 {
    open spec fn obeys_from_spec() -> bool {
        true
    }

    open spec fn from_spec(code: ExitCode) -> i32 {
        code.number()
    }
}

} // verus!
