use vstd::prelude::*;

verus! {

/// Every way in which an invocation can be refused.
#[derive(Debug, Clone, Copy, PartialEq, Eq, Structural)]
pub enum FileGenError {
    IncompatibleAsciiLoremError,
    InvalidAmountForSizeError,
    InvalidTypeForSizeError,
    DirectoryPassedError,
}

/// The human-readable text of each error.
pub open spec fn error_message(e: FileGenError) -> Seq<char> {
    match e {
        FileGenError::IncompatibleAsciiLoremError => "You cannot pass --ascii and --lorem at the same time"@,
        FileGenError::InvalidAmountForSizeError => "Invalid amount passed for the size"@,
        FileGenError::InvalidTypeForSizeError => "Invalid type passed for size! Valid options are 'b', 'kb', 'mb' and 'gb'"@,
        FileGenError::DirectoryPassedError => "Invalid path passed! Directory was passed instead of file"@,
    }
}

impl FileGenError {
    /// The message shown to the user for this error.
    pub fn message(&self) -> (r: &'static str)
        ensures
            r@ == error_message(*self),
    {
        match self {
            FileGenError::IncompatibleAsciiLoremError => "You cannot pass --ascii and --lorem at the same time",
            FileGenError::InvalidAmountForSizeError => "Invalid amount passed for the size",
            FileGenError::InvalidTypeForSizeError => "Invalid type passed for size! Valid options are 'b', 'kb', 'mb' and 'gb'",
            FileGenError::DirectoryPassedError => "Invalid path passed! Directory was passed instead of file",
        }
    }
}

} // verus!
