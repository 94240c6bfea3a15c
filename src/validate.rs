use crate::error::FileGenError;
use vstd::prelude::*;

verus! {

/// What the generated file is filled with.
#[derive(Debug, Clone, Copy, PartialEq, Eq, Structural)]
pub enum ContentMode {
    Zero,
    Ascii,
    Lorem,
}

/// The mode that the two flags select, or the error for passing both.
pub open spec fn mode_of(ascii: bool, lorem: bool) -> Result<ContentMode, FileGenError> {
    if ascii && lorem {
        Err(FileGenError::IncompatibleAsciiLoremError)
    } else if ascii {
        Ok(ContentMode::Ascii)
    } else if lorem {
        Ok(ContentMode::Lorem)
    } else {
        Ok(ContentMode::Zero)
    }
}

/// The outcome of validating an invocation: the path is checked first,
/// then the flags.
pub open spec fn invocation_verdict(has_extension: bool, ascii: bool, lorem: bool) -> Result<
    ContentMode,
    FileGenError,
> {
    if !has_extension {
        Err(FileGenError::DirectoryPassedError)
    } else {
        mode_of(ascii, lorem)
    }
}

/// Whether `std::path::Path::extension` finds an extension in the path:
/// a function of the path text under the path syntax of the build target.
pub uninterp spec fn extension_present(path: Seq<char>) -> bool;

/// Relies on `std::path::Path::extension`: the answer depends on the path
/// text alone, and a path has an extension only where it holds a dot.
#[verifier::external_body]
fn path_has_extension(path: &str) -> (r: bool)
    ensures
        r == extension_present(path@),
        r ==> path@.contains('.'),
{
    std::path::Path::new(path).extension().is_some()
}

/// Refuses an output path without an extension, which names a directory.
pub fn check_extension(has_extension: bool) -> (r: Result<(), FileGenError>)
    ensures
        r == (if has_extension {
            Ok(())
        } else {
            Err(FileGenError::DirectoryPassedError)
        }),
{
    if has_extension {
        Ok(())
    } else {
        Err(FileGenError::DirectoryPassedError)
    }
}

/// Checks that the output path names a file, by its shape alone.
pub fn check_path(path: &str) -> (r: Result<(), FileGenError>)
    ensures
        r == (if extension_present(path@) {
            Ok(())
        } else {
            Err(FileGenError::DirectoryPassedError)
        }),
        !path@.contains('.') ==> r == Err::<(), FileGenError>(FileGenError::DirectoryPassedError),
{
    check_extension(path_has_extension(path))
}

/// Selects the content mode, refusing `ascii` and `lorem` together.
pub fn check_argument_compatability(ascii: bool, lorem: bool) -> (r: Result<
    ContentMode,
    FileGenError,
>)
    ensures
        r == mode_of(ascii, lorem),
{
    if ascii && lorem {
        Err(FileGenError::IncompatibleAsciiLoremError)
    } else if ascii {
        Ok(ContentMode::Ascii)
    } else if lorem {
        Ok(ContentMode::Lorem)
    } else {
        Ok(ContentMode::Zero)
    }
}

/// Validates an invocation, path first and flags second, and yields the
/// content mode.
pub fn validate_arguments(path: &str, ascii: bool, lorem: bool) -> (r: Result<
    ContentMode,
    FileGenError,
>)
    ensures
        r == invocation_verdict(extension_present(path@), ascii, lorem),
        !path@.contains('.') ==> r == Err::<ContentMode, FileGenError>(
            FileGenError::DirectoryPassedError,
        ),
{
    match check_path(path) {
        Ok(()) => check_argument_compatability(ascii, lorem),
        Err(e) => Err(e),
    }
}

} // verus!
