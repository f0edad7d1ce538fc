use vstd::prelude::*;

verus! {

#[verifier::external_type_specification]
#[verifier::external_body]
pub struct ExIoError(std::io::Error);

/// Relies on `<std::io::Error as Display>::fmt` for the error's text; what it
/// says depends on the operating system, so nothing is claimed of it.
#[verifier::external_body]
fn io_error_text(error: &std::io::Error) -> String {
    format!("{}", error)
}

/// The text of an I/O error, as reported to the user.
pub fn ioerr_to_string(error: std::io::Error) -> String {
    io_error_text(&error)
}

/// What a look at an output directory found.
#[derive(Clone, Debug, PartialEq, Eq)]
pub enum DirListing {
    /// Nothing exists at the path.
    Missing,
    /// The directory exists and holds no entry.
    Empty,
    /// The directory exists and holds at least one entry.
    NotEmpty,
    /// The directory exists but could not be read; the text of the error.
    Unreadable(String),
}

/// The refusal given for a directory `dir` that already holds entries.
pub open spec fn not_empty_message(dir: Seq<char>) -> Seq<char> {
    "Directory '"@ + dir + "' is not empty. Use --overwrite to overwrite."@
}

/// Accepts an output directory that does not exist or is empty; refuses one
/// with entries, or one that could not be read, with the text to report.
pub fn verify_nonexistent_or_empty(dir: &str, listing: DirListing) -> (r: Result<(), String>)
    ensures
        match listing {
            DirListing::Missing | DirListing::Empty => r is Ok,
            DirListing::NotEmpty => r matches Err(m) && m@ == not_empty_message(dir@),
            DirListing::Unreadable(e) => r == Err::<(), String>(e),
        },
{
    match listing {
        DirListing::Missing | DirListing::Empty => Ok(()),
        DirListing::NotEmpty => {
            let m = String::from_str("Directory '").concat(dir).concat(
                "' is not empty. Use --overwrite to overwrite.",
            );
            Err(m)
        },
        DirListing::Unreadable(e) => Err(e),
    }
}

} // verus!
