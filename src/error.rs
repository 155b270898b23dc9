use vstd::prelude::*;

verus! {

/// The errors of the library. Each is built where it is detected and handed
/// up unchanged.
#[derive(Debug)]
pub enum PdfError {
    /// A foreign call signalled failure through its error record; the
    /// record's message text is kept.
    ForeignCallFailed(String),
    /// The input path could not be resolved to an existing canonical path.
    PathNotFound,
    /// The path's URI is not text, or holds a NUL character.
    InvalidPath,
    /// The password holds a NUL character.
    InvalidPassword,
    /// A page index below the page count gave no page.
    PageLookupInconsistent(usize),
}

impl PdfError {
    /// The one-line text that is shown to the user.
    pub fn message(&self) -> (r: String)
        ensures
            self matches PdfError::ForeignCallFailed(m) ==> r@ == m@,
    {
        match self {
            PdfError::ForeignCallFailed(m) => m.clone(),
            PdfError::PathNotFound => String::from_str(
                "Could not turn path into canonical path. Maybe it does not exist?",
            ),
            PdfError::InvalidPath => String::from_str("Path invalid (contains NUL or non-utf8 characters)"),
            PdfError::InvalidPassword => String::from_str(
                "Password invalid (possibly contains NUL characters)",
            ),
            PdfError::PageLookupInconsistent(_) => String::from_str(
                "Page index within the page count gave no page",
            ),
        }
    }
}

} // verus!
