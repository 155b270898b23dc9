use vstd::prelude::*;
use vstd::string::{StrSliceExecFns, StringExecFns};

use crate::error::PdfError;

verus! {

/// The scheme prefix of the file URIs that the document engine opens.
pub open spec fn uri_prefix() -> Seq<char> {
    seq!['f', 'i', 'l', 'e', ':', '/', '/', '/']
}

/// Whether `s` holds the NUL character, which cannot cross the foreign
/// boundary inside a string.
pub open spec fn has_nul(s: Seq<char>) -> bool {
    exists|i: int| 0 <= i < s.len() && s[i] == '\0'
}

/// The URI of a canonical path: the prefix followed by the path.
pub open spec fn glib_url(path: Seq<char>) -> Seq<char> {
    uri_prefix() + path
}

/// The text of a foreign error record; a missing record reads as empty.
pub open spec fn record_message(record: Option<String>) -> Seq<char> {
    match record {
        Some(m) => m@,
        None => Seq::empty(),
    }
}

/// What resolving a filesystem path to its canonical absolute form gave.
#[derive(Debug)]
pub enum CanonicalPath {
    /// The path could not be resolved (most often it does not exist).
    Unresolved,
    /// The path resolved, but its text is not valid Unicode.
    NotUnicode,
    /// The canonical absolute path.
    Resolved(String),
}

/// Whether `s` holds a NUL character.
pub fn contains_nul(s: &str) -> (r: bool)
    ensures
        r == has_nul(s@),
{
    let n = s.unicode_len();
    let mut i: usize = 0;
    while i < n
        invariant
            n == s@.len(),
            i <= n,
            forall|j: int| 0 <= j < i ==> s@[j] != '\0',
        decreases n - i,
    {
        if s.get_char(i) == '\0' {
            return true;
        }
        i = i + 1;
    }
    false
}

/// Turns the result of a foreign call that reports failure through an error
/// record into a `Result`. `ret` is the handle it returned (`None` for a null
/// handle) and `record` the message of the error record it filled, if any.
/// A returned handle wins over the record, which is then not read; without a
/// handle the call failed, and the record's message is carried in the error.
pub fn call_with_gerror<T>(ret: Option<T>, record: Option<String>) -> (r: Result<T, PdfError>)
    ensures
        ret is Some ==> r == Ok::<T, PdfError>(ret->0),
        ret is None ==> (r matches Err(PdfError::ForeignCallFailed(m)) && m@ == record_message(
            record,
        )),
{
    match ret {
        Some(v) => Ok(v),
        None => {
            let m = match record {
                Some(m) => m,
                None => String::new(),
            };
            Err(PdfError::ForeignCallFailed(m))
        },
    }
}

/// The file URI that the document engine is opened with, from the canonical
/// form of the path: `file:///` followed by the canonical path. An unresolved
/// path gives `PathNotFound`; a path whose text is not Unicode or holds a NUL
/// character gives `InvalidPath`.
pub fn path_to_glib_url(canonical: CanonicalPath) -> (r: Result<String, PdfError>)
    ensures
        canonical is Unresolved <==> r matches Err(PdfError::PathNotFound),
        r matches Err(PdfError::InvalidPath) <==> (canonical is NotUnicode || (
        canonical matches CanonicalPath::Resolved(p) && has_nul(p@))),
        r is Ok <==> (canonical matches CanonicalPath::Resolved(p) && !has_nul(p@)),
        r is Ok ==> (canonical matches CanonicalPath::Resolved(p) && r->Ok_0@ == glib_url(p@)),
        r is Ok ==> !has_nul(r->Ok_0@),
        r is Err ==> (r->Err_0 is PathNotFound || r->Err_0 is InvalidPath),
{
    match canonical {
        CanonicalPath::Unresolved => Err(PdfError::PathNotFound),
        CanonicalPath::NotUnicode => Err(PdfError::InvalidPath),
        CanonicalPath::Resolved(p) => {
            if contains_nul(p.as_str()) {
                Err(PdfError::InvalidPath)
            } else {
                let prefix = String::from_str("file:///");
                proof {
                    reveal_strlit("file:///");
                }
                assert(prefix@ =~= uri_prefix());
                let url = prefix.concat(p.as_str());
                assert forall|i: int| 0 <= i < url@.len() implies url@[i] != '\0' by {
                    if i >= 8 {
                        assert(url@[i] == p@[i - 8]);
                    }
                }
                Ok(url)
            }
        },
    }
}

} // verus!
