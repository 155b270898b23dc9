use vstd::prelude::*;

use crate::error::PdfError;
use crate::util::{contains_nul, has_nul, path_to_glib_url, glib_url, CanonicalPath};

verus! {

/// What the foreign open call is given: the document's file URI and its
/// password, both free of NUL characters.
#[derive(Debug)]
pub struct OpenRequest {
    pub url: String,
    pub password: String,
}

/// The password as it crosses the foreign boundary: unchanged, or
/// `InvalidPassword` where it holds a NUL character.
pub fn check_password(password: &str) -> (r: Result<String, PdfError>)
    ensures
        r is Ok <==> !has_nul(password@),
        r is Ok ==> r->Ok_0@ == password@,
        r is Err ==> r->Err_0 is InvalidPassword,
{
    if contains_nul(password) {
        Err(PdfError::InvalidPassword)
    } else {
        Ok(password.to_owned())
    }
}

/// Checks the arguments of a document open: first the path (see
/// `path_to_glib_url`), then the password (see `check_password`). Only
/// where both pass is there a request for the foreign open call.
pub fn open_request(canonical: CanonicalPath, password: &str) -> (r: Result<
    OpenRequest,
    PdfError,
>)
    ensures
        canonical is Unresolved <==> r matches Err(PdfError::PathNotFound),
        r matches Err(PdfError::InvalidPath) <==> (canonical is NotUnicode || (
        canonical matches CanonicalPath::Resolved(p) && has_nul(p@))),
        r matches Err(PdfError::InvalidPassword) <==> (canonical matches CanonicalPath::Resolved(
            p,
        ) && !has_nul(p@) && has_nul(password@)),
        r is Ok <==> (canonical matches CanonicalPath::Resolved(p) && !has_nul(p@) && !has_nul(
            password@,
        )),
        r is Ok ==> (canonical matches CanonicalPath::Resolved(p) && r->Ok_0.url@ == glib_url(p@)
            && r->Ok_0.password@ == password@),
        r is Err ==> (r->Err_0 is PathNotFound || r->Err_0 is InvalidPath
            || r->Err_0 is InvalidPassword),
{
    let url = match path_to_glib_url(canonical) {
        Ok(u) => u,
        Err(e) => {
            return Err(e);
        },
    };
    match check_password(password) {
        Ok(pw) => Ok(OpenRequest { url, password: pw }),
        Err(e) => Err(e),
    }
}

/// The page count as the foreign engine reports it, taken over by a plain
/// numeric reinterpretation of its `int`.
pub fn page_count(raw: i32) -> (r: usize)
    ensures
        r == raw as usize,
{
    raw as usize
}

/// The index that the foreign page lookup is called with, or `None` where no
/// call is to be made: an index at or past the page count, or one that the
/// foreign `int` cannot hold. So an index out of range never reaches the
/// foreign engine, and never wraps round to another page.
pub fn lookup_index(index: usize, page_count: usize) -> (r: Option<i32>)
    ensures
        r is Some <==> (index < page_count && index <= i32::MAX),
        r is Some ==> r->0 as int == index as int,
{
    if index < page_count && index <= i32::MAX as usize {
        Some(index as i32)
    } else {
        None
    }
}

} // verus!
