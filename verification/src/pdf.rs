//! Reading the text of a PDF document: how the outcome of the extraction is reported.
//!
//! The extraction itself (`pdf_extract::extract_text_from_mem`) panics on some
//! malformed or unsupported documents, which no contract can describe; the
//! application makes that call under a panic guard and hands the outcome here.
use vstd::prelude::*;
use vstd::string::*;

verus! {

pub const PDF_READ_FAILURE: &'static str = "Static Node Reading Failure: ";

/// The error reported when the text of a document could not be read.
pub fn pdf_read_failure(detail: &str) -> (r: String)
    ensures
        r@ == PDF_READ_FAILURE@ + detail@,
{
    let mut r = String::from_str(PDF_READ_FAILURE);
    r.append(detail);
    r
}

/// The outcome of reading a document, given what the extraction gave: its text, or
/// the description of its failure, which is reported with its cause.
pub fn pdf_text_outcome(extracted: Result<String, String>) -> (r: Result<String, String>)
    ensures
        extracted matches Ok(t) ==> r matches Ok(u) && u@ == t@,
        extracted matches Err(d) ==> r matches Err(m) && m@ == PDF_READ_FAILURE@ + d@,
{
    match extracted {
        Ok(text) => Ok(text),
        Err(detail) => Err(pdf_read_failure(detail.as_str())),
    }
}

} // verus!
