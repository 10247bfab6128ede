//! The rule that says which page of a PDF may be asked for.
//!
//! Loading the document and drawing the page is left to the caller.

use vstd::prelude::*;
use crate::error::OmniReaderError;

verus! {

/// Accepts the pages that the document has and hands back the page number
/// as an index into them; refuses every other number with a parse error
/// that names the number and the count of pages.
pub fn check_page_number(page_number: u32, page_count: u16) -> (r: Result<u16, OmniReaderError>)
    ensures
        r is Ok <==> page_number < page_count,
        r matches Ok(index) ==> index == page_number,
        r matches Err(e) ==> e is ParseError && e.detail()
            == OmniReaderError::out_of_range_text(
            "Page"@,
            page_number as nat,
            page_count as nat,
        ),
{
    if page_number >= page_count as u32 {
        Err(OmniReaderError::out_of_range("Page", page_number as u64, page_count as u64))
    } else {
        Ok(page_number as u16)
    }
}

} // verus!
