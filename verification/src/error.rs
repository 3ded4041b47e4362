//! Error reports of the API endpoints.

use vstd::prelude::*;
use crate::text::{decimal, decimal_text};

verus! {

/// An error reported to an API client: where it arose and what it was.
#[derive(Debug)]
pub struct ErrorApi {
    error: String,
}

impl ErrorApi {
    /// The report of `error`, raised at `line` of `file`: `<file>:<line> : <error>`.
    pub fn new(error: &str, file: &str, line: u32) -> (r: ErrorApi)
        ensures
            r.text() == file@ + ":"@ + decimal(line as nat) + " : "@ + error@,
    {
        let mut out = String::from_str(file);
        out.append(":");
        let n = decimal_text(line as u64);
        out.append(n.as_str());
        out.append(" : ");
        out.append(error);
        ErrorApi { error: out }
    }

    /// The text of the report.
    pub closed spec fn text(&self) -> Seq<char> {
        self.error@
    }

    /// The text of the report.
    pub fn error(&self) -> (r: &str)
        ensures
            r@ == self.text(),
    {
        self.error.as_str()
    }
}

/// The failing step that the error page demonstrates.
pub fn some_error_func() -> (r: Result<(), String>)
    ensures
        r matches Err(e) && e@ == "something wrong"@,
{
    Err(String::from_str("something wrong"))
}

} // verus!
